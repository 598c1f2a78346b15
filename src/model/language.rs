use vstd::prelude::*;
use vstd::string::*;

use crate::utils::text_eq;

verus! {

/// The languages of the interface; English is the default.
#[derive(Debug, Clone, Copy, PartialEq, Eq, Structural)]
pub enum Language {
    En,
    De,
}

/// The code of a language.
pub open spec fn language_code(l: Language) -> Seq<char> {
    match l {
        Language::En => "en"@,
        Language::De => "de"@,
    }
}

/// The language of a code: `de` is German, anything else English.
pub open spec fn language_of(code: Seq<char>) -> Language {
    if code == "de"@ {
        Language::De
    } else {
        Language::En
    }
}

impl Default for Language {
    fn default() -> (r: Self)
        ensures
            r == Language::En,
    {
        Language::En
    }
}

impl Language {
    /// The code of the language, `en` or `de`.
    pub fn as_str(&self) -> (r: &'static str)
        ensures
            r@ == language_code(*self),
    {
        match self {
            Language::En => "en",
            Language::De => "de",
        }
    }

    /// The code of the language as an owned text.
    pub fn to_string(&self) -> (r: String)
        ensures
            r@ == language_code(*self),
    {
        String::from_str(self.as_str())
    }
}

impl From<&str> for Language {
    fn from(s: &str) -> (r: Self) {
        if text_eq(s, "de") {
            Language::De
        } else {
            Language::En
        }
    }
}

impl vstd::std_specs::convert::FromSpecImpl<&str> for Language {
    open spec fn obeys_from_spec() -> bool {
        true
    }

    open spec fn from_spec(v: &str) -> Language {
        language_of(v@)
    }
}

impl From<String> for Language {
    fn from(s: String) -> (r: Self) {
        if text_eq(s.as_str(), "de") {
            Language::De
        } else {
            Language::En
        }
    }
}

impl vstd::std_specs::convert::FromSpecImpl<String> for Language {
    open spec fn obeys_from_spec() -> bool {
        true
    }

    open spec fn from_spec(v: String) -> Language {
        language_of(v@)
    }
}

} // verus!
