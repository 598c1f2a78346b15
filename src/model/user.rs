use vstd::prelude::*;
use vstd::string::*;

verus! {

/// The signed-in user as the pages show it.
#[derive(Debug, Clone, PartialEq, Eq)]
pub struct User {
    pub name: String,
    pub lang: String,
    pub token: String,
    pub expires: i64,
}

impl User {
    pub fn new(name: String, lang: String, token: String, expires: i64) -> (r: Self)
        ensures
            r.name == name,
            r.lang == lang,
            r.token == token,
            r.expires == expires,
    {
        User { name, lang, token, expires }
    }

}

/// A user's preferred language, as the accounts table stores it.
#[derive(Debug, Clone, Copy, PartialEq, Eq, Structural)]
pub enum Language {
    En,
    De,
}

impl Default for Language {
    fn default() -> (r: Self)
        ensures
            r == Language::En,
    {
        Language::En
    }
}

impl Language {
    /// The stored code of the language.
    pub fn to_string(&self) -> (r: String)
        ensures
            r@ == (match *self {
                Language::En => "en"@,
                Language::De => "de"@,
            }),
    {
        match self {
            Language::En => String::from_str("en"),
            Language::De => String::from_str("de"),
        }
    }
}

} // verus!
