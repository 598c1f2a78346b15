use vstd::prelude::*;
use vstd::string::*;

use crate::utils::{decimal, decimal_text, text_eq};

verus! {

/// How prominently the message of the day is shown.
#[derive(Debug, Clone, Copy, PartialEq, Eq, Structural)]
pub enum MessageOfTheDayLevel {
    Info,
    Warn,
    Error,
}

impl Default for MessageOfTheDayLevel {
    fn default() -> (r: Self)
        ensures
            r == MessageOfTheDayLevel::Info,
    {
        MessageOfTheDayLevel::Info
    }
}

/// The alert style of a level.
pub open spec fn alert_kind(l: MessageOfTheDayLevel) -> Seq<char> {
    match l {
        MessageOfTheDayLevel::Info => "info"@,
        MessageOfTheDayLevel::Warn => "warning"@,
        MessageOfTheDayLevel::Error => "danger"@,
    }
}

impl MessageOfTheDayLevel {
    /// The CSS classes of the alert that shows a message of this level.
    pub fn to_alert_class(&self) -> (r: String)
        ensures
            r@ == "text-center alert alert-"@ + alert_kind(*self),
    {
        let kind = match self {
            MessageOfTheDayLevel::Info => "info",
            MessageOfTheDayLevel::Warn => "warning",
            MessageOfTheDayLevel::Error => "danger",
        };
        String::from_str("text-center alert alert-").concat(kind)
    }
}

/// The number of `{}` placeholders in a text, counted left to right without
/// overlap.
pub open spec fn placeholder_count(s: Seq<char>) -> nat
    decreases s.len(),
{
    if s.len() < 2 {
        0
    } else if s[0] == '{' && s[1] == '}' {
        1 + placeholder_count(s.subrange(2, s.len() as int))
    } else {
        placeholder_count(s.subrange(1, s.len() as int))
    }
}

proof fn lemma_placeholder_count_bound(s: Seq<char>)
    ensures
        placeholder_count(s) <= s.len(),
    decreases s.len(),
{
    if s.len() >= 2 {
        lemma_placeholder_count_bound(s.subrange(2, s.len() as int));
        lemma_placeholder_count_bound(s.subrange(1, s.len() as int));
    }
}

/// The number of `{}` placeholders in `text`.
pub fn count_placeholders(text: &str) -> (r: usize)
    ensures
        r == placeholder_count(text@),
{
    let n = text.unicode_len();
    let mut i: usize = 0;
    let mut count: usize = 0;
    assert(text@.subrange(0, n as int) =~= text@);
    while i < n
        invariant
            n == text@.len(),
            i <= n,
            count + placeholder_count(text@.subrange(i as int, n as int)) == placeholder_count(
                text@,
            ),
        decreases n - i,
    {
        let ghost rest = text@.subrange(i as int, n as int);
        proof {
            lemma_placeholder_count_bound(text@);
        }
        if i + 1 < n && text.get_char(i) == '{' && text.get_char(i + 1) == '}' {
            assert(rest.subrange(2, rest.len() as int) =~= text@.subrange(i + 2, n as int));
            count = count + 1;
            i = i + 2;
        } else {
            if i + 1 < n {
                assert(rest.subrange(1, rest.len() as int) =~= text@.subrange(i + 1, n as int));
            }
            i = i + 1;
        }
    }
    count
}

/// A message of the day in one language: a text whose `{}` placeholders are
/// filled, in order, with the emphasized parts.
#[derive(Debug, Clone, PartialEq, Eq)]
pub struct MessageOfTheDay {
    pub message: String,
    pub strongish: Vec<String>,
}

impl MessageOfTheDay {
    /// The message, when it has as many placeholders as emphasized parts; else
    /// the text of the mismatch.
    pub fn new(message: String, strongish: Vec<String>) -> (r: Result<Self, String>)
        ensures
            r is Ok <==> placeholder_count(message@) == strongish@.len(),
            r matches Ok(m) ==> m.message == message && m.strongish == strongish,
            r matches Err(e) ==> e@ == "Message placeholder count ("@ + decimal(
                placeholder_count(message@) as int,
            ) + ") does not match emphasized array length ("@ + decimal(strongish@.len() as int)
                + ")"@,
    {
        let count = count_placeholders(message.as_str());
        if count != strongish.len() {
            proof {
                lemma_placeholder_count_bound(message@);
            }
            let e = String::from_str("Message placeholder count (").concat(
                decimal_text(count as i128).as_str(),
            ).concat(") does not match emphasized array length (").concat(
                decimal_text(strongish.len() as i128).as_str(),
            ).concat(")");
            return Err(e);
        }
        Ok(MessageOfTheDay { message, strongish })
    }
}

/// The message of the day as the server configures it: whether it is shown,
/// its level, and its German and English versions.
#[derive(Debug, Clone, PartialEq, Eq)]
pub struct ServerMessageOfTheDay {
    pub enabled: bool,
    pub level: MessageOfTheDayLevel,
    pub de: MessageOfTheDay,
    pub en: MessageOfTheDay,
}

impl ServerMessageOfTheDay {
    /// The version for a language code: German for `de`, English otherwise.
    pub fn localized(&self, lang: &str) -> (r: &MessageOfTheDay)
        ensures
            r == (if lang@ == "de"@ {
                &self.de
            } else {
                &self.en
            }),
    {
        if text_eq(lang, "de") {
            &self.de
        } else {
            &self.en
        }
    }
}

} // verus!
