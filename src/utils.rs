use vstd::prelude::*;
use vstd::string::*;

use crate::model::language::Language;

verus! {

/// The decimal digits of `n`, most significant first.
pub open spec fn digits_of(n: nat) -> Seq<char>
    decreases n,
{
    let d = seq!['0', '1', '2', '3', '4', '5', '6', '7', '8', '9'];
    if n < 10 {
        seq![d[n as int]]
    } else {
        digits_of(n / 10).push(d[(n % 10) as int])
    }
}

/// The decimal text of an integer, with a leading `-` when it is negative.
pub open spec fn decimal(n: int) -> Seq<char> {
    if n < 0 {
        seq!['-'] + digits_of((-n) as nat)
    } else {
        digits_of(n as nat)
    }
}

/// The text of the decimal digit `d` (for `d < 10`).
fn digit_text(d: u128) -> (r: &'static str)
    requires
        d < 10,
    ensures
        r@ == seq![seq!['0', '1', '2', '3', '4', '5', '6', '7', '8', '9'][d as int]],
{
    proof {
        reveal_strlit("0");
        reveal_strlit("1");
        reveal_strlit("2");
        reveal_strlit("3");
        reveal_strlit("4");
        reveal_strlit("5");
        reveal_strlit("6");
        reveal_strlit("7");
        reveal_strlit("8");
        reveal_strlit("9");
    }
    let r = match d {
        0 => "0",
        1 => "1",
        2 => "2",
        3 => "3",
        4 => "4",
        5 => "5",
        6 => "6",
        7 => "7",
        8 => "8",
        _ => "9",
    };
    assert(r@ =~= seq![seq!['0', '1', '2', '3', '4', '5', '6', '7', '8', '9'][d as int]]);
    r
}

/// The decimal digits of `n`.
fn digits_text(n: u128) -> (r: String)
    ensures
        r@ == digits_of(n as nat),
    decreases n,
{
    if n < 10 {
        String::from_str(digit_text(n))
    } else {
        let head = digits_text(n / 10);
        let last = digit_text(n % 10);
        let r = head.concat(last);
        assert(r@ =~= digits_of((n / 10) as nat).push(
            seq!['0', '1', '2', '3', '4', '5', '6', '7', '8', '9'][(n % 10) as int],
        ));
        r
    }
}

/// The decimal text of `n`.
pub(crate) fn decimal_text(n: i128) -> (r: String)
    ensures
        r@ == decimal(n as int),
{
    if n < 0 {
        let magnitude: u128 = ((-(n + 1)) as u128) + 1;
        proof {
            reveal_strlit("-");
        }
        let r = String::from_str("-").concat(digits_text(magnitude).as_str());
        assert(r@ =~= seq!['-'] + digits_of((-n) as nat));
        r
    } else {
        digits_text(n as u128)
    }
}

/// `x` held to the range of `i64`.
pub open spec fn clamp_i64(x: int) -> i64 {
    if x < i64::MIN {
        i64::MIN
    } else if x > i64::MAX {
        i64::MAX
    } else {
        x as i64
    }
}

/// `x` held to the range of `i64`.
pub fn saturate_i64(x: i128) -> (r: i64)
    ensures
        r == clamp_i64(x as int),
{
    if x < i64::MIN as i128 {
        i64::MIN
    } else if x > i64::MAX as i128 {
        i64::MAX
    } else {
        x as i64
    }
}

/// Whether two texts are the same.
pub fn text_eq(a: &str, b: &str) -> (r: bool)
    ensures
        r == (a@ == b@),
{
    let n = a.unicode_len();
    if n != b.unicode_len() {
        return false;
    }
    let mut i: usize = 0;
    while i < n
        invariant
            n == a@.len() == b@.len(),
            i <= n,
            forall|j: int| 0 <= j < i ==> a@[j] == b@[j],
        decreases n - i,
    {
        if a.get_char(i) != b.get_char(i) {
            return false;
        }
        i = i + 1;
    }
    assert(a@ =~= b@);
    true
}

/// The entries that the browser's session storage keeps after a login: the
/// token and its expiry, as text.
pub fn set_login_data_to_session_storage(token: &str, expires: i64) -> (r: Vec<(String, String)>)
    ensures
        r@.len() == 2,
        r@[0].0@ == "token"@ && r@[0].1@ == token@,
        r@[1].0@ == "expires"@ && r@[1].1@ == decimal(expires as int),
{
    let mut entries: Vec<(String, String)> = Vec::new();
    entries.push((String::from_str("token"), String::from_str(token)));
    entries.push((String::from_str("expires"), decimal_text(expires as i128)));
    entries
}

/// The locale the interface switches to for a language code: German for
/// `de`, English for anything else.
pub fn set_lang_to_i18n(lang: &str) -> (r: Language)
    ensures
        r == (if lang@ == "de"@ {
            Language::De
        } else {
            Language::En
        }),
{
    if text_eq(lang, "de") {
        Language::De
    } else {
        Language::En
    }
}

/// What `str::parse::<i64>` makes of a text: the value, or `None` when the
/// text is no decimal integer in range.
pub uninterp spec fn i64_parsed(s: Seq<char>) -> Option<i64>;

/// Relies on the standard library's `FromStr` for `i64`, which reads an
/// optional sign and decimal digits: the decimal text of a value reads back as
/// that value.
#[verifier::external_body]
fn parse_i64(s: &str) -> (r: Option<i64>)
    ensures
        r == i64_parsed(s@),
        forall|n: i64| #[trigger] decimal(n as int) == s@ ==> r == Some(n),
{
    s.parse::<i64>().ok()
}

/// The login data that the session storage entries `token` and `expires` hold.
pub open spec fn login_data_of(token: Option<String>, expires: Option<String>) -> Option<
    (Seq<char>, i64),
> {
    match (token, expires) {
        (Some(t), Some(x)) => match i64_parsed(x@) {
            Some(e) => Some((t@, e)),
            None => None,
        },
        _ => None,
    }
}

/// The login data read back from the browser's session storage: the token and
/// its expiry, when both entries are there and the expiry is a number.
pub fn get_login_data_from_session_storage(token: Option<String>, expires: Option<String>) -> (r:
    Option<(String, i64)>)
    ensures
        match r {
            Some((t, e)) => login_data_of(token, expires) == Some((t@, e)),
            None => login_data_of(token, expires) is None,
        },
        forall|n: i64|
            token is Some && expires is Some && #[trigger] decimal(n as int)
                == expires->Some_0@ ==> r == Some((token->Some_0, n)),
{
    match (token, expires) {
        (Some(t), Some(x)) => match parse_i64(x.as_str()) {
            Some(e) => Some((t, e)),
            None => None,
        },
        _ => None,
    }
}

/// The language the browser asks for: the stored choice, else the first two
/// characters of the browser's own language.
pub fn get_lang_from_browser(local_storage_lang: Option<String>, navigator_lang: Option<String>) -> (r:
    Option<String>)
    ensures
        local_storage_lang is Some ==> r == local_storage_lang,
        local_storage_lang is None ==> match navigator_lang {
            None => r is None,
            Some(n) => r is Some && r->Some_0@ == n@.subrange(
                0,
                if n@.len() < 2 {
                    n@.len() as int
                } else {
                    2
                },
            ),
        },
{
    match local_storage_lang {
        Some(l) => Some(l),
        None => match navigator_lang {
            None => None,
            Some(n) => {
                let len = n.as_str().unicode_len();
                let end: usize = if len < 2 {
                    len
                } else {
                    2
                };
                Some(String::from_str(n.as_str().substring_char(0, end)))
            },
        },
    }
}

} // verus!
