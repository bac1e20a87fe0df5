//! The settings of the server.

use crate::outside::new_uuid;
use std::path::PathBuf;
use vstd::prelude::*;
use vstd::string::*;

verus! {

/// The port that the HTTP bridge listens on where none is configured.
pub const DEFAULT_PORT: u16 = 3333;

/// Whether a character is a decimal digit.
pub open spec fn is_digit(c: char) -> bool {
    '0' <= c <= '9'
}

/// The number that a run of decimal digits stands for.
pub open spec fn digits_value(digits: Seq<char>) -> nat
    decreases digits.len(),
{
    if digits.len() == 0 {
        0
    } else {
        digits_value(digits.drop_last()) * 10 + (digits.last() as int - '0' as int) as nat
    }
}

/// The digits of a port setting: the text after an optional plus sign.
pub open spec fn port_digits(text: Seq<char>) -> Seq<char> {
    if text.len() > 0 && text[0] == '+' {
        text.drop_first()
    } else {
        text
    }
}

/// The port that a text names: a run of one or more decimal digits,
/// after an optional plus sign, whose value fits a port number.
pub open spec fn port_of(text: Seq<char>) -> Option<u16> {
    let digits = port_digits(text);
    if digits.len() > 0 && (forall|i: int| 0 <= i < digits.len() ==> is_digit(#[trigger] digits[i]))
        && digits_value(digits) <= u16::MAX {
        Some(digits_value(digits) as u16)
    } else {
        None
    }
}

/// The value of a run of digits is at least that of each of its prefixes.
proof fn lemma_digits_value_grows(digits: Seq<char>, k: int)
    requires
        0 <= k <= digits.len(),
    ensures
        digits_value(digits.subrange(0, k)) <= digits_value(digits),
    decreases digits.len() - k,
{
    if k == digits.len() {
        assert(digits.subrange(0, k) =~= digits);
    } else {
        lemma_digits_value_grows(digits.drop_last(), k);
        assert(digits.drop_last().subrange(0, k) =~= digits.subrange(0, k));
    }
}

/// Reads a port number from a setting.
pub fn parse_port(text: &str) -> (r: Option<u16>)
    ensures
        r == port_of(text@),
{
    let ghost digits = port_digits(text@);
    if !text.is_ascii() {
        proof {
            let i = choose|i: int|
                0 <= i < text@.len() && !('\0' <= #[trigger] text@[i] <= '\u{7f}');
            if text@[0] == '+' {
                assert(i > 0);
                assert(digits[i - 1] == text@[i]);
            } else {
                assert(digits[i] == text@[i]);
            }
        }
        return None;
    }
    let n = text.unicode_len();
    let start: usize = if n > 0 && text.get_ascii(0) == 43 {
        1
    } else {
        0
    };
    proof {
        assert(digits =~= text@.subrange(start as int, n as int));
    }
    if start == n {
        return None;
    }
    let mut value: u32 = 0;
    let mut i: usize = start;
    proof {
        assert(digits.subrange(0, 0) =~= Seq::empty());
    }
    while i < n
        invariant
            start <= i <= n,
            n == text@.len(),
            text.is_ascii(),
            digits == text@.subrange(start as int, n as int),
            digits == port_digits(text@),
            forall|k: int| 0 <= k < i - start ==> is_digit(#[trigger] digits[k]),
            value == digits_value(digits.subrange(0, i - start)),
            value <= u16::MAX,
        decreases n - i,
    {
        let b = text.get_ascii(i);
        proof {
            assert(digits[i - start] == text@[i as int]);
            assert(digits.subrange(0, i - start + 1).drop_last() =~= digits.subrange(
                0,
                i - start,
            ));
        }
        if b < 48 || b > 57 {
            proof {
                assert(!is_digit(digits[i - start]));
            }
            return None;
        }
        let next: u32 = value * 10 + (b - 48) as u32;
        if next > 65535 {
            proof {
                lemma_digits_value_grows(digits, i - start + 1);
            }
            return None;
        }
        value = next;
        i = i + 1;
    }
    proof {
        assert(digits.subrange(0, i - start) =~= digits);
    }
    Some(value as u16)
}

/// The settings of the server. Without a token the HTTP bridge asks for no
/// authorization.
#[derive(Debug, Clone)]
pub struct Config {
    pub port: u16,
    pub token: Option<String>,
    pub capture_dir: PathBuf,
}

impl Config {
    /// The settings for what the environment gave: the port that the port
    /// setting names, or the default port where it is missing or names
    /// none; and a freshly made token where none is set.
    pub fn resolve(port: Option<&str>, token: Option<String>, capture_dir: PathBuf) -> (r: Config)
        ensures
            r.port == match port {
                Some(text) => match port_of(text@) {
                    Some(p) => p,
                    None => DEFAULT_PORT,
                },
                None => DEFAULT_PORT,
            },
            r.token is Some,
            token is Some ==> r.token == token,
            r.capture_dir == capture_dir,
    {
        let port = match port {
            Some(text) => match parse_port(text) {
                Some(p) => p,
                None => DEFAULT_PORT,
            },
            None => DEFAULT_PORT,
        };
        let token = match token {
            Some(t) => t,
            None => new_uuid(),
        };
        Config { port, token: Some(token), capture_dir }
    }
}

} // verus!
