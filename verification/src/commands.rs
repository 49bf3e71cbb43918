//! The command line: which command an argument names, and the port the server listens on.

use crate::text::{chars_of, text_eq};
use vstd::prelude::*;

verus! {

/// The port the server listens on when none, or no valid one, is given.
pub const DEFAULT_PORT: u16 = 8000;

/// What the first command-line argument asks for.
#[derive(Clone, Copy, Debug, PartialEq, Eq)]
pub enum Command {
    /// `migrate`: run the database migrations.
    Migrate,
    /// `key:generate`: write a fresh token secret into `.env`.
    KeyGenerate,
    /// `seed`: insert the default languages.
    Seed,
    /// `email:verify_current`: send a verification email to every unverified user.
    EmailVerifyCurrent,
    /// `serve`: start the HTTP server.
    Serve,
    /// An argument that names no command.
    Invalid,
    /// No argument at all.
    Missing,
}

/// The command named by the argument `arg`.
pub open spec fn command_of(arg: Option<Seq<char>>) -> Command {
    match arg {
        None => Command::Missing,
        Some(a) => if a == "migrate"@ {
            Command::Migrate
        } else if a == "key:generate"@ {
            Command::KeyGenerate
        } else if a == "seed"@ {
            Command::Seed
        } else if a == "email:verify_current"@ {
            Command::EmailVerifyCurrent
        } else if a == "serve"@ {
            Command::Serve
        } else {
            Command::Invalid
        },
    }
}

/// Reads the command that the first argument names.
pub fn parse_command(arg: Option<&str>) -> (command: Command)
    ensures
        command == command_of(match arg {
            Some(a) => Some(a@),
            None => None,
        }),
{
    match arg {
        None => Command::Missing,
        Some(a) => if text_eq(a, "migrate") {
            Command::Migrate
        } else if text_eq(a, "key:generate") {
            Command::KeyGenerate
        } else if text_eq(a, "seed") {
            Command::Seed
        } else if text_eq(a, "email:verify_current") {
            Command::EmailVerifyCurrent
        } else if text_eq(a, "serve") {
            Command::Serve
        } else {
            Command::Invalid
        },
    }
}

/// An ASCII decimal digit.
pub open spec fn is_digit(c: char) -> bool {
    '0' <= c <= '9'
}

/// The value of a decimal digit.
pub open spec fn digit_value(c: char) -> int {
    (c as int) - ('0' as int)
}

/// The value of a string of decimal digits (0 for the empty string).
pub open spec fn digits_value(s: Seq<char>) -> int
    decreases s.len(),
{
    if s.len() == 0 {
        0
    } else {
        digits_value(s.drop_last()) * 10 + digit_value(s.last())
    }
}

/// The text after an optional leading `+`.
pub open spec fn sign_stripped(s: Seq<char>) -> Seq<char> {
    if s.len() > 0 && s[0] == '+' { s.drop_first() } else { s }
}

/// Every character is a decimal digit.
pub open spec fn all_digits(s: Seq<char>) -> bool {
    forall|i: int| 0 <= i < s.len() ==> is_digit(#[trigger] s[i])
}

/// What `str::parse::<u16>` gives: an optional `+` followed by one or more decimal digits
/// whose value fits in a `u16`; anything else is an error.
pub open spec fn parse_u16_spec(s: Seq<char>) -> Option<u16> {
    let digits = sign_stripped(s);
    if digits.len() > 0 && all_digits(digits) && digits_value(digits) <= u16::MAX {
        Some(digits_value(digits) as u16)
    } else {
        None
    }
}

proof fn lemma_digits_value_nonneg(s: Seq<char>)
    requires
        forall|i: int| 0 <= i < s.len() ==> is_digit(#[trigger] s[i]),
    ensures
        digits_value(s) >= 0,
    decreases s.len(),
{
    if s.len() > 0 {
        lemma_digits_value_nonneg(s.drop_last());
    }
}

proof fn lemma_digits_value_grows(s: Seq<char>, c: char)
    requires
        forall|i: int| 0 <= i < s.len() ==> is_digit(#[trigger] s[i]),
        is_digit(c),
    ensures
        digits_value(s.push(c)) >= digits_value(s),
{
    lemma_digits_value_nonneg(s);
    assert(s.push(c).drop_last() =~= s);
}

/// Parses a port number as `str::parse::<u16>` does.
pub fn parse_u16(text: &str) -> (port: Option<u16>)
    ensures
        port == parse_u16_spec(text@),
{
    let chars = chars_of(text);
    let start: usize = if chars.len() > 0 && chars[0] == '+' { 1 } else { 0 };
    let ghost digits = sign_stripped(text@);
    assert(digits =~= chars@.subrange(start as int, chars@.len() as int));
    if start >= chars.len() {
        return None;
    }
    let mut value: u32 = 0;
    let mut i = start;
    while i < chars.len()
        invariant
            start <= i <= chars@.len(),
            start < chars@.len(),
            digits == sign_stripped(text@),
            digits =~= chars@.subrange(start as int, chars@.len() as int),
            forall|j: int| start <= j < i ==> is_digit(#[trigger] chars@[j]),
            value <= 65536,
            value <= 65535 ==> value == digits_value(chars@.subrange(start as int, i as int)),
            value == 65536 ==> digits_value(chars@.subrange(start as int, i as int)) > 65535,
        decreases chars.len() - i,
    {
        let c = chars[i];
        if c < '0' || c > '9' {
            assert(!is_digit(digits[i - start]));
            assert(!all_digits(digits));
            return None;
        }
        let ghost prefix = chars@.subrange(start as int, i as int);
        assert(chars@.subrange(start as int, i + 1) =~= prefix.push(c));
        assert(prefix.push(c).drop_last() =~= prefix);
        proof {
            assert forall|j: int| 0 <= j < prefix.len() implies is_digit(#[trigger] prefix[j]) by {
                assert(prefix[j] == chars@[start + j]);
            }
            lemma_digits_value_grows(prefix, c);
        }
        let d: u32 = (c as u32) - ('0' as u32);
        if value <= 65535 {
            let next = value * 10 + d;
            value = if next > 65535 { 65536 } else { next };
        }
        i += 1;
    }
    proof {
        assert(chars@.subrange(start as int, chars@.len() as int) =~= digits);
        assert forall|j: int| 0 <= j < digits.len() implies is_digit(#[trigger] digits[j]) by {
            assert(digits[j] == chars@[start + j]);
        }
        assert(all_digits(digits));
    }
    if value <= 65535 {
        Some(value as u16)
    } else {
        None
    }
}

/// The port of the server: the second argument when it parses as a port, else the default.
/// The flag tells whether the argument was used (a warning is logged when it was not).
pub fn server_port(arg: Option<&str>) -> (port: (u16, bool))
    ensures
        match arg {
            Some(a) => match parse_u16_spec(a@) {
                Some(p) => port == (p, true),
                None => port == (DEFAULT_PORT, false),
            },
            None => port == (DEFAULT_PORT, false),
        },
{
    match arg {
        Some(a) => match parse_u16(a) {
            Some(p) => (p, true),
            None => (DEFAULT_PORT, false),
        },
        None => (DEFAULT_PORT, false),
    }
}

} // verus!
