//! Settings that shape the bot: delimiters, phrase sets, the reply chance
//! and the cooldown.
use vstd::prelude::*;
use crate::error::ConfigError;
use crate::text::{lower_of, lowercase, split, split_on, trim, trimmed, views};

verus! {

/// The denominator of a reply chance.
pub const PARTS_PER_MILLION: u32 = 1000000;

/// The delimiter a setting names: its one character once trimmed.
pub open spec fn delimiter_of(setting: Seq<char>) -> Option<char> {
    let t = trimmed(setting);
    if t.len() == 1 {
        Some(t[0])
    } else {
        None
    }
}

/// The phrases of a delimited list: each piece trimmed and lower-cased.
pub open spec fn phrase_list(text: Seq<char>, delimiter: char) -> Seq<Seq<char>> {
    split_on(text, delimiter).map_values(|p: Seq<char>| lower_of(trimmed(p)))
}

pub open spec fn is_digit(c: char) -> bool {
    '0' <= c && c <= '9'
}

/// The value of a string of decimal digits.
pub open spec fn decimal_value(s: Seq<char>) -> int
    decreases s.len(),
{
    if s.len() == 0 {
        0
    } else {
        decimal_value(s.drop_last()) * 10 + (s.last() as u32 - '0' as u32)
    }
}

/// A `u64` written in decimal: one or more digits, after an optional `+`.
pub open spec fn u64_from_decimal(s: Seq<char>) -> Option<u64> {
    let d = if s.len() > 0 && s[0] == '+' {
        s.drop_first()
    } else {
        s
    };
    if d.len() > 0 && (forall|i: int| 0 <= i < d.len() ==> is_digit(#[trigger] d[i]))
        && decimal_value(d) <= u64::MAX {
        Some(decimal_value(d) as u64)
    } else {
        None
    }
}

/// Relies on `str::parse::<char>`: succeeds exactly on a one-character text.
#[verifier::external_body]
fn parse_char(s: &str) -> (r: Option<char>)
    ensures
        r == (if s@.len() == 1 {
            Some(s@[0])
        } else {
            None::<char>
        }),
{
    s.parse::<char>().ok()
}

/// Relies on `str::parse::<u64>`: decimal digits after an optional `+`,
/// refused when empty, on any other character, or beyond `u64::MAX`.
#[verifier::external_body]
fn parse_u64(s: &str) -> (r: Option<u64>)
    ensures
        r == u64_from_decimal(s@),
{
    s.parse::<u64>().ok()
}

/// Reads a delimiter setting: exactly one character after trimming.
pub fn parse_delimiter(setting: &str) -> (r: Result<char, ConfigError>)
    ensures
        r == (match delimiter_of(setting@) {
            Some(c) => Ok(c),
            None => Err(ConfigError::InvalidDelimiter),
        }),
{
    match parse_char(trim(setting)) {
        Some(c) => Ok(c),
        None => Err(ConfigError::InvalidDelimiter),
    }
}

/// Splits a phrase list on `delimiter`, trimming and lower-casing each
/// phrase; an empty piece stays, as a phrase that occurs in every text.
pub fn parse_phrases(text: &str, delimiter: char) -> (r: Vec<String>)
    ensures
        views(r@) == phrase_list(text@, delimiter),
{
    let pieces = split(text, delimiter);
    let ghost expected = phrase_list(text@, delimiter);
    let mut phrases: Vec<String> = Vec::new();
    let mut i: usize = 0;
    while i < pieces.len()
        invariant
            i <= pieces.len(),
            views(pieces@) == split_on(text@, delimiter),
            expected == phrase_list(text@, delimiter),
            views(phrases@) =~= expected.subrange(0, i as int),
        decreases pieces.len() - i,
    {
        assert(pieces@[i as int]@ == views(pieces@)[i as int]);
        let ghost before = views(phrases@);
        let phrase = lowercase(trim(pieces[i].as_str()));
        phrases.push(phrase);
        assert(views(phrases@) =~= before.push(phrase@));
        i = i + 1;
    }
    assert(views(phrases@) =~= expected);
    phrases
}

/// Reads the cooldown setting: a whole number of seconds after trimming.
pub fn parse_cooldown(setting: &str) -> (r: Result<u64, ConfigError>)
    ensures
        r == (match u64_from_decimal(trimmed(setting@)) {
            Some(n) => Ok(n),
            None => Err(ConfigError::InvalidCooldown),
        }),
{
    match parse_u64(trim(setting)) {
        Some(n) => Ok(n),
        None => Err(ConfigError::InvalidCooldown),
    }
}

/// The probability of a reply, in parts per million.
pub struct Chance {
    parts: u32,
}

/// Relies on `rand::random_ratio`: a draw that is never true at a zero
/// numerator and always true when numerator and denominator are equal; it
/// panics on a zero denominator or a numerator above it.
pub assume_specification[ rand::random_ratio ](numerator: u32, denominator: u32) -> (r: bool)
    requires
        0 < denominator,
        numerator <= denominator,
    ensures
        numerator == 0 ==> !r,
        numerator == denominator ==> r,
;

impl Chance {
    #[verifier::type_invariant]
    spec fn inv(self) -> bool {
        self.parts <= PARTS_PER_MILLION
    }

    pub closed spec fn parts(self) -> nat {
        self.parts as nat
    }

    /// A chance of `parts` in a million; more than a million is refused.
    pub fn from_parts_per_million(parts: u32) -> (r: Result<Chance, ConfigError>)
        ensures
            r is Ok <==> parts <= PARTS_PER_MILLION,
            r matches Ok(c) ==> c.parts() == parts,
            r matches Err(e) ==> e == ConfigError::ChanceOutOfRange,
    {
        if parts <= PARTS_PER_MILLION {
            Ok(Chance { parts })
        } else {
            Err(ConfigError::ChanceOutOfRange)
        }
    }

    pub fn parts_per_million(&self) -> (r: u32)
        ensures
            r == self.parts(),
            r <= PARTS_PER_MILLION,
    {
        proof {
            use_type_invariant(self);
        }
        self.parts
    }

    /// A random draw that succeeds with this chance: never at zero, always
    /// at a million parts.
    pub fn roll(&self) -> (r: bool)
        ensures
            self.parts() == 0 ==> !r,
            self.parts() == PARTS_PER_MILLION ==> r,
    {
        rand::random_ratio(self.parts_per_million(), PARTS_PER_MILLION)
    }
}

} // verus!
