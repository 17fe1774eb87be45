//! A version's written forms, and the `x-api-version` header.

use crate::text::{decimal, push_decimal};
use vstd::prelude::*;

verus! {

/// Name of the header by which a request asks for a version.
pub const X_API_VERSION: &'static str = "x-api-version";

/// The byte of the letter `v`.
pub const LETTER_V: u8 = 0x76;

/// The byte of the digit `0`.
pub const DIGIT_0: u8 = 0x30;

/// The byte of the digit `9`.
pub const DIGIT_9: u8 = 0x39;

/// How a version is written: `v` and its number, as in `v0` or `v12`.
pub open spec fn version_display(n: u16) -> Seq<char> {
    seq!['v'] + decimal(n as nat)
}

/// What a version puts before a path: `/v0`, `/v12`.
pub open spec fn version_prefix(n: u16) -> Seq<char> {
    seq!['/'] + version_display(n)
}

/// The bytes of `version_display(n)`, as they stand in a header value.
pub open spec fn wire_form(n: u16) -> Seq<u8> {
    version_display(n).map_values(|c: char| c as u8)
}

/// Whether a byte is an ASCII digit.
pub open spec fn is_digit(b: u8) -> bool {
    DIGIT_0 <= b <= DIGIT_9
}

/// The grammar of the header's value: `v`, then either one digit, or a digit
/// other than `0` and one more digit.
pub open spec fn is_version_designator(value: Seq<u8>) -> bool {
    &&& value.len() == 2 || value.len() == 3
    &&& value[0] == LETTER_V
    &&& is_digit(value[1])
    &&& value.len() == 3 ==> value[1] != DIGIT_0 && is_digit(value[2])
}

/// The number that a version designator stands for.
pub open spec fn designated(value: Seq<u8>) -> u16
    recommends
        is_version_designator(value),
{
    if value.len() == 2 {
        (value[1] - DIGIT_0) as u16
    } else {
        ((value[1] - DIGIT_0) * 10 + (value[2] - DIGIT_0)) as u16
    }
}

/// The version that a header value asks for, where there is a value and it
/// keeps to the grammar.
pub open spec fn header_version(value: Option<Seq<u8>>) -> Option<u16> {
    match value {
        Some(bytes) if is_version_designator(bytes) => Some(designated(bytes)),
        _ => None,
    }
}

/// `version_display(n)` as a string.
pub fn display(n: u16) -> (s: String)
    ensures
        s@ == version_display(n),
{
    let mut s = String::from_str("v");
    proof {
        reveal_strlit("v");
    }
    push_decimal(&mut s, n);
    s
}

/// `version_prefix(n)` as a string.
pub fn prefix(n: u16) -> (s: String)
    ensures
        s@ == version_prefix(n),
{
    let mut s = String::from_str("/v");
    proof {
        reveal_strlit("/v");
    }
    push_decimal(&mut s, n);
    s
}

/// A header value that is no version designator, or no value at all.
#[derive(Debug, Clone, Copy, PartialEq, Eq)]
pub struct InvalidVersion;

/// The version that a request names in its `x-api-version` header: a number
/// from 0 to 99.
#[derive(Debug, Clone, Copy, PartialEq, Eq, PartialOrd, Ord, Hash)]
pub struct XApiVersion(u16);

impl View for XApiVersion {
    type V = u16;

    closed spec fn view(&self) -> u16 {
        self.0
    }
}

impl XApiVersion {
    #[verifier::type_invariant]
    spec fn in_range(&self) -> bool {
        self.0 <= 99
    }

    /// The header's name.
    pub fn name() -> (name: &'static str)
        ensures
            name@ == X_API_VERSION@,
    {
        X_API_VERSION
    }

    /// The version's number.
    pub fn number(&self) -> (n: u16)
        ensures
            n == self@,
            n <= 99,
    {
        proof {
            use_type_invariant(self);
        }
        self.0
    }

    /// Reads the header's first value. Any value but a version designator is
    /// refused, and so is a header without a value.
    pub fn decode(value: Option<&[u8]>) -> (result: Result<XApiVersion, InvalidVersion>)
        ensures
            match result {
                Ok(version) => header_version(value_view(value)) == Some(version@),
                Err(_) => header_version(value_view(value)) is None,
            },
    {
        match value {
            None => Err(InvalidVersion),
            Some(bytes) => {
                let len: usize = bytes.len();
                if len == 2 && bytes[0] == LETTER_V && digit(bytes[1]) {
                    Ok(XApiVersion((bytes[1] - DIGIT_0) as u16))
                } else if len == 3 && bytes[0] == LETTER_V && digit(bytes[1]) && bytes[1] != DIGIT_0
                    && digit(bytes[2]) {
                    let tens: u16 = (bytes[1] - DIGIT_0) as u16;
                    let ones: u16 = (bytes[2] - DIGIT_0) as u16;
                    Ok(XApiVersion(tens * 10 + ones))
                } else {
                    Err(InvalidVersion)
                }
            },
        }
    }

    /// Writes the version as a header value.
    pub fn encode(&self) -> (value: Vec<u8>)
        ensures
            value@ == wire_form(self@),
            header_version(Some(value@)) == Some(self@),
    {
        proof {
            use_type_invariant(self);
            lemma_wire_form(self.0);
        }
        let n: u16 = self.0;
        let mut value: Vec<u8> = Vec::new();
        value.push(LETTER_V);
        if n >= 10 {
            value.push(DIGIT_0 + (n / 10) as u8);
        }
        value.push(DIGIT_0 + (n % 10) as u8);
        value
    }
}

/// The bytes of a header value, if there is one.
pub open spec fn value_view(value: Option<&[u8]>) -> Option<Seq<u8>> {
    match value {
        Some(bytes) => Some(bytes@),
        None => None,
    }
}

fn digit(b: u8) -> (r: bool)
    ensures
        r == is_digit(b),
{
    DIGIT_0 <= b && b <= DIGIT_9
}

/// The wire form of a version up to 99, byte by byte.
pub proof fn lemma_wire_form(n: u16)
    requires
        n <= 99,
    ensures
        n < 10 ==> wire_form(n) =~= seq![LETTER_V, (DIGIT_0 + n) as u8],
        n >= 10 ==> wire_form(n) =~= seq![
            LETTER_V,
            (DIGIT_0 + n / 10) as u8,
            (DIGIT_0 + n % 10) as u8,
        ],
{
    reveal_with_fuel(decimal, 3);
}

} // verus!
