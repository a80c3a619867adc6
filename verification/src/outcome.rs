//! The outcome of an ingested event, as the store encodes it in one byte.

use crate::text::{decimal, decimal_text};
use vstd::prelude::*;

verus! {

/// Possible outcomes
#[derive(Debug, Clone, Copy, PartialEq, Eq, Structural)]
pub enum Outcome {
    Accepted,
    Filtered,
    RateLimited,
    Invalid,
    Abuse,
    Unknown(u8),
}

/// The outcome that a stored byte stands for: the five named outcomes for
/// 0 to 4, and `Unknown` with the byte itself for every other value.
pub open spec fn outcome_of_code(code: u8) -> Outcome {
    if code == 0 {
        Outcome::Accepted
    } else if code == 1 {
        Outcome::Filtered
    } else if code == 2 {
        Outcome::RateLimited
    } else if code == 3 {
        Outcome::Invalid
    } else if code == 4 {
        Outcome::Abuse
    } else {
        Outcome::Unknown(code)
    }
}

impl vstd::std_specs::convert::FromSpecImpl<u8> for Outcome {
    open spec fn obeys_from_spec() -> bool {
        true
    }

    open spec fn from_spec(value: u8) -> Outcome {
        outcome_of_code(value)
    }
}

impl From<u8> for Outcome {
    fn from(value: u8) -> (outcome: Self) {
        match value {
            0 => Outcome::Accepted,
            1 => Outcome::Filtered,
            2 => Outcome::RateLimited,
            3 => Outcome::Invalid,
            4 => Outcome::Abuse,
            _ => Outcome::Unknown(value),
        }
    }
}

/// The byte that stands for an outcome.
pub open spec fn code_of(outcome: Outcome) -> u8 {
    match outcome {
        Outcome::Accepted => 0,
        Outcome::Filtered => 1,
        Outcome::RateLimited => 2,
        Outcome::Invalid => 3,
        Outcome::Abuse => 4,
        Outcome::Unknown(code) => code,
    }
}

/// The printed name of an outcome; the unknown one shows its byte.
pub open spec fn outcome_text(outcome: Outcome) -> Seq<char> {
    match outcome {
        Outcome::Accepted => "Accepted"@,
        Outcome::Filtered => "Filtered"@,
        Outcome::RateLimited => "RateLimited"@,
        Outcome::Invalid => "Invalid"@,
        Outcome::Abuse => "Abuse"@,
        Outcome::Unknown(code) => "Unknown("@ + decimal(code as nat) + ")"@,
    }
}

impl Outcome {
    /// The byte that stands for this outcome.
    pub fn code(&self) -> (code: u8)
        ensures
            code == code_of(*self),
    {
        match self {
            Outcome::Accepted => 0,
            Outcome::Filtered => 1,
            Outcome::RateLimited => 2,
            Outcome::Invalid => 3,
            Outcome::Abuse => 4,
            Outcome::Unknown(code) => *code,
        }
    }

    /// The printed name of this outcome.
    pub fn name(&self) -> (text: String)
        ensures
            text@ == outcome_text(*self),
    {
        match self {
            Outcome::Accepted => String::from_str("Accepted"),
            Outcome::Filtered => String::from_str("Filtered"),
            Outcome::RateLimited => String::from_str("RateLimited"),
            Outcome::Invalid => String::from_str("Invalid"),
            Outcome::Abuse => String::from_str("Abuse"),
            Outcome::Unknown(code) => {
                let digits = decimal_text(*code as u64);
                let mut text = String::from_str("Unknown(");
                text.append(digits.as_str());
                text.append(")");
                text
            },
        }
    }
}

/// Every byte decodes, and to one outcome only: 0 to 4 give the five named
/// outcomes in order, every other byte gives `Unknown` with that byte.
pub proof fn decoding_is_total(code: u8)
    ensures
        code == 0 ==> outcome_of_code(code) == Outcome::Accepted,
        code == 1 ==> outcome_of_code(code) == Outcome::Filtered,
        code == 2 ==> outcome_of_code(code) == Outcome::RateLimited,
        code == 3 ==> outcome_of_code(code) == Outcome::Invalid,
        code == 4 ==> outcome_of_code(code) == Outcome::Abuse,
        code >= 5 ==> outcome_of_code(code) == Outcome::Unknown(code),
{
}

/// Encoding what was decoded gives the byte back, for every byte.
pub proof fn encode_after_decode(code: u8)
    ensures
        code_of(outcome_of_code(code)) == code,
{
}

/// Decoding what was encoded gives the outcome back, unless it is an
/// `Unknown` that carries one of the bytes 0 to 4, which decodes to the
/// named outcome instead.
pub proof fn decode_after_encode(outcome: Outcome)
    requires
        outcome matches Outcome::Unknown(code) ==> code >= 5,
    ensures
        outcome_of_code(code_of(outcome)) == outcome,
{
}

} // verus!
