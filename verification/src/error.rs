//! Errors reported when parsing a gas quantity from text.
use vstd::prelude::*;

verus! {

/// The reason the numeric portion of a gas string was rejected.
#[derive(Debug, Clone, PartialEq, Eq)]
pub enum DecimalNumberParsingError {
    /// The text does not have the shape `digits [ '.' digits ]`; carries the
    /// offending numeric text.
    InvalidNumber(String),
    /// The scaled result does not fit in 64 bits; carries the whole part.
    LongWhole(String),
    /// The fraction has more digits than the unit multiplier can represent
    /// exactly; carries the fractional part.
    LongFractional(String),
}

/// The error returned when a gas string cannot be parsed into an [`crate::UncGas`].
#[derive(Debug, Clone, PartialEq, Eq)]
pub enum UncGasError {
    /// The numeric portion is malformed, too precise, or too large.
    IncorrectNumber(DecimalNumberParsingError),
    /// The trailing unit suffix is not a recognized unit token; carries that
    /// suffix.
    IncorrectUnit(String),
}

/// The rendering of a numeric parsing error as text.
pub open spec fn decimal_error_text(e: DecimalNumberParsingError) -> Seq<char> {
    match e {
        DecimalNumberParsingError::InvalidNumber(t) => "invalid number: "@ + t@,
        DecimalNumberParsingError::LongWhole(t) => "too long whole: "@ + t@,
        DecimalNumberParsingError::LongFractional(t) => "too long fractional: "@ + t@,
    }
}

/// The rendering of a gas parsing error as text.
pub open spec fn gas_error_text(e: UncGasError) -> Seq<char> {
    match e {
        UncGasError::IncorrectNumber(inner) => "Incorrect number: "@ + decimal_error_text(inner),
        UncGasError::IncorrectUnit(t) => "Incorrect unit: "@ + t@,
    }
}

impl DecimalNumberParsingError {
    /// Renders the error as human-readable text.
    pub fn to_text(&self) -> (r: String)
        ensures
            r@ == decimal_error_text(*self),
    {
        match self {
            DecimalNumberParsingError::InvalidNumber(t) => {
                let mut s = String::from_str("invalid number: ");
                s.append(t.as_str());
                s
            },
            DecimalNumberParsingError::LongWhole(t) => {
                let mut s = String::from_str("too long whole: ");
                s.append(t.as_str());
                s
            },
            DecimalNumberParsingError::LongFractional(t) => {
                let mut s = String::from_str("too long fractional: ");
                s.append(t.as_str());
                s
            },
        }
    }
}

impl UncGasError {
    /// Renders the error as human-readable text.
    pub fn to_text(&self) -> (r: String)
        ensures
            r@ == gas_error_text(*self),
    {
        match self {
            UncGasError::IncorrectNumber(inner) => {
                let mut s = String::from_str("Incorrect number: ");
                let detail = inner.to_text();
                s.append(detail.as_str());
                s
            },
            UncGasError::IncorrectUnit(t) => {
                let mut s = String::from_str("Incorrect unit: ");
                s.append(t.as_str());
                s
            },
        }
    }
}

} // verus!
