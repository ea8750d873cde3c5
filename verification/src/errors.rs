//! Typed errors for identifier validation and conversion.
//!
//! [`ValidationError`] reports why a string is not a well-formed identifier;
//! [`ConversionError`] reports why one identifier cannot be mapped onto
//! another. Every failure path of the library returns one of them.
use vstd::prelude::*;
use crate::text::{decimal_text, push_char, push_decimal};

verus! {

/// Why a string is not a well-formed securities identifier.
#[allow(inconsistent_fields)]
#[derive(Debug, Clone, Copy, PartialEq, Eq)]
pub enum ValidationError {
    /// The input string was empty.
    Empty,
    /// The input has the wrong length for this identifier.
    WrongLength {
        /// The length the identifier requires.
        expected: usize,
        /// The length (in characters) that was supplied.
        found: usize,
    },
    /// The character at 1-based `position` is not allowed there.
    InvalidCharacter {
        /// The 1-based index of the offending character.
        position: usize,
        /// The offending character.
        found: char,
    },
    /// The recomputed check digit did not match the supplied one
    /// (for LEI, the first differing digit).
    BadCheckDigit {
        /// The check digit the algorithm computed.
        expected: char,
        /// The check digit that was supplied.
        found: char,
    },
    /// The country-code segment is not a recognised code.
    InvalidCountryCode,
    /// A structural rule of the identifier was violated; `rule` names it.
    Structure {
        /// A short description of the violated rule.
        rule: &'static str,
    },
}

/// Why one identifier cannot be converted into another.
#[derive(Debug, Clone, Copy, PartialEq, Eq)]
pub enum ConversionError {
    /// The source identifier's country has no defined target for this
    /// conversion.
    UnsupportedCountry,
    /// The inputs are malformed for the conversion; `reason` names the problem.
    NotConvertible {
        /// A short description of why the value is not convertible.
        reason: &'static str,
    },
    /// A validation error surfaced while building the converted identifier.
    Validation(ValidationError),
}

/// The human-readable message of a validation error.
pub open spec fn validation_message(e: ValidationError) -> Seq<char> {
    match e {
        ValidationError::Empty => "input string is empty"@,
        ValidationError::WrongLength { expected, found } => "wrong length: expected "@ + decimal_text(
            expected as nat,
        ) + ", found "@ + decimal_text(found as nat),
        ValidationError::InvalidCharacter { position, found } => "invalid character '"@.push(found)
            + "' at position "@ + decimal_text(position as nat),
        ValidationError::BadCheckDigit { expected, found } => "check digit mismatch: expected '"@.push(
            expected,
        ) + "', found '"@.push(found) + "'"@,
        ValidationError::InvalidCountryCode => "unrecognised country code"@,
        ValidationError::Structure { rule } => "structural rule violated: "@ + rule@,
    }
}

/// The human-readable message of a conversion error.
pub open spec fn conversion_message(e: ConversionError) -> Seq<char> {
    match e {
        ConversionError::UnsupportedCountry => "source country has no defined target for this conversion"@,
        ConversionError::NotConvertible { reason } => "value is not convertible: "@ + reason@,
        ConversionError::Validation(v) => "converted identifier is invalid: "@ + validation_message(v),
    }
}

impl ValidationError {
    /// The error underneath this one: a validation error wraps none.
    pub fn source(&self) -> (r: Option<&ValidationError>)
        ensures
            r is None,
    {
        None
    }

    /// The human-readable message: a lower-case phrase naming what is wrong
    /// and, where there is one, the offending value.
    pub fn message(&self) -> (r: String)
        ensures
            r@ == validation_message(*self),
    {
        match self {
            ValidationError::Empty => String::from_str("input string is empty"),
            ValidationError::WrongLength { expected, found } => {
                let mut out = String::from_str("wrong length: expected ");
                push_decimal(&mut out, *expected);
                out.append(", found ");
                push_decimal(&mut out, *found);
                out
            },
            ValidationError::InvalidCharacter { position, found } => {
                let mut out = String::from_str("invalid character '");
                push_char(&mut out, *found);
                out.append("' at position ");
                push_decimal(&mut out, *position);
                out
            },
            ValidationError::BadCheckDigit { expected, found } => {
                let mut out = String::from_str("check digit mismatch: expected '");
                push_char(&mut out, *expected);
                out.append("', found '");
                push_char(&mut out, *found);
                out.append("'");
                out
            },
            ValidationError::InvalidCountryCode => String::from_str("unrecognised country code"),
            ValidationError::Structure { rule } => {
                let mut out = String::from_str("structural rule violated: ");
                out.append(rule);
                out
            },
        }
    }
}

impl ConversionError {
    /// The human-readable message; a wrapped validation error's message is
    /// included.
    pub fn message(&self) -> (r: String)
        ensures
            r@ == conversion_message(*self),
    {
        match self {
            ConversionError::UnsupportedCountry => String::from_str(
                "source country has no defined target for this conversion",
            ),
            ConversionError::NotConvertible { reason } => {
                let mut out = String::from_str("value is not convertible: ");
                out.append(reason);
                out
            },
            ConversionError::Validation(e) => {
                let mut out = String::from_str("converted identifier is invalid: ");
                let inner = e.message();
                out.append(inner.as_str());
                out
            },
        }
    }

    /// The validation error underneath this conversion error, if any.
    pub fn source(&self) -> (r: Option<&ValidationError>)
        ensures
            r == (match *self {
                ConversionError::Validation(e) => Some(&e),
                _ => None::<&ValidationError>,
            }),
    {
        match self {
            ConversionError::Validation(e) => Some(e),
            _ => None,
        }
    }
}

impl From<ValidationError> for ConversionError {
    fn from(e: ValidationError) -> (r: Self) {
        ConversionError::Validation(e)
    }
}

impl vstd::std_specs::convert::FromSpecImpl<ValidationError> for ConversionError {
    open spec fn obeys_from_spec() -> bool {
        true
    }

    open spec fn from_spec(e: ValidationError) -> Self {
        ConversionError::Validation(e)
    }
}

} // verus!
