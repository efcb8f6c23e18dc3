//! The rules a request must meet before a password is generated.

use crate::length::{parse_length, parsed_length};
use vstd::prelude::*;

verus! {

/// Why a request was turned down.
#[derive(Clone, Copy, Debug, PartialEq, Eq, Structural)]
pub enum ValidationError {
    /// None of the three symbol groups is selected.
    NoSymbolGroup,
    /// The length field is empty or does not hold a number.
    UnreadableLength,
    /// The length field holds the number zero.
    LengthBelowOne,
}

impl ValidationError {
    /// The message shown to the user.
    pub open spec fn message_text(self) -> Seq<char> {
        match self {
            ValidationError::NoSymbolGroup => "You should select at least one symbol group"@,
            ValidationError::UnreadableLength => "Password can not be 0 symbols in length"@,
            ValidationError::LengthBelowOne => "Password length cannot be less than 1"@,
        }
    }

    /// The message shown to the user.
    pub fn message(&self) -> (text: &'static str)
        ensures
            text@ == self.message_text(),
    {
        match self {
            ValidationError::NoSymbolGroup => "You should select at least one symbol group",
            ValidationError::UnreadableLength => "Password can not be 0 symbols in length",
            ValidationError::LengthBelowOne => "Password length cannot be less than 1",
        }
    }
}

/// What to generate: the selected symbol groups and the number of symbols.
#[derive(Clone, Copy, Debug, PartialEq, Eq, Structural)]
pub struct GenerationRequest {
    pub include_uppercase: bool,
    pub include_lowercase: bool,
    pub include_digits: bool,
    pub length: u32,
}

impl GenerationRequest {
    /// Whether at least one symbol group is selected.
    pub open spec fn selects_a_group(self) -> bool {
        self.include_uppercase || self.include_lowercase || self.include_digits
    }

    /// A request can be generated from when it selects at least one symbol
    /// group and asks for at least one symbol.
    pub open spec fn valid(self) -> bool {
        self.selects_a_group() && self.length >= 1
    }

    /// Checks the request. Of the two rules the one on the symbol groups is
    /// tried first.
    pub fn validate(&self) -> (outcome: Result<(), ValidationError>)
        ensures
            outcome is Ok <==> self.valid(),
            !self.selects_a_group() ==> outcome matches Err(ValidationError::NoSymbolGroup),
            self.selects_a_group() && self.length == 0 ==> outcome matches Err(
                ValidationError::LengthBelowOne,
            ),
    {
        if !(self.include_lowercase || self.include_uppercase || self.include_digits) {
            Err(ValidationError::NoSymbolGroup)
        } else if self.length < 1 {
            Err(ValidationError::LengthBelowOne)
        } else {
            Ok(())
        }
    }
}

/// What the rules make of the three toggles and the text of the length
/// field. The rules are tried in a fixed order and the first one that fails
/// decides the error: a symbol group must be selected, the text must hold a
/// number, and the number must be at least one.
pub open spec fn validated(
    include_uppercase: bool,
    include_lowercase: bool,
    include_digits: bool,
    length_text: Seq<char>,
) -> Result<GenerationRequest, ValidationError> {
    if !(include_uppercase || include_lowercase || include_digits) {
        Err(ValidationError::NoSymbolGroup)
    } else {
        match parsed_length(length_text) {
            None => Err(ValidationError::UnreadableLength),
            Some(length) => if length < 1 {
                Err(ValidationError::LengthBelowOne)
            } else {
                Ok(
                    GenerationRequest {
                        include_uppercase,
                        include_lowercase,
                        include_digits,
                        length,
                    },
                )
            },
        }
    }
}

/// Checks the three toggles and the text of the length field, and turns them
/// into a request that a password can be generated from.
pub fn validate_input(
    include_uppercase: bool,
    include_lowercase: bool,
    include_digits: bool,
    length_text: &str,
) -> (outcome: Result<GenerationRequest, ValidationError>)
    ensures
        outcome == validated(include_uppercase, include_lowercase, include_digits, length_text@),
        !(include_uppercase || include_lowercase || include_digits) ==> outcome matches Err(
            ValidationError::NoSymbolGroup,
        ),
        (include_uppercase || include_lowercase || include_digits) && parsed_length(
            length_text@,
        ) is None ==> outcome matches Err(ValidationError::UnreadableLength),
        (include_uppercase || include_lowercase || include_digits) && parsed_length(length_text@)
            == Some(0u32) ==> outcome matches Err(ValidationError::LengthBelowOne),
        outcome is Ok ==> outcome->Ok_0.valid(),
{
    if !(include_lowercase || include_uppercase || include_digits) {
        return Err(ValidationError::NoSymbolGroup);
    }
    match parse_length(length_text) {
        None => Err(ValidationError::UnreadableLength),
        Some(length) => {
            let request = GenerationRequest {
                include_uppercase,
                include_lowercase,
                include_digits,
                length,
            };
            match request.validate() {
                Ok(()) => Ok(request),
                Err(error) => Err(error),
            }
        },
    }
}

} // verus!
