//! The state of the form: three check boxes, the length field and the field
//! that shows the password.

use crate::classes::permitted;
use crate::generate::{generate, replayed, Draw};
use crate::validate::{validate_input, validated, GenerationRequest, ValidationError};
use vstd::prelude::*;

verus! {

/// The state of a check box.
#[derive(Clone, Copy, Debug, PartialEq, Eq, Structural)]
pub enum CheckBoxState {
    Checked,
    Unchecked,
    /// The third state of a check box with three states.
    Indeterminate,
}

/// Whether a check box selects its symbol group: only a checked box does.
pub fn state_to_bool(state: CheckBoxState) -> (selected: bool)
    ensures
        selected <==> state is Checked,
{
    match state {
        CheckBoxState::Checked => true,
        _ => false,
    }
}

/// The form of the password generator.
#[derive(Debug)]
pub struct RustPasswordGenerator {
    /// Whether to include uppercase letters.
    pub upper_cb: CheckBoxState,
    /// Whether to include lowercase letters.
    pub lower_cb: CheckBoxState,
    /// Whether to include digits.
    pub number_cb: CheckBoxState,
    /// The text of the length field.
    pub passlen: String,
    /// The text of the result field.
    pub result_text: String,
}

impl RustPasswordGenerator {
    /// The request that the form stands for, or the error that its input
    /// gives.
    pub open spec fn request(self) -> Result<GenerationRequest, ValidationError> {
        validated(
            self.upper_cb is Checked,
            self.lower_cb is Checked,
            self.number_cb is Checked,
            self.passlen@,
        )
    }

    /// Generates a password from the input of the form and puts it in the
    /// result field.
    ///
    /// When the input is not valid, the form stays as it is and the error
    /// says which rule failed first.
    pub fn generate_password(&mut self) -> (outcome: Result<(), ValidationError>)
        ensures
            match old(self).request() {
                Err(error) => outcome.err() == Some(error) && *final(self) == *old(self),
                Ok(request) => {
                    &&& outcome is Ok
                    &&& *final(self) == (RustPasswordGenerator {
                        result_text: final(self).result_text,
                        ..*old(self)
                    })
                    &&& final(self).result_text@.len() == request.length
                    &&& forall|i: int|
                        0 <= i < request.length ==> permitted(
                            request.include_uppercase,
                            request.include_lowercase,
                            request.include_digits,
                            #[trigger] final(self).result_text@[i],
                        )
                    &&& exists|draws: Seq<Draw>| #[trigger]
                        replayed(
                            request.include_uppercase,
                            request.include_lowercase,
                            request.include_digits,
                            request.length,
                            draws,
                        ) == Some(final(self).result_text@)
                },
            },
    {
        let is_upper = state_to_bool(self.upper_cb);
        let is_lower = state_to_bool(self.lower_cb);
        let is_number = state_to_bool(self.number_cb);
        match validate_input(is_upper, is_lower, is_number, self.passlen.as_str()) {
            Err(error) => Err(error),
            Ok(request) => {
                self.result_text = generate(
                    request.include_uppercase,
                    request.include_lowercase,
                    request.include_digits,
                    request.length,
                );
                Ok(())
            },
        }
    }
}

impl Default for RustPasswordGenerator {
    /// The form as it first appears: every symbol group selected, a length of
    /// twelve and no password yet.
    fn default() -> (form: Self)
        ensures
            form.upper_cb is Checked,
            form.lower_cb is Checked,
            form.number_cb is Checked,
            form.passlen@ == "12"@,
            form.result_text@ == Seq::<char>::empty(),
    {
        RustPasswordGenerator {
            upper_cb: CheckBoxState::Checked,
            lower_cb: CheckBoxState::Checked,
            number_cb: CheckBoxState::Checked,
            passlen: "12".to_owned(),
            result_text: String::new(),
        }
    }
}

} // verus!
