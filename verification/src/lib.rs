//! A password generator for a small desktop form.
//!
//! A password is a string of a requested length whose symbols are drawn from
//! the symbol groups that the user selected: lowercase letters, uppercase
//! letters and digits. Every position is filled in two stages: first one of
//! the selected groups is picked, then one symbol of that group.
//!
//! [`validate_input`] checks the input of the form, [`generate`] draws the
//! password, and [`RustPasswordGenerator::generate_password`] does both on
//! the state of the form.

pub mod classes;
pub mod form;
pub mod generate;
pub mod length;
mod trusted;
pub mod validate;

pub use classes::{select_classes, CharacterClass};
pub use form::{state_to_bool, CheckBoxState, RustPasswordGenerator};
pub use generate::{generate, get_random_symbol, password_from_draws, symbol_from_draw, Draw};
pub use length::parse_length;
pub use validate::{validate_input, GenerationRequest, ValidationError};
