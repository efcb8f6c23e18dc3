use password_generator::{validate_input, GenerationRequest, ValidationError};

#[test]
fn no_symbol_group_is_rejected() {
    assert_eq!(validate_input(false, false, false, "12"), Err(ValidationError::NoSymbolGroup));
}

#[test]
fn no_symbol_group_is_rejected_whatever_the_length() {
    for text in ["", "0", "1", "12", "abc", "4294967296"] {
        assert_eq!(validate_input(false, false, false, text), Err(ValidationError::NoSymbolGroup));
    }
}

#[test]
fn empty_length_is_rejected() {
    assert_eq!(validate_input(true, true, true, ""), Err(ValidationError::UnreadableLength));
}

#[test]
fn length_that_is_no_number_is_rejected() {
    for text in ["abc", "1a", "-3", " 8", "1.5", "4294967296"] {
        assert_eq!(validate_input(true, false, true, text), Err(ValidationError::UnreadableLength));
    }
}

#[test]
fn zero_length_is_rejected() {
    assert_eq!(validate_input(true, false, false, "0"), Err(ValidationError::LengthBelowOne));
    assert_eq!(validate_input(false, true, true, "000"), Err(ValidationError::LengthBelowOne));
    assert_eq!(validate_input(false, false, true, "+0"), Err(ValidationError::LengthBelowOne));
}

#[test]
fn the_first_failing_rule_decides() {
    assert_eq!(validate_input(false, false, false, ""), Err(ValidationError::NoSymbolGroup));
    assert_eq!(validate_input(false, false, false, "0"), Err(ValidationError::NoSymbolGroup));
    assert_eq!(validate_input(false, true, false, ""), Err(ValidationError::UnreadableLength));
}

#[test]
fn valid_input_gives_the_request() {
    assert_eq!(
        validate_input(true, true, false, "8"),
        Ok(GenerationRequest {
            include_uppercase: true,
            include_lowercase: true,
            include_digits: false,
            length: 8,
        })
    );
    assert_eq!(
        validate_input(false, false, true, "1"),
        Ok(GenerationRequest {
            include_uppercase: false,
            include_lowercase: false,
            include_digits: true,
            length: 1,
        })
    );
}

#[test]
fn every_single_group_is_enough() {
    assert!(validate_input(true, false, false, "12").is_ok());
    assert!(validate_input(false, true, false, "12").is_ok());
    assert!(validate_input(false, false, true, "12").is_ok());
}

#[test]
fn the_largest_length_is_accepted() {
    let request = validate_input(true, true, true, "4294967295").unwrap();
    assert_eq!(request.length, u32::MAX);
}

#[test]
fn messages_are_the_ones_shown_to_the_user() {
    assert_eq!(
        ValidationError::NoSymbolGroup.message(),
        "You should select at least one symbol group"
    );
    assert_eq!(
        ValidationError::UnreadableLength.message(),
        "Password can not be 0 symbols in length"
    );
    assert_eq!(ValidationError::LengthBelowOne.message(), "Password length cannot be less than 1");
}

fn request(upper: bool, lower: bool, digits: bool, length: u32) -> GenerationRequest {
    GenerationRequest {
        include_uppercase: upper,
        include_lowercase: lower,
        include_digits: digits,
        length,
    }
}

#[test]
fn request_of_twelve_without_symbol_group_is_rejected() {
    let outcome = request(false, false, false, 12).validate();
    assert_eq!(outcome, Err(ValidationError::NoSymbolGroup));
    assert_eq!(outcome.unwrap_err().message(), "You should select at least one symbol group");
}

#[test]
fn upper_request_of_length_zero_is_rejected() {
    let outcome = request(true, false, false, 0).validate();
    assert_eq!(outcome, Err(ValidationError::LengthBelowOne));
    assert_eq!(outcome.unwrap_err().message(), "Password length cannot be less than 1");
}

#[test]
fn a_request_without_group_and_length_fails_on_the_groups() {
    assert_eq!(request(false, false, false, 0).validate(), Err(ValidationError::NoSymbolGroup));
}

#[test]
fn a_request_with_a_group_and_a_length_is_valid() {
    for mask in 1u8..8 {
        for length in [1u32, 2, 12, u32::MAX] {
            let request = request(mask & 1 != 0, mask & 2 != 0, mask & 4 != 0, length);
            assert_eq!(request.validate(), Ok(()));
        }
    }
}
