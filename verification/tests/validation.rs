use python_skeleton::validation::{check_name, Case, ErrorCase};

#[test]
fn test_valid_name_snake() {
    let valid_name = String::from("sk_learn");
    let fixable_name = String::from("Sk_learn");

    assert_eq!(
        check_name(valid_name, Case::SnakeCase).ok().unwrap(),
        "sk_learn"
    );
    assert_eq!(
        check_name(fixable_name, Case::SnakeCase).ok().unwrap(),
        "sk_learn"
    );
}

#[test]
fn test_invalid_name_snake() {
    let invalid_name_dash = String::from("sk-learn");
    let invalid_name_space = String::from("sk learn");
    let invalid_name_number = String::from("sk_learn2");

    assert_eq!(
        check_name(invalid_name_dash, Case::SnakeCase)
            .err()
            .unwrap(),
        ErrorCase::SpecialCharNotAllowed
    );
    assert_eq!(
        check_name(invalid_name_space, Case::SnakeCase)
            .err()
            .unwrap(),
        ErrorCase::SpecialCharNotAllowed
    );
    assert_eq!(
        check_name(invalid_name_number, Case::SnakeCase)
            .err()
            .unwrap(),
        ErrorCase::NumberNotAllowed
    );
}

#[test]
fn test_valid_name_train() {
    let valid_name = String::from("Sk-Learn");
    let fixable_name = String::from("sk-learn");

    assert_eq!(
        check_name(valid_name, Case::TrainCase).ok().unwrap(),
        "Sk-Learn"
    );
    assert_eq!(
        check_name(fixable_name, Case::TrainCase).ok().unwrap(),
        "Sk-Learn"
    );
}

#[test]
fn test_invalid_name_train() {
    let invalid_name_dash = String::from("sk_learn");
    let invalid_name_space = String::from("sk learn");
    let invalid_name_number = String::from("sk-learn2");

    assert_eq!(
        check_name(invalid_name_dash, Case::TrainCase)
            .err()
            .unwrap(),
        ErrorCase::SpecialCharNotAllowed
    );
    assert_eq!(
        check_name(invalid_name_space, Case::TrainCase)
            .err()
            .unwrap(),
        ErrorCase::SpecialCharNotAllowed
    );
    assert_eq!(
        check_name(invalid_name_number, Case::TrainCase)
            .err()
            .unwrap(),
        ErrorCase::NumberNotAllowed
    );
}

#[test]
fn test_digit_rejected_under_both_policies() {
    assert_eq!(
        check_name(String::from("model2"), Case::SnakeCase)
            .err()
            .unwrap(),
        ErrorCase::NumberNotAllowed
    );
    assert_eq!(
        check_name(String::from("model2"), Case::TrainCase)
            .err()
            .unwrap(),
        ErrorCase::NumberNotAllowed
    );
    assert_eq!(
        check_name(String::from("0"), Case::SnakeCase).err().unwrap(),
        ErrorCase::NumberNotAllowed
    );
}

#[test]
fn test_empty_name_is_valid() {
    assert_eq!(check_name(String::new(), Case::SnakeCase).ok().unwrap(), "");
    assert_eq!(check_name(String::new(), Case::TrainCase).ok().unwrap(), "");
}

#[test]
fn test_train_consecutive_delimiters() {
    // The capitalize state is consumed by the character right after a
    // hyphen, even when that character is itself a hyphen: the letter after
    // a double hyphen stays lower-case.
    assert_eq!(
        check_name(String::from("sk--learn"), Case::TrainCase)
            .ok()
            .unwrap(),
        "Sk--learn"
    );
    // Re-validating the output gives it back unchanged.
    assert_eq!(
        check_name(String::from("Sk--learn"), Case::TrainCase)
            .ok()
            .unwrap(),
        "Sk--learn"
    );
}

#[test]
fn test_train_leading_and_trailing_delimiters() {
    // A leading hyphen consumes the initial capitalize state, so the first
    // letter stays lower-case; trailing hyphens are accepted.
    assert_eq!(
        check_name(String::from("-ab"), Case::TrainCase).ok().unwrap(),
        "-ab"
    );
    assert_eq!(
        check_name(String::from("ab-"), Case::TrainCase).ok().unwrap(),
        "Ab-"
    );
    // Idempotence on both.
    assert_eq!(
        check_name(String::from("-ab"), Case::TrainCase).ok().unwrap(),
        check_name(
            check_name(String::from("-ab"), Case::TrainCase).ok().unwrap(),
            Case::TrainCase
        )
        .ok()
        .unwrap()
    );
}

#[test]
fn test_snake_leading_and_trailing_underscores() {
    assert_eq!(
        check_name(String::from("_ab_"), Case::SnakeCase).ok().unwrap(),
        "_ab_"
    );
    assert_eq!(
        check_name(String::from("A_B"), Case::SnakeCase).ok().unwrap(),
        "a_b"
    );
}

#[test]
fn test_error_messages() {
    assert_eq!(
        ErrorCase::NumberNotAllowed.message(),
        "Numbers are not allowed!"
    );
    assert_eq!(
        ErrorCase::SpecialCharNotAllowed.message(),
        "Only alphabetic characters are allowed"
    );
}
