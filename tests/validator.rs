use typing_gate::secret::Secret;
use typing_gate::validator::{reason_message_is_bad, validate, RejectReason, ValidationResult};

#[test]
fn short_candidate_is_too_short() {
    assert_eq!(validate("Ab1!"), ValidationResult::Rejected(RejectReason::TooShort));
}

#[test]
fn every_short_candidate_is_too_short() {
    for s in ["", "a", "Ab1!Ab1!x", "ÄÖÜäöü12!"] {
        assert_eq!(validate(s), ValidationResult::Rejected(RejectReason::TooShort));
    }
}

#[test]
fn length_counts_characters_not_bytes() {
    // nine characters but more than ten bytes
    assert_eq!(validate("ÄÖäö12!?x"), ValidationResult::Rejected(RejectReason::TooShort));
    // ten characters
    assert_eq!(validate("ÄÖäö12!?xY"), ValidationResult::Accepted);
}

#[test]
fn letters_only_has_too_few_digits() {
    assert_eq!(validate("Abcdefghij"), ValidationResult::Rejected(RejectReason::TooFewDigits));
}

#[test]
fn too_few_upper() {
    assert_eq!(validate("aB12!!cd34"), ValidationResult::Rejected(RejectReason::TooFewUpper));
}

#[test]
fn too_few_lower() {
    assert_eq!(validate("AB12!!Cd34"), ValidationResult::Rejected(RejectReason::TooFewLower));
}

#[test]
fn too_few_special() {
    assert_eq!(validate("AB12!aCd34"), ValidationResult::Rejected(RejectReason::TooFewSpecial));
}

#[test]
fn pairs_of_each_class_are_accepted() {
    assert_eq!(validate("AAbb112233!!"), ValidationResult::Accepted);
}

#[test]
fn three_upper_in_a_row_is_excessive() {
    // too short as a whole, so the run check is reached only with padding
    assert_eq!(validate("AAAb11!!"), ValidationResult::Rejected(RejectReason::TooShort));
    assert_eq!(validate("AAAb11!!c?"), ValidationResult::Rejected(RejectReason::ExcessiveRun));
}

#[test]
fn three_lower_in_a_row_is_excessive() {
    assert_eq!(validate("AbC12!!xyz"), ValidationResult::Rejected(RejectReason::ExcessiveRun));
}

#[test]
fn a_digit_breaks_a_run() {
    assert_eq!(validate("AA1AAbb!b2?"), ValidationResult::Accepted);
}

#[test]
fn opposite_case_breaks_a_run() {
    assert_eq!(validate("AAbbAAbb1!2?"), ValidationResult::Accepted);
}

#[test]
fn validation_is_repeatable() {
    for s in ["Ab1!", "AAbb112233!!", "AbC12!!xyz", "Abcdefghij"] {
        assert_eq!(validate(s), validate(s));
    }
}

#[test]
fn messages_follow_the_first_failure() {
    assert_eq!(reason_message_is_bad("kurz"), Some("Zu kurz"));
    assert_eq!(reason_message_is_bad("Abcdefghij"), Some("Zu wenig Ziffern"));
    assert_eq!(reason_message_is_bad("aB12!!cd34"), Some("Zu wenig Großbuchstaben"));
    assert_eq!(reason_message_is_bad("AB12!!Cd34"), Some("Zu wenig Kleinbuchstaben"));
    assert_eq!(reason_message_is_bad("AB12!aCd34"), Some("Zu wenig Sonderzeichen"));
    assert_eq!(reason_message_is_bad("AbC12!!xyz"), Some("Zu wenig Varianz"));
    assert_eq!(reason_message_is_bad("AAbb112233!!"), None);
}

#[test]
fn confirm_replaces_only_with_an_accepted_candidate() {
    let mut secret = Secret::new("SupersicherPasswort123");
    assert_eq!(secret.confirm("Abcdefghij"), Err(RejectReason::TooFewDigits));
    assert_eq!(secret.current_value(), "SupersicherPasswort123");
    assert_eq!(secret.confirm("AAbb112233!!"), Ok(()));
    assert_eq!(secret.current_value(), "AAbb112233!!");
}
