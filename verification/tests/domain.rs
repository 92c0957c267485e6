use newsletter::domain::{FormData, NewSubscriber, SubscriberEmail, SubscriberName};

#[test]
fn empty_string_is_rejected() {
    assert!(SubscriberName::parse(String::new()).is_err());
}

#[test]
fn whitespace_only_names_are_rejected() {
    assert!(SubscriberName::parse(" ".to_string()).is_err());
    assert!(SubscriberName::parse("   \t\n\r ".to_string()).is_err());
    assert!(SubscriberName::parse("\u{00A0}\u{2003}\u{3000}".to_string()).is_err());
}

#[test]
fn a_256_grapheme_long_name_is_valid() {
    let name = "a".repeat(256);
    assert!(SubscriberName::parse(name).is_ok());
}

#[test]
fn a_name_longer_than_256_graphemes_is_rejected() {
    let name = "a".repeat(257);
    assert!(SubscriberName::parse(name).is_err());
}

#[test]
fn length_is_measured_in_grapheme_clusters_not_code_points() {
    // 256 user-perceived characters, each of two code points.
    let name = "a\u{0301}".repeat(256);
    assert_eq!(name.chars().count(), 512);
    assert!(SubscriberName::parse(name).is_ok());
    let too_long = "a\u{0301}".repeat(257);
    assert!(SubscriberName::parse(too_long).is_err());
}

#[test]
fn names_containing_a_forbidden_character_are_rejected() {
    for c in ['/', '(', ')', '"', '<', '>', '\\', '{', '}'] {
        let name = format!("Ann{}e", c);
        assert!(SubscriberName::parse(name).is_err());
    }
}

#[test]
fn a_valid_name_is_accepted_and_kept() {
    let parsed = SubscriberName::parse("Ursula Le Guin".to_string()).unwrap();
    assert_eq!(parsed.as_ref(), "Ursula Le Guin");
}

#[test]
fn name_rejection_message_names_the_input() {
    let err = SubscriberName::parse("{bad}".to_string()).unwrap_err();
    assert_eq!(err, "{bad} is not a valid subscriber name.");
}

#[test]
fn valid_emails_are_accepted() {
    let parsed = SubscriberEmail::parse("ursula_le_guin@gmail.com".to_string()).unwrap();
    assert_eq!(parsed.as_ref(), "ursula_le_guin@gmail.com");
    assert!(SubscriberEmail::parse("valid@example.com".to_string()).is_ok());
}

#[test]
fn invalid_emails_are_rejected() {
    assert!(SubscriberEmail::parse("not-an-email".to_string()).is_err());
    assert!(SubscriberEmail::parse(String::new()).is_err());
    assert!(SubscriberEmail::parse("@missing-local".to_string()).is_err());
    assert!(SubscriberEmail::parse("missing-domain@".to_string()).is_err());
    assert!(SubscriberEmail::parse("two@at@signs".to_string()).is_err());
    assert!(SubscriberEmail::parse("spaced out@example.com".to_string()).is_err());
}

#[test]
fn email_rejection_message_names_the_input() {
    let err = SubscriberEmail::parse("not-an-email".to_string()).unwrap_err();
    assert_eq!(err, "not-an-email is not a valid subscriber email.");
}

#[test]
fn try_from_checks_the_name_before_the_email() {
    let form = FormData { email: "not-an-email".to_string(), name: String::new() };
    let err = NewSubscriber::try_from(form).unwrap_err();
    assert_eq!(err, " is not a valid subscriber name.");
}

#[test]
fn try_from_accepts_a_fully_valid_submission() {
    let form = FormData {
        email: "ursula_le_guin@gmail.com".to_string(),
        name: "Ursula Le Guin".to_string(),
    };
    let new_subscriber = NewSubscriber::try_from(form).unwrap();
    assert_eq!(new_subscriber.email.as_ref(), "ursula_le_guin@gmail.com");
    assert_eq!(new_subscriber.name.as_ref(), "Ursula Le Guin");
}
