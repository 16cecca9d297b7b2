use zero2prod::domain::{SubscriberEmail, SubscriberName};

#[test]
fn name_valid_is_kept_verbatim() {
    let name = SubscriberName::parse("Ursula Le Guin".to_string()).unwrap();
    assert_eq!(name.as_str(), "Ursula Le Guin");
}

#[test]
fn name_empty_is_rejected() {
    let err = SubscriberName::parse("".to_string()).unwrap_err();
    assert_eq!(err, " is not a valid subscriber name.");
}

#[test]
fn name_whitespace_only_is_rejected() {
    assert!(SubscriberName::parse(" \t\r\n ".to_string()).is_err());
}

#[test]
fn name_of_unicode_whitespace_only_is_rejected() {
    // No-break space, em space, line separator, ideographic space: all
    // trim to nothing, so each name is blank.
    assert!(SubscriberName::parse("\u{a0}".to_string()).is_err());
    assert!(SubscriberName::parse("\u{2003}\u{2003}".to_string()).is_err());
    assert!(SubscriberName::parse("\u{2028}\u{a0}\u{3000}".to_string()).is_err());
    // A name padded with such whitespace around a real character stays valid.
    assert!(SubscriberName::parse("\u{a0}U\u{a0}".to_string()).is_ok());
}

#[test]
fn name_of_256_characters_is_accepted() {
    let name = "a".repeat(256);
    assert!(SubscriberName::parse(name).is_ok());
}

#[test]
fn name_over_256_characters_is_rejected() {
    let name = "a".repeat(257);
    assert!(SubscriberName::parse(name).is_err());
}

#[test]
fn name_with_forbidden_character_is_rejected() {
    for c in ['/', '(', ')', '"', '<', '>', '\\', '{', '}'] {
        let name = format!("Ursula{}LeGuin", c);
        assert!(SubscriberName::parse(name).is_err());
    }
}

#[test]
fn name_unicode_is_accepted() {
    assert!(SubscriberName::parse("Ursula K. Le Guin 烏蘇拉".to_string()).is_ok());
}

#[test]
fn email_valid_is_kept_verbatim() {
    let email = SubscriberEmail::parse("ursula@domain.com".to_string()).unwrap();
    assert_eq!(email.as_str(), "ursula@domain.com");
}

#[test]
fn email_without_at_is_rejected() {
    assert!(SubscriberEmail::parse("not-an-email".to_string()).is_err());
    assert!(SubscriberEmail::parse("ursuladomain.com".to_string()).is_err());
}

#[test]
fn email_with_empty_parts_is_rejected() {
    assert!(SubscriberEmail::parse("@domain.com".to_string()).is_err());
    assert!(SubscriberEmail::parse("ursula@".to_string()).is_err());
    assert!(SubscriberEmail::parse("".to_string()).is_err());
}

#[test]
fn email_domain_without_dot_is_rejected() {
    assert!(SubscriberEmail::parse("ursula@domain".to_string()).is_err());
}

#[test]
fn email_with_misplaced_dot_is_rejected() {
    assert!(SubscriberEmail::parse("ursula@.domain.com".to_string()).is_err());
    assert!(SubscriberEmail::parse("ursula@domain.com.".to_string()).is_err());
}

#[test]
fn email_with_whitespace_is_rejected() {
    assert!(SubscriberEmail::parse("ursula le guin@domain.com".to_string()).is_err());
    assert!(SubscriberEmail::parse("ursula\u{a0}le@domain.com".to_string()).is_err());
}

#[test]
fn email_with_two_ats_is_rejected() {
    assert!(SubscriberEmail::parse("ursula@@domain.com".to_string()).is_err());
    assert!(SubscriberEmail::parse("ursula@le@domain.com".to_string()).is_err());
}

#[test]
fn email_error_message_names_the_input() {
    let err = SubscriberEmail::parse("not-an-email".to_string()).unwrap_err();
    assert_eq!(err, "not-an-email is not a valid subscriber email.");
}
