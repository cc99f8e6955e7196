use zero2prod::domain::{UserEmail, UserError};

#[test]
fn test_email_ok() {
    assert!(UserEmail::parse("user@example.com".into()).is_ok());
}

#[test]
fn test_empty_email_fail() {
    assert!(UserEmail::parse("".into()).is_err());
}

#[test]
fn test_missing_subject_fail() {
    assert!(UserEmail::parse("@gmail.com".into()).is_err());
}

#[test]
fn test_missing_at_sign_fail() {
    assert!(UserEmail::parse("gmail.com".into()).is_err());
}

#[test]
fn refused_email_carries_the_submitted_text() {
    for text in ["", "@gmail.com", "gmail.com", "not-an-email", "a@", "a b@c.d", " a@b.c"] {
        assert_eq!(
            UserEmail::parse(text.to_string()),
            Err(UserError::ParseUserEmailError(text.to_string())),
            "{:?}",
            text
        );
    }
}

#[test]
fn accepted_email_is_kept_as_submitted() {
    for text in [
        "user@example.com",
        "ursula_le_guin@gmail.com",
        "User.Name+tag@Example.COM",
        "email@[127.0.0.1]",
        "a@b",
    ] {
        let email = UserEmail::parse(text.to_string()).unwrap();
        assert_eq!(email.as_ref(), text);
        assert_eq!(email.to_string(), text);
    }
}

#[test]
fn overlong_local_part_is_refused() {
    let ok = format!("{}@example.com", "a".repeat(64));
    let long = format!("{}@example.com", "a".repeat(65));
    assert!(UserEmail::parse(ok).is_ok());
    assert!(UserEmail::parse(long).is_err());
}

#[test]
fn parsing_an_email_twice_agrees() {
    for text in ["user@example.com", "", "gmail.com"] {
        let first = UserEmail::parse(text.to_string());
        let second = UserEmail::parse(text.to_string());
        match (first, second) {
            (Ok(a), Ok(b)) => assert_eq!(a.as_ref(), b.as_ref()),
            (Err(a), Err(b)) => assert_eq!(a, b),
            (a, b) => panic!("{:?} {:?}", a, b),
        }
    }
}
