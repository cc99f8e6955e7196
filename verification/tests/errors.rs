use zero2prod::domain::UserError;

#[test]
fn name_refusal_is_described() {
    let e = UserError::ParseUserNameError("a/b".into());
    assert_eq!(e.to_string(), "a/b is not a valid user name.");
}

#[test]
fn email_refusal_is_described() {
    let e = UserError::ParseUserEmailError("gmail.com".into());
    assert_eq!(e.to_string(), "gmail.com is not a valid user email.");
}

#[test]
fn refusal_of_empty_text_is_described() {
    assert_eq!(
        UserError::ParseUserNameError(String::new()).to_string(),
        " is not a valid user name."
    );
    assert_eq!(
        UserError::ParseUserEmailError(String::new()).to_string(),
        " is not a valid user email."
    );
}
