use zero2prod::domain::user_name::MAX_GRAPHEMES;
use zero2prod::domain::{UserError, UserName};

fn letters(n: usize) -> String {
    let mut s = String::new();
    for i in 0..n {
        s.push(if i % 2 == 0 { 'a' } else { 'Z' });
    }
    s
}

#[test]
fn test_name_ok() {
    assert!(UserName::parse("Test User".into()).is_ok());
}

#[test]
fn test_empty_name_fail() {
    assert!(UserName::parse("".into()).is_err());
}

#[test]
fn test_invalid_name_fail() {
    assert!(UserName::parse("\"".into()).is_err());
}

#[test]
fn test_long_name_fail() {
    let name = "AaaAAaaAaAaaaAaaaaAAaAAAaaaAaaaaAaaAaAaAAAaaaAAAaaAaaAAaaaAaAAAAAaAAaaaaaaAaaAAAAaaaaaAAaAAAAaAAAaAAAaAAAAAAAAAaAaAaaaaaaaAAAAaAAAaaAaaAABZeoqULfJKySsSwWubOuYhApypnREEVnhQynUKKdPlbmTyUnXLQBDCacYDIeHmXaYlyWPbzfLIerqWnIuvIybYrrGkwuimXVafnYWPFZwbnUPlxclfxedrCc";
    assert!(UserName::parse(name.into()).is_err());
}

#[test]
fn name_of_255_or_256_letters_is_accepted() {
    assert!(UserName::parse(letters(255)).is_ok());
    assert!(UserName::parse(letters(256)).is_ok());
}

#[test]
fn name_of_257_letters_is_refused() {
    let name = letters(257);
    assert_eq!(
        UserName::parse(name.clone()),
        Err(UserError::ParseUserNameError(name))
    );
}

#[test]
fn limit_is_256_grapheme_clusters() {
    assert_eq!(MAX_GRAPHEMES, 256);
}

#[test]
fn length_counts_grapheme_clusters_not_characters() {
    // Each cluster is a letter with a combining accent: two characters.
    let at_limit = "e\u{301}".repeat(256);
    assert_eq!(at_limit.chars().count(), 512);
    let name = UserName::parse(at_limit.clone()).unwrap();
    assert_eq!(name.as_ref(), &at_limit);

    let over = "e\u{301}".repeat(257);
    assert_eq!(
        UserName::parse(over.clone()),
        Err(UserError::ParseUserNameError(over))
    );
}

#[test]
fn multi_byte_characters_count_once() {
    let name = "é".repeat(256);
    assert_eq!(name.len(), 512);
    assert!(UserName::parse(name).is_ok());
}

#[test]
fn blank_names_are_refused() {
    for blank in ["", " ", "   ", "\t", "\n", " \r\n\t ", "\u{A0}", "\u{2003}\u{3000}"] {
        assert_eq!(
            UserName::parse(blank.to_string()),
            Err(UserError::ParseUserNameError(blank.to_string())),
            "{:?}",
            blank
        );
    }
}

#[test]
fn blank_name_of_256_spaces_is_refused() {
    let spaces = " ".repeat(256);
    assert!(UserName::parse(spaces).is_err());
}

#[test]
fn each_forbidden_character_is_refused() {
    for c in ['/', '(', ')', '"', '<', '>', '\\', '{', '}'] {
        for name in [
            c.to_string(),
            format!("{}Ursula", c),
            format!("Ursula{}", c),
            format!("Ursula {} Le Guin", c),
        ] {
            assert_eq!(
                UserName::parse(name.clone()),
                Err(UserError::ParseUserNameError(name.clone())),
                "{:?}",
                name
            );
        }
    }
}

#[test]
fn other_punctuation_is_accepted() {
    for name in ["O'Brien", "Jean-Luc", "a.b", "[x]", "a|b", "1+1=2", "x & y", "你好"] {
        assert!(UserName::parse(name.to_string()).is_ok(), "{:?}", name);
    }
}

#[test]
fn control_characters_are_accepted_beside_text() {
    assert!(UserName::parse("a\u{0}b".to_string()).is_ok());
    assert!(UserName::parse("\u{7}".to_string()).is_ok());
}

#[test]
fn accepted_name_is_kept_untrimmed() {
    let name = UserName::parse("  Ursula Le Guin \n".into()).unwrap();
    assert_eq!(name.as_ref(), "  Ursula Le Guin \n");
    assert_eq!(name.to_string(), "  Ursula Le Guin \n");
}

#[test]
fn refusal_carries_the_submitted_text() {
    match UserName::parse(" a/b ".into()) {
        Err(UserError::ParseUserNameError(text)) => assert_eq!(text, " a/b "),
        other => panic!("{:?}", other),
    }
}

#[test]
fn parsing_a_name_twice_agrees() {
    for text in ["Test User", "", "a{b", " x "] {
        let first = UserName::parse(text.to_string());
        let second = UserName::parse(text.to_string());
        match (first, second) {
            (Ok(a), Ok(b)) => assert_eq!(a.as_ref(), b.as_ref()),
            (Err(a), Err(b)) => assert_eq!(a, b),
            (a, b) => panic!("{:?} {:?}", a, b),
        }
    }
}
