use zero2prod::token::{Token, TOKEN_LENGTH};

#[test]
fn a_token_spells_its_bits_in_lower_case_hexadecimal() {
    let token = Token::from_entropy(
        0x0123_4567_89ab_cdef_fedc_ba98_7654_3210,
        0x0000_0000_0000_0000_0000_0000_0000_00ff,
    );
    assert_eq!(
        token.as_ref(),
        "0123456789abcdeffedcba9876543210000000000000000000000000000000ff"
    );
    assert_eq!(Token::from_entropy(0, 0).as_ref(), "0".repeat(64));
    assert_eq!(Token::from_entropy(u128::MAX, u128::MAX).as_ref(), "f".repeat(64));
    assert_eq!(
        Token::from_entropy(1 << 127, 1).as_ref(),
        format!("8{}{}1", "0".repeat(31), "0".repeat(31))
    );
}

#[test]
fn a_token_has_sixty_four_characters() {
    assert_eq!(TOKEN_LENGTH, 64);
    assert_eq!(Token::generate().as_ref().chars().count(), 64);
}

#[test]
fn a_generated_token_is_well_formed_and_parses_back() {
    for _ in 0..50 {
        let token = Token::generate();
        let text = token.as_ref().to_string();
        assert_eq!(text.len(), 64);
        assert!(text.chars().all(|c| matches!(c, '0'..='9' | 'a'..='f')));
        assert_eq!(Token::parse(&text), Some(token));
    }
}

#[test]
fn generated_tokens_differ() {
    let a = Token::generate();
    let b = Token::generate();
    assert_ne!(a, b);
    // Each half is a version-4 UUID: 32 digits with the version at the 13th.
    assert_eq!(a.as_ref().as_bytes()[12], b'4');
    assert_eq!(a.as_ref().as_bytes()[44], b'4');
    assert_ne!(a.as_ref()[..32], a.as_ref()[32..]);
}

#[test]
fn parse_accepts_sixty_four_lower_case_hexadecimal_digits_only() {
    let good = "0123456789abcdef".repeat(4);
    assert_eq!(Token::parse(&good).unwrap().as_ref(), good);
    assert!(Token::parse("").is_none());
    assert!(Token::parse(&"a".repeat(63)).is_none());
    assert!(Token::parse(&"a".repeat(65)).is_none());
    assert!(Token::parse(&"a".repeat(1000)).is_none());
    assert!(Token::parse(&"A".repeat(64)).is_none());
    assert!(Token::parse(&"g".repeat(64)).is_none());
    assert!(Token::parse(&format!("{} ", "a".repeat(63))).is_none());
    assert!(Token::parse(&format!("{}é", "a".repeat(63))).is_none());
    assert!(Token::parse(&"/".repeat(64)).is_none());
    assert!(Token::parse(&":".repeat(64)).is_none());
    assert!(Token::parse(&"`".repeat(64)).is_none());
}

#[test]
fn tokens_compare_by_their_text() {
    let a = Token::from_entropy(1, 2);
    let b = Token::from_entropy(1, 2);
    let c = Token::from_entropy(2, 1);
    assert_eq!(a, b);
    assert_ne!(a, c);
    assert_eq!(a.clone(), a);
}

#[test]
fn different_bits_make_different_tokens() {
    let samples: [u128; 6] = [0, 1, 0xf, 0x10, 1 << 64, u128::MAX];
    for (i, &high) in samples.iter().enumerate() {
        for (j, &low) in samples.iter().enumerate() {
            for (k, &other_high) in samples.iter().enumerate() {
                for (l, &other_low) in samples.iter().enumerate() {
                    let same = Token::from_entropy(high, low)
                        == Token::from_entropy(other_high, other_low);
                    assert_eq!(same, i == k && j == l);
                }
            }
        }
    }
}
