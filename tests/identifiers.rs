use matryriska::ids::{generate_request_uuid, get_id, Token};

#[test]
fn token_text_round_trip() {
    let t = Token { value: 0x550e8400_e29b_41d4_a716_446655440000 };
    assert_eq!(t.text(), "550e8400-e29b-41d4-a716-446655440000");
    assert_eq!(Token::parse("550e8400-e29b-41d4-a716-446655440000"), Some(t));
    assert_eq!(Token::parse("not a token"), None);
    assert_eq!(Token::parse(""), None);
}

#[test]
fn short_id_is_first_eight_characters() {
    let t = Token { value: 0x550e8400_e29b_41d4_a716_446655440000 };
    assert_eq!(get_id(t), "550e8400");
}

#[test]
fn random_tokens_are_version_four() {
    let a = Token::random();
    let b = Token::random();
    assert_ne!(a, b);
    assert_eq!((a.value >> 76) & 0xf, 4);
    assert_eq!((a.value >> 62) & 0x3, 2);
    let text = generate_request_uuid();
    assert_eq!(text.len(), 36);
    assert_eq!(&text[14..15], "4");
    assert!(Token::parse(&text).is_some());
}
