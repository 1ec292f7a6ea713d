use hashengine::encoding::digest_text;

#[test]
fn digest_text_is_lowercase_hex() {
    assert_eq!(digest_text(&[1, 2, 3, 15, 16]), "0102030f10");
    assert_eq!(digest_text(&[0xf9, 0xb4, 0xca]), "f9b4ca");
    assert_eq!(digest_text(&[0xAB, 0xCD, 0xEF]), "abcdef");
}

#[test]
fn digest_text_of_nothing_is_empty() {
    assert_eq!(digest_text(&[]), "");
}

#[test]
fn digest_text_writes_the_high_half_first() {
    assert_eq!(digest_text(&[0x0f]), "0f");
    assert_eq!(digest_text(&[0xf0]), "f0");
    assert_eq!(digest_text(&[0x00, 0xff]), "00ff");
}

#[test]
fn digest_text_is_twice_as_long_as_the_digest() {
    let digest: Vec<u8> = (0..=255u8).collect();
    let text = digest_text(&digest);
    assert_eq!(text.len(), 512);
    assert!(text.chars().all(|c| matches!(c, '0'..='9' | 'a'..='f')));
    let sixty_four = [0x5au8; 64];
    assert_eq!(digest_text(&sixty_four).len(), 128);
}

#[test]
fn digest_text_does_not_hand_the_bytes_back() {
    // "ab" as bytes is 0x61 0x62: the text is their hex, not the bytes
    assert_eq!(digest_text(b"ab"), "6162");
}
