use hawk::ids::VideoId;

#[test]
fn identifier_text_is_hyphenated_lower_hex() {
    let id = VideoId { raw: 0xa1a2a3a4b1b2c1c2d1d2d3d4d5d6d7d8 };
    assert_eq!(id.text(), "a1a2a3a4-b1b2-c1c2-d1d2-d3d4d5d6d7d8");
}

#[test]
fn identifier_text_keeps_leading_zeros() {
    assert_eq!(VideoId { raw: 0 }.text(), "00000000-0000-0000-0000-000000000000");
    assert_eq!(VideoId { raw: 0xabc }.text(), "00000000-0000-0000-0000-000000000abc");
    assert_eq!(VideoId { raw: u128::MAX }.text(), "ffffffff-ffff-ffff-ffff-ffffffffffff");
}

#[test]
fn identifier_text_agrees_with_uuid() {
    let raw = 0x0123456789abcdef0fedcba987654321u128;
    assert_eq!(VideoId { raw }.text(), uuid::Uuid::from_u128(raw).to_string());
}

#[test]
fn generated_identifier_is_random_version() {
    for _ in 0..32 {
        let id = VideoId::generate();
        assert_eq!((id.raw >> 76) & 0xf, 4);
        assert_eq!((id.raw >> 62) & 0x3, 2);
        assert_eq!(uuid::Uuid::from_u128(id.raw).get_version_num(), 4);
    }
}

#[test]
fn generated_identifiers_differ() {
    assert_ne!(VideoId::generate(), VideoId::generate());
}
