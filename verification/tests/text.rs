use mcpmux::text::{hex_fixed, uuid_string};

#[test]
fn uuid_string_matches_uuid_display() {
    for v in [0u128, 1, 0x0123_4567_89ab_cdef_0123_4567_89ab_cdef, u128::MAX, 0xdead_beef << 64] {
        assert_eq!(uuid_string(v), uuid::Uuid::from_u128(v).to_string());
    }
    assert_eq!(
        uuid_string(0x0123_4567_89ab_cdef_0123_4567_89ab_cdef),
        "01234567-89ab-cdef-0123-456789abcdef"
    );
}

#[test]
fn hex_fixed_pads_and_truncates() {
    assert_eq!(hex_fixed(0xabc, 6), "000abc");
    assert_eq!(hex_fixed(0x12345, 3), "345");
    assert_eq!(hex_fixed(255, 0), "");
}
