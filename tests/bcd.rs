use driver_rust::bcd::{bcd16_to_u32, u32_to_bcd16, u64_to_bcd16};

#[test]
fn bcd_round_trip_all_four_digit_values() {
    for v in 0..=9999u32 {
        assert_eq!(bcd16_to_u32(u32_to_bcd16(v)), v);
    }
}

#[test]
fn bcd_encodes_digits_into_nibbles() {
    assert_eq!(u32_to_bcd16(0), 0);
    assert_eq!(u32_to_bcd16(7), 0x7);
    assert_eq!(u32_to_bcd16(1200), 0x1200);
    assert_eq!(u32_to_bcd16(7000), 0x7000);
    assert_eq!(u32_to_bcd16(9999), 0x9999);
    assert_eq!(u32_to_bcd16(99_999_999), 0x9999_9999);
}

#[test]
fn bcd_wide_encoder_agrees() {
    assert_eq!(u64_to_bcd16(0), 0);
    assert_eq!(u64_to_bcd16(1200), 0x1200);
    assert_eq!(u64_to_bcd16(9_999_999_999_999_999), 0x9999_9999_9999_9999);
    assert_eq!(u64_to_bcd16(1_234_567_890_123), 0x1_2345_6789_0123);
}

#[test]
fn bcd_decodes_nibbles() {
    assert_eq!(bcd16_to_u32(0x1200), 1200);
    assert_eq!(bcd16_to_u32(0x7777), 7777);
    assert_eq!(bcd16_to_u32(0), 0);
    assert_eq!(bcd16_to_u32(0xF), 15);
}
