use nyxframe::nal::count_nal_types;

#[test]
fn counts_parameter_sets_and_idr_slices() {
    let stream = [
        0u8, 0, 0, 1, 0x67, 0xAA, // SPS
        0, 0, 0, 1, 0x68, 0xBB, // PPS
        0, 0, 1, 0x65, 0x88, 0x84, // IDR
        0, 0, 1, 0x41, 0x9A, // non-IDR slice
    ];
    assert_eq!(count_nal_types(&stream), (1, 1, 1));
}

#[test]
fn short_or_truncated_streams_count_nothing() {
    assert_eq!(count_nal_types(&[]), (0, 0, 0));
    assert_eq!(count_nal_types(&[0, 0, 1]), (0, 0, 0));
    // The header byte after a four-byte start code falls outside the data.
    assert_eq!(count_nal_types(&[0, 0, 0, 1]), (0, 0, 0));
    // A start code in the last three bytes is not looked at.
    assert_eq!(count_nal_types(&[0x11, 0x22, 0, 0, 1]), (0, 0, 0));
    // One that begins before them is.
    assert_eq!(count_nal_types(&[0x11, 0, 0, 1, 0x67]), (1, 0, 0));
}

#[test]
fn nal_type_uses_the_low_five_bits() {
    // 0x27 & 0x1f == 7, 0xE8 & 0x1f == 8, 0x25 & 0x1f == 5.
    let stream = [0u8, 0, 1, 0x27, 0, 0, 1, 0xE8, 0, 0, 1, 0x25, 0, 0xFF];
    assert_eq!(count_nal_types(&stream), (1, 1, 1));
}
