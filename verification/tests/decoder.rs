// Tests of the raw-report decoder: big-endian field extraction at the
// documented offsets and the forced bits of the tablet-button mask.

use tablet_driver::RawDataReader;

#[test]
fn new_reader_is_64_zero_bytes() {
    let r = RawDataReader::new();
    assert_eq!(r.data.len(), 64);
    assert!(r.data.iter().all(|&b| b == 0));
}

#[test]
fn u16_from_2_u8_decodes_every_combination() {
    let r = RawDataReader::new();
    for high in 0..=255u8 {
        for low in 0..=255u8 {
            let expected = ((high as u16) << 8) | (low as u16);
            assert_eq!(r.u16_from_2_u8(high, low), expected);
        }
    }
}

#[test]
fn fields_round_trip_through_documented_offsets() {
    let mut r = RawDataReader::new();
    r.data[1] = 0x12;
    r.data[2] = 0x34;
    r.data[3] = 0xab;
    r.data[4] = 0xcd;
    r.data[5] = 0x01;
    r.data[6] = 0xfe;
    r.data[9] = 4;
    r.data[12] = 0x00;
    r.data[11] = 0x21;
    assert_eq!(r.x_axis(), 0x1234);
    assert_eq!(r.y_axis(), 0xabcd);
    assert_eq!(r.pressure(), 0x01fe);
    assert_eq!(r.pen_buttons(), 4);
    assert_eq!(r.tablet_buttons_as_binary_flags(), 0x0021 | 0xcc00);
}

#[test]
fn tablet_buttons_always_have_unused_bits_forced() {
    let samples: [(u8, u8); 5] = [(0x00, 0x00), (0xff, 0xff), (0x12, 0x34), (0x00, 0xff), (0x33, 0x00)];
    for (high, low) in samples {
        let mut r = RawDataReader::new();
        r.data[12] = high;
        r.data[11] = low;
        let flags = r.tablet_buttons_as_binary_flags();
        assert_eq!(flags & 0xcc00, 0xcc00);
        assert_eq!(flags, (((high as u16) << 8) | (low as u16)) | 0xcc00);
    }
}
