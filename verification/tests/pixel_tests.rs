use slime_sim::pixel::{milli_from_raw, raw_from_milli, PixelView, PIXEL_MAX};

#[test]
fn test_set() {
    let a = 0x12345678;
    let b = 0x98765432;
    let c = 0x12345678;
    let d = 0x98765432;
    let mut pixel = PixelView::new([a, b, c, d]);
    pixel.set(0, 0x2BCD);
    pixel.set(1, 0x4DEF);
    pixel.set(2, 0xFEDC);
    pixel.set(3, 0xBA87);
    pixel.set(4, 0x2BCD);
    pixel.set(5, 0x4DEF);
    pixel.set(6, 0xFEDC);
    pixel.set(7, 0xBA87);
    assert_eq!(pixel.get(0), 0x2BCD);
    assert_eq!(pixel.get(1), 0x4DEF);
    assert_eq!(pixel.get(2), 0xFEDC);
    assert_eq!(pixel.get(3), 0xBA87);
    assert_eq!(pixel.get(4), 0x2BCD);
    assert_eq!(pixel.get(5), 0x4DEF);
    assert_eq!(pixel.get(6), 0xFEDC);
    assert_eq!(pixel.get(7), 0xBA87);
}

#[test]
fn set_preserves_sibling_channels() {
    let mut pixel = PixelView::new([0xAAAA5555, 0x12345678, 0, 0xFFFFFFFF]);
    pixel.set(0, 0x1111);
    assert_eq!(pixel.get(0), 0x1111);
    assert_eq!(pixel.get(1), 0xAAAA);
    assert_eq!(pixel.get(2), 0x5678);
    assert_eq!(pixel.get(3), 0x1234);
    assert_eq!(pixel.words[1], 0x12345678);
    assert_eq!(pixel.words[3], 0xFFFFFFFF);
}

#[test]
fn milli_round_trip_is_exact() {
    for m in 0..=1000u32 {
        let raw = raw_from_milli(m);
        let back = milli_from_raw(raw);
        assert_eq!(back, m, "m={} raw={}", m, raw);
    }
}

#[test]
fn fixed_point_encoding_tolerance() {
    for m in 0..=1000u32 {
        let raw = raw_from_milli(m);
        let encoded = raw as f32 / PIXEL_MAX as f32;
        let fraction = m as f32 / 1000.0;
        assert!((encoded - fraction).abs() <= 1.0 / (PIXEL_MAX as f32 - 1.0));
    }
    assert_eq!(raw_from_milli(1000), PIXEL_MAX);
    assert_eq!(raw_from_milli(500), 16384);
    assert_eq!(raw_from_milli(0), 0);
}
