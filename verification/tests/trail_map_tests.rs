use slime_sim::trail_map::{bytes_from_trail_map_size, TrailMap};

#[test]
fn new_map_is_zero() {
    let m = TrailMap::new(64, 64);
    assert_eq!(m.width, 64);
    assert_eq!(m.height, 64);
    assert_eq!(m.words.len(), 64 * 64 * 2);
    for y in 0..64 {
        for x in 0..64 {
            for c in 0..4 {
                assert_eq!(m.get_channel(x, y, c), 0);
            }
        }
    }
}

#[test]
fn set_and_get_channels() {
    let mut m = TrailMap::new(8, 8);
    m.set_channel(3, 5, 2, 0x7FFF);
    m.set_channel(3, 5, 3, 0x1234);
    assert_eq!(m.get_channel(3, 5, 2), 0x7FFF);
    assert_eq!(m.get_channel(3, 5, 3), 0x1234);
    assert_eq!(m.get_channel(3, 5, 0), 0);
    assert_eq!(m.get_channel(2, 5, 2), 0);
    m.reset();
    assert_eq!(m.get_channel(3, 5, 2), 0);
}

#[test]
fn empty_map_bytes_are_aligned_zeroes() {
    let bytes = bytes_from_trail_map_size(64, 64);
    assert_eq!(bytes.len(), 64 * 64 * 2 * 4);
    assert!(bytes.iter().all(|b| *b == 0));
    // A size that is not a multiple of four pixels is padded up.
    let bytes = bytes_from_trail_map_size(3, 3);
    assert_eq!(bytes.len(), 12 * 2 * 4);
}
