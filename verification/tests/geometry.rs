use desktop_pet::geometry::bubble_height_px;
use desktop_pet::geometry::compute_secondary_placement;
use desktop_pet::geometry::message_char_count;

#[test]
fn test_example_end_to_end() {
    // Primary window at physical (800, 600), size 400x300, scale factor 2.0,
    // message of 45 characters: logical position (400, 300), logical width
    // 200; 3 estimated lines; height 3*24+60 = 132; bubble x = 400+100-160 =
    // 340, y = 300-132 = 168 (all in thousandths below).
    let message: Vec<u8> = vec![b'x'; 45];
    assert_eq!(message_char_count(&message), 45);
    let props = compute_secondary_placement(800, 600, 400, 300, 2000, &message);
    assert_eq!(props.width_milli, 320000);
    assert_eq!(props.height_milli, 132000);
    assert_eq!(props.x_milli, 340000);
    assert_eq!(props.y_milli, 168000);
}

#[test]
fn test_height_formula_exact() {
    // 0 chars: floor of one line, 24+60 = 84.
    assert_eq!(bubble_height_px(0), 84);
    assert_eq!(bubble_height_px(1), 84);
    assert_eq!(bubble_height_px(15), 84);
    // 16 chars wrap to two lines: 2*24+60 = 108.
    assert_eq!(bubble_height_px(16), 108);
    assert_eq!(bubble_height_px(45), 132);
    // 106 chars need eight lines, 8*24+60 = 252, clamped to 250.
    assert_eq!(bubble_height_px(106), 250);
    assert_eq!(bubble_height_px(1000), 250);
}

#[test]
fn test_height_monotone_and_clamped() {
    let lengths: [usize; 12] = [0, 1, 7, 14, 15, 16, 45, 90, 105, 106, 119, 100000];
    let mut prev: u64 = 0;
    for len in lengths {
        let h = bubble_height_px(len);
        assert!(h >= prev);
        assert!((80..=250).contains(&h));
        prev = h;
    }
}

#[test]
fn test_placement_deterministic() {
    let message = b"does the same input give the same rect?".to_vec();
    let a = compute_secondary_placement(-320, 740, 512, 384, 1250, &message);
    let b = compute_secondary_placement(-320, 740, 512, 384, 1250, &message);
    assert_eq!(a, b);
}

#[test]
fn test_negative_position_and_fractional_scale() {
    // Physical x = -800 at scale 1.25: logical x = -640 exactly.
    let message = b"hi".to_vec();
    let props = compute_secondary_placement(-800, 500, 500, 100, 1250, &message);
    assert_eq!(props.x_milli, -640000 + 200000 - 160000);
    // Height for 2 chars is one line: 84 logical pixels.
    assert_eq!(props.height_milli, 84000);
    assert_eq!(props.y_milli, 400000 - 84000);
}

#[test]
fn test_char_count_multibyte() {
    let message = "h\u{e9}llo \u{4f60}\u{597d}".as_bytes().to_vec();
    assert_eq!(message_char_count(&message), 8);
    assert_eq!(message_char_count(&Vec::new()), 0);
}
