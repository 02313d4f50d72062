use window_inspector::rect::PrettyPrintRect;

#[test]
fn renders_corners_and_size() {
    let rect = PrettyPrintRect::new(10, 20, 110, 220);
    assert_eq!(rect.render(), "(10, 20), (110, 220) - 100x200");
}

#[test]
fn new_keeps_the_edges() {
    let rect = PrettyPrintRect::new(1, 2, 3, 4);
    assert_eq!(rect, PrettyPrintRect { left: 1, top: 2, right: 3, bottom: 4 });
}

#[test]
fn zeroed_rectangle() {
    let rect = PrettyPrintRect::zeroed();
    assert_eq!(rect, PrettyPrintRect { left: 0, top: 0, right: 0, bottom: 0 });
    assert_eq!(rect.render(), "(0, 0), (0, 0) - 0x0");
}

#[test]
fn width_and_height_are_differences() {
    let rect = PrettyPrintRect::new(-8, -8, 1928, 1048);
    assert_eq!(rect.width(), 1936);
    assert_eq!(rect.height(), 1056);
    assert_eq!(rect.render(), "(-8, -8), (1928, 1048) - 1936x1056");
}

#[test]
fn an_inverted_rectangle_has_negative_size() {
    let rect = PrettyPrintRect::new(100, 50, 40, 20);
    assert_eq!(rect.width(), -60);
    assert_eq!(rect.height(), -30);
    assert_eq!(rect.render(), "(100, 50), (40, 20) - -60x-30");
}

#[test]
fn the_widest_rectangle_does_not_overflow() {
    let rect = PrettyPrintRect::new(i32::MIN, i32::MIN, i32::MAX, i32::MAX);
    assert_eq!(rect.width(), 4294967295);
    assert_eq!(rect.height(), 4294967295);
    assert_eq!(
        rect.render(),
        "(-2147483648, -2147483648), (2147483647, 2147483647) - 4294967295x4294967295"
    );
    let inverted = PrettyPrintRect::new(i32::MAX, 0, i32::MIN, 0);
    assert_eq!(inverted.width(), -4294967295);
    assert_eq!(inverted.render(), "(2147483647, 0), (-2147483648, 0) - -4294967295x0");
}

#[test]
fn rendering_agrees_with_the_standard_formatter() {
    let edges = [0, 1, -1, 10, -10, 65535, -32768, 1920, 1080];
    for &l in &edges {
        for &t in &edges {
            for &r in &edges {
                for &b in &edges {
                    let expected = format!("({}, {}), ({}, {}) - {}x{}", l, t, r, b, r - l, b - t);
                    assert_eq!(PrettyPrintRect::new(l, t, r, b).render(), expected);
                }
            }
        }
    }
}
