use peek_popup::scroll::normalize;

#[test]
fn clamps_and_rederives_canonical_units() {
    // half=3 at half-page size 10 is 30 lines, clamped to 17, then split
    // again: one half page, one quarter page, two residual lines.
    let s = normalize(3, 0, 0, 10, 5, 17);
    assert_eq!(s.absolute, 17);
    assert_eq!(s.half_pages, 1);
    assert_eq!(s.quarter_pages, 1);
    assert_eq!(s.residual, 2);
}

#[test]
fn negative_raw_units_clamp_to_zero() {
    let s = normalize(-5, 0, 3, 10, 5, 100);
    assert_eq!(s.absolute, 0);
    assert_eq!(s.half_pages, 0);
    assert_eq!(s.quarter_pages, 0);
    assert_eq!(s.residual, 0);
}

#[test]
fn absolute_never_exceeds_max_scroll() {
    for &(h, q, r) in &[(100isize, 100isize, 1000usize), (-3, 7, 0), (0, 0, 0), (50, -2, 3)] {
        let s = normalize(h, q, r, 12, 6, 37);
        assert!(s.absolute <= 37);
    }
}

#[test]
fn normalize_is_idempotent() {
    for &(h, q, r) in &[(3isize, 2isize, 7usize), (-4, 9, 1), (0, 0, 0), (7, -1, 23)] {
        let once = normalize(h, q, r, 10, 5, 64);
        let twice = normalize(
            once.half_pages,
            once.quarter_pages,
            once.residual,
            10,
            5,
            64,
        );
        assert_eq!(once, twice);
    }
}

#[test]
fn zero_geometry_skips_rederivation() {
    let s = normalize(2, 3, 4, 0, 5, 50);
    assert_eq!((s.half_pages, s.quarter_pages, s.residual, s.absolute), (2, 3, 4, 0));
    let s = normalize(2, 3, 4, 10, 0, 50);
    assert_eq!((s.half_pages, s.quarter_pages, s.residual, s.absolute), (2, 3, 4, 0));
}

#[test]
fn in_range_state_keeps_its_absolute() {
    // 1 half page (5 lines) + 1 quarter page (2 lines) + 1 line = 8 lines.
    let s = normalize(1, 1, 1, 5, 2, 100);
    assert_eq!(s.absolute, 8);
    assert_eq!(s.half_pages, 1);
    assert_eq!(s.quarter_pages, 1);
    assert_eq!(s.residual, 1);
}
