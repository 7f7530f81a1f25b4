use waysnip::rect::{Rect, MIN_SIZE};

#[test]
fn normalized_folds_negative_dimensions() {
    let r = Rect::new(10, 10, -5, -7).normalized();
    assert_eq!(r.x, 5);
    assert_eq!(r.y, 3);
    assert_eq!(r.width, 5);
    assert_eq!(r.height, 7);
}

#[test]
fn normalized_keeps_positive_dimensions() {
    let r = Rect::new(3, 4, 5, 6).normalized();
    assert_eq!((r.x, r.y, r.width, r.height), (3, 4, 5, 6));
}

#[test]
fn normalized_is_idempotent() {
    let cases = [
        Rect::new(10, 10, -5, -7),
        Rect::new(0, 0, 0, 0),
        Rect::new(-3, 9, 12, -40),
        Rect::new(100, 100, 400, 300),
    ];
    for r in cases {
        let once = r.normalized();
        let twice = once.normalized();
        assert_eq!(once, twice);
        assert!(once.width >= 0);
        assert!(once.height >= 0);
    }
}

#[test]
fn contains_is_inclusive_on_both_bounds() {
    let r = Rect::new(0, 0, 10, 10);
    assert!(r.contains(0, 0));
    assert!(r.contains(10, 10));
    assert!(r.contains(5, 10));
    assert!(!r.contains(11, 10));
    assert!(!r.contains(-1, 5));
}

#[test]
fn contains_normalizes_first() {
    // Same area as (0, 0, 10, 10)
    let r = Rect::new(10, 10, -10, -10);
    assert!(r.contains(5, 5));
    assert!(r.contains(0, 0));
    assert!(!r.contains(11, 5));
}

#[test]
fn right_and_bottom_are_origin_plus_size() {
    let r = Rect::new(7, 9, 11, 13);
    assert_eq!(r.right(), 18);
    assert_eq!(r.bottom(), 22);
}

#[test]
fn constrain_keeps_a_fitting_rect() {
    let r = Rect::new(100, 100, 400, 300).constrain(1920, 1080);
    assert_eq!((r.x, r.y, r.width, r.height), (100, 100, 400, 300));
}

#[test]
fn constrain_enforces_minimum_size() {
    let r = Rect::new(50, 50, 4, 6).constrain(1920, 1080);
    assert_eq!((r.x, r.y, r.width, r.height), (50, 50, MIN_SIZE, MIN_SIZE));
}

#[test]
fn constrain_shifts_an_overrunning_rect_back() {
    let r = Rect::new(1800, 1000, 400, 300).constrain(1920, 1080);
    assert_eq!((r.x, r.y, r.width, r.height), (1520, 780, 400, 300));
}

#[test]
fn constrain_clamps_negative_origin() {
    let r = Rect::new(-50, -20, 100, 100).constrain(1920, 1080);
    assert_eq!((r.x, r.y, r.width, r.height), (0, 0, 100, 100));
}

#[test]
fn constrain_bounds_hold_on_any_screen_at_least_min_size() {
    let cases = [
        (Rect::new(-500, -500, 10000, 10000), 1920, 1080),
        (Rect::new(5, 5, -3, -3), 640, 480),
        (Rect::new(1919, 1079, 1, 1), 1920, 1080),
        (Rect::new(0, 0, 0, 0), 20, 20),
    ];
    for (r, w, h) in cases {
        let c = r.constrain(w, h);
        assert!(c.x >= 0 && c.y >= 0);
        assert!(c.x + c.width <= w);
        assert!(c.y + c.height <= h);
        assert!(c.width >= MIN_SIZE);
        assert!(c.height >= MIN_SIZE);
    }
}

#[test]
fn constrain_on_a_screen_smaller_than_min_size_clamps_to_screen() {
    let r = Rect::new(0, 0, 5, 5).constrain(10, 10);
    assert_eq!((r.x, r.y, r.width, r.height), (0, 0, 10, 10));
}

#[test]
fn constrain_is_idempotent() {
    let cases = [
        Rect::new(-500, -500, 10000, 10000),
        Rect::new(5, 5, -3, -3),
        Rect::new(100, 100, 400, 300),
    ];
    for r in cases {
        let once = r.constrain(1920, 1080);
        let twice = once.constrain(1920, 1080);
        assert_eq!(once, twice);
    }
}
