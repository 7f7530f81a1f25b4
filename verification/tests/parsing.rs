use waysnip::rect::{collect_regions, Rect};

#[test]
fn parses_two_corner_pairs() {
    let r = Rect::parse("10,10 110,110").unwrap();
    assert_eq!((r.x, r.y, r.width, r.height), (10, 10, 100, 100));
}

#[test]
fn parse_example_from_region_format() {
    let r = Rect::parse("100,200 900,800").unwrap();
    assert_eq!((r.x, r.y, r.width, r.height), (100, 200, 800, 600));
}

#[test]
fn malformed_line_yields_nothing() {
    assert!(Rect::parse("bad").is_none());
    assert!(Rect::parse("").is_none());
    assert!(Rect::parse("10,10").is_none());
    assert!(Rect::parse("10,10 20").is_none());
    assert!(Rect::parse("10 10 20 20").is_none());
    assert!(Rect::parse("10,10,20,20").is_none());
    assert!(Rect::parse("a,b c,d").is_none());
    assert!(Rect::parse("1,,2 3,4").is_none());
    assert!(Rect::parse("10,10 110,110 extra").is_none());
}

#[test]
fn non_positive_area_is_rejected() {
    assert!(Rect::parse("10,10 10,110").is_none());
    assert!(Rect::parse("10,10 110,10").is_none());
    assert!(Rect::parse("110,110 10,10").is_none());
}

#[test]
fn negative_corners_are_accepted() {
    let r = Rect::parse("-5,-5 10,10").unwrap();
    assert_eq!((r.x, r.y, r.width, r.height), (-5, -5, 15, 15));
}

#[test]
fn surrounding_whitespace_is_ignored() {
    let r = Rect::parse("  10,10 \t 110,110  ").unwrap();
    assert_eq!((r.x, r.y, r.width, r.height), (10, 10, 100, 100));
}

#[test]
fn unicode_whitespace_separates_and_trims() {
    // No-break space as the token separator
    let r = Rect::parse("10,10\u{00A0}110,110").unwrap();
    assert_eq!((r.x, r.y, r.width, r.height), (10, 10, 100, 100));
    // Ideographic space and em space around the tokens
    let r = Rect::parse("\u{3000}10,10 110,110\u{2003}").unwrap();
    assert_eq!((r.x, r.y, r.width, r.height), (10, 10, 100, 100));
}

#[test]
fn oversized_numbers_are_rejected() {
    assert!(Rect::parse("99999999999999999999,0 1,1").is_none());
    assert!(Rect::parse("0,0 99999999999999999999,1").is_none());
}

#[test]
fn one_good_line_among_bad_ones() {
    let lines = vec![String::from("10,10 110,110"), String::from("bad")];
    let regions = collect_regions(&lines);
    assert_eq!(regions.len(), 1);
    let r = regions[0];
    assert_eq!((r.x, r.y, r.width, r.height), (10, 10, 100, 100));
}

#[test]
fn collect_keeps_input_order_and_skips_silently() {
    let lines = vec![
        String::from(""),
        String::from("0,0 20,20"),
        String::from("nope"),
        String::from("5,5 10,30"),
        String::from("9,9 9,9"),
    ];
    let regions = collect_regions(&lines);
    assert_eq!(regions.len(), 2);
    assert_eq!(
        (regions[0].x, regions[0].y, regions[0].width, regions[0].height),
        (0, 0, 20, 20)
    );
    assert_eq!(
        (regions[1].x, regions[1].y, regions[1].width, regions[1].height),
        (5, 5, 5, 25)
    );
}
