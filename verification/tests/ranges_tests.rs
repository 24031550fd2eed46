use snake_3d::degrees::normalize_degrees;
use snake_3d::ranges::{normalize_by_circular_range, project_to_range, Span};

#[test]
fn ranges_basic() {
    assert_eq!(normalize_by_circular_range(0, 0, 10), 0);
    assert_eq!(normalize_by_circular_range(5, 0, 10), 5);
    assert_eq!(normalize_by_circular_range(10, 0, 10), 0);
    assert_eq!(normalize_by_circular_range(11, 0, 10), 1);
    assert_eq!(normalize_by_circular_range(-1, 0, 10), 9);
}

#[test]
fn normalize_stays_in_range() {
    for v in [-1000i64, -361, -360, -180, -1, 0, 1, 179, 180, 359, 360, 720, 12345] {
        let r = normalize_by_circular_range(v, -7, 13);
        assert!(-7 <= r && r < 13);
        // reapplying changes nothing
        assert_eq!(normalize_by_circular_range(r, -7, 13), r);
        // the result differs from the input by whole widths
        assert_eq!((v - r) % 20, 0);
    }
}

#[test]
fn project_scaled_basic() {
    // the midpoint of one range lands on the midpoint of the other
    assert_eq!(project_to_range(50, Span(0, 100), Span(100, 150)), 125);
    // endpoints land on endpoints
    assert_eq!(project_to_range(0, Span(0, 100), Span(100, 150)), 100);
    assert_eq!(project_to_range(100, Span(0, 100), Span(100, 150)), 150);
}

#[test]
fn degrees_normalization() {
    // inputs in hundredths of a degree: -360, 0, 180, -180 and 540 degrees
    assert_eq!(normalize_degrees(-36000), 0);
    assert_eq!(normalize_degrees(0), 0);
    assert_eq!(normalize_degrees(18000), 18000);
    assert_eq!(normalize_degrees(-18000), 18000);
    assert_eq!(normalize_degrees(54000), 18000);
    for v in [-72000i64, -36001, -35999, -18001, -17999, -1, 1, 17999, 18001, 100000] {
        let r = normalize_degrees(v);
        assert!(-18000 < r && r <= 18000);
        assert_eq!((v - r) % 36000, 0);
    }
}
