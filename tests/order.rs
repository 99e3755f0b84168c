use spacing::order::lexicographic_cmp;
use std::cmp::Ordering;

fn cmp(a: f32, b: f32) -> Option<Ordering> {
    a.partial_cmp(&b)
}

#[test]
fn smaller_points_compare_less() {
    assert_eq!(lexicographic_cmp(&[cmp(1.0, 2.0)]), Some(Ordering::Less));
    assert_eq!(lexicographic_cmp(&[cmp(2.0, 1.0)]), Some(Ordering::Greater));
}

#[test]
fn no_fields_compare_equal() {
    assert_eq!(lexicographic_cmp(&[]), Some(Ordering::Equal));
}

#[test]
fn all_equal_fields_compare_equal() {
    let parts = [cmp(1.0, 1.0), cmp(2.0, 2.0), cmp(0.0, -0.0), cmp(4.0, 4.0)];
    assert_eq!(lexicographic_cmp(&parts), Some(Ordering::Equal));
}

#[test]
fn first_field_decides() {
    assert_eq!(
        lexicographic_cmp(&[cmp(1.0, 2.0), cmp(9.0, 0.0)]),
        Some(Ordering::Less)
    );
}

#[test]
fn later_field_decides_after_equal_ones() {
    let parts = [cmp(1.0, 1.0), cmp(2.0, 2.0), cmp(5.0, 3.0), cmp(0.0, 7.0)];
    assert_eq!(lexicographic_cmp(&parts), Some(Ordering::Greater));
}

#[test]
fn nan_in_first_field_is_incomparable() {
    let parts = [cmp(f32::NAN, 1.0), cmp(1.0, 2.0)];
    assert_eq!(lexicographic_cmp(&parts), None);
}

#[test]
fn nan_after_deciding_field_is_ignored() {
    let parts = [cmp(1.0, 2.0), cmp(f32::NAN, f32::NAN)];
    assert_eq!(lexicographic_cmp(&parts), Some(Ordering::Less));
}

#[test]
fn nan_after_equal_field_is_incomparable() {
    let parts = [cmp(3.0, 3.0), cmp(f32::NAN, 1.0)];
    assert_eq!(lexicographic_cmp(&parts), None);
}

#[test]
fn nan_size_orders_nothing() {
    let r = lexicographic_cmp(&[cmp(f32::NAN, f32::NAN)]);
    assert_eq!(r, None);
    assert!(r != Some(Ordering::Less));
    assert!(r != Some(Ordering::Equal));
    assert!(r != Some(Ordering::Greater));
}
