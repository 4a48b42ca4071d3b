use signed_index::{from_end, resolve};

#[test]
fn resolve_without_bounds_is_everything() {
    assert_eq!(resolve(None, None, 0), (0, 0));
    assert_eq!(resolve(None, None, 5), (0, 5));
    assert_eq!(resolve(None, None, usize::MAX), (0, usize::MAX));
}

#[test]
fn resolve_negative_start_counts_from_end() {
    assert_eq!(resolve(Some(-1), None, 5), (4, 5));
    assert_eq!(resolve(Some(-10), None, 5), (0, 5));
    assert_eq!(resolve(Some(-5), None, 5), (0, 5));
}

#[test]
fn resolve_negative_end_counts_from_end() {
    assert_eq!(resolve(None, Some(-1), 5), (0, 4));
    assert_eq!(resolve(Some(1), Some(-2), 5), (1, 3));
    assert_eq!(resolve(None, Some(-9), 5), (0, 0));
}

#[test]
fn resolve_clamps_bounds_past_the_end() {
    assert_eq!(resolve(Some(2), Some(100), 5), (2, 5));
    assert_eq!(resolve(Some(7), None, 5), (5, 5));
    assert_eq!(resolve(Some(7), Some(9), 5), (5, 5));
}

#[test]
fn resolve_end_before_start_is_empty_at_start() {
    assert_eq!(resolve(Some(3), Some(1), 5), (3, 3));
    assert_eq!(resolve(Some(-1), Some(-3), 5), (4, 4));
}

#[test]
fn from_end_positions() {
    assert_eq!(from_end(2, 5), 2);
    assert_eq!(from_end(9, 5), 9);
    assert_eq!(from_end(-1, 5), 4);
    assert_eq!(from_end(-5, 5), 0);
    assert_eq!(from_end(-6, 5), 0);
    assert_eq!(from_end(-1, 0), 0);
    assert_eq!(from_end(isize::MIN, usize::MAX), usize::MAX - (isize::MAX as usize) - 1);
    assert_eq!(from_end(isize::MIN, 3), 0);
}
