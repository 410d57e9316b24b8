use tensor_bridge::axis::resolve_axis;
use tensor_bridge::axis::resolve_position;
use tensor_bridge::error::TensorError;

#[test]
fn non_negative_axis_in_range_passes_through() {
    assert_eq!(resolve_axis(4, 0), Ok(0));
    assert_eq!(resolve_axis(4, 3), Ok(3));
}

#[test]
fn negative_axis_counts_from_the_end() {
    assert_eq!(resolve_axis(4, -1), Ok(3));
    assert_eq!(resolve_axis(4, -4), Ok(0));
    assert_eq!(resolve_axis(2, -1), Ok(1));
}

#[test]
fn negative_axis_agrees_with_its_shift() {
    for rank in 1usize..6 {
        for x in -(rank as i64)..0 {
            let shifted = x + rank as i64;
            assert_eq!(resolve_axis(rank, x), resolve_axis(rank, shifted));
        }
    }
}

#[test]
fn axis_one_past_the_end_is_rejected_not_clamped() {
    assert_eq!(
        resolve_axis(4, 4),
        Err(TensorError::OutOfRange { requested: 4, bound: 4 })
    );
}

#[test]
fn axis_below_the_window_is_rejected() {
    assert_eq!(
        resolve_axis(2, -3),
        Err(TensorError::OutOfRange { requested: -3, bound: 2 })
    );
}

#[test]
fn rank_zero_rejects_every_request() {
    for x in [-2i64, -1, 0, 1, 2] {
        assert_eq!(
            resolve_axis(0, x),
            Err(TensorError::OutOfRange { requested: x, bound: 0 })
        );
    }
}

#[test]
fn position_uses_the_same_window_as_axis() {
    assert_eq!(resolve_position(5, -5), Ok(0));
    assert_eq!(resolve_position(5, 4), Ok(4));
    assert_eq!(
        resolve_position(5, 5),
        Err(TensorError::OutOfRange { requested: 5, bound: 5 })
    );
    assert_eq!(
        resolve_position(0, 0),
        Err(TensorError::OutOfRange { requested: 0, bound: 0 })
    );
}

#[test]
fn extreme_requests_are_rejected_without_overflow() {
    assert!(matches!(
        resolve_axis(3, i64::MIN),
        Err(TensorError::OutOfRange { .. })
    ));
    assert!(matches!(
        resolve_axis(3, i64::MAX),
        Err(TensorError::OutOfRange { .. })
    ));
}
