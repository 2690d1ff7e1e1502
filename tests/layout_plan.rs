use map_in_place::{check_view, choose_strategy, owned_capacity, shrunk_capacity, MapError, Strategy};

#[test]
fn strategy_for_each_stride_relation() {
    assert_eq!(choose_strategy(4, 4), Ok(Strategy::SameStride));
    assert_eq!(choose_strategy(0, 0), Ok(Strategy::SameStride));
    assert_eq!(choose_strategy(4, 2), Ok(Strategy::Shrink));
    assert_eq!(choose_strategy(4, 0), Ok(Strategy::IntoZeroSized));
    assert_eq!(choose_strategy(2, 4), Err(MapError::StrideGrows));
    assert_eq!(choose_strategy(0, 8), Err(MapError::StrideGrows));
}

#[test]
fn shrunk_capacity_is_exact_quotient() {
    assert_eq!(shrunk_capacity(4, 4, 2), Ok(8));
    assert_eq!(shrunk_capacity(6, 12, 8), Ok(9));
    assert_eq!(shrunk_capacity(0, 16, 3), Ok(0));
}

#[test]
fn shrunk_capacity_refuses_inexact_division() {
    assert_eq!(shrunk_capacity(3, 4, 8), Err(MapError::CapacityNotDivisible));
    assert_eq!(shrunk_capacity(5, 3, 2), Err(MapError::CapacityNotDivisible));
}

#[test]
fn shrunk_capacity_refuses_overflow() {
    assert_eq!(shrunk_capacity(usize::MAX, 2, 1), Err(MapError::CapacityOverflow));
}

#[test]
fn owned_capacity_per_strategy() {
    assert_eq!(owned_capacity(8, 8, 5), Ok(Some(5)));
    assert_eq!(owned_capacity(0, 0, usize::MAX), Ok(Some(usize::MAX)));
    assert_eq!(owned_capacity(8, 4, 5), Ok(Some(10)));
    assert_eq!(owned_capacity(8, 0, 5), Ok(None));
    assert_eq!(owned_capacity(4, 8, 5), Err(MapError::StrideGrows));
    assert_eq!(owned_capacity(12, 8, 5), Err(MapError::CapacityNotDivisible));
    assert_eq!(owned_capacity(8, 4, usize::MAX), Err(MapError::CapacityOverflow));
}

#[test]
fn view_stride_must_not_change() {
    assert_eq!(check_view(4, 4), Ok(()));
    assert_eq!(check_view(0, 0), Ok(()));
    assert_eq!(check_view(4, 2), Err(MapError::StrideMismatch));
    assert_eq!(check_view(2, 4), Err(MapError::StrideMismatch));
}
