//! Which stride relations allow a buffer to be recast in place, and the
//! capacity that the recast buffer has.
use vstd::prelude::*;

verus! {

/// How a buffer of `A` becomes a buffer of `B`, chosen from the two strides.
#[derive(PartialEq, Eq, Structural, Debug, Clone, Copy)]
pub enum Strategy {
    /// Both strides are equal: every value is overwritten at its own offset.
    SameStride,
    /// The destination stride is smaller and nonzero: the values are packed
    /// at the front of the same allocation.
    Shrink,
    /// The destination is zero-sized and the source is not: the results are
    /// appended to a fresh zero-length buffer.
    IntoZeroSized,
}

/// Why a recast is refused. Each is detected before any element is touched.
#[derive(PartialEq, Eq, Structural, Debug, Clone, Copy)]
pub enum MapError {
    /// The destination stride is larger than the source stride.
    StrideGrows,
    /// A borrowed view was asked to change its stride.
    StrideMismatch,
    /// `capacity * size_a` does not fit in a `usize`.
    CapacityOverflow,
    /// `capacity * size_a` is not a multiple of `size_b`.
    CapacityNotDivisible,
}

/// The strategy for strides `size_a` and `size_b`, or the refusal.
pub open spec fn strategy_spec(size_a: int, size_b: int) -> Result<Strategy, MapError> {
    if size_a == size_b {
        Ok(Strategy::SameStride)
    } else if size_a < size_b {
        Err(MapError::StrideGrows)
    } else if size_b == 0 {
        Ok(Strategy::IntoZeroSized)
    } else {
        Ok(Strategy::Shrink)
    }
}

/// Picks the strategy that turns `size_a`-byte values into `size_b`-byte ones.
pub fn choose_strategy(size_a: usize, size_b: usize) -> (r: Result<Strategy, MapError>)
    ensures
        r == strategy_spec(size_a as int, size_b as int),
{
    if size_a == size_b {
        Ok(Strategy::SameStride)
    } else if size_a < size_b {
        Err(MapError::StrideGrows)
    } else if size_b == 0 {
        Ok(Strategy::IntoZeroSized)
    } else {
        Ok(Strategy::Shrink)
    }
}

/// The capacity, counted in `size_b`-byte values, of an allocation that held
/// `capacity` values of `size_a` bytes, or why it has none.
pub open spec fn shrunk_capacity_spec(capacity: int, size_a: int, size_b: int) -> Result<usize, MapError>
    recommends
        size_b > 0,
{
    if capacity * size_a > usize::MAX {
        Err(MapError::CapacityOverflow)
    } else if (capacity * size_a) % size_b != 0 {
        Err(MapError::CapacityNotDivisible)
    } else {
        Ok(((capacity * size_a) / size_b) as usize)
    }
}

/// Recounts an allocation of `capacity` values of `size_a` bytes as values of
/// `size_b` bytes. The byte size must be an exact multiple of `size_b`.
pub fn shrunk_capacity(capacity: usize, size_a: usize, size_b: usize) -> (r: Result<usize, MapError>)
    requires
        size_b > 0,
    ensures
        r == shrunk_capacity_spec(capacity as int, size_a as int, size_b as int),
{
    match capacity.checked_mul(size_a) {
        None => Err(MapError::CapacityOverflow),
        Some(bytes) => {
            if bytes % size_b != 0 {
                Err(MapError::CapacityNotDivisible)
            } else {
                Ok(bytes / size_b)
            }
        },
    }
}

/// The capacity of an owned buffer of `capacity` values of `size_a` bytes
/// once recast in place as values of `size_b` bytes, or why it cannot be.
/// A zero-sized destination is not recast in place, so it has no capacity
/// here: `None`.
pub open spec fn owned_capacity_spec(size_a: int, size_b: int, capacity: int) -> Result<Option<usize>, MapError> {
    match strategy_spec(size_a, size_b) {
        Err(e) => Err(e),
        Ok(Strategy::SameStride) => Ok(Some(capacity as usize)),
        Ok(Strategy::IntoZeroSized) => Ok(None),
        Ok(Strategy::Shrink) => match shrunk_capacity_spec(capacity, size_a, size_b) {
            Err(e) => Err(e),
            Ok(c) => Ok(Some(c)),
        },
    }
}

/// Plans the recast of an owned buffer: its capacity afterwards, or the
/// precondition that it breaks.
pub fn owned_capacity(size_a: usize, size_b: usize, capacity: usize) -> (r: Result<Option<usize>, MapError>)
    ensures
        r == owned_capacity_spec(size_a as int, size_b as int, capacity as int),
{
    match choose_strategy(size_a, size_b) {
        Err(e) => Err(e),
        Ok(Strategy::SameStride) => Ok(Some(capacity)),
        Ok(Strategy::IntoZeroSized) => Ok(None),
        Ok(Strategy::Shrink) => match shrunk_capacity(capacity, size_a, size_b) {
            Err(e) => Err(e),
            Ok(c) => Ok(Some(c)),
        },
    }
}

/// Checks that a borrowed view of `size_a`-byte values can be retyped as a
/// view of `size_b`-byte values: only an unchanged stride can.
pub fn check_view(size_a: usize, size_b: usize) -> (r: Result<(), MapError>)
    ensures
        size_a == size_b <==> r is Ok,
        size_a != size_b <==> r == Err::<(), MapError>(MapError::StrideMismatch),
{
    if size_a == size_b {
        Ok(())
    } else {
        Err(MapError::StrideMismatch)
    }
}

/// Shrinking a stride keeps the allocation and recounts its capacity as
/// `capacity * size_a / size_b`, and only where that division is exact and
/// the byte count fits in a `usize`; otherwise the recast is refused.
pub proof fn lemma_shrink_capacity(size_a: usize, size_b: usize, capacity: usize)
    requires
        size_a > size_b > 0,
    ensures
        capacity * size_a <= usize::MAX && (capacity * size_a) % (size_b as int) == 0
            ==> owned_capacity_spec(size_a as int, size_b as int, capacity as int)
            == Ok::<Option<usize>, MapError>(Some(((capacity * size_a) / (size_b as int)) as usize)),
        capacity * size_a > usize::MAX ==> owned_capacity_spec(size_a as int, size_b as int, capacity as int)
            == Err::<Option<usize>, MapError>(MapError::CapacityOverflow),
        capacity * size_a <= usize::MAX && (capacity * size_a) % (size_b as int) != 0
            ==> owned_capacity_spec(size_a as int, size_b as int, capacity as int)
            == Err::<Option<usize>, MapError>(MapError::CapacityNotDivisible),
{
}

/// A stride never grows: an owned buffer and a borrowed view are both
/// refused before any value is touched.
pub proof fn lemma_growing_stride_refused(size_a: usize, size_b: usize, capacity: usize)
    requires
        size_a < size_b,
    ensures
        strategy_spec(size_a as int, size_b as int) == Err::<Strategy, MapError>(MapError::StrideGrows),
        owned_capacity_spec(size_a as int, size_b as int, capacity as int)
            == Err::<Option<usize>, MapError>(MapError::StrideGrows),
{
}

/// An unchanged stride keeps the capacity as it is.
pub proof fn lemma_same_stride_keeps_capacity(size: usize, capacity: usize)
    ensures
        owned_capacity_spec(size as int, size as int, capacity as int)
            == Ok::<Option<usize>, MapError>(Some(capacity)),
{
}

} // verus!
