//! Convert a buffer of `A` values into a buffer of `B` values, element by
//! element and in index order, with the stride rules of an in-place recast
//! and a drop-safe conversion loop.
pub mod guard;
pub mod layout;
pub mod map;

pub use guard::{Progress, Slot};
pub use layout::{check_view, choose_strategy, owned_capacity, shrunk_capacity, MapError, Strategy};
pub use map::MapInPlace;
