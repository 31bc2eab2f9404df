//! In-place comparison sorts over slices of any totally ordered element type.

pub mod order;
pub mod bubble;
pub mod selection;
pub mod quick_sort;
pub mod heap_sort;

pub use bubble::bubble_sort;
pub use selection::selection_sort;
pub use quick_sort::quick_sort;
pub use heap_sort::heap_sort;
