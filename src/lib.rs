//! A container that keeps one value inline, as a plain field with no heap
//! allocation, and admits it only where its layout fits that of a chosen
//! buffer type.

pub mod array_box;
pub mod buffer;
pub mod capacity;

pub use array_box::{construction, ArrayBox};
pub use buffer::{AnyOf2, BufFor};
pub use capacity::{Capacity, ConstructError};
