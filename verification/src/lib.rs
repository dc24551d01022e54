//! An inline cache for property accesses, with its behaviour stated and proved.

pub mod cache;
pub mod laws;
pub mod shape;

pub use cache::{CacheState, InlineCache};
pub use shape::{JsObject, Shape, Slot, WeakShape};
