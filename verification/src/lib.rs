//! Lock-free reload support for subscriber layers and filters.
//!
//! [`ArcSwapLayer`] wraps a layer or per-layer filter in an atomically
//! swappable cell, so that the span/event fast path loads the current value
//! without taking any lock, while the rare reload path is serialized through
//! an internal mutex. [`ArcSwapHandle`] is a weak-referencing accessor used
//! to swap in a new value (`reload`) or to edit the current one (`modify`);
//! its operations fail with [`Error`] once the layer has been dropped or the
//! internal update lock has been poisoned by a panicking writer.

mod error;
mod reload;
pub mod semantics;
mod shared;

pub use error::Error;
pub use error::ErrorKind;
pub use reload::ArcSwapHandle;
pub use reload::ArcSwapLayer;
