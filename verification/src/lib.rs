//! A small real-time rendering demo library: frame-time statistics,
//! modifier-key tracking, and a delayed asynchronous screenshot pipeline.

pub mod image_data;
pub mod input;
pub mod loop_ctl;
pub mod tasks;
pub mod timer;

use vstd::prelude::*;

verus! {

/// A fresh value of any type with a `Default` implementation.
pub fn default<T: Default>() -> T {
    Default::default()
}

} // verus!
