//! Keeps the clock sources closed to other crates

use vstd::prelude::*;

verus! {

/// Restricts [`super::clock::ClockSource`] to the clock sources of this crate
pub trait Sealed {}

} // verus!
