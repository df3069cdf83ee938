//! Type-level lifecycle states shared by the peripheral handles

use vstd::prelude::*;

verus! {

/// Marks a peripheral or channel that has not been activated
#[derive(Clone, Copy, Debug, PartialEq, Eq)]
pub struct Disabled;

/// Marks a peripheral or channel that has been activated
#[derive(Clone, Copy, Debug, PartialEq, Eq)]
pub struct Enabled(pub(crate) ());

} // verus!
