//! Common hooks for the configuration of a binding generation.

use crate::backend::Builder;
use vstd::prelude::*;

verus! {

/// Reflects the input: returns the configuration as it is.
///
/// This is the hook that a fresh build configuration starts with.
pub fn reflect(builder: Builder) -> (same: Builder)
    ensures
        same == builder,
{
    builder
}

} // verus!
