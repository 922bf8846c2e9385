//! The items of the Morse code library of the demonstration, as the binding
//! generator renders them, and what wraps them for safe use.

use vstd::prelude::*;

pub mod wrapper;

verus! {

/// The return value of a function of the Morse code library: zero where the
/// function failed, and another value where it succeeded.
#[allow(non_camel_case_types)]
#[derive(Clone, Copy, Debug, PartialEq, Eq, Structural)]
pub struct cw_return_values(pub u32);

} // verus!
