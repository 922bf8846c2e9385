//! The wrappers that make the imported items safe to use.

use crate::imported::cw_return_values;
use vstd::prelude::*;
use vstd::std_specs::convert::FromSpecImpl;

verus! {

/// The error of a function of the Morse code library.  It says no more than
/// that the function failed.
#[derive(Clone, Copy, Debug, PartialEq, Eq, Structural)]
pub struct LibCwError {}

impl LibCwError {
    /// The text of this error.
    pub fn to_string(&self) -> (text: String)
        ensures
            text@ == "LibCwError"@,
    {
        String::from_str("LibCwError")
    }
}

/// The outcome of a function of the Morse code library.
pub type LibCwResult = Result<(), LibCwError>;

impl From<cw_return_values> for Result<(), LibCwError> {
    /// Reads a return value: zero is the failure, any other value the
    /// success.
    fn from(value: cw_return_values) -> (outcome: Result<(), LibCwError>) {
        if 0 == value.0 {
            Err(LibCwError {  })
        } else {
            Ok(())
        }
    }
}

impl FromSpecImpl<cw_return_values> for Result<(), LibCwError> {
    open spec fn obeys_from_spec() -> bool {
        true
    }

    open spec fn from_spec(value: cw_return_values) -> Result<(), LibCwError> {
        if value.0 == 0 {
            Err(LibCwError {  })
        } else {
            Ok(())
        }
    }
}

} // verus!
