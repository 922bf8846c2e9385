//! Common hooks for the options of the glob matching.

use crate::backend::MatchOptions;
use vstd::prelude::*;

verus! {

/// Reflects the input: returns the options as they are.
///
/// This is the hook that a fresh build configuration starts with.
pub fn reflect(options: MatchOptions) -> (same: MatchOptions)
    ensures
        same == options,
{
    options
}

/// Makes the matching ignore the difference between upper and lower case.
pub fn case_insensitive(options: MatchOptions) -> (relaxed: MatchOptions)
    ensures
        relaxed == (MatchOptions { case_sensitive: false, ..options }),
{
    MatchOptions { case_sensitive: false, ..options }
}

} // verus!
