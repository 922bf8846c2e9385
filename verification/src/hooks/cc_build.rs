//! Common hooks for the configuration of a compilation.

use crate::backend::Build;
use crate::backend::BuildSettingView;
use vstd::prelude::*;

verus! {

/// Reflects the input: returns the configuration as it is.
///
/// This is the hook that a fresh build configuration starts with.
pub fn reflect(build: Build) -> (same: Build)
    ensures
        same == build,
{
    build
}

/// Enables the standard and the extra warnings, and treats any warning as an
/// error.
pub fn warnings_into_errors(build: Build) -> (strict: Build)
    ensures
        strict@ == build@.with(BuildSettingView::Warnings(true)).with(
            BuildSettingView::ExtraWarnings(true),
        ).with(BuildSettingView::WarningsIntoErrors(true)),
{
    build.warnings(true).extra_warnings(true).warnings_into_errors(true)
}

} // verus!
