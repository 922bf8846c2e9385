//! The ready-to-go hooks, and the way two hooks become one.
//!
//! A hook receives the handle of a backend, changes it and returns it.  The
//! hooks of this module show the usage; they do not cover every setting of
//! every backend.

use vstd::prelude::*;

pub mod bindgen_builder;
pub mod cc_build;
pub mod glob_matchoptions;

verus! {

/// Whether `hook` accepts every handle and returns it as it is.
pub open spec fn reflects<T, F: FnOnce(T) -> T>(hook: F) -> bool {
    &&& forall|input: T| #[trigger] call_requires(hook, (input,))
    &&& forall|input: T, output: T|
        #[trigger] call_ensures(hook, (input,), output) ==> output == input
}

/// Whether `first` accepts `input` and `second` accepts whatever `first`
/// may return for it.
pub open spec fn chain_accepts<T, F: FnOnce(T) -> T, G: FnOnce(T) -> T>(
    first: F,
    second: G,
    input: T,
) -> bool {
    &&& call_requires(first, (input,))
    &&& forall|middle: T|
        #[trigger] call_ensures(first, (input,), middle) ==> call_requires(second, (middle,))
}

/// Whether `output` may come out of `second` when it is fed what `first`
/// returns for `input`.
pub open spec fn chain_yields<T, F: FnOnce(T) -> T, G: FnOnce(T) -> T>(
    first: F,
    second: G,
    input: T,
    output: T,
) -> bool {
    exists|middle: T|
        call_ensures(first, (input,), middle) && call_ensures(second, (middle,), output)
}

/// Makes one hook of two: the result runs `first`, then runs `second` on
/// what `first` returned.
pub fn compose<T, F: FnOnce(T) -> T, G: FnOnce(T) -> T>(first: F, second: G) -> (both: impl FnOnce(
    T,
) -> T)
    ensures
        forall|input: T|
            chain_accepts(first, second, input) ==> #[trigger] call_requires(both, (input,)),
        forall|input: T, output: T|
            #[trigger] call_ensures(both, (input,), output) ==> chain_yields(
                first,
                second,
                input,
                output,
            ),
{
    move |input: T| -> (output: T)
        requires
            chain_accepts(first, second, input),
        ensures
            chain_yields(first, second, input, output),
        { second(first(input)) }
}

/// Makes one hook of two that can run any number of times: each run of the
/// result runs `first`, then runs `second` on what `first` returned.
pub fn compose_repeatable<T, F: Fn(T) -> T, G: Fn(T) -> T>(first: F, second: G) -> (both: impl Fn(
    T,
) -> T)
    ensures
        forall|input: T|
            chain_accepts(first, second, input) ==> #[trigger] call_requires(both, (input,)),
        forall|input: T, output: T|
            #[trigger] call_ensures(both, (input,), output) ==> chain_yields(
                first,
                second,
                input,
                output,
            ),
{
    move |input: T| -> (output: T)
        requires
            chain_accepts(first, second, input),
        ensures
            chain_yields(first, second, input, output),
        { second(first(input)) }
}

} // verus!
