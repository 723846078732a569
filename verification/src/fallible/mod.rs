//! Sinks whose every receipt either succeeds with a result or fails with an error.
pub mod sink;
pub mod sinkmap;

use vstd::prelude::*;

verus! {

/// A thing which can be sent values and answers each with a `Result` indicating success
/// or failure of receipt.
///
/// Answering `send` with `Result<TResult, TError>` at once lets implementations wrap both
/// synchronous and asynchronous processing behind a synchronous response.
pub trait ISink {
    type TInput;
    type TResult;
    type TError;

    /// The values that `send` may be called with; by default, any.
    open spec fn accepts(&self, input: Self::TInput) -> bool {
        true
    }

    /// The outcomes that `send` may answer `input` with; by default, any.
    open spec fn yields(&self, input: Self::TInput, outcome: Result<Self::TResult, Self::TError>) -> bool {
        true
    }

    fn send(&self, input: Self::TInput) -> (outcome: Result<Self::TResult, Self::TError>)
        requires
            self.accepts(input),
        ensures
            self.yields(input, outcome),
    ;
}

} // verus!
