use vstd::prelude::*;

verus! {

/// A thing which can handle values and returns the result of each event's receipt.
///
/// This is the `handle`-named sibling of `crate::sink::Sink`; its contract has the same
/// shape: `handles` says which values may be handed in, `answers` which results may come
/// back for each.
pub trait ISink {
    type TInput;
    type TResult;

    /// The values that `handle` may be called with; by default, any.
    open spec fn handles(&self, event: Self::TInput) -> bool {
        true
    }

    /// The results that `handle` may answer `event` with; by default, any.
    open spec fn answers(&self, event: Self::TInput, result: Self::TResult) -> bool {
        true
    }

    /// Accepts an item and returns the result of its receipt (possibly unit).
    fn handle(&self, event: Self::TInput) -> (result: Self::TResult)
        requires
            self.handles(event),
        ensures
            self.answers(event, result),
    ;
}

} // verus!
