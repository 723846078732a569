use vstd::prelude::*;

use crate::isink::ISink;
use core::marker::PhantomData;

verus! {

/// An `ISink` that answers every value with the value itself.
#[verifier::reject_recursive_types(TInput)]
pub struct EchoSink<TInput> {
    _input: PhantomData<TInput>,
}

impl<TInput> EchoSink<TInput> {
    pub fn new() -> (sink: Self) {
        EchoSink { _input: PhantomData }
    }
}

impl<TInput> ISink for EchoSink<TInput> {
    type TInput = TInput;

    type TResult = TInput;

    open spec fn handles(&self, event: TInput) -> bool {
        true
    }

    /// The answer is the value handled.
    open spec fn answers(&self, event: TInput, result: TInput) -> bool {
        result == event
    }

    fn handle(&self, event: TInput) -> (result: TInput) {
        event
    }
}

} // verus!
