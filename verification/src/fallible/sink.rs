use vstd::prelude::*;

use super::ISink;
use core::marker::PhantomData;

verus! {

/// Captures a handler function and routes each sent value into it.
#[verifier::reject_recursive_types(TInput)]
#[verifier::reject_recursive_types(TResult)]
#[verifier::reject_recursive_types(TError)]
pub struct Sink<TInput, TResult, TError, FHandler> where
    FHandler: Fn(TInput) -> Result<TResult, TError>,
 {
    handler: FHandler,
    _types: PhantomData<(TInput, TResult, TError)>,
}

impl<TInput, TResult, TError, FHandler> Sink<TInput, TResult, TError, FHandler> where
    FHandler: Fn(TInput) -> Result<TResult, TError>,
 {
    /// The captured handler.
    pub closed spec fn handler(&self) -> FHandler {
        self.handler
    }

    /// Builds a Sink using the provided handler.
    pub fn new(handler: FHandler) -> (sink: Self)
        ensures
            sink.handler() == handler,
    {
        Sink { handler, _types: PhantomData }
    }
}

impl<TInput, TResult, TError, FHandler> ISink for Sink<TInput, TResult, TError, FHandler> where
    FHandler: Fn(TInput) -> Result<TResult, TError>,
 {
    type TInput = TInput;

    type TResult = TResult;

    type TError = TError;

    open spec fn accepts(&self, input: TInput) -> bool {
        call_requires(self.handler(), (input,))
    }

    open spec fn yields(&self, input: TInput, outcome: Result<TResult, TError>) -> bool {
        call_ensures(self.handler(), (input,), outcome)
    }

    fn send(&self, input: TInput) -> (outcome: Result<TResult, TError>) {
        (self.handler)(input)
    }
}

} // verus!
