use vstd::prelude::*;

use crate::sink::Sink;
use core::marker::PhantomData;

verus! {

/// A sink which captures a handler function and routes each sent value into it.
#[verifier::reject_recursive_types(TInput)]
#[verifier::reject_recursive_types(TResult)]
pub struct FnSink<FHandler, TInput, TResult> where FHandler: Fn(TInput) -> TResult {
    handler: FHandler,
    _input: PhantomData<(TInput, TResult)>,
}

impl<FHandler, TInput, TResult> FnSink<FHandler, TInput, TResult> where
    FHandler: Fn(TInput) -> TResult,
 {
    /// The captured handler.
    pub closed spec fn handler(&self) -> FHandler {
        self.handler
    }

    /// Builds a FnSink using the provided handler.
    pub fn new(handler: FHandler) -> (sink: Self)
        ensures
            sink.handler() == handler,
    {
        FnSink { handler, _input: PhantomData }
    }
}

impl<FHandler, TInput, TResult> Sink for FnSink<FHandler, TInput, TResult> where
    FHandler: Fn(TInput) -> TResult,
 {
    type TInput = TInput;

    type TResult = TResult;

    /// A value is accepted when the handler may be called with it.
    open spec fn accepts(&self, input: TInput) -> bool {
        call_requires(self.handler(), (input,))
    }

    /// The results are those the handler may return for the value.
    open spec fn yields(&self, input: TInput, result: TResult) -> bool {
        call_ensures(self.handler(), (input,), result)
    }

    fn send(&self, input: TInput) -> (result: TResult) {
        (self.handler)(input)
    }
}

} // verus!

verus! {

impl<FHandler, TInput, TResult> crate::isink::ISink for FnSink<FHandler, TInput, TResult> where
    FHandler: Fn(TInput) -> TResult,
 {
    type TInput = TInput;

    type TResult = TResult;

    open spec fn handles(&self, event: TInput) -> bool {
        call_requires(self.handler(), (event,))
    }

    open spec fn answers(&self, event: TInput, result: TResult) -> bool {
        call_ensures(self.handler(), (event,), result)
    }

    fn handle(&self, event: TInput) -> (result: TResult) {
        (self.handler)(event)
    }
}

} // verus!
