use vstd::prelude::*;

use crate::isink::ISink;
use core::marker::PhantomData;

verus! {

/// A sink which owns a state that is made available to the handler, by shared
/// reference, with each value.
#[verifier::reject_recursive_types(TInput)]
#[verifier::reject_recursive_types(TResult)]
pub struct StatefulSink<FHandler, TState, TInput, TResult> where
    FHandler: Fn(&TState, TInput) -> TResult,
 {
    state: TState,
    handler: FHandler,
    _input: PhantomData<(TInput, TResult)>,
}

impl<FHandler, TState, TInput, TResult> StatefulSink<FHandler, TState, TInput, TResult> where
    FHandler: Fn(&TState, TInput) -> TResult,
 {
    /// The owned state.
    pub closed spec fn state(&self) -> TState {
        self.state
    }

    /// The captured handler.
    pub closed spec fn handler(&self) -> FHandler {
        self.handler
    }

    /// Builds a StatefulSink whose state is the default of `TState`.
    pub fn new(handler: FHandler) -> (sink: Self) where TState: Default
        ensures
            call_ensures(TState::default, (), sink.state()),
            sink.handler() == handler,
    {
        let default = TState::default();
        StatefulSink::with_state(default, handler)
    }

    /// Builds a StatefulSink owning `state`.
    pub fn with_state(state: TState, handler: FHandler) -> (sink: Self)
        ensures
            sink.state() == state,
            sink.handler() == handler,
    {
        StatefulSink { state, handler, _input: PhantomData }
    }
}

impl<FHandler, TState, TInput, TResult> ISink for StatefulSink<FHandler, TState, TInput, TResult> where
    TState: Clone,
    FHandler: Fn(&TState, TInput) -> TResult,
 {
    type TInput = TInput;

    type TResult = TResult;

    /// A value is accepted when the handler may be called with the state and the value.
    open spec fn handles(&self, event: TInput) -> bool {
        call_requires(self.handler(), (&self.state(), event))
    }

    /// The results are those the handler may return for the state and the value.
    open spec fn answers(&self, event: TInput, result: TResult) -> bool {
        call_ensures(self.handler(), (&self.state(), event), result)
    }

    fn handle(&self, event: TInput) -> (result: TResult) {
        (self.handler)(&self.state, event)
    }
}

/// Turns a value into the state of a `StatefulSink`.
pub trait IntoStatefulSink: Sized {
    fn into_sink<TInput, TResult, FHandler: Fn(&Self, TInput) -> TResult>(
        self,
        handler: FHandler,
    ) -> (sink: StatefulSink<FHandler, Self, TInput, TResult>)
        ensures
            sink.state() == self,
            sink.handler() == handler,
    {
        StatefulSink::with_state(self, handler)
    }
}

impl<T> IntoStatefulSink for T where T: Clone {

}

} // verus!
