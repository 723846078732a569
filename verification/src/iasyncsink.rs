use vstd::prelude::*;

use crate::isink::ISink;
use core::marker::PhantomData;

verus! {

/// The state of an asynchronous receipt: still running, or finished with a result.
#[derive(Clone)]
pub enum AsyncStatus<TResult> {
    Pending,
    Ready(TResult),
}

/// A handle on an asynchronous receipt, which can be asked for its status.
pub trait IAsyncContext: Sized {
    type TResult;

    /// The statuses `poll` may report; by default, any.
    open spec fn reports(&self, status: AsyncStatus<Self::TResult>) -> bool {
        true
    }

    fn poll(self) -> (status: AsyncStatus<Self::TResult>)
        ensures
            self.reports(status),
    ;
}

/// A sink which answers each value with a handle on its asynchronous receipt.
pub trait IAsyncSink {
    type TInput;
    type TResult;
    type TContext: IAsyncContext<TResult = Self::TResult>;

    /// The values that `send` may be called with; by default, any.
    open spec fn accepts(&self, input: Self::TInput) -> bool {
        true
    }

    /// The handles that `send` may answer `input` with; by default, any.
    open spec fn starts(&self, input: Self::TInput, context: Self::TContext) -> bool {
        true
    }

    fn send(&self, input: Self::TInput) -> (context: Self::TContext)
        requires
            self.accepts(input),
        ensures
            self.starts(input, context),
    ;
}

/// A receipt that is complete from the start: it always reports its result as ready.
#[verifier::reject_recursive_types(TInput)]
pub struct Immediate<TInput, TResult> where TResult: Clone {
    result: TResult,
    _input: PhantomData<TInput>,
}

impl<TInput, TResult> Immediate<TInput, TResult> where TResult: Clone {
    /// The result that is reported.
    pub closed spec fn result(&self) -> TResult {
        self.result
    }

    pub fn new(result: TResult) -> (context: Self)
        ensures
            context.result() == result,
    {
        Immediate { result, _input: PhantomData }
    }
}

impl<TInput, TResult> IAsyncContext for Immediate<TInput, TResult> where TResult: Clone {
    type TResult = TResult;

    /// Always ready, with a clone of the result.
    open spec fn reports(&self, status: AsyncStatus<TResult>) -> bool {
        status matches AsyncStatus::Ready(r) && cloned(self.result(), r)
    }

    fn poll(self) -> (status: AsyncStatus<TResult>) {
        AsyncStatus::Ready(self.result.clone())
    }
}

impl<TInput, TResult> IAsyncSink for Immediate<TInput, TResult> where TResult: Clone {
    type TInput = TInput;

    type TResult = TResult;

    type TContext = Immediate<TInput, TResult>;

    open spec fn accepts(&self, input: TInput) -> bool {
        true
    }

    /// Every value gets a ready handle on a clone of this result.
    open spec fn starts(&self, input: TInput, context: Immediate<TInput, TResult>) -> bool {
        cloned(self.result(), context.result())
    }

    fn send(&self, input: TInput) -> (context: Immediate<TInput, TResult>) {
        Immediate::new(self.result.clone())
    }
}

/// A synchronous `ISink` seen as an asynchronous one whose receipts are ready at once.
pub struct AsyncSink<TSink> {
    target: TSink,
}

impl<TSink> AsyncSink<TSink> {
    /// The wrapped sink.
    pub closed spec fn target(&self) -> TSink {
        self.target
    }
}

impl<TSink> IAsyncSink for AsyncSink<TSink> where TSink: ISink, TSink::TResult: Clone {
    type TInput = TSink::TInput;

    type TResult = TSink::TResult;

    type TContext = Immediate<TSink::TInput, TSink::TResult>;

    open spec fn accepts(&self, input: TSink::TInput) -> bool {
        self.target().handles(input)
    }

    /// The handle reports a result the target may answer the value with.
    open spec fn starts(
        &self,
        input: TSink::TInput,
        context: Immediate<TSink::TInput, TSink::TResult>,
    ) -> bool {
        self.target().answers(input, context.result())
    }

    fn send(&self, input: TSink::TInput) -> (context: Immediate<TSink::TInput, TSink::TResult>) {
        Immediate::new(self.target.handle(input))
    }
}

/// Wraps a synchronous sink as an asynchronous one.
pub trait IntoAsync: Sized {
    fn into_async(self) -> (sink: AsyncSink<Self>)
        ensures
            sink.target() == self,
    ;
}

impl<TSink: ISink> IntoAsync for TSink {
    fn into_async(self) -> (sink: AsyncSink<Self>) {
        AsyncSink { target: self }
    }
}

} // verus!
