use vstd::prelude::*;

use crate::sink::Sink;
use core::marker::PhantomData;

verus! {

/// A sink that answers every value with the value itself. It is built from a target sink
/// whose input type it takes over; the target is dropped and never receives anything.
#[verifier::reject_recursive_types(TSink)]
pub struct EchoSink<TSink> where TSink: Sink {
    _target: PhantomData<TSink>,
}

impl<TSink> EchoSink<TSink> where TSink: Sink {
    pub fn new(_target: TSink) -> (sink: Self) {
        EchoSink { _target: PhantomData }
    }
}

impl<TSink> Sink for EchoSink<TSink> where TSink: Sink {
    type TInput = TSink::TInput;

    type TResult = TSink::TInput;

    open spec fn accepts(&self, input: TSink::TInput) -> bool {
        true
    }

    /// The answer is the value sent.
    open spec fn yields(&self, input: TSink::TInput, result: TSink::TInput) -> bool {
        result == input
    }

    fn send(&self, input: TSink::TInput) -> (result: TSink::TInput) {
        input
    }
}

/// Replaces a sink by an `EchoSink` over its input type.
pub trait IEcho: Sink + Sized {
    fn echo(self) -> (sink: EchoSink<Self>);
}

impl<TSink: Sink> IEcho for TSink {
    fn echo(self) -> (sink: EchoSink<Self>) {
        EchoSink::new(self)
    }
}

} // verus!
