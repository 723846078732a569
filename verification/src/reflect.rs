use vstd::prelude::*;

use crate::sink::Sink;

verus! {

/// Answers each value with a pair: a clone of the value and the target's result for it.
pub struct Reflect<TSink> where TSink: Sink {
    target: TSink,
}

impl<TSink> Reflect<TSink> where TSink: Sink {
    /// The wrapped sink.
    pub closed spec fn target(&self) -> TSink {
        self.target
    }

    pub fn new(target: TSink) -> (sink: Self)
        ensures
            sink.target() == target,
    {
        Reflect { target }
    }
}

impl<TSink> Sink for Reflect<TSink> where TSink: Sink, TSink::TInput: Clone {
    type TInput = TSink::TInput;

    type TResult = (TSink::TInput, TSink::TResult);

    open spec fn accepts(&self, input: TSink::TInput) -> bool {
        self.target().accepts(input)
    }

    /// The first component is a clone of the value, the second a target result for it.
    open spec fn yields(
        &self,
        input: TSink::TInput,
        result: (TSink::TInput, TSink::TResult),
    ) -> bool {
        cloned(input, result.0) && self.target().yields(input, result.1)
    }

    fn send(&self, input: TSink::TInput) -> (result: (TSink::TInput, TSink::TResult)) {
        let copy = input.clone();
        (copy, self.target.send(input))
    }
}

/// Wraps a sink in a `Reflect`.
pub trait IReflect: Sink + Sized {
    fn reflect(self) -> (sink: Reflect<Self>)
        ensures
            sink.target() == self,
    ;
}

impl<TSink: Sink> IReflect for TSink {
    fn reflect(self) -> (sink: Reflect<Self>) {
        Reflect::new(self)
    }
}

} // verus!
