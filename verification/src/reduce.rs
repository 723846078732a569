use vstd::prelude::*;

use crate::sink::Sink;

verus! {

/// Dispatches `Some` inputs into a nested sink and discards `None`.
pub struct Reduce<TSink> where TSink: Sink {
    target: TSink,
}

impl<TSink> Reduce<TSink> where TSink: Sink {
    /// The wrapped sink.
    pub closed spec fn target(&self) -> TSink {
        self.target
    }

    /// Builds a new Reduce wrapper around `target`.
    pub fn new(target: TSink) -> (sink: Self)
        ensures
            sink.target() == target,
    {
        Reduce { target }
    }
}

impl<TSink> Sink for Reduce<TSink> where TSink: Sink {
    type TInput = Option<TSink::TInput>;

    type TResult = Option<TSink::TResult>;

    /// `None` is always accepted; `Some(x)` when the target accepts `x`.
    open spec fn accepts(&self, input: Option<TSink::TInput>) -> bool {
        match input {
            None => true,
            Some(x) => self.target().accepts(x),
        }
    }

    /// `None` is answered with `None`; `Some(x)` with `Some` of a target result for `x`.
    open spec fn yields(&self, input: Option<TSink::TInput>, result: Option<TSink::TResult>) -> bool {
        match input {
            None => result is None,
            Some(x) => result matches Some(r) && self.target().yields(x, r),
        }
    }

    fn send(&self, input: Option<TSink::TInput>) -> (result: Option<TSink::TResult>) {
        match input {
            None => None,
            Some(x) => Some(self.target.send(x)),
        }
    }
}

/// Wraps a sink in a `Reduce`.
pub trait SinkReduce: Sink + Sized {
    fn reduce(self) -> (sink: Reduce<Self>)
        ensures
            sink.target() == self,
    ;
}

impl<TSink: Sink> SinkReduce for TSink {
    fn reduce(self) -> (sink: Reduce<Self>) {
        Reduce::new(self)
    }
}

} // verus!
