use vstd::prelude::*;

use crate::sink::Sink;

verus! {

/// A value addressed to one of the two sinks of a `Sink2`.
pub enum Sink2Signal<TSink0, TSink1> where TSink0: Sink, TSink1: Sink {
    Sink0(TSink0::TInput),
    Sink1(TSink1::TInput),
}

/// The answer of the sink of a `Sink2` that a signal was addressed to.
pub enum Sink2Result<TSink0, TSink1> where TSink0: Sink, TSink1: Sink {
    Sink0(TSink0::TResult),
    Sink1(TSink1::TResult),
}

/// A pair of borrowed sinks, seen as one sink that routes each signal to its addressee.
pub struct Sink2<'a, 'b, TSink0, TSink1>(pub &'a TSink0, pub &'b TSink1);

impl<'a, 'b, TSink0, TSink1> Sink2<'a, 'b, TSink0, TSink1> {
    pub fn new(sink0: &'a TSink0, sink1: &'b TSink1) -> (pair: Self)
        ensures
            pair.0 == sink0,
            pair.1 == sink1,
    {
        Sink2(sink0, sink1)
    }

    /// Both sinks, in order.
    pub fn spread(&self) -> (sinks: (&TSink0, &TSink1))
        ensures
            sinks.0 == self.0,
            sinks.1 == self.1,
    {
        (self.0, self.1)
    }

    /// The same two sinks in the other order.
    pub fn swap(&self) -> (pair: Sink2<'b, 'a, TSink1, TSink0>)
        ensures
            pair.0 == self.1,
            pair.1 == self.0,
    {
        Sink2::new(self.1, self.0)
    }
}

impl<'a, 'b, TSink0, TSink1> Sink for Sink2<'a, 'b, TSink0, TSink1> where
    TSink0: Sink,
    TSink1: Sink,
 {
    type TInput = Sink2Signal<TSink0, TSink1>;

    type TResult = Sink2Result<TSink0, TSink1>;

    open spec fn accepts(&self, input: Sink2Signal<TSink0, TSink1>) -> bool {
        match input {
            Sink2Signal::Sink0(x) => self.0.accepts(x),
            Sink2Signal::Sink1(x) => self.1.accepts(x),
        }
    }

    /// A signal is answered by its addressee, under the same tag.
    open spec fn yields(
        &self,
        input: Sink2Signal<TSink0, TSink1>,
        result: Sink2Result<TSink0, TSink1>,
    ) -> bool {
        match input {
            Sink2Signal::Sink0(x) => result matches Sink2Result::Sink0(r) && self.0.yields(x, r),
            Sink2Signal::Sink1(x) => result matches Sink2Result::Sink1(r) && self.1.yields(x, r),
        }
    }

    fn send(&self, input: Sink2Signal<TSink0, TSink1>) -> (result: Sink2Result<TSink0, TSink1>) {
        match input {
            Sink2Signal::Sink0(x) => Sink2Result::Sink0(self.0.send(x)),
            Sink2Signal::Sink1(x) => Sink2Result::Sink1(self.1.send(x)),
        }
    }
}

/// Swapping twice gives back the same pair, and a swapped pair answers a signal
/// addressed to its first sink as the original pair answers it addressed to its second.
pub proof fn lemma_swap<'a, 'b, TSink0: Sink, TSink1: Sink>(
    pair: Sink2<'a, 'b, TSink0, TSink1>,
    swapped: Sink2<'b, 'a, TSink1, TSink0>,
    back: Sink2<'a, 'b, TSink0, TSink1>,
    x0: TSink0::TInput,
    r0: TSink0::TResult,
    x1: TSink1::TInput,
    r1: TSink1::TResult,
)
    requires
        swapped.0 == pair.1,
        swapped.1 == pair.0,
        back.0 == swapped.1,
        back.1 == swapped.0,
    ensures
        back == pair,
        swapped.yields(Sink2Signal::Sink0(x1), Sink2Result::Sink0(r1)) <==> pair.yields(
            Sink2Signal::Sink1(x1),
            Sink2Result::Sink1(r1),
        ),
        swapped.yields(Sink2Signal::Sink1(x0), Sink2Result::Sink1(r0)) <==> pair.yields(
            Sink2Signal::Sink0(x0),
            Sink2Result::Sink0(r0),
        ),
{
}

} // verus!
