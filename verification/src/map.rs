use vstd::prelude::*;

use crate::sink::Sink;
use core::marker::PhantomData;

verus! {

/// Transforms incoming values from a source type to the type expected by the wrapped
/// sink: sending `u` sends `map(u)` to the target and answers with the target's result.
#[verifier::reject_recursive_types(UInput)]
pub struct MapSink<FMap, UInput, TSink> where TSink: Sink, FMap: Fn(UInput) -> TSink::TInput {
    target: TSink,
    map: FMap,
    _uinput: PhantomData<UInput>,
}

impl<FMap, UInput, TSink> MapSink<FMap, UInput, TSink> where
    TSink: Sink,
    FMap: Fn(UInput) -> TSink::TInput,
 {
    /// The wrapped sink.
    pub closed spec fn target(&self) -> TSink {
        self.target
    }

    /// The function applied to each incoming value.
    pub closed spec fn mapper(&self) -> FMap {
        self.map
    }

    /// Builds a sink which translates incoming values with `map` before handing them to
    /// the owned `target`.
    pub fn new(target: TSink, map: FMap) -> (sink: Self)
        ensures
            sink.target() == target,
            sink.mapper() == map,
    {
        MapSink { target, map, _uinput: PhantomData }
    }
}

impl<FMap, UInput, TSink> Sink for MapSink<FMap, UInput, TSink> where
    TSink: Sink,
    FMap: Fn(UInput) -> TSink::TInput,
 {
    type TInput = UInput;

    type TResult = TSink::TResult;

    /// A value is accepted when the map may be applied to it and the target accepts
    /// whatever the map may turn it into.
    open spec fn accepts(&self, input: UInput) -> bool {
        &&& call_requires(self.mapper(), (input,))
        &&& forall|t: TSink::TInput| #[trigger]
            call_ensures(self.mapper(), (input,), t) ==> self.target().accepts(t)
    }

    /// The result is one the target may answer to a value the map may produce.
    open spec fn yields(&self, input: UInput, result: TSink::TResult) -> bool {
        exists|t: TSink::TInput| #[trigger]
            call_ensures(self.mapper(), (input,), t) && self.target().yields(t, result)
    }

    fn send(&self, input: UInput) -> (result: TSink::TResult) {
        let mapped = (self.map)(input);
        assert(call_ensures(self.mapper(), (input,), mapped));
        assert(self.target().accepts(mapped));
        self.target.send(mapped)
    }
}

/// Links a sink and a mapping function through a `MapSink`.
pub trait SinkMap: Sink + Sized {
    fn map<UInput, FMap>(self, map: FMap) -> (sink: MapSink<FMap, UInput, Self>) where
        FMap: Fn(UInput) -> Self::TInput,
        ensures
            sink.target() == self,
            sink.mapper() == map,
    ;
}

impl<TSink: Sink> SinkMap for TSink {
    fn map<UInput, FMap>(self, map: FMap) -> (sink: MapSink<FMap, UInput, Self>) where
        FMap: Fn(UInput) -> Self::TInput,
     {
        MapSink::new(self, map)
    }
}

/// Mapping twice is mapping once by the composed function: a value sent through two
/// nested maps reaches the innermost target as the inner map applied to the outer map's
/// output, and is answered with that target's answer.
pub proof fn lemma_map_fusion<UInput, VInput, TSink, FOuter, FInner>(
    sink: MapSink<FOuter, UInput, MapSink<FInner, VInput, TSink>>,
    input: UInput,
    result: TSink::TResult,
) where
    TSink: Sink,
    FInner: Fn(VInput) -> TSink::TInput,
    FOuter: Fn(UInput) -> VInput,

    ensures
        sink.yields(input, result) <==> exists|v: VInput, t: TSink::TInput|
            call_ensures(sink.mapper(), (input,), v) && call_ensures(
                sink.target().mapper(),
                (v,),
                t,
            ) && sink.target().target().yields(t, result),
        sink.accepts(input) <==> {
            &&& call_requires(sink.mapper(), (input,))
            &&& forall|v: VInput|
                call_ensures(sink.mapper(), (input,), v) ==> {
                    &&& call_requires(sink.target().mapper(), (v,))
                    &&& forall|t: TSink::TInput|
                        call_ensures(sink.target().mapper(), (v,), t)
                            ==> sink.target().target().accepts(t)
                }
        },
{
    if sink.yields(input, result) {
        let v = choose|v: VInput|
            call_ensures(sink.mapper(), (input,), v) && sink.target().yields(v, result);
        let t = choose|t: TSink::TInput|
            call_ensures(sink.target().mapper(), (v,), t) && sink.target().target().yields(
                t,
                result,
            );
        assert(call_ensures(sink.mapper(), (input,), v) && call_ensures(
            sink.target().mapper(),
            (v,),
            t,
        ) && sink.target().target().yields(t, result));
    }
    if exists|v: VInput, t: TSink::TInput|
        call_ensures(sink.mapper(), (input,), v) && call_ensures(sink.target().mapper(), (v,), t)
            && sink.target().target().yields(t, result) {
        let (v, t) = choose|v: VInput, t: TSink::TInput|
            call_ensures(sink.mapper(), (input,), v) && call_ensures(
                sink.target().mapper(),
                (v,),
                t,
            ) && sink.target().target().yields(t, result);
        assert(sink.target().yields(v, result));
    }
}

} // verus!
