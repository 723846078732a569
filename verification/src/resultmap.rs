use vstd::prelude::*;

use crate::map::MapSink;
use crate::sink::Sink;
use core::marker::PhantomData;

verus! {

/// Transforms the results of a wrapped sink: sending `x` sends `x` to the target and
/// answers `map` of the target's result.
#[verifier::reject_recursive_types(UResult)]
pub struct ResultMap<FMap, UResult, TSink> where TSink: Sink, FMap: Fn(TSink::TResult) -> UResult {
    target: TSink,
    map: FMap,
    _u: PhantomData<UResult>,
}

impl<FMap, UResult, TSink> ResultMap<FMap, UResult, TSink> where
    TSink: Sink,
    FMap: Fn(TSink::TResult) -> UResult,
 {
    /// The wrapped sink.
    pub closed spec fn target(&self) -> TSink {
        self.target
    }

    /// The function applied to each result of the target.
    pub closed spec fn mapper(&self) -> FMap {
        self.map
    }

    /// Builds a ResultMap over an owned `target`, translating its results with `map`.
    pub fn new(target: TSink, map: FMap) -> (sink: Self)
        ensures
            sink.target() == target,
            sink.mapper() == map,
    {
        ResultMap { target, map, _u: PhantomData }
    }
}

impl<FMap, UResult, TSink> Sink for ResultMap<FMap, UResult, TSink> where
    TSink: Sink,
    FMap: Fn(TSink::TResult) -> UResult,
 {
    type TInput = TSink::TInput;

    type TResult = UResult;

    /// A value is accepted when the target accepts it and the map may be applied to
    /// every result the target may answer it with.
    open spec fn accepts(&self, input: TSink::TInput) -> bool {
        &&& self.target().accepts(input)
        &&& forall|r: TSink::TResult| #[trigger]
            self.target().yields(input, r) ==> call_requires(self.mapper(), (r,))
    }

    open spec fn yields(&self, input: TSink::TInput, result: UResult) -> bool {
        exists|r: TSink::TResult| #[trigger]
            self.target().yields(input, r) && call_ensures(self.mapper(), (r,), result)
    }

    fn send(&self, input: TSink::TInput) -> (result: UResult) {
        let r = self.target.send(input);
        assert(self.target().yields(input, r));
        let u = (self.map)(r);
        assert(call_ensures(self.mapper(), (r,), u));
        u
    }
}

/// Links a sink and a result mapping function through a `ResultMap`.
pub trait SinkResultMap: Sink + Sized {
    fn map_result<UResult, FMap>(self, map: FMap) -> (sink: ResultMap<FMap, UResult, Self>) where
        FMap: Fn(Self::TResult) -> UResult,
        ensures
            sink.target() == self,
            sink.mapper() == map,
    ;
}

impl<TSink: Sink> SinkResultMap for TSink {
    fn map_result<UResult, FMap>(self, map: FMap) -> (sink: ResultMap<FMap, UResult, Self>) where
        FMap: Fn(Self::TResult) -> UResult,
     {
        ResultMap::new(self, map)
    }
}

/// Mapping the inputs and mapping the results commute: a `ResultMap` around a `MapSink`
/// answers a value exactly as a `MapSink` around a `ResultMap` with the same target and
/// functions.
pub proof fn lemma_map_and_map_result_commute<FIn, FOut, UInput, UResult, TSink>(
    outer_results: ResultMap<FOut, UResult, MapSink<FIn, UInput, TSink>>,
    outer_inputs: MapSink<FIn, UInput, ResultMap<FOut, UResult, TSink>>,
    input: UInput,
    result: UResult,
) where
    TSink: Sink,
    FIn: Fn(UInput) -> TSink::TInput,
    FOut: Fn(TSink::TResult) -> UResult,

    requires
        outer_results.target().target() == outer_inputs.target().target(),
        outer_results.target().mapper() == outer_inputs.mapper(),
        outer_results.mapper() == outer_inputs.target().mapper(),
    ensures
        outer_results.yields(input, result) <==> outer_inputs.yields(input, result),
{
    let f = outer_inputs.mapper();
    let g = outer_results.mapper();
    let target = outer_inputs.target().target();
    if outer_results.yields(input, result) {
        let r = choose|r: TSink::TResult|
            outer_results.target().yields(input, r) && call_ensures(g, (r,), result);
        let t = choose|t: TSink::TInput| call_ensures(f, (input,), t) && target.yields(t, r);
        assert(outer_inputs.target().yields(t, result));
    }
    if outer_inputs.yields(input, result) {
        let t = choose|t: TSink::TInput|
            call_ensures(f, (input,), t) && outer_inputs.target().yields(t, result);
        let r = choose|r: TSink::TResult| target.yields(t, r) && call_ensures(g, (r,), result);
        assert(outer_results.target().yields(input, r));
    }
}

} // verus!
