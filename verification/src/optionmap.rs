use vstd::prelude::*;

use crate::map::MapSink;
use crate::reduce::Reduce;
use crate::sink::Sink;
use core::marker::PhantomData;

verus! {

/// Transforms incoming optional values to the type expected by the wrapped sink:
/// `None` is answered with `None` and never reaches the target; `Some(u)` sends `map(u)`
/// to the target and answers `Some` of its result.
#[verifier::reject_recursive_types(UInput)]
pub struct OptionMap<FMap, UInput, TSink> where TSink: Sink, FMap: Fn(UInput) -> TSink::TInput {
    target: TSink,
    map: FMap,
    _u: PhantomData<UInput>,
}

impl<FMap, UInput, TSink> OptionMap<FMap, UInput, TSink> where
    TSink: Sink,
    FMap: Fn(UInput) -> TSink::TInput,
 {
    /// The wrapped sink.
    pub closed spec fn target(&self) -> TSink {
        self.target
    }

    /// The function applied to each present value.
    pub closed spec fn mapper(&self) -> FMap {
        self.map
    }

    /// Builds an OptionMap over an owned `target`, translating present values with `map`.
    pub fn new(target: TSink, map: FMap) -> (sink: Self)
        ensures
            sink.target() == target,
            sink.mapper() == map,
    {
        OptionMap { target, map, _u: PhantomData }
    }
}

impl<FMap, UInput, TSink> Sink for OptionMap<FMap, UInput, TSink> where
    TSink: Sink,
    FMap: Fn(UInput) -> TSink::TInput,
 {
    type TInput = Option<UInput>;

    type TResult = Option<TSink::TResult>;

    open spec fn accepts(&self, input: Option<UInput>) -> bool {
        match input {
            None => true,
            Some(u) => {
                &&& call_requires(self.mapper(), (u,))
                &&& forall|t: TSink::TInput| #[trigger]
                    call_ensures(self.mapper(), (u,), t) ==> self.target().accepts(t)
            },
        }
    }

    open spec fn yields(&self, input: Option<UInput>, result: Option<TSink::TResult>) -> bool {
        match input {
            None => result is None,
            Some(u) => result matches Some(r) && exists|t: TSink::TInput| #[trigger]
                call_ensures(self.mapper(), (u,), t) && self.target().yields(t, r),
        }
    }

    fn send(&self, input: Option<UInput>) -> (result: Option<TSink::TResult>) {
        match input {
            None => None,
            Some(u) => {
                let mapped = (self.map)(u);
                assert(call_ensures(self.mapper(), (u,), mapped));
                assert(self.target().accepts(mapped));
                Some(self.target.send(mapped))
            },
        }
    }
}

/// Links a sink and a mapping function through an `OptionMap`.
pub trait SinkOptionMap: Sink + Sized {
    fn option_map<UInput, FMap>(self, map: FMap) -> (sink: OptionMap<FMap, UInput, Self>) where
        FMap: Fn(UInput) -> Self::TInput,
        ensures
            sink.target() == self,
            sink.mapper() == map,
    ;
}

impl<TSink: Sink> SinkOptionMap for TSink {
    fn option_map<UInput, FMap>(self, map: FMap) -> (sink: OptionMap<FMap, UInput, Self>) where
        FMap: Fn(UInput) -> Self::TInput,
     {
        OptionMap::new(self, map)
    }
}

/// An `OptionMap` behaves as a `Reduce` around a `MapSink` with the same target and map:
/// both accept the same values and answer them alike.
pub proof fn lemma_option_map_is_reduce_of_map<FMap, UInput, TSink>(
    option_map: OptionMap<FMap, UInput, TSink>,
    reduce: Reduce<MapSink<FMap, UInput, TSink>>,
    input: Option<UInput>,
    result: Option<TSink::TResult>,
) where TSink: Sink, FMap: Fn(UInput) -> TSink::TInput
    requires
        reduce.target().target() == option_map.target(),
        reduce.target().mapper() == option_map.mapper(),
    ensures
        option_map.accepts(input) <==> reduce.accepts(input),
        option_map.yields(input, result) <==> reduce.yields(input, result),
{
}

} // verus!
