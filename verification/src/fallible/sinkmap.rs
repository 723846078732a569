use vstd::prelude::*;

use super::ISink;
use core::marker::PhantomData;

verus! {

/// Transforms incoming data from a source type to the type expected by the wrapped
/// fallible sink: sending `u` sends `map(u)` to the target and answers with its outcome.
#[verifier::reject_recursive_types(UInput)]
pub struct SinkMap<UInput, TSink, FMap> where TSink: ISink, FMap: Fn(UInput) -> TSink::TInput {
    target: TSink,
    map: FMap,
    _uinput: PhantomData<UInput>,
}

impl<UInput, TSink, FMap> SinkMap<UInput, TSink, FMap> where
    TSink: ISink,
    FMap: Fn(UInput) -> TSink::TInput,
 {
    /// The wrapped sink.
    pub closed spec fn target(&self) -> TSink {
        self.target
    }

    /// The function applied to each incoming value.
    pub closed spec fn mapper(&self) -> FMap {
        self.map
    }

    /// Builds a SinkMap which translates incoming values with `map` before handing them
    /// to the owned `target`.
    pub fn new(target: TSink, map: FMap) -> (sink: Self)
        ensures
            sink.target() == target,
            sink.mapper() == map,
    {
        SinkMap { target, map, _uinput: PhantomData }
    }
}

impl<UInput, TSink, FMap> ISink for SinkMap<UInput, TSink, FMap> where
    TSink: ISink,
    FMap: Fn(UInput) -> TSink::TInput,
 {
    type TInput = UInput;

    type TResult = TSink::TResult;

    type TError = TSink::TError;

    open spec fn accepts(&self, input: UInput) -> bool {
        &&& call_requires(self.mapper(), (input,))
        &&& forall|t: TSink::TInput| #[trigger]
            call_ensures(self.mapper(), (input,), t) ==> self.target().accepts(t)
    }

    open spec fn yields(&self, input: UInput, outcome: Result<TSink::TResult, TSink::TError>) -> bool {
        exists|t: TSink::TInput| #[trigger]
            call_ensures(self.mapper(), (input,), t) && self.target().yields(t, outcome)
    }

    fn send(&self, input: UInput) -> (outcome: Result<TSink::TResult, TSink::TError>) {
        let mapped = (self.map)(input);
        assert(call_ensures(self.mapper(), (input,), mapped));
        assert(self.target().accepts(mapped));
        self.target.send(mapped)
    }
}

/// Links a fallible sink and a mapping function through a `SinkMap`.
pub trait ISinkMap: ISink + Sized {
    fn map<UInput, FMap>(self, map: FMap) -> (sink: SinkMap<UInput, Self, FMap>) where
        FMap: Fn(UInput) -> Self::TInput,
        ensures
            sink.target() == self,
            sink.mapper() == map,
    ;
}

impl<TSink: ISink> ISinkMap for TSink {
    fn map<UInput, FMap>(self, map: FMap) -> (sink: SinkMap<UInput, Self, FMap>) where
        FMap: Fn(UInput) -> Self::TInput,
     {
        SinkMap::new(self, map)
    }
}

} // verus!
