use vstd::prelude::*;

use crate::isink::ISink;
use core::marker::PhantomData;

verus! {

/// Transforms incoming data from a source type to the type expected by the wrapped
/// `ISink`: handling `u` hands `map(u)` to the target and answers with its result.
#[verifier::reject_recursive_types(UInput)]
pub struct SinkMap<FMap, TSink, UInput> where TSink: ISink, FMap: Fn(UInput) -> TSink::TInput {
    target: TSink,
    map: FMap,
    _uinput: PhantomData<UInput>,
}

impl<FMap, TSink, UInput> SinkMap<FMap, TSink, UInput> where
    TSink: ISink,
    FMap: Fn(UInput) -> TSink::TInput,
 {
    /// The wrapped sink.
    pub closed spec fn target(&self) -> TSink {
        self.target
    }

    /// The function applied to each incoming value.
    pub closed spec fn mapper(&self) -> FMap {
        self.map
    }

    /// Builds a SinkMap which translates incoming values with `map` before handing them
    /// to the owned `target`.
    pub fn new(target: TSink, map: FMap) -> (sink: Self)
        ensures
            sink.target() == target,
            sink.mapper() == map,
    {
        SinkMap { target, map, _uinput: PhantomData }
    }
}

impl<FMap, TSink, UInput> ISink for SinkMap<FMap, TSink, UInput> where
    TSink: ISink,
    FMap: Fn(UInput) -> TSink::TInput,
 {
    type TInput = UInput;

    type TResult = TSink::TResult;

    open spec fn handles(&self, event: UInput) -> bool {
        &&& call_requires(self.mapper(), (event,))
        &&& forall|t: TSink::TInput| #[trigger]
            call_ensures(self.mapper(), (event,), t) ==> self.target().handles(t)
    }

    open spec fn answers(&self, event: UInput, result: TSink::TResult) -> bool {
        exists|t: TSink::TInput| #[trigger]
            call_ensures(self.mapper(), (event,), t) && self.target().answers(t, result)
    }

    fn handle(&self, event: UInput) -> (result: TSink::TResult) {
        let mapped = (self.map)(event);
        assert(call_ensures(self.mapper(), (event,), mapped));
        assert(self.target().handles(mapped));
        self.target.handle(mapped)
    }
}

/// Links an `ISink` and a mapping function through a `SinkMap`.
pub trait ISinkMap: ISink + Sized {
    fn map<UInput, FMap>(self, map: FMap) -> (sink: SinkMap<FMap, Self, UInput>) where
        FMap: Fn(UInput) -> Self::TInput,
        ensures
            sink.target() == self,
            sink.mapper() == map,
    ;
}

impl<TSink: ISink> ISinkMap for TSink {
    fn map<UInput, FMap>(self, map: FMap) -> (sink: SinkMap<FMap, Self, UInput>) where
        FMap: Fn(UInput) -> Self::TInput,
     {
        SinkMap::new(self, map)
    }
}

} // verus!
