use vstd::prelude::*;

use crate::sink::Sink;
use core::marker::PhantomData;

verus! {

/// A sink which accepts every value and discards it.
#[verifier::reject_recursive_types(T)]
pub struct NullSink<T> {
    _t: PhantomData<T>,
}

impl<T> NullSink<T> {
    pub fn new() -> (sink: Self) {
        NullSink { _t: PhantomData }
    }
}

impl<T> Sink for NullSink<T> {
    type TInput = T;

    type TResult = ();

    open spec fn accepts(&self, input: T) -> bool {
        true
    }

    open spec fn yields(&self, input: T, result: ()) -> bool {
        true
    }

    fn send(&self, input: T) -> (result: ()) {
        ()
    }
}

} // verus!
