use vstd::prelude::*;

use crate::sink::Sink;

verus! {

/// A system built around a sink.
pub struct SinkSystem<TSink> where TSink: Sink {
    _inner: TSink,
}

impl<TSink> SinkSystem<TSink> where TSink: Sink {
    /// The sink the system is built around.
    pub closed spec fn inner(&self) -> TSink {
        self._inner
    }

    pub fn new(inner: TSink) -> (system: Self)
        ensures
            system.inner() == inner,
    {
        SinkSystem { _inner: inner }
    }
}

} // verus!
