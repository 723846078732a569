use vstd::prelude::*;

use crate::isink::ISink;

verus! {

/// The readiness of a source.
pub enum ReadyStates {
    Failed,
    Pending,
    Ready,
}

/// Marks things that can be initialized.
pub trait IInitializable {

}

/// A source of values which can be bound to a sink that receives them.
pub trait ISource: Sized {
    type TOutput;
    type THandle;

    fn bind<TSink: ISink>(self, sink: TSink) -> Self::THandle;
}

} // verus!
