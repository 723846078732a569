use vstd::prelude::*;

use crate::isink::ISink;
use core::marker::PhantomData;

verus! {

/// A system that can be started within a context, giving back a handle on it.
pub trait ISystem: Sized {
    type TContext;
    type THandle;

    fn start(self, ctx: Self::TContext) -> Self::THandle;
}

/// The handle on a started identity system.
#[derive(Debug)]
#[verifier::reject_recursive_types(T)]
pub struct IdentitySystemHandle<T> {
    _t: PhantomData<T>,
    pub system: IdentitySystem<T>,
}

impl<T> IdentitySystemHandle<T> {
    /// The system held by the handle.
    pub closed spec fn held(&self) -> IdentitySystem<T> {
        self.system
    }

    pub fn new(system: IdentitySystem<T>) -> (handle: Self)
        ensures
            handle.held() == system,
    {
        IdentitySystemHandle { _t: PhantomData, system }
    }

    /// Ends the system held by the handle.
    pub fn shutdown(self) {
    }
}

/// A system that answers every value with the value itself.
#[derive(Debug)]
#[verifier::reject_recursive_types(T)]
pub struct IdentitySystem<T> {
    _t: PhantomData<T>,
}

impl<T> IdentitySystem<T> {
    pub fn new() -> (system: Self) {
        IdentitySystem { _t: PhantomData }
    }
}

impl<T> ISystem for IdentitySystem<T> {
    type TContext = ();

    type THandle = IdentitySystemHandle<T>;

    /// Starting needs no context; the handle holds the system.
    fn start(self, ctx: ()) -> (handle: IdentitySystemHandle<T>)
        ensures
            handle.held() == self,
    {
        IdentitySystemHandle::new(self)
    }
}

impl<T> ISink for IdentitySystem<T> {
    type TInput = T;

    type TResult = T;

    open spec fn handles(&self, event: T) -> bool {
        true
    }

    /// The answer is the value handled.
    open spec fn answers(&self, event: T, result: T) -> bool {
        result == event
    }

    fn handle(&self, input: T) -> (result: T) {
        input
    }
}

} // verus!
