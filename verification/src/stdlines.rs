use vstd::prelude::*;

verus! {

/// What a reader of console lines reports.
#[derive(Clone, Debug, PartialEq)]
pub enum StdinEvents {
    Listening,
    LineReceived(String),
    Paused,
}

/// An environment that shows a view and evolves with events.
pub trait Environment {
    type TEvents;

    fn view(&self);

    fn update(&mut self, event: Self::TEvents);
}

/// Something that runs, handing each signal it produces to `update`.
pub trait Runtime: Sized {
    type TSignal;

    fn run<FUpdate>(self, update: FUpdate) where FUpdate: Fn(Self::TSignal);
}

/// Holds a runtime.
pub struct RuntimeContainer<TInner> {
    pub inner: TInner,
}

} // verus!
