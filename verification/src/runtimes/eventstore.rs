use vstd::prelude::*;

use super::ElmModel;

verus! {

/// Stores every event, in the order received.
pub struct Model<TEvents> {
    inner: Vec<TEvents>,
}

impl<TEvents> Model<TEvents> {
    /// The events received so far, oldest first.
    pub closed spec fn events_view(&self) -> Seq<TEvents> {
        self.inner@
    }

    /// The events received so far, oldest first.
    pub fn events(&self) -> (events: &[TEvents])
        ensures
            events@ == self.events_view(),
    {
        self.inner.as_slice()
    }
}

impl<TEvents> Default for Model<TEvents> {
    /// A store that has received nothing.
    fn default() -> (model: Self)
        ensures
            model.events_view() == Seq::<TEvents>::empty(),
    {
        Model { inner: Vec::new() }
    }
}

impl<TEvents> ElmModel for Model<TEvents> {
    type TEvents = TEvents;

    /// The event is stored after the ones received before.
    open spec fn updates(&self, event: TEvents, next: Self) -> bool {
        next.events_view() == self.events_view().push(event)
    }

    fn update(&mut self, event: TEvents) {
        self.inner.push(event);
    }
}

} // verus!
