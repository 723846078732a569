//! Models updated by events, in the style of the Elm architecture, and the projections
//! of console lines that feed them.
pub mod concatview;
pub mod domain;
pub mod eventstore;

use vstd::prelude::*;

use crate::stdio::{byte_len, StdinEvents};

verus! {

/// A model that evolves with each event it is given.
pub trait ElmModel: Sized {
    type TEvents;

    /// `next` is what `update` makes of the model given `event`; by default, any.
    open spec fn updates(&self, event: Self::TEvents, next: Self) -> bool {
        true
    }

    fn update(&mut self, event: Self::TEvents)
        ensures
            old(self).updates(event, *final(self)),
    ;
}

/// Holds a model and updates it with each event sent to it.
pub struct ElmModelRefCell<TModel> where TModel: ElmModel {
    model: TModel,
}

impl<TModel> ElmModelRefCell<TModel> where TModel: ElmModel {
    /// The model held.
    pub closed spec fn inner(&self) -> TModel {
        self.model
    }

    pub fn new(model: TModel) -> (cell: Self)
        ensures
            cell.inner() == model,
    {
        ElmModelRefCell { model }
    }

    /// The model held.
    pub fn model(&self) -> (model: &TModel)
        ensures
            *model == self.inner(),
    {
        &self.model
    }

    /// Updates the model held with `event`.
    pub fn send(&mut self, event: TModel::TEvents)
        ensures
            old(self).inner().updates(event, final(self).inner()),
    {
        self.model.update(event);
    }
}

impl<TModel> Default for ElmModelRefCell<TModel> where TModel: Default + ElmModel {
    /// Holds the default model.
    fn default() -> (cell: Self)
        ensures
            call_ensures(TModel::default, (), cell.inner()),
    {
        Self::new(TModel::default())
    }
}

/// The application model: every console event, in the order received.
pub struct Model {
    eventstore: eventstore::Model<StdinEvents>,
}

impl Model {
    /// The console events received so far, oldest first.
    pub closed spec fn events_view(&self) -> Seq<StdinEvents> {
        self.eventstore.events_view()
    }

    /// The event store of the model.
    pub fn eventstore(&self) -> (store: &eventstore::Model<StdinEvents>)
        ensures
            store.events_view() == self.events_view(),
    {
        &self.eventstore
    }
}

impl Default for Model {
    /// A model that has received nothing.
    fn default() -> (model: Self)
        ensures
            model.events_view() == Seq::<StdinEvents>::empty(),
    {
        Model { eventstore: eventstore::Model::default() }
    }
}

impl ElmModel for Model {
    type TEvents = StdinEvents;

    /// The event is stored after the ones received before.
    open spec fn updates(&self, event: StdinEvents, next: Self) -> bool {
        next.events_view() == self.events_view().push(event)
    }

    fn update(&mut self, event: StdinEvents) {
        self.eventstore.update(event);
    }
}

/// What a console event projects to: lines whose length in bytes is a multiple of ten,
/// and every other event, project to nothing; other lines of even length to `Bar`, of odd
/// length to `Foo`.
pub open spec fn projection(input: StdinEvents) -> Option<concatview::Events> {
    match input {
        StdinEvents::LineReceived(_, line) => {
            let len = byte_len(line@) as usize;
            if len % 10 == 0 {
                None
            } else if len % 2 == 0 {
                Some(concatview::Events::Bar(line))
            } else {
                Some(concatview::Events::Foo(line))
            }
        },
        _ => None,
    }
}

/// Projects a console event onto the events of the concatenated view.
pub fn parse_stdin(input: StdinEvents) -> (output: Option<concatview::Events>)
    ensures
        output == projection(input),
        input matches StdinEvents::LineReceived(_, line) ==> {
            let n = byte_len(line@) as usize;
            ||| n % 10 == 0 && output is None
            ||| n % 10 != 0 && n % 2 == 0 && output == Some(concatview::Events::Bar(line))
            ||| n % 2 == 1 && output == Some(concatview::Events::Foo(line))
        },
        !(input is LineReceived) ==> output is None,
{
    match input {
        StdinEvents::LineReceived(_, line) => {
            let len = line.as_str().len();
            if len % 10 == 0 {
                None
            } else if len % 2 == 0 {
                Some(concatview::Events::Bar(line))
            } else {
                Some(concatview::Events::Foo(line))
            }
        },
        _ => None,
    }
}

/// A line projects by its length in bytes `n` alone: to nothing when `n` is a multiple of
/// ten, else to `Bar` carrying the line when `n` is even and to `Foo` carrying it when `n`
/// is odd. Every other console event projects to nothing.
pub proof fn lemma_projection_by_length(input: StdinEvents)
    requires
        input matches StdinEvents::LineReceived(_, line) ==> byte_len(line@) <= usize::MAX,
    ensures
        input matches StdinEvents::LineReceived(_, line) ==> {
            let n = byte_len(line@);
            &&& n % 10 == 0 ==> projection(input) is None
            &&& n % 10 != 0 && n % 2 == 0 ==> projection(input) == Some(concatview::Events::Bar(line))
            &&& n % 2 == 1 ==> projection(input) == Some(concatview::Events::Foo(line))
        },
        !(input is LineReceived) ==> projection(input) is None,
{
}

} // verus!
