use vstd::prelude::*;

use crate::logging::{Data, LoggingEvents};
use crate::sink::{Dispatcher, Sink};

verus! {

/// The state an actor starts from, built from its configuration.
pub trait ActorState<TConfig>: Sized {
    /// `state` is a state the actor may start from under `config`; by default, any.
    open spec fn starts_from(config: TConfig, state: Self) -> bool {
        true
    }

    fn from(config: &TConfig) -> (state: Self)
        ensures
            Self::starts_from(*config, state),
    ;
}

/// Something an actor hands on: an event or an error.
pub enum Emission<TEvent, TError> {
    Event(TEvent),
    Error(TError),
}

/// An actor: given its state and a command, it updates the state and sends what happened
/// to an events sink and an errors sink.
pub trait Actor {
    type TState;
    type TCommands;
    type TEvents;
    type TErrors;
    type TResult;

    /// `next` and `result` are a state and an answer that `handle` may leave behind for
    /// `command` on `state`; by default, any.
    open spec fn reacts(
        &self,
        state: Self::TState,
        command: Self::TCommands,
        next: Self::TState,
        result: Self::TResult,
    ) -> bool {
        true
    }

    fn handle<TEventSink, TErrorSink>(
        &self,
        state: &mut Self::TState,
        command: Self::TCommands,
        events: &TEventSink,
        errors: &TErrorSink,
    ) -> (result: Self::TResult) where
        TEventSink: Sink<TInput = Self::TEvents, TResult = ()>,
        TErrorSink: Sink<TInput = Self::TErrors, TResult = ()>,

        requires
            forall|e: Self::TEvents| events.accepts(e),
            forall|e: Self::TErrors| errors.accepts(e),
        ensures
            self.reacts(*old(state), command, *final(state), result),
    ;
}

/// The emission was sent to the sink it belongs to, which answered it: an event to the
/// events sink, an error to the errors sink.
pub open spec fn delivered<TEvent, TError, TEventSink, TErrorSink>(
    emission: Emission<TEvent, TError>,
    events: TEventSink,
    errors: TErrorSink,
) -> bool where
    TEventSink: Sink<TInput = TEvent, TResult = ()>,
    TErrorSink: Sink<TInput = TError, TResult = ()>,
 {
    match emission {
        Emission::Event(e) => events.yields(e, ()),
        Emission::Error(e) => errors.yields(e, ()),
    }
}

/// Sends each emission, in order, to the events sink or to the errors sink.
pub fn deliver<TEvent, TError, TEventSink, TErrorSink>(
    emissions: Vec<Emission<TEvent, TError>>,
    events: &TEventSink,
    errors: &TErrorSink,
) where
    TEventSink: Sink<TInput = TEvent, TResult = ()>,
    TErrorSink: Sink<TInput = TError, TResult = ()>,

    requires
        forall|e: TEvent| events.accepts(e),
        forall|e: TError| errors.accepts(e),
    ensures
        forall|i: int|
            0 <= i < emissions@.len() ==> delivered(#[trigger] emissions@[i], *events, *errors),
{
    let ghost all = emissions@;
    let mut pending = emissions;
    while pending.len() > 0
        invariant
            forall|e: TEvent| events.accepts(e),
            forall|e: TError| errors.accepts(e),
            pending@.len() <= all.len(),
            pending@ == all.subrange(all.len() - pending@.len(), all.len() as int),
            forall|i: int|
                0 <= i < all.len() - pending@.len() ==> delivered(#[trigger] all[i], *events, *errors),
        decreases pending.len(),
    {
        let ghost before = pending@;
        assert(before[0] == all[all.len() - before.len()]);
        let emission = pending.remove(0);
        match emission {
            Emission::Event(e) => events.send(e),
            Emission::Error(e) => errors.send(e),
        }
        assert(pending@ =~= all.subrange(all.len() - pending@.len(), all.len() as int));
    }
}

/// Text describing a value, as its `Debug` rendering.
#[verifier::external_body]
fn debug_text<T: core::fmt::Debug>(value: &T) -> String {
    format!("{:?}", value)
}

/// `text` begins with `prefix`.
pub open spec fn has_prefix(text: Seq<char>, prefix: Seq<char>) -> bool {
    prefix.len() <= text.len() && text.subrange(0, prefix.len() as int) == prefix
}

/// A log event from this module: `prefix` followed by the `Debug` rendering of `value`.
fn describe<T: core::fmt::Debug>(prefix: &str, value: &T) -> (text: String)
    ensures
        has_prefix(text@, prefix@),
{
    let mut text = prefix.to_owned();
    let rendered = debug_text(value);
    text.append(rendered.as_str());
    assert(text@.subrange(0, prefix@.len() as int) =~= prefix@);
    text
}

/// The context took a log event of the given level whose text begins with `prefix`.
pub open spec fn logged<TContext: Dispatcher<LoggingEvents>>(
    ctx: TContext,
    level: crate::logging::Level,
    prefix: Seq<char>,
) -> bool {
    exists|event: LoggingEvents|
        #[trigger] Dispatcher::<LoggingEvents>::dispatched(&ctx, event) && event.level_of() == level
            && has_prefix(event.data_of().value_view(), prefix)
}

fn component_data(value: String) -> (data: Data)
    ensures
        data.value_view() == value@,
{
    Data::new("sink::component".to_owned(), value)
}

/// A system bound to the context that receives what it does.
pub struct System<TContext, TSystem> {
    context: TContext,
    system: TSystem,
}

impl<TContext, TSystem> System<TContext, TSystem> {
    pub closed spec fn context_view(&self) -> TContext {
        self.context
    }

    pub closed spec fn system_view(&self) -> TSystem {
        self.system
    }

    pub fn new(context: TContext, system: TSystem) -> (s: Self)
        ensures
            s.context_view() == context,
            s.system_view() == system,
    {
        System { context, system }
    }

    pub fn context(&self) -> (context: &TContext)
        ensures
            *context == self.context_view(),
    {
        &self.context
    }

    pub fn system(&self) -> (system: &TSystem)
        ensures
            *system == self.system_view(),
    {
        &self.system
    }
}

/// Binds a context to a system started from its default.
pub trait SystemDef<TContext, TSystem> {
    fn bind(ctx: TContext) -> (s: System<TContext, TSystem>);
}

impl<TContext, TSystem> SystemDef<TContext, TSystem> for TSystem where TSystem: Default {
    /// The context given, with the default system.
    fn bind(ctx: TContext) -> (s: System<TContext, TSystem>)
        ensures
            s.context_view() == ctx,
            call_ensures(TSystem::default, (), s.system_view()),
    {
        System::new(ctx, TSystem::default())
    }
}

/// A bound system forwards each command to the inner system. It traces the command, then
/// either logs and dispatches the event the inner system answered with, or logs and
/// dispatches its error.
impl<TContext, TSystem, TCommands, TEvents, TErrors> Sink for System<TContext, TSystem> where
    TCommands: core::fmt::Debug,
    TEvents: core::fmt::Debug,
    TErrors: core::fmt::Debug,
    TContext: Dispatcher<LoggingEvents> + Dispatcher<TEvents> + Dispatcher<TErrors>,
    TSystem: Sink<TInput = TCommands, TResult = Result<TEvents, TErrors>>,
 {
    type TInput = TCommands;

    type TResult = ();

    /// The inner system accepts the command, and the context takes every log event,
    /// event and error.
    open spec fn accepts(&self, input: TCommands) -> bool {
        &&& self.system_view().accepts(input)
        &&& forall|l: LoggingEvents|
            #[trigger] Dispatcher::<LoggingEvents>::dispatch_accepts(&self.context_view(), l)
        &&& forall|e: TEvents| #[trigger]
            Dispatcher::<TEvents>::dispatch_accepts(&self.context_view(), e)
        &&& forall|e: TErrors| #[trigger]
            Dispatcher::<TErrors>::dispatch_accepts(&self.context_view(), e)
    }

    /// The context took a trace of the command; the inner system answered it, and the
    /// context took the event and a warning about it, or the error and an error log.
    open spec fn yields(&self, input: TCommands, result: ()) -> bool {
        let ctx = self.context_view();
        &&& logged(ctx, crate::logging::Level::Trace, "Command: "@)
        &&& exists|answer: Result<TEvents, TErrors>|
            #[trigger] self.system_view().yields(input, answer) && match answer {
                Ok(event) => Dispatcher::<TEvents>::dispatched(&ctx, event) && logged(
                    ctx,
                    crate::logging::Level::Warn,
                    "Event: "@,
                ),
                Err(error) => Dispatcher::<TErrors>::dispatched(&ctx, error) && logged(
                    ctx,
                    crate::logging::Level::Error,
                    "Error: "@,
                ),
            }
    }

    fn send(&self, input: TCommands) -> (result: ()) {
        let ctx = self.context();
        let system = self.system();
        let traced = LoggingEvents::Trace(component_data(describe("Command: ", &input)));
        assert(Dispatcher::<LoggingEvents>::dispatch_accepts(ctx, traced));
        let ghost traced_view = traced;
        Dispatcher::<LoggingEvents>::dispatch(ctx, traced);
        assert(Dispatcher::<LoggingEvents>::dispatched(ctx, traced_view));
        let ghost command = input;
        let answer = system.send(input);
        assert(system.yields(command, answer));
        match answer {
            Ok(event) => {
                let warned = LoggingEvents::Warning(component_data(describe("Event: ", &event)));
                assert(Dispatcher::<LoggingEvents>::dispatch_accepts(ctx, warned));
                let ghost warned_view = warned;
                Dispatcher::<LoggingEvents>::dispatch(ctx, warned);
                assert(Dispatcher::<LoggingEvents>::dispatched(ctx, warned_view));
                assert(Dispatcher::<TEvents>::dispatch_accepts(ctx, event));
                Dispatcher::<TEvents>::dispatch(ctx, event);
            },
            Err(err) => {
                let errored = LoggingEvents::Error(component_data(describe("Error: ", &err)));
                assert(Dispatcher::<LoggingEvents>::dispatch_accepts(ctx, errored));
                let ghost errored_view = errored;
                Dispatcher::<LoggingEvents>::dispatch(ctx, errored);
                assert(Dispatcher::<LoggingEvents>::dispatched(ctx, errored_view));
                assert(Dispatcher::<TErrors>::dispatch_accepts(ctx, err));
                Dispatcher::<TErrors>::dispatch(ctx, err);
            },
        }
    }
}

} // verus!
