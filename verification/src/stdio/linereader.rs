use vstd::prelude::*;

use crate::component::{deliver, delivered, Actor, ActorState, Emission};
use crate::sink::Sink;
use super::{line_received, StdinCommands, StdinErrors, StdinEvents};

verus! {

/// Whether the console reader has been initialized. The console handle itself is held
/// by whoever reads the lines.
#[derive(Clone, Debug)]
pub struct State {
    initialized: bool,
}

impl State {
    pub closed spec fn is_initialized(&self) -> bool {
        self.initialized
    }

    /// Whether the reader has been initialized.
    pub fn initialized(&self) -> (initialized: bool)
        ensures
            initialized == self.is_initialized(),
    {
        self.initialized
    }
}

/// The console line reader.
#[derive(Clone, Debug)]
pub struct Config {

}

impl Config {
    pub fn new() -> (config: Self) {
        Config {  }
    }
}

impl ActorState<Config> for State {
    /// A reader starts uninitialized.
    open spec fn starts_from(config: Config, state: Self) -> bool {
        !state.is_initialized()
    }

    fn from(_config: &Config) -> (state: Self) {
        State { initialized: false }
    }
}

/// What the reader emits at once for `command`: initializing twice or awaiting before
/// initializing are errors; initializing announces `Initialized`; awaiting announces
/// `Waiting`, after which one line is read from the console.
pub open spec fn reaction(initialized: bool, command: StdinCommands) -> Seq<
    Emission<StdinEvents, StdinErrors>,
> {
    match (command, initialized) {
        (StdinCommands::Initialize, true) => seq![Emission::Error(StdinErrors::AlreadyInitialized)],
        (StdinCommands::Initialize, false) => seq![Emission::Event(StdinEvents::Initialized)],
        (StdinCommands::Await, false) => seq![Emission::Error(StdinErrors::NotInitialized)],
        (StdinCommands::Await, true) => seq![Emission::Event(StdinEvents::Waiting)],
    }
}

impl Config {
    /// Decides on `command`: updates the state and returns what to emit, in order.
    pub fn react(&self, state: &mut State, command: StdinCommands) -> (emissions: Vec<
        Emission<StdinEvents, StdinErrors>,
    >)
        ensures
            emissions@ == reaction(old(state).is_initialized(), command),
            final(state).is_initialized() == (old(state).is_initialized() || command
                == StdinCommands::Initialize),
    {
        let mut emissions: Vec<Emission<StdinEvents, StdinErrors>> = Vec::new();
        if state.initialized {
            match command {
                StdinCommands::Initialize => {
                    emissions.push(Emission::Error(StdinErrors::AlreadyInitialized));
                },
                StdinCommands::Await => {
                    emissions.push(Emission::Event(StdinEvents::Waiting));
                },
            }
        } else {
            match command {
                StdinCommands::Initialize => {
                    state.initialized = true;
                    emissions.push(Emission::Event(StdinEvents::Initialized));
                },
                StdinCommands::Await => {
                    emissions.push(Emission::Error(StdinErrors::NotInitialized));
                },
            }
        }
        assert(emissions@ =~= reaction(old(state).is_initialized(), command));
        emissions
    }

    /// What a read from the console turns into: the line read, or the description of the
    /// failure.
    pub fn read_outcome(&self, read: Result<String, String>) -> (emission: Emission<
        StdinEvents,
        StdinErrors,
    >)
        ensures
            match read {
                Ok(line) => emission matches Emission::Event(StdinEvents::LineReceived(len, text))
                    && text == line && len as int == super::byte_len(line@) as usize as int,
                Err(description) => emission == Emission::<StdinEvents, StdinErrors>::Error(
                    StdinErrors::IoError(description),
                ),
            },
    {
        match read {
            Ok(line) => Emission::Event(line_received(line)),
            Err(description) => Emission::Error(StdinErrors::IoError(description)),
        }
    }

    /// Sends what a read from the console turned into to the events or errors sink.
    pub fn deliver_read<TEventSink, TErrorSink>(
        &self,
        read: Result<String, String>,
        events: &TEventSink,
        errors: &TErrorSink,
    ) where
        TEventSink: Sink<TInput = StdinEvents, TResult = ()>,
        TErrorSink: Sink<TInput = StdinErrors, TResult = ()>,

        requires
            forall|e: StdinEvents| events.accepts(e),
            forall|e: StdinErrors| errors.accepts(e),
        ensures
            match read {
                Ok(line) => events.yields(
                    StdinEvents::LineReceived(super::byte_len(line@) as usize, line),
                    (),
                ),
                Err(description) => errors.yields(StdinErrors::IoError(description), ()),
            },
    {
        match self.read_outcome(read) {
            Emission::Event(e) => events.send(e),
            Emission::Error(e) => errors.send(e),
        }
    }
}

impl Actor for Config {
    type TState = State;

    type TCommands = StdinCommands;

    type TEvents = StdinEvents;

    type TErrors = StdinErrors;

    /// `true` when a line is due: the caller reads one from the console and hands the
    /// outcome to `deliver_read`.
    type TResult = bool;

    open spec fn reacts(&self, state: State, command: StdinCommands, next: State, result: bool) -> bool {
        &&& next.is_initialized() == (state.is_initialized() || command
            == StdinCommands::Initialize)
        &&& result == (state.is_initialized() && command == StdinCommands::Await)
    }

    /// Emits `reaction` for the command to the sinks, in order.
    fn handle<TEventSink, TErrorSink>(
        &self,
        state: &mut State,
        command: StdinCommands,
        events: &TEventSink,
        errors: &TErrorSink,
    ) -> (result: bool) where
        TEventSink: Sink<TInput = StdinEvents, TResult = ()>,
        TErrorSink: Sink<TInput = StdinErrors, TResult = ()>,

        ensures
            forall|i: int|
                0 <= i < reaction(old(state).is_initialized(), command).len() ==> delivered(
                    #[trigger] reaction(old(state).is_initialized(), command)[i],
                    *events,
                    *errors,
                ),
     {
        let due = match (&command, state.initialized) {
            (StdinCommands::Await, true) => true,
            _ => false,
        };
        let emissions = self.react(state, command);
        deliver(emissions, events, errors);
        due
    }
}

} // verus!
