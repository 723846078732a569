use vstd::prelude::*;

use crate::component::{Actor, ActorState};
use crate::sink::Sink;
use super::StdinCommands;

verus! {

/// The console holds no state of its own.
#[derive(Clone, Debug)]
pub struct State {

}

/// The console: on its unit command it asks the reader to initialize, then to await two
/// lines.
#[derive(Clone, Debug)]
pub struct Config {

}

impl Config {
    pub fn new() -> (config: Self) {
        Config {  }
    }

    /// The commands the console sends on each start, in order.
    pub open spec fn startup() -> Seq<StdinCommands> {
        seq![StdinCommands::Initialize, StdinCommands::Await, StdinCommands::Await]
    }

    /// The commands the console sends on each start, in order.
    pub fn startup_commands(&self) -> (commands: Vec<StdinCommands>)
        ensures
            commands@ == Self::startup(),
    {
        let mut commands: Vec<StdinCommands> = Vec::new();
        commands.push(StdinCommands::Initialize);
        let mut count: i32 = 2;
        loop
            invariant
                0 <= count <= 2,
                commands@ == Self::startup().take(3 - count),
            ensures
                commands@ == Self::startup(),
            decreases count,
        {
            if count <= 0 {
                assert(Self::startup().take(3) =~= Self::startup());
                break ;
            }
            count -= 1;
            commands.push(StdinCommands::Await);
            assert(commands@ =~= Self::startup().take(3 - count));
        }
        commands
    }
}

impl ActorState<Config> for State {
    open spec fn starts_from(config: Config, state: Self) -> bool {
        true
    }

    fn from(_config: &Config) -> (state: Self) {
        State {  }
    }
}

impl Actor for Config {
    type TState = State;

    type TCommands = ();

    type TEvents = StdinCommands;

    type TErrors = ();

    type TResult = ();

    open spec fn reacts(&self, state: State, command: (), next: State, result: ()) -> bool {
        next == state
    }

    /// Sends `startup_commands` to the events sink, in order: each of them is answered
    /// by the events sink.
    fn handle<TEventSink, TErrorSink>(
        &self,
        _state: &mut State,
        _command: (),
        events: &TEventSink,
        _errors: &TErrorSink,
    ) -> (result: ()) where
        TEventSink: Sink<TInput = StdinCommands, TResult = ()>,
        TErrorSink: Sink<TInput = (), TResult = ()>,

        ensures
            forall|i: int| 0 <= i < Self::startup().len() ==> events.yields(#[trigger] Self::startup()[i], ()),
     {
        let mut commands = self.startup_commands();
        let ghost all = commands@;
        while commands.len() > 0
            invariant
                forall|e: StdinCommands| events.accepts(e),
                all == Self::startup(),
                commands@.len() <= all.len(),
                commands@ == all.subrange(all.len() - commands@.len(), all.len() as int),
                forall|i: int| 0 <= i < all.len() - commands@.len() ==> events.yields(#[trigger] all[i], ()),
            decreases commands.len(),
        {
            let ghost before = commands@;
            assert(before[0] == all[all.len() - before.len()]);
            let command = commands.remove(0);
            assert(command == before[0]);
            events.send(command);
            assert(commands@ =~= all.subrange(all.len() - commands@.len(), all.len() as int));
        }
    }
}

} // verus!
