use vstd::prelude::*;

use crate::component::{deliver, delivered, Actor, ActorState, Emission};
use crate::sink::Sink;
use super::{byte_len, line_received, StdinCommands, StdinErrors, StdinEvents};

verus! {

/// A reader that serves a fixed list of lines in place of the console.
#[derive(Clone, Debug)]
pub struct Config {
    values: Vec<String>,
    delay_ms: u32,
}

/// The lines the reader serves for a given source: `foo`, `bar` and `baz`, then the
/// source's own lines, each ending with a newline.
pub open spec fn seeded_line(source: Seq<Seq<char>>, j: int) -> Seq<char> {
    if j == 0 {
        seq!['f', 'o', 'o', '\n']
    } else if j == 1 {
        seq!['b', 'a', 'r', '\n']
    } else if j == 2 {
        seq!['b', 'a', 'z', '\n']
    } else {
        source[j - 3].push('\n')
    }
}

pub open spec fn seeded(source: Seq<Seq<char>>) -> Seq<Seq<char>> {
    Seq::new(source.len() + 3, |j: int| seeded_line(source, j))
}

/// The seeded lines are `foo`, `bar` and `baz`, then each line of the source in the
/// source's order, each ending with a newline.
pub proof fn lemma_seeded_keeps_source_order(source: Seq<Seq<char>>)
    ensures
        seeded(source).len() == source.len() + 3,
        seeded(source)[0] == "foo"@.push('\n'),
        seeded(source)[1] == "bar"@.push('\n'),
        seeded(source)[2] == "baz"@.push('\n'),
        forall|j: int| 0 <= j < source.len() ==> #[trigger] seeded(source)[3 + j] == source[j].push('\n'),
        seeded(source).subrange(3, source.len() + 3int) == source.map_values(
            |line: Seq<char>| line.push('\n'),
        ),
{
    reveal_strlit("foo");
    reveal_strlit("bar");
    reveal_strlit("baz");
    assert(seeded(source)[0] =~= "foo"@.push('\n'));
    assert(seeded(source)[1] =~= "bar"@.push('\n'));
    assert(seeded(source)[2] =~= "baz"@.push('\n'));
    assert(seeded(source).subrange(3, source.len() + 3int) =~= source.map_values(
        |line: Seq<char>| line.push('\n'),
    ));
}

/// The texts of a list of strings.
pub open spec fn texts(strings: Seq<String>) -> Seq<Seq<char>> {
    strings.map_values(|s: String| s@)
}

fn with_newline(text: &str) -> (line: String)
    ensures
        line@ == text@.push('\n'),
{
    let mut line = text.to_owned();
    line.append("\n");
    proof {
        reveal_strlit("\n");
        assert(line@ =~= text@.push('\n'));
    }
    line
}

impl Config {
    /// The lines served, in order.
    pub closed spec fn lines(&self) -> Seq<Seq<char>> {
        texts(self.values@)
    }

    /// The pause, in milliseconds, before each line is served.
    pub closed spec fn delay(&self) -> u32 {
        self.delay_ms
    }

    /// A reader serving `foo`, `bar`, `baz` and then the lines of `source`, each ending
    /// with a newline, after a pause of 10 ms each.
    pub fn new(source: Vec<String>) -> (config: Self)
        ensures
            config.lines() == seeded(texts(source@)),
            config.lines().len() == source@.len() + 3,
            forall|j: int|
                0 <= j < source@.len() ==> #[trigger] config.lines()[3 + j] == source@[j]@.push(
                    '\n',
                ),
            config.delay() == 10,
    {
        let ghost src = texts(source@);
        let mut values: Vec<String> = Vec::new();
        proof {
            reveal_strlit("foo");
            reveal_strlit("bar");
            reveal_strlit("baz");
        }
        values.push(with_newline("foo"));
        values.push(with_newline("bar"));
        values.push(with_newline("baz"));
        let mut i: usize = 0;
        while i < source.len()
            invariant
                i <= source.len(),
                src == texts(source@),
                values.len() == i + 3,
                forall|j: int| 0 <= j < i + 3 ==> #[trigger] values@[j]@ == seeded_line(src, j),
            decreases source.len() - i,
        {
            let line = with_newline(source[i].as_str());
            values.push(line);
            i += 1;
        }
        let config = Config { values, delay_ms: 10 };
        assert(config.lines() =~= seeded(src));
        config
    }

    /// The pause, in milliseconds, before each line is served.
    pub fn delay_ms(&self) -> (delay: u32)
        ensures
            delay == self.delay(),
    {
        self.delay_ms
    }
}

/// The position of the reader in its lines, and whether it was initialized.
#[derive(Clone, Debug)]
pub struct State {
    values: Vec<String>,
    index: usize,
    initialized: bool,
}

impl State {
    pub closed spec fn lines(&self) -> Seq<Seq<char>> {
        texts(self.values@)
    }

    pub closed spec fn position(&self) -> nat {
        self.index as nat
    }

    pub closed spec fn is_initialized(&self) -> bool {
        self.initialized
    }

    /// The next line, if any is left; the position moves past it.
    pub fn next(&mut self) -> (line: Option<String>)
        ensures
            final(self).lines() == old(self).lines(),
            final(self).is_initialized() == old(self).is_initialized(),
            old(self).position() < old(self).lines().len() ==> {
                &&& line matches Some(l) && l@ == old(self).lines()[old(self).position() as int]
                &&& final(self).position() == old(self).position() + 1
            },
            old(self).position() >= old(self).lines().len() ==> {
                &&& line is None
                &&& final(self).position() == old(self).position()
            },
    {
        if self.values.len() <= self.index {
            None
        } else {
            let result = self.values[self.index].clone();
            self.index += 1;
            Some(result)
        }
    }
}

impl ActorState<Config> for State {
    /// All the configured lines, none served yet, not initialized.
    open spec fn starts_from(config: Config, state: Self) -> bool {
        &&& state.lines() == config.lines()
        &&& state.position() == 0
        &&& !state.is_initialized()
    }

    fn from(config: &Config) -> (state: Self) {
        let mut values: Vec<String> = Vec::new();
        let mut i: usize = 0;
        while i < config.values.len()
            invariant
                i <= config.values.len(),
                values.len() == i,
                forall|j: int| 0 <= j < i ==> #[trigger] values@[j] == config.values@[j],
            decreases config.values.len() - i,
        {
            values.push(config.values[i].clone());
            i += 1;
        }
        let state = State { values, index: 0, initialized: false };
        assert(state.lines() =~= config.lines());
        state
    }
}

/// What the reader emits at once for `command`: initializing twice or awaiting before
/// initializing are errors; initializing announces `Initialized`; awaiting announces
/// `Waiting` (the line itself follows after the pause, from `resume`).
pub open spec fn reaction(initialized: bool, command: StdinCommands) -> Seq<
    Emission<StdinEvents, StdinErrors>,
> {
    match (command, initialized) {
        (StdinCommands::Initialize, true) => seq![Emission::Error(StdinErrors::AlreadyInitialized)],
        (StdinCommands::Initialize, false) => seq![Emission::Event(StdinEvents::Initialized)],
        (StdinCommands::Await, false) => seq![Emission::Error(StdinErrors::NotInitialized)],
        (StdinCommands::Await, true) => seq![Emission::Event(StdinEvents::Waiting)],
    }
}

impl Config {
    /// Decides on `command`: updates the state and returns what to emit, in order.
    pub fn react(&self, state: &mut State, command: StdinCommands) -> (emissions: Vec<
        Emission<StdinEvents, StdinErrors>,
    >)
        ensures
            emissions@ == reaction(old(state).is_initialized(), command),
            final(state).is_initialized() == (old(state).is_initialized() || command
                == StdinCommands::Initialize),
            final(state).lines() == old(state).lines(),
            final(state).position() == old(state).position(),
    {
        let mut emissions: Vec<Emission<StdinEvents, StdinErrors>> = Vec::new();
        match (command, state.initialized) {
            (StdinCommands::Initialize, true) => {
                emissions.push(Emission::Error(StdinErrors::AlreadyInitialized));
            },
            (StdinCommands::Initialize, false) => {
                state.initialized = true;
                emissions.push(Emission::Event(StdinEvents::Initialized));
            },
            (StdinCommands::Await, false) => {
                emissions.push(Emission::Error(StdinErrors::NotInitialized));
            },
            (StdinCommands::Await, true) => {
                emissions.push(Emission::Event(StdinEvents::Waiting));
            },
        }
        assert(emissions@ =~= reaction(old(state).is_initialized(), command));
        emissions
    }

    /// Serves the next line, after the pause: sends it to the events sink and answers
    /// `true`, or answers `false` when no line is left (the caller then parks for good).
    pub fn resume<TEventSink>(&self, state: &mut State, events: &TEventSink) -> (served: bool) where
        TEventSink: Sink<TInput = StdinEvents, TResult = ()>,

        requires
            forall|e: StdinEvents| events.accepts(e),
        ensures
            served == (old(state).position() < old(state).lines().len()),
            final(state).position() == old(state).position() + if served {
                1nat
            } else {
                0nat
            },
            final(state).lines() == old(state).lines(),
            final(state).is_initialized() == old(state).is_initialized(),
            served ==> exists|text: String|
                text@ == old(state).lines()[old(state).position() as int] && #[trigger] events.yields(
                    StdinEvents::LineReceived(byte_len(text@) as usize, text),
                    (),
                ),
    {
        match state.next() {
            Some(line) => {
                let ghost text = line;
                let event = line_received(line);
                assert(event == StdinEvents::LineReceived(byte_len(text@) as usize, text));
                events.send(event);
                true
            },
            None => false,
        }
    }
}

impl Actor for Config {
    type TState = State;

    type TCommands = StdinCommands;

    type TEvents = StdinEvents;

    type TErrors = StdinErrors;

    /// `Some(pause)` when a line is due: the caller waits that many milliseconds and then
    /// calls `resume`.
    type TResult = Option<u32>;

    open spec fn reacts(
        &self,
        state: State,
        command: StdinCommands,
        next: State,
        result: Option<u32>,
    ) -> bool {
        &&& next.is_initialized() == (state.is_initialized() || command
            == StdinCommands::Initialize)
        &&& next.lines() == state.lines()
        &&& next.position() == state.position()
        &&& result == if state.is_initialized() && command == StdinCommands::Await {
            Some(self.delay())
        } else {
            None
        }
    }

    /// Emits `reaction` for the command to the sinks, in order.
    fn handle<TEventSink, TErrorSink>(
        &self,
        state: &mut State,
        command: StdinCommands,
        events: &TEventSink,
        errors: &TErrorSink,
    ) -> (result: Option<u32>) where
        TEventSink: Sink<TInput = StdinEvents, TResult = ()>,
        TErrorSink: Sink<TInput = StdinErrors, TResult = ()>,

        ensures
            forall|i: int|
                0 <= i < reaction(old(state).is_initialized(), command).len() ==> delivered(
                    #[trigger] reaction(old(state).is_initialized(), command)[i],
                    *events,
                    *errors,
                ),
     {
        let due = match (&command, state.initialized) {
            (StdinCommands::Await, true) => true,
            _ => false,
        };
        let emissions = self.react(state, command);
        deliver(emissions, events, errors);
        if due {
            Some(self.delay_ms)
        } else {
            None
        }
    }
}

} // verus!
