use vstd::prelude::*;

use crate::sink::Sink;
use core::marker::PhantomData;

pub use crate::notices::LoggingEvents;

verus! {

/// What a request to the HTTP server is turned into.
#[derive(Clone, Copy, Debug, PartialEq, Eq)]
pub enum Commands {
    SetValue(u32),
}

/// What the HTTP server hands to its output sink.
#[derive(Debug)]
pub enum ServerEvents<TCommand> {
    CommandReceived(TCommand),
    LogEmitted(LoggingEvents),
}

/// Failures of a running HTTP server.
#[derive(Clone, Debug, PartialEq)]
pub enum ServerErrors {
    /// The output sink refused a command.
    CommandHandler,
    /// The server could not bind to the given address.
    FailedToBind(String),
    /// Answering a request failed; the description of the failure.
    IoError(String),
}

/// Failures of setting up the HTTP server, each with the description of its cause.
#[derive(Clone, Debug, PartialEq)]
pub enum ServerError {
    AddrParseError(String),
    IoError(String),
    PortParseError(String),
    UnexpectedErr(&'static str),
}

/// The count of requests seen and the failures met while answering them.
#[derive(Debug)]
pub struct ServerState {
    count: u32,
    errors: Vec<ServerErrors>,
}

/// The decimal digit `d` as a character.
pub open spec fn digit_char(d: nat) -> char {
    if d == 0 {
        '0'
    } else if d == 1 {
        '1'
    } else if d == 2 {
        '2'
    } else if d == 3 {
        '3'
    } else if d == 4 {
        '4'
    } else if d == 5 {
        '5'
    } else if d == 6 {
        '6'
    } else if d == 7 {
        '7'
    } else if d == 8 {
        '8'
    } else {
        '9'
    }
}

/// The decimal rendering of a number, without sign or leading zeros.
pub open spec fn decimal(n: nat) -> Seq<char>
    decreases n,
{
    if n < 10 {
        seq![digit_char(n)]
    } else {
        decimal(n / 10).push(digit_char(n % 10))
    }
}

/// The number a string of decimal digits reads as, most significant digit first.
pub open spec fn numeral_value(digits: Seq<char>) -> int
    decreases digits.len(),
{
    if digits.len() == 0 {
        0
    } else {
        numeral_value(digits.drop_last()) * 10 + (digits.last() as int - '0' as int)
    }
}

/// The character of digit `d` is the one whose code lies `d` past that of `'0'`.
pub proof fn lemma_digit_char_code(d: nat)
    requires
        d < 10,
    ensures
        digit_char(d) as int == '0' as int + d,
        '0' <= digit_char(d) <= '9',
{
}

/// The decimal rendering is made of digits only and reads back as the number it renders.
pub proof fn lemma_decimal_reads_back(n: nat)
    ensures
        numeral_value(decimal(n)) == n,
        decimal(n).len() >= 1,
        forall|i: int| 0 <= i < decimal(n).len() ==> '0' <= #[trigger] decimal(n)[i] <= '9',
    decreases n,
{
    if n < 10 {
        lemma_digit_char_code(n);
        assert(decimal(n).drop_last() =~= Seq::<char>::empty());
        assert(numeral_value(Seq::<char>::empty()) == 0);
    } else {
        lemma_decimal_reads_back(n / 10);
        lemma_digit_char_code(n % 10);
        assert(decimal(n).drop_last() =~= decimal(n / 10));
        assert(decimal(n).last() == digit_char(n % 10));
        assert(n == (n / 10) * 10 + n % 10);
    }
}

/// The text of one decimal digit.
fn digit_text(d: u32) -> (text: &'static str)
    requires
        d < 10,
    ensures
        text@ == seq![digit_char(d as nat)],
{
    proof {
        reveal_strlit("0");
        reveal_strlit("1");
        reveal_strlit("2");
        reveal_strlit("3");
        reveal_strlit("4");
        reveal_strlit("5");
        reveal_strlit("6");
        reveal_strlit("7");
        reveal_strlit("8");
        reveal_strlit("9");
    }
    match d {
        0 => "0",
        1 => "1",
        2 => "2",
        3 => "3",
        4 => "4",
        5 => "5",
        6 => "6",
        7 => "7",
        8 => "8",
        _ => "9",
    }
}

/// Renders a number in decimal.
fn decimal_text(n: u32) -> (text: String)
    ensures
        text@ == decimal(n as nat),
    decreases n,
{
    if n < 10 {
        let mut text = String::new();
        text.append(digit_text(n));
        assert(text@ =~= decimal(n as nat));
        text
    } else {
        let mut text = decimal_text(n / 10);
        text.append(digit_text(n % 10));
        assert(text@ =~= decimal(n as nat));
        text
    }
}

impl ServerState {
    pub closed spec fn count_view(&self) -> u32 {
        self.count
    }

    pub closed spec fn errors_view(&self) -> Seq<ServerErrors> {
        self.errors@
    }

    /// No request seen, no failure met.
    pub fn new() -> (state: Self)
        ensures
            state.count_view() == 0,
            state.errors_view() == Seq::<ServerErrors>::empty(),
    {
        ServerState { count: 0, errors: Vec::new() }
    }

    pub fn count(&self) -> (count: u32)
        ensures
            count == self.count_view(),
    {
        self.count
    }

    pub fn errors(&self) -> (errors: &[ServerErrors])
        ensures
            errors@ == self.errors_view(),
    {
        self.errors.as_slice()
    }

    /// Records a failure met while answering a request.
    pub fn record(&mut self, error: ServerErrors)
        ensures
            final(self).count_view() == old(self).count_view(),
            final(self).errors_view() == old(self).errors_view().push(error),
    {
        self.errors.push(error);
    }
}

/// The command a request stands for: setting the value to the number of requests seen.
fn parse_request(state: &ServerState) -> (command: Result<Commands, ()>)
    ensures
        command == Ok::<Commands, ()>(Commands::SetValue(state.count_view())),
{
    Ok(Commands::SetValue(state.count))
}

/// An HTTP server reading `TInput` as configuration and handing commands to `TOutput`.
#[verifier::reject_recursive_types(TInput)]
#[verifier::reject_recursive_types(TOutput)]
pub struct Server<TInput, TOutput> {
    _input: PhantomData<TInput>,
    _output: PhantomData<TOutput>,
}

impl<TInput, TOutput> Server<TInput, TOutput> where
    TOutput: Sink<TInput = ServerEvents<Commands>, TResult = Result<u32, ()>>,
 {
    /// Handles one incoming request: counts it, sends `CommandReceived(SetValue(count))`
    /// to `tx`, and answers with the body of the response, the decimal rendering of what
    /// `tx` answered. When `tx` refuses, the failure is recorded and there is no response.
    pub fn next_response(state: &mut ServerState, tx: &TOutput) -> (body: Option<String>)
        requires
            old(state).count_view() < u32::MAX,
            forall|e: ServerEvents<Commands>| tx.accepts(e),
        ensures
            final(state).count_view() == old(state).count_view() + 1,
            ({
                let sent = ServerEvents::CommandReceived(Commands::SetValue(final(state).count_view()));
                let errors_before = old(state).errors_view();
                let errors_after = final(state).errors_view();
                match body {
                    Some(text) => exists|v: u32| #[trigger] tx.yields(sent, Ok(v)) && text@ == decimal(v as nat) && errors_after == errors_before,
                    None => tx.yields(sent, Err(())) && errors_after == errors_before.push(ServerErrors::CommandHandler),
                }
            }),
    {
        state.count = state.count + 1;
        match parse_request(state) {
            Ok(command) => {
                let sent = ServerEvents::CommandReceived(command);
                let ghost g = sent;
                let answer = tx.send(sent);
                assert(tx.yields(g, answer));
                match answer {
                    Ok(value) => {
                        assert(tx.yields(g, Ok(value)));
                        Some(decimal_text(value))
                    },
                    Err(unit) => {
                        assert(answer == Err::<u32, ()>(()));
                        state.errors.push(ServerErrors::CommandHandler);
                        None
                    },
                }
            },
            Err(()) => {
                state.errors.push(ServerErrors::CommandHandler);
                None
            },
        }
    }
}

/// The answer to a command: the value it sets.
pub fn handle_command(command: Commands) -> (result: Result<u32, ()>)
    ensures
        command matches Commands::SetValue(v) && result == Ok::<u32, ()>(v),
{
    match command {
        Commands::SetValue(value) => Ok(value),
    }
}

/// Handles one request of the counting server: the counter moves to the request's
/// number, `SetValue(number)` is sent to `handler`, and the body of the response is
/// rendered from the number and the handler's answer.
pub fn next_request<THandler>(index: &mut u32, handler: &THandler) -> (body: String) where
    THandler: Sink<TInput = Commands, TResult = Result<u32, ()>>,

    requires
        *old(index) < u32::MAX,
        forall|c: Commands| handler.accepts(c),
    ensures
        *final(index) == *old(index) + 1,
        exists|answer: Result<u32, ()>|
            #[trigger] handler.yields(Commands::SetValue(*final(index)), answer) && body@
                == request_body(*final(index), answer),
{
    *index = *index + 1;
    let result = handler.send(Commands::SetValue(*index));
    assert(handler.yields(Commands::SetValue(*index), result));
    request_text(*index, result)
}

/// The `Debug` rendering of a `Result<u32, ()>`.
pub open spec fn result_text(result: Result<u32, ()>) -> Seq<char> {
    match result {
        Ok(v) => seq!['O', 'k', '('] + decimal(v as nat) + seq![')'],
        Err(_) => seq!['E', 'r', 'r', '(', '(', ')', ')'],
    }
}

/// The body answering request number `index` whose command was answered with `result`:
/// `Request Index: [<index>] with result [<result>]`.
pub open spec fn request_body(index: u32, result: Result<u32, ()>) -> Seq<char> {
    "Request Index: ["@ + decimal(index as nat) + "] with result ["@ + result_text(result) + "]"@
}

/// Renders the body answering request number `index`.
pub fn request_text(index: u32, result: Result<u32, ()>) -> (text: String)
    ensures
        text@ == request_body(index, result),
{
    let mut text = String::new();
    text.append("Request Index: [");
    text.append(decimal_text(index).as_str());
    text.append("] with result [");
    match result {
        Ok(v) => {
            text.append("Ok(");
            text.append(decimal_text(v).as_str());
            text.append(")");
        },
        Err(()) => {
            text.append("Err(())");
        },
    }
    text.append("]");
    proof {
        reveal_strlit("Ok(");
        reveal_strlit(")");
        reveal_strlit("Err(())");
    }
    assert(text@ =~= request_body(index, result));
    text
}

} // verus!
