//! Line-oriented console actors: commands, events and errors of a reader of lines, and
//! the actors that drive it.
pub mod console;



use vstd::prelude::*;

verus! {

#[derive(Clone, Debug, PartialEq)]
pub enum StdinCommands {
    Initialize,
    Await,
}

#[derive(Clone, Debug, PartialEq)]
pub enum StdinEvents {
    Initialized,
    Waiting,
    /// A line was read: its length in bytes and its text.
    LineReceived(usize, String),
}

#[derive(Clone, Debug, PartialEq)]
pub enum StdinErrors {
    AlreadyInitialized,
    NotInitialized,
    IoError(String),
}

/// The length in bytes of the UTF-8 encoding of a text.
pub open spec fn byte_len(text: Seq<char>) -> nat {
    vstd::utf8::encode_utf8(text).len()
}

/// The event announcing `line`, with its length in bytes.
pub fn line_received(line: String) -> (event: StdinEvents)
    ensures
        event matches StdinEvents::LineReceived(len, text) && text == line && len as int == byte_len(
            line@,
        ) as usize as int,
{
    let len = line.as_str().len();
    StdinEvents::LineReceived(len, line)
}

} // verus!
pub mod mocklinereader;
pub mod linereader;
