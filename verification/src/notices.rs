use vstd::prelude::*;

use crate::isink::ISink;

verus! {

/// A message to log, tagged with its severity.
#[derive(Clone, Debug, PartialEq)]
pub enum LoggingEvents {
    Error(String),
    Info(String),
    Warning(String),
}

/// A sink of log messages.
pub trait ILoggingSink: ISink<TInput = LoggingEvents, TResult = ()> {

}

impl<T> ILoggingSink for T where T: ISink<TInput = LoggingEvents, TResult = ()> {

}

} // verus!
