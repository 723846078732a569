use vstd::prelude::*;

use crate::sink::Sink;

verus! {

/// A log record: where it comes from and what it says.
#[derive(Clone, Debug)]
pub struct Data {
    target: String,
    value: String,
    module: Option<String>,
    file: Option<String>,
    line: Option<u32>,
}

impl Data {
    pub closed spec fn target_view(&self) -> Seq<char> {
        self.target@
    }

    pub closed spec fn value_view(&self) -> Seq<char> {
        self.value@
    }

    pub closed spec fn module_view(&self) -> Option<Seq<char>> {
        match self.module {
            Some(p) => Some(p@),
            None => None,
        }
    }

    pub closed spec fn file_view(&self) -> Option<Seq<char>> {
        match self.file {
            Some(f) => Some(f@),
            None => None,
        }
    }

    pub closed spec fn line_view(&self) -> Option<u32> {
        self.line
    }

    /// A record with every location field present.
    pub fn full(target: String, value: String, module: String, file: String, line: u32) -> (data: Self)
        ensures
            data.target_view() == target@,
            data.value_view() == value@,
            data.module_view() == Some(module@),
            data.file_view() == Some(file@),
            data.line_view() == Some(line),
    {
        Data { target, value, module: Some(module), file: Some(file), line: Some(line) }
    }

    /// A record that names its target and module but no file or line.
    pub fn new(target: String, value: String) -> (data: Self)
        ensures
            data.target_view() == target@,
            data.value_view() == value@,
            data.module_view() == Some(target@),
            data.file_view() is None,
            data.line_view() is None,
    {
        let module = target.clone();
        Data { target, value, module: Some(module), file: None, line: None }
    }

    pub fn target(&self) -> (target: &str)
        ensures
            target@ == self.target_view(),
    {
        self.target.as_str()
    }

    pub fn value(&self) -> (value: &str)
        ensures
            value@ == self.value_view(),
    {
        self.value.as_str()
    }

    pub fn module(&self) -> (module: Option<&str>)
        ensures
            match module {
                Some(p) => self.module_view() == Some(p@),
                None => self.module_view() is None,
            },
    {
        match &self.module {
            Some(p) => Some(p.as_str()),
            None => None,
        }
    }

    pub fn file(&self) -> (file: Option<&str>)
        ensures
            match file {
                Some(f) => self.file_view() == Some(f@),
                None => self.file_view() is None,
            },
    {
        match &self.file {
            Some(f) => Some(f.as_str()),
            None => None,
        }
    }

    pub fn line(&self) -> (line: Option<u32>)
        ensures
            line == self.line_view(),
    {
        self.line
    }
}

/// The severity a record is logged with.
#[derive(Clone, Copy, Debug, PartialEq, Eq)]
pub enum Level {
    Error,
    Warn,
    Info,
    Debug,
    Trace,
}

/// A log record tagged with its severity.
#[derive(Clone, Debug)]
pub enum LoggingEvents {
    Debug(Data),
    Error(Data),
    Info(Data),
    Trace(Data),
    Warning(Data),
}

impl LoggingEvents {
    /// The severity of each variant; `Warning` is logged at `Warn`.
    pub open spec fn level_of(&self) -> Level {
        match self {
            LoggingEvents::Debug(_) => Level::Debug,
            LoggingEvents::Error(_) => Level::Error,
            LoggingEvents::Info(_) => Level::Info,
            LoggingEvents::Trace(_) => Level::Trace,
            LoggingEvents::Warning(_) => Level::Warn,
        }
    }

    /// The record carried by every variant.
    pub open spec fn data_of(&self) -> Data {
        match self {
            LoggingEvents::Debug(d) => *d,
            LoggingEvents::Error(d) => *d,
            LoggingEvents::Info(d) => *d,
            LoggingEvents::Trace(d) => *d,
            LoggingEvents::Warning(d) => *d,
        }
    }

    /// The level and the record that logging this event emits.
    pub fn record(&self) -> (record: (Level, &Data))
        ensures
            record.0 == self.level_of(),
            *record.1 == self.data_of(),
    {
        match self {
            LoggingEvents::Debug(data) => (Level::Debug, data),
            LoggingEvents::Info(data) => (Level::Info, data),
            LoggingEvents::Error(data) => (Level::Error, data),
            LoggingEvents::Trace(data) => (Level::Trace, data),
            LoggingEvents::Warning(data) => (Level::Warn, data),
        }
    }
}

/// A sink of log events.
pub trait LoggingSink: Sink<TInput = LoggingEvents, TResult = ()> {

}

impl<T> LoggingSink for T where T: Sink<TInput = LoggingEvents, TResult = ()> {

}

} // verus!
