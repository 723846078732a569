use vstd::prelude::*;

use crate::sink::Initializable;

verus! {

/// The commands a TCP listener component takes, without their payloads.
#[derive(Clone, Copy, Debug, PartialEq, Eq)]
pub enum CommandKind {
    /// Blocks until a connection arrives.
    Accept,
    /// Binds the listener to addresses if it is not already bound.
    BindAddresses,
    /// Makes a clone of the listener.
    CloneListener,
    /// Changes the blocking model of the listener.
    SetNonBlocking(bool),
    /// Sets the time-to-live of every packet sent from the socket.
    SetTtl(u32),
}

/// The events of a TCP listener component, without the handles they carry.
#[derive(Clone, Copy, Debug, PartialEq, Eq)]
pub enum EventKind {
    ConnectionEstablished,
    ListenerCloned,
    NonBlockingSet(bool),
    SocketBound,
    TtlSet(u32),
}

/// Why a command is refused before any work is tried.
#[derive(Clone, Debug, PartialEq, Eq)]
pub enum Refusal {
    SocketAlreadyBound,
    SocketNotBound,
    /// The bound listener reported a pending error since the previous call; its
    /// description.
    SocketError(String),
}

/// A stored snapshot of a bound listener.
#[derive(Clone, Copy, Debug, PartialEq, Eq)]
pub struct State {
    pub blocking: bool,
    pub ttl: Option<u32>,
}

/// What a TCP listener component knows of its listener: whether it is bound, whether it
/// blocks, and its time-to-live once known.
#[derive(Clone, Copy, Debug, PartialEq, Eq)]
pub struct Component {
    blocking: bool,
    bound: bool,
    ttl: Option<u32>,
}

impl Component {
    pub closed spec fn is_blocking(&self) -> bool {
        self.blocking
    }

    pub closed spec fn is_bound(&self) -> bool {
        self.bound
    }

    pub closed spec fn ttl_view(&self) -> Option<u32> {
        self.ttl
    }

    /// Whether a command may be carried out: binding only while unbound; everything else
    /// only once bound, and only when the listener reported no pending error since the
    /// previous call (`pending_error` holds the description of such an error).
    pub open spec fn admits(&self, command: CommandKind, pending_error: Option<String>) -> Result<(), Refusal> {
        match command {
            CommandKind::BindAddresses => if self.is_bound() {
                Err(Refusal::SocketAlreadyBound)
            } else {
                Ok(())
            },
            _ => if !self.is_bound() {
                Err(Refusal::SocketNotBound)
            } else {
                match pending_error {
                    Some(description) => Err(Refusal::SocketError(description)),
                    None => Ok(()),
                }
            },
        }
    }

    pub fn blocking(&self) -> (blocking: bool)
        ensures
            blocking == self.is_blocking(),
    {
        self.blocking
    }

    pub fn bound(&self) -> (bound: bool)
        ensures
            bound == self.is_bound(),
    {
        self.bound
    }

    pub fn ttl(&self) -> (ttl: Option<u32>)
        ensures
            ttl == self.ttl_view(),
    {
        self.ttl
    }

    /// Decides whether `command` may be carried out on the listener as it stands, given
    /// the pending error the listener reported since the previous call, if any.
    pub fn check_command(&self, command: CommandKind, pending_error: Option<String>) -> (admitted: Result<(), Refusal>)
        ensures
            admitted == self.admits(command, pending_error),
    {
        match command {
            CommandKind::BindAddresses => {
                if self.bound {
                    Err(Refusal::SocketAlreadyBound)
                } else {
                    Ok(())
                }
            },
            _ => {
                if !self.bound {
                    Err(Refusal::SocketNotBound)
                } else {
                    match pending_error {
                        Some(description) => Err(Refusal::SocketError(description)),
                        None => Ok(()),
                    }
                }
            },
        }
    }

    /// Records what an event says of the listener: binding binds it, the blocking model
    /// and the time-to-live take the values set; connections and clones change nothing.
    pub fn update(&mut self, event: EventKind)
        ensures
            final(self).is_bound() == (old(self).is_bound() || event == EventKind::SocketBound),
            final(self).is_blocking() == match event {
                EventKind::NonBlockingSet(value) => value,
                _ => old(self).is_blocking(),
            },
            final(self).ttl_view() == match event {
                EventKind::TtlSet(ttl) => Some(ttl),
                _ => old(self).ttl_view(),
            },
    {
        match event {
            EventKind::SocketBound => self.bound = true,
            EventKind::ConnectionEstablished => {},
            EventKind::ListenerCloned => {},
            EventKind::NonBlockingSet(value) => self.blocking = value,
            EventKind::TtlSet(ttl) => self.ttl = Some(ttl),
        }
    }
}

impl Default for Component {
    /// An unbound, blocking listener with no time-to-live known.
    fn default() -> (component: Self)
        ensures
            component.is_blocking(),
            !component.is_bound(),
            component.ttl_view() is None,
    {
        Component { blocking: true, bound: false, ttl: None }
    }
}

impl Initializable for Component {
    type TState = State;

    /// A stored listener is bound, with the blocking model and time-to-live stored.
    open spec fn state_applied(before: Self, state: State, after: Self) -> bool {
        &&& after.is_bound()
        &&& after.is_blocking() == state.blocking
        &&& after.ttl_view() == state.ttl
    }

    fn apply_state(&mut self, state: State) {
        self.blocking = state.blocking;
        self.bound = true;
        self.ttl = state.ttl;
    }
}

/// Whether reading a request head is over: the last read returned exactly the two bytes
/// of an empty line, so the buffer ends with a carriage return and a line feed.
pub fn header_terminated(read_bytes: usize, buffer: &[u8]) -> (done: bool)
    requires
        read_bytes <= buffer@.len(),
    ensures
        done == (read_bytes == 2 && buffer@[buffer@.len() - 2] == 13u8 && buffer@[buffer@.len()
            - 1] == 10u8),
{
    if read_bytes == 2 {
        let len = buffer.len();
        buffer[len - 2] == 13u8 && buffer[len - 1] == 10u8
    } else {
        false
    }
}

/// A listener that was never bound admits only binding; a bound one refuses binding, and
/// admits every other command exactly when no error is pending.
pub proof fn lemma_binding_switches_admission(c: Component, command: CommandKind, pending_error: Option<String>)
    ensures
        !c.is_bound() ==> (c.admits(command, pending_error) is Ok <==> command == CommandKind::BindAddresses),
        c.is_bound() ==> (c.admits(command, pending_error) is Ok <==> (command != CommandKind::BindAddresses
            && pending_error is None)),
        c.is_bound() && command != CommandKind::BindAddresses ==> (pending_error matches Some(d)
            ==> c.admits(command, pending_error) == Err::<(), Refusal>(Refusal::SocketError(d))),
{
}

} // verus!
