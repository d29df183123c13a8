//! A TCP connection attempt with a bounded wait, as a state machine.
//!
//! The attempt never touches a socket itself. It tells its driver which
//! system call to make next ([`Action`]) and is told what the call answered
//! ([`Event`]). The driver makes exactly the calls it is told to make, in
//! order, until the attempt hands over the descriptor or reports an error.

use vstd::prelude::*;
use vstd::string::StringExecFns;
use crate::pool::timeout::{Timeout, TimeVal};
use crate::text::{decimal_text, format_decimal};

verus! {

/// A numeric IPv4 address and a port.
#[derive(Clone, Copy, Debug, PartialEq, Eq)]
pub struct TargetAddress {
    pub octets: [u8; 4],
    pub port: u16,
}

/// Why an attempt produced no connection.
#[derive(Clone, Copy, Debug, PartialEq, Eq, Structural)]
pub enum ConnectionError {
    /// A system call failed for a reason that has nothing to do with the peer;
    /// the value is the raw OS error code.
    OsError(i32),
    /// The connection was answered and failed (refused, unreachable, reset);
    /// the value is the socket's pending error code.
    SocketError(i32),
    /// The timeout passed with no answer.
    ReadinessTimeout,
}

/// The system call that the driver is to make next, or the end of the attempt.
#[derive(Clone, Copy, Debug, PartialEq, Eq)]
pub enum Action {
    /// Create a stream socket for IPv4.
    OpenSocket,
    /// Switch the descriptor to non-blocking mode.
    SetNonBlocking(i32),
    /// Ask for a connection to the address on the descriptor.
    Connect(i32, TargetAddress),
    /// Wait until the descriptor, and no other, is writable or the wait is over.
    WaitWritable(i32, TimeVal),
    /// Read the pending error of the socket.
    ReadPendingError(i32),
    /// Switch the descriptor back to blocking mode.
    SetBlocking(i32),
    /// Close the descriptor.
    Close(i32),
    /// The connection stands: the descriptor now belongs to the caller.
    HandOver(i32),
    /// The attempt is over and left nothing open: report the error.
    Fail(ConnectionError),
}

/// What the system call of the last [`Action`] answered.
#[derive(Clone, Copy, Debug, PartialEq, Eq, Structural)]
pub enum Event {
    /// The socket was created; the value is its descriptor.
    Opened(i32),
    /// The call succeeded and has nothing to tell.
    Done,
    /// The connection request was accepted and is still under way.
    InProgress,
    /// The wait ended; the value is the number of descriptors found ready.
    /// Only one descriptor is waited for, so 1 says that it is ready. Were
    /// more of them waited for, the number would not say which is ready.
    Ready(i32),
    /// The pending error of the socket was read; zero means none.
    PendingError(i32),
    /// The call failed; the value is the raw OS error code.
    Failed(i32),
}

/// Where an attempt stands. Every state but the last three holds the
/// descriptor it names and waits for the answer to one call.
#[derive(Clone, Copy, Debug, PartialEq, Eq, Structural)]
pub enum State {
    /// No descriptor yet; the socket is being created.
    Opening,
    /// The descriptor exists; it is being switched to non-blocking mode.
    Created(i32),
    /// The descriptor is non-blocking; the connection request is being made.
    Connecting(i32),
    /// The request is under way; the driver waits for the descriptor.
    Waiting(i32),
    /// The request was answered; the pending error is being read.
    Checking(i32),
    /// The connection stands; the descriptor is being switched back.
    Restoring(i32),
    /// The attempt has failed with the error; the descriptor is being closed.
    Closing(i32, ConnectionError),
    /// Done: the descriptor was handed over in blocking mode.
    Ready,
    /// Done: the timeout passed, and the descriptor was closed.
    TimedOut,
    /// Done: the attempt failed, and no descriptor is left open.
    Failed(ConnectionError),
}

/// One attempt to connect to `target` within `timeout`.
#[derive(Clone, Copy, Debug)]
pub struct ConnectionAttempt {
    pub target: TargetAddress,
    pub timeout: Timeout,
    pub state: State,
}

impl ConnectionError {
    /// The raw OS code that the error carries, if it carries one.
    pub open spec fn code(self) -> Option<i32> {
        match self {
            ConnectionError::OsError(code) => Some(code),
            ConnectionError::SocketError(code) => Some(code),
            ConnectionError::ReadinessTimeout => None,
        }
    }

    /// The raw OS code that the error carries, if it carries one.
    pub fn raw_os_code(&self) -> (code: Option<i32>)
        ensures
            code == self.code(),
    {
        match self {
            ConnectionError::OsError(code) => Some(*code),
            ConnectionError::SocketError(code) => Some(*code),
            ConnectionError::ReadinessTimeout => None,
        }
    }

    /// The kind of the error in a few words.
    pub open spec fn kind_text(self) -> Seq<char> {
        match self {
            ConnectionError::OsError(_) => "an OS error"@,
            ConnectionError::SocketError(_) => "socket error"@,
            ConnectionError::ReadinessTimeout => "select error"@,
        }
    }

    /// The error as a line of text: its kind, then the code in base ten
    /// where it carries one.
    pub open spec fn text(self) -> Seq<char> {
        match self {
            ConnectionError::OsError(code) => "OS error: "@ + decimal_text(code as int),
            ConnectionError::SocketError(code) => "Socket error: "@ + decimal_text(code as int),
            ConnectionError::ReadinessTimeout => "Select error"@,
        }
    }

    /// The kind of the error in a few words.
    pub fn description(&self) -> (r: &'static str)
        ensures
            r@ == self.kind_text(),
    {
        match self {
            ConnectionError::OsError(_) => "an OS error",
            ConnectionError::SocketError(_) => "socket error",
            ConnectionError::ReadinessTimeout => "select error",
        }
    }

    /// The error as a line of text.
    pub fn message(&self) -> (r: String)
        ensures
            r@ == self.text(),
    {
        match self {
            ConnectionError::OsError(code) => {
                let mut r = String::from_str("OS error: ");
                r.append(format_decimal(*code).as_str());
                r
            },
            ConnectionError::SocketError(code) => {
                let mut r = String::from_str("Socket error: ");
                r.append(format_decimal(*code).as_str());
                r
            },
            ConnectionError::ReadinessTimeout => String::from_str("Select error"),
        }
    }
}

impl State {
    /// The descriptor that the attempt is answerable for in this state.
    pub open spec fn descriptor(self) -> Option<i32> {
        match self {
            State::Created(fd) => Some(fd),
            State::Connecting(fd) => Some(fd),
            State::Waiting(fd) => Some(fd),
            State::Checking(fd) => Some(fd),
            State::Restoring(fd) => Some(fd),
            State::Closing(fd, _) => Some(fd),
            _ => None,
        }
    }

    /// The attempt is over: no further event is taken.
    pub open spec fn finished(self) -> bool {
        self is Ready || self is TimedOut || self is Failed
    }

    /// How the attempt ended, once it is over.
    pub open spec fn outcome(self) -> Option<Result<(), ConnectionError>> {
        match self {
            State::Ready => Some(Ok(())),
            State::TimedOut => Some(Err(ConnectionError::ReadinessTimeout)),
            State::Failed(error) => Some(Err(error)),
            _ => None,
        }
    }

    /// The final state that reports `error`.
    pub open spec fn ended_with(error: ConnectionError) -> State {
        if error is ReadinessTimeout {
            State::TimedOut
        } else {
            State::Failed(error)
        }
    }

    /// A timeout is always recorded as `TimedOut`, never as `Failed`.
    pub open spec fn wf(self) -> bool {
        self matches State::Failed(error) ==> !(error is ReadinessTimeout)
    }
}

impl ConnectionAttempt {
    /// The attempt before anything has happened.
    pub open spec fn initial(target: TargetAddress, timeout: Timeout) -> ConnectionAttempt {
        ConnectionAttempt { target, timeout, state: State::Opening }
    }

    /// The same attempt in another state.
    pub open spec fn moved_to(self, state: State) -> ConnectionAttempt {
        ConnectionAttempt { state, ..self }
    }

    /// The error that `event` means in the current state, if it means one:
    /// a failed call, a wait that did not find exactly the one descriptor
    /// ready, or a pending error other than zero.
    pub open spec fn failure(self, event: Event) -> Option<ConnectionError> {
        match (self.state, event) {
            (State::Waiting(_), Event::Ready(count)) if count != 1 => Some(
                ConnectionError::ReadinessTimeout,
            ),
            (State::Checking(_), Event::PendingError(code)) if code != 0 => Some(
                ConnectionError::SocketError(code),
            ),
            (_, Event::Failed(code)) => Some(ConnectionError::OsError(code)),
            _ => None,
        }
    }

    /// The state and the action that follow when the call succeeded: each
    /// state takes the answers of its own call and no others.
    pub open spec fn advance(self, event: Event) -> Option<(ConnectionAttempt, Action)> {
        match (self.state, event) {
            (State::Opening, Event::Opened(fd)) => Some(
                (self.moved_to(State::Created(fd)), Action::SetNonBlocking(fd)),
            ),
            (State::Created(fd), Event::Done) => Some(
                (self.moved_to(State::Connecting(fd)), Action::Connect(fd, self.target)),
            ),
            (State::Connecting(fd), Event::Done) => Some(
                (self.moved_to(State::Checking(fd)), Action::ReadPendingError(fd)),
            ),
            (State::Connecting(fd), Event::InProgress) => Some(
                (
                    self.moved_to(State::Waiting(fd)),
                    Action::WaitWritable(fd, self.timeout.timeval()),
                ),
            ),
            (State::Waiting(fd), Event::Ready(count)) if count == 1 => Some(
                (self.moved_to(State::Checking(fd)), Action::ReadPendingError(fd)),
            ),
            (State::Checking(fd), Event::PendingError(code)) if code == 0 => Some(
                (self.moved_to(State::Restoring(fd)), Action::SetBlocking(fd)),
            ),
            (State::Restoring(fd), Event::Done) => Some(
                (self.moved_to(State::Ready), Action::HandOver(fd)),
            ),
            _ => None,
        }
    }

    /// The state and the action that follow `event`, or `None` where the event
    /// cannot be the answer to the call that the state waits for.
    ///
    /// A failure closes the descriptor first, if there is one, and is reported
    /// only when the close has been answered; how the close went changes
    /// nothing.
    pub open spec fn next(self, event: Event) -> Option<(ConnectionAttempt, Action)> {
        match self.state {
            State::Ready | State::TimedOut | State::Failed(_) => None,
            State::Closing(_, error) => match event {
                Event::Done | Event::Failed(_) => Some(
                    (self.moved_to(State::ended_with(error)), Action::Fail(error)),
                ),
                _ => None,
            },
            _ => match self.failure(event) {
                Some(error) => match self.state.descriptor() {
                    Some(fd) => Some((self.moved_to(State::Closing(fd, error)), Action::Close(fd))),
                    None => Some((self.moved_to(State::ended_with(error)), Action::Fail(error))),
                },
                None => self.advance(event),
            },
        }
    }

    /// Begins an attempt: the first call to make is the creation of the socket.
    pub fn start(target: TargetAddress, timeout: Timeout) -> (r: (ConnectionAttempt, Action))
        ensures
            r.0 == ConnectionAttempt::initial(target, timeout),
            r.0.state.wf(),
            r.1 == Action::OpenSocket,
    {
        (ConnectionAttempt { target, timeout, state: State::Opening }, Action::OpenSocket)
    }

    /// Whether the attempt is over.
    pub fn is_finished(&self) -> (done: bool)
        ensures
            done == self.state.finished(),
    {
        match self.state {
            State::Ready | State::TimedOut | State::Failed(_) => true,
            _ => false,
        }
    }

    /// How the attempt ended, or `None` while it is under way.
    pub fn outcome(&self) -> (r: Option<Result<(), ConnectionError>>)
        ensures
            r == self.state.outcome(),
    {
        match self.state {
            State::Ready => Some(Ok(())),
            State::TimedOut => Some(Err(ConnectionError::ReadinessTimeout)),
            State::Failed(error) => Some(Err(error)),
            _ => None,
        }
    }

    /// Whether `event` can be the answer to the call that the attempt waits for.
    pub fn expects(&self, event: &Event) -> (yes: bool)
        ensures
            yes == self.next(*event).is_some(),
    {
        match (self.state, *event) {
            (State::Opening, Event::Opened(_)) => true,
            (State::Created(_), Event::Done) => true,
            (State::Connecting(_), Event::Done) => true,
            (State::Connecting(_), Event::InProgress) => true,
            (State::Waiting(_), Event::Ready(_)) => true,
            (State::Checking(_), Event::PendingError(_)) => true,
            (State::Restoring(_), Event::Done) => true,
            (State::Closing(_, _), Event::Done) => true,
            (State::Ready, _) => false,
            (State::TimedOut, _) => false,
            (State::Failed(_), _) => false,
            (_, Event::Failed(_)) => true,
            _ => false,
        }
    }

    /// Takes the answer to the last call and says which call to make next.
    ///
    /// Returns `None`, and means nothing by it, exactly where `event` cannot be
    /// the answer to the call that the attempt waits for; an attempt that is
    /// over takes no event at all.
    pub fn step(self, event: Event) -> (r: Option<(ConnectionAttempt, Action)>)
        ensures
            r == self.next(event),
            r matches Some((after, _)) ==> (self.state.wf() ==> after.state.wf()),
    {
        let state = match self.state {
            State::Ready | State::TimedOut | State::Failed(_) => {
                return None;
            },
            State::Closing(_, error) => {
                return match event {
                    Event::Done | Event::Failed(_) => Some((self.end(error), Action::Fail(error))),
                    _ => None,
                };
            },
            state => state,
        };
        let failure = match (state, event) {
            (State::Waiting(_), Event::Ready(count)) => if count != 1 {
                Some(ConnectionError::ReadinessTimeout)
            } else {
                None
            },
            (State::Checking(_), Event::PendingError(code)) => if code != 0 {
                Some(ConnectionError::SocketError(code))
            } else {
                None
            },
            (_, Event::Failed(code)) => Some(ConnectionError::OsError(code)),
            _ => None,
        };
        if let Some(error) = failure {
            return match state {
                State::Opening => Some((self.end(error), Action::Fail(error))),
                State::Created(fd)
                | State::Connecting(fd)
                | State::Waiting(fd)
                | State::Checking(fd)
                | State::Restoring(fd) => Some(
                    (self.go(State::Closing(fd, error)), Action::Close(fd)),
                ),
                _ => None,
            };
        }
        match (state, event) {
            (State::Opening, Event::Opened(fd)) => Some(
                (self.go(State::Created(fd)), Action::SetNonBlocking(fd)),
            ),
            (State::Created(fd), Event::Done) => Some(
                (self.go(State::Connecting(fd)), Action::Connect(fd, self.target)),
            ),
            (State::Connecting(fd), Event::Done) => Some(
                (self.go(State::Checking(fd)), Action::ReadPendingError(fd)),
            ),
            (State::Connecting(fd), Event::InProgress) => Some(
                (self.go(State::Waiting(fd)), Action::WaitWritable(fd, self.timeout.to_timeval())),
            ),
            (State::Waiting(fd), Event::Ready(_)) => Some(
                (self.go(State::Checking(fd)), Action::ReadPendingError(fd)),
            ),
            (State::Checking(fd), Event::PendingError(_)) => Some(
                (self.go(State::Restoring(fd)), Action::SetBlocking(fd)),
            ),
            (State::Restoring(fd), Event::Done) => Some(
                (self.go(State::Ready), Action::HandOver(fd)),
            ),
            _ => None,
        }
    }

    fn go(self, state: State) -> (r: ConnectionAttempt)
        ensures
            r == self.moved_to(state),
    {
        ConnectionAttempt { target: self.target, timeout: self.timeout, state }
    }

    fn end(self, error: ConnectionError) -> (r: ConnectionAttempt)
        ensures
            r == self.moved_to(State::ended_with(error)),
    {
        match error {
            ConnectionError::ReadinessTimeout => self.go(State::TimedOut),
            _ => self.go(State::Failed(error)),
        }
    }
}

} // verus!
