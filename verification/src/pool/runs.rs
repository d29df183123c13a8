//! What holds of every run of a connection attempt.
//!
//! A run is an attempt from its beginning together with the events it was
//! given. The statements here speak of all runs at once: that a run ends,
//! which error it reports, which descriptors it leaves open, in which mode
//! it hands a descriptor over, and how long it waits.

use vstd::prelude::*;
use crate::pool::conntest::{Action, ConnectionAttempt, ConnectionError, Event, State, TargetAddress};
use crate::pool::timeout::{TimeVal, Timeout};

verus! {

impl ConnectionAttempt {
    /// The attempt after it has taken `events` in order, or `None` where one
    /// of them was not an answer it expected.
    pub open spec fn after(self, events: Seq<Event>) -> Option<ConnectionAttempt>
        decreases events.len(),
    {
        if events.len() == 0 {
            Some(self)
        } else {
            match self.after(events.drop_last()) {
                Some(before) => match before.next(events.last()) {
                    Some((after, _)) => Some(after),
                    None => None,
                },
                None => None,
            }
        }
    }

    /// The actions that `events` draw from the attempt, in order.
    pub open spec fn actions(self, events: Seq<Event>) -> Seq<Action>
        decreases events.len(),
    {
        if events.len() == 0 {
            Seq::empty()
        } else {
            let earlier = self.actions(events.drop_last());
            match self.after(events.drop_last()) {
                Some(before) => match before.next(events.last()) {
                    Some((_, action)) => earlier.push(action),
                    None => earlier,
                },
                None => earlier,
            }
        }
    }
}

impl State {
    /// How far the attempt has come. No state is further than 7.
    pub open spec fn rank(self) -> nat {
        match self {
            State::Opening => 0,
            State::Created(_) => 1,
            State::Connecting(_) => 2,
            State::Waiting(_) => 3,
            State::Checking(_) => 4,
            State::Restoring(_) => 5,
            State::Closing(_, _) => 6,
            _ => 7,
        }
    }
}

/// One attempt from its beginning: what it was given and what it was answered.
pub struct Run {
    pub target: TargetAddress,
    pub timeout: Timeout,
    pub events: Seq<Event>,
}

impl Run {
    /// The attempt as it began.
    pub open spec fn start(self) -> ConnectionAttempt {
        ConnectionAttempt::initial(self.target, self.timeout)
    }

    /// Every event was an answer that the attempt expected.
    pub open spec fn valid(self) -> bool {
        self.start().after(self.events).is_some()
    }

    /// The attempt at the end of the run.
    pub open spec fn end(self) -> ConnectionAttempt {
        self.start().after(self.events).unwrap()
    }

    /// The run is over: the attempt takes no further event.
    pub open spec fn complete(self) -> bool {
        self.valid() && self.end().state.finished()
    }

    /// The actions that the events drew, in order.
    pub open spec fn actions(self) -> Seq<Action> {
        self.start().actions(self.events)
    }

    /// The run without its last event.
    pub open spec fn earlier(self) -> Run {
        Run { events: self.events.drop_last(), ..self }
    }

    /// The first `k` events of the run.
    pub open spec fn first(self, k: int) -> Run {
        Run { events: self.events.take(k), ..self }
    }

    /// The call that is waiting for its answer at the end of the run: the
    /// creation of the socket at first, the last action drawn afterwards.
    pub open spec fn pending(self) -> Action {
        if self.actions().len() == 0 {
            Action::OpenSocket
        } else {
            self.actions().last()
        }
    }

    /// Whether the calls answered in the run have left the descriptor in
    /// non-blocking mode. A new socket is blocking; only a mode switch that
    /// succeeded changes that.
    pub open spec fn nonblocking(self) -> bool
        decreases self.events.len(),
    {
        if self.events.len() == 0 {
            false
        } else {
            match (self.earlier().pending(), self.events.last()) {
                (Action::SetNonBlocking(_), Event::Done) => true,
                (Action::SetBlocking(_), Event::Done) => false,
                _ => self.earlier().nonblocking(),
            }
        }
    }

    /// Whether the connection request was answered as being under way.
    pub open spec fn in_progress(self) -> bool {
        exists|i: int| 0 <= i < self.events.len() && #[trigger] self.events[i] == Event::InProgress
    }

    /// The number of descriptors that the run created and neither closed
    /// nor handed over.
    pub open spec fn left_open(self) -> int {
        opened(self.events).len() - closed(self.actions()).len() - handed_over(self.actions()).len()
    }
}

/// The descriptors that `events` report as created, in order.
pub open spec fn opened(events: Seq<Event>) -> Seq<i32>
    decreases events.len(),
{
    if events.len() == 0 {
        Seq::empty()
    } else {
        match events.last() {
            Event::Opened(fd) => opened(events.drop_last()).push(fd),
            _ => opened(events.drop_last()),
        }
    }
}

/// The descriptors that `actions` close, in order.
pub open spec fn closed(actions: Seq<Action>) -> Seq<i32>
    decreases actions.len(),
{
    if actions.len() == 0 {
        Seq::empty()
    } else {
        match actions.last() {
            Action::Close(fd) => closed(actions.drop_last()).push(fd),
            _ => closed(actions.drop_last()),
        }
    }
}

/// The descriptors that `actions` hand over to the caller, in order.
pub open spec fn handed_over(actions: Seq<Action>) -> Seq<i32>
    decreases actions.len(),
{
    if actions.len() == 0 {
        Seq::empty()
    } else {
        match actions.last() {
            Action::HandOver(fd) => handed_over(actions.drop_last()).push(fd),
            _ => handed_over(actions.drop_last()),
        }
    }
}

/// The lengths of the waits that `actions` ask for, in order.
pub open spec fn waits(actions: Seq<Action>) -> Seq<TimeVal>
    decreases actions.len(),
{
    if actions.len() == 0 {
        Seq::empty()
    } else {
        match actions.last() {
            Action::WaitWritable(_, wait) => waits(actions.drop_last()).push(wait),
            _ => waits(actions.drop_last()),
        }
    }
}

/// The error that an event reports by itself, if it reports one: a call
/// that failed, a wait that did not find exactly the one descriptor ready,
/// or a pending error other than zero.
pub open spec fn reported(event: Event) -> Option<ConnectionError> {
    match event {
        Event::Failed(code) => Some(ConnectionError::OsError(code)),
        Event::Ready(count) if count != 1 => Some(ConnectionError::ReadinessTimeout),
        Event::PendingError(code) if code != 0 => Some(ConnectionError::SocketError(code)),
        _ => None,
    }
}

/// The first error that the events report, if any of them reports one.
pub open spec fn first_reported(events: Seq<Event>) -> Option<ConnectionError>
    decreases events.len(),
{
    if events.len() == 0 {
        None
    } else {
        match first_reported(events.drop_last()) {
            Some(error) => Some(error),
            None => reported(events.last()),
        }
    }
}

/// How a run ends whose first error, if it has one, is `error`.
pub open spec fn ending(error: Option<ConnectionError>) -> Result<(), ConnectionError> {
    match error {
        Some(error) => Err(error),
        None => Ok(()),
    }
}

/// The number of descriptors that the runs together created and neither
/// closed nor handed over.
pub open spec fn left_open_by(runs: Seq<Run>) -> int
    decreases runs.len(),
{
    if runs.len() == 0 {
        0
    } else {
        left_open_by(runs.drop_last()) + runs.last().left_open()
    }
}

/// Two events are the same answer: they are equal, or both report a new
/// socket, whatever its number.
pub open spec fn same_answer(a: Event, b: Event) -> bool {
    a == b || (a is Opened && b is Opened)
}

/// Two runs were given the same answers, one by one.
pub open spec fn same_answers(a: Seq<Event>, b: Seq<Event>) -> bool {
    a.len() == b.len() && forall|i: int| 0 <= i < a.len() ==> same_answer(#[trigger] a[i], b[i])
}

/// Two states differ at most in the number of the descriptor they name.
pub open spec fn same_stage(a: State, b: State) -> bool {
    match (a, b) {
        (State::Created(_), State::Created(_)) => true,
        (State::Connecting(_), State::Connecting(_)) => true,
        (State::Waiting(_), State::Waiting(_)) => true,
        (State::Checking(_), State::Checking(_)) => true,
        (State::Restoring(_), State::Restoring(_)) => true,
        (State::Closing(_, e), State::Closing(_, f)) => e == f,
        _ => a == b,
    }
}

/// Every attempt ends, and soon. A run keeps what the attempt was given and
/// keeps its state well-formed, draws one action for each event, and comes
/// at least one rank further with each event: no run has more than seven
/// events, and a run of seven is over.
pub proof fn lemma_run_is_bounded(run: Run)
    requires
        run.valid(),
    ensures
        run.end().target == run.target,
        run.end().timeout == run.timeout,
        run.end().state.wf(),
        run.actions().len() == run.events.len(),
        run.events.len() <= run.end().state.rank() <= 7,
        run.events.len() == 7 ==> run.complete(),
    decreases run.events.len(),
{
    if run.events.len() > 0 {
        lemma_run_is_bounded(run.earlier());
    }
}

/// An attempt reports the first thing that went wrong, and nothing else.
/// While no event has reported an error the attempt goes on or is ready;
/// from the first event that reports one, the attempt is closing with that
/// error or has ended with it, whatever is answered afterwards. So a run
/// that is over is ready exactly when no event reported an error, has timed
/// out exactly when the first error was a wait that did not find the
/// descriptor ready, and has failed with the first error otherwise.
pub proof fn lemma_reports_the_first_error(run: Run)
    requires
        run.valid(),
    ensures
        match run.end().state {
            State::Closing(_, error) => first_reported(run.events) == Some(error),
            State::TimedOut => first_reported(run.events) == Some(ConnectionError::ReadinessTimeout),
            State::Failed(error) => first_reported(run.events) == Some(error),
            _ => first_reported(run.events).is_none(),
        },
        run.complete() ==> run.end().state.outcome() == Some(ending(first_reported(run.events))),
    decreases run.events.len(),
{
    if run.events.len() > 0 {
        lemma_reports_the_first_error(run.earlier());
    }
}

/// The same answers give the same result. Two attempts, whatever their
/// targets, their timeouts and the numbers of their descriptors, that are
/// given the same answers one by one go through the same stages and end the
/// same way: both ready, both timed out, or both failed with the same error.
pub proof fn lemma_same_answers_same_outcome(a: Run, b: Run)
    requires
        same_answers(a.events, b.events),
    ensures
        a.valid() <==> b.valid(),
        a.valid() ==> same_stage(a.end().state, b.end().state),
        a.valid() ==> a.end().state.outcome() == b.end().state.outcome(),
    decreases a.events.len(),
{
    if a.events.len() > 0 {
        assert(same_answers(a.earlier().events, b.earlier().events));
        lemma_same_answers_same_outcome(a.earlier(), b.earlier());
    }
}

/// No descriptor is left open. At every point of a run at most one
/// descriptor has been created, and the state tells what has become of it.
/// A run that has failed or timed out has closed exactly what was created
/// and handed nothing over; a run that is ready has handed over the one
/// descriptor that was created and closed nothing.
pub proof fn lemma_descriptors_accounted(run: Run)
    requires
        run.valid(),
    ensures
        opened(run.events).len() <= 1,
        match run.end().state {
            State::Opening => opened(run.events).len() == 0 && closed(run.actions()).len() == 0,
            State::Closing(fd, _) => opened(run.events) == seq![fd] && closed(run.actions())
                == seq![fd],
            State::Ready => opened(run.events).len() == 1 && closed(run.actions()).len() == 0,
            State::TimedOut | State::Failed(_) => closed(run.actions()) == opened(run.events),
            _ => opened(run.events) == seq![run.end().state.descriptor().unwrap()] && closed(
                run.actions(),
            ).len() == 0,
        },
        handed_over(run.actions()) == if run.end().state is Ready {
            opened(run.events)
        } else {
            Seq::<i32>::empty()
        },
        run.complete() ==> run.left_open() == 0,
    decreases run.events.len(),
{
    if run.events.len() > 0 {
        lemma_descriptors_accounted(run.earlier());
        assert(run.actions().drop_last() == run.earlier().actions());
    }
}

/// After any number of attempts that are over, however each of them ended,
/// no descriptor is left that was created and neither closed nor handed
/// over to the caller; and only an attempt that is ready has handed one over.
pub proof fn lemma_attempts_leave_nothing_open(runs: Seq<Run>)
    requires
        forall|i: int| 0 <= i < runs.len() ==> (#[trigger] runs[i]).complete(),
    ensures
        left_open_by(runs) == 0,
        forall|i: int|
            0 <= i < runs.len() && !((#[trigger] runs[i]).end().state is Ready) ==> handed_over(
                runs[i].actions(),
            ).len() == 0,
    decreases runs.len(),
{
    if runs.len() > 0 {
        assert(forall|i: int|
            0 <= i < runs.drop_last().len() ==> (#[trigger] runs.drop_last()[i]).complete());
        lemma_attempts_leave_nothing_open(runs.drop_last());
        lemma_descriptors_accounted(runs.last());
    }
    assert forall|i: int| 0 <= i < runs.len() && !((#[trigger] runs[i]).end().state is Ready) implies handed_over(
        runs[i].actions(),
    ).len() == 0 by {
        lemma_descriptors_accounted(runs[i]);
    }
}

/// The state tells which call is pending and in which mode the descriptor is.
proof fn lemma_state_tells_the_call(run: Run)
    requires
        run.valid(),
    ensures
        match run.end().state {
            State::Opening => run.pending() == Action::OpenSocket && !run.nonblocking(),
            State::Created(fd) => run.pending() == Action::SetNonBlocking(fd) && !run.nonblocking(),
            State::Connecting(fd) => run.pending() == Action::Connect(fd, run.target)
                && run.nonblocking(),
            State::Waiting(fd) => run.pending() == Action::WaitWritable(fd, run.timeout.timeval())
                && run.nonblocking(),
            State::Checking(fd) => run.pending() == Action::ReadPendingError(fd)
                && run.nonblocking(),
            State::Restoring(fd) => run.pending() == Action::SetBlocking(fd) && run.nonblocking(),
            State::Closing(fd, _) => run.pending() == Action::Close(fd),
            State::Ready => run.pending() is HandOver && !run.nonblocking(),
            State::TimedOut => run.pending() == Action::Fail(ConnectionError::ReadinessTimeout),
            State::Failed(error) => run.pending() == Action::Fail(error),
        },
    decreases run.events.len(),
{
    if run.events.len() > 0 {
        lemma_state_tells_the_call(run.earlier());
        lemma_run_is_bounded(run.earlier());
        lemma_run_is_bounded(run);
    }
}

/// A descriptor is handed over in blocking mode, and by the last action only.
/// A run is ready exactly when its last action hands the descriptor over;
/// that action answers a switch to blocking mode that succeeded, the calls
/// answered have left the descriptor blocking, and no earlier action hands
/// anything over.
pub proof fn lemma_handed_over_blocking(run: Run)
    requires
        run.valid(),
    ensures
        run.end().state is Ready <==> run.pending() is HandOver,
        run.end().state is Ready ==> !run.nonblocking() && run.events.last() == Event::Done
            && run.earlier().pending() is SetBlocking,
        forall|i: int| 0 <= i < run.events.len() - 1 ==> !(#[trigger] run.actions()[i] is HandOver),
    decreases run.events.len(),
{
    lemma_state_tells_the_call(run);
    lemma_run_is_bounded(run);
    if run.events.len() > 0 {
        let earlier = run.earlier();
        lemma_handed_over_blocking(earlier);
        lemma_state_tells_the_call(earlier);
        lemma_run_is_bounded(earlier);
        assert(forall|i: int|
            0 <= i < run.events.len() - 1 ==> !(#[trigger] run.actions()[i] is HandOver));
    }
}

/// Whether a wait was asked for follows from the state and the events.
proof fn lemma_state_tells_the_wait(run: Run)
    requires
        run.valid(),
    ensures
        waits(run.actions()) == if run.in_progress() {
            seq![run.timeout.timeval()]
        } else {
            Seq::<TimeVal>::empty()
        },
        run.end().state.rank() < 3 ==> !run.in_progress(),
        run.end().state is Waiting ==> run.in_progress(),
    decreases run.events.len(),
{
    if run.events.len() > 0 {
        let earlier = run.earlier();
        lemma_state_tells_the_wait(earlier);
        lemma_run_is_bounded(earlier);
        assert(run.actions().drop_last() == earlier.actions());
        if run.in_progress() && !earlier.in_progress() {
            let i = choose|i: int|
                0 <= i < run.events.len() && #[trigger] run.events[i] == Event::InProgress;
            if i < earlier.events.len() {
                assert(earlier.events[i] == Event::InProgress);
            }
        }
    }
}

/// A run waits at most once: once where the connection request was answered
/// as being under way, and not at all otherwise. It waits for exactly the
/// time that stands for its timeout, which is zero for a timeout of zero
/// and longer than zero for every other timeout.
pub proof fn lemma_waits_once_for_the_timeout(run: Run)
    requires
        run.valid(),
    ensures
        waits(run.actions()) == if run.in_progress() {
            seq![run.timeout.timeval()]
        } else {
            Seq::<TimeVal>::empty()
        },
        run.timeout.timeval().wf(),
        run.timeout.timeval().micros() == 0 <==> run.timeout.total_nanos() == 0,
{
    lemma_state_tells_the_wait(run);
}

/// The beginning of a run is a run: the first `k` events were expected, drew
/// the first `k` actions, and an error they report stays the first one.
proof fn lemma_run_begins_as_a_run(run: Run, k: int)
    requires
        run.valid(),
        0 <= k <= run.events.len(),
    ensures
        run.first(k).valid(),
        run.first(k).actions() == run.actions().take(k),
        first_reported(run.first(k).events).is_some() ==> first_reported(run.events)
            == first_reported(run.first(k).events),
    decreases run.events.len(),
{
    lemma_run_is_bounded(run);
    if k == run.events.len() {
        assert(run.events.take(k) == run.events);
    } else {
        assert(run.events.take(k) == run.earlier().events.take(k));
        lemma_run_begins_as_a_run(run.earlier(), k);
        lemma_run_is_bounded(run.earlier());
    }
}

/// A timeout of zero gives a timeout error unless the connection is made at
/// once. With a timeout of zero, a run in which the wait does not find the
/// descriptor ready has waited once, for no time at all, and ends as timed
/// out. (The wait is reached only where the request was answered as being
/// under way: a connection made or refused at once is not waited for. A
/// wait of zero that finds the descriptor ready, or fails, ends otherwise.)
pub proof fn lemma_zero_timeout_times_out(run: Run, i: int)
    requires
        run.timeout.total_nanos() == 0,
        run.complete(),
        0 <= i < run.events.len(),
        run.events[i] matches Event::Ready(count) && count != 1,
    ensures
        run.in_progress(),
        waits(run.actions()) == seq![TimeVal { sec: 0, usec: 0 }],
        run.end().state == State::TimedOut,
{
    lemma_waits_once_for_the_timeout(run);
    lemma_reports_the_first_error(run);
    lemma_run_begins_as_a_run(run, i);
    lemma_run_begins_as_a_run(run, i + 1);
    lemma_reports_the_first_error(run.first(i));
    lemma_state_tells_the_wait(run.first(i));
    assert(run.first(i + 1).earlier() == run.first(i)) by {
        assert(run.events.take(i + 1).drop_last() == run.events.take(i));
    }
}

} // verus!
