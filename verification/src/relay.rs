//! The decisions of one relay session. The session's owner connects, copies
//! and closes; after each of these it reports what happened and is told what
//! to do next.

use crate::error::RelayError;
use vstd::prelude::*;
use vstd::string::StringExecFns;

verus! {

/// One of the two directions in which bytes are copied.
#[derive(Debug, Clone, Copy, PartialEq, Eq, Structural)]
pub enum Direction {
    /// Read from the client, write to the backend.
    ClientToBackend,
    /// Read from the backend, write to the client.
    BackendToClient,
}

/// The progress of one direction.
#[derive(Debug, Clone, Copy, PartialEq, Eq, Structural)]
pub enum Flow {
    /// Bytes are copied as they come.
    Copying,
    /// The source has ended; the write side of the destination is being closed.
    Closing,
    /// The write side of the destination is closed.
    Closed,
    /// Copying or closing has failed; nothing more is done in this direction.
    Failed,
}

impl Flow {
    /// Nothing more happens in the direction.
    pub open spec fn has_ended(self) -> bool {
        self is Closed || self is Failed
    }
}

/// The kind of failure that ends a session.
#[derive(Debug, Clone, Copy, PartialEq, Eq, Structural)]
pub enum RelayFailure {
    /// The backend could not be reached.
    BackendConnect,
    /// A read, a write or a close failed; `first` is the direction in which
    /// the first such failure was met.
    RelayIo { first: Direction },
}

/// Where a session stands.
#[derive(Debug, Clone, Copy, PartialEq, Eq)]
pub enum RelayState {
    /// The connection to the backend is being opened.
    Connecting,
    /// Both connections are open. `first_failed` is the direction that failed
    /// first, if one has failed.
    Relaying { to_backend: Flow, to_client: Flow, first_failed: Option<Direction> },
    /// Both directions have ended and are closed.
    Completed,
    /// The session has failed.
    Failed { failure: RelayFailure },
}

/// What the session's owner reports.
#[derive(Debug, Clone, Copy, PartialEq, Eq, Structural)]
pub enum RelayEvent {
    /// The backend accepted the connection.
    Connected,
    /// The backend could not be reached.
    ConnectFailed,
    /// The source of a direction is at its end; all its bytes were written.
    SourceEnded { direction: Direction },
    /// Copying in a direction failed.
    CopyFailed { direction: Direction },
    /// The write side of a direction's destination is closed.
    WriteClosed { direction: Direction },
    /// Closing the write side of a direction's destination failed.
    CloseFailed { direction: Direction },
}

/// What the session's owner does next.
#[derive(Debug, Clone, Copy, PartialEq, Eq, Structural)]
pub enum RelayAction {
    /// Split both connections and copy in both directions at once.
    StartCopying,
    /// Close the write side of the direction's destination, and only that.
    CloseWrite { direction: Direction },
    /// Nothing new; the other direction goes on.
    Wait,
    /// Both directions have ended: end the session with success.
    Complete,
    /// End the session with this failure. While relaying this comes only
    /// when both directions have ended.
    Fail { failure: RelayFailure },
    /// The event does not belong to the state; nothing changes.
    Ignore,
}

impl Direction {
    /// The opposite direction.
    pub open spec fn other(self) -> Direction {
        match self {
            Direction::ClientToBackend => Direction::BackendToClient,
            Direction::BackendToClient => Direction::ClientToBackend,
        }
    }
}

/// The state of a session with both connections open and the given progress:
/// it is over once both directions have ended, with the first failure if
/// there was one, with success if there was none.
pub open spec fn settled(to_backend: Flow, to_client: Flow, first_failed: Option<Direction>) -> RelayState {
    if to_backend.has_ended() && to_client.has_ended() {
        match first_failed {
            Some(first) => RelayState::Failed { failure: RelayFailure::RelayIo { first } },
            None => RelayState::Completed,
        }
    } else {
        RelayState::Relaying { to_backend, to_client, first_failed }
    }
}

/// The action that goes with the state reached when a direction has ended.
pub open spec fn action_after(next: RelayState) -> RelayAction {
    match next {
        RelayState::Completed => RelayAction::Complete,
        RelayState::Failed { failure } => RelayAction::Fail { failure },
        _ => RelayAction::Wait,
    }
}

impl RelayState {
    /// The progress of `direction`, while both connections are open.
    pub open spec fn flow(self, direction: Direction) -> Option<Flow> {
        match self {
            RelayState::Relaying { to_backend, to_client, .. } => Some(
                match direction {
                    Direction::ClientToBackend => to_backend,
                    Direction::BackendToClient => to_client,
                },
            ),
            _ => None,
        }
    }

    /// The direction that failed first, if one has failed.
    pub open spec fn first_failed(self) -> Option<Direction> {
        match self {
            RelayState::Relaying { first_failed, .. } => first_failed,
            RelayState::Failed { failure: RelayFailure::RelayIo { first } } => Some(first),
            _ => None,
        }
    }

    /// The state with the progress of `direction` set to `flow`. A failure is
    /// remembered if it is the first; the session is over if both directions
    /// have ended then.
    pub open spec fn with_flow(self, direction: Direction, flow: Flow) -> RelayState {
        match self {
            RelayState::Relaying { to_backend, to_client, first_failed } => {
                let noted = if flow is Failed && first_failed is None {
                    Some(direction)
                } else {
                    first_failed
                };
                match direction {
                    Direction::ClientToBackend => settled(flow, to_client, noted),
                    Direction::BackendToClient => settled(to_backend, flow, noted),
                }
            },
            _ => self,
        }
    }

    /// The session is over.
    pub open spec fn is_final(self) -> bool {
        self is Completed || self is Failed
    }

    /// The state that follows `event`, and the action it calls for.
    ///
    /// The end of a source asks for the half-close of its destination. A
    /// failure in one direction ends that direction without a half-close and
    /// is remembered; the session goes on until the other direction has ended
    /// too, and only then fails, with the first failure.
    pub open spec fn step(self, event: RelayEvent) -> (RelayState, RelayAction) {
        match (self, event) {
            (RelayState::Connecting, RelayEvent::Connected) => (
                RelayState::Relaying {
                    to_backend: Flow::Copying,
                    to_client: Flow::Copying,
                    first_failed: None,
                },
                RelayAction::StartCopying,
            ),
            (RelayState::Connecting, RelayEvent::ConnectFailed) => (
                RelayState::Failed { failure: RelayFailure::BackendConnect },
                RelayAction::Fail { failure: RelayFailure::BackendConnect },
            ),
            (RelayState::Relaying { .. }, RelayEvent::SourceEnded { direction }) => {
                if self.flow(direction) == Some(Flow::Copying) {
                    (self.with_flow(direction, Flow::Closing), RelayAction::CloseWrite { direction })
                } else {
                    (self, RelayAction::Ignore)
                }
            },
            (RelayState::Relaying { .. }, RelayEvent::CopyFailed { direction }) => {
                if self.flow(direction) == Some(Flow::Copying) {
                    let next = self.with_flow(direction, Flow::Failed);
                    (next, action_after(next))
                } else {
                    (self, RelayAction::Ignore)
                }
            },
            (RelayState::Relaying { .. }, RelayEvent::WriteClosed { direction }) => {
                if self.flow(direction) == Some(Flow::Closing) {
                    let next = self.with_flow(direction, Flow::Closed);
                    (next, action_after(next))
                } else {
                    (self, RelayAction::Ignore)
                }
            },
            (RelayState::Relaying { .. }, RelayEvent::CloseFailed { direction }) => {
                if self.flow(direction) == Some(Flow::Closing) {
                    let next = self.with_flow(direction, Flow::Failed);
                    (next, action_after(next))
                } else {
                    (self, RelayAction::Ignore)
                }
            },
            _ => (self, RelayAction::Ignore),
        }
    }

    /// The state after a sequence of events.
    pub open spec fn run(self, events: Seq<RelayEvent>) -> RelayState
        decreases events.len(),
    {
        if events.len() == 0 {
            self
        } else {
            self.step(events[0]).0.run(events.drop_first())
        }
    }

    /// The actions that a sequence of events calls for, one for each event.
    pub open spec fn actions(self, events: Seq<RelayEvent>) -> Seq<RelayAction>
        decreases events.len(),
    {
        if events.len() == 0 {
            Seq::empty()
        } else {
            seq![self.step(events[0]).1] + self.step(events[0]).0.actions(events.drop_first())
        }
    }
}

/// One relay session: a client's connection and the backend chosen for it.
#[derive(Debug, Clone, Copy, PartialEq, Eq)]
pub struct RelaySession {
    state: RelayState,
}

impl View for RelaySession {
    type V = RelayState;

    closed spec fn view(&self) -> RelayState {
        self.state
    }
}

impl RelaySession {
    /// A session that is about to connect to its backend.
    pub fn new() -> (s: RelaySession)
        ensures
            s@ == RelayState::Connecting,
    {
        RelaySession { state: RelayState::Connecting }
    }

    /// Where the session stands.
    pub fn state(&self) -> (r: RelayState)
        ensures
            r == self@,
    {
        self.state
    }

    /// How the session ended: nothing while it is running, that is, until the
    /// backend has refused or both directions have ended.
    pub fn outcome(&self) -> (r: Option<Result<(), RelayFailure>>)
        ensures
            r == (match self@ {
                RelayState::Completed => Some(Ok::<(), RelayFailure>(())),
                RelayState::Failed { failure } => Some(Err::<(), RelayFailure>(failure)),
                _ => None,
            }),
    {
        match self.state {
            RelayState::Completed => Some(Ok(())),
            RelayState::Failed { failure } => Some(Err(failure)),
            _ => None,
        }
    }

    /// Takes note of an event and says what to do next.
    pub fn on_event(&mut self, event: RelayEvent) -> (action: RelayAction)
        ensures
            (final(self)@, action) == old(self)@.step(event),
    {
        let (next, action) = next_step(self.state, event);
        self.state = next;
        action
    }
}

/// The progress of one direction in a state with both connections open.
fn flow_of(to_backend: Flow, to_client: Flow, direction: Direction) -> (r: Flow)
    ensures
        r == (match direction {
            Direction::ClientToBackend => to_backend,
            Direction::BackendToClient => to_client,
        }),
{
    match direction {
        Direction::ClientToBackend => to_backend,
        Direction::BackendToClient => to_client,
    }
}

/// Whether nothing more happens in a direction.
fn ended(flow: Flow) -> (r: bool)
    ensures
        r == flow.has_ended(),
{
    match flow {
        Flow::Closed => true,
        Flow::Failed => true,
        _ => false,
    }
}

/// Sets the progress of one direction and says what follows.
fn set_flow(
    to_backend: Flow,
    to_client: Flow,
    first_failed: Option<Direction>,
    direction: Direction,
    flow: Flow,
) -> (r: (RelayState, RelayAction))
    ensures
        r.0 == (RelayState::Relaying { to_backend, to_client, first_failed }).with_flow(
            direction,
            flow,
        ),
        r.1 == action_after(r.0),
{
    let noted = match (flow, first_failed) {
        (Flow::Failed, None) => Some(direction),
        _ => first_failed,
    };
    let (b, c) = match direction {
        Direction::ClientToBackend => (flow, to_client),
        Direction::BackendToClient => (to_backend, flow),
    };
    if ended(b) && ended(c) {
        match noted {
            Some(first) => {
                let failure = RelayFailure::RelayIo { first };
                (RelayState::Failed { failure }, RelayAction::Fail { failure })
            },
            None => (RelayState::Completed, RelayAction::Complete),
        }
    } else {
        (RelayState::Relaying { to_backend: b, to_client: c, first_failed: noted }, RelayAction::Wait)
    }
}

/// The transition function of a session.
pub fn next_step(state: RelayState, event: RelayEvent) -> (r: (RelayState, RelayAction))
    ensures
        r == state.step(event),
{
    match state {
        RelayState::Connecting => match event {
            RelayEvent::Connected => (
                RelayState::Relaying {
                    to_backend: Flow::Copying,
                    to_client: Flow::Copying,
                    first_failed: None,
                },
                RelayAction::StartCopying,
            ),
            RelayEvent::ConnectFailed => (
                RelayState::Failed { failure: RelayFailure::BackendConnect },
                RelayAction::Fail { failure: RelayFailure::BackendConnect },
            ),
            _ => (state, RelayAction::Ignore),
        },
        RelayState::Relaying { to_backend, to_client, first_failed } => match event {
            RelayEvent::SourceEnded { direction } => {
                if flow_of(to_backend, to_client, direction) == Flow::Copying {
                    let (next, _) = set_flow(
                        to_backend,
                        to_client,
                        first_failed,
                        direction,
                        Flow::Closing,
                    );
                    (next, RelayAction::CloseWrite { direction })
                } else {
                    (state, RelayAction::Ignore)
                }
            },
            RelayEvent::CopyFailed { direction } => {
                if flow_of(to_backend, to_client, direction) == Flow::Copying {
                    set_flow(to_backend, to_client, first_failed, direction, Flow::Failed)
                } else {
                    (state, RelayAction::Ignore)
                }
            },
            RelayEvent::WriteClosed { direction } => {
                if flow_of(to_backend, to_client, direction) == Flow::Closing {
                    set_flow(to_backend, to_client, first_failed, direction, Flow::Closed)
                } else {
                    (state, RelayAction::Ignore)
                }
            },
            RelayEvent::CloseFailed { direction } => {
                if flow_of(to_backend, to_client, direction) == Flow::Closing {
                    set_flow(to_backend, to_client, first_failed, direction, Flow::Failed)
                } else {
                    (state, RelayAction::Ignore)
                }
            },
            _ => (state, RelayAction::Ignore),
        },
        _ => (state, RelayAction::Ignore),
    }
}

/// The error that a failed session reports: for a backend that could not be
/// reached, its address and the message; else the message of the first
/// failure.
pub fn relay_error(failure: RelayFailure, address: &str, detail: &str) -> (e: RelayError)
    ensures
        match failure {
            RelayFailure::BackendConnect => e matches RelayError::BackendConnect {
                address: a,
                error,
            } && a@ == address@ && error@ == detail@,
            RelayFailure::RelayIo { .. } => e matches RelayError::RelayIo { error } && error@
                == detail@,
        },
{
    match failure {
        RelayFailure::BackendConnect => RelayError::BackendConnect {
            address: String::from_str(address),
            error: String::from_str(detail),
        },
        RelayFailure::RelayIo { .. } => RelayError::RelayIo { error: String::from_str(detail) },
    }
}

/// A session that is over stays as it is, and every later event is ignored.
pub proof fn lemma_final_state_absorbs(s: RelayState, events: Seq<RelayEvent>)
    requires
        s.is_final(),
    ensures
        s.run(events) == s,
        s.actions(events).len() == events.len(),
        forall|i: int| 0 <= i < events.len() ==> s.actions(events)[i] == RelayAction::Ignore,
    decreases events.len(),
{
    if events.len() > 0 {
        lemma_final_state_absorbs(s, events.drop_first());
    }
}

/// A backend that refuses the connection ends the session with
/// `BackendConnect`: the one action is that failure, and nothing that follows
/// makes the session copy or close anything, so the client's connection is
/// never read from nor written to.
pub proof fn lemma_refused_backend_fails_untouched(rest: Seq<RelayEvent>)
    ensures
        ({
            let events = seq![RelayEvent::ConnectFailed] + rest;
            let actions = RelayState::Connecting.actions(events);
            &&& RelayState::Connecting.run(events) == (RelayState::Failed {
                failure: RelayFailure::BackendConnect,
            })
            &&& actions.len() == events.len()
            &&& actions[0] == (RelayAction::Fail { failure: RelayFailure::BackendConnect })
            &&& forall|i: int| 1 <= i < actions.len() ==> actions[i] == RelayAction::Ignore
        }),
{
    let events = seq![RelayEvent::ConnectFailed] + rest;
    let failed = RelayState::Failed { failure: RelayFailure::BackendConnect };
    assert(events.drop_first() =~= rest);
    lemma_final_state_absorbs(failed, rest);
}

/// When the client's side ends while bytes are being copied to the backend,
/// the one action is to close the write side towards the backend; the
/// direction towards the client is left as it was, and the session is not
/// over.
pub proof fn lemma_client_end_is_half_close(to_client: Flow, first_failed: Option<Direction>)
    ensures
        ({
            let before = RelayState::Relaying { to_backend: Flow::Copying, to_client, first_failed };
            let (after, action) = before.step(
                RelayEvent::SourceEnded { direction: Direction::ClientToBackend },
            );
            &&& action == (RelayAction::CloseWrite { direction: Direction::ClientToBackend })
            &&& after == (RelayState::Relaying {
                to_backend: Flow::Closing,
                to_client,
                first_failed,
            })
            &&& after.flow(Direction::BackendToClient) == Some(to_client)
            &&& !after.is_final()
        }),
{
}

/// A failure in one direction while the other has not ended does not end the
/// session: the action is to wait, no half-close is asked for, the failed
/// direction is marked and remembered if it is the first to fail, and the
/// other direction stands as it stood.
pub proof fn lemma_failure_waits_for_the_other_direction(s: RelayState, direction: Direction)
    requires
        s is Relaying,
        s.flow(direction) == Some(Flow::Copying) || s.flow(direction) == Some(Flow::Closing),
        s.flow(direction.other()) matches Some(f) && !f.has_ended(),
    ensures
        ({
            let event = if s.flow(direction) == Some(Flow::Copying) {
                RelayEvent::CopyFailed { direction }
            } else {
                RelayEvent::CloseFailed { direction }
            };
            let (after, action) = s.step(event);
            &&& action == RelayAction::Wait
            &&& !after.is_final()
            &&& after.flow(direction) == Some(Flow::Failed)
            &&& after.flow(direction.other()) == s.flow(direction.other())
            &&& after.first_failed() == (if s.first_failed() is None {
                Some(direction)
            } else {
                s.first_failed()
            })
        }),
{
}

/// A session with both connections open is over only when both directions
/// have ended: the step that ends it reports the end of one direction while
/// the other has ended before. It fails with the first failure if a direction
/// has failed, and completes if none has.
pub proof fn lemma_session_ends_when_both_directions_have(s: RelayState, event: RelayEvent)
    requires
        s is Relaying,
        s.step(event).0.is_final(),
    ensures
        ({
            let (after, action) = s.step(event);
            &&& action == action_after(after)
            &&& exists|direction: Direction|
                {
                    &&& (event == (RelayEvent::CopyFailed { direction }) || event
                        == (RelayEvent::CloseFailed { direction }) || event
                        == (RelayEvent::WriteClosed { direction }))
                    &&& (#[trigger] s.flow(direction) == Some(Flow::Copying) || s.flow(direction)
                        == Some(Flow::Closing))
                    &&& s.flow(direction.other()) matches Some(f) && f.has_ended()
                    &&& after == (if event is WriteClosed && s.first_failed() is None {
                        RelayState::Completed
                    } else {
                        RelayState::Failed {
                            failure: RelayFailure::RelayIo {
                                first: match s.first_failed() {
                                    Some(first) => first,
                                    None => direction,
                                },
                            },
                        }
                    })
                }
        }),
{
    match event {
        RelayEvent::CopyFailed { direction } => {
            assert(s.flow(direction) == Some(Flow::Copying));
        },
        RelayEvent::CloseFailed { direction } => {
            assert(s.flow(direction) == Some(Flow::Closing));
        },
        RelayEvent::WriteClosed { direction } => {
            assert(s.flow(direction) == Some(Flow::Closing));
        },
        _ => {},
    }
}

/// The first failure is the one reported: once a direction has failed, the
/// session never completes, and whatever follows, it is still relaying with
/// that failure remembered or has failed with it.
pub proof fn lemma_first_failure_is_kept(s: RelayState, first: Direction, events: Seq<RelayEvent>)
    requires
        s is Relaying,
        s.first_failed() == Some(first),
    ensures
        s.run(events) is Relaying || s.run(events) == (RelayState::Failed {
            failure: RelayFailure::RelayIo { first },
        }),
        s.run(events).first_failed() == Some(first),
    decreases events.len(),
{
    if events.len() > 0 {
        let next = s.step(events[0]).0;
        if next is Relaying {
            lemma_first_failure_is_kept(next, first, events.drop_first());
        } else {
            lemma_final_state_absorbs(next, events.drop_first());
        }
    }
}

} // verus!
