//! The launch of the backends, one after the other: all of them start, or the
//! first failure ends the startup.

use crate::backend::BackendSpec;
use crate::error::{SpawnFailure, TorSpawnError};
use vstd::prelude::*;
use vstd::string::StringExecFns;

verus! {

/// How an attempt to start one backend process ended.
#[derive(Debug, Clone, PartialEq, Eq)]
pub enum SpawnOutcome {
    /// The process runs.
    Started,
    /// The operating system found no executable at the path.
    NotFound,
    /// The operating system refused for another reason, with its message.
    Failed { error: String },
}

/// A `SpawnOutcome` as plain text values.
pub enum OutcomeText {
    Started,
    NotFound,
    Failed { error: Seq<char> },
}

impl View for SpawnOutcome {
    type V = OutcomeText;

    open spec fn view(&self) -> OutcomeText {
        match self {
            SpawnOutcome::Started => OutcomeText::Started,
            SpawnOutcome::NotFound => OutcomeText::NotFound,
            SpawnOutcome::Failed { error } => OutcomeText::Failed { error: error@ },
        }
    }
}

/// The error that an outcome stands for, if it is one: a missing executable is
/// told apart from every other failure, and both name the configured path.
pub open spec fn spawn_failure(executable: Seq<char>, outcome: OutcomeText) -> Option<
    SpawnFailure,
> {
    match outcome {
        OutcomeText::Started => None,
        OutcomeText::NotFound => Some(SpawnFailure::NotFound { path: executable }),
        OutcomeText::Failed { error } => Some(SpawnFailure::Other { path: executable, error }),
    }
}

/// Turns the outcome of starting `executable` into the error to report, if any.
pub fn spawn_error(executable: &str, outcome: &SpawnOutcome) -> (r: Option<TorSpawnError>)
    ensures
        match r {
            Some(e) => spawn_failure(executable@, outcome@) == Some(e@),
            None => spawn_failure(executable@, outcome@) is None,
        },
{
    match outcome {
        SpawnOutcome::Started => None,
        SpawnOutcome::NotFound => Some(
            TorSpawnError::NotFound { path: String::from_str(executable) },
        ),
        SpawnOutcome::Failed { error } => Some(
            TorSpawnError::Other { path: String::from_str(executable), error: error.clone() },
        ),
    }
}

/// The mathematical state of a startup: the executables to start, in order,
/// how many of them run, and the failure that ended the startup, if any.
pub struct LaunchState {
    pub executables: Seq<Seq<char>>,
    pub launched: nat,
    pub failure: Option<SpawnFailure>,
}

impl LaunchState {
    /// The state before anything was started.
    pub open spec fn fresh(executables: Seq<Seq<char>>) -> LaunchState {
        LaunchState { executables, launched: 0, failure: None }
    }

    /// The index of the backend to start next; none after a failure or when
    /// all of them run.
    pub open spec fn pending(self) -> Option<nat> {
        if self.failure is None && self.launched < self.executables.len() {
            Some(self.launched)
        } else {
            None
        }
    }

    /// All backends run: traffic may be served.
    pub open spec fn ready(self) -> bool {
        self.failure is None && self.launched >= self.executables.len()
    }

    /// The state after the pending backend's start ended with `outcome`. With
    /// nothing pending the outcome changes nothing.
    pub open spec fn record(self, outcome: OutcomeText) -> LaunchState {
        match self.pending() {
            None => self,
            Some(i) => match spawn_failure(self.executables[i as int], outcome) {
                None => LaunchState { launched: self.launched + 1, ..self },
                Some(failure) => LaunchState { failure: Some(failure), ..self },
            },
        }
    }

    /// The state after a sequence of outcomes, recorded in order.
    pub open spec fn run(self, outcomes: Seq<OutcomeText>) -> LaunchState
        decreases outcomes.len(),
    {
        if outcomes.len() == 0 {
            self
        } else {
            self.record(outcomes[0]).run(outcomes.drop_first())
        }
    }
}

/// Launches the backends of a list in order and remembers how far it came.
pub struct Supervisor {
    specs: Vec<BackendSpec>,
    launched: usize,
    failure: Option<TorSpawnError>,
}

impl View for Supervisor {
    type V = LaunchState;

    closed spec fn view(&self) -> LaunchState {
        LaunchState {
            executables: Seq::new(self.specs@.len(), |i: int| self.specs@[i].executable@),
            launched: self.launched as nat,
            failure: match self.failure {
                Some(e) => Some(e@),
                None => None,
            },
        }
    }
}

impl Supervisor {
    /// No more backends run than the list holds.
    pub closed spec fn wf(&self) -> bool {
        self.launched <= self.specs@.len()
    }

    /// The backends to launch, in order.
    pub closed spec fn specs(&self) -> Seq<BackendSpec> {
        self.specs@
    }

    /// The supervisor's state names the executable of each spec.
    pub proof fn lemma_executables(&self)
        ensures
            self@.executables.len() == self.specs().len(),
            forall|i: int|
                0 <= i < self.specs().len() ==> self@.executables[i] == self.specs()[i].executable@,
    {
    }

    /// A supervisor that has started nothing yet.
    pub fn new(specs: Vec<BackendSpec>) -> (s: Supervisor)
        ensures
            s.wf(),
            s.specs() == specs@,
            s@.launched == 0,
            s@.failure is None,
    {
        Supervisor { specs, launched: 0, failure: None }
    }

    /// The backend to start next, if there is one.
    pub fn pending(&self) -> (r: Option<&BackendSpec>)
        requires
            self.wf(),
        ensures
            match r {
                Some(spec) => self@.pending() matches Some(i) && *spec == self.specs()[i as int],
                None => self@.pending() is None,
            },
    {
        if self.failure.is_none() && self.launched < self.specs.len() {
            Some(&self.specs[self.launched])
        } else {
            None
        }
    }

    /// Takes note of how the start of the pending backend ended.
    pub fn record(&mut self, outcome: &SpawnOutcome)
        requires
            old(self).wf(),
        ensures
            final(self).wf(),
            final(self).specs() == old(self).specs(),
            final(self)@ == old(self)@.record(outcome@),
    {
        if self.failure.is_none() && self.launched < self.specs.len() {
            let failure = spawn_error(self.specs[self.launched].executable.as_str(), outcome);
            match failure {
                None => {
                    self.launched = self.launched + 1;
                },
                Some(e) => {
                    self.failure = Some(e);
                },
            }
        }
        proof {
            assert(final(self)@.executables =~= old(self)@.executables);
        }
    }

    /// Whether every backend runs.
    pub fn is_ready(&self) -> (r: bool)
        requires
            self.wf(),
        ensures
            r == self@.ready(),
    {
        self.failure.is_none() && self.launched >= self.specs.len()
    }

    /// The failure that ended the startup, if one did.
    pub fn failure(&self) -> (r: Option<TorSpawnError>)
        ensures
            match r {
                Some(e) => self@.failure == Some(e@),
                None => self@.failure is None,
            },
    {
        match &self.failure {
            None => None,
            Some(TorSpawnError::NotFound { path }) => Some(
                TorSpawnError::NotFound { path: path.clone() },
            ),
            Some(TorSpawnError::Other { path, error }) => Some(
                TorSpawnError::Other { path: path.clone(), error: error.clone() },
            ),
        }
    }
}

/// Once a start has failed, no later outcome changes the state: nothing more
/// is started and the startup never becomes ready.
pub proof fn lemma_failure_is_final(s: LaunchState, outcomes: Seq<OutcomeText>)
    requires
        s.failure is Some,
    ensures
        s.run(outcomes) == s,
        !s.run(outcomes).ready(),
        s.run(outcomes).pending() is None,
    decreases outcomes.len(),
{
    if outcomes.len() > 0 {
        lemma_failure_is_final(s, outcomes.drop_first());
    }
}

/// All-or-nothing startup: if the backends before the `i`-th start and the
/// `i`-th does not, the startup ends with the failure of the `i`-th, which
/// names its executable, whatever is reported afterwards; a missing executable
/// ends it with `NotFound`. The startup is never ready then.
pub proof fn lemma_first_failure_ends_startup(
    executables: Seq<Seq<char>>,
    outcomes: Seq<OutcomeText>,
    i: int,
)
    requires
        0 <= i < executables.len(),
        i < outcomes.len(),
        forall|j: int| 0 <= j < i ==> outcomes[j] is Started,
        !(outcomes[i] is Started),
    ensures
        LaunchState::fresh(executables).run(outcomes).failure == spawn_failure(
            executables[i],
            outcomes[i],
        ),
        LaunchState::fresh(executables).run(outcomes).launched == i,
        !LaunchState::fresh(executables).run(outcomes).ready(),
        outcomes[i] is NotFound ==> LaunchState::fresh(executables).run(outcomes).failure == Some(
            SpawnFailure::NotFound { path: executables[i] },
        ),
{
    lemma_run_from(LaunchState::fresh(executables), outcomes, i);
}

/// The general step of the law above, from any state without a failure.
proof fn lemma_run_from(s: LaunchState, outcomes: Seq<OutcomeText>, k: int)
    requires
        s.failure is None,
        0 <= k < outcomes.len(),
        s.launched + k < s.executables.len(),
        forall|j: int| 0 <= j < k ==> outcomes[j] is Started,
        !(outcomes[k] is Started),
    ensures
        s.run(outcomes).failure == spawn_failure(
            s.executables[s.launched + k],
            outcomes[k],
        ),
        s.run(outcomes).launched == s.launched + k,
        s.run(outcomes).executables == s.executables,
    decreases k,
{
    let next = s.record(outcomes[0]);
    let rest = outcomes.drop_first();
    if k == 0 {
        lemma_failure_is_final(next, rest);
    } else {
        assert forall|j: int| 0 <= j < k - 1 implies rest[j] is Started by {
            assert(rest[j] == outcomes[j + 1]);
        }
        assert(rest[k - 1] == outcomes[k]);
        lemma_run_from(next, rest, k - 1);
    }
}

/// The startup is ready once every backend has started.
pub proof fn lemma_all_started_is_ready(executables: Seq<Seq<char>>, outcomes: Seq<OutcomeText>)
    requires
        outcomes.len() == executables.len(),
        forall|j: int| 0 <= j < outcomes.len() ==> outcomes[j] is Started,
    ensures
        LaunchState::fresh(executables).run(outcomes).ready(),
        LaunchState::fresh(executables).run(outcomes).launched == executables.len(),
{
    lemma_run_started(LaunchState::fresh(executables), outcomes);
}

/// Outcomes that all say `Started` move the count on by their number.
proof fn lemma_run_started(s: LaunchState, outcomes: Seq<OutcomeText>)
    requires
        s.failure is None,
        s.launched + outcomes.len() <= s.executables.len(),
        forall|j: int| 0 <= j < outcomes.len() ==> outcomes[j] is Started,
    ensures
        s.run(outcomes).failure is None,
        s.run(outcomes).launched == s.launched + outcomes.len(),
        s.run(outcomes).executables == s.executables,
    decreases outcomes.len(),
{
    if outcomes.len() > 0 {
        let rest = outcomes.drop_first();
        assert forall|j: int| 0 <= j < rest.len() implies rest[j] is Started by {
            assert(rest[j] == outcomes[j + 1]);
        }
        lemma_run_started(s.record(outcomes[0]), rest);
    }
}

} // verus!
