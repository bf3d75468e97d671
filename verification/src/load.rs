//! The bulk load as a sequence of steps against the analytics store.
//!
//! A batch is loaded in one transaction: open the transaction, open the
//! transfer, write the rows in their order, finish the transfer, commit. The
//! caller performs each step and reports how it ended; the first failure ends
//! the load without a commit, and nothing is tried again.

use vstd::prelude::*;

verus! {

/// Why a load was given up.
#[derive(Debug, Clone, Copy, PartialEq, Eq, Structural)]
pub enum LoadError {
    /// The store could not be reached, or refused the transaction.
    BackendUnavailable,
    /// A field of a row could not be written in its column's type.
    Encoding,
    /// The transfer broke while rows were sent or flushed.
    TransientIo,
}

/// How far a load has come.
#[derive(Debug, Clone, Copy, PartialEq, Eq, Structural)]
pub enum Phase {
    /// Nothing has been done.
    Idle,
    /// The transaction is open.
    InTransaction,
    /// The transfer is open, and `written` rows have been sent.
    Copying { written: usize },
    /// The transfer is finished.
    Flushed,
    /// The transaction is committed: every row is stored.
    Committed,
    /// A step failed: the transaction is dropped, no row is stored.
    Aborted(LoadError),
}

/// What the caller does next.
#[derive(Debug, Clone, Copy, PartialEq, Eq)]
pub enum Step {
    BeginTransaction,
    OpenCopy,
    /// Send the row at `index` of the batch.
    WriteRow { index: usize },
    FinishCopy,
    Commit,
    /// The load is over, with this result.
    Done(Result<(), LoadError>),
}

/// The step to take in `phase` of a load of `rows` rows.
pub open spec fn step_in(phase: Phase, rows: nat) -> Step {
    match phase {
        Phase::Idle => Step::BeginTransaction,
        Phase::InTransaction => Step::OpenCopy,
        Phase::Copying { written } => if written < rows {
            Step::WriteRow { index: written }
        } else {
            Step::FinishCopy
        },
        Phase::Flushed => Step::Commit,
        Phase::Committed => Step::Done(Ok(())),
        Phase::Aborted(error) => Step::Done(Err(error)),
    }
}

/// The phase that follows `phase` once its step has ended with `outcome`.
/// A failure aborts the load whatever the step was. A load that is over
/// stays as it is.
pub open spec fn phase_after(phase: Phase, rows: nat, outcome: Result<(), LoadError>) -> Phase {
    match phase {
        Phase::Committed => phase,
        Phase::Aborted(_) => phase,
        _ => match outcome {
            Err(error) => Phase::Aborted(error),
            Ok(()) => match phase {
                Phase::Idle => Phase::InTransaction,
                Phase::InTransaction => Phase::Copying { written: 0 },
                Phase::Copying { written } => if written < rows {
                    Phase::Copying { written: (written + 1) as usize }
                } else {
                    Phase::Flushed
                },
                _ => Phase::Committed,
            },
        },
    }
}

/// The phase of a load after the given outcomes of its steps, in order.
pub open spec fn phase_after_all(rows: nat, outcomes: Seq<Result<(), LoadError>>) -> Phase
    decreases outcomes.len(),
{
    if outcomes.len() == 0 {
        Phase::Idle
    } else {
        phase_after(phase_after_all(rows, outcomes.drop_last()), rows, outcomes.last())
    }
}

/// The phase after `count` steps that all succeeded.
pub open spec fn phase_on_success(rows: nat, count: nat) -> Phase {
    if count == 0 {
        Phase::Idle
    } else if count == 1 {
        Phase::InTransaction
    } else if count <= rows + 2 {
        Phase::Copying { written: (count - 2) as usize }
    } else if count == rows + 3 {
        Phase::Flushed
    } else {
        Phase::Committed
    }
}

/// The number of steps of a load of `rows` rows in which nothing fails.
pub open spec fn step_count(rows: nat) -> nat {
    rows + 4
}

/// While every step succeeds, the load walks through its phases in order: the
/// rows are sent one by one from the first to the last, and the commit is
/// the step after the transfer was finished.
pub proof fn law_steps_in_order(rows: nat, outcomes: Seq<Result<(), LoadError>>)
    requires
        rows <= usize::MAX,
        forall|i: int| 0 <= i < outcomes.len() ==> (#[trigger] outcomes[i]) is Ok,
    ensures
        phase_after_all(rows, outcomes) == phase_on_success(rows, outcomes.len()),
        forall|k: nat|
            2 <= k < rows + 2 ==> step_in(#[trigger] phase_on_success(rows, k), rows)
                == (Step::WriteRow { index: (k - 2) as usize }),
        step_in(phase_on_success(rows, rows + 2), rows) == Step::FinishCopy,
        step_in(phase_on_success(rows, rows + 3), rows) == Step::Commit,
    decreases outcomes.len(),
{
    if outcomes.len() > 0 {
        law_steps_in_order(rows, outcomes.drop_last());
        assert(outcomes.last() is Ok);
    }
}

/// A failure of a step, after steps that all succeeded, aborts the load with
/// the error of that step, and no later outcome changes that.
proof fn lemma_first_failure_aborts(rows: nat, outcomes: Seq<Result<(), LoadError>>, i: int)
    requires
        rows <= usize::MAX,
        0 <= i < outcomes.len(),
        i < step_count(rows),
        outcomes[i] is Err,
        forall|j: int| 0 <= j < i ==> (#[trigger] outcomes[j]) is Ok,
    ensures
        phase_after_all(rows, outcomes) == Phase::Aborted(outcomes[i]->Err_0),
    decreases outcomes.len(),
{
    let earlier = outcomes.drop_last();
    if i == outcomes.len() - 1 {
        assert forall|j: int| 0 <= j < earlier.len() implies (#[trigger] earlier[j]) is Ok by {
            assert(outcomes[j] is Ok);
        }
        law_steps_in_order(rows, earlier);
    } else {
        assert(earlier[i] == outcomes[i]);
        assert forall|j: int| 0 <= j < i implies (#[trigger] earlier[j]) is Ok by {
            assert(outcomes[j] is Ok);
        }
        lemma_first_failure_aborts(rows, earlier, i);
    }
}

/// Once every step has succeeded the load is committed, and no later outcome
/// changes that.
proof fn lemma_success_commits(rows: nat, outcomes: Seq<Result<(), LoadError>>)
    requires
        rows <= usize::MAX,
        outcomes.len() >= step_count(rows),
        forall|j: int| 0 <= j < step_count(rows) ==> (#[trigger] outcomes[j]) is Ok,
    ensures
        phase_after_all(rows, outcomes) == Phase::Committed,
    decreases outcomes.len(),
{
    if outcomes.len() == step_count(rows) {
        law_steps_in_order(rows, outcomes);
    } else {
        let earlier = outcomes.drop_last();
        assert forall|j: int| 0 <= j < step_count(rows) implies (#[trigger] earlier[j]) is Ok by {
            assert(outcomes[j] is Ok);
        }
        lemma_success_commits(rows, earlier);
    }
}

/// The first failure among the outcomes before `limit`, where there is one.
proof fn lemma_first_failure(outcomes: Seq<Result<(), LoadError>>, limit: int) -> (first: int)
    requires
        0 <= limit <= outcomes.len(),
        exists|i: int| 0 <= i < limit && (#[trigger] outcomes[i]) is Err,
    ensures
        0 <= first < limit,
        outcomes[first] is Err,
        forall|j: int| 0 <= j < first ==> (#[trigger] outcomes[j]) is Ok,
    decreases limit,
{
    if exists|i: int| 0 <= i < limit - 1 && (#[trigger] outcomes[i]) is Err {
        lemma_first_failure(outcomes, limit - 1)
    } else {
        assert forall|j: int| 0 <= j < limit - 1 implies (#[trigger] outcomes[j]) is Ok by {
            if outcomes[j] is Err {
                assert(0 <= j < limit - 1 && outcomes[j] is Err);
            }
        }
        limit - 1
    }
}

/// A load is all or nothing. It is committed exactly when each of its
/// `rows + 4` steps succeeded. A failure of any of these steps aborts it, with
/// the error of the first step that failed, and no later outcome changes
/// that.
pub proof fn law_all_or_nothing(rows: nat, outcomes: Seq<Result<(), LoadError>>)
    requires
        rows <= usize::MAX,
    ensures
        phase_after_all(rows, outcomes) is Committed <==> outcomes.len() >= step_count(rows)
            && forall|i: int| 0 <= i < step_count(rows) ==> (#[trigger] outcomes[i]) is Ok,
        phase_after_all(rows, outcomes) is Aborted <==> exists|i: int|
            0 <= i < outcomes.len() && i < step_count(rows) && (#[trigger] outcomes[i]) is Err,
        forall|i: int|
            0 <= i < outcomes.len() && i < step_count(rows) && (#[trigger] outcomes[i]) is Err
                && (forall|j: int| 0 <= j < i ==> (#[trigger] outcomes[j]) is Ok)
                ==> phase_after_all(rows, outcomes) == Phase::Aborted(outcomes[i]->Err_0),
{
    let limit: int = if outcomes.len() < step_count(rows) {
        outcomes.len() as int
    } else {
        step_count(rows) as int
    };
    if exists|i: int| 0 <= i < limit && (#[trigger] outcomes[i]) is Err {
        let first = lemma_first_failure(outcomes, limit);
        lemma_first_failure_aborts(rows, outcomes, first);
    } else {
        assert forall|j: int| 0 <= j < limit implies (#[trigger] outcomes[j]) is Ok by {
            if outcomes[j] is Err {
                assert(0 <= j < limit && outcomes[j] is Err);
            }
        }
        if outcomes.len() >= step_count(rows) {
            lemma_success_commits(rows, outcomes);
        } else {
            law_steps_in_order(rows, outcomes);
        }
    }
    assert forall|i: int|
        0 <= i < outcomes.len() && i < step_count(rows) && (#[trigger] outcomes[i]) is Err && (
        forall|j: int| 0 <= j < i ==> (#[trigger] outcomes[j]) is Ok) implies phase_after_all(
        rows,
        outcomes,
    ) == Phase::Aborted(outcomes[i]->Err_0) by {
        lemma_first_failure_aborts(rows, outcomes, i);
    }
}

/// What is known of a step that failed.
#[derive(Debug, Clone, Copy, PartialEq, Eq)]
pub struct Failure {
    /// The step that failed.
    pub step: Step,
    /// Whether the connection to the store is closed.
    pub connection_closed: bool,
    /// Whether a value could not be written in the type of its column.
    pub serialization: bool,
}

/// The error that a failed step stands for. A closed connection, and any
/// failure to open or to commit the transaction, means that the store is
/// unavailable; a row with a value that could not be serialized is an
/// encoding error; whatever else breaks the transfer is transient.
pub open spec fn error_of(failure: Failure) -> LoadError {
    if failure.connection_closed {
        LoadError::BackendUnavailable
    } else {
        match failure.step {
            Step::BeginTransaction => LoadError::BackendUnavailable,
            Step::Commit => LoadError::BackendUnavailable,
            Step::WriteRow { .. } => if failure.serialization {
                LoadError::Encoding
            } else {
                LoadError::TransientIo
            },
            _ => LoadError::TransientIo,
        }
    }
}

/// Classifies a failed step.
pub fn classify(failure: Failure) -> (error: LoadError)
    ensures
        error == error_of(failure),
{
    if failure.connection_closed {
        LoadError::BackendUnavailable
    } else {
        match failure.step {
            Step::BeginTransaction => LoadError::BackendUnavailable,
            Step::Commit => LoadError::BackendUnavailable,
            Step::WriteRow { .. } => if failure.serialization {
                LoadError::Encoding
            } else {
                LoadError::TransientIo
            },
            _ => LoadError::TransientIo,
        }
    }
}

/// One load of a batch of `rows` rows.
#[derive(Debug, Clone, Copy, PartialEq, Eq)]
pub struct Load {
    rows: usize,
    phase: Phase,
}

impl Load {
    /// The number of rows of the batch.
    pub closed spec fn rows(&self) -> nat {
        self.rows as nat
    }

    /// How far the load has come.
    pub closed spec fn phase(&self) -> Phase {
        self.phase
    }

    /// A load of `rows` rows, of which nothing has been done.
    pub fn new(rows: usize) -> (load: Self)
        ensures
            load.rows() == rows,
            load.phase() == Phase::Idle,
    {
        Load { rows, phase: Phase::Idle }
    }

    /// The step to take now.
    pub fn next_step(&self) -> (step: Step)
        ensures
            step == step_in(self.phase(), self.rows()),
    {
        match self.phase {
            Phase::Idle => Step::BeginTransaction,
            Phase::InTransaction => Step::OpenCopy,
            Phase::Copying { written } => if written < self.rows {
                Step::WriteRow { index: written }
            } else {
                Step::FinishCopy
            },
            Phase::Flushed => Step::Commit,
            Phase::Committed => Step::Done(Ok(())),
            Phase::Aborted(error) => Step::Done(Err(error)),
        }
    }

    /// Records how the step taken last has ended.
    pub fn record(&mut self, outcome: Result<(), LoadError>)
        ensures
            final(self).rows() == old(self).rows(),
            final(self).phase() == phase_after(old(self).phase(), old(self).rows(), outcome),
    {
        let next: Phase = match self.phase {
            Phase::Committed => Phase::Committed,
            Phase::Aborted(error) => Phase::Aborted(error),
            Phase::Idle => match outcome {
                Ok(()) => Phase::InTransaction,
                Err(error) => Phase::Aborted(error),
            },
            Phase::InTransaction => match outcome {
                Ok(()) => Phase::Copying { written: 0 },
                Err(error) => Phase::Aborted(error),
            },
            Phase::Copying { written } => match outcome {
                Ok(()) => if written < self.rows {
                    Phase::Copying { written: written + 1 }
                } else {
                    Phase::Flushed
                },
                Err(error) => Phase::Aborted(error),
            },
            Phase::Flushed => match outcome {
                Ok(()) => Phase::Committed,
                Err(error) => Phase::Aborted(error),
            },
        };
        self.phase = next;
    }

    /// The result of the load, once it is over.
    pub fn result(&self) -> (result: Option<Result<(), LoadError>>)
        ensures
            result == match self.phase() {
                Phase::Committed => Some(Ok::<(), LoadError>(())),
                Phase::Aborted(error) => Some(Err::<(), LoadError>(error)),
                _ => None,
            },
    {
        match self.phase {
            Phase::Committed => Some(Ok(())),
            Phase::Aborted(error) => Some(Err(error)),
            _ => None,
        }
    }
}

} // verus!
