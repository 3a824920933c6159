//! The worker loop as a state machine: it alternates between writing its
//! script and executing it, and the first failure ends it for good.
use vstd::prelude::*;
use crate::config::FAILURE_EXIT_STATUS;
use crate::paths::push_bytes;

verus! {

/// The `errno` value for "text file busy": the file to be executed is open
/// for writing somewhere.
pub const TEXT_FILE_BUSY: i32 = 26;

/// A failed operation, as the system reported it.
#[derive(Debug)]
pub struct Failure {
    /// The operating system's error code, where there is one.
    pub code: Option<i32>,
    /// A readable description of the failure.
    pub description: Vec<u8>,
}

/// Why a worker stopped.
#[derive(Debug)]
pub enum WorkerError {
    /// Creating, truncating, setting the permissions of, or writing the
    /// script file failed.
    ScriptCreationFailed { cause: Failure },
    /// The script could not be started as a process.
    ExecutionFailed { cause: Failure },
}

impl WorkerError {
    pub open spec fn cause_spec(&self) -> Failure {
        match self {
            WorkerError::ScriptCreationFailed { cause } => *cause,
            WorkerError::ExecutionFailed { cause } => *cause,
        }
    }

    /// Whether this is a process start refused because the script file was
    /// busy.
    pub open spec fn is_resource_busy_spec(&self) -> bool {
        &&& self is ExecutionFailed
        &&& self.cause_spec().code == Some(TEXT_FILE_BUSY)
    }

    /// The failure that stopped the worker.
    pub fn cause(&self) -> (r: &Failure)
        ensures
            *r == self.cause_spec(),
    {
        match self {
            WorkerError::ScriptCreationFailed { cause } => cause,
            WorkerError::ExecutionFailed { cause } => cause,
        }
    }

    /// Whether this is a process start refused because the script file was
    /// busy.
    pub fn is_resource_busy(&self) -> (r: bool)
        ensures
            r == self.is_resource_busy_spec(),
    {
        match self {
            WorkerError::ScriptCreationFailed { .. } => false,
            WorkerError::ExecutionFailed { cause } => match cause.code {
                Some(c) => c == TEXT_FILE_BUSY,
                None => false,
            },
        }
    }

    /// The status the process exits with when a worker stops.
    pub fn exit_status(&self) -> (r: i32)
        ensures
            r == FAILURE_EXIT_STATUS,
    {
        FAILURE_EXIT_STATUS
    }
}

/// Where a worker stands.
#[derive(Debug)]
pub enum Phase {
    /// Its next step writes the script.
    Writing,
    /// Its next step executes the script.
    Executing,
    /// It has stopped on an error; nothing follows.
    Terminated(WorkerError),
}

/// The phase after a step taken in `phase` ended with `outcome`.
pub open spec fn next_phase(phase: Phase, outcome: Result<(), Failure>) -> Phase {
    match phase {
        Phase::Writing => match outcome {
            Ok(_) => Phase::Executing,
            Err(f) => Phase::Terminated(WorkerError::ScriptCreationFailed { cause: f }),
        },
        Phase::Executing => match outcome {
            Ok(_) => Phase::Writing,
            Err(f) => Phase::Terminated(WorkerError::ExecutionFailed { cause: f }),
        },
        Phase::Terminated(e) => Phase::Terminated(e),
    }
}

/// The phase reached from `phase` through the step outcomes `outcomes`, in
/// order.
pub open spec fn run_phases(phase: Phase, outcomes: Seq<Result<(), Failure>>) -> Phase
    decreases outcomes.len(),
{
    if outcomes.len() == 0 {
        phase
    } else {
        run_phases(next_phase(phase, outcomes[0]), outcomes.drop_first())
    }
}

/// Moves a worker on once the step of `phase` has ended with `outcome`.
pub fn advance(phase: Phase, outcome: Result<(), Failure>) -> (r: Phase)
    ensures
        r == next_phase(phase, outcome),
{
    match phase {
        Phase::Writing => match outcome {
            Ok(_) => Phase::Executing,
            Err(f) => Phase::Terminated(WorkerError::ScriptCreationFailed { cause: f }),
        },
        Phase::Executing => match outcome {
            Ok(_) => Phase::Writing,
            Err(f) => Phase::Terminated(WorkerError::ExecutionFailed { cause: f }),
        },
        Phase::Terminated(e) => Phase::Terminated(e),
    }
}

/// The result of one iteration: the write step ended with `created`, and the
/// execution step, which is taken only after a successful write, with
/// `executed`.
pub open spec fn iteration_result(
    created: Result<(), Failure>,
    executed: Option<Result<(), Failure>>,
) -> Result<(), WorkerError> {
    match created {
        Err(f) => Err(WorkerError::ScriptCreationFailed { cause: f }),
        Ok(_) => match executed {
            Some(Err(g)) => Err(WorkerError::ExecutionFailed { cause: g }),
            _ => Ok(()),
        },
    }
}

/// Settles one iteration of a worker: writing the script, then executing it.
/// A failed write is reported as such and no execution takes place; a failed
/// start of the script is reported as an execution failure; otherwise the
/// worker goes on with the next iteration.
pub fn create_and_execute_script(
    created: Result<(), Failure>,
    executed: Option<Result<(), Failure>>,
) -> (r: Result<(), WorkerError>)
    requires
        created is Ok <==> executed is Some,
    ensures
        r == iteration_result(created, executed),
        r is Ok <==> run_phases(Phase::Writing, seq![created, executed->Some_0]) == Phase::Writing,
        r is Err ==> run_phases(Phase::Writing, seq![created, executed->Some_0]) == Phase::Terminated(
            r->Err_0,
        ),
{
    let ghost steps = seq![created, executed->Some_0];
    proof {
        let rest = steps.drop_first();
        assert(rest =~= seq![executed->Some_0]);
        assert(rest.drop_first() =~= Seq::<Result<(), Failure>>::empty());
        let p1 = next_phase(Phase::Writing, created);
        let p2 = next_phase(p1, executed->Some_0);
        assert(run_phases(p2, rest.drop_first()) == p2);
        assert(run_phases(p1, rest) == p2);
        assert(run_phases(Phase::Writing, steps) == p2);
    }
    let phase = advance(Phase::Writing, created);
    let phase = match executed {
        Some(outcome) => match phase {
            Phase::Executing => advance(Phase::Executing, outcome),
            other => other,
        },
        None => phase,
    };
    match phase {
        Phase::Terminated(e) => Err(e),
        _ => Ok(()),
    }
}

/// The phase that follows `phase` when its step succeeds.
pub open spec fn after_success(phase: Phase) -> Phase {
    next_phase(phase, Ok(()))
}

/// The error that stops a worker whose step in `phase` failed with `f`.
pub open spec fn failure_in(phase: Phase, f: Failure) -> WorkerError {
    match next_phase(phase, Err(f)) {
        Phase::Terminated(e) => e,
        _ => WorkerError::ExecutionFailed { cause: f },
    }
}

proof fn lemma_successes_from(phase: Phase, outcomes: Seq<Result<(), Failure>>)
    requires
        !(phase is Terminated),
        forall|i: int| 0 <= i < outcomes.len() ==> (#[trigger] outcomes[i]) is Ok,
    ensures
        run_phases(phase, outcomes) == if outcomes.len() % 2 == 0 {
            phase
        } else {
            after_success(phase)
        },
    decreases outcomes.len(),
{
    if outcomes.len() > 0 {
        let rest = outcomes.drop_first();
        assert(forall|i: int| 0 <= i < rest.len() ==> rest[i] == outcomes[i + 1]);
        assert(next_phase(phase, outcomes[0]) == after_success(phase));
        lemma_successes_from(after_success(phase), rest);
        assert(after_success(after_success(phase)) == phase);
    }
}

/// A worker whose steps all succeed never stops: it alternates between
/// writing and executing, one phase per step.
pub proof fn lemma_successes_never_terminate(outcomes: Seq<Result<(), Failure>>)
    requires
        forall|i: int| 0 <= i < outcomes.len() ==> (#[trigger] outcomes[i]) is Ok,
    ensures
        run_phases(Phase::Writing, outcomes) == if outcomes.len() % 2 == 0 {
            Phase::Writing
        } else {
            Phase::Executing
        },
{
    lemma_successes_from(Phase::Writing, outcomes);
}

/// A stopped worker stays stopped, with the same error, whatever follows.
pub proof fn lemma_terminated_is_final(e: WorkerError, outcomes: Seq<Result<(), Failure>>)
    ensures
        run_phases(Phase::Terminated(e), outcomes) == Phase::Terminated(e),
    decreases outcomes.len(),
{
    if outcomes.len() > 0 {
        lemma_terminated_is_final(e, outcomes.drop_first());
    }
}

proof fn lemma_first_failure_from(phase: Phase, outcomes: Seq<Result<(), Failure>>, k: int)
    requires
        !(phase is Terminated),
        0 <= k < outcomes.len(),
        forall|i: int| 0 <= i < k ==> (#[trigger] outcomes[i]) is Ok,
        outcomes[k] is Err,
    ensures
        run_phases(phase, outcomes) == Phase::Terminated(
            failure_in(
                if k % 2 == 0 {
                    phase
                } else {
                    after_success(phase)
                },
                outcomes[k]->Err_0,
            ),
        ),
    decreases k,
{
    let rest = outcomes.drop_first();
    if k == 0 {
        let e = failure_in(phase, outcomes[0]->Err_0);
        assert(next_phase(phase, outcomes[0]) == Phase::Terminated(e));
        lemma_terminated_is_final(e, rest);
    } else {
        assert(forall|i: int| 0 <= i < rest.len() ==> rest[i] == outcomes[i + 1]);
        assert(next_phase(phase, outcomes[0]) == after_success(phase));
        lemma_first_failure_from(after_success(phase), rest, k - 1);
        assert(after_success(after_success(phase)) == phase);
    }
}

/// The first failed step stops the worker at once, and for good: the error it
/// ends with carries that step's failure, as a failed script creation when
/// the step was a write (even positions, counting from zero) and as a failed
/// execution otherwise.
pub proof fn lemma_first_failure_stops_worker(outcomes: Seq<Result<(), Failure>>, k: int)
    requires
        0 <= k < outcomes.len(),
        forall|i: int| 0 <= i < k ==> (#[trigger] outcomes[i]) is Ok,
        outcomes[k] is Err,
    ensures
        run_phases(Phase::Writing, outcomes) == Phase::Terminated(
            if k % 2 == 0 {
                WorkerError::ScriptCreationFailed { cause: outcomes[k]->Err_0 }
            } else {
                WorkerError::ExecutionFailed { cause: outcomes[k]->Err_0 }
            },
        ),
{
    lemma_first_failure_from(Phase::Writing, outcomes, k);
}

/// The line reported when a worker stops: its script path, a colon and a
/// space, then the description of the failure.
pub open spec fn fatal_report_spec(path: Seq<u8>, error: WorkerError) -> Seq<u8> {
    path + seq![58u8, 32u8] + error.cause_spec().description@
}

/// The line reported when the worker that owns `path` stops on `error`.
pub fn fatal_report(path: &Vec<u8>, error: &WorkerError) -> (r: Vec<u8>)
    ensures
        r@ == fatal_report_spec(path@, *error),
{
    let mut r: Vec<u8> = Vec::new();
    push_bytes(&mut r, path);
    r.push(58u8);
    r.push(32u8);
    push_bytes(&mut r, &error.cause().description);
    assert(r@ =~= fatal_report_spec(path@, *error));
    r
}

} // verus!
