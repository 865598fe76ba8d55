//! The sandboxed code-execution lifecycle. The decisions of the lifecycle
//! form a verified state machine: a driver performs one container-runtime
//! step at a time (create, start, launch, collect output, remove) and
//! reports each outcome back. The machine guarantees that once an
//! environment was created, its removal is attempted on every path before
//! the run finishes, and that success of a finished run means exactly
//! "no stderr output was captured".

use vstd::assert_by_contradiction;
use vstd::prelude::*;
use vstd::string::StringExecFns;

use crate::models::ExecutionResult;
use crate::models::ExecutionResultModel;
use crate::text::dec_digits;
use crate::text::lemma_dec_digits_injective;
use crate::text::to_dec_string;

verus! {

/// Memory ceiling of one sandbox: 256 MiB.
pub const SANDBOX_MEMORY_BYTES: u64 = 256 * 1024 * 1024;

/// CPU share of one sandbox: half a core, in billionths.
pub const SANDBOX_NANO_CPUS: u64 = 500_000_000;

/// The prefix of every sandbox environment name.
pub open spec fn sandbox_name_prefix() -> Seq<char> {
    "student-code-"@
}

/// Configuration values for one isolated execution environment: no
/// network, fixed memory and CPU ceilings, no TTY, and a command that
/// keeps the environment alive for the timeout.
pub struct SandboxConfig {
    pub name: String,
    pub memory_bytes: u64,
    pub nano_cpus: u64,
    pub network_mode: String,
    pub tty: bool,
    pub attach_stdout: bool,
    pub attach_stderr: bool,
    pub cmd: Vec<String>,
}

/// The configuration for one run: a uniquely named environment (the name
/// embeds the caller's nonce in decimal), resource ceilings, no network,
/// and a keep-alive command bounded by the timeout.
pub fn plan_sandbox(nonce: u128, timeout_secs: u64) -> (r: SandboxConfig)
    ensures
        r.name@ == sandbox_name_prefix() + dec_digits(nonce as nat),
        r.memory_bytes == SANDBOX_MEMORY_BYTES,
        r.nano_cpus == SANDBOX_NANO_CPUS,
        r.network_mode@ == "none"@,
        !r.tty,
        r.attach_stdout,
        r.attach_stderr,
        r.cmd.deep_view() == seq!["sleep"@, dec_digits(timeout_secs as nat)],
{
    let mut name = String::from_str("student-code-");
    name.append(to_dec_string(nonce).as_str());
    let mut cmd: Vec<String> = Vec::new();
    cmd.push(String::from_str("sleep"));
    cmd.push(to_dec_string(timeout_secs as u128));
    proof {
        assert(cmd.deep_view() =~= seq!["sleep"@, dec_digits(timeout_secs as nat)]);
    }
    SandboxConfig {
        name,
        memory_bytes: SANDBOX_MEMORY_BYTES,
        nano_cpus: SANDBOX_NANO_CPUS,
        network_mode: String::from_str("none"),
        tty: false,
        attach_stdout: true,
        attach_stderr: true,
        cmd,
    }
}

/// Distinct nonces give distinct environment names: the decimal rendering
/// is injective, so concurrent runs never collide on a name.
pub proof fn lemma_sandbox_names_distinct(n1: nat, n2: nat)
    requires
        n1 != n2,
    ensures
        sandbox_name_prefix() + dec_digits(n1) != sandbox_name_prefix() + dec_digits(n2),
{
    let p = sandbox_name_prefix();
    let s1 = p + dec_digits(n1);
    let s2 = p + dec_digits(n2);
    assert_by_contradiction!(s1 != s2, {
        assert(dec_digits(n1) =~= s1.subrange(p.len() as int, s1.len() as int));
        assert(dec_digits(n2) =~= s2.subrange(p.len() as int, s2.len() as int));
        lemma_dec_digits_injective(n1, n2);
    });
}

/// Failures of the sandbox infrastructure. Each is fatal to the call;
/// a teardown failure is distinct from every code-execution error.
#[derive(Clone, Copy, Debug, PartialEq, Eq, Structural)]
pub enum SandboxFailure {
    CreateFailed,
    StartFailed,
    LaunchFailed,
    RemoveFailed,
}

/// The next container-runtime step a driver must perform.
#[derive(Clone, Copy, Debug, PartialEq, Eq, Structural)]
pub enum SandboxStep {
    Create,
    Start,
    Launch,
    AwaitOutput,
    Remove,
    Finished,
}

/// Where one run stands in its lifecycle.
#[derive(Clone, Copy, Debug)]
pub enum RunPhase {
    Creating,
    Starting,
    Launching,
    Collecting,
    Removing { failure: Option<SandboxFailure> },
    Done { outcome: Result<(), SandboxFailure> },
}

/// The outcome of one step, reported back by the driver. Output chunks
/// arrive only while collecting.
#[derive(Clone, Debug)]
pub enum SandboxEvent {
    Succeeded,
    Failed,
    Stdout(String),
    Stderr(String),
    OtherOutput,
    OutputDone,
}

/// One sandboxed run: its phase, the two output streams collected so far,
/// and bookkeeping for the cleanup guarantee.
pub struct SandboxRun {
    pub phase: RunPhase,
    pub stdout: String,
    pub stderr: String,
    pub created: bool,
    pub remove_attempted: bool,
    pub removed: bool,
}

/// Mathematical model of a `SandboxRun`.
pub ghost struct RunModel {
    pub phase: RunPhase,
    pub stdout: Seq<char>,
    pub stderr: Seq<char>,
    pub created: bool,
    pub remove_attempted: bool,
    pub removed: bool,
}

impl View for SandboxRun {
    type V = RunModel;

    open spec fn view(&self) -> RunModel {
        RunModel {
            phase: self.phase,
            stdout: self.stdout@,
            stderr: self.stderr@,
            created: self.created,
            remove_attempted: self.remove_attempted,
            removed: self.removed,
        }
    }
}

/// The model of a fresh run.
pub open spec fn init_run() -> RunModel {
    RunModel {
        phase: RunPhase::Creating,
        stdout: Seq::empty(),
        stderr: Seq::empty(),
        created: false,
        remove_attempted: false,
        removed: false,
    }
}

/// The complete transition table of the lifecycle. An event that does not
/// fit the current phase leaves the run unchanged. Every failure after a
/// successful creation routes through `Removing`, so teardown is attempted
/// on success, on execution error and on infrastructure failure alike; a
/// teardown failure takes precedence in the reported outcome.
pub open spec fn spec_advance(r: RunModel, ev: SandboxEvent) -> RunModel {
    match r.phase {
        RunPhase::Creating => match ev {
            SandboxEvent::Succeeded => RunModel {
                phase: RunPhase::Starting,
                created: true,
                ..r
            },
            SandboxEvent::Failed => RunModel {
                phase: RunPhase::Done { outcome: Err(SandboxFailure::CreateFailed) },
                ..r
            },
            _ => r,
        },
        RunPhase::Starting => match ev {
            SandboxEvent::Succeeded => RunModel { phase: RunPhase::Launching, ..r },
            SandboxEvent::Failed => RunModel {
                phase: RunPhase::Removing { failure: Some(SandboxFailure::StartFailed) },
                ..r
            },
            _ => r,
        },
        RunPhase::Launching => match ev {
            SandboxEvent::Succeeded => RunModel { phase: RunPhase::Collecting, ..r },
            SandboxEvent::Failed => RunModel {
                phase: RunPhase::Removing { failure: Some(SandboxFailure::LaunchFailed) },
                ..r
            },
            _ => r,
        },
        RunPhase::Collecting => match ev {
            SandboxEvent::Stdout(s) => RunModel { stdout: r.stdout + s@, ..r },
            SandboxEvent::Stderr(s) => RunModel { stderr: r.stderr + s@, ..r },
            SandboxEvent::OtherOutput => r,
            SandboxEvent::OutputDone => RunModel {
                phase: RunPhase::Removing { failure: None },
                ..r
            },
            _ => r,
        },
        RunPhase::Removing { failure } => match ev {
            SandboxEvent::Succeeded => RunModel {
                phase: RunPhase::Done {
                    outcome: match failure {
                        Some(f) => Err(f),
                        None => Ok(()),
                    },
                },
                remove_attempted: true,
                removed: true,
                ..r
            },
            SandboxEvent::Failed => RunModel {
                phase: RunPhase::Done { outcome: Err(SandboxFailure::RemoveFailed) },
                remove_attempted: true,
                removed: false,
                ..r
            },
            _ => r,
        },
        RunPhase::Done { .. } => r,
    }
}

impl SandboxRun {
    /// A fresh run, before any environment exists.
    pub fn new() -> (r: SandboxRun)
        ensures
            r@ == init_run(),
    {
        SandboxRun {
            phase: RunPhase::Creating,
            stdout: String::new(),
            stderr: String::new(),
            created: false,
            remove_attempted: false,
            removed: false,
        }
    }

    /// The step the driver must perform next.
    pub fn next_step(&self) -> (r: SandboxStep)
        ensures
            r == (match self@.phase {
                RunPhase::Creating => SandboxStep::Create,
                RunPhase::Starting => SandboxStep::Start,
                RunPhase::Launching => SandboxStep::Launch,
                RunPhase::Collecting => SandboxStep::AwaitOutput,
                RunPhase::Removing { .. } => SandboxStep::Remove,
                RunPhase::Done { .. } => SandboxStep::Finished,
            }),
    {
        match self.phase {
            RunPhase::Creating => SandboxStep::Create,
            RunPhase::Starting => SandboxStep::Start,
            RunPhase::Launching => SandboxStep::Launch,
            RunPhase::Collecting => SandboxStep::AwaitOutput,
            RunPhase::Removing { .. } => SandboxStep::Remove,
            RunPhase::Done { .. } => SandboxStep::Finished,
        }
    }

    /// Feeds the outcome of the pending step into the machine.
    pub fn advance(&mut self, ev: SandboxEvent)
        ensures
            final(self)@ == spec_advance(old(self)@, ev),
    {
        match self.phase {
            RunPhase::Creating => match ev {
                SandboxEvent::Succeeded => {
                    self.phase = RunPhase::Starting;
                    self.created = true;
                },
                SandboxEvent::Failed => {
                    self.phase = RunPhase::Done {
                        outcome: Err(SandboxFailure::CreateFailed),
                    };
                },
                _ => {},
            },
            RunPhase::Starting => match ev {
                SandboxEvent::Succeeded => {
                    self.phase = RunPhase::Launching;
                },
                SandboxEvent::Failed => {
                    self.phase = RunPhase::Removing {
                        failure: Some(SandboxFailure::StartFailed),
                    };
                },
                _ => {},
            },
            RunPhase::Launching => match ev {
                SandboxEvent::Succeeded => {
                    self.phase = RunPhase::Collecting;
                },
                SandboxEvent::Failed => {
                    self.phase = RunPhase::Removing {
                        failure: Some(SandboxFailure::LaunchFailed),
                    };
                },
                _ => {},
            },
            RunPhase::Collecting => match ev {
                SandboxEvent::Stdout(s) => {
                    self.stdout.append(s.as_str());
                },
                SandboxEvent::Stderr(s) => {
                    self.stderr.append(s.as_str());
                },
                SandboxEvent::OtherOutput => {},
                SandboxEvent::OutputDone => {
                    self.phase = RunPhase::Removing { failure: None };
                },
                _ => {},
            },
            RunPhase::Removing { failure } => match ev {
                SandboxEvent::Succeeded => {
                    self.phase = RunPhase::Done {
                        outcome: match failure {
                            Some(f) => Err(f),
                            None => Ok(()),
                        },
                    };
                    self.remove_attempted = true;
                    self.removed = true;
                },
                SandboxEvent::Failed => {
                    self.phase = RunPhase::Done {
                        outcome: Err(SandboxFailure::RemoveFailed),
                    };
                    self.remove_attempted = true;
                    self.removed = false;
                },
                _ => {},
            },
            RunPhase::Done { .. } => {},
        }
    }

    /// The result of a finished run, with the elapsed wall-clock time
    /// measured by the driver. Success means exactly that no stderr
    /// content was captured, independent of any exit code.
    pub fn finish(&self, elapsed_ms: u64) -> (r: Result<ExecutionResult, SandboxFailure>)
        requires
            self@.phase is Done,
        ensures
            match self@.phase {
                RunPhase::Done { outcome } => match outcome {
                    Ok(_) => r matches Ok(er) && er@ == result_model(
                        self@.stdout,
                        self@.stderr,
                        elapsed_ms,
                    ),
                    Err(f) => r == Result::<ExecutionResult, SandboxFailure>::Err(f),
                },
                _ => false,
            },
    {
        match self.phase {
            RunPhase::Done { outcome } => match outcome {
                Ok(_) => {
                    let success = self.stderr.as_str().unicode_len() == 0;
                    Ok(
                        ExecutionResult {
                            success,
                            output: self.stdout.clone(),
                            error: if success {
                                None
                            } else {
                                Some(self.stderr.clone())
                            },
                            execution_time_ms: elapsed_ms,
                        },
                    )
                },
                Err(f) => Err(f),
            },
            _ => Err(SandboxFailure::CreateFailed),
        }
    }
}

/// The execution result assembled from the two output streams: success
/// holds exactly when stderr stayed empty, and the error field carries the
/// stderr text exactly when there was any.
pub open spec fn result_model(out: Seq<char>, err: Seq<char>, ms: u64) -> ExecutionResultModel {
    ExecutionResultModel {
        success: err.len() == 0,
        output: out,
        error: if err.len() == 0 {
            None
        } else {
            Some(err)
        },
        execution_time_ms: ms,
    }
}

/// For every collected output: the result reports success exactly when no
/// stderr content was captured, and carries the stderr text otherwise.
pub proof fn lemma_success_iff_no_stderr(out: Seq<char>, err: Seq<char>, ms: u64)
    ensures
        result_model(out, err, ms).success <==> err.len() == 0,
        !result_model(out, err, ms).success <==> result_model(out, err, ms).error == Some(err),
        result_model(out, err, ms).output == out,
        result_model(out, err, ms).execution_time_ms == ms,
{
}

/// The healthiness invariant of a run: past creation the flag is set, a
/// finished run has attempted teardown whenever an environment existed,
/// and a fully successful run has removed its environment.
pub open spec fn run_inv(r: RunModel) -> bool {
    &&& (r.phase matches RunPhase::Creating ==> !r.created)
    &&& (r.phase matches RunPhase::Starting ==> r.created)
    &&& (r.phase matches RunPhase::Launching ==> r.created)
    &&& (r.phase matches RunPhase::Collecting ==> r.created)
    &&& (r.phase matches RunPhase::Removing { .. } ==> r.created)
    &&& (r.phase matches RunPhase::Done { .. } ==> (r.created ==> r.remove_attempted))
    &&& (r.phase matches RunPhase::Done { outcome: Ok(u) } ==> r.created && r.removed)
    &&& (r.phase matches RunPhase::Done { outcome: Err(f) } && f != SandboxFailure::CreateFailed
        && f != SandboxFailure::RemoveFailed ==> r.removed)
    &&& (r.removed ==> r.remove_attempted)
}

/// One transition preserves the healthiness invariant.
pub proof fn lemma_advance_preserves_inv(r: RunModel, ev: SandboxEvent)
    requires
        run_inv(r),
    ensures
        run_inv(spec_advance(r, ev)),
{
}

/// The run reached by feeding the events of `evs` in order.
pub open spec fn run_events(r: RunModel, evs: Seq<SandboxEvent>) -> RunModel
    decreases evs.len(),
{
    if evs.len() == 0 {
        r
    } else {
        run_events(spec_advance(r, evs[0]), evs.drop_first())
    }
}

/// No environment leaks: whatever the driver reports, a fresh run that
/// reaches `Done` has attempted teardown whenever an environment was
/// created, and every outcome other than a creation or teardown failure
/// means the environment was in fact removed.
pub proof fn lemma_no_leaked_environment(evs: Seq<SandboxEvent>)
    ensures
        ({
            let f = run_events(init_run(), evs);
            &&& (f.phase matches RunPhase::Done { .. } ==> (f.created ==> f.remove_attempted))
            &&& (f.phase matches RunPhase::Done { outcome: Ok(u) } ==> f.removed)
            &&& (f.phase matches RunPhase::Done { outcome: Err(e) } && e
                != SandboxFailure::CreateFailed && e != SandboxFailure::RemoveFailed
                ==> f.removed)
        }),
{
    lemma_run_events_inv(init_run(), evs);
}

/// The healthiness invariant is inductive over whole event sequences.
pub proof fn lemma_run_events_inv(r: RunModel, evs: Seq<SandboxEvent>)
    requires
        run_inv(r),
    ensures
        run_inv(run_events(r, evs)),
    decreases evs.len(),
{
    if evs.len() > 0 {
        lemma_advance_preserves_inv(r, evs[0]);
        lemma_run_events_inv(spec_advance(r, evs[0]), evs.drop_first());
    }
}

/// The concatenation of a submission with grading code, as executed by
/// the test-augmented variant of the sandbox.
pub fn combine_with_tests(code: &str, test_code: &str) -> (r: String)
    ensures
        r@ == code@ + "\n\n"@ + test_code@,
{
    let mut r = String::from_str(code);
    r.append("\n\n");
    r.append(test_code);
    r
}

} // verus!
