//! Running one command to its end: what is asked of the operating system, and what is
//! made of the way the process ended.
//!
//! The caller starts the process and reports what happened as [`ProcessEvent`]s. The
//! [`Invocation`] answers each event with what to do next, and with the result once the
//! process has ended, has been given up on, or could not be started.

use crate::error::Error;
use crate::text::from_utf8;
use vstd::prelude::*;
use vstd::string::StringExecFns;
use vstd::utf8::{decode_utf8, valid_utf8};

verus! {

/// The time, in milliseconds, that a command is given where the caller sets none.
pub const DEFAULT_TIMEOUT: u64 = 5000;

/// What is needed to start one process. Its standard input is closed, and its standard
/// output and standard error are captured, never inherited.
#[derive(Debug, Clone, PartialEq, Eq)]
pub struct ProcessRequest {
    /// The path of the executable.
    pub program: String,
    /// All the arguments, in order.
    pub arguments: Vec<String>,
    /// The time that the process is given, in milliseconds.
    pub timeout: u64,
    /// Whether the text of standard error follows that of standard output in the result.
    pub combined_output: bool,
}

/// What the caller saw of the process.
#[derive(Debug, Clone, PartialEq, Eq)]
pub enum ProcessEvent {
    /// The process is running.
    Started,
    /// The process could not be started.
    SpawnFailed { message: String },
    /// The process ended by itself, with all that it wrote.
    Exited { success: bool, stdout: Vec<u8>, stderr: Vec<u8> },
    /// Waiting for the process failed.
    WaitFailed { message: String },
    /// The time given to the process is over and it has not ended.
    TimedOut,
}

/// Where an invocation stands.
#[derive(Debug, Clone, Copy, PartialEq, Eq, Structural)]
pub enum ProcessState {
    /// The start of the process was asked for.
    Spawned,
    /// The process runs and is waited for.
    Running,
    /// The process ended by itself.
    Completed { success: bool },
    /// The process was given up on.
    TimedOut,
    /// The process never ran.
    SpawnFailed,
    /// The process was lost while it was waited for.
    WaitFailed,
}

impl ProcessState {
    /// Whether nothing can follow the state.
    pub open spec fn terminal(self) -> bool {
        !(self is Spawned || self is Running)
    }

    /// Whether nothing can follow the state.
    pub fn is_terminal(&self) -> (r: bool)
        ensures
            r == self.terminal(),
    {
        match self {
            ProcessState::Spawned => false,
            ProcessState::Running => false,
            _ => true,
        }
    }
}

/// What the caller has to do next.
#[derive(Debug, PartialEq, Eq)]
pub enum ProcessAction {
    /// Wait for the process to end, for at most so many milliseconds.
    Await { timeout: u64 },
    /// Let go of the process, after killing it where `kill` is set, and hand `result`
    /// to whoever asked for the command.
    Release { kill: bool, result: Result<String, Error> },
    /// Nothing: the event does not belong to the state.
    Ignore,
}

/// The message of the error for output that is not text.
pub open spec fn undecodable() -> Seq<char> {
    "the output is not valid UTF-8"@
}

/// What becomes of a process that ended by itself: the text of its output where it
/// succeeded, both texts in an error where it failed, and an error where what it wrote
/// is not valid UTF-8.
pub open spec fn exit_result(
    success: bool,
    stdout: Seq<u8>,
    stderr: Seq<u8>,
    combined_output: bool,
    result: Result<String, Error>,
) -> bool {
    if !valid_utf8(stdout) || !valid_utf8(stderr) {
        result matches Err(Error::CommandError { message }) && message@ == undecodable()
    } else if !success {
        result matches Err(Error::CommandFailedError { stdout: out, stderr: err }) && out@
            == decode_utf8(stdout) && err@ == decode_utf8(stderr)
    } else if combined_output {
        result matches Ok(text) && text@ == decode_utf8(stdout) + decode_utf8(stderr)
    } else {
        result matches Ok(text) && text@ == decode_utf8(stdout)
    }
}

/// The state that follows `state` on `event`. An event that does not belong to the
/// state changes nothing; no event leads out of a terminal state.
pub open spec fn next_state(state: ProcessState, event: ProcessEvent) -> ProcessState {
    match (state, event) {
        (ProcessState::Spawned, ProcessEvent::Started) => ProcessState::Running,
        (ProcessState::Spawned, ProcessEvent::SpawnFailed { .. }) => ProcessState::SpawnFailed,
        (ProcessState::Running, ProcessEvent::Exited { success, .. }) => ProcessState::Completed {
            success,
        },
        (ProcessState::Running, ProcessEvent::WaitFailed { .. }) => ProcessState::WaitFailed,
        (ProcessState::Running, ProcessEvent::TimedOut) => ProcessState::TimedOut,
        _ => state,
    }
}

/// Whether `action` is what the caller has to do when `event` arrives in `state`.
pub open spec fn action_is(
    state: ProcessState,
    event: ProcessEvent,
    timeout: u64,
    combined_output: bool,
    action: ProcessAction,
) -> bool {
    match (state, event) {
        (ProcessState::Spawned, ProcessEvent::Started) => action == (ProcessAction::Await {
            timeout,
        }),
        (ProcessState::Spawned, ProcessEvent::SpawnFailed { message }) => {
            &&& action matches ProcessAction::Release { kill, result }
            &&& !kill
            &&& result matches Err(Error::SpawnError { message: reported })
            &&& reported@ == message@
        },
        (ProcessState::Running, ProcessEvent::Exited { success, stdout, stderr }) => {
            &&& action matches ProcessAction::Release { kill, result }
            &&& !kill
            &&& exit_result(success, stdout@, stderr@, combined_output, result)
        },
        (ProcessState::Running, ProcessEvent::WaitFailed { message }) => {
            &&& action matches ProcessAction::Release { kill, result }
            &&& kill
            &&& result matches Err(Error::CommandError { message: reported })
            &&& reported@ == message@
        },
        (ProcessState::Running, ProcessEvent::TimedOut) => {
            &&& action matches ProcessAction::Release { kill, result }
            &&& kill
            &&& result == Err::<String, Error>(Error::CommandTimeoutError)
        },
        _ => action is Ignore,
    }
}

/// The result of a process that ended by itself.
pub fn exit_outcome(success: bool, stdout: Vec<u8>, stderr: Vec<u8>, combined_output: bool) -> (r:
    Result<String, Error>)
    ensures
        exit_result(success, stdout@, stderr@, combined_output, r),
{
    let stdout = from_utf8(stdout);
    let stderr = from_utf8(stderr);
    match (stdout, stderr) {
        (Some(stdout), Some(stderr)) => {
            if !success {
                Err(Error::CommandFailedError { stdout, stderr })
            } else if combined_output {
                let mut combined = String::new();
                combined.append(stdout.as_str());
                combined.append(stderr.as_str());
                assert(combined@ =~= stdout@ + stderr@);
                Ok(combined)
            } else {
                Ok(stdout)
            }
        },
        _ => Err(
            Error::CommandError { message: String::from_str("the output is not valid UTF-8") },
        ),
    }
}

/// One run of one process, from the request to start it to its release.
#[derive(Debug, Clone)]
pub struct Invocation {
    /// Where the invocation stands.
    pub state: ProcessState,
    /// The time that the process is given, in milliseconds.
    pub timeout: u64,
    /// Whether the text of standard error follows that of standard output in the result.
    pub combined_output: bool,
}

impl Invocation {
    /// The invocation of a request whose process is about to be started.
    pub fn new(request: &ProcessRequest) -> (r: Invocation)
        ensures
            r.state is Spawned,
            r.timeout == request.timeout,
            r.combined_output == request.combined_output,
    {
        Invocation {
            state: ProcessState::Spawned,
            timeout: request.timeout,
            combined_output: request.combined_output,
        }
    }

    /// Takes note of an event and says what to do next.
    pub fn step(&mut self, event: ProcessEvent) -> (action: ProcessAction)
        ensures
            final(self).state == next_state(old(self).state, event),
            final(self).timeout == old(self).timeout,
            final(self).combined_output == old(self).combined_output,
            action_is(old(self).state, event, old(self).timeout, old(self).combined_output, action),
    {
        match self.state {
            ProcessState::Spawned => match event {
                ProcessEvent::Started => {
                    self.state = ProcessState::Running;
                    ProcessAction::Await { timeout: self.timeout }
                },
                ProcessEvent::SpawnFailed { message } => {
                    self.state = ProcessState::SpawnFailed;
                    ProcessAction::Release { kill: false, result: Err(Error::SpawnError { message }) }
                },
                _ => ProcessAction::Ignore,
            },
            ProcessState::Running => match event {
                ProcessEvent::Exited { success, stdout, stderr } => {
                    self.state = ProcessState::Completed { success };
                    ProcessAction::Release {
                        kill: false,
                        result: exit_outcome(success, stdout, stderr, self.combined_output),
                    }
                },
                ProcessEvent::WaitFailed { message } => {
                    self.state = ProcessState::WaitFailed;
                    ProcessAction::Release {
                        kill: true,
                        result: Err(Error::CommandError { message }),
                    }
                },
                ProcessEvent::TimedOut => {
                    self.state = ProcessState::TimedOut;
                    ProcessAction::Release { kill: true, result: Err(Error::CommandTimeoutError) }
                },
                _ => ProcessAction::Ignore,
            },
            _ => ProcessAction::Ignore,
        }
    }
}

/// No event leads out of a terminal state, and none asks anything of the caller there:
/// an invocation is over once its process is released.
pub proof fn terminal_states_are_final(
    state: ProcessState,
    event: ProcessEvent,
    timeout: u64,
    combined_output: bool,
    action: ProcessAction,
)
    requires
        state.terminal(),
        action_is(state, event, timeout, combined_output, action),
    ensures
        next_state(state, event) == state,
        action is Ignore,
{
}

/// The process is released exactly when the invocation reaches a terminal state, and
/// it is killed first whenever it did not end by itself.
pub proof fn release_on_reaching_a_terminal_state(
    state: ProcessState,
    event: ProcessEvent,
    timeout: u64,
    combined_output: bool,
    action: ProcessAction,
)
    requires
        !state.terminal(),
        action_is(state, event, timeout, combined_output, action),
    ensures
        next_state(state, event).terminal() <==> action is Release,
        action matches ProcessAction::Release { kill, .. } ==> (kill <==> (next_state(
            state,
            event,
        ) is TimedOut || next_state(state, event) is WaitFailed)),
{
}

/// A process that runs past its time is killed and released, and the result is the
/// timeout error, whatever the process had written.
pub proof fn timeout_kills_and_reports(timeout: u64, combined_output: bool, action: ProcessAction)
    requires
        action_is(ProcessState::Running, ProcessEvent::TimedOut, timeout, combined_output, action),
    ensures
        action == (ProcessAction::Release {
            kill: true,
            result: Err::<String, Error>(Error::CommandTimeoutError),
        }),
        next_state(ProcessState::Running, ProcessEvent::TimedOut).terminal(),
{
}

/// A process that ends with a nonzero status gives the failure error with all that it
/// wrote to both streams, whether or not the combined output was asked for.
pub proof fn failure_carries_both_outputs(
    stdout: Seq<u8>,
    stderr: Seq<u8>,
    combined_output: bool,
    result: Result<String, Error>,
)
    requires
        valid_utf8(stdout),
        valid_utf8(stderr),
        exit_result(false, stdout, stderr, combined_output, result),
    ensures
        result matches Err(Error::CommandFailedError { stdout: out, stderr: err }) && out@
            == decode_utf8(stdout) && err@ == decode_utf8(stderr),
{
}

} // verus!
