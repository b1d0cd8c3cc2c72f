//! One invocation of `wasm-pack`, from the call to its outcome, as a state
//! machine. The machine decides; whoever drives it reads the host, fetches
//! the embedded binary, writes and deletes the temporary executable and runs
//! the process, and reports back what happened.

use crate::error::{Failure, WasmPackError};
use crate::executable::{
    get_cli_executable_file, is_random_token, planned_executable, ExecutablePlan,
    TemporaryExecutable,
};
use crate::output::{
    get_stdout_and_stderr_from_process_output, Captured, ProcessOutput, ProcessRecord,
    WasmPackOutput,
};
use crate::platform::{guess_platform, platform_of, resolve_platform, Platform};
use crate::text::captured_text;
use vstd::prelude::*;

verus! {

/// How far an invocation has come.
#[derive(Debug)]
pub enum Invocation {
    /// Nothing has happened yet.
    Idle,
    /// The host has an embedded binary; it is being fetched.
    PlatformResolved { platform: Platform },
    /// The binary is at hand; the temporary executable is being written.
    PayloadLoaded,
    /// The temporary executable is on disk; the process is being run.
    ExecutableMaterialized,
    /// The process has run to its end; the temporary executable is being
    /// deleted.
    ProcessLaunched { succeeded: bool, stdout: String, stderr: String },
    /// The process exited with code zero and nothing is left behind.
    Completed { output: WasmPackOutput },
    /// The invocation failed.
    Failed { error: WasmPackError },
}

/// What the driver reports to the machine.
#[derive(Debug)]
pub enum Event {
    /// The invocation was asked for, on a host of this operating system and
    /// CPU architecture.
    Invoked { os: String, arch: String },
    /// The embedded binary of the platform was fetched.
    PayloadLoaded { payload: &'static [u8] },
    /// Writing the temporary executable ended.
    Materialized(Result<(), std::io::Error>),
    /// Running the temporary executable ended: with what the process left
    /// behind, whatever its exit code, or with the reason why it did not
    /// start.
    Launched(Result<ProcessOutput, std::io::Error>),
    /// Deleting the temporary executable ended.
    Deleted(Result<(), std::io::Error>),
}

/// What the machine asks the driver to do next.
#[derive(Debug)]
pub enum Action {
    /// Fetch the embedded binary of the platform.
    LoadPayload { platform: Platform },
    /// Write the temporary executable, with its mode, and sync it to disk.
    Materialize { executable: TemporaryExecutable },
    /// Run the temporary executable with the caller's arguments and capture
    /// what it prints.
    Launch,
    /// Delete the temporary executable.
    Delete,
    /// Hand the outcome to the caller: the invocation is over.
    Return,
}

/// An `Invocation` as plain values.
pub enum InvocationState {
    Idle,
    PlatformResolved { platform: Platform },
    PayloadLoaded,
    ExecutableMaterialized,
    ProcessLaunched { succeeded: bool, captured: Captured },
    Completed { output: Captured },
    Failed { error: Failure },
}

/// An `Event` as plain values.
pub enum Occurrence {
    Invoked { os: Seq<char>, arch: Seq<char> },
    PayloadLoaded { payload: Seq<u8> },
    Materialized(Result<(), std::io::Error>),
    Launched(Result<ProcessRecord, std::io::Error>),
    Deleted(Result<(), std::io::Error>),
}

/// An `Action` as plain values.
pub enum Request {
    LoadPayload { platform: Platform },
    Materialize { executable: ExecutablePlan },
    Launch,
    Delete,
    Return,
}

impl View for Invocation {
    type V = InvocationState;

    open spec fn view(&self) -> InvocationState {
        match self {
            Invocation::Idle => InvocationState::Idle,
            Invocation::PlatformResolved { platform } => {
                InvocationState::PlatformResolved { platform: *platform }
            },
            Invocation::PayloadLoaded => InvocationState::PayloadLoaded,
            Invocation::ExecutableMaterialized => InvocationState::ExecutableMaterialized,
            Invocation::ProcessLaunched { succeeded, stdout, stderr } => {
                InvocationState::ProcessLaunched {
                    succeeded: *succeeded,
                    captured: Captured { stdout: stdout@, stderr: stderr@ },
                }
            },
            Invocation::Completed { output } => InvocationState::Completed { output: output@ },
            Invocation::Failed { error } => InvocationState::Failed { error: error@ },
        }
    }
}

impl View for Event {
    type V = Occurrence;

    open spec fn view(&self) -> Occurrence {
        match self {
            Event::Invoked { os, arch } => Occurrence::Invoked { os: os@, arch: arch@ },
            Event::PayloadLoaded { payload } => Occurrence::PayloadLoaded { payload: payload@ },
            Event::Materialized(result) => Occurrence::Materialized(*result),
            Event::Launched(result) => Occurrence::Launched(
                match result {
                    Ok(output) => Ok(output@),
                    Err(cause) => Err(*cause),
                },
            ),
            Event::Deleted(result) => Occurrence::Deleted(*result),
        }
    }
}

impl View for Action {
    type V = Request;

    open spec fn view(&self) -> Request {
        match self {
            Action::LoadPayload { platform } => Request::LoadPayload { platform: *platform },
            Action::Materialize { executable } => Request::Materialize { executable: executable@ },
            Action::Launch => Request::Launch,
            Action::Delete => Request::Delete,
            Action::Return => Request::Return,
        }
    }
}

impl InvocationState {
    /// Whether the invocation is over.
    pub open spec fn is_terminal(self) -> bool {
        self is Completed || self is Failed
    }

    /// Whether the machine, in this state, is waiting for `event`. It starts
    /// only on a host that has an embedded binary, and when it is over it
    /// waits for nothing.
    pub open spec fn accepts(self, event: Occurrence) -> bool {
        match (self, event) {
            (InvocationState::Idle, Occurrence::Invoked { os, arch }) => platform_of(os, arch) is Ok,
            (InvocationState::PlatformResolved { .. }, Occurrence::PayloadLoaded { .. }) => true,
            (InvocationState::PayloadLoaded, Occurrence::Materialized(_)) => true,
            (InvocationState::ExecutableMaterialized, Occurrence::Launched(_)) => true,
            (InvocationState::ProcessLaunched { .. }, Occurrence::Deleted(_)) => true,
            _ => false,
        }
    }

    /// Where the machine goes on an event that it accepts, and what it asks
    /// for. `token` is the random token drawn for the name of the temporary
    /// executable.
    ///
    /// A failure to write the temporary executable, to start the process or
    /// to delete the temporary executable ends the invocation with that
    /// failure. After a process that did not start, the temporary executable
    /// is left where it is. A process that started is followed by the
    /// deletion of the temporary executable whatever its exit code, and only
    /// a deletion that went well lets the exit code decide between the output
    /// and the failure that `wasm-pack` reported.
    pub open spec fn next(self, event: Occurrence, token: Seq<char>) -> (InvocationState, Request)
        recommends
            self.accepts(event),
    {
        match (self, event) {
            (InvocationState::Idle, Occurrence::Invoked { os, arch }) => {
                let platform = platform_of(os, arch)->Ok_0;
                (InvocationState::PlatformResolved { platform }, Request::LoadPayload { platform })
            },
            (
                InvocationState::PlatformResolved { platform },
                Occurrence::PayloadLoaded { payload },
            ) => (
                InvocationState::PayloadLoaded,
                Request::Materialize {
                    executable: planned_executable(platform, payload, token),
                },
            ),
            (InvocationState::PayloadLoaded, Occurrence::Materialized(Ok(_))) => (
                InvocationState::ExecutableMaterialized,
                Request::Launch,
            ),
            (InvocationState::PayloadLoaded, Occurrence::Materialized(Err(cause))) => (
                InvocationState::Failed {
                    error: Failure::CouldntSaveCliExecutableToTemporaryFile(cause),
                },
                Request::Return,
            ),
            (InvocationState::ExecutableMaterialized, Occurrence::Launched(Ok(output))) => (
                InvocationState::ProcessLaunched {
                    succeeded: output.succeeded(),
                    captured: Captured {
                        stdout: captured_text(output.stdout),
                        stderr: captured_text(output.stderr),
                    },
                },
                Request::Delete,
            ),
            (InvocationState::ExecutableMaterialized, Occurrence::Launched(Err(cause))) => (
                InvocationState::Failed { error: Failure::CouldntInvokeWasmPack(cause) },
                Request::Return,
            ),
            (InvocationState::ProcessLaunched { .. }, Occurrence::Deleted(Err(cause))) => (
                InvocationState::Failed { error: Failure::CouldntDeleteTemporaryFile(cause) },
                Request::Return,
            ),
            (
                InvocationState::ProcessLaunched { succeeded, captured },
                Occurrence::Deleted(Ok(_)),
            ) => if succeeded {
                (InvocationState::Completed { output: captured }, Request::Return)
            } else {
                (
                    InvocationState::Failed {
                        error: Failure::WasmPackReturnedAnError {
                            stdout: captured.stdout,
                            stderr: captured.stderr,
                        },
                    },
                    Request::Return,
                )
            },
            _ => (self, Request::Return),
        }
    }
}

impl Invocation {
    /// Whether the machine is waiting for `event`.
    pub fn accepts(&self, event: &Event) -> (accepted: bool)
        ensures
            accepted == self@.accepts(event@),
    {
        match (self, event) {
            (Invocation::Idle, Event::Invoked { os, arch }) => {
                resolve_platform(os.as_str(), arch.as_str()).is_ok()
            },
            (Invocation::PlatformResolved { .. }, Event::PayloadLoaded { .. }) => true,
            (Invocation::PayloadLoaded, Event::Materialized(_)) => true,
            (Invocation::ExecutableMaterialized, Event::Launched(_)) => true,
            (Invocation::ProcessLaunched { .. }, Event::Deleted(_)) => true,
            _ => false,
        }
    }

    /// The outcome of an invocation that is over.
    pub fn into_result(self) -> (result: Option<Result<WasmPackOutput, WasmPackError>>)
        ensures
            match self@ {
                InvocationState::Completed { output } => result matches Some(Ok(o)) && o@ == output,
                InvocationState::Failed { error } => result matches Some(Err(e)) && e@ == error,
                _ => result is None,
            },
    {
        match self {
            Invocation::Completed { output } => Some(Ok(output)),
            Invocation::Failed { error } => Some(Err(error)),
            _ => None,
        }
    }
}

/// Takes the machine from `state` over `event` to its next state, and says
/// what to do next. The only thing left open is the random token in the name
/// of the temporary executable.
pub fn step(state: Invocation, event: Event) -> (next: (Invocation, Action))
    requires
        state@.accepts(event@),
    ensures
        exists|token: Seq<char>|
            is_random_token(token) && (next.0@, next.1@) == #[trigger] state@.next(event@, token),
{
    let ghost before = state@;
    let ghost occurrence = event@;
    let ghost mut token = choose|token: Seq<char>| is_random_token(token);
    proof {
        lemma_some_token();
    }
    let next = match (state, event) {
        (Invocation::Idle, Event::Invoked { os, arch }) => {
            let platform = guess_platform(os.as_str(), arch.as_str());
            (Invocation::PlatformResolved { platform }, Action::LoadPayload { platform })
        },
        (Invocation::PlatformResolved { platform }, Event::PayloadLoaded { payload }) => {
            let executable = get_cli_executable_file(&platform, payload);
            proof {
                token = choose|token: Seq<char>|
                    is_random_token(token) && executable@ == #[trigger] planned_executable(
                        platform,
                        payload@,
                        token,
                    );
            }
            (Invocation::PayloadLoaded, Action::Materialize { executable })
        },
        (Invocation::PayloadLoaded, Event::Materialized(result)) => match result {
            Ok(_) => (Invocation::ExecutableMaterialized, Action::Launch),
            Err(cause) => (
                Invocation::Failed {
                    error: WasmPackError::CouldntSaveCliExecutableToTemporaryFile(cause),
                },
                Action::Return,
            ),
        },
        (Invocation::ExecutableMaterialized, Event::Launched(result)) => match result {
            Ok(output) => {
                let (stdout, stderr) = get_stdout_and_stderr_from_process_output(&output);
                (
                    Invocation::ProcessLaunched { succeeded: output.succeeded(), stdout, stderr },
                    Action::Delete,
                )
            },
            Err(cause) => (
                Invocation::Failed { error: WasmPackError::CouldntInvokeWasmPack(cause) },
                Action::Return,
            ),
        },
        (Invocation::ProcessLaunched { succeeded, stdout, stderr }, Event::Deleted(result)) => {
            match result {
                Err(cause) => (
                    Invocation::Failed { error: WasmPackError::CouldntDeleteTemporaryFile(cause) },
                    Action::Return,
                ),
                Ok(_) => if succeeded {
                    (
                        Invocation::Completed { output: WasmPackOutput::new(stdout, stderr) },
                        Action::Return,
                    )
                } else {
                    (
                        Invocation::Failed {
                            error: WasmPackError::WasmPackReturnedAnError { stdout, stderr },
                        },
                        Action::Return,
                    )
                },
            }
        },
        (state, _) => (state, Action::Return),
    };
    assert((next.0@, next.1@) == before.next(occurrence, token));
    next
}

/// What an invocation comes to once the binary is at hand, by what the
/// driver reports of writing the temporary executable, of running it and of
/// deleting it. A report is looked at only if everything before it went well.
pub open spec fn outcome(
    materialized: Result<(), std::io::Error>,
    launched: Result<ProcessRecord, std::io::Error>,
    deleted: Result<(), std::io::Error>,
) -> Result<Captured, Failure> {
    match (materialized, launched, deleted) {
        (Err(cause), _, _) => Err(Failure::CouldntSaveCliExecutableToTemporaryFile(cause)),
        (Ok(_), Err(cause), _) => Err(Failure::CouldntInvokeWasmPack(cause)),
        (Ok(_), Ok(_), Err(cause)) => Err(Failure::CouldntDeleteTemporaryFile(cause)),
        (Ok(_), Ok(output), Ok(_)) => if output.succeeded() {
            Ok(Captured {
                stdout: captured_text(output.stdout),
                stderr: captured_text(output.stderr),
            })
        } else {
            Err(
                Failure::WasmPackReturnedAnError {
                    stdout: captured_text(output.stdout),
                    stderr: captured_text(output.stderr),
                },
            )
        },
    }
}

/// The state of a machine that is over with the given result.
pub open spec fn finished(result: Result<Captured, Failure>) -> InvocationState {
    match result {
        Ok(output) => InvocationState::Completed { output },
        Err(error) => InvocationState::Failed { error },
    }
}

/// The machine asks to return exactly when the invocation is over, and then
/// waits for nothing more.
pub proof fn lemma_returns_when_over(
    state: InvocationState,
    event: Occurrence,
    later: Occurrence,
    token: Seq<char>,
)
    requires
        state.accepts(event),
    ensures
        state.next(event, token).1 is Return <==> state.next(event, token).0.is_terminal(),
        state.next(event, token).0.is_terminal() ==> !state.next(event, token).0.accepts(later),
{
}

/// The machine asks for the deletion of the temporary executable exactly when
/// it hears that the process ran, whatever the exit code.
pub proof fn lemma_deletes_after_every_run(
    state: InvocationState,
    event: Occurrence,
    token: Seq<char>,
)
    requires
        state.accepts(event),
    ensures
        state.next(event, token).1 is Delete <==> event matches Occurrence::Launched(Ok(_)),
{
}

/// What `wasm-pack` printed reaches the caller, as the output or as the
/// failure that `wasm-pack` reported, only on the report that the temporary
/// executable was deleted.
pub proof fn lemma_outcome_follows_cleanup(
    state: InvocationState,
    event: Occurrence,
    token: Seq<char>,
)
    requires
        state.accepts(event),
        ({
            let reached = state.next(event, token).0;
            reached is Completed || (reached matches InvocationState::Failed { error }
                && error is WasmPackReturnedAnError)
        }),
    ensures
        state is ProcessLaunched,
        event matches Occurrence::Deleted(Ok(_)),
{
}

/// Driven from the moment the binary is at hand, with each report handed in
/// as long as the machine waits for one, the machine ends in the outcome of
/// the three reports.
pub proof fn lemma_run_ends_in_outcome(
    materialized: Result<(), std::io::Error>,
    launched: Result<ProcessRecord, std::io::Error>,
    deleted: Result<(), std::io::Error>,
    token: Seq<char>,
)
    ensures
        ({
            let written = InvocationState::PayloadLoaded.next(
                Occurrence::Materialized(materialized),
                token,
            ).0;
            let ran = if written.is_terminal() {
                written
            } else {
                written.next(Occurrence::Launched(launched), token).0
            };
            let cleaned = if ran.is_terminal() {
                ran
            } else {
                ran.next(Occurrence::Deleted(deleted), token).0
            };
            cleaned == finished(outcome(materialized, launched, deleted))
        }),
{
}

/// Some text has the shape of a random token.
proof fn lemma_some_token()
    ensures
        exists|token: Seq<char>| is_random_token(token),
{
    let token = Seq::new(
        36,
        |i: int|
            if i == 8 || i == 13 || i == 18 || i == 23 {
                '-'
            } else if i == 14 {
                '4'
            } else if i == 19 {
                '8'
            } else {
                '0'
            },
    );
    assert(is_random_token(token));
}

} // verus!
