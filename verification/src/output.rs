//! What a finished process leaves behind, and what of it the caller gets.

use crate::text::{capture_text, captured_text};
use vstd::prelude::*;

verus! {

/// What came back from a process that ran to its end.
#[derive(Debug)]
pub struct ProcessOutput {
    /// The exit code, if the process exited by itself.
    pub exit_code: Option<i32>,
    /// All that the process wrote to its standard output.
    pub stdout: Vec<u8>,
    /// All that the process wrote to its standard error.
    pub stderr: Vec<u8>,
}

/// A `ProcessOutput` as plain values.
pub struct ProcessRecord {
    /// The exit code, if the process exited by itself.
    pub exit_code: Option<i32>,
    /// The bytes written to the standard output.
    pub stdout: Seq<u8>,
    /// The bytes written to the standard error.
    pub stderr: Seq<u8>,
}

impl ProcessRecord {
    /// A process succeeded if it exited with code zero.
    pub open spec fn succeeded(self) -> bool {
        self.exit_code == Some(0i32)
    }
}

impl View for ProcessOutput {
    type V = ProcessRecord;

    open spec fn view(&self) -> ProcessRecord {
        ProcessRecord { exit_code: self.exit_code, stdout: self.stdout@, stderr: self.stderr@ }
    }
}

impl ProcessOutput {
    /// Whether the process exited with code zero.
    pub fn succeeded(&self) -> (succeeded: bool)
        ensures
            succeeded == self@.succeeded(),
    {
        match self.exit_code {
            Some(code) => code == 0,
            None => false,
        }
    }
}

/// The two captured streams as text.
pub struct Captured {
    /// The text of the standard output.
    pub stdout: Seq<char>,
    /// The text of the standard error.
    pub stderr: Seq<char>,
}

/// What `wasm-pack` printed in a run that succeeded.
#[derive(Debug)]
pub struct WasmPackOutput {
    stdout: String,
    stderr: String,
}

impl View for WasmPackOutput {
    type V = Captured;

    closed spec fn view(&self) -> Captured {
        Captured { stdout: self.stdout@, stderr: self.stderr@ }
    }
}

impl WasmPackOutput {
    /// The output that holds the two texts.
    pub fn new(stdout: String, stderr: String) -> (output: WasmPackOutput)
        ensures
            output@ == (Captured { stdout: stdout@, stderr: stderr@ }),
    {
        WasmPackOutput { stdout, stderr }
    }

    /// What `wasm-pack` wrote to its standard output.
    pub fn stdout(&self) -> (stdout: &str)
        ensures
            stdout@ == self@.stdout,
    {
        self.stdout.as_str()
    }

    /// What `wasm-pack` wrote to its standard error.
    pub fn stderr(&self) -> (stderr: &str)
        ensures
            stderr@ == self@.stderr,
    {
        self.stderr.as_str()
    }
}

/// The standard output and the standard error of a process, each decoded
/// and trimmed.
pub fn get_stdout_and_stderr_from_process_output(process_output: &ProcessOutput) -> (texts: (
    String,
    String,
))
    ensures
        texts.0@ == captured_text(process_output@.stdout),
        texts.1@ == captured_text(process_output@.stderr),
{
    let stdout = capture_text(process_output.stdout.as_slice());
    let stderr = capture_text(process_output.stderr.as_slice());
    (stdout, stderr)
}

} // verus!
