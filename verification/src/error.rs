//! The ways in which an invocation fails.

use vstd::prelude::*;

verus! {

/// `std::io::Error`, of which nothing is looked at here: an error of this
/// type is handed on as it came.
#[verifier::external_type_specification]
#[verifier::external_body]
pub struct ExIoError(std::io::Error);

/// Why an invocation gave no output.
#[derive(Debug)]
pub enum WasmPackError {
    /// `wasm-pack` ran and exited with a code other than zero.
    WasmPackReturnedAnError { stdout: String, stderr: String },
    /// The operating system could not start `wasm-pack`.
    CouldntInvokeWasmPack(std::io::Error),
    /// The temporary executable could not be written.
    CouldntSaveCliExecutableToTemporaryFile(std::io::Error),
    /// `wasm-pack` ran, but its temporary executable could not be deleted.
    CouldntDeleteTemporaryFile(std::io::Error),
}

/// A `WasmPackError` as plain values.
pub enum Failure {
    WasmPackReturnedAnError { stdout: Seq<char>, stderr: Seq<char> },
    CouldntInvokeWasmPack(std::io::Error),
    CouldntSaveCliExecutableToTemporaryFile(std::io::Error),
    CouldntDeleteTemporaryFile(std::io::Error),
}

impl Failure {
    /// The message of the failure, where `cause` is the text of the I/O error
    /// behind it. A failure that `wasm-pack` reported has no such cause, and
    /// its message shows what `wasm-pack` printed instead.
    pub open spec fn message(self, cause: Seq<char>) -> Seq<char> {
        match self {
            Failure::WasmPackReturnedAnError { stdout, stderr } => {
                "wasm-pack returned an error:\n\n"@ + "stdout:\n"@ + stdout + "\n\n"@
                    + "stderr:\n"@ + stderr + "\n\n"@
            },
            Failure::CouldntInvokeWasmPack(_) => "Couldn't invoke wasm-pack: "@ + cause,
            Failure::CouldntSaveCliExecutableToTemporaryFile(_) => {
                "Couldn't save wasm-pack executable to temporary file: "@ + cause
            },
            Failure::CouldntDeleteTemporaryFile(_) => "Couldn't delete temporary file: "@ + cause,
        }
    }
}

impl View for WasmPackError {
    type V = Failure;

    open spec fn view(&self) -> Failure {
        match self {
            WasmPackError::WasmPackReturnedAnError { stdout, stderr } => {
                Failure::WasmPackReturnedAnError { stdout: stdout@, stderr: stderr@ }
            },
            WasmPackError::CouldntInvokeWasmPack(cause) => Failure::CouldntInvokeWasmPack(*cause),
            WasmPackError::CouldntSaveCliExecutableToTemporaryFile(cause) => {
                Failure::CouldntSaveCliExecutableToTemporaryFile(*cause)
            },
            WasmPackError::CouldntDeleteTemporaryFile(cause) => {
                Failure::CouldntDeleteTemporaryFile(*cause)
            },
        }
    }
}

impl WasmPackError {
    /// The message of the error, given the text of the I/O error behind it.
    pub fn message_with_cause(&self, cause: &str) -> (message: String)
        ensures
            message@ == self@.message(cause@),
    {
        match self {
            WasmPackError::WasmPackReturnedAnError { stdout, stderr } => {
                let mut message = String::from_str("wasm-pack returned an error:\n\n");
                message.append("stdout:\n");
                message.append(stdout.as_str());
                message.append("\n\n");
                message.append("stderr:\n");
                message.append(stderr.as_str());
                message.append("\n\n");
                message
            },
            WasmPackError::CouldntInvokeWasmPack(_) => {
                let mut message = String::from_str("Couldn't invoke wasm-pack: ");
                message.append(cause);
                message
            },
            WasmPackError::CouldntSaveCliExecutableToTemporaryFile(_) => {
                let mut message = String::from_str(
                    "Couldn't save wasm-pack executable to temporary file: ",
                );
                message.append(cause);
                message
            },
            WasmPackError::CouldntDeleteTemporaryFile(_) => {
                let mut message = String::from_str("Couldn't delete temporary file: ");
                message.append(cause);
                message
            },
        }
    }

    /// The message of the error. Where an I/O error is behind it, the message
    /// ends with that error's own text.
    pub fn message(&self) -> (message: String)
        ensures
            exists|cause: Seq<char>| message@ == #[trigger] self@.message(cause),
    {
        match self {
            WasmPackError::WasmPackReturnedAnError { .. } => self.message_with_cause(""),
            WasmPackError::CouldntInvokeWasmPack(cause)
            | WasmPackError::CouldntSaveCliExecutableToTemporaryFile(cause)
            | WasmPackError::CouldntDeleteTemporaryFile(cause) => {
                let text = cause.to_string();
                self.message_with_cause(text.as_str())
            },
        }
    }
}

} // verus!
