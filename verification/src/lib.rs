//! Verified core of a wrapper around the pre-built `wasm-pack` command line
//! tool: choosing the embedded binary for the host, planning the temporary
//! executable, decoding what the tool printed, and sequencing one invocation.

pub mod error;
pub mod executable;
pub mod invocation;
pub mod output;
pub mod payload;
pub mod platform;
pub mod text;

pub use error::WasmPackError;
pub use executable::{
    get_cli_executable_file, temp_file_name, TemporaryExecutable, CRATE_VERSION,
};
pub use invocation::{step, Action, Event, Invocation};
pub use output::{get_stdout_and_stderr_from_process_output, ProcessOutput, WasmPackOutput};
pub use payload::{get_cli_executable_bytes, PayloadRegistry};
pub use platform::{guess_platform, resolve_platform, Platform, UnsupportedHost};
