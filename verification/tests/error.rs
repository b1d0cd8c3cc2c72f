use lib_wasm_pack::WasmPackError;
use std::io::{Error, ErrorKind};

#[test]
fn a_reported_error_shows_both_streams() {
    let error = WasmPackError::WasmPackReturnedAnError {
        stdout: "some output".to_string(),
        stderr: "Error: it went wrong".to_string(),
    };
    let expected =
        "wasm-pack returned an error:\n\nstdout:\nsome output\n\nstderr:\nError: it went wrong\n\n";
    assert_eq!(error.message(), expected);
    assert_eq!(error.message_with_cause("ignored"), expected);
}

#[test]
fn a_reported_error_with_empty_streams() {
    let error = WasmPackError::WasmPackReturnedAnError {
        stdout: String::new(),
        stderr: String::new(),
    };
    assert_eq!(error.message(), "wasm-pack returned an error:\n\nstdout:\n\n\nstderr:\n\n\n");
}

#[test]
fn an_io_failure_shows_its_cause() {
    let cause = || Error::new(ErrorKind::PermissionDenied, "no access");
    assert_eq!(
        WasmPackError::CouldntInvokeWasmPack(cause()).message(),
        "Couldn't invoke wasm-pack: no access"
    );
    assert_eq!(
        WasmPackError::CouldntSaveCliExecutableToTemporaryFile(cause()).message(),
        "Couldn't save wasm-pack executable to temporary file: no access"
    );
    assert_eq!(
        WasmPackError::CouldntDeleteTemporaryFile(cause()).message(),
        "Couldn't delete temporary file: no access"
    );
}

#[test]
fn the_cause_can_be_given_as_text() {
    let cause = || Error::new(ErrorKind::Other, "unused");
    assert_eq!(
        WasmPackError::CouldntInvokeWasmPack(cause()).message_with_cause("exec format error"),
        "Couldn't invoke wasm-pack: exec format error"
    );
    assert_eq!(
        WasmPackError::CouldntSaveCliExecutableToTemporaryFile(cause()).message_with_cause("disk full"),
        "Couldn't save wasm-pack executable to temporary file: disk full"
    );
    assert_eq!(
        WasmPackError::CouldntDeleteTemporaryFile(cause()).message_with_cause(""),
        "Couldn't delete temporary file: "
    );
}
