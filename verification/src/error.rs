use vstd::prelude::*;

verus! {

/// `std::io::Error`, carried unchanged inside `TafdError::Io`.
#[verifier::external_type_specification]
#[verifier::external_body]
pub struct ExIoError(std::io::Error);

/// Errors of the daemon.
#[derive(Debug)]
pub enum TafdError {
    Io(std::io::Error),
    DeviceNotFound(String),
    AudioEngine(String),
    SoundPackLoad { path: std::path::PathBuf, reason: String },
    InputInit(String),
    InputPermission(String),
    Config(String),
    Shutdown,
}

/// Exit status of the daemon when it cannot read the input devices
/// (`EX_NOPERM`).
pub const EXIT_NO_PERMISSION: i32 = 77;

/// Exit status of the daemon for any other fatal error.
pub const EXIT_FAILURE: i32 = 1;

/// The exit status for a fatal error: permission denied on the input
/// devices exits with `EXIT_NO_PERMISSION`, anything else with
/// `EXIT_FAILURE`.
pub fn exit_status(err: &TafdError) -> (status: i32)
    ensures
        err is InputPermission ==> status == EXIT_NO_PERMISSION,
        !(err is InputPermission) ==> status == EXIT_FAILURE,
{
    match err {
        TafdError::InputPermission(_) => EXIT_NO_PERMISSION,
        _ => EXIT_FAILURE,
    }
}

/// Whether an error of the input thread ends the daemon: a daemon that may
/// not read the input devices has nothing to do; any other input error is
/// logged and the daemon keeps running.
pub fn input_error_is_fatal(err: &TafdError) -> (fatal: bool)
    ensures
        fatal == (err is InputPermission),
{
    match err {
        TafdError::InputPermission(_) => true,
        _ => false,
    }
}

} // verus!
