//! Exit statuses of the program, taken from the `exitcode` conventions.
use vstd::prelude::*;

verus! {

/// Relies on `exitcode::NOINPUT`: the status for missing input, 66.
#[verifier::external_body]
fn noinput_code() -> (r: i32)
    ensures
        r == 66,
{
    exitcode::NOINPUT
}

/// Relies on `exitcode::IOERR`: the status for an input/output error, 74.
#[verifier::external_body]
fn ioerr_code() -> (r: i32)
    ensures
        r == 74,
{
    exitcode::IOERR
}

/// Why the program stops before it starts watching.
#[derive(Clone, Copy, Debug, PartialEq, Eq, Structural)]
pub enum StartupFailure {
    /// The source file does not exist.
    MissingSource,
    /// The source file exists but cannot be read.
    UnreadableSource,
    /// The destination directory cannot be created.
    DestinationSetup,
    /// The log sink cannot be opened.
    LogSink,
    /// The change notifications for the source cannot be subscribed to.
    Subscription,
}

/// The status that the program exits with on `failure`.
pub open spec fn status_of(failure: StartupFailure) -> int {
    match failure {
        StartupFailure::MissingSource => 66,
        _ => 74,
    }
}

/// The process exit status for a startup failure: missing input for a
/// missing source, an input/output error for every other failure.
pub fn exit_status(failure: StartupFailure) -> (r: i32)
    ensures
        r == status_of(failure),
{
    match failure {
        StartupFailure::MissingSource => noinput_code(),
        _ => ioerr_code(),
    }
}

} // verus!
