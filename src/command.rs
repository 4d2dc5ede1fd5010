//! What the disk utility reports back, and the errors of this crate.

use vstd::prelude::*;
use vstd::utf8::{decode_utf8, valid_utf8};

verus! {

/// The name of the disk-image utility that every operation runs.
pub const DISK_COMMAND: &'static str = "hdiutil";

/// The ways in which an operation on a disk image can fail.
#[derive(Debug, Clone, PartialEq, Eq)]
pub enum Error {
    /// The utility could not be started at all.
    SpawnFailed,
    /// The utility exited with a failure status; holds what it wrote to stderr.
    ExitedNonZero(String),
    /// The utility failed and what it wrote to stderr is not UTF-8 text.
    StderrNotText,
    /// The utility's answer is not a property list.
    ResponseUnparseable,
    /// The utility's answer lacks an expected property.
    MissingProperty,
}

/// An `Error` with its text as a sequence of characters.
pub enum ErrorView {
    SpawnFailed,
    ExitedNonZero(Seq<char>),
    StderrNotText,
    ResponseUnparseable,
    MissingProperty,
}

impl View for Error {
    type V = ErrorView;

    open spec fn view(&self) -> ErrorView {
        match self {
            Error::SpawnFailed => ErrorView::SpawnFailed,
            Error::ExitedNonZero(s) => ErrorView::ExitedNonZero(s@),
            Error::StderrNotText => ErrorView::StderrNotText,
            Error::ResponseUnparseable => ErrorView::ResponseUnparseable,
            Error::MissingProperty => ErrorView::MissingProperty,
        }
    }
}

/// What a finished run of the utility left behind.
pub struct CommandOutput {
    /// Whether the utility exited with a success status.
    pub success: bool,
    /// Everything it wrote to stdout.
    pub stdout: Vec<u8>,
    /// Everything it wrote to stderr.
    pub stderr: Vec<u8>,
}

/// The view of a result that carries nothing on success.
pub open spec fn status_view(r: Result<(), Error>) -> Result<(), ErrorView> {
    match r {
        Ok(u) => Ok(u),
        Err(e) => Err(e@),
    }
}

/// How an exit status and the text on stderr turn into the outcome of a run.
pub open spec fn exit_outcome(success: bool, stderr: Seq<u8>) -> Result<(), ErrorView> {
    if success {
        Ok(())
    } else if valid_utf8(stderr) {
        Err(ErrorView::ExitedNonZero(decode_utf8(stderr)))
    } else {
        Err(ErrorView::StderrNotText)
    }
}

/// Relies on String::from_utf8: succeeds exactly on valid UTF-8, whose
/// characters it returns.
#[verifier::external_body]
fn utf8_text(bytes: Vec<u8>) -> (r: Option<String>)
    ensures
        r.is_some() == valid_utf8(bytes@),
        r matches Some(s) ==> s@ == decode_utf8(bytes@),
{
    String::from_utf8(bytes).ok()
}

/// Turns the exit status of a run, and its stderr, into the run's outcome.
pub fn check_exit(success: bool, stderr: Vec<u8>) -> (r: Result<(), Error>)
    ensures
        status_view(r) == exit_outcome(success, stderr@),
{
    if success {
        return Ok(());
    }
    match utf8_text(stderr) {
        Some(text) => Err(Error::ExitedNonZero(text)),
        None => Err(Error::StderrNotText),
    }
}

/// The outcome of a detach, which keeps no output: only its status counts.
pub fn detach_outcome(success: bool) -> (r: Result<(), Error>)
    ensures
        success ==> r is Ok,
        !success ==> (r matches Err(Error::ExitedNonZero(s)) && s@.len() == 0),
{
    if success {
        Ok(())
    } else {
        Err(Error::ExitedNonZero(String::new()))
    }
}

} // verus!
