//! The two operation modes, the closed set of stage failures, and the exact
//! report line printed when a pipeline ends.

use vstd::prelude::*;

verus! {

/// Which of the two operations was requested.
#[derive(Clone, Copy, Debug, PartialEq, Eq, Structural)]
pub enum Mode {
    Archive,
    Restore,
}

/// One variant per pipeline stage whose child process can exit non-zero.
/// The first three belong to the archive pipeline, the last three to the
/// restore pipeline.
#[derive(Clone, Copy, Debug, PartialEq, Eq, Structural)]
pub enum StageError {
    CloneFailed,
    CompressFailed,
    UploadFailed,
    DownloadFailed,
    UncompressFailed,
    PushFailed,
}

impl StageError {
    /// The fixed human-readable message of each stage failure.
    pub open spec fn text(self) -> Seq<char> {
        match self {
            StageError::CloneFailed => "Unable to clone repository."@,
            StageError::CompressFailed => "Unable to compress repository."@,
            StageError::UploadFailed => "Unable to upload archived repository to S3."@,
            StageError::DownloadFailed => "Unable to download archived repository."@,
            StageError::UncompressFailed => "Unable to un-compress repository."@,
            StageError::PushFailed => "Unable to restore repository."@,
        }
    }

    pub fn message(&self) -> (r: String)
        ensures
            r@ == self.text(),
    {
        match self {
            StageError::CloneFailed => String::from_str("Unable to clone repository."),
            StageError::CompressFailed => String::from_str("Unable to compress repository."),
            StageError::UploadFailed => String::from_str(
                "Unable to upload archived repository to S3.",
            ),
            StageError::DownloadFailed => String::from_str(
                "Unable to download archived repository.",
            ),
            StageError::UncompressFailed => String::from_str("Unable to un-compress repository."),
            StageError::PushFailed => String::from_str("Unable to restore repository."),
        }
    }
}

/// The line reported when a pipeline ran all its stages successfully.
pub open spec fn success_text(m: Mode, name: Seq<char>) -> Seq<char> {
    match m {
        Mode::Archive => "Successfully archived "@ + name + "!"@,
        Mode::Restore => "Successfully restored "@ + name + "!"@,
    }
}

pub fn success_line(m: Mode, name: &str) -> (r: String)
    ensures
        r@ == success_text(m, name@),
{
    match m {
        Mode::Archive => String::from_str("Successfully archived ").concat(name).concat("!"),
        Mode::Restore => String::from_str("Successfully restored ").concat(name).concat("!"),
    }
}

/// The line reported when some stage of a pipeline failed.
pub open spec fn failure_text(m: Mode, e: StageError) -> Seq<char> {
    match m {
        Mode::Archive => "Error archiving git repository: "@ + e.text(),
        Mode::Restore => "Error restoring git repository: "@ + e.text(),
    }
}

pub fn failure_line(m: Mode, e: &StageError) -> (r: String)
    ensures
        r@ == failure_text(m, *e),
{
    let msg = e.message();
    match m {
        Mode::Archive => String::from_str("Error archiving git repository: ").concat(
            msg.as_str(),
        ),
        Mode::Restore => String::from_str("Error restoring git repository: ").concat(
            msg.as_str(),
        ),
    }
}

} // verus!
