use gilthub::report::{failure_line, success_line, Mode, StageError};

#[test]
fn stage_messages_are_the_fixed_six() {
    assert_eq!(StageError::CloneFailed.message(), "Unable to clone repository.");
    assert_eq!(StageError::CompressFailed.message(), "Unable to compress repository.");
    assert_eq!(
        StageError::UploadFailed.message(),
        "Unable to upload archived repository to S3."
    );
    assert_eq!(
        StageError::DownloadFailed.message(),
        "Unable to download archived repository."
    );
    assert_eq!(StageError::UncompressFailed.message(), "Unable to un-compress repository.");
    assert_eq!(StageError::PushFailed.message(), "Unable to restore repository.");
}

#[test]
fn success_lines_name_the_repository() {
    let a = success_line(Mode::Archive, "widget");
    assert_eq!(a, "Successfully archived widget!");
    assert!(a.contains("widget"));
    assert_eq!(
        success_line(Mode::Restore, "widget.tar.gz"),
        "Successfully restored widget.tar.gz!"
    );
}

#[test]
fn failure_lines_carry_the_stage_message() {
    assert_eq!(
        failure_line(Mode::Archive, &StageError::CloneFailed),
        "Error archiving git repository: Unable to clone repository."
    );
    assert_eq!(
        failure_line(Mode::Restore, &StageError::UncompressFailed),
        "Error restoring git repository: Unable to un-compress repository."
    );
}
