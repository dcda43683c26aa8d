use gilthub::pipeline::{resolve_profile, ArchivePipeline, RestorePipeline};
use gilthub::report::StageError;

fn archive_pipeline() -> ArchivePipeline {
    ArchivePipeline::new(
        "git@example.com:org/widget.git".to_string(),
        "my-bucket/archives".to_string(),
        "",
        "/tmp/clone".to_string(),
        "/tmp/compress".to_string(),
    )
}

fn restore_pipeline() -> RestorePipeline {
    RestorePipeline::new(
        "s3://my-bucket/archives/widget.tar.gz".to_string(),
        "git@example.com:org/widget2.git".to_string(),
        "",
        "/tmp/extract".to_string(),
    )
}

#[test]
fn profile_empty_resolves_to_default() {
    assert_eq!(resolve_profile(""), "default");
}

#[test]
fn profile_non_empty_passes_through() {
    assert_eq!(resolve_profile("prod"), "prod");
}

#[test]
fn archive_happy_path() {
    let mut p = archive_pipeline();
    assert_eq!(p.repo_name, "widget");

    let clone = p.current_command().unwrap();
    assert_eq!(clone.program, "git");
    assert_eq!(
        clone.args,
        vec!["clone", "--bare", "git@example.com:org/widget.git", "/tmp/clone"]
    );
    assert!(clone.cwd.is_none());
    assert!(p.advance(true).is_none());

    let compress = p.current_command().unwrap();
    assert_eq!(compress.program, "tar");
    assert_eq!(compress.args, vec!["-zcf", "/tmp/compress/widget.tar.gz", "."]);
    assert_eq!(compress.cwd.as_deref(), Some("/tmp/clone"));
    assert!(p.advance(true).is_none());

    let upload = p.current_command().unwrap();
    assert_eq!(upload.program, "aws");
    assert_eq!(
        upload.args,
        vec![
            "s3",
            "cp",
            "/tmp/compress/widget.tar.gz",
            "s3://my-bucket/archives",
            "--profile",
            "default"
        ]
    );
    assert!(upload.cwd.is_none());

    let out = p.advance(true).unwrap();
    assert_eq!(out, Ok("widget".to_string()));
    assert!(p.current_command().is_none());
}

#[test]
fn archive_clone_failure_short_circuits() {
    let mut p = archive_pipeline();
    let out = p.advance(false).unwrap();
    assert_eq!(out, Err(StageError::CloneFailed));
    assert!(p.current_command().is_none());
}

#[test]
fn archive_compress_failure_short_circuits() {
    let mut p = archive_pipeline();
    assert!(p.advance(true).is_none());
    let out = p.advance(false).unwrap();
    assert_eq!(out, Err(StageError::CompressFailed));
    assert!(p.current_command().is_none());
}

#[test]
fn archive_upload_failure_reports_upload() {
    let mut p = archive_pipeline();
    assert!(p.advance(true).is_none());
    assert!(p.advance(true).is_none());
    let out = p.advance(false).unwrap();
    assert_eq!(out, Err(StageError::UploadFailed));
    assert!(p.current_command().is_none());
}

#[test]
fn restore_happy_path() {
    let mut p = restore_pipeline();
    assert_eq!(p.repo_name, "widget.tar.gz");

    let download = p.current_command().unwrap();
    assert_eq!(download.program, "aws");
    assert_eq!(
        download.args,
        vec![
            "s3",
            "cp",
            "s3://my-bucket/archives/widget.tar.gz",
            "/tmp/extract",
            "--profile",
            "default"
        ]
    );
    assert!(download.cwd.is_none());
    assert!(p.advance(true).is_none());

    let uncompress = p.current_command().unwrap();
    assert_eq!(uncompress.program, "tar");
    assert_eq!(uncompress.args, vec!["-zxf", "/tmp/extract/widget.tar.gz"]);
    assert_eq!(uncompress.cwd.as_deref(), Some("/tmp/extract"));
    assert!(p.advance(true).is_none());

    let push = p.current_command().unwrap();
    assert_eq!(push.program, "git");
    assert_eq!(push.args, vec!["push", "--mirror", "git@example.com:org/widget2.git"]);
    assert_eq!(push.cwd.as_deref(), Some("/tmp/extract"));

    let out = p.advance(true).unwrap();
    assert_eq!(out, Ok("widget.tar.gz".to_string()));
    assert!(p.current_command().is_none());
}

#[test]
fn restore_download_failure_short_circuits() {
    let mut p = restore_pipeline();
    let out = p.advance(false).unwrap();
    assert_eq!(out, Err(StageError::DownloadFailed));
    assert!(p.current_command().is_none());
}

#[test]
fn restore_uncompress_failure_short_circuits() {
    let mut p = restore_pipeline();
    assert!(p.advance(true).is_none());
    let out = p.advance(false).unwrap();
    assert_eq!(out, Err(StageError::UncompressFailed));
    assert!(p.current_command().is_none());
}

#[test]
fn restore_push_failure_reports_restore() {
    let mut p = restore_pipeline();
    assert!(p.advance(true).is_none());
    assert!(p.advance(true).is_none());
    let out = p.advance(false).unwrap();
    assert_eq!(out, Err(StageError::PushFailed));
    assert!(p.current_command().is_none());
}

#[test]
fn archive_twice_with_distinct_dirs_is_independent() {
    let mut p1 = ArchivePipeline::new(
        "git@example.com:org/widget.git".to_string(),
        "my-bucket/archives".to_string(),
        "",
        "/tmp/clone1".to_string(),
        "/tmp/compress1".to_string(),
    );
    let mut p2 = ArchivePipeline::new(
        "git@example.com:org/widget.git".to_string(),
        "my-bucket/archives".to_string(),
        "",
        "/tmp/clone2".to_string(),
        "/tmp/compress2".to_string(),
    );
    assert_eq!(p1.repo_name, p2.repo_name);
    assert_ne!(p1.artifact_path(), p2.artifact_path());
    for _ in 0..2 {
        assert!(p1.advance(true).is_none());
        assert!(p2.advance(true).is_none());
    }
    assert_eq!(p1.advance(true).unwrap(), Ok("widget".to_string()));
    assert_eq!(p2.advance(true).unwrap(), Ok("widget".to_string()));
}
