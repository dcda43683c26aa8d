//! The two pipelines, each a strictly linear four-step sequence: derive the
//! repository name, then run three child processes in a fixed order, where
//! the first non-zero exit status short-circuits the rest.
//!
//! A pipeline value holds the request's fixed inputs and a stage marker.
//! `current_command` says which child process the driver must run next, and
//! `advance` consumes that process's exit status: a failure moves to the
//! terminal `Failed` stage and reports the failing stage's error, a success
//! either moves on or, after the last stage, reports the repository name.

use vstd::prelude::*;

use crate::name::{archive_name, archive_repo_name, restore_name, restore_repo_name};
use crate::report::StageError;

verus! {

/// One child-process invocation: the program, its arguments in order, and
/// the working directory it must run in, if any.
#[derive(Debug)]
pub struct Cmd {
    pub program: String,
    pub args: Vec<String>,
    pub cwd: Option<String>,
}

/// The profile handed to the cloud storage CLI: an empty request resolves
/// to `default`, any non-empty request passes through unchanged.
pub open spec fn resolved_profile(p: Seq<char>) -> Seq<char> {
    if p.len() == 0 {
        "default"@
    } else {
        p
    }
}

pub fn resolve_profile(p: &str) -> (r: String)
    ensures
        r@ == resolved_profile(p@),
{
    if p.unicode_len() == 0 {
        String::from_str("default")
    } else {
        String::from_str(p)
    }
}

/// `<dir>/<name>`.
pub open spec fn joined_path(dir: Seq<char>, name: Seq<char>) -> Seq<char> {
    dir + "/"@ + name
}

/// Where the archive pipeline writes its artifact: `<dir>/<name>.tar.gz`.
pub open spec fn archive_artifact_path(dir: Seq<char>, name: Seq<char>) -> Seq<char> {
    joined_path(dir, name) + ".tar.gz"@
}

/// The stages of the archive pipeline, in the order they run, plus the two
/// terminal stages.
#[derive(Clone, Copy, Debug, PartialEq, Eq, Structural)]
pub enum ArchiveStage {
    Clone,
    Compress,
    Upload,
    Done,
    Failed,
}

impl ArchiveStage {
    /// The stages that still issue a command.
    pub open spec fn is_running(self) -> bool {
        self == ArchiveStage::Clone || self == ArchiveStage::Compress || self
            == ArchiveStage::Upload
    }

    /// First failure wins: a non-zero exit moves straight to `Failed`, a
    /// success moves to the next stage in the fixed order.
    pub open spec fn next(self, success: bool) -> ArchiveStage {
        if !success {
            ArchiveStage::Failed
        } else {
            match self {
                ArchiveStage::Clone => ArchiveStage::Compress,
                ArchiveStage::Compress => ArchiveStage::Upload,
                ArchiveStage::Upload => ArchiveStage::Done,
                _ => self,
            }
        }
    }

    /// The error reported when this stage's child process exits non-zero.
    pub open spec fn error(self) -> StageError {
        match self {
            ArchiveStage::Clone => StageError::CloneFailed,
            ArchiveStage::Compress => StageError::CompressFailed,
            _ => StageError::UploadFailed,
        }
    }
}

/// The archive pipeline: clone the source repository bare, compress the
/// clone, upload the artifact.
pub struct ArchivePipeline {
    pub clone_url: String,
    pub bucket_url: String,
    pub profile: String,
    pub clone_dir: String,
    pub compress_dir: String,
    pub repo_name: String,
    pub stage: ArchiveStage,
}

impl ArchivePipeline {
    /// The stored name is the one derived from the clone URL.
    pub open spec fn wf(self) -> bool {
        self.repo_name@ == archive_name(self.clone_url@)
    }

    /// Everything but the stage marker is fixed for the pipeline's lifetime.
    pub open spec fn same_config(self, other: ArchivePipeline) -> bool {
        &&& self.clone_url == other.clone_url
        &&& self.bucket_url == other.bucket_url
        &&& self.profile == other.profile
        &&& self.clone_dir == other.clone_dir
        &&& self.compress_dir == other.compress_dir
        &&& self.repo_name == other.repo_name
    }

    /// `git clone --bare <clone-url> <clone-dir>`.
    pub open spec fn is_clone_cmd(self, c: Cmd) -> bool {
        &&& c.program@ == "git"@
        &&& c.args@.len() == 4
        &&& c.args@[0]@ == "clone"@
        &&& c.args@[1]@ == "--bare"@
        &&& c.args@[2]@ == self.clone_url@
        &&& c.args@[3]@ == self.clone_dir@
        &&& c.cwd is None
    }

    /// `tar -zcf <compress-dir>/<name>.tar.gz .` run inside the clone dir,
    /// so the archive's internal paths are relative.
    pub open spec fn is_compress_cmd(self, c: Cmd) -> bool {
        &&& c.program@ == "tar"@
        &&& c.args@.len() == 3
        &&& c.args@[0]@ == "-zcf"@
        &&& c.args@[1]@ == archive_artifact_path(self.compress_dir@, self.repo_name@)
        &&& c.args@[2]@ == "."@
        &&& c.cwd matches Some(d) && d@ == self.clone_dir@
    }

    /// `aws s3 cp <artifact> s3://<bucket-url> --profile <profile>`.
    pub open spec fn is_upload_cmd(self, c: Cmd) -> bool {
        &&& c.program@ == "aws"@
        &&& c.args@.len() == 6
        &&& c.args@[0]@ == "s3"@
        &&& c.args@[1]@ == "cp"@
        &&& c.args@[2]@ == archive_artifact_path(self.compress_dir@, self.repo_name@)
        &&& c.args@[3]@ == "s3://"@ + self.bucket_url@
        &&& c.args@[4]@ == "--profile"@
        &&& c.args@[5]@ == self.profile@
        &&& c.cwd is None
    }

    pub fn new(
        clone_url: String,
        bucket_url: String,
        profile: &str,
        clone_dir: String,
        compress_dir: String,
    ) -> (p: ArchivePipeline)
        ensures
            p.wf(),
            p.stage == ArchiveStage::Clone,
            p.clone_url == clone_url,
            p.bucket_url == bucket_url,
            p.profile@ == resolved_profile(profile@),
            p.clone_dir == clone_dir,
            p.compress_dir == compress_dir,
            p.repo_name@ == archive_name(clone_url@),
    {
        let repo_name = archive_repo_name(clone_url.as_str());
        let profile = resolve_profile(profile);
        ArchivePipeline {
            clone_url,
            bucket_url,
            profile,
            clone_dir,
            compress_dir,
            repo_name,
            stage: ArchiveStage::Clone,
        }
    }

    /// The full path of the artifact this pipeline produces.
    pub fn artifact_path(&self) -> (r: String)
        ensures
            r@ == archive_artifact_path(self.compress_dir@, self.repo_name@),
    {
        self.compress_dir.clone().concat("/").concat(self.repo_name.as_str()).concat(".tar.gz")
    }

    /// The command of the stage the pipeline is at, or nothing once it is
    /// terminal: a finished or failed pipeline issues no further command.
    pub fn current_command(&self) -> (r: Option<Cmd>)
        ensures
            self.stage == ArchiveStage::Clone ==> (r matches Some(c) && self.is_clone_cmd(c)),
            self.stage == ArchiveStage::Compress ==> (r matches Some(c) && self.is_compress_cmd(c)),
            self.stage == ArchiveStage::Upload ==> (r matches Some(c) && self.is_upload_cmd(c)),
            !self.stage.is_running() ==> r is None,
    {
        match self.stage {
            ArchiveStage::Clone => {
                let mut args: Vec<String> = Vec::new();
                args.push(String::from_str("clone"));
                args.push(String::from_str("--bare"));
                args.push(self.clone_url.clone());
                args.push(self.clone_dir.clone());
                Some(Cmd { program: String::from_str("git"), args, cwd: None })
            },
            ArchiveStage::Compress => {
                let mut args: Vec<String> = Vec::new();
                args.push(String::from_str("-zcf"));
                args.push(self.artifact_path());
                args.push(String::from_str("."));
                Some(
                    Cmd {
                        program: String::from_str("tar"),
                        args,
                        cwd: Some(self.clone_dir.clone()),
                    },
                )
            },
            ArchiveStage::Upload => {
                let mut args: Vec<String> = Vec::new();
                args.push(String::from_str("s3"));
                args.push(String::from_str("cp"));
                args.push(self.artifact_path());
                args.push(String::from_str("s3://").concat(self.bucket_url.as_str()));
                args.push(String::from_str("--profile"));
                args.push(self.profile.clone());
                Some(Cmd { program: String::from_str("aws"), args, cwd: None })
            },
            _ => None,
        }
    }

    /// Consume the exit status of the stage just run.  A failure reports
    /// that stage's error and makes the pipeline terminal, so none of the
    /// later stages is ever invoked; the last stage's success reports the
    /// repository name.
    pub fn advance(&mut self, success: bool) -> (r: Option<Result<String, StageError>>)
        requires
            old(self).stage.is_running(),
        ensures
            final(self).same_config(*old(self)),
            old(self).wf() ==> final(self).wf(),
            final(self).stage == old(self).stage.next(success),
            !success ==> (r matches Some(out) && out matches Err(e) && e == old(
                self,
            ).stage.error()),
            success && old(self).stage != ArchiveStage::Upload ==> r is None,
            success && old(self).stage == ArchiveStage::Upload ==> (r matches Some(out)
                && out matches Ok(nm) && nm@ == old(self).repo_name@),
    {
        if !success {
            let e = match self.stage {
                ArchiveStage::Clone => StageError::CloneFailed,
                ArchiveStage::Compress => StageError::CompressFailed,
                _ => StageError::UploadFailed,
            };
            self.stage = ArchiveStage::Failed;
            return Some(Err(e));
        }
        match self.stage {
            ArchiveStage::Clone => {
                self.stage = ArchiveStage::Compress;
                None
            },
            ArchiveStage::Compress => {
                self.stage = ArchiveStage::Upload;
                None
            },
            _ => {
                self.stage = ArchiveStage::Done;
                Some(Ok(self.repo_name.clone()))
            },
        }
    }
}

/// The stages of the restore pipeline, in the order they run, plus the two
/// terminal stages.
#[derive(Clone, Copy, Debug, PartialEq, Eq, Structural)]
pub enum RestoreStage {
    Download,
    Uncompress,
    Push,
    Done,
    Failed,
}

impl RestoreStage {
    /// The stages that still issue a command.
    pub open spec fn is_running(self) -> bool {
        self == RestoreStage::Download || self == RestoreStage::Uncompress || self
            == RestoreStage::Push
    }

    /// First failure wins: a non-zero exit moves straight to `Failed`, a
    /// success moves to the next stage in the fixed order.
    pub open spec fn next(self, success: bool) -> RestoreStage {
        if !success {
            RestoreStage::Failed
        } else {
            match self {
                RestoreStage::Download => RestoreStage::Uncompress,
                RestoreStage::Uncompress => RestoreStage::Push,
                RestoreStage::Push => RestoreStage::Done,
                _ => self,
            }
        }
    }

    /// The error reported when this stage's child process exits non-zero.
    pub open spec fn error(self) -> StageError {
        match self {
            RestoreStage::Download => StageError::DownloadFailed,
            RestoreStage::Uncompress => StageError::UncompressFailed,
            _ => StageError::PushFailed,
        }
    }
}

/// The restore pipeline: download the archive object, extract it, push the
/// extracted bare repository as an exact mirror.
pub struct RestorePipeline {
    pub archive_url: String,
    pub git_repo_url: String,
    pub profile: String,
    pub extract_dir: String,
    pub repo_name: String,
    pub stage: RestoreStage,
}

impl RestorePipeline {
    /// The stored name is the one derived from the bucket archive URL: the
    /// full final path segment, `.tar.gz` suffix included.
    pub open spec fn wf(self) -> bool {
        self.repo_name@ == restore_name(self.archive_url@)
    }

    /// Everything but the stage marker is fixed for the pipeline's lifetime.
    pub open spec fn same_config(self, other: RestorePipeline) -> bool {
        &&& self.archive_url == other.archive_url
        &&& self.git_repo_url == other.git_repo_url
        &&& self.profile == other.profile
        &&& self.extract_dir == other.extract_dir
        &&& self.repo_name == other.repo_name
    }

    /// `aws s3 cp <archive-url> <extract-dir> --profile <profile>`.
    pub open spec fn is_download_cmd(self, c: Cmd) -> bool {
        &&& c.program@ == "aws"@
        &&& c.args@.len() == 6
        &&& c.args@[0]@ == "s3"@
        &&& c.args@[1]@ == "cp"@
        &&& c.args@[2]@ == self.archive_url@
        &&& c.args@[3]@ == self.extract_dir@
        &&& c.args@[4]@ == "--profile"@
        &&& c.args@[5]@ == self.profile@
        &&& c.cwd is None
    }

    /// `tar -zxf <extract-dir>/<name>` run inside the extract dir.
    pub open spec fn is_uncompress_cmd(self, c: Cmd) -> bool {
        &&& c.program@ == "tar"@
        &&& c.args@.len() == 2
        &&& c.args@[0]@ == "-zxf"@
        &&& c.args@[1]@ == joined_path(self.extract_dir@, self.repo_name@)
        &&& c.cwd matches Some(d) && d@ == self.extract_dir@
    }

    /// `git push --mirror <git-repo-url>` run inside the extract dir.
    pub open spec fn is_push_cmd(self, c: Cmd) -> bool {
        &&& c.program@ == "git"@
        &&& c.args@.len() == 3
        &&& c.args@[0]@ == "push"@
        &&& c.args@[1]@ == "--mirror"@
        &&& c.args@[2]@ == self.git_repo_url@
        &&& c.cwd matches Some(d) && d@ == self.extract_dir@
    }

    pub fn new(archive_url: String, git_repo_url: String, profile: &str, extract_dir: String) -> (p:
        RestorePipeline)
        ensures
            p.wf(),
            p.stage == RestoreStage::Download,
            p.archive_url == archive_url,
            p.git_repo_url == git_repo_url,
            p.profile@ == resolved_profile(profile@),
            p.extract_dir == extract_dir,
            p.repo_name@ == restore_name(archive_url@),
    {
        let repo_name = restore_repo_name(archive_url.as_str());
        let profile = resolve_profile(profile);
        RestorePipeline {
            archive_url,
            git_repo_url,
            profile,
            extract_dir,
            repo_name,
            stage: RestoreStage::Download,
        }
    }

    /// The full path the downloaded archive is extracted from.
    pub fn downloaded_path(&self) -> (r: String)
        ensures
            r@ == joined_path(self.extract_dir@, self.repo_name@),
    {
        self.extract_dir.clone().concat("/").concat(self.repo_name.as_str())
    }

    /// The command of the stage the pipeline is at, or nothing once it is
    /// terminal: a finished or failed pipeline issues no further command.
    pub fn current_command(&self) -> (r: Option<Cmd>)
        ensures
            self.stage == RestoreStage::Download ==> (r matches Some(c) && self.is_download_cmd(c)),
            self.stage == RestoreStage::Uncompress ==> (r matches Some(c)
                && self.is_uncompress_cmd(c)),
            self.stage == RestoreStage::Push ==> (r matches Some(c) && self.is_push_cmd(c)),
            !self.stage.is_running() ==> r is None,
    {
        match self.stage {
            RestoreStage::Download => {
                let mut args: Vec<String> = Vec::new();
                args.push(String::from_str("s3"));
                args.push(String::from_str("cp"));
                args.push(self.archive_url.clone());
                args.push(self.extract_dir.clone());
                args.push(String::from_str("--profile"));
                args.push(self.profile.clone());
                Some(Cmd { program: String::from_str("aws"), args, cwd: None })
            },
            RestoreStage::Uncompress => {
                let mut args: Vec<String> = Vec::new();
                args.push(String::from_str("-zxf"));
                args.push(self.downloaded_path());
                Some(
                    Cmd {
                        program: String::from_str("tar"),
                        args,
                        cwd: Some(self.extract_dir.clone()),
                    },
                )
            },
            RestoreStage::Push => {
                let mut args: Vec<String> = Vec::new();
                args.push(String::from_str("push"));
                args.push(String::from_str("--mirror"));
                args.push(self.git_repo_url.clone());
                Some(
                    Cmd {
                        program: String::from_str("git"),
                        args,
                        cwd: Some(self.extract_dir.clone()),
                    },
                )
            },
            _ => None,
        }
    }

    /// Consume the exit status of the stage just run.  A failure reports
    /// that stage's error and makes the pipeline terminal, so none of the
    /// later stages is ever invoked; the last stage's success reports the
    /// repository name.
    pub fn advance(&mut self, success: bool) -> (r: Option<Result<String, StageError>>)
        requires
            old(self).stage.is_running(),
        ensures
            final(self).same_config(*old(self)),
            old(self).wf() ==> final(self).wf(),
            final(self).stage == old(self).stage.next(success),
            !success ==> (r matches Some(out) && out matches Err(e) && e == old(
                self,
            ).stage.error()),
            success && old(self).stage != RestoreStage::Push ==> r is None,
            success && old(self).stage == RestoreStage::Push ==> (r matches Some(out)
                && out matches Ok(nm) && nm@ == old(self).repo_name@),
    {
        if !success {
            let e = match self.stage {
                RestoreStage::Download => StageError::DownloadFailed,
                RestoreStage::Uncompress => StageError::UncompressFailed,
                _ => StageError::PushFailed,
            };
            self.stage = RestoreStage::Failed;
            return Some(Err(e));
        }
        match self.stage {
            RestoreStage::Download => {
                self.stage = RestoreStage::Uncompress;
                None
            },
            RestoreStage::Uncompress => {
                self.stage = RestoreStage::Push;
                None
            },
            _ => {
                self.stage = RestoreStage::Done;
                Some(Ok(self.repo_name.clone()))
            },
        }
    }
}

/// First failure wins across the archive pipeline: with the three stage
/// statuses in their running order, the first non-zero exit determines the
/// reported error and makes the machine terminal at once — the stages after
/// it are never running, so their commands are never issued — and only an
/// all-success run reaches `Done`.
pub proof fn lemma_archive_first_failure_wins(s1: bool, s2: bool, s3: bool)
    ensures
        ({
            let t1 = ArchiveStage::Clone.next(s1);
            let t2 = t1.next(s2);
            let t3 = t2.next(s3);
            &&& !s1 ==> t1 == ArchiveStage::Failed && !t1.is_running() && ArchiveStage::Clone.error()
                == StageError::CloneFailed
            &&& s1 && !s2 ==> t1 == ArchiveStage::Compress && t2 == ArchiveStage::Failed
                && !t2.is_running() && t1.error() == StageError::CompressFailed
            &&& s1 && s2 && !s3 ==> t2 == ArchiveStage::Upload && t3 == ArchiveStage::Failed
                && !t3.is_running() && t2.error() == StageError::UploadFailed
            &&& s1 && s2 && s3 ==> t3 == ArchiveStage::Done && !t3.is_running()
        }),
{
}

/// First failure wins across the restore pipeline, exactly as for the
/// archive pipeline.
pub proof fn lemma_restore_first_failure_wins(s1: bool, s2: bool, s3: bool)
    ensures
        ({
            let t1 = RestoreStage::Download.next(s1);
            let t2 = t1.next(s2);
            let t3 = t2.next(s3);
            &&& !s1 ==> t1 == RestoreStage::Failed && !t1.is_running()
                && RestoreStage::Download.error() == StageError::DownloadFailed
            &&& s1 && !s2 ==> t1 == RestoreStage::Uncompress && t2 == RestoreStage::Failed
                && !t2.is_running() && t1.error() == StageError::UncompressFailed
            &&& s1 && s2 && !s3 ==> t2 == RestoreStage::Push && t3 == RestoreStage::Failed
                && !t3.is_running() && t2.error() == StageError::PushFailed
            &&& s1 && s2 && s3 ==> t3 == RestoreStage::Done && !t3.is_running()
        }),
{
}

/// Two archive pipelines over the same source URL with distinct compress
/// directories derive the same repository name, and write their artifacts
/// at distinct paths: the two runs are independent.
pub proof fn lemma_archive_runs_independent(p1: ArchivePipeline, p2: ArchivePipeline)
    requires
        p1.wf(),
        p2.wf(),
        p1.clone_url@ == p2.clone_url@,
        p1.compress_dir@ != p2.compress_dir@,
    ensures
        p1.repo_name@ == p2.repo_name@,
        archive_artifact_path(p1.compress_dir@, p1.repo_name@) != archive_artifact_path(
            p2.compress_dir@,
            p2.repo_name@,
        ),
{
    let d1 = p1.compress_dir@;
    let d2 = p2.compress_dir@;
    let x = archive_artifact_path(d1, p1.repo_name@);
    let y = archive_artifact_path(d2, p2.repo_name@);
    if x == y {
        assert(x.len() == d1.len() + "/"@.len() + p1.repo_name@.len() + ".tar.gz"@.len());
        assert(y.len() == d2.len() + "/"@.len() + p2.repo_name@.len() + ".tar.gz"@.len());
        assert(d1.len() == d2.len());
        assert(d1 =~= x.subrange(0, d1.len() as int));
        assert(d2 =~= y.subrange(0, d2.len() as int));
        assert(false);
    }
}

} // verus!
