//! Orchestration logic for archiving a git repository into an object-storage
//! bucket and restoring it back.
//!
//! All external work (cloning, compressing, uploading, downloading,
//! extracting, mirror-pushing) is delegated to child processes that an
//! unverified driver runs.  This crate holds everything that can be decided
//! without running a process: deriving the repository name from a URL,
//! resolving the credential profile, building the exact command line of each
//! pipeline stage, advancing each pipeline on a stage's exit status with
//! first-failure-wins short-circuiting, and composing the final report line.

pub mod name;
pub mod pipeline;
pub mod report;
