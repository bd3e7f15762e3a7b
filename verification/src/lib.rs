//! Core of a push-triggered build-and-release service.
//!
//! A push notification names a branch; the branch resolves to an ordered list
//! of build pipelines; a supervisor spawns them as one cancellable job,
//! superseding any job still in flight. Each pipeline synchronizes a working
//! copy of the repository, runs an ordered sequence of external commands, and
//! publishes the packaged artifact to a remote release by deleting the old
//! asset of the same name and uploading the new one.
//!
//! This crate holds the decision core: every branch taken between two I/O
//! operations is a verified function here. The surrounding process — child
//! processes, git transport, HTTP — performs the actions these functions
//! prescribe and feeds the observed results back in.

pub mod build;
pub mod config;
pub mod git;
pub mod model;
pub mod github;
pub mod text;
pub mod push;
pub mod signature;
pub mod supervisor;
