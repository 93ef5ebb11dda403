//! A declarative orchestrator for git checkouts and symlink farms.
//!
//! The library holds the decisions: which git operations a repository may
//! perform, which git command each operation runs, in what order a batch of
//! operations visits the repositories and when it gives up on one, and what a
//! link operation does given what stands at the link's location. Running git
//! and touching the filesystem is left to the caller, which hands the outcomes
//! back.
pub mod capability;
pub mod config;
pub mod link;
pub mod pipeline;
pub mod repo;

pub use capability::{RepoFlags, RepoKinds};
pub use config::{Category, Config};
pub use link::{Link, LinkAction, LinkError, RxState};
pub use pipeline::{Pipeline, SeriesItem, Task};
pub use repo::{GitCommand, GitOp, Repo};
