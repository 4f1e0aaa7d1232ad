//! Keeps the local branches of a git repository in step with a remote.
//!
//! Every local branch of the remote is held against its upstream, or, where
//! the upstream is gone, against the remote's default branch. A branch that is
//! behind is moved forward, one that is merged and gone from the remote is
//! deleted, and one that holds work of its own is left alone with a warning.
//!
//! `action` holds the decisions as functions of plain facts, `git` the
//! repository as the decisions see it, `hubsync` the run over all branches,
//! and `store` the calls into `git2` that the rest is built on.

pub mod action;
pub mod err;
pub mod git;
pub mod hubsync;
pub mod oid;
pub mod store;
pub mod text;
pub mod tips;
