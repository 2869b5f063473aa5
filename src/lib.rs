//! Interactive pruning of stale local branches: the decisions of the review
//! session, kept apart from the terminal and the repository that carry them out.

pub mod action;
pub mod branch;
pub mod session;
