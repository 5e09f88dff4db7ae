//! A compact summary of a version-controlled working copy's state, meant for
//! embedding in a shell prompt: the checked-out branch name, the divergence
//! from its upstream, and counts of changed files by category.

pub mod classify;
pub mod decide;
pub mod flags;
mod git;
pub mod resolve;
pub mod summary;
