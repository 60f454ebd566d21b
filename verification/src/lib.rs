//! Derives a version-control branch name from the commit messages in a
//! revision range: the history is extracted through the version-control
//! system, summarized by a text-generation backend, and reduced to a valid
//! branch-name token that a bookmark is then created and pushed under.
//!
//! The library holds the pipeline's decisions; running commands and calling
//! the backend is the surrounding program's part, driven through
//! [`pipeline::step`].

pub mod backend;
pub mod command;
pub mod name;
pub mod pipeline;
pub mod text;
