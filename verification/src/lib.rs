//! Decisions of a command-line assistant that creates repositories on a
//! Gitea server, tracks them from the local working copy, searches the
//! server and opens a repository's page.
//!
//! Nothing here touches the outside world. Each workflow is a transition
//! function: it is handed what a collaborator returned and answers with the
//! next state, what has to be done next and what has to be told to the user.

pub mod text;
pub mod error;
pub mod trust_model;
pub mod context;
pub mod report;
pub mod repository;
pub mod credentials;
pub mod options;
pub mod remote;
pub mod create;
pub mod browse;
pub mod search;
pub mod cli;
