//! What can go wrong in a command, and the one line that tells the user.

use vstd::prelude::*;
use vstd::string::*;
use crate::text::quoted;

verus! {

/// A failure of one command. Every variant ends the command in which it occurs.
#[derive(Debug)]
pub enum CliError {
    /// No address of the Gitea server was given.
    MissingUrl,
    /// The path is not inside a working copy; holds the version-control tool's words.
    NotARepository(String),
    /// The final segment of this path cannot serve as a repository name.
    InvalidPath(String),
    /// No user name or password could be obtained; holds the reason.
    Credential(String),
    /// An option given on the command line is malformed; holds the reason.
    Validation(String),
    /// The Gitea server could not be reached or refused the request; holds the cause.
    Api(String),
    /// The remote could not be added to the working copy; holds the version-control tool's words.
    RemoteAdd(String),
    /// No remote of that name is configured in the working copy.
    RemoteNotFound { remote: String, cause: String },
    /// The page at `url` could not be opened; `cause` holds the opener's words.
    OpenFailed { url: String, cause: String },
    /// Anything else, as text.
    Other(String),
}

/// The mathematical value of a [`CliError`].
pub enum CliErrorView {
    MissingUrl,
    NotARepository(Seq<char>),
    InvalidPath(Seq<char>),
    Credential(Seq<char>),
    Validation(Seq<char>),
    Api(Seq<char>),
    RemoteAdd(Seq<char>),
    RemoteNotFound { remote: Seq<char>, cause: Seq<char> },
    OpenFailed { url: Seq<char>, cause: Seq<char> },
    Other(Seq<char>),
}

impl CliErrorView {
    /// The line shown to the user for this failure.
    pub open spec fn message(self) -> Seq<char> {
        match self {
            CliErrorView::MissingUrl => "Missing Gitea URL"@,
            CliErrorView::NotARepository(words) => words,
            CliErrorView::InvalidPath(path) => "No repository name can be taken from "@ + quoted(
                path,
            ),
            CliErrorView::Credential(reason) => reason,
            CliErrorView::Validation(reason) => reason,
            CliErrorView::Api(cause) => cause,
            CliErrorView::RemoteAdd(words) => words,
            CliErrorView::RemoteNotFound { remote, cause } => "Error getting remote URL for "@
                + quoted(remote) + ": "@ + cause,
            CliErrorView::OpenFailed { url, cause } => "Error opening "@ + quoted(url) + ": "@
                + cause,
            CliErrorView::Other(words) => words,
        }
    }
}

impl View for CliError {
    type V = CliErrorView;

    open spec fn view(&self) -> CliErrorView {
        match self {
            CliError::MissingUrl => CliErrorView::MissingUrl,
            CliError::NotARepository(words) => CliErrorView::NotARepository(words@),
            CliError::InvalidPath(path) => CliErrorView::InvalidPath(path@),
            CliError::Credential(reason) => CliErrorView::Credential(reason@),
            CliError::Validation(reason) => CliErrorView::Validation(reason@),
            CliError::Api(cause) => CliErrorView::Api(cause@),
            CliError::RemoteAdd(words) => CliErrorView::RemoteAdd(words@),
            CliError::RemoteNotFound { remote, cause } => CliErrorView::RemoteNotFound {
                remote: remote@,
                cause: cause@,
            },
            CliError::OpenFailed { url, cause } => CliErrorView::OpenFailed {
                url: url@,
                cause: cause@,
            },
            CliError::Other(words) => CliErrorView::Other(words@),
        }
    }
}

impl CliError {
    /// The line shown to the user for this failure.
    pub fn message(&self) -> (line: String)
        ensures
            line@ == self@.message(),
    {
        match self {
            CliError::MissingUrl => String::from_str("Missing Gitea URL"),
            CliError::NotARepository(words) => words.clone(),
            CliError::InvalidPath(path) => {
                let line = String::from_str("No repository name can be taken from ").concat(
                    "'",
                ).concat(path.as_str()).concat("'");
                assert(line@ == self@.message());
                line
            },
            CliError::Credential(reason) => reason.clone(),
            CliError::Validation(reason) => reason.clone(),
            CliError::Api(cause) => cause.clone(),
            CliError::RemoteAdd(words) => words.clone(),
            CliError::RemoteNotFound { remote, cause } => {
                let line = String::from_str("Error getting remote URL for ").concat("'").concat(
                    remote.as_str(),
                ).concat("'").concat(": ").concat(cause.as_str());
                assert(line@ == self@.message());
                line
            },
            CliError::OpenFailed { url, cause } => {
                let line = String::from_str("Error opening ").concat("'").concat(
                    url.as_str(),
                ).concat("'").concat(": ").concat(cause.as_str());
                assert(line@ == self@.message());
                line
            },
            CliError::Other(words) => words.clone(),
        }
    }

    /// A failure that is known only by its words.
    pub fn other(words: &str) -> (error: CliError)
        ensures
            error@ == CliErrorView::Other(words@),
    {
        CliError::Other(String::from_str(words))
    }

    /// The same failure, copied.
    pub fn copy(&self) -> (same: CliError)
        ensures
            same@ == self@,
    {
        match self {
            CliError::MissingUrl => CliError::MissingUrl,
            CliError::NotARepository(words) => CliError::NotARepository(words.clone()),
            CliError::InvalidPath(path) => CliError::InvalidPath(path.clone()),
            CliError::Credential(reason) => CliError::Credential(reason.clone()),
            CliError::Validation(reason) => CliError::Validation(reason.clone()),
            CliError::Api(cause) => CliError::Api(cause.clone()),
            CliError::RemoteAdd(words) => CliError::RemoteAdd(words.clone()),
            CliError::RemoteNotFound { remote, cause } => CliError::RemoteNotFound {
                remote: remote.clone(),
                cause: cause.clone(),
            },
            CliError::OpenFailed { url, cause } => CliError::OpenFailed {
                url: url.clone(),
                cause: cause.clone(),
            },
            CliError::Other(words) => CliError::Other(words.clone()),
        }
    }
}

impl From<String> for CliError {
    fn from(err: String) -> (error: CliError) {
        CliError::Other(err)
    }
}

impl vstd::std_specs::convert::FromSpecImpl<String> for CliError {
    open spec fn obeys_from_spec() -> bool {
        true
    }

    open spec fn from_spec(err: String) -> CliError {
        CliError::Other(err)
    }
}


} // verus!
