//! The name under which the working copy tracks a repository.

use vstd::prelude::*;
use vstd::string::*;
use crate::error::{CliError, CliErrorView};

verus! {

/// The name of the remote where none is given.
pub open spec fn default_remote_name() -> Seq<char> {
    "origin"@
}

/// What the user is told when the remote is given as empty.
pub open spec fn missing_remote_message() -> Seq<char> {
    "Missing remote name"@
}

/// The remote to use: the one given, else `origin`. A name is only asked
/// not to be empty; whether it is a valid name is for the version-control
/// tool to say.
pub open spec fn chosen_remote(remote: Option<Seq<char>>) -> Result<Seq<char>, CliErrorView> {
    let name = match remote {
        Some(name) => name,
        None => default_remote_name(),
    };
    if name.len() == 0 {
        Err(CliErrorView::Validation(missing_remote_message()))
    } else {
        Ok(name)
    }
}

/// The name of the remote where none is given.
pub fn default_remote() -> (name: String)
    ensures
        name@ == default_remote_name(),
{
    String::from_str("origin")
}

/// The remote to use: the one given, else `origin`. Fails with a
/// validation error where the name given is empty.
pub fn choose_remote(remote: &Option<String>) -> (chosen: Result<String, CliError>)
    ensures
        match chosen {
            Ok(name) => chosen_remote(remote.deep_view()) == Ok::<Seq<char>, CliErrorView>(name@)
                && name@.len() > 0,
            Err(error) => chosen_remote(remote.deep_view()) == Err::<Seq<char>, CliErrorView>(
                error@,
            ),
        },
{
    let name = match remote {
        Some(name) => name.clone(),
        None => default_remote(),
    };
    if name.as_str().is_empty() {
        Err(CliError::Validation(String::from_str("Missing remote name")))
    } else {
        Ok(name)
    }
}

} // verus!
