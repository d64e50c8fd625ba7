//! The user name and password for one Gitea server.

use vstd::prelude::*;
use vstd::string::*;
use crate::error::{CliError, CliErrorView};
use crate::text::{copy_optional, quoted};

verus! {

/// What is known of the user's credentials for the server at `url`. The
/// user name and the password are known or unknown independently of each
/// other. A value is never changed once built.
#[derive(Debug)]
pub struct Credentials {
    url: String,
    username: Option<String>,
    password: Option<String>,
}

/// The mathematical value of [`Credentials`].
pub struct CredentialsView {
    pub url: Seq<char>,
    pub username: Option<Seq<char>>,
    pub password: Option<Seq<char>>,
}

impl CredentialsView {
    /// Nothing known but the server.
    pub open spec fn unknown(url: Seq<char>) -> CredentialsView {
        CredentialsView { url, username: None, password: None }
    }

    /// Whether both the user name and the password are known, as a request
    /// that needs authentication demands.
    pub open spec fn is_complete(self) -> bool {
        self.username is Some && self.password is Some
    }

    /// These credentials with each unknown piece taken from what was
    /// obtained elsewhere. A piece already known is kept; the server stays.
    pub open spec fn fill(
        self,
        username: Option<Seq<char>>,
        password: Option<Seq<char>>,
    ) -> CredentialsView {
        CredentialsView {
            url: self.url,
            username: if self.username is Some {
                self.username
            } else {
                username
            },
            password: if self.password is Some {
                self.password
            } else {
                password
            },
        }
    }
}

/// What the user is told when the user name or the password is missing.
pub open spec fn missing_credentials_message(url: Seq<char>) -> Seq<char> {
    "No user name and password for "@ + quoted(url)
}

/// The credentials for the server at `url` from what could be obtained of
/// them. Where the request that follows needs authentication, both pieces
/// have to be there; where it needs none, either may be missing.
pub open spec fn resolved_credentials(
    url: Seq<char>,
    username: Option<Seq<char>>,
    password: Option<Seq<char>>,
    authenticated: bool,
) -> Result<CredentialsView, CliErrorView> {
    let credentials = CredentialsView::unknown(url).fill(username, password);
    if authenticated && !credentials.is_complete() {
        Err(CliErrorView::Credential(missing_credentials_message(url)))
    } else {
        Ok(credentials)
    }
}

impl View for Credentials {
    type V = CredentialsView;

    closed spec fn view(&self) -> CredentialsView {
        CredentialsView {
            url: self.url@,
            username: self.username.deep_view(),
            password: self.password.deep_view(),
        }
    }
}

impl Credentials {
    /// Credentials for the server at `url` of which nothing is known yet.
    pub fn with_url(url: &str) -> (credentials: Credentials)
        ensures
            credentials@ == CredentialsView::unknown(url@),
    {
        Credentials { url: String::from_str(url), username: None, password: None }
    }

    /// Credentials for the server at `url` with both pieces known.
    pub fn with_url_username_password(url: &str, username: &str, password: &str) -> (credentials:
        Credentials)
        ensures
            credentials@ == (CredentialsView {
                url: url@,
                username: Some(username@),
                password: Some(password@),
            }),
            credentials@.is_complete(),
    {
        Credentials {
            url: String::from_str(url),
            username: Some(String::from_str(username)),
            password: Some(String::from_str(password)),
        }
    }

    /// The credentials for the server at `url` from what could be obtained
    /// of them. `authenticated` says whether the request that follows needs
    /// authentication: then it is a credential failure if the user name or
    /// the password is missing.
    pub fn resolve(
        url: &str,
        username: Option<String>,
        password: Option<String>,
        authenticated: bool,
    ) -> (resolved: Result<Credentials, CliError>)
        ensures
            match resolved {
                Ok(credentials) => resolved_credentials(
                    url@,
                    username.deep_view(),
                    password.deep_view(),
                    authenticated,
                ) == Ok::<CredentialsView, CliErrorView>(credentials@) && credentials@.url == url@,
                Err(error) => resolved_credentials(
                    url@,
                    username.deep_view(),
                    password.deep_view(),
                    authenticated,
                ) == Err::<CredentialsView, CliErrorView>(error@),
            },
    {
        let credentials = Credentials::with_url(url).fill(username, password);
        if authenticated && !credentials.is_complete() {
            let reason = String::from_str("No user name and password for ").concat("'").concat(
                url,
            ).concat("'");
            assert(reason@ == missing_credentials_message(url@));
            Err(CliError::Credential(reason))
        } else {
            Ok(credentials)
        }
    }

    /// These credentials with each unknown piece taken from `username` and
    /// `password`. A piece already known is kept; the server stays.
    pub fn fill(&self, username: Option<String>, password: Option<String>) -> (filled: Credentials)
        ensures
            filled@ == self@.fill(username.deep_view(), password.deep_view()),
            filled@.url == self@.url,
    {
        let username = match &self.username {
            Some(known) => Some(known.clone()),
            None => username,
        };
        let password = match &self.password {
            Some(known) => Some(known.clone()),
            None => password,
        };
        Credentials { url: self.url.clone(), username, password }
    }

    /// The server that the credentials are for.
    pub fn url(&self) -> (url: &str)
        ensures
            url@ == self@.url,
    {
        self.url.as_str()
    }

    /// The user name, if known.
    pub fn username(&self) -> (username: Option<String>)
        ensures
            username.deep_view() == self@.username,
    {
        copy_optional(&self.username)
    }

    /// The password, if known.
    pub fn password(&self) -> (password: Option<String>)
        ensures
            password.deep_view() == self@.password,
    {
        copy_optional(&self.password)
    }

    /// Whether both the user name and the password are known.
    pub fn is_complete(&self) -> (complete: bool)
        ensures
            complete == self@.is_complete(),
    {
        self.username.is_some() && self.password.is_some()
    }

    /// The same credentials, copied.
    pub fn copy(&self) -> (same: Credentials)
        ensures
            same@ == self@,
    {
        Credentials {
            url: self.url.clone(),
            username: copy_optional(&self.username),
            password: copy_optional(&self.password),
        }
    }
}

/// Resolved credentials are those of the server they were asked for, hold
/// what was obtained, and are complete where authentication is needed; they
/// are refused exactly where it is needed and a piece is missing.
pub proof fn resolved_credentials_fit_the_request(
    url: Seq<char>,
    username: Option<Seq<char>>,
    password: Option<Seq<char>>,
    authenticated: bool,
)
    ensures
        resolved_credentials(url, username, password, authenticated) is Err <==> authenticated && (
        username is None || password is None),
        resolved_credentials(url, username, password, authenticated) matches Ok(credentials) ==> {
            &&& credentials.url == url
            &&& credentials.username == username
            &&& credentials.password == password
            &&& authenticated ==> credentials.is_complete()
        },
        resolved_credentials(url, username, password, authenticated) matches Err(error)
            ==> error is Credential,
{
}

} // verus!
