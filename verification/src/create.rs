//! The workflow that creates a repository on the Gitea server and tracks it
//! from the local working copy.
//!
//! The workflow is a state machine. Its driver performs the action that the
//! machine asks for, hands back what came of it as an event, and prints the
//! messages of each step. The remote repository is always created before the
//! local remote is added, and a remote that cannot be added leaves the
//! created repository in place.

use vstd::prelude::*;
use vstd::string::*;
use crate::credentials::{resolved_credentials, Credentials, CredentialsView};
use crate::error::{CliError, CliErrorView};
use crate::options::{
    build_options,
    resolve_name,
    resolved_name,
    CreateRepoOptions,
    CreateRepoOptionsView,
    OptionFields,
    OptionFieldsView,
};
use crate::remote::{choose_remote, chosen_remote};
use crate::report::{
    no_messages,
    one_message,
    two_messages,
    unexpected_event_message,
    Message,
    MessageView,
};
use crate::repository::{Repository, RepositoryView};
use crate::text::copy_optional;

verus! {

/// The line that reports the created repository.
pub open spec fn created_message(clone_url: Seq<char>) -> Seq<char> {
    "Created remote repository: "@ + clone_url
}

/// The line that reports the remote under which the repository is tracked.
pub open spec fn tracking_message(remote: Seq<char>) -> Seq<char> {
    "Tracking remote repository locally as: "@ + remote
}

/// The line that suggests the first push.
pub open spec fn push_message(remote: Seq<char>, branch: Seq<char>) -> Seq<char> {
    "Push: git push -u "@ + remote + " "@ + branch
}

/// The step of the workflow at which a failure occurred.
#[derive(Clone, Copy, Debug, PartialEq, Eq, Structural)]
pub enum Stage {
    /// No address of the server was given.
    MissingUrl,
    /// The top-level directory of the working copy was not found.
    LocalContext,
    /// The credentials were not obtained.
    Credentials,
    /// The request could not be built.
    Options,
    /// The server did not create the repository.
    RemoteCreate,
    /// The repository was created, but the remote was not added.
    RemoteAdd,
}

/// What the command line gave to the `create` command.
#[derive(Debug)]
pub struct CreateArgs {
    /// The address of the Gitea server.
    pub url: Option<String>,
    /// A path inside the working copy; the current directory where absent.
    pub path: Option<String>,
    /// The name of the remote to add.
    pub remote: Option<String>,
    /// The name of the repository on the server.
    pub gitea_name: Option<String>,
    /// The other fields of the repository.
    pub fields: OptionFields,
}

/// The mathematical value of [`CreateArgs`].
pub struct CreateArgsView {
    pub url: Option<Seq<char>>,
    pub path: Option<Seq<char>>,
    pub remote: Option<Seq<char>>,
    pub gitea_name: Option<Seq<char>>,
    pub fields: OptionFieldsView,
}

impl View for CreateArgs {
    type V = CreateArgsView;

    open spec fn view(&self) -> CreateArgsView {
        CreateArgsView {
            url: self.url.deep_view(),
            path: self.path.deep_view(),
            remote: self.remote.deep_view(),
            gitea_name: self.gitea_name.deep_view(),
            fields: self.fields@,
        }
    }
}

/// Where the workflow stands.
#[derive(Debug)]
pub enum CreateState {
    /// Waiting for the top-level directory of the working copy.
    ResolvingContext { args: CreateArgs, url: String },
    /// Waiting for the credentials.
    ResolvingCredentials { args: CreateArgs, url: String, top_level: String },
    /// About to build the request; nothing is asked of the outside.
    BuildingOptions { args: CreateArgs, url: String, top_level: String, credentials: Credentials },
    /// Waiting for the server to create the repository.
    Creating { remote: String, path: Option<String> },
    /// The repository exists; waiting for the remote to be added.
    AddingRemote { remote: String, repository: Repository },
    /// The repository exists and is tracked under `remote`.
    Done { remote: String, repository: Repository },
    /// The workflow failed at `stage`. `created` holds the repository where
    /// the server had created it before the failure.
    Failed { stage: Stage, error: CliError, created: Option<Repository> },
}

/// The mathematical value of a [`CreateState`].
pub enum CreateStateView {
    ResolvingContext { args: CreateArgsView, url: Seq<char> },
    ResolvingCredentials { args: CreateArgsView, url: Seq<char>, top_level: Seq<char> },
    BuildingOptions {
        args: CreateArgsView,
        url: Seq<char>,
        top_level: Seq<char>,
        credentials: CredentialsView,
    },
    Creating { remote: Seq<char>, path: Option<Seq<char>> },
    AddingRemote { remote: Seq<char>, repository: RepositoryView },
    Done { remote: Seq<char>, repository: RepositoryView },
    Failed { stage: Stage, error: CliErrorView, created: Option<RepositoryView> },
}

impl View for CreateState {
    type V = CreateStateView;

    open spec fn view(&self) -> CreateStateView {
        match self {
            CreateState::ResolvingContext { args, url } => CreateStateView::ResolvingContext {
                args: args@,
                url: url@,
            },
            CreateState::ResolvingCredentials {
                args,
                url,
                top_level,
            } => CreateStateView::ResolvingCredentials {
                args: args@,
                url: url@,
                top_level: top_level@,
            },
            CreateState::BuildingOptions {
                args,
                url,
                top_level,
                credentials,
            } => CreateStateView::BuildingOptions {
                args: args@,
                url: url@,
                top_level: top_level@,
                credentials: credentials@,
            },
            CreateState::Creating { remote, path } => CreateStateView::Creating {
                remote: remote@,
                path: path.deep_view(),
            },
            CreateState::AddingRemote { remote, repository } => CreateStateView::AddingRemote {
                remote: remote@,
                repository: repository@,
            },
            CreateState::Done { remote, repository } => CreateStateView::Done {
                remote: remote@,
                repository: repository@,
            },
            CreateState::Failed { stage, error, created } => CreateStateView::Failed {
                stage: *stage,
                error: error@,
                created: created.deep_view(),
            },
        }
    }
}

impl CreateStateView {
    /// Whether the workflow has ended.
    pub open spec fn is_terminal(self) -> bool {
        self is Done || self is Failed
    }

    /// How far the workflow has come: the states in the order in which they
    /// are passed through, the two that end it last.
    pub open spec fn position(self) -> nat {
        match self {
            CreateStateView::ResolvingContext { .. } => 0,
            CreateStateView::ResolvingCredentials { .. } => 1,
            CreateStateView::BuildingOptions { .. } => 2,
            CreateStateView::Creating { .. } => 3,
            CreateStateView::AddingRemote { .. } => 4,
            CreateStateView::Done { .. } => 5,
            CreateStateView::Failed { .. } => 5,
        }
    }

    /// The stage that fails when the workflow breaks off in this state.
    pub open spec fn stage(self) -> Stage {
        match self {
            CreateStateView::ResolvingContext { .. } => Stage::LocalContext,
            CreateStateView::ResolvingCredentials { .. } => Stage::Credentials,
            CreateStateView::BuildingOptions { .. } => Stage::Options,
            CreateStateView::Creating { .. } => Stage::RemoteCreate,
            CreateStateView::AddingRemote { .. } => Stage::RemoteAdd,
            CreateStateView::Done { .. } => Stage::RemoteAdd,
            CreateStateView::Failed { stage, .. } => stage,
        }
    }

    /// The repository that the server has created so far, if any.
    pub open spec fn created(self) -> Option<RepositoryView> {
        match self {
            CreateStateView::AddingRemote { repository, .. } => Some(repository),
            CreateStateView::Done { repository, .. } => Some(repository),
            CreateStateView::Failed { created, .. } => created,
            _ => None,
        }
    }

    /// What holds of every state that the workflow reaches: the server's
    /// address is not empty, and the credentials are complete and are those
    /// of that server.
    pub open spec fn well_formed(self) -> bool {
        match self {
            CreateStateView::ResolvingContext { url, .. } => url.len() > 0,
            CreateStateView::ResolvingCredentials { url, .. } => url.len() > 0,
            CreateStateView::BuildingOptions { url, credentials, .. } => {
                &&& url.len() > 0
                &&& credentials.url == url
                &&& credentials.is_complete()
            },
            CreateStateView::Failed { stage, created, .. } => created is Some ==> stage
                == Stage::RemoteAdd,
            _ => true,
        }
    }
}

/// What the driver reports back to the workflow.
#[derive(Debug)]
pub enum CreateEvent {
    /// Nothing was asked of the outside; the workflow goes on.
    Proceed,
    /// The top-level directory of the working copy.
    TopLevelFound(String),
    /// The path is not inside a working copy; holds the reason.
    TopLevelFailed(String),
    /// What could be obtained of the credentials.
    CredentialsObtained { username: Option<String>, password: Option<String> },
    /// The credentials could not be asked for; holds the reason.
    CredentialsFailed(String),
    /// The server created the repository.
    RepositoryCreated(Repository),
    /// The server did not create the repository; holds the cause.
    CreateFailed(String),
    /// The remote was added to the working copy.
    RemoteAdded,
    /// The remote was not added; holds the reason.
    RemoteAddFailed(String),
}

/// The mathematical value of a [`CreateEvent`].
pub enum CreateEventView {
    Proceed,
    TopLevelFound(Seq<char>),
    TopLevelFailed(Seq<char>),
    CredentialsObtained { username: Option<Seq<char>>, password: Option<Seq<char>> },
    CredentialsFailed(Seq<char>),
    RepositoryCreated(RepositoryView),
    CreateFailed(Seq<char>),
    RemoteAdded,
    RemoteAddFailed(Seq<char>),
}

impl View for CreateEvent {
    type V = CreateEventView;

    open spec fn view(&self) -> CreateEventView {
        match self {
            CreateEvent::Proceed => CreateEventView::Proceed,
            CreateEvent::TopLevelFound(path) => CreateEventView::TopLevelFound(path@),
            CreateEvent::TopLevelFailed(words) => CreateEventView::TopLevelFailed(words@),
            CreateEvent::CredentialsObtained {
                username,
                password,
            } => CreateEventView::CredentialsObtained {
                username: username.deep_view(),
                password: password.deep_view(),
            },
            CreateEvent::CredentialsFailed(words) => CreateEventView::CredentialsFailed(words@),
            CreateEvent::RepositoryCreated(repository) => CreateEventView::RepositoryCreated(
                repository@,
            ),
            CreateEvent::CreateFailed(cause) => CreateEventView::CreateFailed(cause@),
            CreateEvent::RemoteAdded => CreateEventView::RemoteAdded,
            CreateEvent::RemoteAddFailed(words) => CreateEventView::RemoteAddFailed(words@),
        }
    }
}

/// What the driver has to do next.
#[derive(Debug)]
pub enum CreateAction {
    /// The workflow has ended.
    Stop,
    /// Nothing to do outside: hand back `Proceed`.
    BuildOptions,
    /// Find the top-level directory of the working copy around `path`.
    ResolveTopLevel { path: Option<String> },
    /// Obtain the credentials for the server at `url`.
    FillCredentials { url: String },
    /// Ask the server at `url` to create the repository, with these credentials.
    CreateRepository { url: String, credentials: Credentials, options: CreateRepoOptions },
    /// Add the remote `remote` for `clone_url` to the working copy around `path`.
    AddRemote { remote: String, clone_url: String, path: Option<String> },
}

/// The mathematical value of a [`CreateAction`].
pub enum CreateActionView {
    Stop,
    BuildOptions,
    ResolveTopLevel { path: Option<Seq<char>> },
    FillCredentials { url: Seq<char> },
    CreateRepository {
        url: Seq<char>,
        credentials: CredentialsView,
        options: CreateRepoOptionsView,
    },
    AddRemote { remote: Seq<char>, clone_url: Seq<char>, path: Option<Seq<char>> },
}

impl View for CreateAction {
    type V = CreateActionView;

    open spec fn view(&self) -> CreateActionView {
        match self {
            CreateAction::Stop => CreateActionView::Stop,
            CreateAction::BuildOptions => CreateActionView::BuildOptions,
            CreateAction::ResolveTopLevel { path } => CreateActionView::ResolveTopLevel {
                path: path.deep_view(),
            },
            CreateAction::FillCredentials { url } => CreateActionView::FillCredentials {
                url: url@,
            },
            CreateAction::CreateRepository {
                url,
                credentials,
                options,
            } => CreateActionView::CreateRepository {
                url: url@,
                credentials: credentials@,
                options: options@,
            },
            CreateAction::AddRemote { remote, clone_url, path } => CreateActionView::AddRemote {
                remote: remote@,
                clone_url: clone_url@,
                path: path.deep_view(),
            },
        }
    }
}

/// One step of the workflow: where it stands now, what the driver has to do
/// next, and what the user is told.
#[derive(Debug)]
pub struct CreateStep {
    pub state: CreateState,
    pub action: CreateAction,
    pub messages: Vec<Message>,
}

/// The mathematical value of a [`CreateStep`].
pub struct CreateStepView {
    pub state: CreateStateView,
    pub action: CreateActionView,
    pub messages: Seq<MessageView>,
}

impl View for CreateStep {
    type V = CreateStepView;

    open spec fn view(&self) -> CreateStepView {
        CreateStepView {
            state: self.state@,
            action: self.action@,
            messages: self.messages.deep_view(),
        }
    }
}

/// The step that ends the workflow at `stage` with `error`: the failure is
/// told to the user in one line, and nothing more is asked of the driver.
pub open spec fn failure(stage: Stage, error: CliErrorView, created: Option<RepositoryView>) -> CreateStepView {
    CreateStepView {
        state: CreateStateView::Failed { stage, error, created },
        action: CreateActionView::Stop,
        messages: seq![MessageView::Error(error.message())],
    }
}

/// The step that leaves a state that has ended as it is.
pub open spec fn stay(state: CreateStateView) -> CreateStepView {
    CreateStepView { state, action: CreateActionView::Stop, messages: Seq::empty() }
}

/// The first step: the workflow needs the address of the server, and then
/// asks for the top-level directory.
pub open spec fn create_start(args: CreateArgsView) -> CreateStepView {
    match args.url {
        Some(url) if url.len() > 0 => CreateStepView {
            state: CreateStateView::ResolvingContext { args, url },
            action: CreateActionView::ResolveTopLevel { path: args.path },
            messages: Seq::empty(),
        },
        _ => failure(Stage::MissingUrl, CliErrorView::MissingUrl, None),
    }
}

/// The step out of `BuildingOptions`: the remote is chosen, the name
/// resolved and the request built, in this order; the first that fails ends
/// the workflow.
pub open spec fn create_build(
    args: CreateArgsView,
    url: Seq<char>,
    top_level: Seq<char>,
    credentials: CredentialsView,
) -> CreateStepView {
    match chosen_remote(args.remote) {
        Err(error) => failure(Stage::Options, error, None),
        Ok(remote) => match resolved_name(args.gitea_name, top_level) {
            Err(error) => failure(Stage::Options, error, None),
            Ok(name) => match build_options(name, args.fields) {
                Err(error) => failure(Stage::Options, error, None),
                Ok(options) => CreateStepView {
                    state: CreateStateView::Creating { remote, path: args.path },
                    action: CreateActionView::CreateRepository { url, credentials, options },
                    messages: Seq::empty(),
                },
            },
        },
    }
}

/// The step that `event` causes in `state`.
///
/// Each state waits for the outcome of one action. The outcome moves the
/// workflow on or ends it; any other event ends it at the stage of the
/// state. A state that has ended stays as it is.
pub open spec fn create_step(state: CreateStateView, event: CreateEventView) -> CreateStepView {
    match state {
        CreateStateView::ResolvingContext { args, url } => match event {
            CreateEventView::TopLevelFound(top_level) => CreateStepView {
                state: CreateStateView::ResolvingCredentials { args, url, top_level },
                action: CreateActionView::FillCredentials { url },
                messages: Seq::empty(),
            },
            CreateEventView::TopLevelFailed(words) => failure(
                Stage::LocalContext,
                CliErrorView::NotARepository(words),
                None,
            ),
            _ => failure(
                Stage::LocalContext,
                CliErrorView::Other(unexpected_event_message()),
                None,
            ),
        },
        CreateStateView::ResolvingCredentials { args, url, top_level } => match event {
            CreateEventView::CredentialsObtained {
                username,
                password,
            } => match resolved_credentials(url, username, password, true) {
                Ok(credentials) => CreateStepView {
                    state: CreateStateView::BuildingOptions { args, url, top_level, credentials },
                    action: CreateActionView::BuildOptions,
                    messages: Seq::empty(),
                },
                Err(error) => failure(Stage::Credentials, error, None),
            },
            CreateEventView::CredentialsFailed(words) => failure(
                Stage::Credentials,
                CliErrorView::Credential(words),
                None,
            ),
            _ => failure(
                Stage::Credentials,
                CliErrorView::Other(unexpected_event_message()),
                None,
            ),
        },
        CreateStateView::BuildingOptions { args, url, top_level, credentials } => match event {
            CreateEventView::Proceed => create_build(args, url, top_level, credentials),
            _ => failure(Stage::Options, CliErrorView::Other(unexpected_event_message()), None),
        },
        CreateStateView::Creating { remote, path } => match event {
            CreateEventView::RepositoryCreated(repository) => CreateStepView {
                state: CreateStateView::AddingRemote { remote, repository },
                action: CreateActionView::AddRemote {
                    remote,
                    clone_url: repository.clone_url,
                    path,
                },
                messages: seq![MessageView::Info(created_message(repository.clone_url))],
            },
            CreateEventView::CreateFailed(cause) => failure(
                Stage::RemoteCreate,
                CliErrorView::Api(cause),
                None,
            ),
            _ => failure(
                Stage::RemoteCreate,
                CliErrorView::Other(unexpected_event_message()),
                None,
            ),
        },
        CreateStateView::AddingRemote { remote, repository } => match event {
            CreateEventView::RemoteAdded => CreateStepView {
                state: CreateStateView::Done { remote, repository },
                action: CreateActionView::Stop,
                messages: seq![
                    MessageView::Info(tracking_message(remote)),
                    MessageView::Info(push_message(remote, repository.default_branch)),
                ],
            },
            CreateEventView::RemoteAddFailed(words) => failure(
                Stage::RemoteAdd,
                CliErrorView::RemoteAdd(words),
                Some(repository),
            ),
            _ => failure(
                Stage::RemoteAdd,
                CliErrorView::Other(unexpected_event_message()),
                Some(repository),
            ),
        },
        CreateStateView::Done { .. } => stay(state),
        CreateStateView::Failed { .. } => stay(state),
    }
}

/// Ends the workflow at `stage` with `error`.
fn fail(stage: Stage, error: CliError, created: Option<Repository>) -> (step: CreateStep)
    ensures
        step@ == failure(stage, error@, created.deep_view()),
{
    let line = Message::Error(error.message());
    CreateStep {
        state: CreateState::Failed { stage, error, created },
        action: CreateAction::Stop,
        messages: one_message(line),
    }
}

/// Ends the workflow at `stage` because of an event that was not awaited.
fn unexpected(stage: Stage, created: Option<Repository>) -> (step: CreateStep)
    ensures
        step@ == failure(
            stage,
            CliErrorView::Other(unexpected_event_message()),
            created.deep_view(),
        ),
{
    fail(stage, CliError::other("Unexpected event"), created)
}

/// Begins the workflow. Without a server address it fails at once;
/// otherwise it asks for the top-level directory of the working copy.
pub fn start(args: CreateArgs) -> (step: CreateStep)
    ensures
        step@ == create_start(args@),
        step@.state.well_formed(),
{
    let url = match &args.url {
        Some(url) => if url.as_str().is_empty() {
            None
        } else {
            Some(url.clone())
        },
        None => None,
    };
    match url {
        Some(url) => {
            let path = copy_optional(&args.path);
            CreateStep {
                state: CreateState::ResolvingContext { args, url },
                action: CreateAction::ResolveTopLevel { path },
                messages: no_messages(),
            }
        },
        None => fail(Stage::MissingUrl, CliError::MissingUrl, None),
    }
}

/// Chooses the remote, resolves the name and builds the request.
fn build(args: CreateArgs, url: String, top_level: String, credentials: Credentials) -> (step:
    CreateStep)
    ensures
        step@ == create_build(args@, url@, top_level@, credentials@),
{
    let remote = match choose_remote(&args.remote) {
        Ok(remote) => remote,
        Err(error) => {
            return fail(Stage::Options, error, None);
        },
    };
    let name = match resolve_name(&args.gitea_name, top_level.as_str()) {
        Ok(name) => name,
        Err(error) => {
            return fail(Stage::Options, error, None);
        },
    };
    let options = match CreateRepoOptions::build(name.as_str(), &args.fields) {
        Ok(options) => options,
        Err(error) => {
            return fail(Stage::Options, error, None);
        },
    };
    CreateStep {
        state: CreateState::Creating { remote, path: args.path },
        action: CreateAction::CreateRepository { url, credentials, options },
        messages: no_messages(),
    }
}

/// Takes the workflow one step on: `event` is what came of the action that
/// the previous step asked for.
pub fn step(state: CreateState, event: CreateEvent) -> (next: CreateStep)
    ensures
        next@ == create_step(state@, event@),
        state@.well_formed() ==> next@.state.well_formed(),
{
    proof {
        if state@.well_formed() {
            create_step_keeps_well_formed(state@, event@);
        }
    }
    match state {
        CreateState::ResolvingContext { args, url } => match event {
            CreateEvent::TopLevelFound(top_level) => {
                let action = CreateAction::FillCredentials { url: url.clone() };
                CreateStep {
                    state: CreateState::ResolvingCredentials { args, url, top_level },
                    action,
                    messages: no_messages(),
                }
            },
            CreateEvent::TopLevelFailed(words) => fail(
                Stage::LocalContext,
                CliError::NotARepository(words),
                None,
            ),
            _ => unexpected(Stage::LocalContext, None),
        },
        CreateState::ResolvingCredentials { args, url, top_level } => match event {
            CreateEvent::CredentialsObtained {
                username,
                password,
            } => match Credentials::resolve(url.as_str(), username, password, true) {
                Ok(credentials) => CreateStep {
                    state: CreateState::BuildingOptions { args, url, top_level, credentials },
                    action: CreateAction::BuildOptions,
                    messages: no_messages(),
                },
                Err(error) => fail(Stage::Credentials, error, None),
            },
            CreateEvent::CredentialsFailed(words) => fail(
                Stage::Credentials,
                CliError::Credential(words),
                None,
            ),
            _ => unexpected(Stage::Credentials, None),
        },
        CreateState::BuildingOptions { args, url, top_level, credentials } => match event {
            CreateEvent::Proceed => build(args, url, top_level, credentials),
            _ => unexpected(Stage::Options, None),
        },
        CreateState::Creating { remote, path } => match event {
            CreateEvent::RepositoryCreated(repository) => {
                let line = String::from_str("Created remote repository: ").concat(
                    repository.clone_url.as_str(),
                );
                let action = CreateAction::AddRemote {
                    remote: remote.clone(),
                    clone_url: repository.clone_url.clone(),
                    path,
                };
                CreateStep {
                    state: CreateState::AddingRemote { remote, repository },
                    action,
                    messages: one_message(Message::Info(line)),
                }
            },
            CreateEvent::CreateFailed(cause) => fail(
                Stage::RemoteCreate,
                CliError::Api(cause),
                None,
            ),
            _ => unexpected(Stage::RemoteCreate, None),
        },
        CreateState::AddingRemote { remote, repository } => match event {
            CreateEvent::RemoteAdded => {
                let tracking = String::from_str("Tracking remote repository locally as: ").concat(
                    remote.as_str(),
                );
                let push = String::from_str("Push: git push -u ").concat(remote.as_str()).concat(
                    " ",
                ).concat(repository.default_branch.as_str());
                assert(push@ == push_message(remote@, repository@.default_branch));
                CreateStep {
                    state: CreateState::Done { remote, repository },
                    action: CreateAction::Stop,
                    messages: two_messages(Message::Info(tracking), Message::Info(push)),
                }
            },
            CreateEvent::RemoteAddFailed(words) => fail(
                Stage::RemoteAdd,
                CliError::RemoteAdd(words),
                Some(repository),
            ),
            _ => unexpected(Stage::RemoteAdd, Some(repository)),
        },
        CreateState::Done { remote, repository } => CreateStep {
            state: CreateState::Done { remote, repository },
            action: CreateAction::Stop,
            messages: no_messages(),
        },
        CreateState::Failed { stage, error, created } => CreateStep {
            state: CreateState::Failed { stage, error, created },
            action: CreateAction::Stop,
            messages: no_messages(),
        },
    }
}

impl CreateState {
    /// Whether the workflow has ended.
    pub fn is_terminal(&self) -> (ended: bool)
        ensures
            ended == self@.is_terminal(),
    {
        match self {
            CreateState::Done { .. } => true,
            CreateState::Failed { .. } => true,
            _ => false,
        }
    }

    /// Whether the workflow has ended with the repository created and tracked.
    pub fn is_done(&self) -> (done: bool)
        ensures
            done == (self@ is Done),
    {
        match self {
            CreateState::Done { .. } => true,
            _ => false,
        }
    }

    /// The clone URL of the repository that the server has created so far,
    /// if any. It is kept when a later step fails.
    pub fn created_clone_url(&self) -> (clone_url: Option<String>)
        ensures
            clone_url.deep_view() == match self@.created() {
                Some(repository) => Some(repository.clone_url),
                None => None,
            },
    {
        match self {
            CreateState::AddingRemote { repository, .. } => Some(repository.clone_url.clone()),
            CreateState::Done { repository, .. } => Some(repository.clone_url.clone()),
            CreateState::Failed { created: Some(repository), .. } => Some(
                repository.clone_url.clone(),
            ),
            _ => None,
        }
    }
}

/// Every step leaves a well-formed state well-formed, and the first step
/// reaches one.
pub proof fn create_step_keeps_well_formed(state: CreateStateView, event: CreateEventView)
    requires
        state.well_formed(),
    ensures
        create_step(state, event).state.well_formed(),
{
}

/// The workflow only moves forward: every step of a workflow that has not
/// ended leads to the next state in order or to failure, so nothing is ever
/// tried again, and the workflow ends after five steps at most. What a
/// step asks for is what the state that it leads to waits for.
pub proof fn create_moves_forward(state: CreateStateView, event: CreateEventView)
    requires
        !state.is_terminal(),
    ensures
        create_step(state, event).state is Failed || create_step(state, event).state.position()
            == state.position() + 1,
        create_step(state, event).state is ResolvingCredentials <==> create_step(
            state,
            event,
        ).action is FillCredentials,
        create_step(state, event).state is BuildingOptions <==> create_step(
            state,
            event,
        ).action is BuildOptions,
        create_step(state, event).state is Creating <==> create_step(
            state,
            event,
        ).action is CreateRepository,
        create_step(state, event).state is AddingRemote <==> create_step(
            state,
            event,
        ).action is AddRemote,
        create_step(state, event).state.is_terminal() <==> create_step(state, event).action is Stop,
        !(create_step(state, event).action is ResolveTopLevel),
{
}

/// The first step asks for the top-level directory or fails for want of the
/// server's address; it asks for nothing else.
pub proof fn create_starts_with_context(args: CreateArgsView)
    ensures
        create_start(args).state.well_formed(),
        create_start(args).state is ResolvingContext <==> create_start(
            args,
        ).action is ResolveTopLevel,
        create_start(args).state is ResolvingContext <==> (args.url is Some && args.url->0.len()
            > 0),
        create_start(args).state is ResolvingContext || create_start(args) == failure(
            Stage::MissingUrl,
            CliErrorView::MissingUrl,
            None,
        ),
{
}

/// A workflow that has ended stays as it is: nothing is tried again and
/// nothing is told twice.
pub proof fn create_ended_stays_ended(state: CreateStateView, event: CreateEventView)
    requires
        state.is_terminal(),
    ensures
        create_step(state, event).state == state,
        create_step(state, event).action is Stop,
        create_step(state, event).messages.len() == 0,
{
}

/// A step that ends the workflow in failure tells the user that one failure,
/// in one line, and asks nothing more of the driver.
pub proof fn create_failure_told_once(state: CreateStateView, event: CreateEventView)
    requires
        !state.is_terminal(),
        create_step(state, event).state is Failed,
    ensures
        create_step(state, event).action is Stop,
        create_step(state, event).messages == seq![
            MessageView::Error(create_step(state, event).state->Failed_error.message()),
        ],
        create_step(state, event).state->Failed_stage == state.stage(),
        create_step(state, event).state.created() == state.created(),
{
}

/// The server is asked to create the repository only by the step that
/// builds the request, and then with complete credentials for that server
/// and a request whose name and default branch are not empty.
pub proof fn create_asks_server_with_sound_request(state: CreateStateView, event: CreateEventView)
    requires
        state.well_formed(),
        create_step(state, event).action is CreateRepository,
    ensures
        state is BuildingOptions,
        event is Proceed,
        create_step(state, event).state is Creating,
        ({
            let action = create_step(state, event).action;
            &&& action->CreateRepository_url == state->BuildingOptions_url
            &&& action->CreateRepository_credentials.url == action->CreateRepository_url
            &&& action->CreateRepository_credentials.is_complete()
            &&& action->CreateRepository_options.well_formed()
        }),
{
}

/// The working copy is touched only after the server has created the
/// repository: a remote is added only on the event that reports the
/// creation, and for the clone URL that the server returned. A creation
/// that failed asks for nothing more.
pub proof fn create_comes_before_add(state: CreateStateView, event: CreateEventView)
    ensures
        create_step(state, event).action is AddRemote ==> {
            &&& state is Creating
            &&& event is RepositoryCreated
            &&& create_step(state, event).action->AddRemote_clone_url
                == event->RepositoryCreated_0.clone_url
            &&& create_step(state, event).action->AddRemote_remote == state->Creating_remote
            &&& create_step(state, event).state.created() == Some(event->RepositoryCreated_0)
        },
        state is Creating && !(event is RepositoryCreated) ==> {
            &&& create_step(state, event).action is Stop
            &&& create_step(state, event).state is Failed
            &&& create_step(state, event).state.created() is None
        },
{
}

/// A repository that was created is not lost when the remote cannot be
/// added: the creation is told to the user with the clone URL, the failure
/// to add is told in a line of its own, and the workflow ends as failed at
/// the last stage, still holding the repository.
pub proof fn create_survives_failed_add(
    remote: Seq<char>,
    path: Option<Seq<char>>,
    repository: RepositoryView,
    words: Seq<char>,
)
    ensures
        ({
            let created = create_step(
                CreateStateView::Creating { remote, path },
                CreateEventView::RepositoryCreated(repository),
            );
            let ended = create_step(created.state, CreateEventView::RemoteAddFailed(words));
            &&& created.messages == seq![
                MessageView::Info(created_message(repository.clone_url)),
            ]
            &&& created.action == (CreateActionView::AddRemote {
                remote,
                clone_url: repository.clone_url,
                path,
            })
            &&& ended.messages == seq![MessageView::Error(words)]
            &&& ended.action is Stop
            &&& !(ended.state is Done)
            &&& ended.state == (CreateStateView::Failed {
                stage: Stage::RemoteAdd,
                error: CliErrorView::RemoteAdd(words),
                created: Some(repository),
            })
        }),
{
}

/// When the remote is added too, the workflow is done, and the user is told
/// the remote and the command for the first push, with the default branch
/// that the server reported.
pub proof fn create_reports_full_success(
    remote: Seq<char>,
    path: Option<Seq<char>>,
    repository: RepositoryView,
)
    ensures
        ({
            let created = create_step(
                CreateStateView::Creating { remote, path },
                CreateEventView::RepositoryCreated(repository),
            );
            let ended = create_step(created.state, CreateEventView::RemoteAdded);
            &&& ended.state == (CreateStateView::Done { remote, repository })
            &&& ended.action is Stop
            &&& ended.messages == seq![
                MessageView::Info("Tracking remote repository locally as: "@ + remote),
                MessageView::Info(
                    "Push: git push -u "@ + remote + " "@ + repository.default_branch,
                ),
            ]
        }),
{
}

} // verus!
