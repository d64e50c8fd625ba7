//! The workflow that opens the page of a tracked repository.
//!
//! The driver asks the version-control tool for the URL of the remote and
//! then asks the system to open it. Nothing is opened unless the remote was
//! found.

use vstd::prelude::*;
use vstd::string::*;
use crate::error::{CliError, CliErrorView};
use crate::remote::{choose_remote, chosen_remote};
use crate::report::{
    no_messages,
    one_message,
    unexpected_event_message,
    Message,
    MessageView,
};
use crate::text::quoted;

verus! {

/// The line that reports the opened page.
pub open spec fn opened_message(url: Seq<char>) -> Seq<char> {
    "Opened "@ + quoted(url)
}

/// What the command line gave to the `browse` command.
#[derive(Debug)]
pub struct BrowseArgs {
    /// The name of the remote whose page is opened.
    pub remote: Option<String>,
    /// A path inside the working copy; the current directory where absent.
    pub path: Option<String>,
}

/// The mathematical value of [`BrowseArgs`].
pub struct BrowseArgsView {
    pub remote: Option<Seq<char>>,
    pub path: Option<Seq<char>>,
}

impl View for BrowseArgs {
    type V = BrowseArgsView;

    open spec fn view(&self) -> BrowseArgsView {
        BrowseArgsView { remote: self.remote.deep_view(), path: self.path.deep_view() }
    }
}

/// Where the workflow stands.
#[derive(Debug)]
pub enum BrowseState {
    /// Waiting for the URL of the remote.
    ResolvingRemote { remote: String },
    /// Waiting for the page to be opened.
    Opening { url: String },
    /// The page was opened.
    Done { url: String },
    /// The workflow failed.
    Failed { error: CliError },
}

/// The mathematical value of a [`BrowseState`].
pub enum BrowseStateView {
    ResolvingRemote { remote: Seq<char> },
    Opening { url: Seq<char> },
    Done { url: Seq<char> },
    Failed { error: CliErrorView },
}

impl View for BrowseState {
    type V = BrowseStateView;

    open spec fn view(&self) -> BrowseStateView {
        match self {
            BrowseState::ResolvingRemote { remote } => BrowseStateView::ResolvingRemote {
                remote: remote@,
            },
            BrowseState::Opening { url } => BrowseStateView::Opening { url: url@ },
            BrowseState::Done { url } => BrowseStateView::Done { url: url@ },
            BrowseState::Failed { error } => BrowseStateView::Failed { error: error@ },
        }
    }
}

impl BrowseStateView {
    /// Whether the workflow has ended.
    pub open spec fn is_terminal(self) -> bool {
        self is Done || self is Failed
    }
}

/// What the driver reports back to the workflow.
#[derive(Debug)]
pub enum BrowseEvent {
    /// The URL configured for the remote.
    RemoteUrlFound(String),
    /// No URL is configured for the remote; holds the reason.
    RemoteUrlFailed(String),
    /// The page was opened.
    Opened,
    /// The page was not opened; holds the reason.
    OpenFailed(String),
}

/// The mathematical value of a [`BrowseEvent`].
pub enum BrowseEventView {
    RemoteUrlFound(Seq<char>),
    RemoteUrlFailed(Seq<char>),
    Opened,
    OpenFailed(Seq<char>),
}

impl View for BrowseEvent {
    type V = BrowseEventView;

    open spec fn view(&self) -> BrowseEventView {
        match self {
            BrowseEvent::RemoteUrlFound(url) => BrowseEventView::RemoteUrlFound(url@),
            BrowseEvent::RemoteUrlFailed(cause) => BrowseEventView::RemoteUrlFailed(cause@),
            BrowseEvent::Opened => BrowseEventView::Opened,
            BrowseEvent::OpenFailed(cause) => BrowseEventView::OpenFailed(cause@),
        }
    }
}

/// What the driver has to do next.
#[derive(Debug)]
pub enum BrowseAction {
    /// The workflow has ended.
    Stop,
    /// Ask for the URL of `remote` in the working copy around `path`.
    ResolveRemoteUrl { remote: String, path: Option<String> },
    /// Open `url` with the system's handler, without waiting for it.
    Open { url: String },
}

/// The mathematical value of a [`BrowseAction`].
pub enum BrowseActionView {
    Stop,
    ResolveRemoteUrl { remote: Seq<char>, path: Option<Seq<char>> },
    Open { url: Seq<char> },
}

impl View for BrowseAction {
    type V = BrowseActionView;

    open spec fn view(&self) -> BrowseActionView {
        match self {
            BrowseAction::Stop => BrowseActionView::Stop,
            BrowseAction::ResolveRemoteUrl { remote, path } => BrowseActionView::ResolveRemoteUrl {
                remote: remote@,
                path: path.deep_view(),
            },
            BrowseAction::Open { url } => BrowseActionView::Open { url: url@ },
        }
    }
}

/// One step of the workflow.
#[derive(Debug)]
pub struct BrowseStep {
    pub state: BrowseState,
    pub action: BrowseAction,
    pub messages: Vec<Message>,
}

/// The mathematical value of a [`BrowseStep`].
pub struct BrowseStepView {
    pub state: BrowseStateView,
    pub action: BrowseActionView,
    pub messages: Seq<MessageView>,
}

impl View for BrowseStep {
    type V = BrowseStepView;

    open spec fn view(&self) -> BrowseStepView {
        BrowseStepView {
            state: self.state@,
            action: self.action@,
            messages: self.messages.deep_view(),
        }
    }
}

/// The step that ends the workflow with `error`, told in one line.
pub open spec fn browse_failure(error: CliErrorView) -> BrowseStepView {
    BrowseStepView {
        state: BrowseStateView::Failed { error },
        action: BrowseActionView::Stop,
        messages: seq![MessageView::Error(error.message())],
    }
}

/// The first step: the remote is chosen and its URL asked for.
pub open spec fn browse_start(args: BrowseArgsView) -> BrowseStepView {
    match chosen_remote(args.remote) {
        Ok(remote) => BrowseStepView {
            state: BrowseStateView::ResolvingRemote { remote },
            action: BrowseActionView::ResolveRemoteUrl { remote, path: args.path },
            messages: Seq::empty(),
        },
        Err(error) => browse_failure(error),
    }
}

/// The step that `event` causes in `state`.
pub open spec fn browse_step(state: BrowseStateView, event: BrowseEventView) -> BrowseStepView {
    match state {
        BrowseStateView::ResolvingRemote { remote } => match event {
            BrowseEventView::RemoteUrlFound(url) => BrowseStepView {
                state: BrowseStateView::Opening { url },
                action: BrowseActionView::Open { url },
                messages: Seq::empty(),
            },
            BrowseEventView::RemoteUrlFailed(cause) => browse_failure(
                CliErrorView::RemoteNotFound { remote, cause },
            ),
            _ => browse_failure(CliErrorView::Other(unexpected_event_message())),
        },
        BrowseStateView::Opening { url } => match event {
            BrowseEventView::Opened => BrowseStepView {
                state: BrowseStateView::Done { url },
                action: BrowseActionView::Stop,
                messages: seq![MessageView::Info(opened_message(url))],
            },
            BrowseEventView::OpenFailed(cause) => browse_failure(
                CliErrorView::OpenFailed { url, cause },
            ),
            _ => browse_failure(CliErrorView::Other(unexpected_event_message())),
        },
        _ => BrowseStepView { state, action: BrowseActionView::Stop, messages: Seq::empty() },
    }
}

/// Ends the workflow with `error`.
fn fail(error: CliError) -> (step: BrowseStep)
    ensures
        step@ == browse_failure(error@),
{
    let line = Message::Error(error.message());
    BrowseStep {
        state: BrowseState::Failed { error },
        action: BrowseAction::Stop,
        messages: one_message(line),
    }
}

/// Begins the workflow: asks for the URL of the remote, which is `origin`
/// where none is named. Fails at once where the name given is empty.
pub fn start(args: BrowseArgs) -> (step: BrowseStep)
    ensures
        step@ == browse_start(args@),
{
    match choose_remote(&args.remote) {
        Ok(remote) => {
            let action = BrowseAction::ResolveRemoteUrl { remote: remote.clone(), path: args.path };
            BrowseStep {
                state: BrowseState::ResolvingRemote { remote },
                action,
                messages: no_messages(),
            }
        },
        Err(error) => fail(error),
    }
}

/// Takes the workflow one step on: `event` is what came of the action that
/// the previous step asked for.
pub fn step(state: BrowseState, event: BrowseEvent) -> (next: BrowseStep)
    ensures
        next@ == browse_step(state@, event@),
{
    match state {
        BrowseState::ResolvingRemote { remote } => match event {
            BrowseEvent::RemoteUrlFound(url) => {
                let action = BrowseAction::Open { url: url.clone() };
                BrowseStep { state: BrowseState::Opening { url }, action, messages: no_messages() }
            },
            BrowseEvent::RemoteUrlFailed(cause) => fail(CliError::RemoteNotFound { remote, cause }),
            _ => fail(CliError::other("Unexpected event")),
        },
        BrowseState::Opening { url } => match event {
            BrowseEvent::Opened => {
                let line = String::from_str("Opened ").concat("'").concat(url.as_str()).concat(
                    "'",
                );
                assert(line@ == opened_message(url@));
                BrowseStep {
                    state: BrowseState::Done { url },
                    action: BrowseAction::Stop,
                    messages: one_message(Message::Info(line)),
                }
            },
            BrowseEvent::OpenFailed(cause) => fail(CliError::OpenFailed { url, cause }),
            _ => fail(CliError::other("Unexpected event")),
        },
        BrowseState::Done { url } => BrowseStep {
            state: BrowseState::Done { url },
            action: BrowseAction::Stop,
            messages: no_messages(),
        },
        BrowseState::Failed { error } => BrowseStep {
            state: BrowseState::Failed { error },
            action: BrowseAction::Stop,
            messages: no_messages(),
        },
    }
}

impl BrowseState {
    /// Whether the workflow has ended.
    pub fn is_terminal(&self) -> (ended: bool)
        ensures
            ended == self@.is_terminal(),
    {
        match self {
            BrowseState::Done { .. } => true,
            BrowseState::Failed { .. } => true,
            _ => false,
        }
    }
}

/// A page is opened only for a remote that was found: the system is asked
/// to open a URL only on the event that reports the URL of the remote, and
/// then that URL. A remote that is not configured ends the workflow with
/// `RemoteNotFound` and nothing is opened.
pub proof fn browse_opens_only_what_was_found(state: BrowseStateView, event: BrowseEventView)
    ensures
        browse_step(state, event).action is Open ==> {
            &&& state is ResolvingRemote
            &&& event is RemoteUrlFound
            &&& browse_step(state, event).action->Open_url == event->RemoteUrlFound_0
        },
        state is ResolvingRemote && event is RemoteUrlFailed ==> {
            &&& browse_step(state, event).action is Stop
            &&& browse_step(state, event).state == (BrowseStateView::Failed {
                error: CliErrorView::RemoteNotFound {
                    remote: state->ResolvingRemote_remote,
                    cause: event->RemoteUrlFailed_0,
                },
            })
        },
{
}

/// The first step never opens anything, and the remote asked for is the one
/// named on the command line, or `origin`.
pub proof fn browse_starts_by_resolving(args: BrowseArgsView)
    ensures
        !(browse_start(args).action is Open),
        browse_start(args).action is ResolveRemoteUrl ==> {
            &&& chosen_remote(args.remote) == Ok::<Seq<char>, CliErrorView>(
                browse_start(args).action->ResolveRemoteUrl_remote,
            )
            &&& browse_start(args).action->ResolveRemoteUrl_path == args.path
        },
{
}

/// A workflow that has ended stays as it is and says nothing more.
pub proof fn browse_ended_stays_ended(state: BrowseStateView, event: BrowseEventView)
    requires
        state.is_terminal(),
    ensures
        browse_step(state, event).state == state,
        browse_step(state, event).action is Stop,
        browse_step(state, event).messages.len() == 0,
{
}

} // verus!
