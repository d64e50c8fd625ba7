//! The workflow that searches the repositories of a Gitea server and shows
//! what was found. Searching needs no credentials, and nothing is changed.

use vstd::prelude::*;
use vstd::string::*;
use crate::error::{CliError, CliErrorView};
use crate::report::{no_messages, one_message, Message, MessageView};
use crate::repository::{Repository, RepositoryView, SearchReposResult, SearchReposResultView};
use crate::text::quoted;

verus! {

/// The line shown where the search found nothing.
pub open spec fn no_matches_line() -> Seq<char> {
    "<no matches>"@
}

/// What stands in the description column of a repository without a description.
pub open spec fn no_description_text() -> Seq<char> {
    "<no description>"@
}

/// The line above the rows.
pub open spec fn table_heading() -> Seq<char> {
    "Full Name | Clone URL | Description"@
}

/// The description column of a repository.
pub open spec fn description_column(repository: RepositoryView) -> Seq<char> {
    if repository.description.len() == 0 {
        no_description_text()
    } else {
        repository.description
    }
}

/// The row of a repository: its full name, its clone URL and its description.
pub open spec fn row(repository: RepositoryView) -> Seq<char> {
    repository.full_name + " | "@ + repository.clone_url + " | "@ + description_column(repository)
}

/// The lines that show the result of a search: none where the server
/// failed the search, the placeholder where nothing was found, else the
/// heading and one row for each repository, in the server's order.
pub open spec fn rendered(result: SearchReposResultView) -> Seq<Seq<char>> {
    if !result.ok {
        Seq::empty()
    } else if result.repositories.len() == 0 {
        seq![no_matches_line()]
    } else {
        seq![table_heading()] + Seq::new(
            result.repositories.len(),
            |i: int| row(result.repositories[i]),
        )
    }
}

/// The line that announces the search.
pub open spec fn announcement(url: Seq<char>, contains: Option<Seq<char>>) -> Seq<char> {
    match contains {
        Some(text) => "Repositories on "@ + quoted(url) + " containing "@ + quoted(text) + ":"@,
        None => "Repositories on "@ + quoted(url),
    }
}

/// The row of a repository.
pub fn render_row(repository: &Repository) -> (line: String)
    ensures
        line@ == row(repository@),
{
    let description = if repository.description.as_str().is_empty() {
        "<no description>"
    } else {
        repository.description.as_str()
    };
    let line = String::from_str(repository.full_name.as_str()).concat(" | ").concat(
        repository.clone_url.as_str(),
    ).concat(" | ").concat(description);
    assert(line@ == row(repository@));
    line
}

/// The lines that show the result of a search.
pub fn render(result: &SearchReposResult) -> (lines: Vec<String>)
    ensures
        lines.deep_view() == rendered(result@),
{
    let mut lines: Vec<String> = Vec::new();
    if !result.ok() {
        assert(lines.deep_view() =~= rendered(result@));
        return lines;
    }
    let repositories = result.repositories();
    if repositories.len() == 0 {
        lines.push(String::from_str("<no matches>"));
        assert(lines.deep_view() =~= rendered(result@));
        return lines;
    }
    lines.push(String::from_str("Full Name | Clone URL | Description"));
    let mut i: usize = 0;
    while i < repositories.len()
        invariant
            i <= repositories.len(),
            lines.len() == i + 1,
            lines[0]@ == table_heading(),
            forall|k: int| 0 <= k < i ==> (#[trigger] lines[k + 1])@ == row(repositories[k]@),
        decreases repositories.len() - i,
    {
        let line = render_row(&repositories[i]);
        lines.push(line);
        i = i + 1;
    }
    proof {
        let shown = rendered(result@);
        assert(result@.repositories.len() == repositories.len());
        assert(lines.deep_view().len() == shown.len());
        assert forall|k: int| 0 <= k < shown.len() implies lines.deep_view()[k] == shown[k] by {
            if k > 0 {
                assert(lines[(k - 1) + 1]@ == row(repositories[k - 1]@));
                assert(result@.repositories[k - 1] == repositories[k - 1]@);
            }
        }
        assert(lines.deep_view() =~= shown);
    }
    lines
}

/// The line that announces the search.
pub fn announce(url: &str, contains: &Option<String>) -> (line: String)
    ensures
        line@ == announcement(url@, contains.deep_view()),
{
    let start = String::from_str("Repositories on ").concat("'").concat(url).concat("'");
    match contains {
        Some(text) => {
            let line = start.concat(" containing ").concat("'").concat(text.as_str()).concat(
                "'",
            ).concat(":");
            assert(line@ == announcement(url@, contains.deep_view()));
            line
        },
        None => {
            assert(start@ == announcement(url@, contains.deep_view()));
            start
        },
    }
}

/// What the command line gave to the `search` command.
#[derive(Debug)]
pub struct SearchArgs {
    /// The address of the Gitea server.
    pub url: Option<String>,
    /// Only repositories whose name contains this text are looked for.
    pub contains: Option<String>,
}

/// The mathematical value of [`SearchArgs`].
pub struct SearchArgsView {
    pub url: Option<Seq<char>>,
    pub contains: Option<Seq<char>>,
}

impl View for SearchArgs {
    type V = SearchArgsView;

    open spec fn view(&self) -> SearchArgsView {
        SearchArgsView { url: self.url.deep_view(), contains: self.contains.deep_view() }
    }
}

/// Where the workflow stands.
#[derive(Debug)]
pub enum SearchState {
    /// Waiting for the server's answer.
    Searching,
    /// The answer was shown.
    Done,
    /// The workflow failed.
    Failed { error: CliError },
}

/// The mathematical value of a [`SearchState`].
pub enum SearchStateView {
    Searching,
    Done,
    Failed { error: CliErrorView },
}

impl View for SearchState {
    type V = SearchStateView;

    open spec fn view(&self) -> SearchStateView {
        match self {
            SearchState::Searching => SearchStateView::Searching,
            SearchState::Done => SearchStateView::Done,
            SearchState::Failed { error } => SearchStateView::Failed { error: error@ },
        }
    }
}

/// What the driver reports back to the workflow.
#[derive(Debug)]
pub enum SearchEvent {
    /// The server answered.
    Answered(SearchReposResult),
    /// The server could not be reached; holds the cause.
    SearchFailed(String),
}

/// The mathematical value of a [`SearchEvent`].
pub enum SearchEventView {
    Answered(SearchReposResultView),
    SearchFailed(Seq<char>),
}

impl View for SearchEvent {
    type V = SearchEventView;

    open spec fn view(&self) -> SearchEventView {
        match self {
            SearchEvent::Answered(result) => SearchEventView::Answered(result@),
            SearchEvent::SearchFailed(cause) => SearchEventView::SearchFailed(cause@),
        }
    }
}

/// What the driver has to do next.
#[derive(Debug)]
pub enum SearchAction {
    /// The workflow has ended.
    Stop,
    /// Ask the server at `url` for its repositories, without credentials.
    SearchRepositories { url: String, contains: Option<String> },
}

/// The mathematical value of a [`SearchAction`].
pub enum SearchActionView {
    Stop,
    SearchRepositories { url: Seq<char>, contains: Option<Seq<char>> },
}

impl View for SearchAction {
    type V = SearchActionView;

    open spec fn view(&self) -> SearchActionView {
        match self {
            SearchAction::Stop => SearchActionView::Stop,
            SearchAction::SearchRepositories {
                url,
                contains,
            } => SearchActionView::SearchRepositories {
                url: url@,
                contains: contains.deep_view(),
            },
        }
    }
}

/// One step of the workflow.
#[derive(Debug)]
pub struct SearchStep {
    pub state: SearchState,
    pub action: SearchAction,
    pub messages: Vec<Message>,
}

/// The mathematical value of a [`SearchStep`].
pub struct SearchStepView {
    pub state: SearchStateView,
    pub action: SearchActionView,
    pub messages: Seq<MessageView>,
}

impl View for SearchStep {
    type V = SearchStepView;

    open spec fn view(&self) -> SearchStepView {
        SearchStepView {
            state: self.state@,
            action: self.action@,
            messages: self.messages.deep_view(),
        }
    }
}

/// The step that ends the workflow with `error`, told in one line.
pub open spec fn search_failure(error: CliErrorView) -> SearchStepView {
    SearchStepView {
        state: SearchStateView::Failed { error },
        action: SearchActionView::Stop,
        messages: seq![MessageView::Error(error.message())],
    }
}

/// The lines of a result as plain messages.
pub open spec fn plain(lines: Seq<Seq<char>>) -> Seq<MessageView> {
    Seq::new(lines.len(), |i: int| MessageView::Plain(lines[i]))
}

/// The first step: the workflow needs the address of the server, announces
/// the search and asks for it.
pub open spec fn search_start(args: SearchArgsView) -> SearchStepView {
    match args.url {
        Some(url) if url.len() > 0 => SearchStepView {
            state: SearchStateView::Searching,
            action: SearchActionView::SearchRepositories { url, contains: args.contains },
            messages: seq![MessageView::Info(announcement(url, args.contains))],
        },
        _ => search_failure(CliErrorView::MissingUrl),
    }
}

/// The step that `event` causes in `state`.
pub open spec fn search_step(state: SearchStateView, event: SearchEventView) -> SearchStepView {
    match state {
        SearchStateView::Searching => match event {
            SearchEventView::Answered(result) => SearchStepView {
                state: SearchStateView::Done,
                action: SearchActionView::Stop,
                messages: plain(rendered(result)),
            },
            SearchEventView::SearchFailed(cause) => search_failure(CliErrorView::Api(cause)),
        },
        _ => SearchStepView { state, action: SearchActionView::Stop, messages: Seq::empty() },
    }
}

/// Ends the workflow with `error`.
fn fail(error: CliError) -> (step: SearchStep)
    ensures
        step@ == search_failure(error@),
{
    let line = Message::Error(error.message());
    SearchStep {
        state: SearchState::Failed { error },
        action: SearchAction::Stop,
        messages: one_message(line),
    }
}

/// Begins the workflow. Without a server address it fails at once;
/// otherwise it announces the search and asks for it.
pub fn start(args: SearchArgs) -> (step: SearchStep)
    ensures
        step@ == search_start(args@),
{
    let url = match &args.url {
        Some(url) => if url.as_str().is_empty() {
            None
        } else {
            Some(url.clone())
        },
        None => None,
    };
    match url {
        Some(url) => {
            let line = announce(url.as_str(), &args.contains);
            SearchStep {
                state: SearchState::Searching,
                action: SearchAction::SearchRepositories { url, contains: args.contains },
                messages: one_message(Message::Info(line)),
            }
        },
        None => fail(CliError::MissingUrl),
    }
}

/// Takes the workflow one step on: `event` is the server's answer, or why
/// there is none.
pub fn step(state: SearchState, event: SearchEvent) -> (next: SearchStep)
    ensures
        next@ == search_step(state@, event@),
{
    match state {
        SearchState::Searching => match event {
            SearchEvent::Answered(result) => {
                let lines = render(&result);
                let mut messages: Vec<Message> = Vec::new();
                let ghost shown = lines.deep_view();
                let count = lines.len();
                let mut i: usize = 0;
                while i < count
                    invariant
                        i <= count,
                        count == lines.len(),
                        messages.len() == i,
                        lines.deep_view() == shown,
                        forall|k: int|
                            0 <= k < i ==> (#[trigger] messages[k])@ == MessageView::Plain(shown[k]),
                    decreases count - i,
                {
                    let line = lines[i].clone();
                    assert(line@ == lines.deep_view()[i as int]);
                    messages.push(Message::Plain(line));
                    i = i + 1;
                }
                assert(messages.deep_view() =~= plain(shown));
                SearchStep { state: SearchState::Done, action: SearchAction::Stop, messages }
            },
            SearchEvent::SearchFailed(cause) => fail(CliError::Api(cause)),
        },
        SearchState::Done => SearchStep {
            state: SearchState::Done,
            action: SearchAction::Stop,
            messages: no_messages(),
        },
        SearchState::Failed { error } => SearchStep {
            state: SearchState::Failed { error },
            action: SearchAction::Stop,
            messages: no_messages(),
        },
    }
}

/// A search that the server failed shows no row at all, whatever the
/// result holds.
pub proof fn failed_search_shows_nothing(result: SearchReposResultView)
    requires
        !result.ok,
    ensures
        rendered(result).len() == 0,
{
}

/// A search that found nothing shows the placeholder, and only that.
pub proof fn empty_search_shows_placeholder(result: SearchReposResultView)
    requires
        result.ok,
        result.repositories.len() == 0,
    ensures
        rendered(result) == seq!["<no matches>"@],
{
}

/// A search that found something shows the heading and then one row for
/// each repository, in the server's order; a repository without a
/// description has the placeholder in its description column.
pub proof fn found_search_shows_every_repository(result: SearchReposResultView)
    requires
        result.ok,
        result.repositories.len() > 0,
    ensures
        rendered(result).len() == result.repositories.len() + 1,
        rendered(result)[0] == table_heading(),
        forall|i: int|
            0 <= i < result.repositories.len() ==> #[trigger] rendered(result)[i + 1] == row(
                result.repositories[i],
            ),
        forall|i: int|
            0 <= i < result.repositories.len() && (
            #[trigger] result.repositories[i]).description.len() == 0 ==> rendered(result)[i + 1]
                == result.repositories[i].full_name + " | "@ + result.repositories[i].clone_url
                + " | "@ + "<no description>"@,
{
}

} // verus!
