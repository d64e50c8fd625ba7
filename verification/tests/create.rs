use gitea_cli::create::{start, step, CreateAction, CreateArgs, CreateEvent, CreateState, CreateStep, Stage};
use gitea_cli::error::CliError;
use gitea_cli::options::OptionFields;
use gitea_cli::report::Message;
use gitea_cli::repository::Repository;
use gitea_cli::trust_model::TrustModel;

fn text(value: &str) -> Option<String> {
    Some(value.to_string())
}

fn args(url: Option<&str>, path: Option<&str>) -> CreateArgs {
    CreateArgs {
        url: url.map(|u| u.to_string()),
        path: path.map(|p| p.to_string()),
        remote: None,
        gitea_name: None,
        fields: OptionFields::new(),
    }
}

fn lines(step: &CreateStep) -> Vec<String> {
    step.messages.iter().map(|m| m.text().to_string()).collect()
}

fn repository() -> Repository {
    Repository::new("http://example.test/me/myproj.git", "main", "me/myproj", "")
}

fn obtained(username: Option<&str>, password: Option<&str>) -> CreateEvent {
    CreateEvent::CredentialsObtained {
        username: username.map(|u| u.to_string()),
        password: password.map(|p| p.to_string()),
    }
}

fn until_build(args: CreateArgs, top_level: &str) -> CreateStep {
    let first = start(args);
    assert!(matches!(first.action, CreateAction::ResolveTopLevel { .. }));
    let second = step(first.state, CreateEvent::TopLevelFound(top_level.to_string()));
    assert!(matches!(second.action, CreateAction::FillCredentials { .. }));
    let third = step(second.state, obtained(Some("me"), Some("secret")));
    assert!(matches!(third.action, CreateAction::BuildOptions));
    assert!(matches!(third.state, CreateState::BuildingOptions { .. }));
    assert!(third.messages.is_empty());
    step(third.state, CreateEvent::Proceed)
}

fn until_created(args: CreateArgs, top_level: &str) -> CreateStep {
    let built = until_build(args, top_level);
    assert!(matches!(built.action, CreateAction::CreateRepository { .. }));
    step(built.state, CreateEvent::RepositoryCreated(repository()))
}

fn assert_failed(step: &CreateStep, at: Stage, line: &str) {
    assert!(matches!(step.action, CreateAction::Stop));
    match &step.state {
        CreateState::Failed { stage, error, .. } => {
            assert_eq!(*stage, at);
            assert_eq!(error.message(), line);
        }
        other => panic!("not failed: {:?}", other),
    }
    assert_eq!(step.messages.len(), 1);
    assert!(step.messages[0].is_error());
    assert_eq!(step.messages[0].text(), line);
    assert!(step.state.is_terminal());
    assert!(!step.state.is_done());
}

#[test]
fn create_builds_defaults_from_top_level() {
    let mut given = args(Some("http://example.test"), Some("/work/myproj"));
    given.remote = None;
    let first = start(given);
    match &first.action {
        CreateAction::ResolveTopLevel { path } => assert_eq!(*path, text("/work/myproj")),
        other => panic!("{:?}", other),
    }
    assert!(first.messages.is_empty());
    let second = step(first.state, CreateEvent::TopLevelFound("/work/myproj".to_string()));
    match &second.action {
        CreateAction::FillCredentials { url } => assert_eq!(url, "http://example.test"),
        other => panic!("{:?}", other),
    }
    let third = step(second.state, obtained(Some("me"), Some("secret")));
    let built = step(third.state, CreateEvent::Proceed);
    match &built.action {
        CreateAction::CreateRepository { url, credentials, options } => {
            assert_eq!(url, "http://example.test");
            assert_eq!(credentials.url(), "http://example.test");
            assert_eq!(credentials.username(), text("me"));
            assert_eq!(credentials.password(), text("secret"));
            assert_eq!(options.name(), "myproj");
            assert_eq!(options.default_branch(), "main");
            assert_eq!(options.trust_model(), TrustModel::Default);
            assert!(!options.auto_init());
        }
        other => panic!("{:?}", other),
    }
    match &built.state {
        CreateState::Creating { remote, path } => {
            assert_eq!(remote, "origin");
            assert_eq!(*path, text("/work/myproj"));
        }
        other => panic!("{:?}", other),
    }
    assert!(built.messages.is_empty());
}

#[test]
fn create_repo() {
    const GITEA_URL: &str = "http://marconi/gitea";
    const USERNAME: &str = "psobolik";
    const PASSWORD: &str = "*****";

    let mut given = args(Some(GITEA_URL), None);
    given.gitea_name = text("gitea-cli");
    given.fields.default_branch = text("main");
    given.fields.trust_model = text("Default");
    let first = start(given);
    let second = step(first.state, CreateEvent::TopLevelFound("/work/gitea-cli".to_string()));
    let third = step(second.state, obtained(Some(USERNAME), Some(PASSWORD)));
    let built = step(third.state, CreateEvent::Proceed);
    match built.action {
        CreateAction::CreateRepository { url, credentials, options } => {
            println!("{:?}", options);
            assert_eq!(url, GITEA_URL);
            assert_eq!(credentials.url(), GITEA_URL);
            assert_eq!(credentials.username(), text(USERNAME));
            assert_eq!(credentials.password(), text(PASSWORD));
            assert_eq!(options.name(), "gitea-cli");
            assert_eq!(options.default_branch(), "main");
            assert_eq!(options.trust_model(), TrustModel::Default);
            assert!(!options.auto_init());
            assert!(!options.private());
            assert!(!options.template());
            assert_eq!(options.description(), None);
            assert_eq!(options.gitignores(), None);
            assert_eq!(options.issue_labels(), None);
            assert_eq!(options.license(), None);
            assert_eq!(options.readme(), None);
        }
        other => panic!("{:?}", other),
    }
}

#[test]
fn create_reports_full_success() {
    let mut given = args(Some("http://example.test"), Some("/work/myproj"));
    given.remote = text("upstream");
    let created = until_created(given, "/work/myproj");
    assert_eq!(lines(&created), vec!["Created remote repository: http://example.test/me/myproj.git"]);
    assert!(matches!(created.messages[0], Message::Info(_)));
    match &created.action {
        CreateAction::AddRemote { remote, clone_url, path } => {
            assert_eq!(remote, "upstream");
            assert_eq!(clone_url, "http://example.test/me/myproj.git");
            assert_eq!(*path, text("/work/myproj"));
        }
        other => panic!("{:?}", other),
    }
    assert!(!created.state.is_terminal());
    let done = step(created.state, CreateEvent::RemoteAdded);
    assert!(matches!(done.action, CreateAction::Stop));
    assert!(done.state.is_done());
    assert!(done.state.is_terminal());
    assert_eq!(
        lines(&done),
        vec!["Tracking remote repository locally as: upstream", "Push: git push -u upstream main"]
    );
    assert!(done.messages.iter().all(|m| matches!(m, Message::Info(_))));
    assert_eq!(done.state.created_clone_url(), text("http://example.test/me/myproj.git"));
}

#[test]
fn create_push_line_uses_branch_of_server() {
    let created = until_build(args(Some("http://example.test"), None), "/work/myproj");
    let repo = Repository::new("git@example.test:me/myproj.git", "trunk", "me/myproj", "d");
    let adding = step(created.state, CreateEvent::RepositoryCreated(repo));
    let done = step(adding.state, CreateEvent::RemoteAdded);
    assert_eq!(
        lines(&done),
        vec!["Tracking remote repository locally as: origin", "Push: git push -u origin trunk"]
    );
}

#[test]
fn create_keeps_repository_when_remote_add_fails() {
    let created = until_created(args(Some("http://example.test"), Some("/work/myproj")), "/work/myproj");
    assert_eq!(lines(&created), vec!["Created remote repository: http://example.test/me/myproj.git"]);
    assert!(!created.messages[0].is_error());
    let failed = step(
        created.state,
        CreateEvent::RemoteAddFailed("error: remote origin already exists.".to_string()),
    );
    assert_failed(&failed, Stage::RemoteAdd, "error: remote origin already exists.");
    assert!(matches!(&failed.state, CreateState::Failed { error: CliError::RemoteAdd(_), .. }));
    assert_eq!(failed.state.created_clone_url(), text("http://example.test/me/myproj.git"));
    match &failed.state {
        CreateState::Failed { created: Some(repository), .. } => {
            assert_eq!(repository.clone_url, "http://example.test/me/myproj.git");
            assert_eq!(repository.full_name, "me/myproj");
        }
        other => panic!("{:?}", other),
    }
}

#[test]
fn create_fails_without_url() {
    let failed = start(args(None, Some("/work/myproj")));
    assert_failed(&failed, Stage::MissingUrl, "Missing Gitea URL");
    assert!(matches!(&failed.state, CreateState::Failed { error: CliError::MissingUrl, created: None, .. }));
    let empty = start(args(Some(""), None));
    assert_failed(&empty, Stage::MissingUrl, "Missing Gitea URL");
}

#[test]
fn create_fails_outside_working_copy() {
    let first = start(args(Some("http://example.test"), Some("/tmp")));
    let failed = step(
        first.state,
        CreateEvent::TopLevelFailed("fatal: not a git repository".to_string()),
    );
    assert_failed(&failed, Stage::LocalContext, "fatal: not a git repository");
    assert!(matches!(&failed.state, CreateState::Failed { error: CliError::NotARepository(_), .. }));
}

#[test]
fn create_fails_without_credentials() {
    let first = start(args(Some("http://example.test"), None));
    let second = step(first.state, CreateEvent::TopLevelFound("/work/myproj".to_string()));
    let failed = step(second.state, CreateEvent::CredentialsFailed("no helper".to_string()));
    assert_failed(&failed, Stage::Credentials, "no helper");
    assert!(matches!(&failed.state, CreateState::Failed { error: CliError::Credential(_), .. }));
}

#[test]
fn create_fails_with_incomplete_credentials() {
    for (username, password) in [(None, None), (Some("me"), None), (None, Some("secret"))] {
        let first = start(args(Some("http://example.test"), None));
        let second = step(first.state, CreateEvent::TopLevelFound("/work/myproj".to_string()));
        let failed = step(second.state, obtained(username, password));
        assert_failed(
            &failed,
            Stage::Credentials,
            "No user name and password for 'http://example.test'",
        );
        assert!(matches!(&failed.state, CreateState::Failed { error: CliError::Credential(_), .. }));
    }
}

#[test]
fn create_fails_on_invalid_options() {
    let mut given = args(Some("http://example.test"), None);
    given.fields.trust_model = text("Everyone");
    let failed = until_build(given, "/work/myproj");
    assert_failed(&failed, Stage::Options, "Unknown trust model 'Everyone'");
    assert!(matches!(&failed.state, CreateState::Failed { error: CliError::Validation(_), .. }));

    let mut given = args(Some("http://example.test"), None);
    given.fields.default_branch = text("");
    let failed = until_build(given, "/work/myproj");
    assert_failed(&failed, Stage::Options, "Missing default branch");

    let mut given = args(Some("http://example.test"), None);
    given.remote = text("");
    let failed = until_build(given, "/work/myproj");
    assert_failed(&failed, Stage::Options, "Missing remote name");

    let mut given = args(Some("http://example.test"), None);
    given.gitea_name = text("");
    let failed = until_build(given, "/work/myproj");
    assert_failed(&failed, Stage::Options, "Missing repository name");
}

#[test]
fn create_fails_when_top_level_has_no_name() {
    let failed = until_build(args(Some("http://example.test"), None), "/");
    assert_failed(&failed, Stage::Options, "No repository name can be taken from '/'");
    assert!(matches!(&failed.state, CreateState::Failed { error: CliError::InvalidPath(_), .. }));
    let mut given = args(Some("http://example.test"), None);
    given.gitea_name = text("named");
    let built = until_build(given, "/");
    match &built.action {
        CreateAction::CreateRepository { options, .. } => assert_eq!(options.name(), "named"),
        other => panic!("{:?}", other),
    }
}

#[test]
fn create_failure_at_server_leaves_working_copy_alone() {
    let built = until_build(args(Some("http://example.test"), None), "/work/myproj");
    let failed = step(
        built.state,
        CreateEvent::CreateFailed("The repository with the same name already exists.".to_string()),
    );
    assert_failed(&failed, Stage::RemoteCreate, "The repository with the same name already exists.");
    assert!(matches!(&failed.state, CreateState::Failed { error: CliError::Api(_), created: None, .. }));
    assert_eq!(failed.state.created_clone_url(), None);
}

#[test]
fn create_ended_workflow_stays_ended() {
    let failed = start(args(None, None));
    let again = step(failed.state, CreateEvent::TopLevelFound("/work/myproj".to_string()));
    assert!(matches!(again.action, CreateAction::Stop));
    assert!(again.messages.is_empty());
    assert!(matches!(&again.state, CreateState::Failed { stage: Stage::MissingUrl, .. }));

    let created = until_created(args(Some("http://example.test"), None), "/work/myproj");
    let done = step(created.state, CreateEvent::RemoteAdded);
    let again = step(done.state, CreateEvent::RemoteAddFailed("late".to_string()));
    assert!(matches!(again.action, CreateAction::Stop));
    assert!(again.messages.is_empty());
    assert!(again.state.is_done());
    assert_eq!(again.state.created_clone_url(), text("http://example.test/me/myproj.git"));
}

#[test]
fn create_refuses_event_that_was_not_awaited() {
    let first = start(args(Some("http://example.test"), None));
    let failed = step(first.state, CreateEvent::RepositoryCreated(repository()));
    assert_failed(&failed, Stage::LocalContext, "Unexpected event");
    assert_eq!(failed.state.created_clone_url(), None);

    let first = start(args(Some("http://example.test"), None));
    let second = step(first.state, CreateEvent::TopLevelFound("/work/myproj".to_string()));
    let failed = step(second.state, CreateEvent::Proceed);
    assert_failed(&failed, Stage::Credentials, "Unexpected event");

    let first = start(args(Some("http://example.test"), None));
    let second = step(first.state, CreateEvent::TopLevelFound("/work/myproj".to_string()));
    let third = step(second.state, obtained(Some("me"), Some("secret")));
    let failed = step(third.state, CreateEvent::RemoteAdded);
    assert_failed(&failed, Stage::Options, "Unexpected event");

    let built = until_build(args(Some("http://example.test"), None), "/work/myproj");
    let failed = step(built.state, CreateEvent::RemoteAdded);
    assert_failed(&failed, Stage::RemoteCreate, "Unexpected event");
    assert_eq!(failed.state.created_clone_url(), None);

    let created = until_created(args(Some("http://example.test"), None), "/work/myproj");
    let failed = step(created.state, CreateEvent::Proceed);
    assert_failed(&failed, Stage::RemoteAdd, "Unexpected event");
    assert_eq!(failed.state.created_clone_url(), text("http://example.test/me/myproj.git"));
}
