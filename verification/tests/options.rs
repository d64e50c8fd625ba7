use gitea_cli::credentials::Credentials;
use gitea_cli::error::CliError;
use gitea_cli::options::{resolve_name, CreateRepoOptions, OptionFields};
use gitea_cli::trust_model::TrustModel;

fn text(value: &str) -> Option<String> {
    Some(value.to_string())
}

#[test]
fn build_applies_defaults() {
    let options = CreateRepoOptions::build("myproj", &OptionFields::new()).unwrap();
    assert_eq!(options.name(), "myproj");
    assert_eq!(options.default_branch(), "main");
    assert_eq!(options.trust_model(), TrustModel::Default);
    assert!(!options.auto_init());
    assert!(!options.private());
    assert!(!options.template());
    assert_eq!(options.description(), None);
    assert_eq!(options.gitignores(), None);
    assert_eq!(options.issue_labels(), None);
    assert_eq!(options.license(), None);
    assert_eq!(options.readme(), None);
}

#[test]
fn build_keeps_every_supplied_field() {
    let fields = OptionFields {
        default_branch: text("trunk"),
        trust_model: text("CollaboratorCommitter"),
        private: true,
        template: true,
        description: text("A tool"),
        gitignores: text("Rust"),
        issue_labels: text("Default"),
        license: text("MIT"),
        readme: text("Default"),
    };
    let options = CreateRepoOptions::build("gitea-cli", &fields).unwrap();
    assert_eq!(options.name(), "gitea-cli");
    assert_eq!(options.default_branch(), "trunk");
    assert_eq!(options.trust_model(), TrustModel::CollaboratorCommitter);
    assert!(!options.auto_init());
    assert!(options.private());
    assert!(options.template());
    assert_eq!(options.description(), text("A tool"));
    assert_eq!(options.gitignores(), text("Rust"));
    assert_eq!(options.issue_labels(), text("Default"));
    assert_eq!(options.license(), text("MIT"));
    assert_eq!(options.readme(), text("Default"));
    let copy = options.copy();
    assert_eq!(copy.name(), "gitea-cli");
    assert_eq!(copy.description(), text("A tool"));
    assert_eq!(copy.trust_model(), TrustModel::CollaboratorCommitter);
}

#[test]
fn build_keeps_an_empty_description() {
    let mut fields = OptionFields::new();
    fields.description = text("");
    let options = CreateRepoOptions::build("myproj", &fields).unwrap();
    assert_eq!(options.description(), text(""));
}

#[test]
fn build_refuses_unknown_trust_model() {
    let mut fields = OptionFields::new();
    fields.trust_model = text("committer");
    match CreateRepoOptions::build("myproj", &fields) {
        Err(CliError::Validation(reason)) => {
            assert_eq!(reason, "Unknown trust model 'committer'")
        }
        other => panic!("built {:?}", other),
    }
}

#[test]
fn build_refuses_empty_default_branch() {
    let mut fields = OptionFields::new();
    fields.default_branch = text("");
    match CreateRepoOptions::build("myproj", &fields) {
        Err(CliError::Validation(reason)) => assert_eq!(reason, "Missing default branch"),
        other => panic!("built {:?}", other),
    }
}

#[test]
fn build_refuses_empty_name() {
    match CreateRepoOptions::build("", &OptionFields::new()) {
        Err(CliError::Validation(reason)) => assert_eq!(reason, "Missing repository name"),
        other => panic!("built {:?}", other),
    }
}

#[test]
fn build_checks_name_then_branch_then_trust_model() {
    let mut fields = OptionFields::new();
    fields.default_branch = text("");
    fields.trust_model = text("nobody");
    match CreateRepoOptions::build("", &fields) {
        Err(CliError::Validation(reason)) => assert_eq!(reason, "Missing repository name"),
        other => panic!("built {:?}", other),
    }
    match CreateRepoOptions::build("x", &fields) {
        Err(CliError::Validation(reason)) => assert_eq!(reason, "Missing default branch"),
        other => panic!("built {:?}", other),
    }
    fields.default_branch = None;
    match CreateRepoOptions::build("x", &fields) {
        Err(CliError::Validation(reason)) => assert_eq!(reason, "Unknown trust model 'nobody'"),
        other => panic!("built {:?}", other),
    }
}

#[test]
fn resolve_name_prefers_the_explicit_name() {
    assert_eq!(resolve_name(&text("chosen"), "/work/myproj").unwrap(), "chosen");
    assert_eq!(resolve_name(&text("chosen"), "/").unwrap(), "chosen");
    assert_eq!(resolve_name(&None, "/work/myproj").unwrap(), "myproj");
    assert!(matches!(resolve_name(&None, "/"), Err(CliError::InvalidPath(_))));
}

#[test]
fn credentials_keep_their_url() {
    let credentials = Credentials::with_url("http://example.test");
    assert_eq!(credentials.url(), "http://example.test");
    assert_eq!(credentials.username(), None);
    assert_eq!(credentials.password(), None);
    assert!(!credentials.is_complete());
    let filled = credentials.fill(text("user"), text("secret"));
    assert_eq!(filled.url(), "http://example.test");
    assert_eq!(filled.username(), text("user"));
    assert_eq!(filled.password(), text("secret"));
    assert!(filled.is_complete());
}

#[test]
fn credentials_fill_each_piece_independently() {
    let known = Credentials::with_url("u").fill(text("user"), None);
    assert_eq!(known.username(), text("user"));
    assert_eq!(known.password(), None);
    assert!(!known.is_complete());
    let filled = known.fill(text("other"), text("secret"));
    assert_eq!(filled.username(), text("user"));
    assert_eq!(filled.password(), text("secret"));
    assert!(filled.is_complete());
    let only_password = Credentials::with_url("u").fill(None, text("secret"));
    assert_eq!(only_password.username(), None);
    assert_eq!(only_password.password(), text("secret"));
    assert!(!only_password.is_complete());
    let unchanged = filled.fill(text("x"), text("y"));
    assert_eq!(unchanged.username(), text("user"));
    assert_eq!(unchanged.password(), text("secret"));
    let copy = unchanged.copy();
    assert_eq!(copy.url(), "u");
    assert_eq!(copy.username(), text("user"));
    assert_eq!(copy.password(), text("secret"));
}

#[test]
fn credentials_with_all_pieces() {
    let credentials = Credentials::with_url_username_password("http://marconi/gitea", "psobolik", "*****");
    assert_eq!(credentials.url(), "http://marconi/gitea");
    assert_eq!(credentials.username(), text("psobolik"));
    assert_eq!(credentials.password(), text("*****"));
    assert!(credentials.is_complete());
}

#[test]
fn credentials_resolve_needs_both_pieces_for_authentication() {
    let resolved = Credentials::resolve("http://example.test", text("me"), text("secret"), true).unwrap();
    assert_eq!(resolved.url(), "http://example.test");
    assert_eq!(resolved.username(), text("me"));
    assert_eq!(resolved.password(), text("secret"));
    for (username, password) in [(None, None), (text("me"), None), (None, text("secret"))] {
        match Credentials::resolve("http://example.test", username, password, true) {
            Err(CliError::Credential(reason)) => {
                assert_eq!(reason, "No user name and password for 'http://example.test'")
            }
            other => panic!("resolved {:?}", other),
        }
    }
}

#[test]
fn credentials_resolve_may_lack_pieces_without_authentication() {
    let resolved = Credentials::resolve("http://example.test", None, None, false).unwrap();
    assert_eq!(resolved.url(), "http://example.test");
    assert_eq!(resolved.username(), None);
    assert_eq!(resolved.password(), None);
    let resolved = Credentials::resolve("http://example.test", text("me"), None, false).unwrap();
    assert_eq!(resolved.username(), text("me"));
    assert_eq!(resolved.password(), None);
}
