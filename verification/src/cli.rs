//! The shape of the command line: which commands there are, and how the
//! address of the Gitea server is asked for.

use vstd::prelude::*;
use vstd::string::*;
use crate::browse::BrowseArgs;
use crate::create::CreateArgs;
use crate::search::SearchArgs;
use crate::text::{copy_optional, text_eq};

verus! {

/// The name of the command under which all the others stand.
pub open spec fn group_name() -> Seq<char> {
    "repo"@
}

/// One of the commands.
#[derive(Clone, Copy, Debug, PartialEq, Eq, Structural)]
pub enum CommandKind {
    Search,
    Browse,
    Create,
}

impl CommandKind {
    /// The name of the command on the command line.
    pub open spec fn spec_name(self) -> Seq<char> {
        match self {
            CommandKind::Search => "search"@,
            CommandKind::Browse => "browse"@,
            CommandKind::Create => "create"@,
        }
    }

    /// The command that the two names select: the first has to be the group,
    /// the second the name of a command.
    pub open spec fn spec_named(group: Seq<char>, name: Seq<char>) -> Option<CommandKind> {
        if group != group_name() {
            None
        } else if name == CommandKind::Search.spec_name() {
            Some(CommandKind::Search)
        } else if name == CommandKind::Browse.spec_name() {
            Some(CommandKind::Browse)
        } else if name == CommandKind::Create.spec_name() {
            Some(CommandKind::Create)
        } else {
            None
        }
    }

    /// The name of the command on the command line.
    pub fn name(&self) -> (text: String)
        ensures
            text@ == self.spec_name(),
    {
        match self {
            CommandKind::Search => String::from_str("search"),
            CommandKind::Browse => String::from_str("browse"),
            CommandKind::Create => String::from_str("create"),
        }
    }

    /// The command that the two names select, if any.
    pub fn named(group: &str, name: &str) -> (kind: Option<CommandKind>)
        ensures
            kind == CommandKind::spec_named(group@, name@),
    {
        if !text_eq(group, "repo") {
            None
        } else if text_eq(name, "search") {
            Some(CommandKind::Search)
        } else if text_eq(name, "browse") {
            Some(CommandKind::Browse)
        } else if text_eq(name, "create") {
            Some(CommandKind::Create)
        } else {
            None
        }
    }
}

/// A command with what the command line gave to it.
#[derive(Debug)]
pub enum Command {
    Search(SearchArgs),
    Browse(BrowseArgs),
    Create(CreateArgs),
}

impl Command {
    /// Which command this is.
    pub fn kind(&self) -> (kind: CommandKind)
        ensures
            kind == match self {
                Command::Search(_) => CommandKind::Search,
                Command::Browse(_) => CommandKind::Browse,
                Command::Create(_) => CommandKind::Create,
            },
    {
        match self {
            Command::Search(_) => CommandKind::Search,
            Command::Browse(_) => CommandKind::Browse,
            Command::Create(_) => CommandKind::Create,
        }
    }
}

/// What the program is configured with when it starts: the address of the
/// Gitea server that is used where the command line names none.
#[derive(Debug)]
pub struct Config {
    gitea_url: Option<String>,
}

/// The address that a configured value stands for: an empty value is no address.
pub open spec fn configured_url(value: Option<Seq<char>>) -> Option<Seq<char>> {
    match value {
        Some(url) if url.len() > 0 => Some(url),
        _ => None,
    }
}

/// The address that a command works with: the one named on the command
/// line, else the configured one.
pub open spec fn effective_url(given: Option<Seq<char>>, configured: Option<Seq<char>>) -> Option<
    Seq<char>,
> {
    match given {
        Some(url) => Some(url),
        None => configured,
    }
}

impl Config {
    /// The address of the server that is used where the command line names none.
    pub closed spec fn spec_default_url(&self) -> Option<Seq<char>> {
        self.gitea_url.deep_view()
    }

    #[verifier::type_invariant]
    spec fn url_is_not_empty(self) -> bool {
        self.gitea_url matches Some(url) ==> url@.len() > 0
    }

    /// The configuration for this value of the environment's setting. A
    /// setting that is absent or empty configures no address.
    pub fn new(gitea_url: Option<String>) -> (config: Config)
        ensures
            config.spec_default_url() == configured_url(gitea_url.deep_view()),
    {
        match gitea_url {
            Some(url) => if url.as_str().is_empty() {
                Config { gitea_url: None }
            } else {
                Config { gitea_url: Some(url) }
            },
            None => Config { gitea_url: None },
        }
    }

    /// The address of the server that is used where the command line names
    /// none. It is never empty.
    pub fn default_url(&self) -> (url: Option<String>)
        ensures
            url.deep_view() == self.spec_default_url(),
            url matches Some(text) ==> text@.len() > 0,
    {
        proof {
            use_type_invariant(self);
        }
        copy_optional(&self.gitea_url)
    }

    /// The address that a command works with: `given` where the command
    /// line named one, else the configured address.
    pub fn url_for(&self, given: Option<String>) -> (url: Option<String>)
        ensures
            url.deep_view() == effective_url(given.deep_view(), self.spec_default_url()),
    {
        match given {
            Some(url) => Some(url),
            None => copy_optional(&self.gitea_url),
        }
    }

    /// Whether the command line has to name the server: exactly where no
    /// address is configured.
    pub fn url_required(&self) -> (required: bool)
        ensures
            required == (self.spec_default_url() is None),
    {
        self.gitea_url.is_none()
    }
}

/// Each command is selected by its own name under the group, and by no
/// other pair of names.
pub proof fn command_named_exact(group: Seq<char>, name: Seq<char>, kind: CommandKind)
    ensures
        CommandKind::spec_named(group, name) == Some(kind) <==> group == group_name() && name
            == kind.spec_name(),
{
    reveal_strlit("search");
    reveal_strlit("browse");
    reveal_strlit("create");
    assert("search"@[0] == 's');
    assert("browse"@[0] == 'b');
    assert("create"@[0] == 'c');
}

} // verus!
