//! The request to create a repository, built from what the command line gave.

use vstd::prelude::*;
use vstd::string::*;
use crate::context::{suggested_name, suggested_remote_repo_name};
use crate::error::{CliError, CliErrorView};
use crate::text::copy_optional;
use crate::trust_model::TrustModel;

verus! {

/// The branch that a new repository gets where none is named.
pub open spec fn default_branch_name() -> Seq<char> {
    "main"@
}

/// What the user is told when the repository would have no name.
pub open spec fn missing_name_message() -> Seq<char> {
    "Missing repository name"@
}

/// What the user is told when the default branch is given as empty.
pub open spec fn missing_branch_message() -> Seq<char> {
    "Missing default branch"@
}

/// The branch that a new repository gets where none is named.
pub fn default_branch() -> (name: String)
    ensures
        name@ == default_branch_name(),
{
    String::from_str("main")
}

/// The fields of a new repository as the command line supplies them. An
/// absent field was not given.
#[derive(Debug)]
pub struct OptionFields {
    pub default_branch: Option<String>,
    pub trust_model: Option<String>,
    pub private: bool,
    pub template: bool,
    pub description: Option<String>,
    pub gitignores: Option<String>,
    pub issue_labels: Option<String>,
    pub license: Option<String>,
    pub readme: Option<String>,
}

/// The mathematical value of [`OptionFields`].
pub struct OptionFieldsView {
    pub default_branch: Option<Seq<char>>,
    pub trust_model: Option<Seq<char>>,
    pub private: bool,
    pub template: bool,
    pub description: Option<Seq<char>>,
    pub gitignores: Option<Seq<char>>,
    pub issue_labels: Option<Seq<char>>,
    pub license: Option<Seq<char>>,
    pub readme: Option<Seq<char>>,
}

impl View for OptionFields {
    type V = OptionFieldsView;

    open spec fn view(&self) -> OptionFieldsView {
        OptionFieldsView {
            default_branch: self.default_branch.deep_view(),
            trust_model: self.trust_model.deep_view(),
            private: self.private,
            template: self.template,
            description: self.description.deep_view(),
            gitignores: self.gitignores.deep_view(),
            issue_labels: self.issue_labels.deep_view(),
            license: self.license.deep_view(),
            readme: self.readme.deep_view(),
        }
    }
}

impl OptionFieldsView {
    /// The default branch asked for: the one given, else `main`.
    pub open spec fn branch(self) -> Seq<char> {
        match self.default_branch {
            Some(branch) => branch,
            None => default_branch_name(),
        }
    }

    /// The trust model asked for: the one named, else `Default`; none where
    /// a name was given that names no trust model.
    pub open spec fn model(self) -> Option<TrustModel> {
        match self.trust_model {
            Some(text) => TrustModel::spec_parse(text),
            None => Some(TrustModel::Default),
        }
    }

    /// Whether a request can be built from these fields under `name`.
    pub open spec fn is_valid(self, name: Seq<char>) -> bool {
        name.len() > 0 && self.branch().len() > 0 && self.model() is Some
    }
}

impl OptionFields {
    /// Fields of which none was given.
    pub fn new() -> (fields: OptionFields)
        ensures
            fields@ == (OptionFieldsView {
                default_branch: None,
                trust_model: None,
                private: false,
                template: false,
                description: None,
                gitignores: None,
                issue_labels: None,
                license: None,
                readme: None,
            }),
    {
        OptionFields {
            default_branch: None,
            trust_model: None,
            private: false,
            template: false,
            description: None,
            gitignores: None,
            issue_labels: None,
            license: None,
            readme: None,
        }
    }
}

/// The request sent to the Gitea server to create a repository. The name
/// and the default branch are never empty, and the server is never asked to
/// fill the repository: a local working copy exists already.
#[derive(Debug)]
pub struct CreateRepoOptions {
    name: String,
    default_branch: String,
    trust_model: TrustModel,
    auto_init: bool,
    private: bool,
    template: bool,
    description: Option<String>,
    gitignores: Option<String>,
    issue_labels: Option<String>,
    license: Option<String>,
    readme: Option<String>,
}

/// The mathematical value of [`CreateRepoOptions`].
pub struct CreateRepoOptionsView {
    pub name: Seq<char>,
    pub default_branch: Seq<char>,
    pub trust_model: TrustModel,
    pub auto_init: bool,
    pub private: bool,
    pub template: bool,
    pub description: Option<Seq<char>>,
    pub gitignores: Option<Seq<char>>,
    pub issue_labels: Option<Seq<char>>,
    pub license: Option<Seq<char>>,
    pub readme: Option<Seq<char>>,
}

impl CreateRepoOptionsView {
    /// What holds of every request.
    pub open spec fn well_formed(self) -> bool {
        self.name.len() > 0 && self.default_branch.len() > 0 && !self.auto_init
    }
}

/// The name under which the repository is created: the one given on the
/// command line, else the one that the top-level directory suggests.
pub open spec fn resolved_name(explicit: Option<Seq<char>>, top_level: Seq<char>) -> Result<
    Seq<char>,
    CliErrorView,
> {
    match explicit {
        Some(name) => Ok(name),
        None => match suggested_name(top_level) {
            Some(name) => Ok(name),
            None => Err(CliErrorView::InvalidPath(top_level)),
        },
    }
}

/// The request built from `fields` for a repository called `name`, or why
/// none can be built. The name is checked first, then the default branch,
/// then the trust model.
pub open spec fn build_options(name: Seq<char>, fields: OptionFieldsView) -> Result<
    CreateRepoOptionsView,
    CliErrorView,
> {
    if name.len() == 0 {
        Err(CliErrorView::Validation(missing_name_message()))
    } else if fields.branch().len() == 0 {
        Err(CliErrorView::Validation(missing_branch_message()))
    } else {
        match fields.model() {
            None => Err(
                CliErrorView::Validation(TrustModel::unknown_message(fields.trust_model->0)),
            ),
            Some(model) => Ok(
                CreateRepoOptionsView {
                    name,
                    default_branch: fields.branch(),
                    trust_model: model,
                    auto_init: false,
                    private: fields.private,
                    template: fields.template,
                    description: fields.description,
                    gitignores: fields.gitignores,
                    issue_labels: fields.issue_labels,
                    license: fields.license,
                    readme: fields.readme,
                },
            ),
        }
    }
}

impl View for CreateRepoOptions {
    type V = CreateRepoOptionsView;

    closed spec fn view(&self) -> CreateRepoOptionsView {
        CreateRepoOptionsView {
            name: self.name@,
            default_branch: self.default_branch@,
            trust_model: self.trust_model,
            auto_init: self.auto_init,
            private: self.private,
            template: self.template,
            description: self.description.deep_view(),
            gitignores: self.gitignores.deep_view(),
            issue_labels: self.issue_labels.deep_view(),
            license: self.license.deep_view(),
            readme: self.readme.deep_view(),
        }
    }
}

impl CreateRepoOptions {
    #[verifier::type_invariant]
    spec fn is_sound(self) -> bool {
        self.name@.len() > 0 && self.default_branch@.len() > 0 && !self.auto_init
    }

    /// Builds the request for a repository called `resolved_name`.
    ///
    /// The default branch is `main` where none is given, the trust model
    /// `Default` where none is named; every other field passes through.
    /// Fails with a validation error where the name or the default branch is
    /// empty, or where a trust model is named that does not exist.
    pub fn build(resolved_name: &str, fields: &OptionFields) -> (built: Result<
        CreateRepoOptions,
        CliError,
    >)
        ensures
            built is Ok <==> fields@.is_valid(resolved_name@),
            match built {
                Ok(options) => build_options(resolved_name@, fields@) == Ok::<
                    CreateRepoOptionsView,
                    CliErrorView,
                >(options@) && options@.well_formed(),
                Err(error) => build_options(resolved_name@, fields@) == Err::<
                    CreateRepoOptionsView,
                    CliErrorView,
                >(error@),
            },
    {
        if resolved_name.is_empty() {
            return Err(CliError::Validation(String::from_str("Missing repository name")));
        }
        let default_branch = match &fields.default_branch {
            Some(branch) => branch.clone(),
            None => self::default_branch(),
        };
        if default_branch.as_str().is_empty() {
            return Err(CliError::Validation(String::from_str("Missing default branch")));
        }
        let trust_model = match &fields.trust_model {
            Some(text) => match TrustModel::parse(text.as_str()) {
                Ok(model) => model,
                Err(error) => {
                    return Err(error);
                },
            },
            None => TrustModel::Default,
        };
        Ok(
            CreateRepoOptions {
                name: String::from_str(resolved_name),
                default_branch,
                trust_model,
                auto_init: false,
                private: fields.private,
                template: fields.template,
                description: copy_optional(&fields.description),
                gitignores: copy_optional(&fields.gitignores),
                issue_labels: copy_optional(&fields.issue_labels),
                license: copy_optional(&fields.license),
                readme: copy_optional(&fields.readme),
            },
        )
    }

    /// The name of the repository.
    pub fn name(&self) -> (name: &str)
        ensures
            name@ == self@.name,
            name@.len() > 0,
    {
        proof {
            use_type_invariant(self);
        }
        self.name.as_str()
    }

    /// The branch that the repository starts with.
    pub fn default_branch(&self) -> (branch: &str)
        ensures
            branch@ == self@.default_branch,
            branch@.len() > 0,
    {
        proof {
            use_type_invariant(self);
        }
        self.default_branch.as_str()
    }

    /// The trust model of the repository.
    pub fn trust_model(&self) -> (model: TrustModel)
        ensures
            model == self@.trust_model,
    {
        self.trust_model
    }

    /// Whether the server is asked to fill the repository: never.
    pub fn auto_init(&self) -> (auto_init: bool)
        ensures
            auto_init == self@.auto_init,
            !auto_init,
    {
        proof {
            use_type_invariant(self);
        }
        self.auto_init
    }

    /// Whether the repository is private.
    pub fn private(&self) -> (private: bool)
        ensures
            private == self@.private,
    {
        self.private
    }

    /// Whether the repository is a template.
    pub fn template(&self) -> (template: bool)
        ensures
            template == self@.template,
    {
        self.template
    }

    /// The description, if one was given.
    pub fn description(&self) -> (description: Option<String>)
        ensures
            description.deep_view() == self@.description,
    {
        copy_optional(&self.description)
    }

    /// The templates for the ignore file, if given.
    pub fn gitignores(&self) -> (gitignores: Option<String>)
        ensures
            gitignores.deep_view() == self@.gitignores,
    {
        copy_optional(&self.gitignores)
    }

    /// The set of issue labels, if given.
    pub fn issue_labels(&self) -> (issue_labels: Option<String>)
        ensures
            issue_labels.deep_view() == self@.issue_labels,
    {
        copy_optional(&self.issue_labels)
    }

    /// The license, if given.
    pub fn license(&self) -> (license: Option<String>)
        ensures
            license.deep_view() == self@.license,
    {
        copy_optional(&self.license)
    }

    /// The template for the readme, if given.
    pub fn readme(&self) -> (readme: Option<String>)
        ensures
            readme.deep_view() == self@.readme,
    {
        copy_optional(&self.readme)
    }

    /// The same request, copied.
    pub fn copy(&self) -> (same: CreateRepoOptions)
        ensures
            same@ == self@,
            same@.well_formed(),
    {
        proof {
            use_type_invariant(self);
        }
        CreateRepoOptions {
            name: self.name.clone(),
            default_branch: self.default_branch.clone(),
            trust_model: self.trust_model,
            auto_init: self.auto_init,
            private: self.private,
            template: self.template,
            description: copy_optional(&self.description),
            gitignores: copy_optional(&self.gitignores),
            issue_labels: copy_optional(&self.issue_labels),
            license: copy_optional(&self.license),
            readme: copy_optional(&self.readme),
        }
    }
}

/// The name under which the repository is created: `explicit` where the
/// command line gave one, else the name that `top_level` suggests. The
/// top-level directory is looked at only where no name was given.
pub fn resolve_name(explicit: &Option<String>, top_level: &str) -> (name: Result<String, CliError>)
    ensures
        match name {
            Ok(text) => resolved_name(explicit.deep_view(), top_level@) == Ok::<
                Seq<char>,
                CliErrorView,
            >(text@),
            Err(error) => resolved_name(explicit.deep_view(), top_level@) == Err::<
                Seq<char>,
                CliErrorView,
            >(error@),
        },
{
    match explicit {
        Some(name) => Ok(name.clone()),
        None => suggested_remote_repo_name(top_level),
    }
}

/// Building loses nothing: from valid fields a request is built, and each of
/// its fields is the one supplied, or the stated default where none was.
pub proof fn build_keeps_every_field(name: Seq<char>, fields: OptionFieldsView)
    requires
        fields.is_valid(name),
    ensures
        build_options(name, fields) is Ok,
        ({
            let options = build_options(name, fields)->Ok_0;
            &&& options.well_formed()
            &&& options.name == name
            &&& options.default_branch == match fields.default_branch {
                Some(branch) => branch,
                None => "main"@,
            }
            &&& options.trust_model == match fields.trust_model {
                Some(text) => TrustModel::spec_parse(text)->0,
                None => TrustModel::Default,
            }
            &&& !options.auto_init
            &&& options.private == fields.private
            &&& options.template == fields.template
            &&& options.description == fields.description
            &&& options.gitignores == fields.gitignores
            &&& options.issue_labels == fields.issue_labels
            &&& options.license == fields.license
            &&& options.readme == fields.readme
        }),
{
}

/// Building refuses exactly the invalid: no request is built from an empty
/// name, an empty default branch or a trust model that does not exist, and
/// the failure is a validation error.
pub proof fn build_refuses_invalid_fields(name: Seq<char>, fields: OptionFieldsView)
    requires
        !fields.is_valid(name),
    ensures
        build_options(name, fields) is Err,
        build_options(name, fields)->Err_0 is Validation,
{
}

} // verus!
