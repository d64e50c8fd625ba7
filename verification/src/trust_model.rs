//! The trust model of a repository and its names on the command line.

use vstd::prelude::*;
use vstd::string::*;
use crate::error::{CliError, CliErrorView};
use crate::text::{quoted, text_eq};

verus! {

/// Which contributors' commit signatures the Gitea server treats as verified.
#[derive(Clone, Copy, Debug, PartialEq, Eq, Structural)]
pub enum TrustModel {
    Default,
    Collaborator,
    Committer,
    CollaboratorCommitter,
}

impl TrustModel {
    /// The name under which the command line knows this trust model.
    pub open spec fn spec_name(self) -> Seq<char> {
        match self {
            TrustModel::Default => "Default"@,
            TrustModel::Collaborator => "Collaborator"@,
            TrustModel::Committer => "Committer"@,
            TrustModel::CollaboratorCommitter => "CollaboratorCommitter"@,
        }
    }

    /// The trust model that `text` names, letter for letter; none for any other text.
    pub open spec fn spec_parse(text: Seq<char>) -> Option<TrustModel> {
        if text == TrustModel::Default.spec_name() {
            Some(TrustModel::Default)
        } else if text == TrustModel::Collaborator.spec_name() {
            Some(TrustModel::Collaborator)
        } else if text == TrustModel::Committer.spec_name() {
            Some(TrustModel::Committer)
        } else if text == TrustModel::CollaboratorCommitter.spec_name() {
            Some(TrustModel::CollaboratorCommitter)
        } else {
            None
        }
    }

    /// What the user is told when `text` names no trust model.
    pub open spec fn unknown_message(text: Seq<char>) -> Seq<char> {
        "Unknown trust model "@ + quoted(text)
    }

    /// The name under which the command line knows this trust model.
    pub fn name(&self) -> (text: String)
        ensures
            text@ == self.spec_name(),
    {
        match self {
            TrustModel::Default => String::from_str("Default"),
            TrustModel::Collaborator => String::from_str("Collaborator"),
            TrustModel::Committer => String::from_str("Committer"),
            TrustModel::CollaboratorCommitter => String::from_str("CollaboratorCommitter"),
        }
    }

    /// Reads a trust model from its name. The match is exact and case-sensitive;
    /// any other text is a validation failure, never a silent default.
    pub fn parse(text: &str) -> (parsed: Result<TrustModel, CliError>)
        ensures
            match parsed {
                Ok(model) => TrustModel::spec_parse(text@) == Some(model),
                Err(error) => TrustModel::spec_parse(text@) is None && error@
                    == CliErrorView::Validation(TrustModel::unknown_message(text@)),
            },
    {
        if text_eq(text, "Default") {
            Ok(TrustModel::Default)
        } else if text_eq(text, "Collaborator") {
            Ok(TrustModel::Collaborator)
        } else if text_eq(text, "Committer") {
            Ok(TrustModel::Committer)
        } else if text_eq(text, "CollaboratorCommitter") {
            Ok(TrustModel::CollaboratorCommitter)
        } else {
            let reason = String::from_str("Unknown trust model ").concat("'").concat(text).concat(
                "'",
            );
            assert(reason@ == TrustModel::unknown_message(text@));
            Err(CliError::Validation(reason))
        }
    }
}

/// The four names are pairwise different: no text names two trust models.
pub proof fn trust_model_names_distinct(a: TrustModel, b: TrustModel)
    ensures
        a.spec_name() == b.spec_name() <==> a == b,
{
    reveal_strlit("Default");
    reveal_strlit("Collaborator");
    reveal_strlit("Committer");
    reveal_strlit("CollaboratorCommitter");
    assert("Default"@.len() == 7);
    assert("Collaborator"@.len() == 12);
    assert("Committer"@.len() == 9);
    assert("CollaboratorCommitter"@.len() == 21);
}

/// Parsing is the inverse of naming: the name of every trust model parses
/// back to that trust model.
pub proof fn trust_model_parse_of_name(model: TrustModel)
    ensures
        TrustModel::spec_parse(model.spec_name()) == Some(model),
{
    trust_model_names_distinct(model, TrustModel::Default);
    trust_model_names_distinct(model, TrustModel::Collaborator);
    trust_model_names_distinct(model, TrustModel::Committer);
    trust_model_names_distinct(model, TrustModel::CollaboratorCommitter);
}

/// A text parses to a trust model exactly when it is that trust model's name,
/// so every text that is none of the four names is refused.
pub proof fn trust_model_parse_exact(text: Seq<char>, model: TrustModel)
    ensures
        TrustModel::spec_parse(text) == Some(model) <==> text == model.spec_name(),
        TrustModel::spec_parse(text) is None <==> (forall|m: TrustModel|
            text != #[trigger] m.spec_name()),
{
    trust_model_parse_of_name(model);
    if TrustModel::spec_parse(text) is None {
        assert forall|m: TrustModel| text != #[trigger] m.spec_name() by {
            trust_model_parse_of_name(m);
        }
    }
}

} // verus!
