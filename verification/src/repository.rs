//! What the Gitea server answers: a repository, and the result of a search.

use vstd::prelude::*;
use vstd::string::*;

verus! {

/// A repository on the Gitea server, as the server describes it.
#[derive(Debug)]
pub struct Repository {
    pub clone_url: String,
    pub default_branch: String,
    pub full_name: String,
    pub description: String,
}

/// The mathematical value of a [`Repository`].
pub struct RepositoryView {
    pub clone_url: Seq<char>,
    pub default_branch: Seq<char>,
    pub full_name: Seq<char>,
    pub description: Seq<char>,
}

impl DeepView for Repository {
    type V = RepositoryView;

    open spec fn deep_view(&self) -> RepositoryView {
        RepositoryView {
            clone_url: self.clone_url@,
            default_branch: self.default_branch@,
            full_name: self.full_name@,
            description: self.description@,
        }
    }
}

impl View for Repository {
    type V = RepositoryView;

    open spec fn view(&self) -> RepositoryView {
        self.deep_view()
    }
}

impl Repository {
    /// A repository with these four properties.
    pub fn new(clone_url: &str, default_branch: &str, full_name: &str, description: &str) -> (repository:
        Repository)
        ensures
            repository@ == (RepositoryView {
                clone_url: clone_url@,
                default_branch: default_branch@,
                full_name: full_name@,
                description: description@,
            }),
    {
        Repository {
            clone_url: String::from_str(clone_url),
            default_branch: String::from_str(default_branch),
            full_name: String::from_str(full_name),
            description: String::from_str(description),
        }
    }

    /// The same repository, copied.
    pub fn copy(&self) -> (same: Repository)
        ensures
            same@ == self@,
    {
        Repository {
            clone_url: self.clone_url.clone(),
            default_branch: self.default_branch.clone(),
            full_name: self.full_name.clone(),
            description: self.description.clone(),
        }
    }
}

/// The result of a search. Where the server reported that the search
/// failed, `ok` is false and there are no repositories.
#[derive(Debug)]
pub struct SearchReposResult {
    ok: bool,
    repositories: Vec<Repository>,
}

/// The mathematical value of a [`SearchReposResult`].
pub struct SearchReposResultView {
    pub ok: bool,
    pub repositories: Seq<RepositoryView>,
}

impl SearchReposResultView {
    /// A search that the server failed holds no repository.
    pub open spec fn well_formed(self) -> bool {
        !self.ok ==> self.repositories.len() == 0
    }
}

impl View for SearchReposResult {
    type V = SearchReposResultView;

    closed spec fn view(&self) -> SearchReposResultView {
        SearchReposResultView { ok: self.ok, repositories: self.repositories.deep_view() }
    }
}

impl SearchReposResult {
    #[verifier::type_invariant]
    spec fn holds_no_orphans(self) -> bool {
        !self.ok ==> self.repositories@.len() == 0
    }

    /// The result of a search that the server carried out: what it found, in
    /// the server's order.
    pub fn found(repositories: Vec<Repository>) -> (result: SearchReposResult)
        ensures
            result@ == (SearchReposResultView {
                ok: true,
                repositories: repositories.deep_view(),
            }),
            result@.well_formed(),
    {
        SearchReposResult { ok: true, repositories }
    }

    /// The result of a search that the server reported as failed.
    pub fn failed() -> (result: SearchReposResult)
        ensures
            result@ == (SearchReposResultView {
                ok: false,
                repositories: Seq::<RepositoryView>::empty(),
            }),
            result@.well_formed(),
    {
        let repositories: Vec<Repository> = Vec::new();
        assert(repositories.deep_view() =~= Seq::<RepositoryView>::empty());
        SearchReposResult { ok: false, repositories }
    }

    /// Whether the server carried the search out.
    pub fn ok(&self) -> (ok: bool)
        ensures
            ok == self@.ok,
            self@.well_formed(),
    {
        proof {
            use_type_invariant(self);
        }
        self.ok
    }

    /// What the search found, in the server's order.
    pub fn repositories(&self) -> (repositories: &Vec<Repository>)
        ensures
            repositories.deep_view() == self@.repositories,
            self@.well_formed(),
    {
        proof {
            use_type_invariant(self);
        }
        &self.repositories
    }
}

} // verus!
