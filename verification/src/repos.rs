//! Repository listings: the raw shape a listing fetch hands in, the
//! normalized record the UI consumes, and the pinned-repository list.

use vstd::prelude::*;

verus! {

/// One repository of the signed-in user, normalized for the UI.
#[derive(Debug, PartialEq, Eq)]
pub struct RepoData {
    pub name: String,
    pub full_name: String,
    pub description: Option<String>,
    pub created_at: String,
    pub updated_at: String,
    pub language: Option<String>,
    pub stargazers_count: u32,
    pub fork: bool,
    pub visibility: String,
}

/// A raw repository as fetched: most attributes are optional on the
/// wire.
pub struct RawRepo {
    pub name: String,
    pub full_name: Option<String>,
    pub description: Option<String>,
    pub created_at: Option<String>,
    pub updated_at: Option<String>,
    pub language: Option<String>,
    pub stargazers_count: Option<u32>,
    pub fork: Option<bool>,
    pub visibility: Option<String>,
}

/// Normalizes one raw repository. The name, timestamps and star count
/// must be present — a listing without them is malformed and the
/// caller fails on it — while a missing fork flag reads as false and
/// a missing visibility as "private".
pub fn repo_data_from_raw(raw: RawRepo) -> (r: RepoData)
    requires
        raw.full_name is Some,
        raw.created_at is Some,
        raw.updated_at is Some,
        raw.stargazers_count is Some,
    ensures
        r.name == raw.name,
        r.full_name == raw.full_name->0,
        r.description == raw.description,
        r.created_at == raw.created_at->0,
        r.updated_at == raw.updated_at->0,
        r.language == raw.language,
        r.stargazers_count == raw.stargazers_count->0,
        raw.fork matches Some(f) ==> r.fork == f,
        raw.fork is None ==> r.fork == false,
        raw.visibility matches Some(v) ==> r.visibility == v,
        raw.visibility is None ==> r.visibility@ == "private"@,
{
    let full_name = match raw.full_name {
        Some(f) => f,
        None => String::new(),
    };
    let created_at = match raw.created_at {
        Some(c) => c,
        None => String::new(),
    };
    let updated_at = match raw.updated_at {
        Some(u) => u,
        None => String::new(),
    };
    let stargazers_count = match raw.stargazers_count {
        Some(s) => s,
        None => 0,
    };
    RepoData {
        name: raw.name,
        full_name,
        description: raw.description,
        created_at,
        updated_at,
        language: raw.language,
        stargazers_count,
        fork: match raw.fork {
            Some(f) => f,
            None => false,
        },
        visibility: match raw.visibility {
            Some(v) => v,
            None => "private".to_owned(),
        },
    }
}

/// The ordered list of pinned repository identifiers, consulted to
/// know which repositories to refresh.
#[derive(Debug, PartialEq, Eq)]
pub struct PinnedRepos {
    repos: Vec<String>,
}

impl View for PinnedRepos {
    type V = Seq<String>;

    closed spec fn view(&self) -> Seq<String> {
        self.repos@
    }
}

impl Default for PinnedRepos {
    fn default() -> (r: Self)
        ensures
            r@ == Seq::<String>::empty(),
    {
        PinnedRepos { repos: Vec::new() }
    }
}

impl PinnedRepos {
    /// Wraps a list of repository identifiers.
    pub fn new(repos: Vec<String>) -> (r: Self)
        ensures
            r@ == repos@,
    {
        PinnedRepos { repos }
    }

    /// Hands the identifiers back out.
    pub fn into_repos(self) -> (r: Vec<String>)
        ensures
            r@ == self@,
    {
        self.repos
    }
}

} // verus!
