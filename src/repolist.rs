//! The catalog of tracked repositories and what is derived from its entries.
use crate::config::{Config, GitConfig, WorkOrPersonal};
use crate::text::{contains_seq, lemma_contains_prefix, str_contains};
use vstd::prelude::*;

verus! {

/// One tracked repository.
pub struct Repo {
    pub url: String,
    pub location: String,
    pub name: String,
    pub category: WorkOrPersonal,
}

/// The catalog of tracked repositories, in the order they were added.
pub struct RepoList {
    pub repos: Vec<Repo>,
}

/// Whether a listing filter selects a repository: it occurs in the name,
/// the location or the URL.
pub open spec fn listed(repo: Repo, filter: Seq<char>) -> bool {
    contains_seq(repo.name@, filter) || contains_seq(repo.location@, filter) || contains_seq(
        repo.url@,
        filter,
    )
}

/// The one-line description of a repository used in listings.
pub open spec fn description(repo: Repo) -> Seq<char> {
    repo.category.label() + " project: "@ + repo.name@ + ", Location: "@ + repo.location@
        + ", url: "@ + repo.url@ + ","@
}

impl Repo {
    /// The one-line description of the repository used in listings.
    pub fn to_string(&self) -> (r: String)
        ensures
            r@ == description(*self),
    {
        let mut r = self.category.to_string();
        r.append(" project: ");
        r.append(self.name.as_str());
        r.append(", Location: ");
        r.append(self.location.as_str());
        r.append(", url: ");
        r.append(self.url.as_str());
        r.append(",");
        r
    }

    /// Whether `filter` occurs in the repository's name, location or URL.
    pub fn is_listed(&self, filter: &str) -> (r: bool)
        ensures
            r == listed(*self, filter@),
    {
        str_contains(self.name.as_str(), filter) || str_contains(self.location.as_str(), filter)
            || str_contains(self.url.as_str(), filter)
    }
}

impl RepoList {
    /// The catalog indices, in order, of the repositories that `filter`
    /// selects for a listing.
    pub fn matching_entries(&self, filter: &str) -> (r: Vec<usize>)
        ensures
            forall|k: int| 0 <= k < r@.len() ==> #[trigger] r@[k] < self.repos@.len(),
            forall|k: int|
                0 <= k < r@.len() ==> listed(self.repos@[#[trigger] r@[k] as int], filter@),
            forall|k: int, l: int| 0 <= k < l < r@.len() ==> #[trigger] r@[k] < #[trigger] r@[l],
            forall|i: int|
                0 <= i < self.repos@.len() && listed(#[trigger] self.repos@[i], filter@)
                    ==> r@.contains(i as usize),
    {
        let mut r: Vec<usize> = Vec::new();
        let n = self.repos.len();
        let mut i: usize = 0;
        while i < n
            invariant
                n == self.repos@.len(),
                i <= n,
                forall|k: int| 0 <= k < r@.len() ==> #[trigger] r@[k] < i,
                forall|k: int|
                    0 <= k < r@.len() ==> listed(self.repos@[#[trigger] r@[k] as int], filter@),
                forall|k: int, l: int|
                    0 <= k < l < r@.len() ==> #[trigger] r@[k] < #[trigger] r@[l],
                forall|j: int|
                    0 <= j < i && listed(#[trigger] self.repos@[j], filter@) ==> r@.contains(
                        j as usize,
                    ),
            decreases n - i,
        {
            let ghost before = r@;
            if self.repos[i].is_listed(filter) {
                r.push(i);
                proof {
                    assert(r@[r@.len() - 1] == i);
                }
            }
            proof {
                assert forall|j: int|
                    0 <= j <= i && listed(#[trigger] self.repos@[j], filter@) implies r@.contains(
                    j as usize,
                ) by {
                    if j < i {
                        let k = choose|k: int| 0 <= k < before.len() && before[k] == j as usize;
                        assert(r@[k] == j as usize);
                    }
                }
            }
            i = i + 1;
        }
        r
    }
}

/// Narrowing: typing more characters after a listing filter never brings
/// back a repository that the shorter filter left out.
pub proof fn lemma_listing_narrows(repo: Repo, q1: Seq<char>, q2: Seq<char>)
    requires
        q1.len() <= q2.len(),
        q2.subrange(0, q1.len() as int) == q1,
        listed(repo, q2),
    ensures
        listed(repo, q1),
{
    if contains_seq(repo.name@, q2) {
        lemma_contains_prefix(repo.name@, q1, q2);
    } else if contains_seq(repo.location@, q2) {
        lemma_contains_prefix(repo.location@, q1, q2);
    } else {
        lemma_contains_prefix(repo.url@, q1, q2);
    }
}

/// The git commands that set a repository's identity: its email first,
/// then its name, each only when configured.
pub open spec fn git_commands_for(g: Option<GitConfig>) -> Seq<Seq<char>> {
    match g {
        Some(gc) => {
            let email_cmds = match gc.email {
                Some(e) => seq!["git config user.email "@ + e@],
                None => Seq::<Seq<char>>::empty(),
            };
            let name_cmds = match gc.name {
                Some(n) => seq!["git config user.name "@ + n@],
                None => Seq::<Seq<char>>::empty(),
            };
            email_cmds + name_cmds
        },
        None => Seq::<Seq<char>>::empty(),
    }
}

/// The git commands to run in a repository so that it uses the identity
/// configured for its profile.
pub fn git_config_commands(repo: &Repo, config: &Config) -> (r: Vec<String>)
    ensures
        r@.map_values(|s: String| s@) == git_commands_for(
            config.get_git_config_spec(repo.category),
        ),
{
    let mut r: Vec<String> = Vec::new();
    let g = config.get_git_config(&repo.category);
    if let Some(gc) = g {
        if let Some(email) = &gc.email {
            let mut cmd = String::from_str("git config user.email ");
            cmd.append(email.as_str());
            r.push(cmd);
        }
        if let Some(name) = &gc.name {
            let mut cmd = String::from_str("git config user.name ");
            cmd.append(name.as_str());
            r.push(cmd);
        }
    }
    proof {
        assert(r@.map_values(|s: String| s@) =~= git_commands_for(
            config.get_git_config_spec(repo.category),
        ));
    }
    r
}

} // verus!
