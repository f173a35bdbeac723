//! The user's configuration: which profile is the default, where each
//! profile's repositories live, how a clone's directory is named, and the
//! git identity each profile uses.
use crate::text::{after_last, lemma_after_last, push_char, rfind_char};
use vstd::prelude::*;

verus! {

/// The profile a repository is filed under.
#[derive(PartialEq, Eq, Structural, Clone, Copy, Debug)]
pub enum WorkOrPersonal {
    Work,
    Personal,
}

impl WorkOrPersonal {
    /// The profile's name as it is shown to the user.
    pub open spec fn label(self) -> Seq<char> {
        match self {
            WorkOrPersonal::Work => "Work"@,
            WorkOrPersonal::Personal => "Personal"@,
        }
    }

    /// The profile's name as it is shown to the user.
    pub fn to_string(&self) -> (r: String)
        ensures
            r@ == self.label(),
    {
        match self {
            WorkOrPersonal::Work => String::from_str("Work"),
            WorkOrPersonal::Personal => String::from_str("Personal"),
        }
    }
}

/// The git identity configured for a profile.
#[derive(Clone, Debug)]
pub struct GitConfig {
    pub email: Option<String>,
    pub name: Option<String>,
}

/// Where a profile's repositories are cloned, and how they are named there.
#[derive(Clone, Debug)]
pub struct RepoRoot {
    pub root: Option<String>,
    pub pattern: Option<RepoNamePattern>,
    pub git_config: Option<GitConfig>,
}

/// How the path of a repository's URL becomes its directory under the root.
#[derive(PartialEq, Eq, Structural, Clone, Copy, Debug)]
pub enum RepoNamePattern {
    /// `owner/name` becomes `owner-name`.
    Hyphen,
    /// `owner/name` is kept as nested directories.
    Recursive,
    /// `owner/name` becomes `name`.
    Plain,
}

/// `s` with each `/` replaced by `-`.
pub open spec fn hyphenated(s: Seq<char>) -> Seq<char> {
    s.map_values(|c: char| if c == '/' { '-' } else { c })
}

impl RepoNamePattern {
    /// The directory that the pattern makes of a repository path.
    pub open spec fn directory_of(self, path: Seq<char>) -> Seq<char> {
        match self {
            RepoNamePattern::Recursive => path,
            RepoNamePattern::Hyphen => hyphenated(path),
            RepoNamePattern::Plain => after_last(path, '/'),
        }
    }

    /// The directory, relative to the profile's root, for a repository path
    /// such as `owner/name`. The plain pattern needs a `/` in the path.
    pub fn get_directory(&self, path: String) -> (r: String)
        requires
            *self == RepoNamePattern::Plain ==> path@.contains('/'),
        ensures
            r@ == self.directory_of(path@),
    {
        match self {
            RepoNamePattern::Recursive => path,
            RepoNamePattern::Hyphen => replace_slashes(path.as_str()),
            RepoNamePattern::Plain => last_segment(path.as_str()),
        }
    }
}

/// Copies `s`, writing `-` for each `/`.
fn replace_slashes(s: &str) -> (r: String)
    ensures
        r@ == hyphenated(s@),
{
    let n = s.unicode_len();
    let mut r = String::new();
    let mut i: usize = 0;
    while i < n
        invariant
            n == s@.len(),
            i <= n,
            r@ =~= hyphenated(s@.subrange(0, i as int)),
        decreases n - i,
    {
        let c = s.get_char(i);
        if c == '/' {
            push_char(&mut r, '-');
        } else {
            push_char(&mut r, c);
        }
        proof {
            assert(s@.subrange(0, i + 1) =~= s@.subrange(0, i as int).push(c));
        }
        i = i + 1;
    }
    proof {
        assert(s@.subrange(0, n as int) =~= s@);
    }
    r
}

/// The part of `s` after its last `/`.
fn last_segment(s: &str) -> (r: String)
    requires
        s@.contains('/'),
    ensures
        r@ == after_last(s@, '/'),
{
    let n = s.unicode_len();
    match rfind_char(s, '/') {
        Some(j) => {
            proof {
                lemma_after_last(s@, '/', j as int);
            }
            String::from_str(s.substring_char(j + 1, n))
        },
        None => {
            proof {
                let k = choose|k: int| 0 <= k < s@.len() && s@[k] == '/';
                assert(s@[k] != '/');
            }
            String::new()
        },
    }
}

/// Whether `r` is what tilde expansion can make of `input`: a leading `~`
/// alone or before `/` stands for the home directory (and stays when there
/// is none), so `r` ends with the rest of the input; any other input is
/// left as it is.
pub open spec fn is_tilde_expansion(input: Seq<char>, r: Seq<char>) -> bool {
    if input.len() > 0 && input[0] == '~' && (input.len() == 1 || input[1] == '/') {
        &&& r.len() >= input.len() - 1
        &&& r.subrange(r.len() - (input.len() - 1), r.len() as int) == input.drop_first()
    } else if input.len() > 1 && input[0] == '~' && input[1] == '\\' {
        true
    } else {
        r == input
    }
}

/// Relies on shellexpand's `tilde`: a leading `~` that stands alone or before
/// a separator becomes the home directory, when one is known; any other
/// input comes back unchanged.
#[verifier::external_body]
pub(crate) fn expand_tilde(s: &str) -> (r: String)
    ensures
        is_tilde_expansion(s@, r@),
{
    String::from(shellexpand::tilde(s))
}

/// The configuration, as read from the user's configuration file.
#[derive(Debug)]
pub struct Config {
    pub default: Option<WorkOrPersonal>,
    pub work: Option<RepoRoot>,
    pub personal: Option<RepoRoot>,
}

/// The pattern a profile's root asks for, the recursive one when unset.
pub open spec fn pattern_of(root: RepoRoot) -> RepoNamePattern {
    match root.pattern {
        Some(p) => p,
        None => RepoNamePattern::Recursive,
    }
}

/// The configured root directory of a profile, before tilde expansion, and
/// its naming pattern; `fallback` with the recursive pattern when the profile
/// has no root.
pub open spec fn root_and_pattern(root: Option<RepoRoot>, fallback: Seq<char>) -> (
    Seq<char>,
    RepoNamePattern,
) {
    match root {
        Some(rr) => match rr.root {
            Some(dir) => (dir@, pattern_of(rr)),
            None => (fallback, RepoNamePattern::Recursive),
        },
        None => (fallback, RepoNamePattern::Recursive),
    }
}

/// The git identity configured in a profile's root, if any.
pub open spec fn git_config_of(root: Option<RepoRoot>) -> Option<GitConfig> {
    match root {
        Some(rr) => rr.git_config,
        None => None,
    }
}

fn copy_string_option(s: &Option<String>) -> (r: Option<String>)
    ensures
        r == *s,
{
    match s {
        Some(v) => Some(v.clone()),
        None => None,
    }
}

fn copy_git_config(g: &GitConfig) -> (r: GitConfig)
    ensures
        r == *g,
{
    GitConfig { email: copy_string_option(&g.email), name: copy_string_option(&g.name) }
}

impl RepoRoot {
    /// The naming pattern of this root, the recursive one when unset.
    pub fn get_pattern(&self) -> (r: RepoNamePattern)
        ensures
            r == pattern_of(*self),
    {
        match self.pattern {
            Some(p) => p,
            None => RepoNamePattern::Recursive,
        }
    }
}

/// Where work repositories go when the configuration names no root.
pub const DEFAULT_WORK_ROOT: &'static str = "~/projects/work";

/// Where personal repositories go when the configuration names no root.
pub const DEFAULT_PERSONAL_ROOT: &'static str = "~/projects/personal";

impl Config {
    /// The git identity configured for a profile, if any.
    pub open spec fn get_git_config_spec(&self, category: WorkOrPersonal) -> Option<GitConfig> {
        match category {
            WorkOrPersonal::Work => git_config_of(self.work),
            WorkOrPersonal::Personal => git_config_of(self.personal),
        }
    }

    /// The git identity of a profile, if the configuration has one.
    pub fn get_git_config(&self, category: &WorkOrPersonal) -> (r: Option<GitConfig>)
        ensures
            r == self.get_git_config_spec(*category),
    {
        let root = match category {
            WorkOrPersonal::Work => &self.work,
            WorkOrPersonal::Personal => &self.personal,
        };
        match root {
            Some(rr) => match &rr.git_config {
                Some(g) => Some(copy_git_config(g)),
                None => None,
            },
            None => None,
        }
    }

    /// The root directory of a profile's repositories, tilde-expanded, and
    /// how they are named there.
    fn root_of(root: &Option<RepoRoot>, fallback: &str) -> (r: (String, RepoNamePattern))
        ensures
            is_tilde_expansion(root_and_pattern(*root, fallback@).0, r.0@),
            r.1 == root_and_pattern(*root, fallback@).1,
    {
        match root {
            Some(rr) => match &rr.root {
                Some(dir) => (expand_tilde(dir.as_str()), rr.get_pattern()),
                None => (expand_tilde(fallback), RepoNamePattern::Recursive),
            },
            None => (expand_tilde(fallback), RepoNamePattern::Recursive),
        }
    }

    /// The root directory of work repositories, tilde-expanded, and their
    /// naming pattern; `~/projects/work` and the recursive pattern by default.
    pub fn work(&self) -> (r: (String, RepoNamePattern))
        ensures
            is_tilde_expansion(root_and_pattern(self.work, DEFAULT_WORK_ROOT@).0, r.0@),
            r.1 == root_and_pattern(self.work, DEFAULT_WORK_ROOT@).1,
    {
        Config::root_of(&self.work, DEFAULT_WORK_ROOT)
    }

    /// The root directory of personal repositories, tilde-expanded, and their
    /// naming pattern; `~/projects/personal` and the recursive pattern by default.
    pub fn personal(&self) -> (r: (String, RepoNamePattern))
        ensures
            is_tilde_expansion(root_and_pattern(self.personal, DEFAULT_PERSONAL_ROOT@).0, r.0@),
            r.1 == root_and_pattern(self.personal, DEFAULT_PERSONAL_ROOT@).1,
    {
        Config::root_of(&self.personal, DEFAULT_PERSONAL_ROOT)
    }

    /// The root directory and naming pattern of the default profile.
    pub fn default(&self) -> (r: (String, RepoNamePattern))
        requires
            self.default is Some,
        ensures
            self.default == Some(WorkOrPersonal::Work) ==> is_tilde_expansion(
                root_and_pattern(self.work, DEFAULT_WORK_ROOT@).0,
                r.0@,
            ) && r.1 == root_and_pattern(self.work, DEFAULT_WORK_ROOT@).1,
            self.default == Some(WorkOrPersonal::Personal) ==> is_tilde_expansion(
                root_and_pattern(self.personal, DEFAULT_PERSONAL_ROOT@).0,
                r.0@,
            ) && r.1 == root_and_pattern(self.personal, DEFAULT_PERSONAL_ROOT@).1,
    {
        match self.default {
            Some(WorkOrPersonal::Personal) => self.personal(),
            _ => self.work(),
        }
    }

    /// The configuration used when none is given: the work profile is the
    /// default, and no profile sets a root.
    pub fn new() -> (r: Config)
        ensures
            r.default == Some(WorkOrPersonal::Work),
            r.work is None,
            r.personal is None,
    {
        Config { work: None, personal: None, default: Some(WorkOrPersonal::Work) }
    }
}

} // verus!
