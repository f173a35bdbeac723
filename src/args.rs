//! The command line: where the configuration lives, which profile to use,
//! and the subcommand to run.
use crate::config::{expand_tilde, is_tilde_expansion, Config, WorkOrPersonal};
use vstd::prelude::*;

verus! {

/// The parsed command line.
#[derive(Debug)]
pub struct Args {
    /// Path of the configuration file, possibly starting with `~`.
    pub config: String,
    /// Use the work profile.
    pub work: bool,
    /// Use the personal profile.
    pub personal: bool,
    /// The subcommand; the picker when none is given.
    pub command: Option<SubCommands>,
}

/// What the command line asks for.
#[derive(Debug, Clone)]
pub enum SubCommands {
    /// Clone a repository, into `dir` or into a directory named from its URL.
    Clone { url: String, dir: Option<String> },
    /// Apply the configured git identity to every tracked repository.
    Reconfig,
    /// List the tracked repositories, those matching `filter` when it is given.
    List { filter: Option<String> },
    /// Pick a repository interactively.
    Ui,
    /// Create and track a new repository.
    New { repo: String },
    /// Track an existing repository.
    Add { repo: String },
}

/// The profile chosen from the command line and the configuration: the
/// personal flag wins over the work flag, which wins over the configured
/// default; personal when nothing decides.
pub open spec fn profile_of(
    personal: bool,
    work: bool,
    default: Option<WorkOrPersonal>,
) -> WorkOrPersonal {
    if personal {
        WorkOrPersonal::Personal
    } else if work {
        WorkOrPersonal::Work
    } else {
        match default {
            Some(c) => c,
            None => WorkOrPersonal::Personal,
        }
    }
}

impl Args {
    /// The configuration file's path, with a leading `~` expanded.
    pub fn config(&self) -> (r: String)
        ensures
            is_tilde_expansion(self.config@, r@),
    {
        expand_tilde(self.config.as_str())
    }

    /// The profile the picker is restricted to: the one a flag names, the
    /// personal flag first; none when no flag is given.
    pub fn category_filter(&self) -> (r: Option<WorkOrPersonal>)
        ensures
            r == (if self.personal {
                Some(WorkOrPersonal::Personal)
            } else if self.work {
                Some(WorkOrPersonal::Work)
            } else {
                None
            }),
    {
        if self.personal {
            Some(WorkOrPersonal::Personal)
        } else if self.work {
            Some(WorkOrPersonal::Work)
        } else {
            None
        }
    }
}

/// The profile that a command works in.
pub fn get_profile(cli: &Args, config: &Config) -> (r: WorkOrPersonal)
    ensures
        r == profile_of(cli.personal, cli.work, config.default),
{
    if cli.personal {
        WorkOrPersonal::Personal
    } else if cli.work {
        WorkOrPersonal::Work
    } else if let Some(c) = config.default {
        c
    } else {
        WorkOrPersonal::Personal
    }
}

} // verus!
