use slip_git::args::{get_profile, Args};
use slip_git::clone_target::{clone_subdirectory, CloneError};
use slip_git::config::{Config, GitConfig, RepoNamePattern, RepoRoot, WorkOrPersonal};

fn args(config: &str, work: bool, personal: bool) -> Args {
    Args { config: config.to_string(), work, personal, command: None }
}

fn root(dir: Option<&str>, pattern: Option<RepoNamePattern>, email: Option<&str>) -> RepoRoot {
    RepoRoot {
        root: dir.map(|d| d.to_string()),
        pattern,
        git_config: email.map(|e| GitConfig { email: Some(e.to_string()), name: None }),
    }
}

#[test]
fn teste2() {
    assert_eq!(
        "asdfadf".to_string(),
        RepoNamePattern::Plain.get_directory("asdf/asdfadf".to_string())
    );

    assert_eq!(
        "asdf/asdfadf".to_string(),
        RepoNamePattern::Recursive.get_directory("asdf/asdfadf".to_string())
    );

    assert_eq!(
        "asdf-asdfadf".to_string(),
        RepoNamePattern::Hyphen.get_directory("asdf/asdfadf".to_string())
    );
}

#[test]
fn directory_patterns_on_deeper_paths() {
    assert_eq!(RepoNamePattern::Plain.get_directory("a/b/c".to_string()), "c");
    assert_eq!(RepoNamePattern::Plain.get_directory("a/b/".to_string()), "");
    assert_eq!(RepoNamePattern::Hyphen.get_directory("a/b/c".to_string()), "a-b-c");
    assert_eq!(RepoNamePattern::Hyphen.get_directory("plain".to_string()), "plain");
    assert_eq!(RepoNamePattern::Hyphen.get_directory(String::new()), "");
}

#[test]
fn new_config_defaults_to_work_without_roots() {
    let config = Config::new();
    assert_eq!(config.default, Some(WorkOrPersonal::Work));
    assert!(config.work.is_none());
    assert!(config.personal.is_none());
    assert!(config.get_git_config(&WorkOrPersonal::Work).is_none());
    let (_, pattern) = config.default();
    assert_eq!(pattern, RepoNamePattern::Recursive);
}

#[test]
fn configured_roots_and_patterns() {
    let config = Config {
        default: Some(WorkOrPersonal::Personal),
        work: Some(root(Some("/srv/work"), Some(RepoNamePattern::Hyphen), None)),
        personal: Some(root(Some("/srv/me"), None, None)),
    };
    assert_eq!(config.work(), ("/srv/work".to_string(), RepoNamePattern::Hyphen));
    assert_eq!(config.personal(), ("/srv/me".to_string(), RepoNamePattern::Recursive));
    assert_eq!(config.default(), ("/srv/me".to_string(), RepoNamePattern::Recursive));
    let plain = root(None, Some(RepoNamePattern::Plain), None);
    assert_eq!(plain.get_pattern(), RepoNamePattern::Plain);
    assert_eq!(root(None, None, None).get_pattern(), RepoNamePattern::Recursive);
}

#[test]
fn missing_root_falls_back_to_the_projects_directory() {
    let config = Config {
        default: Some(WorkOrPersonal::Work),
        work: Some(root(None, Some(RepoNamePattern::Plain), None)),
        personal: None,
    };
    let (dir, pattern) = config.work();
    assert!(dir.ends_with("/projects/work"));
    assert_eq!(pattern, RepoNamePattern::Recursive);
    let (dir, pattern) = config.personal();
    assert!(dir.ends_with("/projects/personal"));
    assert_eq!(pattern, RepoNamePattern::Recursive);
}

#[test]
fn git_identity_per_profile() {
    let config = Config {
        default: None,
        work: Some(root(None, None, Some("me@work.example"))),
        personal: Some(root(None, None, None)),
    };
    let work = config.get_git_config(&WorkOrPersonal::Work).unwrap();
    assert_eq!(work.email, Some("me@work.example".to_string()));
    assert_eq!(work.name, None);
    assert!(config.get_git_config(&WorkOrPersonal::Personal).is_none());
}

#[test]
fn profile_flags_win_over_the_default() {
    let mut config = Config::new();
    assert_eq!(get_profile(&args("c", false, true), &config), WorkOrPersonal::Personal);
    assert_eq!(get_profile(&args("c", true, true), &config), WorkOrPersonal::Personal);
    assert_eq!(get_profile(&args("c", true, false), &config), WorkOrPersonal::Work);
    assert_eq!(get_profile(&args("c", false, false), &config), WorkOrPersonal::Work);
    config.default = Some(WorkOrPersonal::Personal);
    assert_eq!(get_profile(&args("c", true, false), &config), WorkOrPersonal::Work);
    assert_eq!(get_profile(&args("c", false, false), &config), WorkOrPersonal::Personal);
    config.default = None;
    assert_eq!(get_profile(&args("c", false, false), &config), WorkOrPersonal::Personal);
}

#[test]
fn picker_filter_from_flags() {
    assert_eq!(args("c", false, false).category_filter(), None);
    assert_eq!(args("c", true, false).category_filter(), Some(WorkOrPersonal::Work));
    assert_eq!(args("c", true, true).category_filter(), Some(WorkOrPersonal::Personal));
}

#[test]
fn config_path_expands_a_leading_tilde_only() {
    assert_eq!(args("/etc/slip.toml", false, false).config(), "/etc/slip.toml");
    assert_eq!(args("~other/slip.toml", false, false).config(), "~other/slip.toml");
    let expanded = args("~/.slip.toml", false, false).config();
    assert!(expanded.ends_with("/.slip.toml"));
    assert!(!expanded.starts_with('~'));
}

#[test]
fn profile_names() {
    assert_eq!(WorkOrPersonal::Work.to_string(), "Work");
    assert_eq!(WorkOrPersonal::Personal.to_string(), "Personal");
}

#[test]
fn clone_directory_from_https_urls() {
    let url = "https://github.com/gitignore/gitignore";
    assert_eq!(clone_subdirectory(url, RepoNamePattern::Plain).unwrap(), "gitignore");
    assert_eq!(
        clone_subdirectory(url, RepoNamePattern::Hyphen).unwrap(),
        "gitignore-gitignore"
    );
    assert_eq!(
        clone_subdirectory(url, RepoNamePattern::Recursive).unwrap(),
        "gitignore/gitignore"
    );
}

#[test]
fn clone_directory_from_ssh_addresses() {
    let url = "git@github.com:owner/repo";
    assert_eq!(clone_subdirectory(url, RepoNamePattern::Plain).unwrap(), "repo");
    assert_eq!(clone_subdirectory(url, RepoNamePattern::Hyphen).unwrap(), "owner-repo");
    assert!(matches!(
        clone_subdirectory("git@github.com", RepoNamePattern::Recursive),
        Err(CloneError::MissingPath)
    ));
}

#[test]
fn clone_directory_errors() {
    assert!(matches!(
        clone_subdirectory("https://", RepoNamePattern::Recursive),
        Err(CloneError::InvalidUrl(_))
    ));
    assert!(matches!(
        clone_subdirectory("ftp://host/a/b", RepoNamePattern::Plain),
        Err(CloneError::MissingName)
    ));
    assert_eq!(clone_subdirectory("ftp://host/a/b", RepoNamePattern::Recursive).unwrap(), "");
    assert!(matches!(
        clone_subdirectory("https://github.com/", RepoNamePattern::Plain),
        Err(CloneError::MissingName)
    ));
}
