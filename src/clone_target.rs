//! Where a clone goes: the directory, relative to the profile's root, that a
//! repository URL is cloned into.
use crate::config::RepoNamePattern;
use crate::text::{after_last, has_prefix, lemma_after_last, rfind_char, starts_with};
use vstd::prelude::*;

verus! {

#[verifier::external_type_specification]
#[verifier::external_body]
pub struct ExParseError(url::ParseError);

/// The path that the `url` crate reads from `input` as an absolute URL, or
/// `None` when it cannot parse one.
pub uninterp spec fn url_path_of(input: Seq<char>) -> Option<Seq<char>>;

/// Relies on url's `Url::parse` and `Url::path`: the path of the absolute URL
/// written in `input`, or the reason it does not parse.
#[verifier::external_body]
fn parsed_url_path(input: &str) -> (r: Result<String, url::ParseError>)
    ensures
        match r {
            Ok(p) => url_path_of(input@) == Some(p@),
            Err(_) => url_path_of(input@) is None,
        },
{
    match url::Url::parse(input) {
        Ok(u) => Ok(u.path().to_string()),
        Err(e) => Err(e),
    }
}

/// Why no directory could be named for a clone.
#[derive(Debug)]
pub enum CloneError {
    /// An `https://` address that does not parse as a URL.
    InvalidUrl(url::ParseError),
    /// A `git@` address without the `:` before the repository path.
    MissingPath,
    /// The plain pattern needs a path of the form `owner/name`.
    MissingName,
}

/// `s` without its leading `/`, if it has one.
pub open spec fn without_leading_slash(s: Seq<char>) -> Seq<char> {
    if s.len() > 0 && s[0] == '/' {
        s.drop_first()
    } else {
        s
    }
}

/// The repository path in a clone address: the URL path of an `https://`
/// address, what follows the last `:` of a `git@` address, and nothing for
/// any other address; `None` where the address has no such path.
pub open spec fn repo_path(url: Seq<char>) -> Option<Seq<char>> {
    if starts_with(url, "https://"@) {
        match url_path_of(url) {
            Some(p) => Some(without_leading_slash(p)),
            None => None,
        }
    } else if starts_with(url, "git@"@) {
        if url.contains(':') {
            Some(after_last(url, ':'))
        } else {
            None
        }
    } else {
        Some(Seq::<char>::empty())
    }
}

/// The part of `s` after its last `:`.
fn after_last_colon(s: &str) -> (r: Option<String>)
    ensures
        match r {
            Some(t) => s@.contains(':') && t@ == after_last(s@, ':'),
            None => !s@.contains(':'),
        },
{
    let n = s.unicode_len();
    match rfind_char(s, ':') {
        Some(j) => {
            proof {
                lemma_after_last(s@, ':', j as int);
                assert(s@[j as int] == ':');
            }
            Some(String::from_str(s.substring_char(j + 1, n)))
        },
        None => None,
    }
}

/// `s` without its leading `/`, if it has one.
fn strip_leading_slash(s: &str) -> (r: String)
    ensures
        r@ == without_leading_slash(s@),
{
    let n = s.unicode_len();
    if n > 0 && s.get_char(0) == '/' {
        proof {
            assert(s@.subrange(1, n as int) =~= s@.drop_first());
        }
        String::from_str(s.substring_char(1, n))
    } else {
        String::from_str(s)
    }
}

/// The directory, relative to the profile's root, that `url` is cloned
/// into when no directory is given: the repository path of the address,
/// shaped by `pattern`.
pub fn clone_subdirectory(url: &str, pattern: RepoNamePattern) -> (r: Result<String, CloneError>)
    ensures
        starts_with(url@, "https://"@) && url_path_of(url@) is None ==> r matches Err(
            CloneError::InvalidUrl(_),
        ),
        !starts_with(url@, "https://"@) && starts_with(url@, "git@"@) && !url@.contains(':')
            ==> r matches Err(CloneError::MissingPath),
        repo_path(url@) matches Some(p) ==> if pattern == RepoNamePattern::Plain
            && !p.contains('/') {
            r matches Err(CloneError::MissingName)
        } else {
            r matches Ok(d) && d@ == pattern.directory_of(p)
        },
{
    let path = if has_prefix(url, "https://") {
        match parsed_url_path(url) {
            Ok(p) => strip_leading_slash(p.as_str()),
            Err(e) => {
                return Err(CloneError::InvalidUrl(e));
            },
        }
    } else if has_prefix(url, "git@") {
        match after_last_colon(url) {
            Some(p) => p,
            None => {
                return Err(CloneError::MissingPath);
            },
        }
    } else {
        String::new()
    };
    if pattern == RepoNamePattern::Plain && rfind_char(path.as_str(), '/').is_none() {
        return Err(CloneError::MissingName);
    }
    Ok(pattern.get_directory(path))
}

} // verus!
