//! Command-level decisions. The commands themselves touch the filesystem, so
//! their I/O stays with the caller; this module decides what an init does and
//! classifies what can go wrong.

use vstd::prelude::*;
use configparser::ini::Ini;
use crate::config::{default_config, default_config_contents, ini_contents, ini_plain};
use crate::git_object::ObjectError;
use crate::git_repository::{git_dir_of, RepositoryError};

verus! {

/// Everything a command can fail with.
#[derive(Debug)]
pub enum CommandError {
    Init(String),
    Repo(RepositoryError),
    Object(ObjectError),
}

/// Decide an init: given whether `<path>/.git` already exists, either refuse
/// (a repository must not be created over an existing one) or hand back the
/// metadata directory to create and the default configuration to write into
/// `<gitdir>/config`.
pub fn init(path: &str, git_dir_exists: bool) -> (r: Result<(String, Ini), CommandError>)
    ensures
        git_dir_exists ==> (r matches Err(CommandError::Init(m)) && m@
            == "Already a git directory"@),
        !git_dir_exists ==> (r matches Ok(p) && p.0@ == path@ + "/.git"@ && ini_plain(p.1)
            && ini_contents(p.1) == default_config_contents()),
{
    if git_dir_exists {
        Err(CommandError::Init(String::from_str("Already a git directory")))
    } else {
        Ok((git_dir_of(path), default_config()))
    }
}

} // verus!
