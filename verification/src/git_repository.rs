//! The repository handle and its validation: a worktree directory, its
//! metadata directory (`<worktree>/.git`), and the configuration loaded from
//! `<gitdir>/config`.
//!
//! Filesystem access stays with the caller: it reports whether the metadata
//! directory exists and hands over the raw config text, and this module makes
//! every decision about them.

use vstd::prelude::*;
use crate::config::{
    empty_ini_contents, ini_contents, ini_new, ini_parse_of, ini_plain,
    ini_read, repository_format_version, spec_getint,
};
use configparser::ini::Ini;

verus! {

/// A lightweight, freely reconstructible handle on a repository.
pub struct GitRepository {
    pub worktree: String,
    pub gitdir: String,
    pub config: Ini,
}

/// Everything that can go wrong while opening or creating a repository.
#[derive(Debug)]
pub enum RepositoryError {
    FailedToCreateDirctory(String),
    DirectoryDoesNotExist(String),
    NoGitDirectory(),
    ConfigLoadFail(String),
    MissingConfig(),
    UnsupportedVersion(i64),
    VersionNotFound(),
}

impl RepositoryError {
    /// The human-readable description of this error.
    pub open spec fn spec_message(self) -> Seq<char> {
        match self {
            RepositoryError::FailedToCreateDirctory(m) => "failed to create directory: "@ + m@,
            RepositoryError::DirectoryDoesNotExist(p) => "Directory does not exist at:"@ + p@,
            RepositoryError::NoGitDirectory() => "Git directory not found"@,
            RepositoryError::ConfigLoadFail(m) => "Failed to load config: "@ + m@,
            RepositoryError::MissingConfig() => "Config file not found"@,
            RepositoryError::UnsupportedVersion(_) => "Unsupported repository format version"@,
            RepositoryError::VersionNotFound() => "Unable to find key for repository version in config"@,
        }
    }

    pub fn message(&self) -> (r: String)
        ensures
            r@ == self.spec_message(),
    {
        match self {
            RepositoryError::FailedToCreateDirctory(m) => {
                let mut s = String::from_str("failed to create directory: ");
                s.append(m.as_str());
                s
            },
            RepositoryError::DirectoryDoesNotExist(p) => {
                let mut s = String::from_str("Directory does not exist at:");
                s.append(p.as_str());
                s
            },
            RepositoryError::NoGitDirectory() => String::from_str("Git directory not found"),
            RepositoryError::ConfigLoadFail(m) => {
                let mut s = String::from_str("Failed to load config: ");
                s.append(m.as_str());
                s
            },
            RepositoryError::MissingConfig() => String::from_str("Config file not found"),
            RepositoryError::UnsupportedVersion(_) => String::from_str(
                "Unsupported repository format version",
            ),
            RepositoryError::VersionNotFound() => String::from_str(
                "Unable to find key for repository version in config",
            ),
        }
    }
}

/// The configuration mapping that opening with the given config source
/// leaves behind: the parsed text when one was read and parsed, empty
/// otherwise.
pub open spec fn loaded_contents(config_source: Option<Result<String, String>>) -> Map<
    Seq<char>,
    Map<Seq<char>, Option<Seq<char>>>,
> {
    match config_source {
        Some(Ok(text)) => match ini_parse_of(text@) {
            Ok(m) => m,
            Err(_) => empty_ini_contents(),
        },
        _ => empty_ini_contents(),
    }
}

/// A successfully opened repository: rooted at `worktree`, metadata directory
/// `<worktree>/.git`, configuration holding exactly `m`.
pub open spec fn opened_repo(
    r: Result<GitRepository, RepositoryError>,
    worktree: Seq<char>,
    m: Map<Seq<char>, Map<Seq<char>, Option<Seq<char>>>>,
) -> bool {
    &&& r is Ok
    &&& r->Ok_0.wf()
    &&& r->Ok_0.worktree@ == worktree
    &&& r->Ok_0.gitdir@ == worktree + "/.git"@
    &&& ini_contents(r->Ok_0.config) == m
}

/// The version check that closes an unforced open: `core.repositoryformatversion`
/// must be present and exactly 0.
pub open spec fn version_check_post(
    r: Result<GitRepository, RepositoryError>,
    worktree: Seq<char>,
    m: Map<Seq<char>, Map<Seq<char>, Option<Seq<char>>>>,
) -> bool {
    match spec_getint(m, "core"@, "repositoryformatversion"@) {
        Ok(Some(v)) => if v != 0 {
            r matches Err(RepositoryError::UnsupportedVersion(w)) && w == v
        } else {
            opened_repo(r, worktree, m)
        },
        _ => r matches Err(RepositoryError::VersionNotFound()),
    }
}

/// What `at_path` returns, case by case. With `force`, every check is
/// skipped and a best-effort handle comes back even over missing structure:
/// a config that is absent, unreadable or unparsable is treated as empty.
/// Without `force`, the checks run in order: the metadata directory must
/// exist, the config file must exist, be readable and parse, and the format
/// version must be exactly 0.
pub open spec fn at_path_post(
    r: Result<GitRepository, RepositoryError>,
    worktree: Seq<char>,
    gitdir_exists: bool,
    config_source: Option<Result<String, String>>,
    force: bool,
) -> bool {
    if force {
        opened_repo(r, worktree, loaded_contents(config_source))
    } else if !gitdir_exists {
        r matches Err(RepositoryError::NoGitDirectory())
    } else {
        match config_source {
            Some(Err(msg)) => {
                &&& r matches Err(RepositoryError::ConfigLoadFail(_))
                &&& r->Err_0 == RepositoryError::ConfigLoadFail(msg)
            },
            Some(Ok(text)) => {
                if ini_parse_of(text@) is Err {
                    &&& r matches Err(RepositoryError::ConfigLoadFail(_))
                    &&& r->Err_0->ConfigLoadFail_0@ == ini_parse_of(text@)->Err_0
                } else {
                    version_check_post(r, worktree, ini_parse_of(text@)->Ok_0)
                }
            },
            None => r matches Err(RepositoryError::MissingConfig()),
        }
    }
}

impl GitRepository {
    /// A configuration built by this library, on which lookups behave as
    /// specified.
    pub open spec fn wf(self) -> bool {
        ini_plain(self.config)
    }

    pub fn new(worktree: String, gitdir: String, config: Ini) -> (r: GitRepository)
        ensures
            r.worktree == worktree,
            r.gitdir == gitdir,
            r.config == config,
    {
        GitRepository { worktree, gitdir, config }
    }

    pub fn worktree(&self) -> (r: &str)
        ensures
            r@ == self.worktree@,
    {
        self.worktree.as_str()
    }

    pub fn gitdir(&self) -> (r: &str)
        ensures
            r@ == self.gitdir@,
    {
        self.gitdir.as_str()
    }

    pub fn config(&self) -> (r: &Ini)
        ensures
            *r == self.config,
    {
        &self.config
    }

    /// Open (or, with `force`, best-effort construct) the repository rooted at
    /// `worktree`. The caller reports whether `<worktree>/.git` exists and
    /// passes the config file's text (`None` when the file is absent,
    /// `Some(Err(..))` when it exists but could not be read). With `force`,
    /// every validation check is skipped: a handle comes back even over
    /// missing structure, with whatever configuration could be loaded.
    pub fn at_path(
        worktree: String,
        gitdir_exists: bool,
        config_source: Option<Result<String, String>>,
        force: bool,
    ) -> (r: Result<GitRepository, RepositoryError>)
        ensures
            at_path_post(r, worktree@, gitdir_exists, config_source, force),
    {
        if !force && !gitdir_exists {
            return Err(RepositoryError::NoGitDirectory());
        }
        let mut config = ini_new();
        match config_source {
            Some(source) => match source {
                Ok(text) => match ini_read(&mut config, text.as_str()) {
                    Ok(_) => {},
                    Err(msg) => {
                        if !force {
                            return Err(RepositoryError::ConfigLoadFail(msg));
                        }
                    },
                },
                Err(msg) => {
                    if !force {
                        return Err(RepositoryError::ConfigLoadFail(msg));
                    }
                },
            },
            None => {
                if !force {
                    return Err(RepositoryError::MissingConfig());
                }
            },
        }
        if !force {
            match repository_format_version(&config) {
                Ok(Some(ver)) => {
                    if ver != 0 {
                        return Err(RepositoryError::UnsupportedVersion(ver));
                    }
                },
                _ => {
                    return Err(RepositoryError::VersionNotFound());
                },
            }
        }
        let mut gitdir = worktree.clone();
        gitdir.append("/.git");
        Ok(GitRepository { worktree, gitdir, config })
    }
}

/// The index of the last `/` in `s`, or -1 when there is none.
pub open spec fn last_slash_idx(s: Seq<char>) -> int
    decreases s.len(),
{
    if s.len() == 0 {
        -1
    } else if s.last() == '/' {
        s.len() - 1
    } else {
        last_slash_idx(s.drop_last())
    }
}

/// The parent directory of a path written with `/` separators: everything
/// before the last separator, the root `/` when that separator leads the
/// path, and nothing for the root itself or a path without separators.
pub open spec fn spec_parent(s: Seq<char>) -> Option<Seq<char>> {
    let j = last_slash_idx(s);
    if j < 0 || (j == 0 && s.len() == 1) {
        None
    } else if j == 0 {
        Some(seq!['/'])
    } else {
        Some(s.take(j))
    }
}

proof fn lemma_last_slash_found(s: Seq<char>, j: int)
    requires
        0 <= j < s.len(),
        s[j] == '/',
        forall|k: int| j < k < s.len() ==> s[k] != '/',
    ensures
        last_slash_idx(s) == j,
    decreases s.len(),
{
    if s.last() == '/' {
        assert(j == s.len() - 1);
    } else {
        assert(j < s.len() - 1);
        lemma_last_slash_found(s.drop_last(), j);
    }
}

proof fn lemma_last_slash_none(s: Seq<char>)
    requires
        forall|k: int| 0 <= k < s.len() ==> s[k] != '/',
    ensures
        last_slash_idx(s) == -1,
    decreases s.len(),
{
    if s.len() > 0 {
        lemma_last_slash_none(s.drop_last());
    }
}

/// The parent directory of `path`, as `spec_parent` describes; the parent is
/// always strictly shorter than the path, which bounds the upward search.
pub fn parent_of(path: &str) -> (r: Option<String>)
    ensures
        r is Some <==> spec_parent(path@) is Some,
        r matches Some(p) ==> spec_parent(path@) == Some(p@) && p@.len() < path@.len(),
{
    let len = path.unicode_len();
    let mut i = len;
    let mut found = false;
    while i > 0 && !found
        invariant
            i <= len,
            len == path@.len(),
            !found ==> forall|k: int| i <= k < len ==> path@[k] != '/',
            found ==> 0 < i <= len && path@[i - 1] == '/' && (forall|k: int|
                i <= k < len ==> path@[k] != '/'),
        decreases i + if found { 0int } else { 1int },
    {
        if path.get_char(i - 1) == '/' {
            found = true;
        } else {
            i -= 1;
        }
    }
    if !found {
        proof {
            lemma_last_slash_none(path@);
        }
        return None;
    }
    let j = i - 1;
    proof {
        lemma_last_slash_found(path@, j as int);
    }
    if j == 0 {
        if len == 1 {
            None
        } else {
            proof {
                reveal_strlit("/");
            }
            let root = String::from_str("/");
            assert(root@ =~= seq!['/']);
            Some(root)
        }
    } else {
        Some(path.substring_char(0, j).to_owned())
    }
}

/// One step of the upward search for a repository: the caller reports whether
/// `<candidate>/.git` exists; the answer is the candidate itself, the next
/// directory to try, or the end of the search at the filesystem root.
pub enum SearchStep {
    Found(String),
    Ascend(String),
    NotFound,
}

/// Decide one step of repository discovery from the `.git` existence check
/// the caller made for `candidate`. The search must not create anything and
/// must terminate: each `Ascend` strictly shortens the path.
pub fn find_repo_step(candidate: String, git_dir_exists: bool) -> (r: SearchStep)
    ensures
        git_dir_exists ==> r == SearchStep::Found(candidate),
        !git_dir_exists ==> match spec_parent(candidate@) {
            Some(p) => {
                &&& r matches SearchStep::Ascend(q)
                &&& q@ == p
                &&& q@.len() < candidate@.len()
            },
            None => r matches SearchStep::NotFound,
        },
{
    if git_dir_exists {
        return SearchStep::Found(candidate);
    }
    match parent_of(candidate.as_str()) {
        Some(parent) => SearchStep::Ascend(parent),
        None => SearchStep::NotFound,
    }
}

/// The extended-path prefix that Windows canonicalization may put in front
/// of an absolute path.
pub open spec fn unc_prefix() -> Seq<char> {
    seq!['\\', '\\', '?', '\\']
}

/// Strip a leading extended-path prefix, leaving any other path unchanged.
pub fn clean_unc(path: String) -> (r: String)
    ensures
        path@.len() >= 4 && path@.take(4) == unc_prefix() ==> r@ == path@.skip(4),
        !(path@.len() >= 4 && path@.take(4) == unc_prefix()) ==> r == path,
{
    let len = path.as_str().unicode_len();
    if len >= 4 && path.as_str().get_char(0) == '\\' && path.as_str().get_char(1) == '\\'
        && path.as_str().get_char(2) == '?' && path.as_str().get_char(3) == '\\' {
        assert(path@.take(4) =~= unc_prefix());
        path.as_str().substring_char(4, len).to_owned()
    } else {
        assert(!(path@.len() >= 4 && path@.take(4) == unc_prefix())) by {
            if path@.len() >= 4 && path@.take(4) == unc_prefix() {
                assert(path@[0] == path@.take(4)[0]);
                assert(path@[1] == path@.take(4)[1]);
                assert(path@[2] == path@.take(4)[2]);
                assert(path@[3] == path@.take(4)[3]);
            }
        }
        path
    }
}

/// The path of `rel` inside the repository's metadata directory.
pub fn repo_path(repo: &GitRepository, rel: &str) -> (r: String)
    ensures
        r@ == repo.gitdir@ + "/"@ + rel@,
{
    let mut s = repo.gitdir.clone();
    s.append("/");
    s.append(rel);
    s
}

/// The metadata directory that would sit directly under `path`.
pub fn git_dir_of(path: &str) -> (r: String)
    ensures
        r@ == path@ + "/.git"@,
{
    let mut s = String::from_str(path);
    s.append("/.git");
    s
}

} // verus!
