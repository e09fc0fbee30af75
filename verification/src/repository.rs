//! The data model: repositories, their remotes, and loose tracked files.
//!
//! The inspection of a live repository happens outside the library (it
//! reads the filesystem); what it yields — the head branch, the remote
//! list and the upstream remote's name — is handed in here as plain
//! values, and everything derived from them is verified.

use vstd::prelude::*;
use vstd::string::StringExecFns;
use vstd::utf8::encode_utf8;

use crate::errors::Error;
use crate::externals::crc32;
use crate::externals::crc32_of;
use crate::text::last_slash;
use crate::text::path_join;
use crate::text::rel_to;
use crate::text::spec_last_slash;
use crate::text::spec_path_join;
use crate::text::spec_rel_to;
use crate::text::substring;

verus! {

/// A remote of a repository: its local name and its URL.
#[derive(Debug, Clone, PartialEq)]
pub struct Remote {
    /// Local name of the remote.
    pub name: String,
    /// URL of the remote.
    pub url: String,
}

/// A repository of a pool.
#[derive(Debug, Clone, PartialEq)]
pub struct Repository {
    /// The directory's own name.
    pub name: String,
    /// The parent directory, relative to the pool root; empty when the
    /// repository sits directly under the root.
    pub path: String,
    /// The branch reference currently checked out.
    pub branch: String,
    /// All configured remotes.
    pub remotes: Vec<Remote>,
    /// The remote that is the configured upstream of `branch`.
    pub fetch: Remote,
}

/// A loose file tracked by a pool, outside any repository.
#[derive(Debug, Clone, PartialEq)]
pub struct File {
    /// Path of the file, relative to the pool root.
    pub path: String,
    /// Captured content, when a payload was taken.
    pub content: Option<String>,
    /// Checksum of the captured content.
    pub checksum: Option<u32>,
}

/// Split a path at its last `'/'` into parent and (non-empty) name.
pub open spec fn spec_split_dir(path: Seq<char>) -> Option<(Seq<char>, Seq<char>)> {
    match spec_last_slash(path) {
        Option::None => Option::None,
        Option::Some(i) => if i + 1 < path.len() {
            Option::Some((path.subrange(0, i), path.subrange(i + 1, path.len() as int)))
        } else {
            Option::None
        },
    }
}

/// Whether some remote in the list bears this name.
pub open spec fn spec_has_remote(remotes: Seq<Remote>, name: Seq<char>) -> bool {
    exists|k: int| 0 <= k < remotes.len() && remotes[k].name@ == name
}

/// `i` is the position of the first remote named `name`.
pub open spec fn spec_first_remote(remotes: Seq<Remote>, name: Seq<char>, i: int) -> bool {
    &&& 0 <= i < remotes.len()
    &&& remotes[i].name@ == name
    &&& forall|j: int| 0 <= j < i ==> remotes[j].name@ != name
}

impl Repository {
    /// The repository's directory: `root/path/name`.
    pub fn full_path(&self, root: &str) -> (r: String)
        ensures
            r@ == spec_path_join(spec_path_join(root@, self.path@), self.name@),
    {
        let parent = path_join(root, self.path.as_str());
        path_join(parent.as_str(), self.name.as_str())
    }

    /// Find the first remote with the given name.
    pub fn find_remote(remotes: &Vec<Remote>, name: &str) -> (r: Option<usize>)
        ensures
            r matches Some(i) ==> spec_first_remote(remotes@, name@, i as int),
            r is None ==> !spec_has_remote(remotes@, name@),
    {
        let mut i: usize = 0;
        while i < remotes.len()
            invariant
                i <= remotes@.len(),
                forall|j: int| 0 <= j < i ==> remotes@[j].name@ != name@,
            decreases remotes@.len() - i,
        {
            if crate::text::str_eq(remotes[i].name.as_str(), name) {
                return Some(i);
            }
            i += 1;
        }
        None
    }

    /// Assemble a repository's identity from the directory it lives in
    /// and what the inspection of the live repository yielded: the head
    /// branch, the remotes, and the name of the branch's upstream
    /// remote.  `path` is the repository directory; `root` the pool
    /// root it must lie below.
    pub fn from_parts(
        root: &str,
        path: &str,
        branch: String,
        remotes: Vec<Remote>,
        upstream: &str,
    ) -> (r: Result<Repository, Error>)
        ensures
            r is Ok <==> ({
                &&& spec_split_dir(path@) is Some
                &&& spec_rel_to(spec_split_dir(path@)->Some_0.0, root@) is Some
                &&& spec_has_remote(remotes@, upstream@)
            }),
            r matches Ok(repo) ==> {
                &&& Some(repo.name@) == Some(spec_split_dir(path@)->Some_0.1)
                &&& Some(repo.path@) == spec_rel_to(spec_split_dir(path@)->Some_0.0, root@)
                &&& repo.branch == branch
                &&& repo.remotes@ == remotes@
                &&& exists|i: int|
                    spec_first_remote(remotes@, upstream@, i) && repo.fetch.name == remotes@[i].name
                        && repo.fetch.url == remotes@[i].url
            },
            r matches Err(e) ==> (e matches Error::RepositoryDoesNotExists { path: p } && p@
                == path@ && (spec_split_dir(path@) is None || spec_rel_to(
                spec_split_dir(path@)->Some_0.0,
                root@,
            ) is None)) || (e matches Error::DelegateFailure { cause } && cause@ == "remote '"@
                + upstream@ + "' not found"@ && !spec_has_remote(remotes@, upstream@)),
    {
        let n = path.unicode_len();
        let split = last_slash(path);
        let i = match split {
            Some(i) => i,
            None => {
                return Err(Error::RepositoryDoesNotExists { path: String::from_str(path) });
            },
        };
        if i + 1 >= n {
            return Err(Error::RepositoryDoesNotExists { path: String::from_str(path) });
        }
        let name = substring(path, i + 1, n);
        let parent = substring(path, 0, i);
        let rel = match rel_to(parent.as_str(), root) {
            Some(rel) => rel,
            None => {
                return Err(Error::RepositoryDoesNotExists { path: String::from_str(path) });
            },
        };
        let fetch = match Repository::find_remote(&remotes, upstream) {
            Some(k) => Remote { name: remotes[k].name.clone(), url: remotes[k].url.clone() },
            None => {
                return Err(
                    Error::DelegateFailure {
                        cause: String::from_str("remote '").concat(upstream).concat("' not found"),
                    },
                );
            },
        };
        Ok(Repository { name, path: rel, branch, remotes, fetch })
    }
}

impl File {
    /// The file's location: `root/path`.
    pub fn full_path(&self, root: &str) -> (r: String)
        ensures
            r@ == spec_path_join(root@, self.path@),
    {
        path_join(root, self.path.as_str())
    }

    /// The checksum this library stores for a file's text.
    pub fn content_checksum(content: &str) -> (r: u32)
        ensures
            r == crc32_of(encode_utf8(content@)),
    {
        crc32(content.as_bytes())
    }

    /// Capture a loose file from what was read off the disk: its length
    /// and, for an empty file, its content.  A payload is kept only for
    /// zero-length files; longer files are tracked by location alone —
    /// a deliberate, test-pinned quirk of this manager.
    pub fn capture(path: String, len: u64, content: String) -> (r: File)
        ensures
            r.path == path,
            len == 0 ==> r.content == Some(content) && r.checksum == Some(
                crc32_of(encode_utf8(content@)),
            ),
            len != 0 ==> r.content is None && r.checksum is None,
    {
        if len == 0 {
            let sum = File::content_checksum(content.as_str());
            File { path, content: Some(content), checksum: Some(sum) }
        } else {
            File { path, content: None, checksum: None }
        }
    }
}

} // verus!
