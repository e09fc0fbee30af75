//! The discovery engine: classify the entries of a directory walk into
//! repository roots, loose tracked files, and everything excluded or
//! contained in a repository.
//!
//! Walking the filesystem happens outside the library; the walk's
//! entries arrive here in depth-first pre-order, each with its path and
//! what kind of entry it is.  Classification — exclusion patterns,
//! repository detection, and the pruning of everything below an
//! excluded or repository directory — is decided and verified here.

use vstd::prelude::*;

use crate::errors::Error;
use crate::externals::glob_match;
use crate::externals::glob_match_of;
use crate::externals::glob_ok;
use crate::repository::File;
use crate::repository::Repository;
use crate::text::has_prefix;

verus! {

/// What kind of filesystem entry a walk yielded.
#[derive(Debug, Clone, Copy, PartialEq, Eq)]
pub enum EntryKind {
    /// A directory; `repo_marker` says whether it holds a repository
    /// marker subdirectory and is therefore a repository root.
    Directory { repo_marker: bool },
    /// A regular file.
    RegularFile,
    /// Anything else (symbolic links are not followed).
    Other,
}

/// One entry of a depth-first walk: the full path and its kind.
#[derive(Debug, Clone, PartialEq)]
pub struct WalkEntry {
    /// The entry's path.
    pub path: String,
    /// The entry's kind.
    pub kind: EntryKind,
}

/// What classification found: the repository roots and the loose files,
/// each in walk order.
#[derive(Debug, Clone, PartialEq)]
pub struct ClassifiedPaths {
    /// Paths of the discovered repository roots.
    pub repository_roots: Vec<String>,
    /// Paths of the discovered loose files.
    pub file_paths: Vec<String>,
}

/// A collection of repositories and files found by inspecting a root
/// directory.
#[derive(Debug, Clone)]
pub struct Discovery {
    /// The discovered repositories.
    pub repositories: Vec<Repository>,
    /// The discovered loose files.
    pub files: Vec<File>,
}

/// Whether `p` lies strictly below the directory `dir`.
pub open spec fn spec_is_under(p: Seq<char>, dir: Seq<char>) -> bool {
    p.len() > dir.len() && dir.is_prefix_of(p) && p[dir.len() as int] == '/'
}

/// Whether some exclusion pattern matches the path.
pub open spec fn spec_excluded(excludes: Seq<String>, p: Seq<char>) -> bool {
    exists|k: int| 0 <= k < excludes.len() && glob_match_of(excludes[k]@, p)
}

/// Whether every exclusion pattern compiles.
pub open spec fn all_patterns_ok(excludes: Seq<String>) -> bool {
    forall|k: int| 0 <= k < excludes.len() ==> glob_ok(excludes[k]@)
}

/// The classification itself: walk the entries in order, skipping
/// everything below the most recently pruned directory, and sort each
/// remaining entry into repository roots (pruning their contents),
/// loose files, excluded entries (pruning excluded directories), plain
/// directories and ignored entries.  Returns the repository-root paths
/// and the loose-file paths, in walk order.
pub open spec fn spec_classify(
    entries: Seq<WalkEntry>,
    excludes: Seq<String>,
    prune: Option<Seq<char>>,
) -> (Seq<Seq<char>>, Seq<Seq<char>>)
    decreases entries.len(),
{
    if entries.len() == 0 {
        (Seq::<Seq<char>>::empty(), Seq::<Seq<char>>::empty())
    } else {
        let e = entries[0];
        let rest = entries.drop_first();
        if prune matches Some(d) && spec_is_under(e.path@, d) {
            spec_classify(rest, excludes, prune)
        } else if spec_excluded(excludes, e.path@) {
            if e.kind is Directory {
                spec_classify(rest, excludes, Some(e.path@))
            } else {
                spec_classify(rest, excludes, Option::None)
            }
        } else {
            match e.kind {
                EntryKind::Directory { repo_marker } => {
                    if repo_marker {
                        let r = spec_classify(rest, excludes, Some(e.path@));
                        (seq![e.path@] + r.0, r.1)
                    } else {
                        spec_classify(rest, excludes, Option::None)
                    }
                },
                EntryKind::RegularFile => {
                    let r = spec_classify(rest, excludes, Option::None);
                    (r.0, seq![e.path@] + r.1)
                },
                EntryKind::Other => spec_classify(rest, excludes, Option::None),
            }
        }
    }
}

/// The view of an optional pruned path.
pub open spec fn spec_prune_view(p: Option<String>) -> Option<Seq<char>> {
    match p {
        Option::None => Option::None,
        Option::Some(s) => Option::Some(s@),
    }
}

/// Whether `p` lies strictly below the directory `dir`.
pub fn is_under(p: &str, dir: &str) -> (r: bool)
    ensures
        r == spec_is_under(p@, dir@),
{
    p.unicode_len() > dir.unicode_len() && has_prefix(p, dir) && p.get_char(dir.unicode_len())
        == '/'
}

/// Whether some exclusion pattern matches the path.
fn matches_any(excludes: &Vec<String>, path: &str) -> (r: bool)
    requires
        all_patterns_ok(excludes@),
    ensures
        r == spec_excluded(excludes@, path@),
{
    let mut k: usize = 0;
    while k < excludes.len()
        invariant
            k <= excludes@.len(),
            all_patterns_ok(excludes@),
            forall|j: int| 0 <= j < k ==> !glob_match_of(excludes@[j]@, path@),
        decreases excludes@.len() - k,
    {
        let m = glob_match(excludes[k].as_str(), path);
        if m.unwrap() {
            return true;
        }
        k += 1;
    }
    false
}

/// The index of the first exclusion pattern that does not compile, if
/// any.
pub fn first_invalid_pattern(excludes: &Vec<String>) -> (r: Option<usize>)
    ensures
        r is None <==> all_patterns_ok(excludes@),
        r matches Some(i) ==> i < excludes@.len() && !glob_ok(excludes@[i as int]@),
{
    let mut k: usize = 0;
    while k < excludes.len()
        invariant
            k <= excludes@.len(),
            forall|j: int| 0 <= j < k ==> glob_ok(excludes@[j]@),
        decreases excludes@.len() - k,
    {
        if glob_match(excludes[k].as_str(), "").is_none() {
            return Some(k);
        }
        k += 1;
    }
    None
}

/// The discovery engine.
pub struct DiscoveryManager;

impl DiscoveryManager {
    /// Classify the entries of a walk under a pool's exclusion
    /// patterns.  Fails exactly when some pattern does not compile;
    /// otherwise returns the repository-root paths and loose-file
    /// paths, in walk order.
    pub fn classify(entries: Vec<WalkEntry>, excludes: &Vec<String>) -> (r: Result<
        ClassifiedPaths,
        Error,
    >)
        ensures
            r is Ok <==> all_patterns_ok(excludes@),
            r matches Ok(c) ==> c.repository_roots@.map_values(|s: String| s@) == spec_classify(
                entries@,
                excludes@,
                Option::None,
            ).0 && c.file_paths@.map_values(|s: String| s@) == spec_classify(
                entries@,
                excludes@,
                Option::None,
            ).1,
            r matches Err(e) ==> e matches Error::InvalidPattern { pattern } && !glob_ok(pattern@),
    {
        match first_invalid_pattern(excludes) {
            Some(i) => {
                return Err(Error::InvalidPattern { pattern: excludes[i].clone() });
            },
            None => {},
        }
        let ghost orig = entries@;
        let mut entries = entries;
        let mut repos: Vec<String> = Vec::new();
        let mut files: Vec<String> = Vec::new();
        let mut prune: Option<String> = None;
        proof {
            assert(repos@.map_values(|s: String| s@) =~= Seq::<Seq<char>>::empty());
            assert(files@.map_values(|s: String| s@) =~= Seq::<Seq<char>>::empty());
        }
        while entries.len() > 0
            invariant
                all_patterns_ok(excludes@),
                spec_classify(orig, excludes@, Option::None).0 == repos@.map_values(
                    |s: String| s@,
                ) + spec_classify(entries@, excludes@, spec_prune_view(prune)).0,
                spec_classify(orig, excludes@, Option::None).1 == files@.map_values(
                    |s: String| s@,
                ) + spec_classify(entries@, excludes@, spec_prune_view(prune)).1,
            decreases entries@.len(),
        {
            let ghost pre = entries@;
            let ghost pre_prune = spec_prune_view(prune);
            let e = entries.remove(0);
            let ghost ep = e.path@;
            proof {
                assert(pre.drop_first() =~= entries@);
            }
            let skip = match &prune {
                Some(d) => is_under(e.path.as_str(), d.as_str()),
                None => false,
            };
            if !skip {
                let excl = matches_any(excludes, e.path.as_str());
                if excl {
                    match e.kind {
                        EntryKind::Directory { repo_marker: _ } => {
                            prune = Some(e.path);
                        },
                        _ => {
                            prune = None;
                        },
                    }
                } else {
                    match e.kind {
                        EntryKind::Directory { repo_marker } => {
                            if repo_marker {
                                let marker = e.path.clone();
                                repos.push(e.path);
                                prune = Some(marker);
                            } else {
                                prune = None;
                            }
                        },
                        EntryKind::RegularFile => {
                            files.push(e.path);
                            prune = None;
                        },
                        EntryKind::Other => {
                            prune = None;
                        },
                    }
                }
            }
            proof {
                assert(spec_classify(orig, excludes@, Option::None).0 =~= repos@.map_values(
                    |s: String| s@,
                ) + spec_classify(entries@, excludes@, spec_prune_view(prune)).0);
                assert(spec_classify(orig, excludes@, Option::None).1 =~= files@.map_values(
                    |s: String| s@,
                ) + spec_classify(entries@, excludes@, spec_prune_view(prune)).1);
            }
        }
        proof {
            assert(spec_classify(orig, excludes@, Option::None).0 =~= repos@.map_values(
                |s: String| s@,
            ));
            assert(spec_classify(orig, excludes@, Option::None).1 =~= files@.map_values(
                |s: String| s@,
            ));
        }
        Ok(ClassifiedPaths { repository_roots: repos, file_paths: files })
    }
}

/// The paths of a walk's entries, in walk order.
pub open spec fn entry_paths(entries: Seq<WalkEntry>) -> Seq<Seq<char>> {
    entries.map_values(|e: WalkEntry| e.path@)
}

/// The pruned directory after one entry has been classified.
pub open spec fn spec_next_prune(
    e: WalkEntry,
    excludes: Seq<String>,
    prune: Option<Seq<char>>,
) -> Option<Seq<char>> {
    if prune matches Some(d) && spec_is_under(e.path@, d) {
        prune
    } else if spec_excluded(excludes, e.path@) {
        if e.kind is Directory {
            Some(e.path@)
        } else {
            Option::None
        }
    } else {
        match e.kind {
            EntryKind::Directory { repo_marker } => if repo_marker {
                Some(e.path@)
            } else {
                Option::None
            },
            _ => Option::None,
        }
    }
}

/// Whether one entry is classified a repository root.
pub open spec fn spec_is_repo_root(
    e: WalkEntry,
    excludes: Seq<String>,
    prune: Option<Seq<char>>,
) -> bool {
    &&& !(prune matches Some(d) && spec_is_under(e.path@, d))
    &&& !spec_excluded(excludes, e.path@)
    &&& e.kind == (EntryKind::Directory { repo_marker: true })
}

/// Whether one entry is classified a loose tracked file.
pub open spec fn spec_is_loose_file(
    e: WalkEntry,
    excludes: Seq<String>,
    prune: Option<Seq<char>>,
) -> bool {
    &&& !(prune matches Some(d) && spec_is_under(e.path@, d))
    &&& !spec_excluded(excludes, e.path@)
    &&& e.kind is RegularFile
}

/// Classification handles one entry at a time: the head entry
/// contributes its path to at most one of the two lists, and the tail
/// is classified under the head's pruning decision.
pub proof fn lemma_classify_step(
    entries: Seq<WalkEntry>,
    excludes: Seq<String>,
    prune: Option<Seq<char>>,
)
    requires
        entries.len() > 0,
    ensures
        !(spec_is_repo_root(entries[0], excludes, prune) && spec_is_loose_file(
            entries[0],
            excludes,
            prune,
        )),
        spec_classify(entries, excludes, prune).0 == (if spec_is_repo_root(
            entries[0],
            excludes,
            prune,
        ) {
            seq![entries[0].path@]
        } else {
            Seq::<Seq<char>>::empty()
        }) + spec_classify(
            entries.drop_first(),
            excludes,
            spec_next_prune(entries[0], excludes, prune),
        ).0,
        spec_classify(entries, excludes, prune).1 == (if spec_is_loose_file(
            entries[0],
            excludes,
            prune,
        ) {
            seq![entries[0].path@]
        } else {
            Seq::<Seq<char>>::empty()
        }) + spec_classify(
            entries.drop_first(),
            excludes,
            spec_next_prune(entries[0], excludes, prune),
        ).1,
{
    let e = entries[0];
    let rest = entries.drop_first();
    let next = spec_next_prune(e, excludes, prune);
    assert(spec_classify(entries, excludes, prune).0 =~= (if spec_is_repo_root(e, excludes, prune) {
        seq![e.path@]
    } else {
        Seq::<Seq<char>>::empty()
    }) + spec_classify(rest, excludes, next).0);
    assert(spec_classify(entries, excludes, prune).1 =~= (if spec_is_loose_file(
        e,
        excludes,
        prune,
    ) {
        seq![e.path@]
    } else {
        Seq::<Seq<char>>::empty()
    }) + spec_classify(rest, excludes, next).1);
}

/// Everything classification returns is the path of some walk entry.
pub proof fn lemma_classify_paths_from_entries(
    entries: Seq<WalkEntry>,
    excludes: Seq<String>,
    prune: Option<Seq<char>>,
)
    ensures
        forall|p: Seq<char>|
            #[trigger] spec_classify(entries, excludes, prune).0.contains(p) ==> entry_paths(
                entries,
            ).contains(p),
        forall|p: Seq<char>|
            #[trigger] spec_classify(entries, excludes, prune).1.contains(p) ==> entry_paths(
                entries,
            ).contains(p),
    decreases entries.len(),
{
    if entries.len() > 0 {
        let e = entries[0];
        let rest = entries.drop_first();
        let next = spec_next_prune(e, excludes, prune);
        lemma_classify_step(entries, excludes, prune);
        lemma_classify_paths_from_entries(rest, excludes, next);
        let r = spec_classify(entries, excludes, prune);
        let rr = spec_classify(rest, excludes, next);
        assert forall|p: Seq<char>| #[trigger] r.0.contains(p) implies entry_paths(
            entries,
        ).contains(p) by {
            let j = choose|j: int| 0 <= j < r.0.len() && r.0[j] == p;
            if spec_is_repo_root(e, excludes, prune) && j == 0 {
                assert(entry_paths(entries)[0] == p);
            } else {
                let jj = if spec_is_repo_root(e, excludes, prune) {
                    j - 1
                } else {
                    j
                };
                assert(rr.0[jj] == p);
                assert(rr.0.contains(p));
                let k = choose|k: int| 0 <= k < entry_paths(rest).len() && entry_paths(rest)[k]
                    == p;
                assert(entry_paths(entries)[k + 1] == p);
            }
        }
        assert forall|p: Seq<char>| #[trigger] r.1.contains(p) implies entry_paths(
            entries,
        ).contains(p) by {
            let j = choose|j: int| 0 <= j < r.1.len() && r.1[j] == p;
            if spec_is_loose_file(e, excludes, prune) && j == 0 {
                assert(entry_paths(entries)[0] == p);
            } else {
                let jj = if spec_is_loose_file(e, excludes, prune) {
                    j - 1
                } else {
                    j
                };
                assert(rr.1[jj] == p);
                assert(rr.1.contains(p));
                let k = choose|k: int| 0 <= k < entry_paths(rest).len() && entry_paths(rest)[k]
                    == p;
                assert(entry_paths(entries)[k + 1] == p);
            }
        }
    }
}

/// Discovery partitions the walk: when the walked paths are pairwise
/// distinct, no path is classified twice — the repository list and the
/// file list are each free of duplicates and share no path.
pub proof fn lemma_discovery_partitions(
    entries: Seq<WalkEntry>,
    excludes: Seq<String>,
    prune: Option<Seq<char>>,
)
    requires
        entry_paths(entries).no_duplicates(),
    ensures
        spec_classify(entries, excludes, prune).0.no_duplicates(),
        spec_classify(entries, excludes, prune).1.no_duplicates(),
        forall|p: Seq<char>|
            !(#[trigger] spec_classify(entries, excludes, prune).0.contains(p) && spec_classify(
                entries,
                excludes,
                prune,
            ).1.contains(p)),
    decreases entries.len(),
{
    if entries.len() > 0 {
        let e = entries[0];
        let rest = entries.drop_first();
        let next = spec_next_prune(e, excludes, prune);
        lemma_classify_step(entries, excludes, prune);
        assert(entry_paths(rest) =~= entry_paths(entries).drop_first());
        lemma_discovery_partitions(rest, excludes, next);
        lemma_classify_paths_from_entries(rest, excludes, next);
        let r = spec_classify(entries, excludes, prune);
        let rr = spec_classify(rest, excludes, next);
        assert forall|p: Seq<char>| entry_paths(rest).contains(p) implies p != e.path@ by {
            let k = choose|k: int| 0 <= k < entry_paths(rest).len() && entry_paths(rest)[k] == p;
            assert(entry_paths(entries)[k + 1] == p);
            assert(entry_paths(entries)[0] == e.path@);
        }
        assert(r.0.no_duplicates()) by {
            if spec_is_repo_root(e, excludes, prune) {
                assert(r.0 =~= seq![e.path@] + rr.0);
                assert(!rr.0.contains(e.path@));
                assert forall|i: int, j: int| 0 <= i < j < r.0.len() implies r.0[i] != r.0[j] by {
                    if i == 0 {
                        assert(rr.0[j - 1] == r.0[j]);
                        assert(rr.0.contains(r.0[j]));
                    } else {
                        assert(rr.0[i - 1] == r.0[i] && rr.0[j - 1] == r.0[j]);
                    }
                }
            } else {
                assert(r.0 =~= rr.0);
            }
        }
        assert(r.1.no_duplicates()) by {
            if spec_is_loose_file(e, excludes, prune) {
                assert(r.1 =~= seq![e.path@] + rr.1);
                assert(!rr.1.contains(e.path@));
                assert forall|i: int, j: int| 0 <= i < j < r.1.len() implies r.1[i] != r.1[j] by {
                    if i == 0 {
                        assert(rr.1[j - 1] == r.1[j]);
                        assert(rr.1.contains(r.1[j]));
                    } else {
                        assert(rr.1[i - 1] == r.1[i] && rr.1[j - 1] == r.1[j]);
                    }
                }
            } else {
                assert(r.1 =~= rr.1);
            }
        }
        assert forall|p: Seq<char>|
            !(#[trigger] r.0.contains(p) && r.1.contains(p)) by {
            if r.0.contains(p) && r.1.contains(p) {
                let i = choose|i: int| 0 <= i < r.0.len() && r.0[i] == p;
                let j = choose|j: int| 0 <= j < r.1.len() && r.1[j] == p;
                if spec_is_repo_root(e, excludes, prune) {
                    assert(r.1 =~= rr.1);
                    assert(rr.1.contains(p));
                    if i == 0 {
                        assert(p == e.path@);
                        assert(entry_paths(rest).contains(p));
                    } else {
                        assert(rr.0[i - 1] == p);
                        assert(rr.0.contains(p));
                    }
                } else if spec_is_loose_file(e, excludes, prune) {
                    assert(r.0 =~= rr.0);
                    assert(rr.0.contains(p));
                    if j == 0 {
                        assert(p == e.path@);
                        assert(entry_paths(rest).contains(p));
                    } else {
                        assert(rr.1[j - 1] == p);
                        assert(rr.1.contains(p));
                    }
                } else {
                    assert(r.0 =~= rr.0);
                    assert(r.1 =~= rr.1);
                    assert(rr.0.contains(p) && rr.1.contains(p));
                }
            }
        }
    }
}

/// Discovery is deterministic: two classifications of the same walk
/// under the same patterns yield identical ordered lists.
pub proof fn lemma_discovery_idempotent(
    first: ClassifiedPaths,
    second: ClassifiedPaths,
    entries: Seq<WalkEntry>,
    excludes: Seq<String>,
)
    requires
        first.repository_roots@.map_values(|s: String| s@) == spec_classify(
            entries,
            excludes,
            Option::None,
        ).0,
        first.file_paths@.map_values(|s: String| s@) == spec_classify(
            entries,
            excludes,
            Option::None,
        ).1,
        second.repository_roots@.map_values(|s: String| s@) == spec_classify(
            entries,
            excludes,
            Option::None,
        ).0,
        second.file_paths@.map_values(|s: String| s@) == spec_classify(
            entries,
            excludes,
            Option::None,
        ).1,
    ensures
        first.repository_roots@.map_values(|s: String| s@) == second.repository_roots@.map_values(
            |s: String| s@,
        ),
        first.file_paths@.map_values(|s: String| s@) == second.file_paths@.map_values(
            |s: String| s@,
        ),
{
}

} // verus!
