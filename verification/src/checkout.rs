//! The reconciliation engine: diff a pool's manifest against the live
//! state of its repositories and files, and decide what to clone, which
//! branches to switch, and which loose files to rewrite.
//!
//! The engine only decides; carrying the plan out (cloning, staging a
//! tree, writing a file) touches the filesystem and happens outside the
//! library, one plan entry at a time.

use vstd::prelude::*;

use crate::repository::File;
use crate::repository::Repository;

verus! {

/// What a fresh look at one manifest repository's directory found.
pub enum LiveState {
    /// The directory does not exist.
    Absent,
    /// The directory exists and has this branch checked out.
    Present { branch: String },
}

/// One branch switch the plan calls for.
pub struct BranchCheckout {
    /// The repository to switch, as the manifest records it.
    pub repository: Repository,
    /// The branch found checked out.
    pub current: String,
    /// The branch the manifest asks for.
    pub next: String,
}

/// A reconciliation plan: what to clone and which branches to switch.
pub struct Checkout {
    /// Repositories absent on disk, to be cloned.
    pub clone: Vec<Repository>,
    /// Repositories present on a branch other than the manifest's.
    pub branches: Vec<BranchCheckout>,
}

/// The repositories the plan clones: those whose directory is absent,
/// in manifest order.
pub open spec fn plan_clone(repos: Seq<Repository>, live: Seq<LiveState>) -> Seq<Repository>
    decreases repos.len(),
{
    if repos.len() == 0 || live.len() == 0 {
        Seq::empty()
    } else {
        let rest = plan_clone(repos.drop_first(), live.drop_first());
        if live[0] is Absent {
            seq![repos[0]] + rest
        } else {
            rest
        }
    }
}

/// The branch switches the plan records: one for every repository that
/// is present but on a branch other than the manifest's, in manifest
/// order.
pub open spec fn plan_branches(repos: Seq<Repository>, live: Seq<LiveState>) -> Seq<
    BranchCheckout,
>
    decreases repos.len(),
{
    if repos.len() == 0 || live.len() == 0 {
        Seq::empty()
    } else {
        let rest = plan_branches(repos.drop_first(), live.drop_first());
        if live[0] matches LiveState::Present { branch } && branch@ != repos[0].branch@ {
            seq![
                BranchCheckout {
                    repository: repos[0],
                    current: live[0]->Present_branch,
                    next: repos[0].branch,
                },
            ] + rest
        } else {
            rest
        }
    }
}

/// The checkout engine.
pub struct CheckoutManager;

impl CheckoutManager {
    /// Build the reconciliation plan for a manifest's repositories,
    /// given what a fresh inspection found at each one's directory
    /// (`live[i]` belongs to `repositories[i]`).  A repository that is
    /// present on its desired branch appears in neither list.
    pub fn build_plan(repositories: Vec<Repository>, live: Vec<LiveState>) -> (r: Checkout)
        requires
            repositories@.len() == live@.len(),
        ensures
            r.clone@ == plan_clone(repositories@, live@),
            r.branches@ == plan_branches(repositories@, live@),
    {
        let ghost orig_repos = repositories@;
        let ghost orig_live = live@;
        let mut repositories = repositories;
        let mut live = live;
        let mut to_clone: Vec<Repository> = Vec::new();
        let mut branches: Vec<BranchCheckout> = Vec::new();
        while repositories.len() > 0
            invariant
                repositories@.len() == live@.len(),
                plan_clone(orig_repos, orig_live) == to_clone@ + plan_clone(
                    repositories@,
                    live@,
                ),
                plan_branches(orig_repos, orig_live) == branches@ + plan_branches(
                    repositories@,
                    live@,
                ),
            decreases repositories@.len(),
        {
            let ghost pre_repos = repositories@;
            let ghost pre_live = live@;
            let repo = repositories.remove(0);
            let state = live.remove(0);
            proof {
                assert(pre_repos.drop_first() =~= repositories@);
                assert(pre_live.drop_first() =~= live@);
            }
            match state {
                LiveState::Absent => {
                    to_clone.push(repo);
                },
                LiveState::Present { branch } => {
                    if !(branch == repo.branch) {
                        let next = repo.branch.clone();
                        branches.push(BranchCheckout { repository: repo, current: branch, next });
                    }
                },
            }
            proof {
                assert(plan_clone(orig_repos, orig_live) =~= to_clone@ + plan_clone(
                    repositories@,
                    live@,
                ));
                assert(plan_branches(orig_repos, orig_live) =~= branches@ + plan_branches(
                    repositories@,
                    live@,
                ));
            }
        }
        proof {
            assert(plan_clone(orig_repos, orig_live) =~= to_clone@);
            assert(plan_branches(orig_repos, orig_live) =~= branches@);
        }
        Checkout { clone: to_clone, branches }
    }
}

/// Whether the file phase writes this tracked file, given the checksum
/// of the live file (or `None` when it does not exist or could not be
/// read as text).  A file without a captured payload is never written;
/// one whose live checksum equals the stored checksum is left alone.
pub open spec fn spec_should_write(
    content: Option<String>,
    stored: Option<u32>,
    live: Option<u32>,
) -> bool {
    match content {
        Option::None => false,
        Option::Some(_) => match live {
            Option::None => true,
            Option::Some(lc) => match stored {
                Option::None => true,
                Option::Some(sc) => lc != sc,
            },
        },
    }
}

/// Decide the file phase for one tracked file.
pub fn file_needs_write(file: &File, live_checksum: Option<u32>) -> (r: bool)
    ensures
        r == spec_should_write(file.content, file.checksum, live_checksum),
{
    match &file.content {
        Option::None => false,
        Option::Some(_) => match live_checksum {
            Option::None => true,
            Option::Some(lc) => match file.checksum {
                Option::None => true,
                Option::Some(sc) => lc != sc,
            },
        },
    }
}

/// Reconciliation is idempotent: once every repository is present on
/// its desired branch — the state a completed run leaves behind — the
/// next plan is empty.
pub proof fn lemma_reconciliation_idempotent(repos: Seq<Repository>, live: Seq<LiveState>)
    requires
        repos.len() == live.len(),
        forall|i: int|
            0 <= i < repos.len() ==> ((#[trigger] live[i]) matches LiveState::Present { branch }
                && branch@ == repos[i].branch@),
    ensures
        plan_clone(repos, live).len() == 0,
        plan_branches(repos, live).len() == 0,
    decreases repos.len(),
{
    if repos.len() > 0 {
        assert(live[0] matches LiveState::Present { branch } && branch@ == repos[0].branch@);
        assert forall|i: int| 0 <= i < repos.drop_first().len() implies ((
        #[trigger] live.drop_first()[i]) matches LiveState::Present { branch } && branch@
            == repos.drop_first()[i].branch@) by {
            assert(live[i + 1] matches LiveState::Present { branch } && branch@ == repos[i
                + 1].branch@);
        }
        lemma_reconciliation_idempotent(repos.drop_first(), live.drop_first());
    }
}

/// A repository whose live branch equals its desired branch never
/// receives a branch switch: every transition the plan records moves
/// between two distinct branches.
pub proof fn lemma_transitions_change_branch(repos: Seq<Repository>, live: Seq<LiveState>)
    ensures
        forall|j: int|
            0 <= j < plan_branches(repos, live).len() ==> #[trigger] plan_branches(
                repos,
                live,
            )[j].current@ != plan_branches(repos, live)[j].next@,
    decreases repos.len(),
{
    if repos.len() > 0 && live.len() > 0 {
        lemma_transitions_change_branch(repos.drop_first(), live.drop_first());
        let pb = plan_branches(repos, live);
        let rest = plan_branches(repos.drop_first(), live.drop_first());
        assert forall|j: int| 0 <= j < pb.len() implies #[trigger] pb[j].current@
            != pb[j].next@ by {
            if live[0] matches LiveState::Present { branch } && branch@ != repos[0].branch@ {
                if j > 0 {
                    assert(pb[j] == rest[j - 1]);
                }
            } else {
                assert(pb[j] == rest[j]);
            }
        }
    }
}

/// A file whose live checksum equals its stored checksum is never
/// rewritten.
pub proof fn lemma_matching_checksum_never_rewritten(content: Option<String>, sum: u32)
    ensures
        !spec_should_write(content, Some(sum), Some(sum)),
{
}

} // verus!
