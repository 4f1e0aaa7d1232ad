//! The decision that is taken for one branch.
//!
//! A branch either has an upstream, and is then judged by the two tips and by
//! whether the upstream descends from it, or it has none, and is then judged by
//! whether the remote's default branch contains it.

use vstd::prelude::*;
use crate::oid::CommitId;

verus! {

/// What is to be done with a branch.
#[derive(Clone, Copy, Debug, PartialEq, Eq, Structural)]
pub enum ActionKind {
    /// The branch is where its upstream is.
    UpToDate,
    /// The branch is checked out and behind its upstream: move the working
    /// tree and the branch forward.
    Merge,
    /// The branch is behind its upstream and not checked out: move the branch.
    UpdateRef,
    /// The branch holds commits that its upstream lacks.
    Unpushed,
    /// The branch is gone from the remote, merged and checked out: switch to
    /// the default branch, then delete it.
    CheckoutAndDelete,
    /// As before, but there is no default branch to switch to.
    NoDefault,
    /// The branch is gone from the remote, merged and not checked out.
    Delete,
    /// The branch is gone from the remote and holds unmerged commits.
    Unmerged,
}

/// The decision for a branch with an upstream. `local` and `upstream` are the
/// two tips, `behind` says that the upstream's tip descends from the local one.
pub open spec fn classify_tracked(
    local: Seq<u8>,
    upstream: Seq<u8>,
    behind: bool,
    is_current: bool,
) -> ActionKind {
    if local == upstream {
        ActionKind::UpToDate
    } else if behind {
        if is_current {
            ActionKind::Merge
        } else {
            ActionKind::UpdateRef
        }
    } else {
        ActionKind::Unpushed
    }
}

/// The decision for a branch without an upstream. `merged` says that the
/// remote's default branch contains the branch's tip.
pub open spec fn classify_orphan(merged: bool, is_current: bool, has_default: bool) -> ActionKind {
    if merged {
        if is_current {
            if has_default {
                ActionKind::CheckoutAndDelete
            } else {
                ActionKind::NoDefault
            }
        } else {
            ActionKind::Delete
        }
    } else {
        ActionKind::Unmerged
    }
}

/// The tip of a branch with an upstream once the action has been carried out.
pub open spec fn tip_after(kind: ActionKind, local: Seq<u8>, upstream: Seq<u8>) -> Seq<u8> {
    if kind.moves_tip() {
        upstream
    } else {
        local
    }
}

impl ActionKind {
    /// Whether the action moves the branch to its upstream's tip.
    pub open spec fn moves_tip(self) -> bool {
        self == ActionKind::Merge || self == ActionKind::UpdateRef
    }

    /// Whether the action removes the branch.
    pub open spec fn removes_branch(self) -> bool {
        self == ActionKind::CheckoutAndDelete || self == ActionKind::Delete
    }

    /// Whether the action changes anything in the repository.
    pub open spec fn changes_repository(self) -> bool {
        self.moves_tip() || self.removes_branch()
    }

    /// The word that names the action in `label`.
    pub open spec fn word(self) -> Seq<char> {
        match self {
            ActionKind::UpToDate => "up-to-date"@,
            ActionKind::Merge => "merge "@,
            ActionKind::UpdateRef => "update-ref "@,
            ActionKind::Unpushed => "unpushed"@,
            ActionKind::Unmerged => "unmerged"@,
            ActionKind::CheckoutAndDelete => "checkout-and-delete"@,
            ActionKind::Delete => "delete"@,
            ActionKind::NoDefault => "nodefault"@,
        }
    }

    /// The action's name; that of an action with a target ends in a space, for
    /// the target's name to follow.
    pub fn label(self) -> (text: &'static str)
        ensures
            text@ == self.word(),
    {
        match self {
            ActionKind::UpToDate => "up-to-date",
            ActionKind::Merge => "merge ",
            ActionKind::UpdateRef => "update-ref ",
            ActionKind::Unpushed => "unpushed",
            ActionKind::Unmerged => "unmerged",
            ActionKind::CheckoutAndDelete => "checkout-and-delete",
            ActionKind::Delete => "delete",
            ActionKind::NoDefault => "nodefault",
        }
    }
}

/// What was found of a branch, on which the decision for it rests.
///
/// Whether the branch is checked out is asked only where the decision turns
/// on it; where it was not asked, nothing stands for it.
#[derive(Debug)]
pub enum Basis {
    /// The branch has an upstream: the two tips, and whether the upstream's
    /// descends from the branch's.
    Following { local: CommitId, upstream: CommitId, behind: bool, is_current: Option<bool> },
    /// The branch has no upstream: whether the remote's default branch
    /// contains it, and whether there is a default branch to switch to.
    Orphan { merged: bool, is_current: Option<bool>, has_default: bool },
}

impl Basis {
    /// The decision that rests on what was found.
    pub open spec fn verdict(&self) -> ActionKind {
        match self {
            Basis::Following { local, upstream, behind, is_current } => classify_tracked(
                local@,
                upstream@,
                *behind,
                *is_current == Some(true),
            ),
            Basis::Orphan { merged, is_current, has_default } => classify_orphan(
                *merged,
                *is_current == Some(true),
                *has_default,
            ),
        }
    }

    /// Whether it was asked whether the branch is checked out wherever the
    /// decision turns on it: for a branch strictly behind its upstream, and
    /// for a branch without upstream that is merged.
    pub open spec fn complete(&self) -> bool {
        match self {
            Basis::Following { local, upstream, behind, is_current } => (local@ != upstream@
                && *behind) ==> is_current is Some,
            Basis::Orphan { merged, is_current, .. } => *merged ==> is_current is Some,
        }
    }

    /// The decision that rests on what was found.
    pub fn decide(&self) -> (kind: ActionKind)
        ensures
            kind == self.verdict(),
    {
        match self {
            Basis::Following { local, upstream, behind, is_current } => tracked_kind(
                local,
                upstream,
                *behind,
                asked_and_so(is_current),
            ),
            Basis::Orphan { merged, is_current, has_default } => orphan_kind(
                *merged,
                asked_and_so(is_current),
                *has_default,
            ),
        }
    }
}

/// Whether the question was asked and answered with yes.
pub fn asked_and_so(answer: &Option<bool>) -> (yes: bool)
    ensures
        yes == (*answer == Some(true)),
{
    match answer {
        Some(yes) => *yes,
        None => false,
    }
}

/// Decides for a branch with an upstream, from its tip, the upstream's tip,
/// whether the upstream descends from it and whether it is checked out.
pub fn tracked_kind(local: &CommitId, upstream: &CommitId, behind: bool, is_current: bool) -> (kind:
    ActionKind)
    ensures
        kind == classify_tracked(local@, upstream@, behind, is_current),
        local@ == upstream@ ==> kind == ActionKind::UpToDate,
        local@ != upstream@ && behind ==> (kind == ActionKind::Merge <==> is_current) && (kind
            == ActionKind::UpdateRef <==> !is_current),
        local@ != upstream@ && !behind ==> kind == ActionKind::Unpushed,
{
    if local.same(upstream) {
        ActionKind::UpToDate
    } else if behind {
        if is_current {
            ActionKind::Merge
        } else {
            ActionKind::UpdateRef
        }
    } else {
        ActionKind::Unpushed
    }
}

/// Decides for a branch without an upstream, from whether the remote's default
/// branch contains it, whether it is checked out and whether there is a default
/// branch to switch to.
pub fn orphan_kind(merged: bool, is_current: bool, has_default: bool) -> (kind: ActionKind)
    ensures
        kind == classify_orphan(merged, is_current, has_default),
        kind == ActionKind::CheckoutAndDelete <==> merged && is_current && has_default,
        kind == ActionKind::NoDefault <==> merged && is_current && !has_default,
        kind == ActionKind::Delete <==> merged && !is_current,
        kind == ActionKind::Unmerged <==> !merged,
{
    if merged {
        if is_current {
            if has_default {
                ActionKind::CheckoutAndDelete
            } else {
                ActionKind::NoDefault
            }
        } else {
            ActionKind::Delete
        }
    } else {
        ActionKind::Unmerged
    }
}

/// A branch whose tip is its upstream's is up to date, whichever branch is
/// checked out and whatever is known of their ancestry.
pub proof fn lemma_equal_tips_up_to_date(tip: Seq<u8>, behind: bool, is_current: bool)
    ensures
        classify_tracked(tip, tip, behind, is_current) == ActionKind::UpToDate,
{
}

/// A branch that is strictly behind its upstream is merged where it is checked
/// out and has its reference moved where it is not; either way the branch ends
/// at the upstream's tip.
pub proof fn lemma_behind_is_updated(local: Seq<u8>, upstream: Seq<u8>, is_current: bool)
    requires
        local != upstream,
    ensures
        classify_tracked(local, upstream, true, is_current) == ActionKind::Merge <==> is_current,
        classify_tracked(local, upstream, true, is_current) == ActionKind::UpdateRef
            <==> !is_current,
        tip_after(classify_tracked(local, upstream, true, is_current), local, upstream)
            == upstream,
{
}

/// A branch whose upstream does not descend from it is reported as unpushed,
/// and nothing is changed.
pub proof fn lemma_diverged_is_unpushed(local: Seq<u8>, upstream: Seq<u8>, is_current: bool)
    requires
        local != upstream,
    ensures
        classify_tracked(local, upstream, false, is_current) == ActionKind::Unpushed,
        !classify_tracked(local, upstream, false, is_current).changes_repository(),
        tip_after(classify_tracked(local, upstream, false, is_current), local, upstream) == local,
{
}

/// A branch without an upstream gets one of four decisions and no other, and
/// each of the four is reached.
pub proof fn lemma_orphan_outcomes(merged: bool, is_current: bool, has_default: bool)
    ensures
        ({
            let kind = classify_orphan(merged, is_current, has_default);
            kind == ActionKind::CheckoutAndDelete || kind == ActionKind::NoDefault || kind
                == ActionKind::Delete || kind == ActionKind::Unmerged
        }),
        classify_orphan(true, true, true) == ActionKind::CheckoutAndDelete,
        classify_orphan(true, true, false) == ActionKind::NoDefault,
        classify_orphan(true, false, has_default) == ActionKind::Delete,
        classify_orphan(false, is_current, has_default) == ActionKind::Unmerged,
{
}

/// Once the action for a branch with an upstream has been carried out, a second
/// look at the branch calls for no change: it is up to date, or it is unpushed
/// as before. This holds whichever branch is checked out at the second look;
/// `behind_then` is what the ancestry says at the second look, which is what it
/// said at the first wherever the branch was not moved.
pub proof fn lemma_tracked_settles(
    local: Seq<u8>,
    upstream: Seq<u8>,
    behind: bool,
    is_current: bool,
    behind_then: bool,
    is_current_then: bool,
)
    requires
        !classify_tracked(local, upstream, behind, is_current).moves_tip() ==> behind_then
            == behind,
    ensures
        ({
            let first = classify_tracked(local, upstream, behind, is_current);
            let second = classify_tracked(
                tip_after(first, local, upstream),
                upstream,
                behind_then,
                is_current_then,
            );
            &&& !second.changes_repository()
            &&& first.moves_tip() ==> second == ActionKind::UpToDate
            &&& !first.moves_tip() ==> second == first
        }),
{
}

/// A branch without an upstream that the first look has left in place gets the
/// same decision, which changes nothing, at a second look in the same
/// circumstances.
pub proof fn lemma_orphan_settles(merged: bool, is_current: bool, has_default: bool)
    requires
        !classify_orphan(merged, is_current, has_default).removes_branch(),
    ensures
        !classify_orphan(merged, is_current, has_default).changes_repository(),
        !merged ==> forall|c: bool, d: bool| #[trigger]
            classify_orphan(merged, c, d) == ActionKind::Unmerged,
{
}

/// Where it was not asked whether a branch is checked out, and the basis is
/// complete, the decision is the same whatever the answer would have been.
pub proof fn lemma_unasked_is_idle(basis: Basis, is_current: bool)
    requires
        basis.complete(),
        match basis {
            Basis::Following { is_current: asked, .. } => asked is None,
            Basis::Orphan { is_current: asked, .. } => asked is None,
        },
    ensures
        match basis {
            Basis::Following { local, upstream, behind, .. } => basis.verdict() == classify_tracked(
                local@,
                upstream@,
                behind,
                is_current,
            ),
            Basis::Orphan { merged, has_default, .. } => basis.verdict() == classify_orphan(
                merged,
                is_current,
                has_default,
            ),
        },
{
}

} // verus!
