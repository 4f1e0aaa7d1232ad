//! The synchronisation itself: what is decided for each branch, and how the
//! decisions are carried out one after the other.

use vstd::prelude::*;
use git2::{Branch, Remote};
use crate::action::{
    ActionKind,
    Basis,
    asked_and_so,
    classify_orphan,
    classify_tracked,
    orphan_kind,
    tracked_kind,
};
use crate::err::{GitError, says_absent, says_unconfigured};
use crate::git::{
    Git,
    Range,
    branch_label,
    detached_message,
    is_branch_same,
    remote_label,
    report,
    store_or_name,
};
use crate::oid::{CommitId, hex_of, leading};
use crate::store::{branch_delete, branch_name, branch_reference, reference_tip, remote_name};
use crate::text::{join2, join3};

verus! {

/// What is to be done with a branch, with what it takes to do it: for an
/// update the upstream to move to, and the tip that the branch had.
pub enum BranchAction<'a> {
    /// Nothing: the branch is where its upstream is.
    UpToDate,
    /// Move the working tree and the branch forward to the upstream.
    Merge(Branch<'a>, CommitId),
    /// Move the branch to the upstream and leave the working tree alone.
    UpdateRef(Branch<'a>, CommitId),
    /// Warn that the branch holds commits that its upstream lacks.
    Unpushed,
    /// Switch to the default branch, then delete the branch.
    CheckoutAndDelete,
    /// Warn that there is no default branch to leave the branch for.
    NoDefault,
    /// Delete the branch.
    Delete,
    /// Warn that the branch is gone from the remote but not merged.
    Unmerged,
}

impl<'a> BranchAction<'a> {
    /// Which action this is.
    pub open spec fn spec_kind(&self) -> ActionKind {
        match self {
            BranchAction::UpToDate => ActionKind::UpToDate,
            BranchAction::Merge(_, _) => ActionKind::Merge,
            BranchAction::UpdateRef(_, _) => ActionKind::UpdateRef,
            BranchAction::Unpushed => ActionKind::Unpushed,
            BranchAction::CheckoutAndDelete => ActionKind::CheckoutAndDelete,
            BranchAction::NoDefault => ActionKind::NoDefault,
            BranchAction::Delete => ActionKind::Delete,
            BranchAction::Unmerged => ActionKind::Unmerged,
        }
    }

    /// Which action this is.
    #[verifier::when_used_as_spec(spec_kind)]
    pub fn kind(&self) -> (kind: ActionKind)
        ensures
            kind == self.spec_kind(),
    {
        match self {
            BranchAction::UpToDate => ActionKind::UpToDate,
            BranchAction::Merge(_, _) => ActionKind::Merge,
            BranchAction::UpdateRef(_, _) => ActionKind::UpdateRef,
            BranchAction::Unpushed => ActionKind::Unpushed,
            BranchAction::CheckoutAndDelete => ActionKind::CheckoutAndDelete,
            BranchAction::NoDefault => ActionKind::NoDefault,
            BranchAction::Delete => ActionKind::Delete,
            BranchAction::Unmerged => ActionKind::Unmerged,
        }
    }

    /// The action in words: its name and, for an update, the name of the
    /// upstream, as far as that is text.
    pub fn to_string(&self) -> (text: String)
        ensures
            self.kind().word().is_prefix_of(text@),
            !self.kind().moves_tip() ==> text@ == self.kind().word(),
    {
        let word = self.kind().label();
        let target = match self {
            BranchAction::Merge(upstream, _) | BranchAction::UpdateRef(upstream, _) => {
                match branch_name(upstream) {
                    Ok(Some(name)) => name,
                    _ => String::new(),
                }
            },
            _ => String::new(),
        };
        let text = join2(word, target.as_str());
        assert(text@ =~= word@ + target@);
        text
    }
}

/// The action for a branch with the upstream `upstream`: `range` holds the two
/// tips, `behind` says that the upstream descends from the branch, `is_current`
/// that the branch is checked out.
pub fn tracked_action<'a>(upstream: Branch<'a>, range: &Range, behind: bool, is_current: bool) -> (a:
    BranchAction<'a>)
    ensures
        a.kind() == classify_tracked(range.beg(), range.end(), behind, is_current),
        a matches BranchAction::Merge(target, prior) ==> (target == upstream && prior@
            == range.beg()),
        a matches BranchAction::UpdateRef(target, prior) ==> (target == upstream && prior@
            == range.beg()),
{
    let beg = range.beg_oid();
    let end = range.end_oid();
    match tracked_kind(&beg, &end, behind, is_current) {
        ActionKind::Merge => BranchAction::Merge(upstream, beg),
        ActionKind::UpdateRef => BranchAction::UpdateRef(upstream, beg),
        ActionKind::UpToDate => BranchAction::UpToDate,
        _ => BranchAction::Unpushed,
    }
}

/// The action for a branch without an upstream: `merged` says that the
/// remote's default branch contains it, `is_current` that it is checked out,
/// `has_default` that there is a default branch to switch to.
pub fn orphan_action<'a>(merged: bool, is_current: bool, has_default: bool) -> (a: BranchAction<'a>)
    ensures
        a.kind() == classify_orphan(merged, is_current, has_default),
{
    match orphan_kind(merged, is_current, has_default) {
        ActionKind::CheckoutAndDelete => BranchAction::CheckoutAndDelete,
        ActionKind::NoDefault => BranchAction::NoDefault,
        ActionKind::Delete => BranchAction::Delete,
        _ => BranchAction::Unmerged,
    }
}

/// What a branch is held against: its upstream, or, for want of one, the
/// remote's default branch.
pub enum Link<'a> {
    /// The branch has this upstream.
    Found(Branch<'a>),
    /// The branch has none: a reference or a configuration key is missing.
    Absent,
    /// The search for the upstream failed in another way.
    Broken(GitError),
}

/// What the outcome of the search for an upstream means: an upstream that was
/// found is the link; a failure that only says that a reference or a
/// configuration key is missing means that there is no link; any other
/// failure stands.
pub fn link_of<'a>(lookup: Result<Branch<'a>, GitError>) -> (link: Link<'a>)
    ensures
        lookup matches Ok(upstream) ==> link == Link::Found(upstream),
        lookup matches Err(e) ==> (if says_absent(e.class(), e.code()) {
            link is Absent
        } else {
            link == Link::Broken(e)
        }),
{
    match lookup {
        Ok(upstream) => Link::Found(upstream),
        Err(e) => {
            if e.is_absent() {
                Link::Absent
            } else {
                Link::Broken(e)
            }
        },
    }
}

/// The tip that an update started from; for other actions nothing.
pub open spec fn prior_tip(action: BranchAction) -> Seq<u8> {
    match action {
        BranchAction::Merge(_, prior) => prior@,
        BranchAction::UpdateRef(_, prior) => prior@,
        _ => Seq::empty(),
    }
}

/// Finds out what the decision for `branch` rests on, and decides.
///
/// Where the branch has an upstream it is held against that; where the
/// repository only says that there is none, it is held against
/// `remote_default_branch`; any other failure to find the upstream is
/// returned. Whether the branch is `current_branch` is asked only where the
/// decision turns on it.
///
/// What is found is the repository's answer. Whatever it is, the action is the
/// one that the table gives for it, an update starts from the branch's tip as
/// it was found, and a default branch counts as there exactly where
/// `odefault_branch` is one.
pub fn judge<'a>(
    git: &'a Git,
    branch: &Branch<'a>,
    current_branch: &Branch,
    remote_default_branch: &Branch,
    odefault_branch: Option<&Branch<'a>>,
) -> (r: Result<(BranchAction<'a>, Basis), GitError>)
    ensures
        r matches Ok((action, basis)) ==> {
            &&& action.kind() == basis.verdict()
            &&& basis.complete()
            &&& action.kind().moves_tip() ==> (basis matches Basis::Following { local, .. }
                && prior_tip(action) == local@)
            &&& basis matches Basis::Orphan { has_default, .. } ==> has_default
                == (odefault_branch is Some)
        },
        r matches Err(e) ==> e.is_reported(),
{
    match link_of(git.upstream(branch)) {
        Link::Found(upstream) => {
            let range = git.new_range(branch, &upstream)?;
            let behind = range.is_ancestor()?;
            let is_current = if behind && !range.is_identical() {
                Some(is_branch_same(branch, current_branch)?)
            } else {
                None
            };
            let action = tracked_action(upstream, &range, behind, asked_and_so(&is_current));
            let basis = Basis::Following {
                local: range.beg_oid(),
                upstream: range.end_oid(),
                behind,
                is_current,
            };
            Ok((action, basis))
        },
        Link::Absent => {
            let range = git.new_range(branch, remote_default_branch)?;
            let merged = range.is_ancestor()?;
            let is_current = if merged {
                Some(is_branch_same(branch, current_branch)?)
            } else {
                None
            };
            let has_default = odefault_branch.is_some();
            let action = orphan_action(merged, asked_and_so(&is_current), has_default);
            Ok((action, Basis::Orphan { merged, is_current, has_default }))
        },
        Link::Broken(e) => Err(e),
    }
}

/// Decides what is to be done with `branch`.
///
/// Where the branch has an upstream it is held against that; where the
/// repository only says that there is none, it is held against
/// `remote_default_branch`; any other failure to find the upstream is returned.
/// Whatever the repository says, a branch is only to be left for
/// `odefault_branch` where there is one, and the only failures are those that
/// the repository reports.
pub fn find_branch_action<'a>(
    git: &'a Git,
    branch: &Branch<'a>,
    current_branch: &Branch,
    remote_default_branch: &Branch,
    odefault_branch: Option<&Branch<'a>>,
) -> (r: Result<BranchAction<'a>, GitError>)
    ensures
        r matches Ok(a) ==> {
            &&& a.kind() == ActionKind::CheckoutAndDelete ==> odefault_branch is Some
            &&& a.kind() == ActionKind::NoDefault ==> odefault_branch is None
        },
        r matches Err(e) ==> e.is_reported(),
{
    match judge(git, branch, current_branch, remote_default_branch, odefault_branch) {
        Ok((action, _)) => Ok(action),
        Err(e) => Err(e),
    }
}

/// The remote to synchronise with: the only remote of the repository, else
/// the remote of the branch that is checked out.
pub fn find_default_remote(git: &Git) -> (r: Result<Remote<'_>, GitError>)
    ensures
        r matches Err(e) ==> store_or_name(e) || e.is_own(detached_message()),
{
    if let Some(remote) = git.only_one_remote()? {
        Ok(remote)
    } else {
        let branch = git.current_branch()?;
        git.remote(&branch)
    }
}

/// A line of the report on a run.
#[derive(Debug)]
pub enum Notice {
    /// A branch was moved to its upstream; `was` is the tip it had.
    Updated { name: String, was: CommitId },
    /// A branch was deleted; `was` is the tip it had.
    Deleted { name: String, was: CommitId },
    /// A branch was left alone because it holds unpushed commits.
    Unpushed { name: String },
    /// A branch was left alone because `default`, the default branch of
    /// `remote`, does not contain it.
    Unmerged { name: String, remote: String, default: String },
    /// A branch was left alone because there is no branch to switch to.
    NoDefault { name: String },
}

/// The parts of a line, in their order: the leading words, what separates
/// them from the name, the name that the line stresses, and the rest.
#[derive(Debug)]
pub struct Parts {
    /// The words that say what kind of line it is.
    pub lead: String,
    /// A space before the stressed name, nothing where there is none.
    pub sep: String,
    /// The name of the branch where the line tells of a change to it.
    pub accent: String,
    /// The rest of the line.
    pub tail: String,
}

impl Notice {
    /// The words that say what kind of line it is.
    pub open spec fn lead(&self) -> Seq<char> {
        match self {
            Notice::Updated { .. } => "Updated branch"@,
            Notice::Deleted { .. } => "Deleted branch"@,
            _ => "warning"@,
        }
    }

    /// A space before the stressed name, nothing where there is none.
    pub open spec fn sep(&self) -> Seq<char> {
        match self {
            Notice::Updated { .. } | Notice::Deleted { .. } => " "@,
            _ => Seq::empty(),
        }
    }

    /// The name of the branch where the line tells of a change to it.
    pub open spec fn accent(&self) -> Seq<char> {
        match self {
            Notice::Updated { name, .. } => name@,
            Notice::Deleted { name, .. } => name@,
            _ => Seq::empty(),
        }
    }

    /// The rest of the line: for a change the first seven characters of the
    /// tip that the branch had, for a warning its wording.
    pub open spec fn tail(&self) -> Seq<char> {
        match self {
            Notice::Updated { was, .. } => " (was "@ + leading(hex_of(was@), 7) + ")"@,
            Notice::Deleted { was, .. } => " (was "@ + leading(hex_of(was@), 7) + ")"@,
            Notice::Unpushed { name } => ": '"@ + name@ + "' seems to contain unpushed commits"@,
            Notice::Unmerged { name, remote, default } => ": '"@ + name@ + "' was deleted on "@
                + remote@ + ", but appears not merged into '"@ + default@ + "'"@,
            Notice::NoDefault { name } => ": no default branch, skipping to delete '"@ + name@
                + "'"@,
        }
    }

    /// The line without colours: its parts one after the other.
    pub open spec fn line(&self) -> Seq<char> {
        self.lead() + self.sep() + self.accent() + self.tail()
    }

    /// The parts of the line, for a caller that sets them off from one
    /// another.
    pub fn parts(&self) -> (parts: Parts)
        ensures
            parts.lead@ == self.lead(),
            parts.sep@ == self.sep(),
            parts.accent@ == self.accent(),
            parts.tail@ == self.tail(),
    {
        match self {
            Notice::Updated { name, was } => Parts {
                lead: String::from_str("Updated branch"),
                sep: String::from_str(" "),
                accent: name.clone(),
                tail: was_text(was),
            },
            Notice::Deleted { name, was } => Parts {
                lead: String::from_str("Deleted branch"),
                sep: String::from_str(" "),
                accent: name.clone(),
                tail: was_text(was),
            },
            Notice::Unpushed { name } => Parts {
                lead: String::from_str("warning"),
                sep: String::new(),
                accent: String::new(),
                tail: join3(": '", name.as_str(), "' seems to contain unpushed commits"),
            },
            Notice::Unmerged { name, remote, default } => {
                let mut tail = join3(": '", name.as_str(), "' was deleted on ");
                tail.append(remote.as_str());
                tail.append(", but appears not merged into '");
                tail.append(default.as_str());
                tail.append("'");
                Parts {
                    lead: String::from_str("warning"),
                    sep: String::new(),
                    accent: String::new(),
                    tail,
                }
            },
            Notice::NoDefault { name } => Parts {
                lead: String::from_str("warning"),
                sep: String::new(),
                accent: String::new(),
                tail: join3(": no default branch, skipping to delete '", name.as_str(), "'"),
            },
        }
    }

    /// The line without colours.
    pub fn text(&self) -> (out: String)
        ensures
            out@ == self.line(),
    {
        let parts = self.parts();
        let mut out = join3(parts.lead.as_str(), parts.sep.as_str(), parts.accent.as_str());
        out.append(parts.tail.as_str());
        out
    }
}

fn was_text(was: &CommitId) -> (out: String)
    ensures
        out@ == " (was "@ + leading(hex_of(was@), 7) + ")"@,
{
    let short = was.abbrev(7);
    join3(" (was ", short.as_str(), ")")
}

/// Which branch is checked out, and which local branch stands for the remote's
/// default branch, as a run goes on.
pub struct SyncState<'a> {
    /// The branch that is checked out.
    pub current_branch: Branch<'a>,
    /// The local branch to switch to when the checked-out branch is deleted,
    /// as long as there is one and it has not been used.
    pub default_branch: Option<Branch<'a>>,
}

impl<'a> SyncState<'a> {
    /// The state once the checked-out branch has been left for the default
    /// branch: the default branch is checked out, and it is used up. Without a
    /// default branch nothing changes.
    pub open spec fn after_switch(self) -> SyncState<'a> {
        SyncState {
            current_branch: match self.default_branch {
                Some(default) => default,
                None => self.current_branch,
            },
            default_branch: None,
        }
    }

    /// The state once a branch has been moved and is now `updated`: where the
    /// branch is the default branch, `updated` takes its place.
    pub open spec fn after_move(self, updated: Branch<'a>, is_default: bool) -> SyncState<'a> {
        if is_default && self.default_branch is Some {
            SyncState { current_branch: self.current_branch, default_branch: Some(updated) }
        } else {
            self
        }
    }

    /// The state at the start of a run.
    pub fn new(current_branch: Branch<'a>, default_branch: Option<Branch<'a>>) -> (state: Self)
        ensures
            state.current_branch == current_branch,
            state.default_branch == default_branch,
    {
        SyncState { current_branch, default_branch }
    }

    /// Takes note that the default branch has been checked out.
    pub fn switched(self) -> (next: Self)
        ensures
            next == self.after_switch(),
    {
        match self.default_branch {
            Some(default) => SyncState { current_branch: default, default_branch: None },
            None => SyncState { current_branch: self.current_branch, default_branch: None },
        }
    }

    /// Takes note that a branch has been moved and is now `updated`;
    /// `is_default` says that it is the default branch.
    pub fn moved(self, updated: Branch<'a>, is_default: bool) -> (next: Self)
        ensures
            next == self.after_move(updated, is_default),
    {
        if is_default && self.default_branch.is_some() {
            SyncState { current_branch: self.current_branch, default_branch: Some(updated) }
        } else {
            self
        }
    }
}

/// Whether the line `notice` is the report that an action of kind `kind`
/// leaves, `prior` being the tip that an update started from.
pub open spec fn reports(notice: Option<Notice>, kind: ActionKind, prior: Seq<u8>) -> bool {
    match kind {
        ActionKind::UpToDate => notice is None,
        ActionKind::Merge | ActionKind::UpdateRef => notice matches Some(
            Notice::Updated { was, .. },
        ) && was@ == prior,
        ActionKind::Unpushed => notice matches Some(Notice::Unpushed { .. }),
        ActionKind::Unmerged => notice matches Some(Notice::Unmerged { .. }),
        ActionKind::CheckoutAndDelete | ActionKind::Delete => notice matches Some(
            Notice::Deleted { .. },
        ),
        ActionKind::NoDefault => notice matches Some(Notice::NoDefault { .. }),
    }
}

/// Whether two remotes' names, each absent where the remote has none, agree.
pub open spec fn same_name(a: Option<String>, b: Option<String>) -> bool {
    match (a, b) {
        (Some(x), Some(y)) => x@ == y@,
        (None, None) => true,
        _ => false,
    }
}

/// Whether a branch of the remote called `remote` takes part in a run that
/// synchronises with `default_remote` and, where there is one, with
/// `alternate_remote`.
pub open spec fn takes_part(
    remote: Option<String>,
    default_remote: Option<String>,
    alternate_remote: Option<Option<String>>,
) -> bool {
    same_name(remote, default_remote) || (alternate_remote matches Some(alternate) && same_name(
        remote,
        alternate,
    ))
}

fn names_agree(a: &Option<String>, b: &Option<String>) -> (eq: bool)
    ensures
        eq == same_name(*a, *b),
{
    match (a, b) {
        (Some(x), Some(y)) => *x == *y,
        (None, None) => true,
        _ => false,
    }
}

/// Whether a branch of the remote called `remote` takes part in the run.
pub fn concerns(
    remote: &Option<String>,
    default_remote: &Option<String>,
    alternate_remote: &Option<Option<String>>,
) -> (b: bool)
    ensures
        b == takes_part(*remote, *default_remote, *alternate_remote),
{
    if names_agree(remote, default_remote) {
        true
    } else {
        match alternate_remote {
            Some(alternate) => names_agree(remote, alternate),
            None => false,
        }
    }
}

/// Deletes `branch` and reports it.
pub fn action_delete(branch: &mut Branch) -> (r: Result<Notice, GitError>)
    ensures
        r matches Ok(notice) ==> notice is Deleted,
        r matches Err(e) ==> store_or_name(e),
{
    if let Err(e) = branch_delete(branch) {
        return Err(report(&e));
    }
    let name = branch_label(branch)?;
    match reference_tip(branch_reference(branch)) {
        Ok(was) => Ok(Notice::Deleted { name, was }),
        Err(e) => Err(report(&e)),
    }
}

/// Carries out `action` on `branch`, a branch of `remote`, and returns the
/// state that the run goes on with and the line to report.
///
/// Only two actions change the state: leaving the branch for the default
/// branch, which uses the default branch up, and moving a branch that is not
/// checked out, which renews the default branch where the two are one. For a
/// branch that is up to date nothing is done, so nothing can fail.
pub fn carry_out<'a>(
    git: &Git,
    state: SyncState<'a>,
    branch: &mut Branch<'a>,
    action: BranchAction<'a>,
    remote: &Remote,
    remote_default_branch: &Branch,
) -> (r: Result<(SyncState<'a>, Option<Notice>), GitError>)
    ensures
        r matches Ok((next, notice)) ==> {
            &&& reports(notice, action.kind(), prior_tip(action))
            &&& action.kind() == ActionKind::CheckoutAndDelete ==> next == state.after_switch()
            &&& action.kind() == ActionKind::UpdateRef ==> exists|updated: Branch<'a>, same: bool|
                next == #[trigger] state.after_move(updated, same)
            &&& action.kind() != ActionKind::CheckoutAndDelete && action.kind()
                != ActionKind::UpdateRef ==> next == state
        },
        action.kind() == ActionKind::UpToDate ==> (r matches Ok((next, None)) && next == state),
        r matches Err(e) ==> store_or_name(e),
{
    match action {
        BranchAction::UpToDate => Ok((state, None)),
        BranchAction::Merge(upstream, was) => {
            git.fastforward(branch, &upstream)?;
            let name = branch_label(branch)?;
            Ok((state, Some(Notice::Updated { name, was })))
        },
        BranchAction::UpdateRef(upstream, was) => {
            let updated = git.update_ref(branch, &upstream)?;
            let same = match &state.default_branch {
                Some(default) => is_branch_same(branch, default)?,
                None => false,
            };
            let next = state.moved(updated, same);
            let name = branch_label(branch)?;
            Ok((next, Some(Notice::Updated { name, was })))
        },
        BranchAction::Unpushed => {
            let name = branch_label(branch)?;
            Ok((state, Some(Notice::Unpushed { name })))
        },
        BranchAction::Unmerged => {
            let name = branch_label(branch)?;
            let remote = remote_label(remote)?;
            let default = branch_label(remote_default_branch)?;
            Ok((state, Some(Notice::Unmerged { name, remote, default })))
        },
        BranchAction::CheckoutAndDelete => {
            if let Some(default) = &state.default_branch {
                git.checkout(default)?;
            }
            let next = state.switched();
            let notice = action_delete(branch)?;
            Ok((next, Some(notice)))
        },
        BranchAction::Delete => {
            let notice = action_delete(branch)?;
            Ok((state, Some(notice)))
        },
        BranchAction::NoDefault => {
            let name = branch_label(branch)?;
            Ok((state, Some(Notice::NoDefault { name })))
        },
    }
}

/// What a run did with one branch: what was found of it, the decision, and
/// the line that tells of it.
#[derive(Debug)]
pub struct Record {
    /// What was decided and carried out.
    pub kind: ActionKind,
    /// What was found of the branch, on which the decision rests.
    pub basis: Basis,
    /// The line to report; nothing where the branch was up to date.
    pub notice: Option<Notice>,
}

impl Record {
    /// Whether the record hangs together: the decision is the one that the
    /// table gives for what was found, the line is the one that the decision
    /// calls for, and the line of an update shows the tip that was found.
    pub open spec fn fits(&self) -> bool {
        &&& self.kind == self.basis.verdict()
        &&& self.basis.complete()
        &&& self.told()
        &&& self.notice matches Some(Notice::Updated { was, .. }) ==> (self.basis matches Basis::Following {
            local,
            ..
        } && was@ == local@)
    }

    /// Whether the line is the one that the decision calls for.
    pub open spec fn told(&self) -> bool {
        match self.kind {
            ActionKind::UpToDate => self.notice is None,
            ActionKind::Merge | ActionKind::UpdateRef => self.notice matches Some(
                Notice::Updated { .. },
            ),
            ActionKind::Unpushed => self.notice matches Some(Notice::Unpushed { .. }),
            ActionKind::Unmerged => self.notice matches Some(Notice::Unmerged { .. }),
            ActionKind::CheckoutAndDelete | ActionKind::Delete => self.notice matches Some(
                Notice::Deleted { .. },
            ),
            ActionKind::NoDefault => self.notice matches Some(Notice::NoDefault { .. }),
        }
    }
}

/// What the outcome of the search for a branch's remote means for a run: a
/// branch for which only a configuration key is missing has no remote and is
/// passed over; any other failure ends the run.
pub fn remote_or_skip<'a>(lookup: Result<Remote<'a>, GitError>) -> (r: Result<
    Option<Remote<'a>>,
    GitError,
>)
    ensures
        lookup matches Ok(remote) ==> r == Ok::<Option<Remote<'a>>, GitError>(Some(remote)),
        lookup matches Err(e) ==> (if says_unconfigured(e.class(), e.code()) {
            r matches Ok(None)
        } else {
            r == Err::<Option<Remote<'a>>, GitError>(e)
        }),
{
    match lookup {
        Ok(remote) => Ok(Some(remote)),
        Err(e) => {
            if e.is_unconfigured() {
                Ok(None)
            } else {
                Err(e)
            }
        },
    }
}

/// Deals with one branch of a run: skips it where it has no remote or another
/// remote than those of the run, else decides what to do and does it.
///
/// A branch that is skipped leaves no record and the state as it was. The
/// checked-out branch is left for the default branch only while there is one,
/// and found to lack one only while there is none.
pub fn sync_branch<'a>(
    git: &'a Git,
    state: SyncState<'a>,
    branch: &mut Branch<'a>,
    default_remote: &Option<String>,
    alternate_remote: &Option<Option<String>>,
    remote_default_branch: &Branch,
) -> (r: Result<(SyncState<'a>, Option<Record>), GitError>)
    ensures
        r matches Ok((next, None)) ==> next == state,
        r matches Ok((next, Some(record))) ==> {
            &&& record.fits()
            &&& record.kind == ActionKind::CheckoutAndDelete ==> state.default_branch is Some
                && next == state.after_switch()
            &&& record.kind == ActionKind::NoDefault ==> state.default_branch is None
            &&& record.basis matches Basis::Orphan { has_default, .. } ==> has_default
                == (state.default_branch is Some)
            &&& record.kind == ActionKind::UpdateRef ==> exists|updated: Branch<'a>, same: bool|
                next == #[trigger] state.after_move(updated, same)
            &&& record.kind != ActionKind::CheckoutAndDelete && record.kind
                != ActionKind::UpdateRef ==> next == state
        },
        r matches Err(e) ==> store_or_name(e),
{
    let remote = match remote_or_skip(git.remote(branch))? {
        Some(remote) => remote,
        None => return Ok((state, None)),
    };
    let name = remote_name(&remote);
    if !concerns(&name, default_remote, alternate_remote) {
        return Ok((state, None));
    }
    let (action, basis) = judge(
        git,
        branch,
        &state.current_branch,
        remote_default_branch,
        state.default_branch.as_ref(),
    )?;
    let kind = action.kind();
    let (next, notice) = carry_out(git, state, branch, action, &remote, remote_default_branch)?;
    Ok((next, Some(Record { kind, basis, notice })))
}

/// The remote's default branch, the local branch to switch to, and the second
/// remote of a run.
pub struct Defaults<'a> {
    /// The remote branch that the remote names as its default.
    pub remote_default_branch: Branch<'a>,
    /// The local branch that stands for it, where one was found.
    pub default_branch: Option<Branch<'a>>,
    /// The remote of that local branch, where it was found by its name alone.
    pub alternate_remote: Option<Remote<'a>>,
}

/// The names under which a local branch is taken for the default branch
/// where none follows the remote's: `main` first, `master` second.
pub open spec fn fallback_name_of(second: bool) -> Seq<char> {
    if second {
        "master"@
    } else {
        "main"@
    }
}

/// The first or the second of the names under which a local branch is taken
/// for the default branch.
pub fn fallback_name(second: bool) -> (name: &'static str)
    ensures
        name@ == fallback_name_of(second),
{
    if second {
        "master"
    } else {
        "main"
    }
}

/// The first of two lookups that found something: what `first` found, else
/// what `second` found, else nothing. The failures count for nothing more
/// than that nothing was found.
pub fn first_found<'a>(
    first: Result<(Branch<'a>, Remote<'a>), GitError>,
    second: Result<(Branch<'a>, Remote<'a>), GitError>,
) -> (found: Option<(Branch<'a>, Remote<'a>)>)
    ensures
        first matches Ok(pair) ==> found == Some(pair),
        first is Err ==> (match second {
            Ok(pair) => found == Some(pair),
            Err(_) => found is None,
        }),
{
    match first {
        Ok(pair) => Some(pair),
        Err(_) => match second {
            Ok(pair) => Some(pair),
            Err(_) => None,
        },
    }
}

/// The defaults of a run, from what was found: `follower` is the local branch
/// that follows the remote's default branch, where there is one, and
/// `by_name` the local branch that was found by a fallback name, with its
/// remote. A follower comes first, and with it there is no second remote; a
/// branch found by its name brings its remote as the second one.
pub fn settle_defaults<'a>(
    remote_default_branch: Branch<'a>,
    follower: Option<Branch<'a>>,
    by_name: Option<(Branch<'a>, Remote<'a>)>,
) -> (found: Defaults<'a>)
    ensures
        found.remote_default_branch == remote_default_branch,
        follower is Some ==> found.default_branch == follower && found.alternate_remote is None,
        follower is None ==> (match by_name {
            Some((branch, remote)) => found.default_branch == Some(branch)
                && found.alternate_remote == Some(remote),
            None => found.default_branch is None && found.alternate_remote is None,
        }),
{
    match follower {
        Some(branch) => Defaults {
            remote_default_branch,
            default_branch: Some(branch),
            alternate_remote: None,
        },
        None => match by_name {
            Some((branch, remote)) => Defaults {
                remote_default_branch,
                default_branch: Some(branch),
                alternate_remote: Some(remote),
            },
            None => Defaults {
                remote_default_branch,
                default_branch: None,
                alternate_remote: None,
            },
        },
    }
}

/// Finds the default branch of `default_remote` and a local branch that
/// stands for it: one that follows it, else the local branch of the first
/// fallback name, else that of the second, each with a remote of its own.
/// It fails only where the remote's default branch cannot be found.
pub fn find_defaults<'a>(git: &'a Git, default_remote: &Remote) -> (r: Result<
    Defaults<'a>,
    GitError,
>)
    ensures
        r matches Ok(found) ==> (found.alternate_remote is Some ==> found.default_branch is Some),
        r matches Err(e) ==> store_or_name(e),
{
    let (remote_default_branch, follower) = git.default_branch(default_remote)?;
    let first = git.branch_and_remote(fallback_name(false));
    let second = git.branch_and_remote(fallback_name(true));
    Ok(settle_defaults(remote_default_branch, follower, first_found(first, second)))
}

/// The words that every line on the remote's default branch begins with.
pub open spec fn default_intro() -> Seq<char> {
    "remote default: "@
}

/// The line for a local branch `local` that follows the remote's default
/// branch.
pub open spec fn follower_text(local: Seq<char>) -> Seq<char> {
    default_intro() + local
}

/// The line for a remote default branch `default` that no local branch
/// follows, where the branch `local` of the remote `remote` is used for it.
pub open spec fn named_text(default: Seq<char>, remote: Seq<char>, local: Seq<char>) -> Seq<char> {
    default_intro() + default + " (use local "@ + remote + "/"@ + local + ")"@
}

/// The line for a remote default branch `default` that has no local branch.
pub open spec fn missing_text(default: Seq<char>) -> Seq<char> {
    default_intro() + default + " (no local)"@
}

/// The line for a local branch that follows the remote's default branch.
pub fn follower_line(local: &str) -> (line: String)
    ensures
        line@ == follower_text(local@),
{
    join2("remote default: ", local)
}

/// The line for a remote default branch `default` that no local branch
/// follows, where the branch `local` of the remote `remote` is used for it.
pub fn named_line(default: &str, remote: &str, local: &str) -> (line: String)
    ensures
        line@ == named_text(default@, remote@, local@),
{
    let mut line = join3("remote default: ", default, " (use local ");
    line.append(remote);
    line.append("/");
    line.append(local);
    line.append(")");
    line
}

/// The line for a remote default branch `default` that has no local branch.
pub fn missing_line(default: &str) -> (line: String)
    ensures
        line@ == missing_text(default@),
{
    join3("remote default: ", default, " (no local)")
}

impl<'a> Defaults<'a> {
    /// Whether `line` is a line that tells of these defaults, whatever the
    /// branches and the remote are called: the line of a follower where a
    /// local branch follows the remote's default, that of a branch taken by
    /// its name where there is a second remote, and else that of a default
    /// without a local branch.
    pub open spec fn told_by(&self, line: Seq<char>) -> bool {
        if self.default_branch is None {
            exists|default: Seq<char>| line == #[trigger] missing_text(default)
        } else if self.alternate_remote is None {
            exists|local: Seq<char>| line == #[trigger] follower_text(local)
        } else {
            exists|default: Seq<char>, remote: Seq<char>, local: Seq<char>|
                line == #[trigger] named_text(default, remote, local)
        }
    }

    /// The line that tells which default branch a run goes by. It fails where
    /// a name that the line needs cannot be had as text.
    pub fn headline(&self) -> (r: Result<String, GitError>)
        ensures
            r matches Ok(line) ==> default_intro().is_prefix_of(line@) && self.told_by(line@),
            r matches Err(e) ==> store_or_name(e),
    {
        match (&self.default_branch, &self.alternate_remote) {
            (Some(local), None) => {
                let local = branch_label(local)?;
                Ok(follower_line(local.as_str()))
            },
            (Some(local), Some(remote)) => {
                let default = branch_label(&self.remote_default_branch)?;
                let remote = remote_label(remote)?;
                let local = branch_label(local)?;
                Ok(named_line(default.as_str(), remote.as_str(), local.as_str()))
            },
            (None, _) => {
                let default = branch_label(&self.remote_default_branch)?;
                Ok(missing_line(default.as_str()))
            },
        }
    }
}

/// Whether the outcome tells of a switch to the default branch.
pub open spec fn switches(outcome: Option<Record>) -> bool {
    outcome matches Some(record) && record.kind == ActionKind::CheckoutAndDelete
}

/// Whether one of the first `n` outcomes tells of a switch to the default
/// branch.
pub open spec fn switched_before(outcomes: Seq<Option<Record>>, n: int) -> bool {
    exists|i: int| 0 <= i < n && i < outcomes.len() && switches(#[trigger] outcomes[i])
}

/// Whether the record respects what went before: its line fits its decision;
/// the checked-out branch is left for the default branch only where the run
/// has one left, and a default branch is missed only where it has none.
pub open spec fn in_order(record: Record, has_default: bool) -> bool {
    &&& record.fits()
    &&& record.kind == ActionKind::CheckoutAndDelete ==> has_default
    &&& record.kind == ActionKind::NoDefault ==> !has_default
    &&& record.basis matches Basis::Orphan { has_default: found, .. } ==> found == has_default
}

/// Whether the outcomes of a run are in order. An outcome is the record of
/// what was done with a branch, or nothing for a branch that was passed over.
/// Each record respects what went before it, a run having a default branch
/// left where it began with one and has not switched to it.
pub open spec fn orderly(outcomes: Seq<Option<Record>>, had_default: bool) -> bool {
    forall|j: int|
        0 <= j < outcomes.len() ==> ((#[trigger] outcomes[j]) matches Some(record) ==> in_order(
            record,
            had_default && !switched_before(outcomes, j),
        ))
}

/// Deals with the branches `branches` one after the other, beginning in the
/// state `state`.
///
/// On success there is one outcome for each branch, in the order of the
/// branches. A failure ends the run, and the outcomes are those of the
/// branches before the one that failed. Either way they are in order: the
/// default branch is switched to at most once.
pub fn sync_all<'a>(
    git: &'a Git,
    state: SyncState<'a>,
    branches: Vec<Branch<'a>>,
    default_remote: &Option<String>,
    alternate_remote: &Option<Option<String>>,
    remote_default_branch: &Branch,
) -> (out: (Vec<Option<Record>>, Result<(), GitError>))
    ensures
        orderly(out.0@, state.default_branch is Some),
        out.1 is Ok ==> out.0@.len() == branches@.len(),
        out.1 matches Err(e) ==> store_or_name(e) && out.0@.len() < branches@.len(),
{
    let ghost had_default = state.default_branch is Some;
    let ghost total = branches@.len();
    let mut outcomes: Vec<Option<Record>> = Vec::new();
    let mut rest = branches;
    let mut now = state;
    while rest.len() > 0
        invariant
            had_default == (state.default_branch is Some),
            total == branches@.len(),
            outcomes@.len() + rest@.len() == total,
            orderly(outcomes@, had_default),
            now.default_branch is Some <==> had_default && !switched_before(
                outcomes@,
                outcomes@.len() as int,
            ),
        decreases rest.len(),
    {
        let mut branch = rest.remove(0);
        match sync_branch(
            git,
            now,
            &mut branch,
            default_remote,
            alternate_remote,
            remote_default_branch,
        ) {
            Ok((next, outcome)) => {
                let ghost before = outcomes@;
                outcomes.push(outcome);
                proof {
                    lemma_orderly_push(before, outcome, had_default);
                }
                now = next;
            },
            Err(e) => {
                return (outcomes, Err(e));
            },
        }
    }
    (outcomes, Ok(()))
}

/// Synchronises every local branch of `default_remote`, and of the second
/// remote where there is one, after both have been fetched.
///
/// The branches are taken in the order in which the repository lists them.
/// The run ends at the first failure; the outcomes of what was done until
/// then are returned beside it. Whatever the repository holds, the outcomes
/// are in order: the default branch is switched to at most once.
pub fn hubsync<'a>(
    git: &'a Git,
    current_branch: Branch<'a>,
    default_remote: &Remote,
    defaults: Defaults<'a>,
) -> (out: (Vec<Option<Record>>, Result<(), GitError>))
    ensures
        orderly(out.0@, defaults.default_branch is Some),
        out.1 matches Err(e) ==> store_or_name(e),
{
    let branches = match git.local_branches() {
        Ok(list) => list,
        Err(e) => return (Vec::new(), Err(e)),
    };
    let default_name = remote_name(default_remote);
    let alternate_name = match &defaults.alternate_remote {
        Some(remote) => Some(remote_name(remote)),
        None => None,
    };
    let state = SyncState::new(current_branch, defaults.default_branch);
    sync_all(
        git,
        state,
        branches,
        &default_name,
        &alternate_name,
        &defaults.remote_default_branch,
    )
}

/// Adding an outcome that respects the state of the run keeps the outcomes in
/// order.
proof fn lemma_orderly_push(before: Seq<Option<Record>>, outcome: Option<Record>, had_default: bool)
    requires
        orderly(before, had_default),
        outcome matches Some(record) ==> in_order(
            record,
            had_default && !switched_before(before, before.len() as int),
        ),
    ensures
        orderly(before.push(outcome), had_default),
        switched_before(before.push(outcome), before.len() as int + 1) <==> (switched_before(
            before,
            before.len() as int,
        ) || switches(outcome)),
{
    let after = before.push(outcome);
    assert forall|j: int| 0 <= j <= before.len() implies (switched_before(after, j)
        <==> switched_before(before, j)) by {
        if switched_before(after, j) {
            let i = choose|i: int| 0 <= i < j && i < after.len() && switches(#[trigger] after[i]);
            assert(switches(before[i]));
        }
        if switched_before(before, j) {
            let i = choose|i: int| 0 <= i < j && i < before.len() && switches(#[trigger] before[i]);
            assert(switches(after[i]));
        }
    }
    assert forall|j: int| 0 <= j < after.len() implies ((#[trigger] after[j]) matches Some(
        record,
    ) ==> in_order(record, had_default && !switched_before(after, j))) by {
        if j < before.len() {
            assert(after[j] == before[j]);
        }
    }
    if switches(outcome) {
        assert(switches(after[before.len() as int]));
    }
    if switched_before(after, before.len() as int + 1) && !switches(outcome) {
        let i = choose|i: int|
            0 <= i < before.len() + 1 && i < after.len() && switches(#[trigger] after[i]);
        assert(i < before.len());
        assert(switches(before[i]));
    }
    if switched_before(before, before.len() as int) {
        let i = choose|i: int|
            0 <= i < before.len() && i < before.len() && switches(#[trigger] before[i]);
        assert(switches(after[i]));
    }
}

/// What a record that hangs together says, decision by decision: what was
/// found of the branch, and which line tells of it.
///
/// A branch is up to date exactly where it has an upstream with its own tip,
/// and then there is no line. It is updated exactly where its upstream's tip
/// differs from and descends from its own, by a merge where it is checked out
/// and by a move of the reference where it is not, and the line shows the tip
/// that it had. It is unpushed exactly where the upstream's tip differs and
/// does not descend from its own. Without an upstream it is unmerged where the
/// remote's default branch does not contain it, deleted where it does and the
/// branch is not checked out, left for the default branch where it is checked
/// out and there is one, and warned of where there is none.
pub proof fn lemma_record_reads(record: Record)
    requires
        record.fits(),
    ensures
        record.kind == ActionKind::UpToDate <==> (record.basis matches Basis::Following {
            local,
            upstream,
            ..
        } && local@ == upstream@),
        record.kind == ActionKind::UpToDate ==> record.notice is None,
        record.kind.moves_tip() <==> (record.basis matches Basis::Following {
            local,
            upstream,
            behind,
            ..
        } && local@ != upstream@ && behind),
        record.kind.moves_tip() ==> (record.basis matches Basis::Following {
            local,
            is_current,
            ..
        } && (record.kind == ActionKind::Merge <==> is_current == Some(true)) && (
        record.notice matches Some(Notice::Updated { was, .. }) && was@ == local@)),
        record.kind == ActionKind::Unpushed <==> (record.basis matches Basis::Following {
            local,
            upstream,
            behind,
            ..
        } && local@ != upstream@ && !behind),
        record.kind == ActionKind::Unpushed ==> record.notice matches Some(
            Notice::Unpushed { .. },
        ),
        record.kind == ActionKind::Unmerged <==> (record.basis matches Basis::Orphan {
            merged,
            ..
        } && !merged),
        record.kind == ActionKind::Unmerged ==> record.notice matches Some(
            Notice::Unmerged { .. },
        ),
        record.kind == ActionKind::Delete <==> (record.basis matches Basis::Orphan {
            merged,
            is_current,
            ..
        } && merged && is_current == Some(false)),
        record.kind == ActionKind::CheckoutAndDelete <==> (record.basis matches Basis::Orphan {
            merged,
            is_current,
            has_default,
        } && merged && is_current == Some(true) && has_default),
        record.kind.removes_branch() ==> record.notice matches Some(Notice::Deleted { .. }),
        record.kind == ActionKind::NoDefault <==> (record.basis matches Basis::Orphan {
            merged,
            is_current,
            has_default,
        } && merged && is_current == Some(true) && !has_default),
        record.kind == ActionKind::NoDefault ==> record.notice matches Some(
            Notice::NoDefault { .. },
        ),
{
    match record.basis {
        Basis::Following { is_current, .. } => {
            if let Some(asked) = is_current {
                assert(asked || is_current == Some(false));
            }
        },
        Basis::Orphan { is_current, .. } => {
            if let Some(asked) = is_current {
                assert(asked || is_current == Some(false));
            }
        },
    }
}

/// In a run whose outcomes are in order, the checked-out branch is left for
/// the default branch at most once.
pub proof fn lemma_one_switch(outcomes: Seq<Option<Record>>, had_default: bool, i: int, j: int)
    requires
        orderly(outcomes, had_default),
        0 <= i < j < outcomes.len(),
        switches(outcomes[i]),
    ensures
        !switches(outcomes[j]),
{
    if switches(outcomes[j]) {
        assert(switched_before(outcomes, j));
    }
}

/// In a run whose outcomes are in order, every record hangs together, a
/// default branch counts as there exactly where the run began with one and
/// has not switched to it, and the branch that the run switches away from is
/// the only one that is left for the default branch.
pub proof fn lemma_run_reads(outcomes: Seq<Option<Record>>, had_default: bool, j: int)
    requires
        orderly(outcomes, had_default),
        0 <= j < outcomes.len(),
        outcomes[j] is Some,
    ensures
        outcomes[j]->0.fits(),
        outcomes[j]->0.basis matches Basis::Orphan { has_default, .. } ==> has_default == (
        had_default && !switched_before(outcomes, j)),
        outcomes[j]->0.kind == ActionKind::NoDefault ==> !had_default || switched_before(
            outcomes,
            j,
        ),
        outcomes[j]->0.kind == ActionKind::CheckoutAndDelete ==> had_default && !switched_before(
            outcomes,
            j,
        ),
{
}

/// Whether `second` is what a later run finds of a branch that an earlier run
/// left in place with the record `first`, the remote being as it was: the
/// upstream's tip is the same; the branch's tip is the upstream's where the
/// earlier run moved it there, and else as it was, with the same ancestry. A
/// branch without upstream is merged or not as before, and where it is merged
/// it is found in the same circumstances: checked out or not, with or without
/// a default branch, as before.
pub open spec fn found_again(first: Record, second: Basis) -> bool {
    match first.basis {
        Basis::Following { local, upstream, behind, .. } => second matches Basis::Following {
            local: local_then,
            upstream: upstream_then,
            behind: behind_then,
            ..
        } && upstream_then@ == upstream@ && (if first.kind.moves_tip() {
            local_then@ == upstream@
        } else {
            local_then@ == local@ && behind_then == behind
        }),
        Basis::Orphan { merged, is_current, has_default } => second matches Basis::Orphan {
            merged: merged_then,
            is_current: is_current_then,
            has_default: has_default_then,
        } && merged_then == merged && (merged ==> is_current_then == is_current
            && has_default_then == has_default),
    }
}

/// A branch that a run has dealt with and left in place calls for no change
/// when a later run finds it again: where the earlier run moved it, it is up
/// to date, and else the decision is the warning or the nothing that it was.
pub proof fn lemma_second_look_is_quiet(first: Record, second: Basis)
    requires
        first.fits(),
        !first.kind.removes_branch(),
        found_again(first, second),
    ensures
        !second.verdict().changes_repository(),
        first.kind.moves_tip() ==> second.verdict() == ActionKind::UpToDate,
        !first.kind.moves_tip() ==> second.verdict() == first.kind,
{
    lemma_record_reads(first);
}

} // verus!
