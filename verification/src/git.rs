//! The repository as the synchronisation sees it.

use vstd::prelude::*;
use vstd::pervasive::unreached;
use vstd::string::StringSliceAdditionalSpecFns;
use git2::{Branch, Config, Remote, Repository};
use crate::err::{ErrorClass, ErrorCode, GitError};
use crate::oid::{CommitId, all_zero};
use crate::store::{
    BranchKind,
    annotated_commit_id,
    branch_name,
    branch_name_bytes,
    branch_reference,
    branch_set_target,
    branch_upstream,
    checkout_tree,
    config_string,
    error_class,
    error_code,
    error_text,
    find_branch,
    find_reference,
    find_remote,
    graph_descendant_of,
    head_reference,
    head_detached,
    list_local_branches,
    new_error,
    reference_is_remote,
    reference_is_tag,
    reference_name,
    reference_commit,
    reference_shorthand,
    reference_tip,
    refspec_count,
    refspec_source,
    remote_default_ref,
    remote_fetch_refspecs,
    remote_name,
    remote_names,
    set_head,
    upstream_remote_name,
    wrap_branch,
};
use crate::text::{bytes_equal, join3, prefix_stripped, without_prefix};
use crate::tips::{TipUpdate, moved_tip, tip_names};

verus! {

/// The message of the error for a name that is not text.
pub open spec fn unreadable() -> Seq<char> {
    "Unable to convert to string"@
}

/// The name of the remote branch that a remote's default reference stands
/// for: the remote's name, a slash, and the reference without `refs/heads/`.
pub open spec fn default_name_of(remote: Seq<char>, default_ref: Seq<char>) -> Seq<char> {
    remote + "/"@ + without_prefix(default_ref, "refs/heads/"@)
}

/// The configuration key that names the remote a branch is pushed to.
pub open spec fn pushremote_key_of(short: Seq<char>) -> Seq<char> {
    "branch."@ + short + ".pushremote"@
}

/// The message that is logged when a branch is moved to its upstream.
pub open spec fn move_message_of(branch: Seq<char>, upstream: Seq<char>) -> Seq<char> {
    "update-ref: moving from "@ + branch + " to "@ + upstream
}

/// The one name of `names` where there is exactly one.
pub open spec fn sole(names: Seq<Option<String>>) -> Option<Option<String>> {
    if names.len() == 1 {
        Some(names[0])
    } else {
        None
    }
}

/// The message of the error for a head that is on no branch.
pub open spec fn detached_message() -> Seq<char> {
    "Head is detached"@
}

/// Whether `e` is a failure that the repository reported, or the library's
/// error for a name that is not text.
pub open spec fn store_or_name(e: GitError) -> bool {
    e.is_reported() || e.is_own(unreadable())
}

/// The library's error for a failure that the repository reported: it is
/// marked as reported, and carries what the repository says of it.
pub(crate) fn report(e: &git2::Error) -> (r: GitError)
    ensures
        r.is_reported(),
{
    GitError::reported(error_text(e), error_class(e), error_code(e))
}

/// The text of a name, or the error for a name that is not text.
pub fn text_of(name: Option<String>) -> (r: Result<String, GitError>)
    ensures
        name matches Some(s) ==> (r matches Ok(t) && t@ == s@),
        name is None ==> (r matches Err(e) && e.is_own(unreadable())),
{
    match name {
        Some(s) => Ok(s),
        None => Err(GitError::new(String::from_str("Unable to convert to string"))),
    }
}

/// The name of the remote branch that a remote's default reference stands for.
pub fn default_branch_name(remote: &str, default_ref: &str) -> (name: String)
    ensures
        name@ == default_name_of(remote@, default_ref@),
{
    join3(remote, "/", prefix_stripped(default_ref, "refs/heads/"))
}

/// The configuration key that names the remote a branch is pushed to.
pub fn pushremote_key(short: &str) -> (key: String)
    ensures
        key@ == pushremote_key_of(short@),
{
    join3("branch.", short, ".pushremote")
}

/// The message that is logged when a branch is moved to its upstream.
pub fn move_message(branch: &str, upstream: &str) -> (message: String)
    ensures
        message@ == move_message_of(branch@, upstream@),
{
    let mut message = join3("update-ref: moving from ", branch, " to ");
    message.append(upstream);
    message
}

/// Whether every name of `names` is text.
pub open spec fn all_text(names: Seq<Option<String>>) -> bool {
    forall|i: int| 0 <= i < names.len() ==> (#[trigger] names[i]) is Some
}

/// The names of `names` as texts, in their order; the error for a name that
/// is not text where one of them is none.
pub fn readable(names: &Vec<Option<String>>) -> (r: Result<Vec<String>, GitError>)
    ensures
        all_text(names@) ==> (r matches Ok(texts) && texts@.len() == names@.len() && forall|
            i: int,
        |
            0 <= i < names@.len() ==> (#[trigger] texts@[i])@ == names@[i]->0@),
        !all_text(names@) ==> (r matches Err(e) && e.is_own(unreadable())),
{
    let mut texts: Vec<String> = Vec::new();
    let mut i: usize = 0;
    while i < names.len()
        invariant
            i <= names.len(),
            texts@.len() == i,
            forall|j: int| 0 <= j < i ==> (#[trigger] names@[j]) is Some,
            forall|j: int| 0 <= j < i ==> (#[trigger] texts@[j])@ == names@[j]->0@,
        decreases names.len() - i,
    {
        match &names[i] {
            Some(name) => {
                texts.push(name.clone());
            },
            None => {
                assert(!(names@[i as int] is Some));
                return Err(GitError::new(String::from_str("Unable to convert to string")));
            },
        }
        i += 1;
    }
    Ok(texts)
}

/// Nothing where the head is attached; the error for a detached head where it
/// is not.
pub fn require_attached(detached: bool) -> (r: Result<(), GitError>)
    ensures
        r is Err <==> detached,
        r matches Err(e) ==> e.is_own(detached_message()),
{
    if detached {
        Err(GitError::new(String::from_str("Head is detached")))
    } else {
        Ok(())
    }
}

/// The configuration key that names the remote everything is pushed to where
/// a branch names none of its own.
pub open spec fn pushdefault_key_of() -> Seq<char> {
    "remote.pushdefault"@
}

/// The configuration key that names the remote everything is pushed to where
/// a branch names none of its own.
pub fn pushdefault_key() -> (key: &'static str)
    ensures
        key@ == pushdefault_key_of(),
{
    "remote.pushdefault"
}

/// The name of the branch `short` as the remote `remote` has it: the
/// remote's name, a slash, and the branch's short name.
pub open spec fn remote_branch_name_of(remote: Seq<char>, short: Seq<char>) -> Seq<char> {
    remote + "/"@ + short
}

/// The name of the branch `short` as the remote `remote` has it.
pub fn remote_branch_name(remote: &str, short: &str) -> (name: String)
    ensures
        name@ == remote_branch_name_of(remote@, short@),
{
    join3(remote, "/", short)
}

/// The error for a branch that has no short name, with the text `message`:
/// it counts as reported, of the class of senseless arguments, and says that
/// something was not found.
pub fn nameless(message: String) -> (e: GitError)
    ensures
        e.is_reported(),
        e.message() == message@,
        e.class() == ErrorClass::Invalid,
        e.code() == ErrorCode::NotFound,
{
    GitError::reported(message, ErrorClass::Invalid, ErrorCode::NotFound)
}

/// The upstream of a branch, from the two places it can be found in:
/// `configured` is the upstream that the branch is configured with, where
/// there is one, and `pushed` the outcome of looking for the branch on the
/// remote it is pushed to. The configured upstream comes first.
pub fn prefer_configured<'a>(
    configured: Option<Branch<'a>>,
    pushed: Result<Branch<'a>, GitError>,
) -> (r: Result<Branch<'a>, GitError>)
    ensures
        configured matches Some(upstream) ==> r == Ok::<Branch<'a>, GitError>(upstream),
        configured is None ==> r == pushed,
{
    match configured {
        Some(upstream) => Ok(upstream),
        None => pushed,
    }
}

/// The name of the remote of a branch, from the three places it can be found
/// in, the first that has one first:
/// - `followed`, the remote of the branch's upstream: nothing where the
///   branch has none, and a name that is not text is an error;
/// - `pushed`, the remote that the branch is configured to be pushed to:
///   nothing where none is configured, an error where the key cannot be made;
/// - `default`, the remote that everything is pushed to.
pub fn choose_remote_name(
    followed: Option<Option<String>>,
    pushed: Result<Option<String>, GitError>,
    default: Result<String, GitError>,
) -> (r: Result<String, GitError>)
    ensures
        followed matches Some(Some(name)) ==> (r matches Ok(chosen) && chosen@ == name@),
        followed matches Some(None) ==> (r matches Err(e) && e.is_own(unreadable())),
        followed is None ==> match pushed {
            Err(e) => r == Err::<String, GitError>(e),
            Ok(Some(name)) => r matches Ok(chosen) && chosen@ == name@,
            Ok(None) => r == default,
        },
{
    match followed {
        Some(found) => text_of(found),
        None => match pushed {
            Err(e) => Err(e),
            Ok(Some(name)) => Ok(name),
            Ok(None) => default,
        },
    }
}

/// What the search for a follower ended with.
#[derive(Clone, Copy, Debug, PartialEq, Eq, Structural)]
pub enum Search {
    /// The entry at this place follows what was looked for.
    Found(usize),
    /// The entry at this place is a failure, and none before it follows.
    Failed(usize),
    /// No entry follows, and none is a failure.
    Missing,
}

/// Whether `entry` says that a branch follows the branch called `wanted`.
/// An entry tells of the upstream of one local branch: nothing where the
/// branch has none, else the upstream's name or the failure to get it.
pub open spec fn follows(entry: Option<Result<String, GitError>>, wanted: Seq<char>) -> bool {
    entry matches Some(Ok(name)) && name@ == wanted
}

/// Whether `entry` is a failure.
pub open spec fn fails(entry: Option<Result<String, GitError>>) -> bool {
    entry matches Some(Err(_))
}

/// Whether none of the first `n` entries follows `wanted` or is a failure.
pub open spec fn none_before(
    entries: Seq<Option<Result<String, GitError>>>,
    n: int,
    wanted: Seq<char>,
) -> bool {
    forall|j: int| 0 <= j < n ==> !follows(#[trigger] entries[j], wanted) && !fails(entries[j])
}

/// Searches `entries`, in their order, for the first that follows the branch
/// called `wanted`. A failure that comes before any follower ends the search.
pub fn first_follower(entries: &Vec<Option<Result<String, GitError>>>, wanted: &str) -> (r: Search)
    ensures
        r matches Search::Found(i) ==> (i < entries@.len() && follows(entries@[i as int], wanted@)
            && none_before(entries@, i as int, wanted@)),
        r matches Search::Failed(i) ==> (i < entries@.len() && fails(entries@[i as int])
            && none_before(entries@, i as int, wanted@)),
        r is Missing ==> none_before(entries@, entries@.len() as int, wanted@),
{
    let wanted_name = String::from_str(wanted);
    let mut i: usize = 0;
    while i < entries.len()
        invariant
            i <= entries.len(),
            wanted_name@ == wanted@,
            none_before(entries@, i as int, wanted@),
        decreases entries.len() - i,
    {
        match &entries[i] {
            Some(Ok(name)) => {
                if *name == wanted_name {
                    return Search::Found(i);
                }
            },
            Some(Err(_)) => {
                return Search::Failed(i);
            },
            None => {},
        }
        i += 1;
    }
    Search::Missing
}

/// The name of the only remote: of a list of one name that name, which must be
/// text; of any other list nothing.
pub fn sole_remote_name(names: Vec<Option<String>>) -> (r: Result<Option<String>, GitError>)
    ensures
        sole(names@) is None ==> r matches Ok(None),
        sole(names@) matches Some(Some(s)) ==> (r matches Ok(Some(t)) && t@ == s@),
        sole(names@) matches Some(None) ==> (r matches Err(e) && e.is_own(unreadable())),
{
    let mut names = names;
    if names.len() == 1 {
        let name = names.remove(0);
        let name = text_of(name)?;
        Ok(Some(name))
    } else {
        Ok(None)
    }
}

/// Whether `entry` is an answer: the refspec is there and maps the reference.
pub open spec fn answers(entry: Option<Result<Option<String>, GitError>>) -> bool {
    entry matches Some(Ok(_))
}

/// Whether none of the first `n` entries is an answer.
pub open spec fn no_answer_before(
    entries: Seq<Option<Result<Option<String>, GitError>>>,
    n: int,
) -> bool {
    forall|j: int| 0 <= j < n ==> !answers(#[trigger] entries[j])
}

/// The first answer among `entries`, which tell, one for each refspec of a
/// remote in their order, what the refspec maps a reference from: nothing
/// where the refspec is not there, a failure where it does not map the
/// reference, else the source's name as text where it is text.
pub fn first_answer(entries: Vec<Option<Result<Option<String>, GitError>>>) -> (source: Option<
    Option<String>,
>)
    ensures
        source is None <==> no_answer_before(entries@, entries@.len() as int),
        source matches Some(found) ==> exists|i: int|
            0 <= i < entries@.len() && no_answer_before(entries@, i) && #[trigger] entries@[i]
                == Some(Ok::<Option<String>, GitError>(found)),
{
    let mut rest = entries;
    let ghost mut passed: int = 0;
    while rest.len() > 0
        invariant
            0 <= passed <= entries@.len(),
            rest@ == entries@.skip(passed),
            no_answer_before(entries@, passed),
        decreases rest.len(),
    {
        let entry = rest.remove(0);
        assert(entry == entries@[passed]);
        if let Some(Ok(found)) = entry {
            assert(answers(entries@[passed]));
            return Some(found);
        }
        proof {
            assert(rest@ =~= entries@.skip(passed + 1));
            passed = passed + 1;
        }
    }
    None
}

/// The reference on `remote` that the first refspec with an answer maps to
/// the reference `s`, as text where it is text; nothing where no refspec of
/// the remote gives one.
fn first_source(remote: &Remote, s: &str) -> (source: Option<Option<String>>)
    requires
        !s.spec_bytes().contains(0u8),
{
    let count = refspec_count(remote);
    let mut entries: Vec<Option<Result<Option<String>, GitError>>> = Vec::new();
    let mut i: usize = 0;
    while i < count
        invariant
            !s.spec_bytes().contains(0u8),
        decreases count - i,
    {
        let entry = match refspec_source(remote, i, s) {
            Some(Ok(source)) => Some(Ok(source)),
            Some(Err(e)) => Some(Err(report(&e))),
            None => None,
        };
        entries.push(entry);
        i += 1;
    }
    first_answer(entries)
}

/// The follower and its upstream, picked from the local branches and their
/// upstreams, which stand in the same order: the upstream at `at` and the
/// branch at `at`, in this order. Nothing where there is no such place or the
/// branch at it has no upstream.
pub fn follower_pair<'a>(
    branches: Vec<Branch<'a>>,
    upstreams: Vec<Option<Branch<'a>>>,
    at: usize,
) -> (pair: Option<(Branch<'a>, Branch<'a>)>)
    ensures
        (at < branches@.len() && at < upstreams@.len() && upstreams@[at as int] is Some) ==> (
        pair matches Some((upstream, branch)) && upstream == upstreams@[at as int]->0 && branch
            == branches@[at as int]),
        !(at < branches@.len() && at < upstreams@.len() && upstreams@[at as int] is Some)
            ==> pair is None,
{
    let mut branches = branches;
    let mut upstreams = upstreams;
    if at < branches.len() && at < upstreams.len() {
        let branch = branches.remove(at);
        match upstreams.remove(at) {
            Some(upstream) => Some((upstream, branch)),
            None => None,
        }
    } else {
        None
    }
}

/// Whether two branches are the same branch: whether they have the same name.
/// It fails only where the repository fails to give a name.
pub fn is_branch_same(b1: &Branch, b2: &Branch) -> (r: Result<bool, GitError>)
    ensures
        r matches Err(e) ==> e.is_reported(),
{
    let n1 = match branch_name_bytes(b1) {
        Ok(n) => n,
        Err(e) => return Err(report(&e)),
    };
    let n2 = match branch_name_bytes(b2) {
        Ok(n) => n,
        Err(e) => return Err(report(&e)),
    };
    Ok(bytes_equal(&n1, &n2))
}

/// The name of `branch`, which must be text. It fails where the repository
/// fails to give the name, and where the name is not text.
pub fn branch_label(branch: &Branch) -> (r: Result<String, GitError>)
    ensures
        r matches Err(e) ==> store_or_name(e),
{
    match branch_name(branch) {
        Ok(name) => text_of(name),
        Err(e) => Err(report(&e)),
    }
}

/// The name of `remote`, which must have one that is text: it fails only
/// with the error for a name that is not text.
pub fn remote_label(remote: &Remote) -> (r: Result<String, GitError>)
    ensures
        r matches Err(e) ==> e.is_own(unreadable()),
{
    text_of(remote_name(remote))
}

/// Two tips, a local one and the one it is held against, in a repository.
pub struct Range<'a> {
    repo: &'a Repository,
    beg: CommitId,
    end: CommitId,
}

impl<'a> Range<'a> {
    /// The first tip: the local one.
    pub closed spec fn beg(&self) -> Seq<u8> {
        self.beg@
    }

    /// The second tip.
    pub closed spec fn end(&self) -> Seq<u8> {
        self.end@
    }

    /// The first tip.
    pub fn beg_oid(&self) -> (id: CommitId)
        ensures
            id@ == self.beg(),
    {
        self.beg.clone()
    }

    /// The second tip.
    pub fn end_oid(&self) -> (id: CommitId)
        ensures
            id@ == self.end(),
    {
        self.end.clone()
    }

    /// Whether the two tips are the same commit.
    pub fn is_identical(&self) -> (same: bool)
        ensures
            same == (self.beg() == self.end()),
    {
        self.beg.same(&self.end)
    }

    /// Whether the first tip is the second or one of its ancestors. Equal tips
    /// are answered without a look at the repository; of others the repository
    /// decides, and only its failure makes this fail.
    pub fn is_ancestor(&self) -> (r: Result<bool, GitError>)
        ensures
            self.beg() == self.end() ==> r matches Ok(true),
            r matches Err(e) ==> e.is_reported() && self.beg() != self.end(),
    {
        if self.beg.same(&self.end) {
            Ok(true)
        } else {
            match graph_descendant_of(self.repo, &self.end, &self.beg) {
                Ok(found) => Ok(found),
                Err(e) => Err(report(&e)),
            }
        }
    }
}

/// A repository and its configuration.
///
/// What its operations return is what the repository holds. They fail with
/// what the repository reports and, where a name is needed as text and is
/// none, with the library's error for that.
pub struct Git {
    repo: Repository,
    config: Config,
}

impl Git {
    /// The repository that is worked on.
    pub closed spec fn repository(&self) -> Repository {
        self.repo
    }

    /// The configuration that is read.
    pub closed spec fn configuration(&self) -> Config {
        self.config
    }

    /// The repository `repo` with the configuration `config`.
    pub fn new(repo: Repository, config: Config) -> (git: Self)
        ensures
            git.repository() == repo,
            git.configuration() == config,
    {
        Git { repo, config }
    }

    /// The repository.
    pub fn repo(&self) -> (repo: &Repository)
        ensures
            *repo == self.repository(),
    {
        &self.repo
    }

    /// Checks `branch` out: puts its tree into the working directory and
    /// makes it the head.
    pub fn checkout(&self, branch: &Branch) -> (r: Result<(), GitError>)
        ensures
            r matches Err(e) ==> store_or_name(e),
    {
        let commit = match reference_commit(branch_reference(branch)) {
            Ok(c) => c,
            Err(e) => return Err(report(&e)),
        };
        if let Err(e) = checkout_tree(&self.repo, &commit) {
            return Err(report(&e));
        }
        let refname = text_of(reference_name(branch_reference(branch)))?;
        match set_head(&self.repo, refname.as_str()) {
            Ok(()) => Ok(()),
            Err(e) => Err(report(&e)),
        }
    }

    /// The branch that is checked out. Fails where the head is detached.
    pub fn current_branch(&self) -> (r: Result<Branch<'_>, GitError>)
        ensures
            r matches Err(e) ==> e.is_reported() || e.is_own(detached_message()),
    {
        let detached = match head_detached(&self.repo) {
            Ok(d) => d,
            Err(e) => return Err(report(&e)),
        };
        require_attached(detached)?;
        match head_reference(&self.repo) {
            Ok(head) => Ok(wrap_branch(head)),
            Err(e) => Err(report(&e)),
        }
    }

    /// The remote branch that `remote` names as its default and, where there
    /// is one, the first local branch that follows it.
    pub fn default_branch(&self, remote: &Remote) -> (r: Result<
        (Branch<'_>, Option<Branch<'_>>),
        GitError,
    >)
        ensures
            r matches Err(e) ==> store_or_name(e),
    {
        let default_ref = match remote_default_ref(remote) {
            Ok(r) => text_of(r)?,
            Err(e) => return Err(report(&e)),
        };
        let remote_name = remote_label(remote)?;
        let default_name = default_branch_name(remote_name.as_str(), default_ref.as_str());
        let mut branches = match list_local_branches(&self.repo) {
            Ok(list) => list,
            Err(e) => return Err(report(&e)),
        };
        let mut upstreams: Vec<Option<Branch<'_>>> = Vec::new();
        let mut names: Vec<Option<Result<String, GitError>>> = Vec::new();
        let mut i: usize = 0;
        while i < branches.len()
            invariant
                i <= branches.len(),
                upstreams@.len() == i,
                names@.len() == i,
                forall|j: int| 0 <= j < i ==> ((#[trigger] names@[j]) is Some ==> upstreams@[j] is Some),
                forall|j: int|
                    0 <= j < i ==> ((#[trigger] names@[j]) matches Some(Err(e)) ==> store_or_name(
                        e,
                    )),
            decreases branches.len() - i,
        {
            match branch_upstream(&branches[i]) {
                Ok(upstream) => {
                    names.push(Some(branch_label(&upstream)));
                    upstreams.push(Some(upstream));
                },
                Err(_) => {
                    names.push(None);
                    upstreams.push(None);
                },
            }
            i += 1;
        }
        match first_follower(&names, default_name.as_str()) {
            Search::Found(at) => {
                match follower_pair(branches, upstreams, at) {
                    Some((upstream, branch)) => Ok((upstream, Some(branch))),
                    None => unreached(),
                }
            },
            Search::Failed(at) => {
                match names.remove(at) {
                    Some(Err(e)) => Err(e),
                    _ => unreached(),
                }
            },
            Search::Missing => {
                match find_branch(&self.repo, default_name.as_str(), BranchKind::Remote) {
                    Ok(upstream) => Ok((upstream, None)),
                    Err(e) => Err(report(&e)),
                }
            },
        }
    }

    /// The local branch called `name` and its remote.
    pub fn branch_and_remote(&self, name: &str) -> (r: Result<(Branch<'_>, Remote<'_>), GitError>)
        ensures
            r matches Err(e) ==> store_or_name(e),
    {
        let branch = match find_branch(&self.repo, name, BranchKind::Local) {
            Ok(b) => b,
            Err(e) => return Err(report(&e)),
        };
        let remote = self.remote(&branch)?;
        Ok((branch, remote))
    }

    /// The two tips `beg` and `end` as a range of this repository.
    pub fn range_between(&self, beg: CommitId, end: CommitId) -> (range: Range<'_>)
        ensures
            range.beg() == beg@,
            range.end() == end@,
    {
        Range { repo: &self.repo, beg, end }
    }

    /// What a fetch from `remote` did to the reference `s`, which it moved
    /// from `from` to `to`; an identifier of zeros stands for "no commit".
    pub fn update_tips(&self, remote: &Remote, s: &str, from: &CommitId, to: &CommitId) -> (r:
        Result<TipUpdate, GitError>)
        ensures
            all_zero(to@) ==> (r matches Ok(TipUpdate::Deleted { name }) && name@
                == without_prefix(s@, "refs/remotes/"@)),
            r matches Ok(update) ==> {
                &&& update is Deleted <==> all_zero(to@)
                &&& update is New <==> !all_zero(to@) && all_zero(from@)
                &&& update matches TipUpdate::Forwarded { from: f, to: t, .. } ==> (f@ == from@
                    && t@ == to@)
                &&& update matches TipUpdate::Forced { from: f, to: t, .. } ==> (f@ == from@ && t@
                    == to@ && from@ != to@)
            },
            r matches Err(e) ==> store_or_name(e),
    {
        if to.is_zero() {
            let name = String::from_str(prefix_stripped(s, "refs/remotes/"));
            return Ok(TipUpdate::Deleted { name });
        }
        let refer = match find_reference(&self.repo, s) {
            Ok(r) => r,
            Err(e) => return Err(report(&e)),
        };
        let is_tag = reference_is_tag(&refer);
        let is_remote = reference_is_remote(&refer);
        let short = reference_shorthand(&refer);
        let source = if is_tag {
            None
        } else {
            first_source(remote, s)
        };
        let (mark, from_name, to_name) = tip_names(s, is_tag, is_remote, short, source)?;
        if from.is_zero() {
            Ok(TipUpdate::New { mark, from_name, to_name })
        } else {
            let range = self.range_between(from.clone(), to.clone());
            Ok(moved_tip(range.is_ancestor(), from, to, from_name, to_name))
        }
    }

    /// The refspecs that `remote` is fetched by, each of which must be text.
    pub fn fetch_refspecs(&self, remote: &Remote) -> (r: Result<Vec<String>, GitError>)
        ensures
            r matches Err(e) ==> store_or_name(e),
    {
        match remote_fetch_refspecs(remote) {
            Ok(specs) => readable(&specs),
            Err(e) => Err(report(&e)),
        }
    }

    /// The local branches, in the order in which the repository lists them.
    pub fn local_branches(&self) -> (r: Result<Vec<Branch<'_>>, GitError>)
        ensures
            r matches Err(e) ==> e.is_reported(),
    {
        match list_local_branches(&self.repo) {
            Ok(list) => Ok(list),
            Err(e) => Err(report(&e)),
        }
    }

    /// Moves the working tree and `branch` forward to `upstream`.
    pub fn fastforward(&self, branch: &mut Branch, upstream: &Branch) -> (r: Result<(), GitError>)
        ensures
            r matches Err(e) ==> store_or_name(e),
    {
        let commit = match reference_commit(branch_reference(upstream)) {
            Ok(c) => c,
            Err(e) => return Err(report(&e)),
        };
        if let Err(e) = checkout_tree(&self.repo, &commit) {
            return Err(report(&e));
        }
        self.update_ref(branch, upstream)?;
        Ok(())
    }

    /// The tips of `local` and of `upstream`, in this order, as a range.
    pub fn new_range(&self, local: &Branch, upstream: &Branch) -> (r: Result<Range<'_>, GitError>)
        ensures
            r matches Err(e) ==> e.is_reported(),
    {
        let beg = match reference_tip(branch_reference(local)) {
            Ok(id) => id,
            Err(e) => return Err(report(&e)),
        };
        let end = match reference_tip(branch_reference(upstream)) {
            Ok(id) => id,
            Err(e) => return Err(report(&e)),
        };
        Ok(self.range_between(beg, end))
    }

    /// Moves `branch` to where `remote_branch` is and returns the branch as
    /// it is afterwards. The working tree is left alone.
    pub fn update_ref<'a>(&self, branch: &mut Branch<'a>, remote_branch: &Branch) -> (r: Result<
        Branch<'a>,
        GitError,
    >)
        ensures
            r matches Err(e) ==> store_or_name(e),
    {
        let target = match annotated_commit_id(&self.repo, branch_reference(remote_branch)) {
            Ok(id) => id,
            Err(e) => return Err(report(&e)),
        };
        let name = branch_label(branch)?;
        let upstream_name = branch_label(remote_branch)?;
        let message = move_message(name.as_str(), upstream_name.as_str());
        match branch_set_target(branch, &target, message.as_str()) {
            Ok(updated) => Ok(wrap_branch(updated)),
            Err(e) => Err(report(&e)),
        }
    }

    /// The remote of the repository where it has exactly one.
    pub fn only_one_remote(&self) -> (r: Result<Option<Remote<'_>>, GitError>)
        ensures
            r matches Err(e) ==> store_or_name(e),
    {
        let names = match remote_names(&self.repo) {
            Ok(n) => n,
            Err(e) => return Err(report(&e)),
        };
        match sole_remote_name(names)? {
            Some(name) => match find_remote(&self.repo, name.as_str()) {
                Ok(remote) => Ok(Some(remote)),
                Err(e) => Err(report(&e)),
            },
            None => Ok(None),
        }
    }

    /// The remote that `branch` belongs to: the one it follows, else the one
    /// it is configured to be pushed to, else the one that everything is
    /// pushed to by default.
    pub fn remote(&self, branch: &Branch) -> (r: Result<Remote<'_>, GitError>)
        ensures
            r matches Err(e) ==> store_or_name(e),
    {
        let refname = text_of(reference_name(branch_reference(branch)))?;
        let followed = match upstream_remote_name(&self.repo, refname.as_str()) {
            Ok(found) => Some(found),
            Err(_) => None,
        };
        let pushed = match text_of(reference_shorthand(branch_reference(branch))) {
            Ok(short) => {
                let key = pushremote_key(short.as_str());
                match config_string(&self.config, key.as_str()) {
                    Ok(name) => Ok(Some(name)),
                    Err(_) => Ok(None),
                }
            },
            Err(e) => Err(e),
        };
        let default = match config_string(&self.config, pushdefault_key()) {
            Ok(name) => Ok(name),
            Err(e) => Err(report(&e)),
        };
        let name = choose_remote_name(followed, pushed, default)?;
        match find_remote(&self.repo, name.as_str()) {
            Ok(remote) => Ok(remote),
            Err(e) => Err(report(&e)),
        }
    }

    /// The remote branch that `branch` is held against: its configured
    /// upstream, else the branch of its own name on the remote that it is
    /// configured to be pushed to.
    pub fn upstream<'a>(&'a self, branch: &Branch<'a>) -> (r: Result<Branch<'a>, GitError>)
        ensures
            r matches Err(e) ==> e.is_reported(),
    {
        let configured = match branch_upstream(branch) {
            Ok(upstream) => Some(upstream),
            Err(_) => None,
        };
        let pushed = self.pushed_upstream(branch);
        prefer_configured(configured, pushed)
    }

    /// The branch of the name of `branch` on the remote that `branch` is
    /// configured to be pushed to.
    fn pushed_upstream<'a>(&'a self, branch: &Branch<'a>) -> (r: Result<Branch<'a>, GitError>)
        ensures
            r matches Err(e) ==> e.is_reported(),
    {
        let short = match reference_shorthand(branch_reference(branch)) {
            Some(s) => s,
            None => {
                let e = new_error(
                    ErrorCode::NotFound,
                    ErrorClass::Invalid,
                    "Unable to get branch name",
                );
                return Err(nameless(error_text(&e)));
            },
        };
        let key = pushremote_key(short.as_str());
        let remote = match config_string(&self.config, key.as_str()) {
            Ok(name) => name,
            Err(e) => return Err(report(&e)),
        };
        let name = remote_branch_name(remote.as_str(), short.as_str());
        match find_branch(&self.repo, name.as_str(), BranchKind::Remote) {
            Ok(found) => Ok(found),
            Err(e) => Err(report(&e)),
        }
    }
}

} // verus!
