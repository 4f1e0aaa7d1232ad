//! The calls into `git2`.
//!
//! Everything here is believed, not proved. What a call returns depends on the
//! repository on disk, so almost nothing is claimed of any result: the functions
//! only hand values across, as opaque handles or converted to plain values.

use vstd::prelude::*;
use vstd::string::StringSliceAdditionalSpecFns;
use git2::{Branch, BranchType, Config, Object, ObjectType, Oid, Reference, Remote, Repository};
use crate::err::{ErrorClass, ErrorCode};
use crate::oid::CommitId;

verus! {

/// `git2::Repository`: an open repository.
#[verifier::external_type_specification]
#[verifier::external_body]
pub struct ExRepository(Repository);

/// `git2::Config`: a view of the configuration.
#[verifier::external_type_specification]
#[verifier::external_body]
pub struct ExConfig(Config);

/// `git2::Branch`: a branch as it was when it was looked up.
#[verifier::external_type_specification]
#[verifier::external_body]
pub struct ExBranch<'repo>(Branch<'repo>);

/// `git2::Remote`: a configured remote.
#[verifier::external_type_specification]
#[verifier::external_body]
pub struct ExRemote<'repo>(Remote<'repo>);

/// `git2::Reference`: a reference as it was when it was looked up.
#[verifier::external_type_specification]
#[verifier::external_body]
pub struct ExReference<'repo>(Reference<'repo>);

/// `git2::Object`: an object of the repository.
#[verifier::external_type_specification]
#[verifier::external_body]
pub struct ExObject<'repo>(Object<'repo>);

/// `git2::Error`: a failure reported by the repository.
#[verifier::external_type_specification]
#[verifier::external_body]
pub struct ExError(git2::Error);

/// The kind of a branch.
#[derive(Clone, Copy, Debug, PartialEq, Eq, Structural)]
pub enum BranchKind {
    /// A branch of this repository.
    Local,
    /// A branch that follows one of a remote.
    Remote,
}

/// `Error::class`, reduced to the classes that the library tells apart.
/// Nothing is claimed of the result.
#[verifier::external_body]
pub(crate) fn error_class(e: &git2::Error) -> ErrorClass {
    match e.class() {
        git2::ErrorClass::Reference => ErrorClass::Reference,
        git2::ErrorClass::Config => ErrorClass::Config,
        git2::ErrorClass::Invalid => ErrorClass::Invalid,
        _ => ErrorClass::Other,
    }
}

/// `Error::code`, reduced to the codes that the library tells apart.
/// Nothing is claimed of the result.
#[verifier::external_body]
pub(crate) fn error_code(e: &git2::Error) -> ErrorCode {
    match e.code() {
        git2::ErrorCode::NotFound => ErrorCode::NotFound,
        _ => ErrorCode::Other,
    }
}

/// The text that `git2::Error` displays.
/// Nothing is claimed of the result.
#[verifier::external_body]
pub(crate) fn error_text(e: &git2::Error) -> String {
    e.to_string()
}

/// `Error::new`: an error with the given code, class and message.
/// Nothing is claimed of the result.
#[verifier::external_body]
pub(crate) fn new_error(code: ErrorCode, class: ErrorClass, message: &str) -> git2::Error {
    let code = match code {
        ErrorCode::NotFound => git2::ErrorCode::NotFound,
        ErrorCode::Other => git2::ErrorCode::GenericError,
    };
    let class = match class {
        ErrorClass::Reference => git2::ErrorClass::Reference,
        ErrorClass::Config => git2::ErrorClass::Config,
        ErrorClass::Invalid => git2::ErrorClass::Invalid,
        ErrorClass::Other => git2::ErrorClass::None,
    };
    git2::Error::new(code, class, message)
}

/// `Repository::head_detached`.
/// Nothing is claimed of the result.
#[verifier::external_body]
pub(crate) fn head_detached(repo: &Repository) -> Result<bool, git2::Error> {
    repo.head_detached()
}

/// `Repository::head`.
/// Nothing is claimed of the result.
#[verifier::external_body]
pub(crate) fn head_reference(repo: &Repository) -> Result<Reference<'_>, git2::Error> {
    repo.head()
}

/// `Branch::wrap`: the reference as a branch.
/// Nothing is claimed of the result.
#[verifier::external_body]
pub(crate) fn wrap_branch(reference: Reference<'_>) -> Branch<'_> {
    Branch::wrap(reference)
}

/// `Branch::get`: the reference that the branch is.
/// Nothing is claimed of the result.
#[verifier::external_body]
pub(crate) fn branch_reference<'b, 'a>(branch: &'b Branch<'a>) -> &'b Reference<'a> {
    branch.get()
}

/// `Repository::set_head`.
/// Nothing is claimed of the result.
#[verifier::external_body]
pub(crate) fn set_head(repo: &Repository, refname: &str) -> Result<(), git2::Error> {
    repo.set_head(refname)
}

/// `Repository::checkout_tree` without options.
/// Nothing is claimed of the result.
#[verifier::external_body]
pub(crate) fn checkout_tree(repo: &Repository, treeish: &Object) -> Result<(), git2::Error> {
    repo.checkout_tree(treeish, None)
}

/// `Repository::branches` for the local branches, gathered in the order in
/// which the repository lists them. The first failure of the listing is
/// returned in place of the list.
/// Nothing is claimed of the result.
#[verifier::external_body]
pub(crate) fn list_local_branches(repo: &Repository) -> Result<Vec<Branch<'_>>, git2::Error> {
    repo.branches(Some(BranchType::Local))?.map(|item| item.map(|(branch, _)| branch)).collect()
}

/// `Repository::find_branch`.
/// Nothing is claimed of the result.
#[verifier::external_body]
pub(crate) fn find_branch<'a>(repo: &'a Repository, name: &str, kind: BranchKind) -> Result<
    Branch<'a>,
    git2::Error,
> {
    let kind = match kind {
        BranchKind::Local => BranchType::Local,
        BranchKind::Remote => BranchType::Remote,
    };
    repo.find_branch(name, kind)
}

/// `Repository::find_reference`. It fails on a name that holds a zero byte,
/// so a name that was found holds none.
#[verifier::external_body]
pub(crate) fn find_reference<'a>(repo: &'a Repository, name: &str) -> (found: Result<
    Reference<'a>,
    git2::Error,
>)
    ensures
        found is Ok ==> !name.spec_bytes().contains(0u8),
{
    repo.find_reference(name)
}

/// `Repository::find_remote`.
/// Nothing is claimed of the result.
#[verifier::external_body]
pub(crate) fn find_remote<'a>(repo: &'a Repository, name: &str) -> Result<Remote<'a>, git2::Error> {
    repo.find_remote(name)
}

/// `Repository::remotes`: the names of the remotes, each as text where it is
/// text.
/// Nothing is claimed of the result.
#[verifier::external_body]
pub(crate) fn remote_names(repo: &Repository) -> Result<Vec<Option<String>>, git2::Error> {
    let names = repo.remotes()?;
    Ok(names.iter().map(|name| name.ok().flatten().map(|s| s.to_string())).collect())
}

/// `Repository::branch_upstream_remote`: the name of the remote that the
/// branch with this reference name follows, as text where it is text.
/// Nothing is claimed of the result.
#[verifier::external_body]
pub(crate) fn upstream_remote_name(repo: &Repository, refname: &str) -> Result<
    Option<String>,
    git2::Error,
> {
    repo.branch_upstream_remote(refname).map(|buf| buf.as_str().ok().map(|s| s.to_string()))
}

/// `Repository::graph_descendant_of`, which never counts a commit as its own
/// descendant.
#[verifier::external_body]
pub(crate) fn graph_descendant_of(
    repo: &Repository,
    commit: &CommitId,
    ancestor: &CommitId,
) -> (found: Result<bool, git2::Error>)
    ensures
        found matches Ok(yes) ==> (yes ==> commit@ != ancestor@),
{
    let commit = Oid::from_bytes(commit.as_bytes())?;
    let ancestor = Oid::from_bytes(ancestor.as_bytes())?;
    repo.graph_descendant_of(commit, ancestor)
}

/// `Repository::reference_to_annotated_commit`, and of that commit its `id`.
/// Nothing is claimed of the result.
#[verifier::external_body]
pub(crate) fn annotated_commit_id(repo: &Repository, reference: &Reference) -> Result<
    CommitId,
    git2::Error,
> {
    let commit = repo.reference_to_annotated_commit(reference)?;
    Ok(CommitId::new(commit.id().as_bytes().to_vec()))
}

/// `Config::get_string`.
/// Nothing is claimed of the result.
#[verifier::external_body]
pub(crate) fn config_string(config: &Config, key: &str) -> Result<String, git2::Error> {
    config.get_string(key)
}

/// `Branch::upstream`.
/// Nothing is claimed of the result.
#[verifier::external_body]
pub(crate) fn branch_upstream<'a>(branch: &Branch<'a>) -> Result<Branch<'a>, git2::Error> {
    branch.upstream()
}

/// `Branch::name`: the branch's name, as text where it is text.
/// Nothing is claimed of the result.
#[verifier::external_body]
pub(crate) fn branch_name(branch: &Branch) -> Result<Option<String>, git2::Error> {
    branch.name().map(|name| name.map(|s| s.to_string()))
}

/// `Branch::name_bytes`.
/// Nothing is claimed of the result.
#[verifier::external_body]
pub(crate) fn branch_name_bytes(branch: &Branch) -> Result<Vec<u8>, git2::Error> {
    branch.name_bytes().map(|bytes| bytes.to_vec())
}

/// `Reference::name`, as text where it is text.
/// Nothing is claimed of the result.
#[verifier::external_body]
pub(crate) fn reference_name(reference: &Reference) -> Option<String> {
    reference.name().ok().map(|s| s.to_string())
}

/// `Reference::peel` to the commit that the reference leads to.
/// Nothing is claimed of the result.
#[verifier::external_body]
pub(crate) fn reference_commit<'a>(reference: &Reference<'a>) -> Result<Object<'a>, git2::Error> {
    reference.peel(ObjectType::Commit)
}

/// `Reference::peel_to_commit`, and of that commit its `id`.
/// Nothing is claimed of the result.
#[verifier::external_body]
pub(crate) fn reference_tip(reference: &Reference) -> Result<CommitId, git2::Error> {
    reference.peel_to_commit().map(|commit| CommitId::new(commit.id().as_bytes().to_vec()))
}

/// `Reference::set_target` on the reference that `Branch::get_mut` gives.
/// Nothing is claimed of the result.
#[verifier::external_body]
pub(crate) fn branch_set_target<'a>(branch: &mut Branch<'a>, id: &CommitId, message: &str) -> Result<
    Reference<'a>,
    git2::Error,
> {
    let id = Oid::from_bytes(id.as_bytes())?;
    branch.get_mut().set_target(id, message)
}

/// `Branch::delete`.
/// Nothing is claimed of the result.
#[verifier::external_body]
pub(crate) fn branch_delete(branch: &mut Branch) -> Result<(), git2::Error> {
    branch.delete()
}

/// `Reference::is_tag`.
/// Nothing is claimed of the result.
#[verifier::external_body]
pub(crate) fn reference_is_tag(reference: &Reference) -> bool {
    reference.is_tag()
}

/// `Reference::is_remote`.
/// Nothing is claimed of the result.
#[verifier::external_body]
pub(crate) fn reference_is_remote(reference: &Reference) -> bool {
    reference.is_remote()
}

/// `Reference::shorthand`, as text where it is text.
/// Nothing is claimed of the result.
#[verifier::external_body]
pub(crate) fn reference_shorthand(reference: &Reference) -> Option<String> {
    reference.shorthand().ok().map(|s| s.to_string())
}

/// `Remote::name`, as text where the remote has a name and it is text.
/// Nothing is claimed of the result.
#[verifier::external_body]
pub(crate) fn remote_name(remote: &Remote) -> Option<String> {
    remote.name().ok().flatten().map(|s| s.to_string())
}

/// `Remote::default_branch`: the reference that the remote names as its
/// default, as text where it is text.
/// Nothing is claimed of the result.
#[verifier::external_body]
pub(crate) fn remote_default_ref(remote: &Remote) -> Result<Option<String>, git2::Error> {
    remote.default_branch().map(|buf| buf.as_str().ok().map(|s| s.to_string()))
}

/// `Remote::fetch_refspecs`: the refspecs that the remote is fetched by, each
/// as text where it is text.
/// Nothing is claimed of the result.
#[verifier::external_body]
pub(crate) fn remote_fetch_refspecs(remote: &Remote) -> Result<Vec<Option<String>>, git2::Error> {
    let specs = remote.fetch_refspecs()?;
    Ok(specs.iter().map(|spec| spec.ok().flatten().map(|s| s.to_string())).collect())
}

/// `Remote::refspecs`: how many refspecs the remote has.
/// Nothing is claimed of the result.
#[verifier::external_body]
pub(crate) fn refspec_count(remote: &Remote) -> usize {
    remote.refspecs().len()
}

/// `Remote::get_refspec` and, of the refspec at `index`, `Refspec::rtransform`:
/// the source reference that the refspec maps to `name`, as text where it is
/// text. Nothing where the remote has no refspec at `index`. `rtransform`
/// panics on a name that holds a zero byte.
#[verifier::external_body]
pub(crate) fn refspec_source(remote: &Remote, index: usize, name: &str) -> Option<
    Result<Option<String>, git2::Error>,
>
    requires
        !name.spec_bytes().contains(0u8),
{
    let spec = remote.get_refspec(index)?;
    Some(spec.rtransform(name).map(|buf| buf.as_str().ok().map(|s| s.to_string())))
}

} // verus!
