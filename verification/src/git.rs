//! The trusted boundary around the repository store: type declarations for
//! the handle types the library carries through, and one small wrapper per
//! repository query the resolvers make. Everything below this boundary is
//! believed on the strength of its contract; everything above it is verified.

use vstd::prelude::*;

use crate::decide::ErrClass;
use crate::flags::StatusFlags;

verus! {

#[verifier::external_type_specification]
#[verifier::external_body]
pub struct ExRepository(git2::Repository);

#[verifier::external_type_specification]
#[verifier::external_body]
pub struct ExReference<'a>(git2::Reference<'a>);

#[verifier::external_type_specification]
#[verifier::external_body]
pub struct ExOid(git2::Oid);

#[verifier::external_type_specification]
#[verifier::external_body]
pub struct ExError(git2::Error);

/// Relies on git2::Repository::discover: locate the repository containing
/// `path` by searching upward through parent directories. A location with
/// no repository above it yields `None`.
#[verifier::external_body]
pub(crate) fn discover_repo(path: &str) -> (r: Option<git2::Repository>) {
    match git2::Repository::discover(path) {
        Ok(repo) => Some(repo),
        Err(_) => None,
    }
}

/// Relies on git2::Repository::is_bare: whether the repository has no
/// working tree.
#[verifier::external_body]
pub(crate) fn repo_is_bare(repo: &git2::Repository) -> (r: bool) {
    repo.is_bare()
}

/// Relies on git2::Repository::head: retrieve and resolve the reference
/// pointed at by the checked-out head; fails on an unborn head or a
/// corrupt store.
#[verifier::external_body]
pub(crate) fn repo_head<'a>(repo: &'a git2::Repository) -> (r: Result<
    git2::Reference<'a>,
    git2::Error,
>) {
    repo.head()
}

/// Relies on git2::Reference::is_branch: whether the reference is a local
/// branch (a detached head's direct reference is not).
#[verifier::external_body]
pub(crate) fn reference_is_branch(r: &git2::Reference<'_>) -> (b: bool) {
    r.is_branch()
}

/// Relies on git2::Reference::shorthand: the human-readable short form of
/// the reference's name; `None` when the name is not valid text.
#[verifier::external_body]
pub(crate) fn reference_shorthand(r: &git2::Reference<'_>) -> (s: Option<String>) {
    match r.shorthand() {
        Ok(name) => Some(name.to_string()),
        Err(_) => None,
    }
}

/// Relies on git2::Reference::target: the commit identifier a direct
/// reference points at; `None` for a symbolic reference.
#[verifier::external_body]
pub(crate) fn reference_target(r: &git2::Reference<'_>) -> (t: Option<git2::Oid>) {
    r.target()
}

/// Relies on git2::Branch::upstream (through git2::Branch::wrap, a plain
/// wrapping of the reference): the reference backing the branch's
/// configured upstream; fails with a not-found error when no upstream is
/// configured.
#[verifier::external_body]
pub(crate) fn branch_upstream<'a>(head: git2::Reference<'a>) -> (r: Result<
    git2::Reference<'a>,
    git2::Error,
>) {
    match git2::Branch::wrap(head).upstream() {
        Ok(b) => Ok(b.into_reference()),
        Err(e) => Err(e),
    }
}

/// Relies on git2::Repository::graph_ahead_behind: the counts of commits
/// reachable from one tip but not the other. Two identical tips have no
/// unique commits on either side, so both counts are zero.
#[verifier::external_body]
pub(crate) fn graph_ahead_behind(
    repo: &git2::Repository,
    local: git2::Oid,
    upstream: git2::Oid,
) -> (r: Result<(usize, usize), git2::Error>)
    ensures
        local == upstream ==> (r matches Ok(p) ==> p.0 == 0 && p.1 == 0),
{
    repo.graph_ahead_behind(local, upstream)
}

/// Relies on git2::Repository::statuses: one entry per changed path, with
/// the per-path facets read through git2::Status's accessors. Untracked
/// files are included exactly when `include_untracked` is set.
#[verifier::external_body]
pub(crate) fn enumerate_status(repo: &git2::Repository, include_untracked: bool) -> (r: Result<
    Vec<StatusFlags>,
    git2::Error,
>) {
    let mut opts = git2::StatusOptions::new();
    opts.include_untracked(include_untracked);
    let statuses = match repo.statuses(Some(&mut opts)) {
        Ok(s) => s,
        Err(e) => return Err(e),
    };
    Ok(statuses.iter().map(|e| {
        let s = e.status();
        StatusFlags::new(
            s.is_index_new(), s.is_index_modified(), s.is_index_renamed(),
            s.is_index_typechange(), s.is_index_deleted(), s.is_wt_modified(),
            s.is_wt_typechange(), s.is_wt_renamed(), s.is_wt_deleted(),
            s.is_wt_new(), s.is_conflicted(),
        )
    }).collect())
}

/// Relies on git2::Error::code: which failure class the store reported,
/// reduced to the classes the resolvers tell apart.
#[verifier::external_body]
pub(crate) fn error_class(e: &git2::Error) -> (r: ErrClass) {
    match e.code() {
        git2::ErrorCode::UnbornBranch => ErrClass::UnbornBranch,
        git2::ErrorCode::NotFound => ErrClass::NotFound,
        _ => ErrClass::Other,
    }
}

/// Relies on git2::Error::message: the store's description of a failure.
#[verifier::external_body]
pub(crate) fn error_message(e: &git2::Error) -> (r: String) {
    e.message().to_string()
}

} // verus!
