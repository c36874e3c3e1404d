//! Reading the state of the enclosing repository with the `git2` crate.
//! Every step may fail; a failure never reaches the caller as an error.

use vstd::prelude::*;
use crate::git::{is_commit_id, summarize, GitState};

verus! {

/// `git2::Repository`, an open repository. Nothing of its inside is known
/// here.
#[verifier::external_type_specification]
#[verifier::external_body]
pub struct ExRepository(git2::Repository);

/// `git2::Reference`, a reference of a repository. Nothing of its inside is
/// known here.
#[verifier::external_type_specification]
#[verifier::external_body]
pub struct ExReference<'repo>(git2::Reference<'repo>);

/// `git2::Oid`, the id of an object. Nothing of its inside is known here.
#[verifier::external_type_specification]
#[verifier::external_body]
pub struct ExOid(git2::Oid);

/// `git2::Repository::discover`: the repository at `path` or the nearest one
/// above it. `None` stands for any error. Nothing is claimed of the result.
#[verifier::external_body]
fn discover(path: &str) -> Option<git2::Repository> {
    git2::Repository::discover(path).ok()
}

/// `git2::Repository::head`: the reference that HEAD resolves to. `None`
/// stands for any error. Nothing is claimed of the result.
#[verifier::external_body]
fn head<'repo>(repository: &'repo git2::Repository) -> Option<git2::Reference<'repo>> {
    repository.head().ok()
}

/// `git2::Reference::is_branch`: whether the reference is a local branch.
/// Nothing is claimed of the result.
#[verifier::external_body]
fn is_branch(reference: &git2::Reference<'_>) -> bool {
    reference.is_branch()
}

/// `git2::Reference::shorthand`: the short name of the reference, `None`
/// when it is not UTF-8. Nothing is claimed of the result.
#[verifier::external_body]
fn shorthand(reference: &git2::Reference<'_>) -> Option<String> {
    reference.shorthand().ok().map(|name| name.to_string())
}

/// `git2::Reference::name`: the full name of the reference, `None` when it
/// is not UTF-8. Nothing is claimed of the result.
#[verifier::external_body]
fn full_name(reference: &git2::Reference<'_>) -> Option<String> {
    reference.name().ok().map(|name| name.to_string())
}

/// `git2::Reference::target`: the commit that a direct reference points to.
/// Nothing is claimed of the result.
#[verifier::external_body]
fn target(reference: &git2::Reference<'_>) -> Option<git2::Oid> {
    reference.target()
}

/// The `Display` of `git2::Oid`: the id in hexadecimal. Nothing is claimed
/// of the result; `summarize` checks its shape.
#[verifier::external_body]
fn hex(id: &git2::Oid) -> String {
    id.to_string()
}

/// `git2::Repository::branch_upstream_name`, read as text with
/// `git2::Buf::as_str`: the name of the reference that the branch named
/// `branch_reference` tracks. `None` stands for any error and for a name
/// that is not UTF-8. Nothing is claimed of the result.
#[verifier::external_body]
fn upstream_name(repository: &git2::Repository, branch_reference: &str) -> Option<String> {
    let name = repository.branch_upstream_name(branch_reference).ok()?;
    name.as_str().ok().map(|name| name.to_string())
}

/// `git2::Repository::find_reference`: the reference of that name. `None`
/// stands for any error. Nothing is claimed of the result.
#[verifier::external_body]
fn find_reference<'repo>(repository: &'repo git2::Repository, name: &str) -> Option<
    git2::Reference<'repo>,
> {
    repository.find_reference(name).ok()
}

/// `git2::Repository::graph_ahead_behind`: the number of commits that only
/// `local` reaches and the number that only `upstream` reaches. `None` stands
/// for any error. Nothing is claimed of the result.
#[verifier::external_body]
fn ahead_behind(repository: &git2::Repository, local: git2::Oid, upstream: git2::Oid) -> Option<
    (usize, usize),
> {
    repository.graph_ahead_behind(local, upstream).ok()
}

/// `git2::Repository::statuses` with a `git2::StatusOptions` on which
/// `include_untracked` and `recurse_untracked_dirs` were set as given, then
/// `git2::Statuses::len`: the number of entries of the status list. `None`
/// stands for any error. Nothing is claimed of the result.
#[verifier::external_body]
fn count_status_entries(
    repository: &git2::Repository,
    include_untracked: bool,
    recurse_untracked_dirs: bool,
) -> Option<usize> {
    let mut options = git2::StatusOptions::new();
    options.include_untracked(include_untracked).recurse_untracked_dirs(recurse_untracked_dirs);
    repository.statuses(Some(&mut options)).ok().map(|entries| entries.len())
}

/// The distance between `local` and the upstream of the branch that `head`
/// names: its commits ahead and behind. `None` when any step fails: the
/// name of `head`, the name of its upstream, the upstream reference, its
/// commit, or the walk of the commit graph.
fn resolve_divergence(
    repository: &git2::Repository,
    head: &git2::Reference<'_>,
    local: git2::Oid,
) -> Option<(usize, usize)> {
    let branch_reference = match full_name(head) {
        Some(name) => name,
        None => {
            return None;
        },
    };
    let upstream_reference = match upstream_name(repository, branch_reference.as_str()) {
        Some(name) => name,
        None => {
            return None;
        },
    };
    let upstream = match find_reference(repository, upstream_reference.as_str()) {
        Some(reference) => reference,
        None => {
            return None;
        },
    };
    match target(&upstream) {
        Some(upstream_commit) => ahead_behind(repository, local, upstream_commit),
        None => None,
    }
}

/// The state of the repository that encloses `path`, or `None` when there
/// is none or a required step fails: finding the repository, resolving HEAD,
/// reading the name of its branch, resolving its commit, or counting the
/// changes. A missing upstream only leaves the branch without one. Untracked
/// files count as changes, those inside untracked directories too.
pub fn resolve_git_state(path: &str) -> (state: Option<GitState>)
    ensures
        state matches Some(s) ==> is_commit_id(s@.commit_id),
{
    let repository = match discover(path) {
        Some(repository) => repository,
        None => {
            return None;
        },
    };
    let head_reference = match head(&repository) {
        Some(reference) => reference,
        None => {
            return None;
        },
    };
    let on_branch = is_branch(&head_reference);
    let branch_name = if on_branch {
        shorthand(&head_reference)
    } else {
        None
    };
    if on_branch && branch_name.is_none() {
        return None;
    }
    let commit = match target(&head_reference) {
        Some(commit) => commit,
        None => {
            return None;
        },
    };
    let divergence = if on_branch {
        resolve_divergence(&repository, &head_reference, commit)
    } else {
        None
    };
    let changes = count_status_entries(&repository, true, true);
    summarize(on_branch, branch_name, Some(hex(&commit)), divergence, changes)
}

} // verus!
