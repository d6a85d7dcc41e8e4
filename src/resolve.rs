//! Resolution of a commitish to a reference or a commit.
//!
//! The repository is probed twice, for the short name itself and for the same
//! name under `origin/`; each probe either finds nothing, a local branch, or
//! another reference (a tag, a remote-tracking branch). The decision below is
//! a table over the two probes, falling back to reading the commitish as a
//! commit id.

use vstd::prelude::*;
use crate::commit_id::{decode_commit_id, hex_bytes, is_lower_hex, is_upper_hex, oid_of};

verus! {

/// What looking up one reference name found.
#[derive(Clone, Copy, Debug, PartialEq, Eq, Structural)]
pub enum RefProbe {
    /// No reference has that short name.
    Missing,
    /// A local branch (`refs/heads/...`).
    Branch,
    /// Any other reference: a tag, a remote-tracking branch.
    Other,
}

/// Which of the two probed names a resolution chose.
#[derive(Clone, Copy, Debug, PartialEq, Eq, Structural)]
pub enum RefChoice {
    /// The commitish as given.
    Local,
    /// The commitish behind `origin/`.
    Origin,
}

/// The outcome of a successful resolution.
#[derive(Debug)]
pub enum Resolved {
    /// Through a named reference, which is checked out by name.
    Reference(RefChoice),
    /// Directly to a commit id, checked out detached, with no reference.
    Commit(git2::Oid),
}

/// Why a commitish could not be resolved.
#[derive(Clone, Copy, Debug, PartialEq, Eq, Structural)]
pub enum ResolveError {
    /// No reference, remote-tracking branch or commit id matches.
    RefNotFound,
    /// The name behind `origin/` is itself a local branch.
    AmbiguousLocalBranch,
}

/// The decision taken from the two probes.
pub enum Decision {
    UseLocal,
    UseOrigin,
    UseCommitId,
    Ambiguous,
}

/// The fallback chain: the name itself unless it is a local branch, in which
/// case the remote-tracking branch of the same name is preferred; then the
/// `origin/` name; then a commit id. An `origin/` name that is a local branch is
/// refused as ambiguous.
pub open spec fn decision(local: RefProbe, origin: RefProbe) -> Decision {
    match (local, origin) {
        (RefProbe::Other, _) => Decision::UseLocal,
        (RefProbe::Branch, RefProbe::Missing) => Decision::UseLocal,
        (_, RefProbe::Branch) => Decision::Ambiguous,
        (_, RefProbe::Other) => Decision::UseOrigin,
        (RefProbe::Missing, RefProbe::Missing) => Decision::UseCommitId,
    }
}

/// A full commit id: forty hexadecimal digits of one case.
pub open spec fn is_commit_id(s: Seq<char>) -> bool {
    (is_lower_hex(s) || is_upper_hex(s)) && s.len() == 40
}

/// The resolution of `commitish` given what the two probes found.
pub open spec fn resolution(commitish: Seq<char>, local: RefProbe, origin: RefProbe) -> Result<
    Resolved,
    ResolveError,
> {
    match decision(local, origin) {
        Decision::UseLocal => Ok(Resolved::Reference(RefChoice::Local)),
        Decision::UseOrigin => Ok(Resolved::Reference(RefChoice::Origin)),
        Decision::Ambiguous => Err(ResolveError::AmbiguousLocalBranch),
        Decision::UseCommitId => if is_commit_id(commitish) {
            Ok(Resolved::Commit(oid_of(hex_bytes(commitish))))
        } else {
            Err(ResolveError::RefNotFound)
        },
    }
}

/// Resolves `commitish` from the probes of its short name (`local`) and of
/// `origin/` followed by it (`origin`).
pub fn resolve_commitish(commitish: &str, local: RefProbe, origin: RefProbe) -> (r: Result<
    Resolved,
    ResolveError,
>)
    ensures
        r == resolution(commitish@, local, origin),
{
    match local {
        RefProbe::Other => Ok(Resolved::Reference(RefChoice::Local)),
        RefProbe::Branch => match origin {
            RefProbe::Missing => Ok(Resolved::Reference(RefChoice::Local)),
            RefProbe::Branch => Err(ResolveError::AmbiguousLocalBranch),
            RefProbe::Other => Ok(Resolved::Reference(RefChoice::Origin)),
        },
        RefProbe::Missing => match origin {
            RefProbe::Branch => Err(ResolveError::AmbiguousLocalBranch),
            RefProbe::Other => Ok(Resolved::Reference(RefChoice::Origin)),
            RefProbe::Missing => match decode_commit_id(commitish) {
                Some(oid) => Ok(Resolved::Commit(oid)),
                None => Err(ResolveError::RefNotFound),
            },
        },
    }
}

/// A commitish that names no reference, locally or under `origin/`, and is a
/// full commit id in either case resolves to exactly that commit, with no
/// reference attached.
pub proof fn lemma_commit_id_resolves_to_commit(commitish: Seq<char>)
    requires
        is_commit_id(commitish),
    ensures
        resolution(commitish, RefProbe::Missing, RefProbe::Missing) == Ok::<
            Resolved,
            ResolveError,
        >(Resolved::Commit(oid_of(hex_bytes(commitish)))),
{
}

/// A commitish naming a local branch resolves to the remote-tracking branch of
/// the same name when one exists, and to the local branch otherwise.
pub proof fn lemma_local_branch_prefers_origin(commitish: Seq<char>, origin: RefProbe)
    requires
        origin != RefProbe::Branch,
    ensures
        origin == RefProbe::Other ==> resolution(commitish, RefProbe::Branch, origin) == Ok::<
            Resolved,
            ResolveError,
        >(Resolved::Reference(RefChoice::Origin)),
        origin == RefProbe::Missing ==> resolution(commitish, RefProbe::Branch, origin) == Ok::<
            Resolved,
            ResolveError,
        >(Resolved::Reference(RefChoice::Local)),
{
}

/// When the `origin/` name is a local branch and the commitish itself is a
/// local branch or nothing, resolution fails as ambiguous rather than picking
/// either.
pub proof fn lemma_origin_named_branch_is_ambiguous(commitish: Seq<char>, local: RefProbe)
    requires
        local != RefProbe::Other,
    ensures
        resolution(commitish, local, RefProbe::Branch) == Err::<Resolved, ResolveError>(
            ResolveError::AmbiguousLocalBranch,
        ),
{
}

} // verus!
