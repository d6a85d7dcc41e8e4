//! The decisions of a repository sync: clone or fetch, correct the remote,
//! probe the references, then check out what the commitish resolves to.
//!
//! The repository work itself is done by the caller: it performs each
//! `SyncAction` and reports what came of it as the next `SyncEvent`.

use vstd::prelude::*;
use vstd::string::*;
use crate::names::starts_with;
use crate::resolve::{resolution, resolve_commitish, RefProbe, ResolveError, Resolved};

verus! {

/// Where a sync stands.
#[derive(Clone, Copy, Debug, PartialEq, Eq, Structural)]
pub enum SyncState {
    /// Nothing done yet; the caller reports whether the directory exists.
    Start,
    /// An existing repository was opened; the caller reports the URL of its
    /// `origin` remote (adding that remote with the wanted URL if it had none).
    AwaitingOrigin,
    /// A clone or fetch is under way.
    AwaitingRepository,
    /// The two reference names are being looked up.
    AwaitingProbes,
    /// The checkout was handed out.
    Finished,
    /// The commitish could not be resolved.
    Failed(ResolveError),
}

/// What the caller observed after the last action.
#[derive(Debug)]
pub enum SyncEvent {
    DirectoryChecked { exists: bool },
    OriginUrl { url: Option<String> },
    RepositoryReady,
    Probed { local: RefProbe, origin: RefProbe },
}

/// What the caller is to do next.
#[derive(Debug)]
pub enum SyncAction {
    /// Clone `url` into the directory, fetching all tags.
    Clone { url: String },
    /// Open the existing repository and report its `origin` URL.
    OpenExisting,
    /// Set `origin` to `set_url` if given, then fetch all references and tags.
    Fetch { set_url: Option<String> },
    /// Look up both names as reference short names.
    ProbeReferences { short_name: String, origin_name: String },
    /// Point the head at the resolution and force the working tree to match it.
    Checkout(Resolved),
    /// Stop: the commitish cannot be resolved.
    Abort(ResolveError),
    /// The event does not fit the state; nothing to do.
    Idle,
}

/// The remote URL must be set unless it is already exactly `url`.
pub open spec fn needs_url_update(current: Option<String>, url: Seq<char>) -> bool {
    !(current matches Some(c) && c@ == url)
}

/// The step taken from `state` on `event`: what each expected event leads to;
/// an unexpected event changes nothing.
pub open spec fn step_taken(
    url: Seq<char>,
    commitish: Seq<char>,
    state: SyncState,
    event: SyncEvent,
    r: (SyncState, SyncAction),
) -> bool {
    match (state, event) {
        (SyncState::Start, SyncEvent::DirectoryChecked { exists }) => if exists {
            r.0 == SyncState::AwaitingOrigin && r.1 is OpenExisting
        } else {
            &&& r.0 == SyncState::AwaitingRepository
            &&& r.1 matches SyncAction::Clone { url: u }
            &&& u@ == url
        },
        (SyncState::AwaitingOrigin, SyncEvent::OriginUrl { url: current }) => {
            &&& r.0 == SyncState::AwaitingRepository
            &&& r.1 matches SyncAction::Fetch { set_url }
            &&& set_url is Some <==> needs_url_update(current, url)
            &&& set_url matches Some(u) ==> u@ == url
        },
        (SyncState::AwaitingRepository, SyncEvent::RepositoryReady) => {
            &&& r.0 == SyncState::AwaitingProbes
            &&& r.1 matches SyncAction::ProbeReferences { short_name, origin_name }
            &&& short_name@ == commitish
            &&& origin_name@ == "origin/"@ + commitish
        },
        (SyncState::AwaitingProbes, SyncEvent::Probed { local, origin }) => match resolution(
            commitish,
            local,
            origin,
        ) {
            Ok(res) => r.0 == SyncState::Finished && r.1 == SyncAction::Checkout(res),
            Err(e) => r.0 == SyncState::Failed(e) && r.1 == SyncAction::Abort(e),
        },
        _ => r.0 == state && r.1 is Idle,
    }
}

/// Whether two strings hold the same characters.
fn same_text(a: &str, b: &str) -> (r: bool)
    ensures
        r == (a@ == b@),
{
    let eq = a.unicode_len() == b.unicode_len() && starts_with(a, b);
    proof {
        assert(a@ =~= a@.subrange(0, a@.len() as int));
    }
    eq
}

/// One step of syncing the repository at the caller's directory with `url`
/// and checking out `commitish`: from the current state and what the caller
/// observed, the next state and the next action.
pub fn get_commitish(url: &str, commitish: &str, state: SyncState, event: SyncEvent) -> (r: (
    SyncState,
    SyncAction,
))
    ensures
        step_taken(url@, commitish@, state, event, r),
{
    match (state, event) {
        (SyncState::Start, SyncEvent::DirectoryChecked { exists }) => {
            if exists {
                (SyncState::AwaitingOrigin, SyncAction::OpenExisting)
            } else {
                (SyncState::AwaitingRepository, SyncAction::Clone { url: String::from_str(url) })
            }
        },
        (SyncState::AwaitingOrigin, SyncEvent::OriginUrl { url: current }) => {
            let keep = match &current {
                Some(c) => same_text(c.as_str(), url),
                None => false,
            };
            let set_url = if keep {
                None
            } else {
                Some(String::from_str(url))
            };
            (SyncState::AwaitingRepository, SyncAction::Fetch { set_url })
        },
        (SyncState::AwaitingRepository, SyncEvent::RepositoryReady) => {
            let short_name = String::from_str(commitish);
            let origin_name = String::from_str("origin/").concat(commitish);
            (SyncState::AwaitingProbes, SyncAction::ProbeReferences { short_name, origin_name })
        },
        (SyncState::AwaitingProbes, SyncEvent::Probed { local, origin }) => {
            match resolve_commitish(commitish, local, origin) {
                Ok(res) => (SyncState::Finished, SyncAction::Checkout(res)),
                Err(e) => (SyncState::Failed(e), SyncAction::Abort(e)),
            }
        },
        (state, _) => (state, SyncAction::Idle),
    }
}

/// Syncing again where an earlier sync left its clone: the directory exists,
/// so the repository is opened rather than cloned; its `origin` already has
/// the URL, so the remote is left as it is and only fetched; and the same
/// probes resolve to the same checkout.
pub proof fn lemma_resync_changes_nothing(
    url: Seq<char>,
    commitish: Seq<char>,
    current: String,
    local: RefProbe,
    origin: RefProbe,
    r1: (SyncState, SyncAction),
    r2: (SyncState, SyncAction),
    r3: (SyncState, SyncAction),
    r4: (SyncState, SyncAction),
)
    requires
        current@ == url,
        step_taken(url, commitish, SyncState::Start, SyncEvent::DirectoryChecked { exists: true }, r1),
        step_taken(url, commitish, r1.0, SyncEvent::OriginUrl { url: Some(current) }, r2),
        step_taken(url, commitish, SyncState::AwaitingProbes, SyncEvent::Probed { local, origin }, r3),
        step_taken(url, commitish, SyncState::AwaitingProbes, SyncEvent::Probed { local, origin }, r4),
    ensures
        r1.1 is OpenExisting,
        r2.1 matches SyncAction::Fetch { set_url } && set_url is None,
        r3 == r4,
{
}

} // verus!
