use proto_compiler::{
    get_commitish, RefChoice, RefProbe, ResolveError, Resolved, SyncAction, SyncEvent, SyncState,
};

const URL: &str = "https://example.com/repo";

#[test]
fn missing_directory_is_cloned() {
    let (s, a) = get_commitish(URL, "main", SyncState::Start, SyncEvent::DirectoryChecked { exists: false });
    assert_eq!(s, SyncState::AwaitingRepository);
    match a {
        SyncAction::Clone { url } => assert_eq!(url, URL),
        other => panic!("unexpected {:?}", other),
    }
}

#[test]
fn existing_directory_is_opened_and_fetched() {
    let (s, a) = get_commitish(URL, "main", SyncState::Start, SyncEvent::DirectoryChecked { exists: true });
    assert_eq!(s, SyncState::AwaitingOrigin);
    assert!(matches!(a, SyncAction::OpenExisting));
    let (s, a) = get_commitish(URL, "main", s, SyncEvent::OriginUrl { url: Some(URL.to_string()) });
    assert_eq!(s, SyncState::AwaitingRepository);
    assert!(matches!(a, SyncAction::Fetch { set_url: None }));
}

#[test]
fn wrong_or_missing_origin_url_is_corrected() {
    for current in [None, Some("https://example.com/other".to_string())] {
        let (s, a) = get_commitish(URL, "main", SyncState::AwaitingOrigin, SyncEvent::OriginUrl { url: current });
        assert_eq!(s, SyncState::AwaitingRepository);
        match a {
            SyncAction::Fetch { set_url: Some(u) } => assert_eq!(u, URL),
            other => panic!("unexpected {:?}", other),
        }
    }
}

#[test]
fn both_names_are_probed() {
    let (s, a) = get_commitish(URL, "v0.38.x", SyncState::AwaitingRepository, SyncEvent::RepositoryReady);
    assert_eq!(s, SyncState::AwaitingProbes);
    match a {
        SyncAction::ProbeReferences { short_name, origin_name } => {
            assert_eq!(short_name, "v0.38.x");
            assert_eq!(origin_name, "origin/v0.38.x");
        }
        other => panic!("unexpected {:?}", other),
    }
}

#[test]
fn probes_lead_to_checkout() {
    let (s, a) = get_commitish(
        URL,
        "main",
        SyncState::AwaitingProbes,
        SyncEvent::Probed { local: RefProbe::Branch, origin: RefProbe::Other },
    );
    assert_eq!(s, SyncState::Finished);
    assert!(matches!(a, SyncAction::Checkout(Resolved::Reference(RefChoice::Origin))));
}

#[test]
fn unresolvable_commitish_aborts() {
    let (s, a) = get_commitish(
        URL,
        "nothing",
        SyncState::AwaitingProbes,
        SyncEvent::Probed { local: RefProbe::Missing, origin: RefProbe::Missing },
    );
    assert_eq!(s, SyncState::Failed(ResolveError::RefNotFound));
    assert!(matches!(a, SyncAction::Abort(ResolveError::RefNotFound)));
}

#[test]
fn out_of_order_event_is_ignored() {
    let (s, a) = get_commitish(URL, "main", SyncState::Finished, SyncEvent::RepositoryReady);
    assert_eq!(s, SyncState::Finished);
    assert!(matches!(a, SyncAction::Idle));
    let (s, a) = get_commitish(URL, "main", SyncState::Start, SyncEvent::RepositoryReady);
    assert_eq!(s, SyncState::Start);
    assert!(matches!(a, SyncAction::Idle));
}

#[test]
fn commit_id_leads_to_detached_checkout() {
    let id = "89abcdef0123456789abcdef0123456789abcdef";
    let (s, a) = get_commitish(
        URL,
        id,
        SyncState::AwaitingProbes,
        SyncEvent::Probed { local: RefProbe::Missing, origin: RefProbe::Missing },
    );
    assert_eq!(s, SyncState::Finished);
    match a {
        SyncAction::Checkout(Resolved::Commit(oid)) => assert_eq!(oid.to_string(), id),
        other => panic!("unexpected {:?}", other),
    }
}
