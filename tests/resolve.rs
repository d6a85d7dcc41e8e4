use proto_compiler::{
    decode_commit_id, resolve_commitish, RefChoice, RefProbe, ResolveError, Resolved,
};

const LOWER_ID: &str = "0123456789abcdef0123456789abcdef01234567";
const UPPER_ID: &str = "0123456789ABCDEF0123456789ABCDEF01234567";

fn expected_oid() -> git2::Oid {
    git2::Oid::from_bytes(&[
        0x01, 0x23, 0x45, 0x67, 0x89, 0xab, 0xcd, 0xef, 0x01, 0x23, 0x45, 0x67, 0x89, 0xab, 0xcd,
        0xef, 0x01, 0x23, 0x45, 0x67,
    ])
    .unwrap()
}

#[test]
fn lower_case_commit_id_decodes() {
    let oid = decode_commit_id(LOWER_ID).unwrap();
    assert_eq!(oid, expected_oid());
    assert_eq!(oid.to_string(), LOWER_ID);
}

#[test]
fn upper_case_commit_id_decodes() {
    assert_eq!(decode_commit_id(UPPER_ID).unwrap(), expected_oid());
}

#[test]
fn mixed_case_commit_id_is_refused() {
    assert!(decode_commit_id("0123456789abcdef0123456789ABCDEF01234567").is_none());
}

#[test]
fn short_or_odd_commit_id_is_refused() {
    assert!(decode_commit_id("abc123").is_none());
    assert!(decode_commit_id("0123456789abcdef0123456789abcdef0123456").is_none());
    assert!(decode_commit_id("").is_none());
    assert!(decode_commit_id("0123456789abcdef0123456789abcdef0123456g").is_none());
}

#[test]
fn commit_id_resolves_without_reference() {
    match resolve_commitish(UPPER_ID, RefProbe::Missing, RefProbe::Missing) {
        Ok(Resolved::Commit(oid)) => assert_eq!(oid, expected_oid()),
        other => panic!("unexpected {:?}", other),
    }
}

#[test]
fn unknown_commitish_is_not_found() {
    let r = resolve_commitish("no-such-branch", RefProbe::Missing, RefProbe::Missing);
    assert_eq!(r.unwrap_err(), ResolveError::RefNotFound);
}

#[test]
fn tag_resolves_to_itself() {
    for origin in [RefProbe::Missing, RefProbe::Branch, RefProbe::Other] {
        match resolve_commitish("v0.38.0", RefProbe::Other, origin) {
            Ok(Resolved::Reference(RefChoice::Local)) => {}
            other => panic!("unexpected {:?}", other),
        }
    }
}

#[test]
fn local_branch_prefers_remote_tracking_branch() {
    match resolve_commitish("main", RefProbe::Branch, RefProbe::Other) {
        Ok(Resolved::Reference(RefChoice::Origin)) => {}
        other => panic!("unexpected {:?}", other),
    }
}

#[test]
fn local_branch_without_remote_is_used() {
    match resolve_commitish("main", RefProbe::Branch, RefProbe::Missing) {
        Ok(Resolved::Reference(RefChoice::Local)) => {}
        other => panic!("unexpected {:?}", other),
    }
}

#[test]
fn remote_branch_named_without_prefix_resolves_through_origin() {
    match resolve_commitish("feature", RefProbe::Missing, RefProbe::Other) {
        Ok(Resolved::Reference(RefChoice::Origin)) => {}
        other => panic!("unexpected {:?}", other),
    }
}

#[test]
fn origin_name_that_is_a_local_branch_is_ambiguous() {
    let r = resolve_commitish("origin/main", RefProbe::Branch, RefProbe::Branch);
    assert_eq!(r.unwrap_err(), ResolveError::AmbiguousLocalBranch);
    let r = resolve_commitish("main", RefProbe::Missing, RefProbe::Branch);
    assert_eq!(r.unwrap_err(), ResolveError::AmbiguousLocalBranch);
}
