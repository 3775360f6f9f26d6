use maknae_kernel::groupres::{
    membership, needs_supplementary, no_group, no_user, AuthzError, GroupEntry, Membership,
    SupplementaryGroups, UserEntry, MAKNAE_GROUP,
};

fn user(name: &str, gid: u32) -> UserEntry {
    UserEntry {
        name: name.into(),
        gid,
    }
}

fn group(gid: u32, members: &[&str]) -> GroupEntry {
    GroupEntry {
        gid,
        members: members.iter().map(|m| m.to_string()).collect(),
    }
}

#[test]
fn an_explicit_member_is_a_member() {
    let u = user("op", 100);
    let g = group(900, &["alice", "op"]);
    assert!(!needs_supplementary(&u, Some(&g)));
    assert_eq!(
        membership(&u, Some(&g), &SupplementaryGroups::NotConsulted),
        Membership {
            in_group: true,
            user: "op".into()
        }
    );
}

#[test]
fn a_primary_group_member_is_a_member() {
    let u = user("op", 900);
    let g = group(900, &[]);
    assert!(!needs_supplementary(&u, Some(&g)));
    assert!(membership(&u, Some(&g), &SupplementaryGroups::NotConsulted).in_group);
}

#[test]
fn a_supplementary_member_is_a_member_and_a_failed_lookup_is_not() {
    let u = user("op", 100);
    let g = group(900, &["alice"]);
    assert!(needs_supplementary(&u, Some(&g)));
    assert!(membership(&u, Some(&g), &SupplementaryGroups::Listed(vec![100, 900])).in_group);
    assert!(!membership(&u, Some(&g), &SupplementaryGroups::Listed(vec![100, 901])).in_group);
    assert!(!membership(&u, Some(&g), &SupplementaryGroups::Failed).in_group);
    assert!(!membership(&u, Some(&g), &SupplementaryGroups::NotConsulted).in_group);
}

#[test]
fn the_username_is_resolved_whatever_the_membership_answer_is() {
    let u = user("op", 100);
    for (g, supp) in [
        (None, SupplementaryGroups::NotConsulted),
        (Some(group(900, &[])), SupplementaryGroups::Failed),
        (Some(group(900, &["op"])), SupplementaryGroups::NotConsulted),
    ] {
        let m = membership(&u, g.as_ref(), &supp);
        assert_eq!(m.user, "op", "the name must be carried regardless of in_group={}", m.in_group);
    }
    assert!(!needs_supplementary(&u, None));
    assert!(!membership(&u, None, &SupplementaryGroups::Listed(vec![900])).in_group);
}

#[test]
fn an_unresolvable_uid_is_still_an_error_not_a_silent_non_member() {
    assert_eq!(
        no_user(999_999),
        AuthzError::Resolve("no user for uid 999999".into())
    );
    assert_eq!(no_user(0), AuthzError::Resolve("no user for uid 0".into()));
}

#[test]
fn maknae_gid_resolves_or_fails_closed_without_panic() {
    match no_group() {
        AuthzError::Resolve(msg) => {
            assert!(!msg.is_empty());
            assert_eq!(msg, "no `maknae` group");
        }
    }
    assert_eq!(MAKNAE_GROUP, "maknae");
}
