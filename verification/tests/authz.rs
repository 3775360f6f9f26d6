use maknae_kernel::authz::{authorize_connection, ConnDecision};

#[test]
fn permit_only_when_both() {
    assert!(matches!(
        authorize_connection(true, true),
        ConnDecision::Permit
    ));
}

#[test]
fn deny_when_not_in_group() {
    assert_eq!(
        authorize_connection(true, false),
        ConnDecision::Deny {
            reason: "peer uid not in `maknae` group".into()
        }
    );
}

#[test]
fn deny_when_cert_unverified() {
    assert_eq!(
        authorize_connection(false, true),
        ConnDecision::Deny {
            reason: "plane cert not verified".into()
        }
    );
}

#[test]
fn deny_when_neither() {
    assert_eq!(
        authorize_connection(false, false),
        ConnDecision::Deny {
            reason: "plane cert not verified".into()
        }
    );
}
