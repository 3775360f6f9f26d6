use maknae_kernel::boot_gate::{
    audit_offload_boot_gate, authz_boot_gate_with, egress_bounds_boot_gate,
    path_is_within_prefix, policy_file_path, AuditConfig, AuthzBootRefusal, EgressBounds,
    EgressBoundsRefusal, Principal, ProviderConfig, SiemOffloadUnsupported, EGRESS_BOUNDS_FILE,
};

fn provider(key_vault_path: &str) -> ProviderConfig {
    ProviderConfig {
        name: "openai".into(),
        endpoint: "https://api.example.test/v1".into(),
        model: "m".into(),
        key_vault_path: key_vault_path.into(),
    }
}

fn bounds(prefix: &str) -> EgressBounds {
    EgressBounds {
        key_vault_path_prefix: prefix.into(),
    }
}

fn principal() -> Principal {
    Principal {
        name: "operator".into(),
        uid: 501,
        home: "/home/operator".into(),
    }
}

fn audit_cfg(siem: Option<&str>) -> AuditConfig {
    AuditConfig {
        jsonl_path: "/var/log/maknae/audit.jsonl".into(),
        siem: siem.map(String::from),
    }
}

#[test]
fn no_registered_provider_needs_no_bounds() {
    assert_eq!(egress_bounds_boot_gate(None, None), Ok(()));
    assert_eq!(
        egress_bounds_boot_gate(None, Some(&bounds("secret/data/x"))),
        Ok(())
    );
}

#[test]
fn a_registered_provider_within_the_grant_boots() {
    assert_eq!(
        egress_bounds_boot_gate(
            Some(&provider("secret/data/maknae/providers/openai")),
            Some(&bounds("secret/data/maknae/providers")),
        ),
        Ok(())
    );
}

#[test]
fn a_registered_provider_outside_the_grant_refuses_to_boot() {
    for bad in [
        "secret/data/other/openai",
        "secret/data/maknae/providers-evil/openai",
    ] {
        match egress_bounds_boot_gate(
            Some(&provider(bad)),
            Some(&bounds("secret/data/maknae/providers")),
        ) {
            Err(EgressBoundsRefusal::OutsideBounds { path, prefix }) => {
                assert_eq!(path, bad);
                assert_eq!(prefix, "secret/data/maknae/providers");
            }
            other => panic!("expected a boot refusal for {bad}, got {other:?}"),
        }
    }
}

#[test]
fn a_registered_provider_with_undeclared_bounds_refuses_to_boot() {
    match egress_bounds_boot_gate(Some(&provider("secret/data/maknae/providers/openai")), None) {
        Err(EgressBoundsRefusal::Undeclared(m)) => {
            assert!(m.contains(EGRESS_BOUNDS_FILE) || !m.is_empty())
        }
        other => panic!("expected an undeclared-bounds refusal, got {other:?}"),
    }
}

#[test]
fn both_refusals_render_actionably() {
    assert!(EgressBoundsRefusal::Undeclared("no such file".into())
        .to_string()
        .contains("registered"));
    assert!(EgressBoundsRefusal::OutsideBounds {
        path: "a/b".into(),
        prefix: "c/d".into()
    }
    .to_string()
    .contains("outside the egress grant prefix"));
}

#[test]
fn the_undeclared_refusal_renders_the_file_and_the_cause() {
    assert_eq!(
        EgressBoundsRefusal::Undeclared("no such file".into()).to_string(),
        format!("a provider is registered but {EGRESS_BOUNDS_FILE} could not be read: no such file")
    );
    assert_eq!(
        EgressBoundsRefusal::OutsideBounds {
            path: "a/b".into(),
            prefix: "c/d".into()
        }
        .to_string(),
        "registered provider key_vault_path 'a/b' is outside the egress grant prefix 'c/d'"
    );
}

#[test]
fn a_prefix_is_matched_at_a_segment_boundary() {
    assert!(path_is_within_prefix("a/b", "a/b"));
    assert!(path_is_within_prefix("a/b/c", "a/b"));
    assert!(path_is_within_prefix("a/b/c", "a/b/"));
    assert!(!path_is_within_prefix("a/bc", "a/b"));
    assert!(!path_is_within_prefix("a", "a/b"));
    assert!(!path_is_within_prefix("x", ""));
}

#[test]
fn missing_principal_rendering_names_the_section() {
    let m = AuthzBootRefusal::MissingPrincipal.to_string();
    assert!(m.contains("principal"), "{m}");
}

#[test]
fn missing_principal_refuses_boot() {
    let r: Result<(u32, Principal), AuthzBootRefusal> =
        authz_boot_gate_with("/etc/maknae", None, |_, _| Ok(7u32));
    assert_eq!(r.unwrap_err(), AuthzBootRefusal::MissingPrincipal);
}

#[test]
fn refused_policy_load_maps_to_construct_load() {
    let r: Result<(u32, Principal), AuthzBootRefusal> =
        authz_boot_gate_with("/etc/maknae", Some(principal()), |_, _| {
            Err("policy load refused: not root-owned".to_string())
        });
    match r {
        Err(AuthzBootRefusal::Construct(m)) => {
            assert_eq!(m, "policy load refused: not root-owned");
            assert_eq!(
                AuthzBootRefusal::Construct(m).to_string(),
                "policy load refused: not root-owned"
            );
        }
        other => panic!("expected a construct refusal, got {other:?}"),
    }
}

#[test]
fn gate_success_returns_the_authorizer_and_the_principal() {
    let r = authz_boot_gate_with("/etc/maknae", Some(principal()), |path, p| {
        assert_eq!(path, "/etc/maknae/authz.yaml");
        assert_eq!(p, principal());
        Ok(42u32)
    });
    assert_eq!(r.unwrap(), (42, principal()));
}

#[test]
fn the_policy_file_lives_in_the_config_dir() {
    assert_eq!(policy_file_path("/etc/maknae"), "/etc/maknae/authz.yaml");
    assert_eq!(policy_file_path("/etc/maknae/"), "/etc/maknae/authz.yaml");
}

#[test]
fn an_unset_siem_permits_boot() {
    assert!(audit_offload_boot_gate(&audit_cfg(None)).is_ok());
}

#[test]
fn a_configured_siem_refuses_boot() {
    assert_eq!(
        audit_offload_boot_gate(&audit_cfg(Some("https://siem.example.mil:8443/ingest"))),
        Err(SiemOffloadUnsupported)
    );
}

#[test]
fn even_an_empty_siem_string_refuses_boot() {
    assert_eq!(
        audit_offload_boot_gate(&audit_cfg(Some(""))),
        Err(SiemOffloadUnsupported)
    );
}

#[test]
fn the_refusal_message_names_the_key_and_the_tracking_issue() {
    let m = SiemOffloadUnsupported.to_string();
    assert!(m.contains("audit.siem"), "must name the key: {m}");
    assert!(m.contains("223"), "must point at the tracking issue: {m}");
}
