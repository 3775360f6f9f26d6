use maknae_kernel::handler::{ServeOutcome, EXIT_FAILURE, EXIT_SUCCESS};
use maknae_kernel::posture::{CredentialSource, Posture, PostureMarker};
use maknae_kernel::run::{
    authz_refusal_record, boot_session_id, classify_marker_load, expected_target, posture_record, epoch_to_rfc3339, marker_of, parse_posture_marker,
    reject_reason_str, rfc3339_now, rfc3339_of_reading, supervisor_exit_reason, run_exit_code, LoadFailure, MarkerDocument, MarkerOutcome,
    RejectReason, RunError, AUTHZ_REFUSAL_EXIT_CODE,
};

fn mapping(entries: &[(&str, Option<&str>)]) -> MarkerDocument {
    MarkerDocument::Mapping(
        entries
            .iter()
            .map(|(k, v)| (k.to_string(), v.map(|s| s.to_string())))
            .collect(),
    )
}

#[test]
fn epoch_zero_is_unix_epoch() {
    assert_eq!(epoch_to_rfc3339(0, 0), "1970-01-01T00:00:00.000Z");
}

#[test]
fn known_epoch_formats_correctly() {
    assert_eq!(
        epoch_to_rfc3339(1_700_000_000, 250),
        "2023-11-14T22:13:20.250Z"
    );
}

#[test]
fn leap_days_and_year_ends_render_as_the_calendar_has_them() {
    assert_eq!(epoch_to_rfc3339(951_782_400, 0), "2000-02-29T00:00:00.000Z");
    assert_eq!(epoch_to_rfc3339(946_684_799, 999), "1999-12-31T23:59:59.999Z");
    assert_eq!(epoch_to_rfc3339(4_107_542_400, 7), "2100-03-01T00:00:00.007Z");
    assert_eq!(epoch_to_rfc3339(253_402_300_799, 0), "9999-12-31T23:59:59.000Z");
    assert_eq!(epoch_to_rfc3339(253_402_300_800, 0), "10000-01-01T00:00:00.000Z");
    assert_eq!(epoch_to_rfc3339(86_400 + 3_661, 5), "1970-01-02T01:01:01.005Z");
}

#[test]
fn the_largest_second_count_renders_without_overflow() {
    assert_eq!(
        epoch_to_rfc3339(u64::MAX, 999),
        "584554051223-11-09T07:00:15.999Z"
    );
}

#[test]
fn now_is_a_well_formed_timestamp() {
    let ts = rfc3339_now();
    assert!(ts.ends_with('Z'), "{ts}");
    assert_eq!(&ts[4..5], "-");
    assert_eq!(&ts[10..11], "T");
    assert!(ts.as_str() > "2020-01-01T00:00:00.000Z", "{ts}");
}

#[test]
fn reject_reason_labels_are_distinct_and_nonempty() {
    let all = [
        RejectReason::Handshake,
        RejectReason::HandshakeTimeout,
        RejectReason::WrongPlane,
        RejectReason::ExpiredOrInvalidCert,
        RejectReason::ChainOrCa,
        RejectReason::PeerCredCapture,
        RejectReason::Io,
    ];
    let labels: Vec<&str> = all.iter().map(reject_reason_str).collect();
    for l in &labels {
        assert!(!l.is_empty());
    }
    let mut sorted = labels.clone();
    sorted.sort_unstable();
    sorted.dedup();
    assert_eq!(sorted.len(), labels.len(), "reject labels must be distinct");
    assert_eq!(reject_reason_str(&RejectReason::Io), "socket accept io error");
}

#[test]
fn boot_session_id_is_nonce_shifted_with_ctr_floor_zero() {
    assert_eq!(boot_session_id(0x1234_5678), 0x1234_5678_0000_0000);
    assert_eq!(boot_session_id(u32::MAX), 0xffff_ffff_0000_0000);
    assert_eq!(boot_session_id(0), 0);
}

#[test]
fn each_way_a_run_ends_has_its_exit_status() {
    assert_eq!(run_exit_code(&Ok(ServeOutcome::GracefulShutdown)), EXIT_SUCCESS);
    assert_eq!(
        run_exit_code(&Ok(ServeOutcome::SupervisorExited("renewal expired".into()))),
        EXIT_FAILURE
    );
    assert_eq!(
        run_exit_code(&Err(RunError::Authz("no principal".into()))),
        AUTHZ_REFUSAL_EXIT_CODE
    );
    assert_eq!(AUTHZ_REFUSAL_EXIT_CODE, 3);
    assert_eq!(
        run_exit_code(&Err(RunError::Other("no audit sink".into()))),
        EXIT_FAILURE
    );
    assert_eq!(RunError::Authz("m".into()).to_string(), "m");
    assert_eq!(RunError::Other("o".into()).to_string(), "o");
}

#[test]
fn classify_marker_load_missing_file_is_absent() {
    assert_eq!(
        classify_marker_load(Err(LoadFailure::NotFound)),
        MarkerOutcome::Absent
    );
}

#[test]
fn classify_marker_load_non_io_error_is_refused() {
    assert_eq!(
        classify_marker_load(Err(LoadFailure::Other("parse error at line 1".into()))),
        MarkerOutcome::Refused("parse error at line 1".into())
    );
}

#[test]
fn classify_marker_load_refused_marker_under_a_notfound_named_path_is_refused() {
    assert!(matches!(
        classify_marker_load(Err(LoadFailure::Other(
            "/tmp/NotFound/private/posture.yaml: not owned by root".into()
        ))),
        MarkerOutcome::Refused(_)
    ));
}

#[test]
fn classify_marker_load_ok_is_loaded() {
    let doc = mapping(&[("x", None)]);
    assert_eq!(
        classify_marker_load(Ok(doc.clone())),
        MarkerOutcome::Loaded(doc)
    );
}

#[test]
fn read_posture_marker_scalar_root_is_none() {
    assert_eq!(parse_posture_marker(&MarkerDocument::NotAMapping), None);
}

#[test]
fn read_posture_marker_missing_field_is_none() {
    let doc = mapping(&[
        ("mechanism", Some("tpm2")),
        ("target", Some("/etc/maknae/private/maknaed-secret-id.cred")),
    ]);
    assert_eq!(parse_posture_marker(&doc), None);
}

#[test]
fn read_posture_marker_valid_parses() {
    let doc = mapping(&[
        ("mechanism", Some("tpm2")),
        ("target", Some("/etc/maknae/private/maknaed-secret-id.cred")),
        ("timestamp", Some("2026-08-12T00:00:00.000Z")),
    ]);
    let m = parse_posture_marker(&doc).expect("valid marker parses");
    assert_eq!(m.mechanism, "tpm2");
    assert_eq!(m.target, "/etc/maknae/private/maknaed-secret-id.cred");
    assert_eq!(m.timestamp, "2026-08-12T00:00:00.000Z");
}

#[test]
fn a_non_string_field_or_a_later_duplicate_does_not_make_a_marker() {
    let doc = mapping(&[
        ("mechanism", None),
        ("mechanism", Some("tpm2")),
        ("target", Some("/x")),
        ("timestamp", Some("1")),
    ]);
    assert_eq!(parse_posture_marker(&doc), None);
    let doc = mapping(&[
        ("mechanism", Some("sep")),
        ("mechanism", Some("tpm2")),
        ("target", Some("/x")),
        ("timestamp", Some("1")),
    ]);
    assert_eq!(parse_posture_marker(&doc).unwrap().mechanism, "sep");
}

#[test]
fn read_posture_marker_refused_non_root_owned_file_is_none() {
    assert_eq!(marker_of(&MarkerOutcome::Refused("not root-owned".into())), None);
    assert_eq!(marker_of(&MarkerOutcome::Absent), None);
    let doc = mapping(&[
        ("mechanism", Some("tpm2")),
        ("target", Some("/x")),
        ("timestamp", Some("1786563711")),
    ]);
    assert_eq!(
        marker_of(&MarkerOutcome::Loaded(doc)),
        Some(PostureMarker {
            mechanism: "tpm2".into(),
            target: "/x".into(),
            timestamp: "1786563711".into()
        })
    );
}

#[test]
fn the_expected_sealed_target_follows_the_credential_source() {
    assert_eq!(
        expected_target("/etc/maknae", CredentialSource::CredentialsDirectory),
        "/etc/maknae/private/maknaed-secret-id.cred"
    );
    assert_eq!(
        expected_target("/etc/maknae/", CredentialSource::SepSealed),
        "/etc/maknae/private/maknaed-secret-id.sep"
    );
    assert_eq!(expected_target("/etc/maknae", CredentialSource::PlaintextPath), "");
}

#[test]
fn boot_records_state_the_posture_and_the_authz_refusal() {
    let r = posture_record(Posture::PlaintextDegraded);
    assert_eq!(
        (r.event.as_str(), r.action.as_str(), r.result.as_str(), r.reason.as_str(), r.posture.as_str()),
        ("boot", "posture", "permit", "boot credential posture recorded", "plaintext_degraded")
    );
    let r = authz_refusal_record("config has no `principal` section".into());
    assert_eq!(
        (r.event.as_str(), r.action.as_str(), r.result.as_str(), r.reason.as_str(), r.posture.as_str()),
        ("boot", "authz", "deny", "config has no `principal` section", "unauthorized")
    );
}

#[test]
fn a_supervisor_that_did_not_return_is_named_as_such() {
    assert_eq!(supervisor_exit_reason(Ok("renewal expired".into())), "renewal expired");
    assert_eq!(
        supervisor_exit_reason(Err("task panicked".into())),
        "credential supervisor task did not complete cleanly: task panicked"
    );
}

#[test]
fn a_reading_before_the_epoch_renders_as_the_epoch() {
    assert_eq!(rfc3339_of_reading(None), "1970-01-01T00:00:00.000Z");
    assert_eq!(rfc3339_of_reading(Some((0, 0))), "1970-01-01T00:00:00.000Z");
}

#[test]
fn a_reading_renders_its_own_instant() {
    assert_eq!(
        rfc3339_of_reading(Some((1_700_000_000, 123))),
        "2023-11-14T22:13:20.123Z"
    );
    assert_eq!(rfc3339_of_reading(Some((951_782_400, 7))), "2000-02-29T00:00:00.007Z");
}

#[test]
fn timestamps_are_twenty_four_characters_and_tell_instants_apart() {
    let instants = [(0u64, 0u32), (0, 1), (1, 0), (86_399, 999), (86_400, 0), (253_402_300_799, 999)];
    let texts: Vec<String> = instants.iter().map(|&(s, m)| epoch_to_rfc3339(s, m)).collect();
    for t in &texts {
        assert_eq!(t.len(), 24, "{t}");
    }
    for i in 0..texts.len() {
        for j in 0..i {
            assert_ne!(texts[i], texts[j]);
        }
    }
    assert_eq!(texts[5], "9999-12-31T23:59:59.999Z");
}
