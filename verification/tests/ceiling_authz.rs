use maknae_kernel::ceiling_authz::{
    decide_ceiling, is_control_plane, Label, Level, SystemReading, Verdict, CEILING_BACKEND_NAME,
    CONTROL_PLANE_CLASSES,
};

fn level(policy: &str, name: &str, rank: u32) -> Level {
    Level {
        policy: policy.into(),
        name: name.into(),
        rank,
    }
}

/// What the selected system answers for a label it ranks.
fn ranked(policy: &str, name: &str, rank: u32, dominates: Option<bool>) -> SystemReading {
    SystemReading {
        policy_name: policy.into(),
        level: Some(level(policy, name, rank)),
        recognizing: vec![policy.into()],
        ceiling_dominates: dominates,
    }
}

/// What the selected system answers for a marking it does not carry.
fn unranked(policy: &str, recognizing: &[&str]) -> SystemReading {
    SystemReading {
        policy_name: policy.into(),
        level: None,
        recognizing: recognizing.iter().map(|s| s.to_string()).collect(),
        ceiling_dominates: None,
    }
}

fn deny_reason(v: Verdict) -> String {
    match v {
        Verdict::Deny { reason } => reason,
        other => panic!("expected Deny, got {other:?}"),
    }
}

#[test]
fn class_match_is_exact_segment_not_prefix() {
    assert!(is_control_plane("admin"));
    assert!(is_control_plane("admin.status"));
    assert!(is_control_plane("kernel.session.terminate"));
    assert!(!is_control_plane("liveness_bypass.exec"));
    assert!(!is_control_plane("adminx"));
    assert!(!is_control_plane("admix"), "same length, different text");
    assert!(
        !is_control_plane("admi"),
        "a prefix of a class is not the class"
    );
    assert!(!is_control_plane("fs.read"));
    assert!(!is_control_plane("session.prompt"));
    assert!(!is_control_plane("mcp.tool.call"));
    assert!(!is_control_plane("terminal.input"));
    assert!(!is_control_plane("future.verb"));
    assert!(!is_control_plane(""));
}

#[test]
fn control_plane_classes_abstain_under_every_ceiling_and_every_label() {
    for action in [
        "liveness.ping",
        "admin.status",
        "admin.config.show",
        "kernel.contain",
    ] {
        for reading in [
            ranked("US", "TOP SECRET", 4, Some(false)),
            ranked("US", "UNCLASSIFIED", 0, Some(true)),
            unranked("US", &["AUS"]),
            unranked("US", &[]),
        ] {
            for label in [
                Label::Absent,
                Label::Marking("TOP SECRET"),
                Label::Marking("PROTECTED"),
                Label::NotAString,
            ] {
                assert_eq!(
                    decide_ceiling("UNCLASSIFIED", action, label, &reading),
                    Verdict::NotApplicable,
                    "{action} must abstain: {label:?}"
                );
            }
        }
    }
}

#[test]
fn never_permits_on_any_cell_in_either_system() {
    for reading in [
        ranked("US", "SECRET", 2, Some(true)),
        ranked("US", "SECRET", 2, Some(false)),
        ranked("AUS", "PROTECTED", 3, None),
        unranked("US", &["AUS"]),
        unranked("AUS", &[]),
    ] {
        for label in [
            Label::Absent,
            Label::Marking("UNCLASSIFIED"),
            Label::Marking("TOP SECRET"),
            Label::Marking("PROTECTED"),
            Label::Marking("BOGUS"),
            Label::NotAString,
        ] {
            assert!(
                !matches!(
                    decide_ceiling("SECRET", "fs.read", label, &reading),
                    Verdict::Permit
                ),
                "{label:?}"
            );
        }
    }
}

#[test]
fn only_the_level_matters_never_sci_cui_releasability_or_an_ato_reference() {
    assert_eq!(
        decide_ceiling(
            "UNCLASSIFIED",
            "fs.read",
            Label::Marking("UNCLASSIFIED"),
            &ranked("US", "UNCLASSIFIED", 0, Some(true))
        ),
        Verdict::NotApplicable
    );
    assert_eq!(
        deny_reason(decide_ceiling(
            "UNCLASSIFIED",
            "fs.read",
            Label::Marking("CONFIDENTIAL"),
            &ranked("US", "CONFIDENTIAL", 1, Some(false))
        )),
        "ceiling: content marked CONFIDENTIAL exceeds the declared ceiling UNCLASSIFIED"
    );
}

#[test]
fn unmarked_content_is_the_lowest_level_and_flows_under_every_ceiling_in_both_systems() {
    for (policy, unmarked) in [("US", "UNCLASSIFIED"), ("AUS", "UNOFFICIAL")] {
        for ceiling in ["SECRET", "TOP SECRET"] {
            assert_eq!(
                decide_ceiling(
                    ceiling,
                    "fs.read",
                    Label::Absent,
                    &ranked(policy, unmarked, 0, Some(true))
                ),
                Verdict::NotApplicable
            );
        }
    }
}

#[test]
fn a_foreign_systems_marking_is_recognized_and_refused_by_name() {
    assert_eq!(
        deny_reason(decide_ceiling(
            "TOP SECRET",
            "fs.read",
            Label::Marking("PROTECTED//AGAO"),
            &unranked("US", &["AUS"])
        )),
        "ceiling: marking is a level of the AUS system, not US"
    );
    assert_eq!(
        deny_reason(decide_ceiling(
            "TOP SECRET",
            "fs.read",
            Label::Marking("confidential"),
            &unranked("AUS", &["US"])
        )),
        "ceiling: marking is a level of the US system, not AUS"
    );
    assert_eq!(
        deny_reason(decide_ceiling(
            "TOP SECRET",
            "fs.read",
            Label::Marking("X"),
            &unranked("US", &["AUS", "US", "DCS"])
        )),
        "ceiling: marking is a level of the AUS/DCS system, not US"
    );
}

#[test]
fn a_malformed_marking_is_refused_not_treated_as_unmarked() {
    for raw in ["SEKRET", "TOP_SECRET", "", "//NOFORN", "FOUO"] {
        assert_eq!(
            deny_reason(decide_ceiling(
                "TOP SECRET",
                "fs.read",
                Label::Marking(raw),
                &unranked("US", &[])
            )),
            "ceiling: unrecognized classification marking",
            "{raw:?}"
        );
    }
    assert_eq!(
        deny_reason(decide_ceiling(
            "TOP SECRET",
            "fs.read",
            Label::NotAString,
            &ranked("US", "TOP SECRET", 4, Some(true))
        )),
        "ceiling: classification attribute is not a string"
    );
}

#[test]
fn a_ceiling_from_another_system_fails_closed() {
    for label in [Label::Absent, Label::Marking("UNCLASSIFIED")] {
        assert_eq!(
            deny_reason(decide_ceiling(
                "TOP SECRET",
                "fs.read",
                label,
                &ranked("US", "UNCLASSIFIED", 0, None)
            )),
            "ceiling: the declared ceiling is not a level of the US system",
            "{label:?}"
        );
    }
    assert_eq!(
        decide_ceiling(
            "TOP SECRET",
            "admin.status",
            Label::Absent,
            &ranked("US", "UNCLASSIFIED", 0, None)
        ),
        Verdict::NotApplicable
    );
}

#[test]
fn the_control_plane_classes_and_backend_name_are_pinned() {
    assert_eq!(CONTROL_PLANE_CLASSES, ["liveness", "admin", "kernel"]);
    assert_eq!(CEILING_BACKEND_NAME, "maknae-ceiling");
}
