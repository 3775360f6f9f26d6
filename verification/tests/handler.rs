use maknae_kernel::ceiling_authz::is_control_plane;
use maknae_kernel::handler::{
    build_authz_request, delegated_plan, Lane, HOME_MODE_MASK,
    build_whoami, discharge_plan, dispatch_verb, lexical_pregate, may_respond, read_budget,
    serve_outcome_to_exit_code, verb_to_action, Dispatch, Obligation, Payload, ServeOutcome,
    UnhonorableObligation, Verb, WriteMode, AUTHZ_DECIDE_TIMEOUT_MS, EXIT_FAILURE, EXIT_SUCCESS,
    FRAME_ENVELOPE_MARGIN, KERNEL_ACTIONS,
};

/// Every term in the vocabulary.
fn all_verbs() -> Vec<Verb> {
    vec![
        Verb::Ping,
        Verb::Whoami,
        Verb::AdminStatus,
        Verb::AdminConfigShow,
        Verb::AdminAuditTail,
        Verb::AdminPolicyReload,
        Verb::AdminSubjectList,
        Verb::AdminSubjectBind,
        Verb::AdminSubjectUnbind,
        Verb::AdminContain,
        Verb::AdminRelease,
        Verb::AdminCredentialRotate,
        Verb::AdminProviderList,
        Verb::AdminProviderSet,
        Verb::AdminProviderDisable,
        Verb::AdminCredentialBroker,
        Verb::AdminSessionList,
        Verb::AdminSessionTerminate,
        Verb::SessionNew,
        Verb::SessionResume,
        Verb::SessionClose,
        Verb::SessionDelete,
        Verb::SessionList,
        Verb::SessionFork,
        Verb::SessionPrompt {
            conversation: "c".into(),
            turns: vec![],
        },
        Verb::SessionCancel,
        Verb::SessionSetconfigoption,
        Verb::SessionSetmode,
        Verb::SessionLoad,
        Verb::SessionUpdate,
        Verb::SessionRequestpermission,
        Verb::SessionElicitCreate,
        Verb::SessionElicitComplete,
        Verb::SessionCompact,
        Verb::Read {
            path: String::new(),
            conversation: None,
        },
        Verb::FsWrite {
            path: "/x".into(),
            content: vec![],
            mode: WriteMode::Existing,
        },
        Verb::FsDelete {
            path: "/x".into(),
            recursive: false,
        },
        Verb::FsMove,
        Verb::FsList,
        Verb::FsStat,
        Verb::FsMkdir {
            path: "/x".into(),
            parents: false,
            components: vec!["x".into()],
        },
        Verb::FsLink,
        Verb::FsChmod,
        Verb::FsChown,
        Verb::TerminalCreate,
        Verb::TerminalOutput,
        Verb::TerminalWaitforexit,
        Verb::TerminalKill,
        Verb::TerminalRelease,
        Verb::TerminalInput,
        Verb::McpConnect,
        Verb::McpDisconnect,
        Verb::McpMessage,
        Verb::McpToolCall,
        Verb::McpResourceRead,
        Verb::McpPromptGet,
        Verb::McpSamplingCreate,
    ]
}

/// The terms the shipped policy can grant.
const GRANTABLE: [&str; 4] = [
    "admin.status",
    "admin.config.show",
    "admin.subject.list",
    "session.prompt",
];

fn all_dispatch(terms: &[&str]) -> bool {
    terms.iter().all(|t| {
        all_verbs()
            .into_iter()
            .find(|v| verb_to_action(v) == *t)
            .is_some_and(|v| dispatch_verb(&v) != Dispatch::NoBehaviour)
    })
}

fn ob(id: &str, params: &[&str]) -> Obligation {
    Obligation {
        id: id.into(),
        params: params.iter().map(|p| p.to_string()).collect(),
    }
}

#[test]
fn ping_dispatches_pong() {
    assert_eq!(dispatch_verb(&Verb::Ping), Dispatch::Pong);
}

#[test]
fn session_prompt_dispatches_to_prompt_requested_and_its_siblings_do_not() {
    assert_eq!(
        dispatch_verb(&Verb::SessionPrompt {
            conversation: "c".into(),
            turns: vec![]
        }),
        Dispatch::PromptRequested
    );
    assert_eq!(dispatch_verb(&Verb::SessionCancel), Dispatch::NoBehaviour);
    assert_eq!(dispatch_verb(&Verb::SessionUpdate), Dispatch::NoBehaviour);
}

#[test]
fn whoami_dispatches_requested() {
    assert_eq!(dispatch_verb(&Verb::Whoami), Dispatch::WhoamiRequested);
}

#[test]
fn each_grantable_term_dispatches_to_its_own_arm() {
    assert_eq!(dispatch_verb(&Verb::AdminStatus), Dispatch::StatusRequested);
    assert_eq!(
        dispatch_verb(&Verb::AdminConfigShow),
        Dispatch::ConfigShowRequested
    );
    assert_eq!(
        dispatch_verb(&Verb::AdminSubjectList),
        Dispatch::SubjectListRequested
    );
    let ungrantable: Vec<Verb> = all_verbs()
        .into_iter()
        .filter(|v| {
            let a = verb_to_action(v);
            a.starts_with("admin.") && a != "admin.whoami" && !GRANTABLE.contains(&a)
        })
        .collect();
    assert!(
        ungrantable.len() >= 13,
        "the ungrantable admin set should not shrink unnoticed: {}",
        ungrantable.len()
    );
    for v in ungrantable {
        assert_eq!(
            dispatch_verb(&v),
            Dispatch::NoBehaviour,
            "{v:?} is not grantable and must still disclose nothing"
        );
    }
}

#[test]
fn every_grantable_term_dispatches_and_the_hand_copy_matches() {
    assert!(all_dispatch(&GRANTABLE));
    assert!(
        !all_dispatch(&["admin.contain"]),
        "all_dispatch must return false for an unbuilt term"
    );
}

#[test]
fn config_show_dispatches_to_its_own_arm() {
    assert_eq!(
        dispatch_verb(&Verb::AdminConfigShow),
        Dispatch::ConfigShowRequested
    );
}

#[test]
fn may_respond_true_only_when_audit_ok() {
    assert!(may_respond(true));
    assert!(!may_respond(false));
}

#[test]
fn graceful_shutdown_maps_to_success() {
    assert_eq!(
        serve_outcome_to_exit_code(&ServeOutcome::GracefulShutdown),
        EXIT_SUCCESS
    );
}

#[test]
fn supervisor_exited_maps_to_failure() {
    assert_eq!(
        serve_outcome_to_exit_code(&ServeOutcome::SupervisorExited("renewal expired".into())),
        EXIT_FAILURE
    );
}

#[test]
fn supervisor_exited_is_failure_regardless_of_which_vault_error() {
    assert_eq!(
        serve_outcome_to_exit_code(&ServeOutcome::SupervisorExited(
            "supervisor task did not complete cleanly".to_string()
        )),
        EXIT_FAILURE
    );
}

#[test]
fn graceful_shutdown_and_supervisor_exited_map_to_different_codes() {
    assert_ne!(
        serve_outcome_to_exit_code(&ServeOutcome::GracefulShutdown),
        serve_outcome_to_exit_code(&ServeOutcome::SupervisorExited("renewal expired".into()))
    );
}

#[test]
fn whoami_view_carries_exact_peer_facts() {
    match build_whoami("maknae://d/plane/cli", 501) {
        Payload::Whoami(w) => {
            assert_eq!(w.peer_uid, 501);
            assert_eq!(w.peer_plane_uri_san, "maknae://d/plane/cli");
        }
        other => panic!("expected Payload::Whoami, got {other:?}"),
    }
}

#[test]
fn build_whoami_is_not_pong() {
    assert_ne!(build_whoami("maknae://d/plane/cli", 1), Payload::Pong);
}

#[test]
fn verb_action_names_are_the_taxonomy() {
    assert_eq!(verb_to_action(&Verb::Ping), "liveness.ping");
    assert_eq!(verb_to_action(&Verb::Whoami), "admin.whoami");
    assert_eq!(
        verb_to_action(&Verb::Read {
            path: "/x".into(),
            conversation: None
        }),
        "fs.read"
    );
}

#[test]
fn verb_action_names_are_pairwise_distinct() {
    let p = verb_to_action(&Verb::Ping);
    let w = verb_to_action(&Verb::Whoami);
    let r = verb_to_action(&Verb::Read {
        path: "/x".into(),
        conversation: None,
    });
    assert_ne!(p, w);
    assert_ne!(p, r);
    assert_ne!(w, r);
}

#[test]
fn a_read_dispatches_to_the_attempt_lane() {
    assert_eq!(
        dispatch_verb(&Verb::Read {
            path: "/home/op/a".into(),
            conversation: None,
        }),
        Dispatch::MutationRequested
    );
    assert_ne!(
        dispatch_verb(&Verb::Read {
            path: "/x".into(),
            conversation: None
        }),
        Dispatch::Pong
    );
    assert_ne!(
        dispatch_verb(&Verb::Read {
            path: "/x".into(),
            conversation: None
        }),
        Dispatch::WhoamiRequested
    );
}

#[test]
fn filesystem_mutations_require_the_dedicated_intent_path() {
    for verb in all_verbs()
        .into_iter()
        .filter(|v| matches!(verb_to_action(v), "fs.write" | "fs.delete" | "fs.mkdir"))
    {
        assert_eq!(dispatch_verb(&verb), Dispatch::MutationRequested);
    }
    assert_ne!(dispatch_verb(&Verb::FsMove), Dispatch::MutationRequested);
}

#[test]
fn decide_timeout_is_five_seconds_and_nonzero() {
    assert_eq!(AUTHZ_DECIDE_TIMEOUT_MS, 5_000);
    assert_ne!(AUTHZ_DECIDE_TIMEOUT_MS, 0);
}

#[test]
fn exactly_audit_discharges() {
    assert!(discharge_plan(&[ob("audit", &[])]).is_ok());
    assert!(
        discharge_plan(&[]).is_ok(),
        "no obligations is fine — audit is unconditional"
    );
}

#[test]
fn unknown_obligation_is_unhonorable_regardless_of_order() {
    let exfil = ob("exfil", &[]);
    assert_eq!(
        discharge_plan(std::slice::from_ref(&exfil)),
        Err(UnhonorableObligation("exfil".into()))
    );
    assert_eq!(
        discharge_plan(&[ob("audit", &[]), exfil.clone()]),
        Err(UnhonorableObligation("exfil".into()))
    );
    assert_eq!(
        discharge_plan(&[exfil, ob("audit", &[])]),
        Err(UnhonorableObligation("exfil".into()))
    );
}

#[test]
fn audit_with_params_is_unhonorable() {
    assert_eq!(
        discharge_plan(&[ob("audit", &["scope"])]),
        Err(UnhonorableObligation("audit".into()))
    );
}

#[test]
fn pregate_accepts_canonical_absolute_paths() {
    assert!(lexical_pregate("/home/op/notes.txt").is_ok());
    assert!(
        lexical_pregate("/").is_ok(),
        "bare / is vacuous — matches no glob"
    );
    assert!(lexical_pregate("/a").is_ok());
}

#[test]
fn pregate_refuses_every_non_canonical_form() {
    assert!(lexical_pregate("relative/x").is_err());
    assert!(lexical_pregate("").is_err());
    assert!(lexical_pregate("/a/../b").is_err());
    assert!(lexical_pregate("/a/./b").is_err());
    assert!(lexical_pregate("/a//b").is_err());
    assert!(lexical_pregate("/a/").is_err());
    assert!(
        lexical_pregate("~/x").is_err(),
        "~ is client-side only, never wire"
    );
}

#[test]
fn pregate_names_each_refusal() {
    assert_eq!(lexical_pregate("relative/x"), Err("not absolute"));
    assert_eq!(lexical_pregate("/a/"), Err("trailing slash"));
    assert_eq!(lexical_pregate("/a//b"), Err("empty segment"));
    assert_eq!(lexical_pregate("/a/../b"), Err("dot segment"));
    assert_eq!(lexical_pregate("/a/./b"), Err("dot segment"));
    assert_eq!(lexical_pregate("/a/.hidden/b"), Ok(()));
}

#[test]
fn read_budget_subtracts_the_margin_and_saturates() {
    assert_eq!(read_budget(65536), 65536 - 512);
    assert_eq!(read_budget(512), 0);
    assert_eq!(
        read_budget(1),
        0,
        "degenerate config is fail-closed, not a bug"
    );
    assert_eq!(FRAME_ENVELOPE_MARGIN, 512);
}

#[test]
fn every_verb_partitions_into_control_plane_or_content() {
    let mut control = 0usize;
    let mut content = 0usize;
    for v in all_verbs() {
        let action = verb_to_action(&v);
        let expected_control = action.starts_with("liveness.") || action.starts_with("admin.");
        assert_eq!(is_control_plane(action), expected_control, "{action}");
        if expected_control {
            control += 1;
        } else {
            content += 1;
        }
    }
    for k in KERNEL_ACTIONS {
        assert!(is_control_plane(k), "kernel pseudo-action {k} is control plane");
    }
    assert!(control > 0 && content > 0, "control={control} content={content}");
}

#[test]
fn kernel_actions_resolve_to_the_kernel_class_and_collide_with_nothing() {
    let client: Vec<&str> = all_verbs().iter().map(verb_to_action).collect();
    for a in KERNEL_ACTIONS {
        assert_eq!(a.split('.').next(), Some("kernel"), "{a} must be a kernel action");
        assert!(!client.contains(&a), "{a} collides with a client-reachable term");
    }
}

#[test]
fn the_vocabulary_is_fifty_seven_client_reachable_terms() {
    assert_eq!(all_verbs().len(), 57);
}

#[test]
fn every_action_string_is_distinct() {
    let actions: Vec<&str> = all_verbs().iter().map(verb_to_action).collect();
    let uniq: std::collections::BTreeSet<&&str> = actions.iter().collect();
    assert_eq!(uniq.len(), actions.len(), "action strings must be pairwise distinct");
}

#[test]
fn no_action_string_equals_an_adr0019_pseudo_action() {
    for v in all_verbs() {
        let a = verb_to_action(&v);
        assert!(
            !["connect", "read", "decode", "authz", "posture"].contains(&a),
            "{a} collides with a transport/boot pseudo-action"
        );
    }
}

#[test]
fn every_term_resolves_to_a_closed_class() {
    const CLASSES: [&str; 7] = [
        "liveness", "admin", "session", "fs", "terminal", "mcp", "kernel",
    ];
    for v in all_verbs() {
        let a = verb_to_action(&v);
        let head = a.split('.').next().unwrap();
        assert!(CLASSES.contains(&head), "{a} resolves to no closed class");
    }
}

#[test]
fn the_request_carries_the_registered_provider_as_the_destination_and_nothing_when_none() {
    let v = Verb::SessionPrompt {
        conversation: "c".into(),
        turns: vec![],
    };
    let r = build_authz_request(&v, 1002, Lane::Local, Some("openai"));
    assert_eq!(r.destination.as_deref(), Some("provider:openai"));
    assert!(build_authz_request(&v, 1002, Lane::Local, None)
        .destination
        .is_none());
    assert!(build_authz_request(&Verb::Ping, 1002, Lane::Local, Some("openai"))
        .destination
        .is_none());
}

#[test]
fn request_carries_uid_lossless_at_both_extremes() {
    let r = build_authz_request(&Verb::Ping, 0, Lane::Local, None);
    assert_eq!(r.uid, 0);
    let r = build_authz_request(&Verb::Whoami, u32::MAX, Lane::Local, None);
    assert_eq!(r.uid, i64::from(u32::MAX));
}

#[test]
fn request_action_matches_taxonomy_and_resource_is_empty_for_non_read() {
    let r = build_authz_request(&Verb::Whoami, 501, Lane::Local, None);
    assert_eq!(r.action, "admin.whoami");
    assert!(r.path.is_none() && r.destination.is_none());
    assert_eq!(r.lane.as_str(), "local");
}

#[test]
fn read_request_carries_the_path_resource() {
    let r = build_authz_request(
        &Verb::Read {
            path: "/home/op/n".into(),
            conversation: None,
        },
        501,
        Lane::Local,
        None,
    );
    assert_eq!(r.action, "fs.read");
    assert_eq!(r.path.as_deref(), Some("/home/op/n"));
}

#[test]
fn the_lane_comes_from_the_listener_and_client_content_cannot_change_it() {
    let local = build_authz_request(&Verb::Whoami, 501, Lane::Local, None);
    let remote = build_authz_request(&Verb::Whoami, 501, Lane::Remote, None);
    assert_eq!(local.lane.as_str(), "local");
    assert_eq!(remote.lane.as_str(), "remote");
    let smuggled = build_authz_request(
        &Verb::Read {
            path: "/home/op/remote".into(),
            conversation: None,
        },
        501,
        Lane::Local,
        None,
    );
    assert_eq!(
        smuggled.lane,
        Lane::Local,
        "client-supplied content must never influence the lane"
    );
}

#[test]
fn only_read_carries_a_resource_attribute() {
    for v in all_verbs() {
        let r = build_authz_request(&v, 501, Lane::Local, None);
        if matches!(v, Verb::Read { .. }) {
            assert!(r.path.is_some(), "fs.read must carry its path");
        } else {
            assert!(
                r.path.is_none(),
                "{} must carry NO path",
                verb_to_action(&v)
            );
        }
    }
}

#[test]
fn delegated_plan_names_all_three_proofs() {
    let req = delegated_plan("/home/op", 501, None);
    assert_eq!(req.confined_beneath, "/home/op");
    assert_eq!(req.root_owner, Some(501));
    assert_eq!(req.root_mode_mask, Some(0o022));
    assert_eq!(HOME_MODE_MASK, 0o022);
    assert!(req.nlink_exactly_one);
    assert!(req.regular_file);
    assert_eq!(req.max_bytes, None);
    assert_eq!(req.target_owner, None);
    assert_eq!(req.target_mode_mask, None);
    assert_eq!(delegated_plan("/home/op", 501, Some(4096)).max_bytes, Some(4096));
}
