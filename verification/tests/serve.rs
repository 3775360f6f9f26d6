use maknae_kernel::blocking_guard::{BlockingBreaker, BreakerAdmission};
use maknae_kernel::handler::{Dispatch, Obligation, Verb};
use maknae_kernel::run::RejectReason;
use maknae_kernel::serve::{
    admitted_membership, at_capacity_record, counts_as_timeout, decide_admission_refusal,
    decide_worker_refusal, enumeration_unavailable, oversize_correction, read_admission_refusal,
    rejected_handshake_record, settle_worker, step as step_with_peer, Action, Decision, Event, Phase, Record, Reply, WireError,
    WorkerEnd,
};

const PEER: u32 = 1000;

fn step(phase: Phase, event: Event) -> (Phase, Action) {
    step_with_peer(phase, event, PEER)
}

fn emitted(a: Action) -> Record {
    match a {
        Action::Emit { record, .. } => record,
        other => panic!("expected an audit append, got {other:?}"),
    }
}

fn numbering(a: &Action) -> (u64, u32) {
    match a {
        Action::Emit {
            seq, source_uid, ..
        } => (*seq, *source_uid),
        other => panic!("expected an audit append, got {other:?}"),
    }
}

fn read(path: &str) -> Verb {
    Verb::Read {
        path: path.into(),
        conversation: None,
    }
}

fn permit() -> Decision {
    Decision::Permit {
        obligations: vec![Obligation {
            id: "audit".into(),
            params: vec![],
        }],
    }
}

#[test]
fn a_peer_outside_the_group_is_recorded_and_closed_unread() {
    let (phase, action) = step(Phase::Admitting, Event::Opened { in_group: false });
    let r = emitted(action);
    assert_eq!(
        (r.event.as_str(), r.action.as_str(), r.result.as_str(), r.reason.as_str(), r.posture.as_str()),
        ("connection", "connect", "deny", "peer uid not in `maknae` group", "unauthorized")
    );
    for ok in [true, false] {
        let (next, action) = step(phase.clone(), Event::Appended { ok });
        assert!(matches!(next, Phase::Finished));
        assert!(matches!(action, Action::Close));
    }
}

#[test]
fn admission_is_recorded_before_the_request_is_read() {
    let (phase, action) = step(Phase::Admitting, Event::Opened { in_group: true });
    let r = emitted(action);
    assert_eq!(
        (r.result.as_str(), r.reason.as_str(), r.posture.as_str()),
        ("permit", "admitted", "authorized")
    );
    let (next, action) = step(phase.clone(), Event::Appended { ok: false });
    assert!(matches!((next, action), (Phase::Finished, Action::Close)));
    let (next, action) = step(phase, Event::Appended { ok: true });
    assert!(matches!((next, action), (Phase::AwaitingRequest, Action::ReadFrame)));
}

#[test]
fn a_failed_read_or_decode_is_recorded_and_never_answered() {
    for (event, stage, reason) in [
        (Event::FrameTimedOut, "read", "read timeout"),
        (
            Event::FrameFailed {
                message: "oversize".into(),
            },
            "read",
            "frame read failed: oversize",
        ),
        (
            Event::Malformed {
                message: "bad cbor".into(),
            },
            "decode",
            "malformed request: bad cbor",
        ),
    ] {
        let (phase, action) = step(Phase::AwaitingRequest, event);
        let r = emitted(action);
        assert_eq!((r.event.as_str(), r.action.as_str(), r.result.as_str()), ("request", stage, "deny"));
        assert_eq!(r.reason, reason);
        let (_, action) = step(phase, Event::Appended { ok: true });
        assert!(matches!(action, Action::Close));
    }
}

#[test]
fn a_malformed_read_path_is_a_bad_request_and_never_decided() {
    let (phase, action) = step(
        Phase::AwaitingRequest,
        Event::Decoded {
            verb: read("/a/../b"),
            verified_path: None,
        },
    );
    let r = emitted(action);
    assert_eq!(r.action, "fs.read");
    assert_eq!(r.object.as_deref(), Some("/a/../b"));
    assert_eq!(r.reason, "path fails canonical pre-gate: dot segment");
    let (_, action) = step(phase, Event::Appended { ok: true });
    match action {
        Action::Respond { error } => {
            assert_eq!(error, WireError::BadRequest);
            assert_eq!(error.message(), "malformed path");
        }
        other => panic!("expected a bad request, got {other:?}"),
    }
}

#[test]
fn a_read_is_decided_on_the_verified_object_and_records_the_divergence() {
    let (phase, action) = step(
        Phase::AwaitingRequest,
        Event::Decoded {
            verb: read("/home/op/link"),
            verified_path: Some("/home/op/real".into()),
        },
    );
    match action {
        Action::Decide { object } => assert_eq!(object.as_deref(), Some("/home/op/real")),
        other => panic!("expected a decision, got {other:?}"),
    }
    let (phase, action) = step(
        phase,
        Event::Decided {
            decision: Decision::Deny {
                reason: "outside the read grant".into(),
            },
        },
    );
    let r = emitted(action);
    assert_eq!(r.object.as_deref(), Some("/home/op/real"));
    assert_eq!(r.object_requested.as_deref(), Some("/home/op/link"));
    assert_eq!(r.reason, "outside the read grant");
    assert!(matches!(phase, Phase::Recorded { then: Reply::Error(WireError::Unauthorized) }));
    let (_, action) = step(phase, Event::Appended { ok: true });
    match action {
        Action::Respond { error } => assert_eq!(error.message(), "not authorized"),
        other => panic!("expected an unauthorized frame, got {other:?}"),
    }
}

#[test]
fn a_permitted_term_is_served_only_after_its_record_lands() {
    let (phase, _) = step(
        Phase::AwaitingRequest,
        Event::Decoded {
            verb: Verb::Whoami,
            verified_path: None,
        },
    );
    let (phase, action) = step(phase, Event::Decided { decision: permit() });
    let r = emitted(action);
    assert_eq!(
        (r.action.as_str(), r.result.as_str(), r.reason.as_str(), r.posture.as_str()),
        ("admin.whoami", "permit", "authorized", "authorized")
    );
    let (_, lost) = step(phase.clone(), Event::Appended { ok: false });
    assert!(matches!(lost, Action::Close));
    let (_, served) = step(phase, Event::Appended { ok: true });
    assert!(matches!(
        served,
        Action::Serve {
            dispatch: Dispatch::WhoamiRequested
        }
    ));
}

#[test]
fn an_unhonorable_obligation_and_an_unbuilt_term_are_refused() {
    let decided = |verb: Verb, decision: Decision| {
        let (phase, _) = step(
            Phase::AwaitingRequest,
            Event::Decoded {
                verb,
                verified_path: None,
            },
        );
        step(phase, Event::Decided { decision })
    };
    let (phase, action) = decided(
        Verb::Whoami,
        Decision::Permit {
            obligations: vec![
                Obligation {
                    id: "audit".into(),
                    params: vec![],
                },
                Obligation {
                    id: "exfil".into(),
                    params: vec![],
                },
            ],
        },
    );
    assert_eq!(emitted(action).reason, "unhonorable obligation: exfil");
    assert!(matches!(phase, Phase::Recorded { then: Reply::Error(WireError::Unauthorized) }));
    let (phase, action) = decided(Verb::FsMove, permit());
    let r = emitted(action);
    assert_eq!(
        (r.result.as_str(), r.reason.as_str(), r.posture.as_str()),
        ("permit", "permitted; term not implemented", "not-implemented")
    );
    assert!(matches!(phase, Phase::Recorded { then: Reply::Error(WireError::NotImplemented) }));
    let (phase, action) = decided(read("/home/op/a"), permit());
    assert!(matches!(phase, Phase::Finished));
    assert!(matches!(
        action,
        Action::Handoff {
            dispatch: Dispatch::MutationRequested,
            ..
        }
    ));
}

#[test]
fn an_out_of_order_event_finishes_the_connection() {
    let (next, action) = step(Phase::AwaitingRequest, Event::Appended { ok: true });
    assert!(matches!((next, action), (Phase::Finished, Action::Close)));
    let (next, action) = step(Phase::Finished, Event::Opened { in_group: true });
    assert!(matches!((next, action), (Phase::Finished, Action::Close)));
}

#[test]
fn breakers_and_workers_fail_closed_with_their_own_reasons() {
    assert_eq!(decide_admission_refusal(BreakerAdmission::Admit), None);
    assert_eq!(
        decide_admission_refusal(BreakerAdmission::RefuseOpen),
        Some("authorization decision circuit breaker open")
    );
    assert_eq!(
        decide_admission_refusal(BreakerAdmission::RefuseAtCapacity),
        Some("authorization decision blocking worker budget exhausted")
    );
    assert_eq!(
        read_admission_refusal(BreakerAdmission::RefuseOpen),
        Some("read circuit breaker open")
    );
    assert_eq!(
        read_admission_refusal(BreakerAdmission::RefuseAtCapacity),
        Some("read blocking worker budget exhausted")
    );
    assert_eq!(decide_worker_refusal(WorkerEnd::Completed), None);
    assert_eq!(
        decide_worker_refusal(WorkerEnd::JoinFailed),
        Some("authorization decision failed (join)")
    );
    assert_eq!(
        decide_worker_refusal(WorkerEnd::TimedOut),
        Some("authorization decision timed out")
    );
    assert!(counts_as_timeout(WorkerEnd::TimedOut));
    assert!(!counts_as_timeout(WorkerEnd::JoinFailed));
    assert!(!counts_as_timeout(WorkerEnd::Completed));
}

#[test]
fn group_membership_is_admitted_only_on_a_completed_yes() {
    assert!(admitted_membership(BreakerAdmission::Admit, WorkerEnd::Completed, Some(true)));
    assert!(!admitted_membership(BreakerAdmission::Admit, WorkerEnd::Completed, Some(false)));
    assert!(!admitted_membership(BreakerAdmission::Admit, WorkerEnd::Completed, None));
    assert!(!admitted_membership(BreakerAdmission::Admit, WorkerEnd::TimedOut, Some(true)));
    assert!(!admitted_membership(BreakerAdmission::Admit, WorkerEnd::JoinFailed, Some(true)));
    assert!(!admitted_membership(BreakerAdmission::RefuseOpen, WorkerEnd::Completed, Some(true)));
}

#[test]
fn refused_connections_are_recorded_by_why() {
    let r = at_capacity_record();
    assert_eq!((r.event.as_str(), r.reason.as_str()), ("connection", "at capacity"));
    let r = rejected_handshake_record(&RejectReason::WrongPlane);
    assert_eq!((r.result.as_str(), r.reason.as_str()), ("deny", "wrong plane uri-san"));
}

#[test]
fn an_oversize_answer_is_refused_explicitly_and_a_fitting_one_is_not() {
    assert!(oversize_correction("admin.config.show", 4096, 4096).is_none());
    let (r, e) = oversize_correction("admin.config.show", 4097, 4096).unwrap();
    assert_eq!(e, WireError::TooLarge);
    assert_eq!(
        (r.result.as_str(), r.reason.as_str(), r.posture.as_str()),
        ("permit", "delivery refused: response exceeds the frame limit", "refused-oversize")
    );
    assert_eq!(e.message(), "response exceeds the configured frame limit");
    let (r, e) = enumeration_unavailable("admin.subject.list");
    assert_eq!(e, WireError::Internal);
    assert_eq!((r.result.as_str(), r.posture.as_str()), ("deny", "unavailable"));
    assert_eq!(e.message(), "binding enumeration unavailable");
}

#[test]
fn the_admission_record_is_first_and_names_the_peer() {
    for in_group in [false, true] {
        let (_, action) = step_with_peer(Phase::Admitting, Event::Opened { in_group }, 4321);
        assert_eq!(numbering(&action), (1, 4321));
    }
}

#[test]
fn the_request_record_follows_admission_and_names_the_peer() {
    let (_, action) = step(Phase::AwaitingRequest, Event::FrameTimedOut);
    assert_eq!(numbering(&action), (2, PEER));
    let (phase, _) = step(
        Phase::AwaitingRequest,
        Event::Decoded {
            verb: Verb::Ping,
            verified_path: None,
        },
    );
    let (_, action) = step(
        phase,
        Event::Decided {
            decision: Decision::Deny {
                reason: "no".into(),
            },
        },
    );
    assert_eq!(numbering(&action), (2, PEER));
}

#[test]
fn a_completed_worker_gives_its_decision_and_closes_the_breaker() {
    let mut b = BlockingBreaker::new(1);
    assert_eq!(b.begin_attempt_at(0), BreakerAdmission::Admit);
    let (d, tripped) = settle_worker(&mut b, 10, WorkerEnd::Completed, Some(permit()));
    assert!(
        matches!(&d, Decision::Permit { obligations } if obligations.len() == 1 && obligations[0].id == "audit")
    );
    assert!(!tripped);
    assert!(!b.is_open_at(10));
}

#[test]
fn a_timed_out_worker_is_a_deny_and_counts_toward_the_trip() {
    let mut b = BlockingBreaker::new(1);
    assert_eq!(b.begin_attempt_at(0), BreakerAdmission::Admit);
    let (d, tripped) = settle_worker(&mut b, 10, WorkerEnd::TimedOut, Some(permit()));
    assert!(matches!(&d, Decision::Deny { reason } if reason == "authorization decision timed out"));
    assert!(tripped);
    assert!(b.is_open_at(10));
}

#[test]
fn a_worker_that_returned_nothing_is_a_join_failure() {
    for end in [WorkerEnd::JoinFailed, WorkerEnd::Completed] {
        let mut b = BlockingBreaker::new(3);
        let (d, tripped) = settle_worker(&mut b, 0, end, None);
        assert!(
            matches!(&d, Decision::Deny { reason } if reason == "authorization decision failed (join)")
        );
        assert!(!tripped);
    }
}
