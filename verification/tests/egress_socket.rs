use maknae_kernel::egress::EgressFailure;
use maknae_kernel::egress_socket::{
    DeputyAction, DeputyEvent, DeputyPhase, IoErrorKind, SocketEgress,
};
use std::time::Duration;

fn backend(cap: usize) -> SocketEgress {
    SocketEgress::new("/run/maknae/egress.sock".into(), 4242, Duration::from_secs(2), cap)
}

#[test]
fn the_backend_keeps_what_it_was_built_with() {
    let e = backend(64 * 1024);
    assert_eq!(e.socket_path(), "/run/maknae/egress.sock");
    assert_eq!(e.listener_uid(), 4242);
    assert_eq!(e.deadline(), Duration::from_secs(2));
    assert_eq!(e.frame_cap(), 64 * 1024);
}

#[test]
fn ready_fails_closed_with_no_socket() {
    let e = backend(64 * 1024);
    assert_eq!(e.readiness(false), Err(EgressFailure::NotConfigured));
}

#[test]
fn ready_succeeds_once_the_deputy_socket_exists() {
    let e = backend(64 * 1024);
    assert_eq!(e.readiness(true), Ok(()));
}

#[test]
fn a_spent_budget_is_deadline_expired_at_every_step() {
    assert_eq!(
        SocketEgress::remaining(1_000, 2_000).unwrap_err(),
        EgressFailure::DeadlineExpired
    );
    assert_eq!(
        SocketEgress::remaining(1_000, 1_000).unwrap_err(),
        EgressFailure::DeadlineExpired
    );
    assert_eq!(SocketEgress::remaining(6_000, 1_000).unwrap(), 5_000);
    assert!(SocketEgress::remaining(6_000, 1_000).unwrap() > 4_000);
}

#[test]
fn every_failure_after_the_first_byte_is_delivery_unknown() {
    assert_eq!(
        SocketEgress::after_send(SocketEgress::transport("write: broken pipe".into())),
        EgressFailure::AfterSend("write: broken pipe".into())
    );
    assert_eq!(
        SocketEgress::after_send(EgressFailure::DeadlineExpired),
        EgressFailure::DeadlineExpired
    );
    assert_eq!(
        SocketEgress::after_send(EgressFailure::AfterSend("x".into())),
        EgressFailure::AfterSend("x".into())
    );
    assert_eq!(
        SocketEgress::transport("connect: no such file".into()),
        EgressFailure::Transport("connect: no such file".into())
    );
}

#[test]
fn only_interrupted_and_would_block_writes_are_retried() {
    assert!(SocketEgress::write_is_retried(IoErrorKind::Interrupted));
    assert!(SocketEgress::write_is_retried(IoErrorKind::WouldBlock));
    assert!(!SocketEgress::write_is_retried(IoErrorKind::Other));
}

#[test]
fn the_frame_cap_refuses_above_it_and_admits_at_it() {
    let cap = 4096usize;
    let e = backend(cap);
    assert_eq!(e.declared_reply_len(cap as u32), Ok(cap));
    match e.declared_reply_len(cap as u32 + 1) {
        Err(EgressFailure::AfterSend(m)) => {
            assert!(m.contains("over the"), "{m}");
            assert_eq!(
                m,
                "deputy declared a 4097-byte reply frame over the 4096-byte cap"
            );
        }
        other => panic!("expected an over-cap refusal, got {other:?}"),
    }
}

#[test]
fn a_deputy_declaring_an_enormous_frame_is_refused_before_allocating() {
    let e = backend(64 * 1024);
    match e.declared_reply_len(u32::MAX) {
        Err(EgressFailure::AfterSend(m)) => assert_eq!(
            m,
            "deputy declared a 4294967295-byte reply frame over the 65536-byte cap"
        ),
        other => panic!("expected an over-cap refusal, got {other:?}"),
    }
}

#[test]
fn a_peer_whose_uid_is_not_expected_is_refused_before_anything_is_written() {
    assert_eq!(SocketEgress::peer_check(true), Ok(()));
    assert_eq!(
        SocketEgress::peer_check(false),
        Err(EgressFailure::Transport("egress peer is not the expected uid".into()))
    );
}

#[test]
fn the_listener_predicate_accepts_the_expected_uid_and_root_only() {
    let e = backend(64 * 1024);
    assert!(e.listener_accepted(4242));
    assert!(e.listener_accepted(0));
    assert!(!e.listener_accepted(4243));
    assert!(!e.listener_accepted(1000));
}

#[test]
fn an_over_cap_request_is_refused_before_the_first_write() {
    let e = backend(64 * 1024);
    match e.before_first_write(true, 70_000, 65_536) {
        Err(EgressFailure::Transport(m)) => {
            assert!(m.contains("request frame"), "{m}");
            assert_eq!(m, "request frame of 70000 bytes over the 65536-byte cap");
        }
        other => panic!("expected a pre-send cap refusal, got {other:?}"),
    }
    assert_eq!(e.before_first_write(true, 65_536, 65_536), Ok(()));
}

#[test]
fn the_peer_is_checked_before_the_request_size() {
    let e = backend(64 * 1024);
    assert_eq!(
        e.before_first_write(false, 70_000, 65_536),
        Err(EgressFailure::Transport(
            "egress peer is not the expected uid".into()
        ))
    );
    assert_eq!(
        e.before_first_write(e.listener_accepted(7), 10, 65_536),
        Err(EgressFailure::Transport(
            "egress peer is not the expected uid".into()
        ))
    );
}

const REQUEST_CAP: usize = 1 << 20;

fn checking(e: &SocketEgress, request_len: usize) -> DeputyPhase {
    let (phase, action) = e.deputy_step(
        DeputyPhase::Connecting,
        DeputyEvent::Connected { request_len },
        REQUEST_CAP,
    );
    assert_eq!(action, DeputyAction::ReadPeer);
    phase
}

#[test]
fn a_foreign_listener_ends_the_exchange_before_any_write() {
    let e = backend(64 * 1024);
    let phase = checking(&e, 10);
    let (phase, action) = e.deputy_step(phase, DeputyEvent::PeerRead { listener_uid: 77 }, REQUEST_CAP);
    assert_eq!(phase, DeputyPhase::Done);
    assert_eq!(
        action,
        DeputyAction::Finish {
            result: Err(EgressFailure::Transport(
                "egress peer is not the expected uid".into()
            ))
        }
    );
}

#[test]
fn an_over_cap_request_ends_the_exchange_before_any_write() {
    let e = backend(64 * 1024);
    let phase = checking(&e, REQUEST_CAP + 1);
    let (phase, action) = e.deputy_step(phase, DeputyEvent::PeerRead { listener_uid: 4242 }, REQUEST_CAP);
    assert_eq!(phase, DeputyPhase::Done);
    match action {
        DeputyAction::Finish {
            result: Err(EgressFailure::Transport(m)),
        } => assert!(m.contains("request frame"), "{m}"),
        other => panic!("expected a pre-send refusal, got {other:?}"),
    }
}

#[test]
fn an_accepted_peer_is_written_to_and_the_reply_cap_guards_allocation() {
    let e = backend(64 * 1024);
    for uid in [4242, 0] {
        let phase = checking(&e, REQUEST_CAP);
        let (phase, action) = e.deputy_step(phase, DeputyEvent::PeerRead { listener_uid: uid }, REQUEST_CAP);
        assert_eq!((phase.clone(), action), (DeputyPhase::Sending, DeputyAction::Write));
        let (phase, action) = e.deputy_step(phase, DeputyEvent::Sent { result: Ok(()) }, REQUEST_CAP);
        assert_eq!((phase, action), (DeputyPhase::AwaitingLength, DeputyAction::ReadLength));
    }
    let (phase, action) = e.deputy_step(
        DeputyPhase::AwaitingLength,
        DeputyEvent::LengthRead { result: Ok(64 * 1024) },
        REQUEST_CAP,
    );
    assert_eq!((phase, action), (DeputyPhase::ReadingBody, DeputyAction::Allocate { n: 64 * 1024 }));
    let (phase, action) = e.deputy_step(
        DeputyPhase::AwaitingLength,
        DeputyEvent::LengthRead { result: Ok(64 * 1024 + 1) },
        REQUEST_CAP,
    );
    assert_eq!(phase, DeputyPhase::Done);
    match action {
        DeputyAction::Finish {
            result: Err(EgressFailure::AfterSend(m)),
        } => assert!(m.contains("over the"), "{m}"),
        other => panic!("expected an over-cap refusal, got {other:?}"),
    }
}

#[test]
fn failures_after_the_first_write_are_delivery_unknown() {
    let e = backend(64 * 1024);
    let (_, action) = e.deputy_step(
        DeputyPhase::Sending,
        DeputyEvent::Sent {
            result: Err(EgressFailure::Transport("reset".into())),
        },
        REQUEST_CAP,
    );
    assert_eq!(
        action,
        DeputyAction::Finish {
            result: Err(EgressFailure::AfterSend("reset".into()))
        }
    );
    let (_, action) = e.deputy_step(
        DeputyPhase::ReadingBody,
        DeputyEvent::BodyRead { result: Ok(()) },
        REQUEST_CAP,
    );
    assert_eq!(action, DeputyAction::Finish { result: Ok(()) });
}
