use maknae_kernel::egress::{
    admitted_blocks, admitted_reply, commit_intent, content_measure, frame_len_within_cap, outcome_for,
    production_egress, reply_capacity, reply_text_length, ContentBlock, Egress, EgressAudit,
    EgressFailure, EgressRecord, EgressRequest, EgressStatus, Outcome, PromptReply, ReplyRefusal, SendOutcome,
    Unavailable, FRAME_ENVELOPE_MARGIN, REPLY_BLOCK_ENVELOPE,
};

fn text(s: &str) -> ContentBlock {
    ContentBlock::Text { text: s.into() }
}

fn intent_record() -> EgressRecord {
    EgressRecord {
        ts: "2026-09-08T00:00:00Z".into(),
        action: "session.prompt".into(),
        object: Some("provider:openai".into()),
        session_id: 718,
        seq: 2,
        outcome: Outcome {
            result: "permit".into(),
            reason: "intent recorded".into(),
            posture: "authorized".into(),
        },
        egress: Some(EgressAudit {
            status: EgressStatus::IntentOnly,
            content_length: 3,
            content_digest: "a".repeat(32),
            conversation: "c".into(),
            reply_length: None,
        }),
    }
}

#[test]
fn unavailable_is_the_production_backend_and_neither_readies_nor_sends() {
    assert_eq!(Unavailable.ready(), Err(EgressFailure::NotConfigured));
    assert_eq!(
        production_egress().ready(),
        Err(EgressFailure::NotConfigured)
    );
    let i = commit_intent::<()>(intent_record(), Ok(())).ok().unwrap();
    assert_eq!(
        Unavailable
            .send(
                &i,
                EgressRequest {
                    destination: "provider:openai".into(),
                    conversation: "c".into(),
                    content: vec![text("a")],
                },
            )
            .unwrap_err(),
        EgressFailure::NotConfigured
    );
    assert_ne!(
        EgressFailure::Transport("peer reset".into()),
        EgressFailure::NotConfigured
    );
    assert!(
        format!("{:?}", EgressFailure::Transport("peer reset".into())).contains("peer reset")
    );
}

#[test]
fn a_failed_append_yields_no_intent_and_a_successful_one_yields_the_record() {
    let bad = commit_intent(intent_record(), Err("injected".to_string()));
    assert!(
        matches!(bad, Err(ref m) if m == "injected"),
        "the sink's error is carried, not discarded"
    );
    let i = commit_intent::<String>(intent_record(), Ok(())).ok().unwrap();
    assert!(i.record().egress.as_ref().unwrap().is_intent());
    assert_eq!(i.record(), &intent_record());
}

#[test]
fn only_text_blocks_are_admitted_and_the_first_offender_is_named() {
    assert_eq!(admitted_blocks(&[text("a")]), Ok(()));
    let err = admitted_blocks(&[
        text("a"),
        ContentBlock::Image {
            data: "".into(),
            mime_type: "image/png".into(),
        },
        ContentBlock::Audio {
            data: "".into(),
            mime_type: "audio/wav".into(),
        },
    ])
    .unwrap_err();
    assert_eq!(
        err,
        "content block type not admitted in this deployment: image"
    );
    assert_eq!(
        admitted_blocks(&[]).unwrap_err(),
        "prompt carries no content"
    );
}

#[test]
fn a_resource_link_is_named_by_its_kind() {
    let err = admitted_blocks(&[ContentBlock::ResourceLink {
        uri: "https://x".into(),
        name: "x".into(),
    }])
    .unwrap_err();
    assert!(err.starts_with("content block type not admitted in this deployment: "));
    assert_ne!(err, "content block type not admitted in this deployment: image");
}

#[test]
fn reply_capacity_holds_for_many_small_and_few_large_blocks_so_encoding_never_grows() {
    for blocks in [
        vec![text("")],
        vec![text("x")],
        (0..200).map(|_| text("ab")).collect::<Vec<_>>(),
        vec![text(&"y".repeat(70_000))],
        (0..50).map(|i| text(&"z".repeat(i * 100))).collect(),
    ] {
        let reply = PromptReply {
            blocks: blocks.clone(),
        };
        let total: u64 = blocks
            .iter()
            .map(|b| match b {
                ContentBlock::Text { text } => text.len() as u64,
                _ => 0,
            })
            .sum();
        assert_eq!(reply_text_length(&reply), total);
        assert_eq!(
            reply_capacity(&reply),
            total as usize + blocks.len() * REPLY_BLOCK_ENVELOPE + FRAME_ENVELOPE_MARGIN
        );
    }
    assert_eq!(
        reply_text_length(&PromptReply {
            blocks: vec![
                text("ab"),
                ContentBlock::ResourceLink {
                    uri: "https://x".into(),
                    name: "x".into(),
                },
            ],
        }),
        2
    );
    assert_eq!(
        reply_capacity(&PromptReply { blocks: vec![] }),
        FRAME_ENVELOPE_MARGIN
    );
    assert_eq!(
        reply_capacity(&PromptReply {
            blocks: vec![text("abc"), text("de")],
        }),
        5 + 2 * REPLY_BLOCK_ENVELOPE + FRAME_ENVELOPE_MARGIN
    );
    assert_eq!(
        reply_capacity(&PromptReply {
            blocks: vec![text("abc"), text("de")],
        }),
        581
    );
}

#[test]
fn a_reply_is_admitted_only_when_text_only_and_non_empty_and_the_refusal_is_named() {
    let ok = PromptReply {
        blocks: vec![text("a"), text("b")],
    };
    assert_eq!(admitted_reply(&ok), Ok(()));
    assert_eq!(
        admitted_reply(&PromptReply { blocks: vec![] }),
        Err(ReplyRefusal::Empty)
    );
    assert_eq!(
        admitted_reply(&PromptReply {
            blocks: vec![
                text("a"),
                ContentBlock::Image {
                    data: "".into(),
                    mime_type: "image/png".into(),
                },
            ],
        }),
        Err(ReplyRefusal::NonText)
    );
}

#[test]
fn outcome_for_sets_status_result_reason_and_posture_per_send_outcome() {
    let i = commit_intent::<()>(intent_record(), Ok(())).ok().unwrap();
    for (outcome, status, result, reason, posture, reply_length) in [
        (
            SendOutcome::Sent { reply_length: 2 },
            EgressStatus::Sent,
            "permit",
            "sent",
            "authorized",
            Some(2),
        ),
        (
            SendOutcome::Failed,
            EgressStatus::Failed,
            "deny",
            "send failed",
            "unavailable",
            None,
        ),
        (
            SendOutcome::DeadlineExpired,
            EgressStatus::DeadlineExpired,
            "deny",
            "send deadline expired",
            "unavailable",
            None,
        ),
        (
            SendOutcome::LandedUndelivered {
                reply_length: 7,
                refusal: ReplyRefusal::Oversize,
            },
            EgressStatus::LandedUndelivered,
            "permit",
            "reply refused: oversize",
            "refused-oversize",
            Some(7),
        ),
        (
            SendOutcome::LandedUndelivered {
                reply_length: 7,
                refusal: ReplyRefusal::NonText,
            },
            EgressStatus::LandedUndelivered,
            "permit",
            "reply refused: non-text",
            "unauthorized",
            Some(7),
        ),
        (
            SendOutcome::LandedUndelivered {
                reply_length: 0,
                refusal: ReplyRefusal::Empty,
            },
            EgressStatus::LandedUndelivered,
            "permit",
            "reply refused: empty",
            "unauthorized",
            Some(0),
        ),
    ] {
        let o = outcome_for(&i, 9, "2026-09-08T00:00:00Z".into(), outcome);
        assert_eq!((o.seq, o.ts.as_str()), (9, "2026-09-08T00:00:00Z"));
        assert_eq!(
            (
                o.outcome.result.as_str(),
                o.outcome.reason.as_str(),
                o.outcome.posture.as_str()
            ),
            (result, reason, posture),
            "{status:?}"
        );
        let e = o.egress.as_ref().unwrap();
        assert_eq!(
            (e.status, e.reply_length, e.is_intent()),
            (status, reply_length, false)
        );
        assert_eq!(
            (
                e.content_length,
                e.content_digest.as_str(),
                e.conversation.as_str()
            ),
            (3, "a".repeat(32).as_str(), "c"),
            "identity carried from the intent"
        );
        assert_eq!(o.session_id, 718);
        assert_eq!(o.action, "session.prompt");
    }
}

#[test]
fn the_frame_cap_admits_at_it_and_refuses_above_it() {
    assert!(frame_len_within_cap(4096, 4096));
    assert!(!frame_len_within_cap(4097, 4096));
    assert!(frame_len_within_cap(0, 0));
    assert!(!frame_len_within_cap(u32::MAX as usize, 4096));
}

const SHA256_ABCDE: &str = "36bbe50ed96841d10443bcb670d6554f0a34b761be67ec9c4a8ad2c0c44ca42c";
const SHA256_ABC: &str = "ba7816bf8f01cfea414140de5dae2223b00361a396177a9cb410ff61f20015ad";
const SHA256_SECRET_PLAN: &str =
    "21c18b3594874cf56af31a1031c7c1bee1ccd0f5c08e33667089cd0bf0efc9de";

#[test]
fn content_measure_is_length_and_a_32_hex_digest_never_the_text() {
    let m = content_measure(&[text("abc"), text("de")], SHA256_ABCDE);
    assert_eq!(m.length, 5);
    assert_eq!(m.digest32, &SHA256_ABCDE[..32]);
    assert_eq!(m.digest32.len(), 32);
    let m2 = content_measure(&[text("the secret plan")], SHA256_SECRET_PLAN);
    assert!(
        !format!("{m2:?}").contains("secret"),
        "a Debug of the measure must not carry plaintext"
    );
    let m = content_measure(
        &[
            text("abc"),
            ContentBlock::ResourceLink {
                uri: "https://x".into(),
                name: "x".into(),
            },
        ],
        SHA256_ABC,
    );
    assert_eq!((m.length, m.digest32.as_str()), (3, &SHA256_ABC[..32]));
}

#[test]
fn content_measure_keeps_a_short_digest_whole_and_counts_utf8_bytes() {
    let m = content_measure(&[text("h\u{e9}"), text("")], "abcd");
    assert_eq!(m.length, 3);
    assert_eq!(m.digest32, "abcd");
    let m = content_measure(&[], &SHA256_ABC[..32]);
    assert_eq!((m.length, m.digest32.as_str()), (0, &SHA256_ABC[..32]));
}
