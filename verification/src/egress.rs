//! The seam between the policy decision and the egress process. The kernel
//! never terminates outbound TLS and never holds the provider key; a
//! permitted prompt is handed to an egress backend, and only after its intent
//! record is durable. The admission checks on what leaves and what comes
//! back, and the audit outcome of a send, are decided here.
use crate::paths::{bytes_of, str_bytes};
use vstd::prelude::*;

verus! {

/// Why a backend did not send, or what became of a send it attempted.
#[derive(Debug, Clone, PartialEq, Eq)]
pub enum EgressFailure {
    /// No egress backend is configured.
    NotConfigured,
    /// Nothing left the kernel.
    Transport(String),
    /// The deadline passed; delivery to the provider is unknown.
    DeadlineExpired,
    /// The request had started to leave when this failed; delivery unknown.
    AfterSend(String),
}

/// One block of prompt or reply content.
#[derive(Debug, Clone, PartialEq, Eq)]
pub enum ContentBlock {
    Text { text: String },
    Image { data: String, mime_type: String },
    Audio { data: String, mime_type: String },
    ResourceLink { uri: String, name: String },
}

/// The name of a content block's kind.
pub open spec fn kind_of(b: ContentBlock) -> Seq<char> {
    match b {
        ContentBlock::Text { .. } => "text"@,
        ContentBlock::Image { .. } => "image"@,
        ContentBlock::Audio { .. } => "audio"@,
        ContentBlock::ResourceLink { .. } => "resource_link"@,
    }
}

impl ContentBlock {
    /// The name of this block's kind.
    pub fn kind(&self) -> (k: &'static str)
        ensures
            k@ == kind_of(*self),
    {
        match self {
            ContentBlock::Text { .. } => "text",
            ContentBlock::Image { .. } => "image",
            ContentBlock::Audio { .. } => "audio",
            ContentBlock::ResourceLink { .. } => "resource_link",
        }
    }
}

/// A provider's reply.
#[derive(Debug, Clone, PartialEq, Eq)]
pub struct PromptReply {
    pub blocks: Vec<ContentBlock>,
}

/// A permitted prompt as handed to a backend: where it goes, the
/// conversation it belongs to, and its content.
#[derive(Clone, Debug, PartialEq, Eq)]
pub struct EgressRequest {
    pub destination: String,
    pub conversation: String,
    pub content: Vec<ContentBlock>,
}

/// What a backend brings back: the provider's reply.
#[derive(Clone, Debug, PartialEq, Eq)]
pub struct EgressReply {
    pub reply: PromptReply,
}

/// An egress backend: whether it may be asked to send at all, and the send
/// itself, which takes the caller's proof that the intent record is durable.
pub trait Egress {
    /// May this backend be asked to send?
    fn ready(&self) -> Result<(), EgressFailure>;

    /// Send a permitted prompt's content.
    fn send(&self, intent: &DurableEgressIntent, req: EgressRequest) -> Result<
        EgressReply,
        EgressFailure,
    >;
}

/// The backend that answers when there is no egress process: it refuses to
/// be asked at all, and it never sends.
pub struct Unavailable;

impl Egress for Unavailable {
    /// May this backend be asked to send? Never.
    fn ready(&self) -> (r: Result<(), EgressFailure>)
        ensures
            r == Err::<(), EgressFailure>(EgressFailure::NotConfigured),
    {
        Err(EgressFailure::NotConfigured)
    }

    /// It never sends.
    fn send(&self, _intent: &DurableEgressIntent, _req: EgressRequest) -> (r: Result<
        EgressReply,
        EgressFailure,
    >)
        ensures
            r == Err::<EgressReply, EgressFailure>(EgressFailure::NotConfigured),
    {
        Err(EgressFailure::NotConfigured)
    }
}

/// The production backend: there is no egress process, so nothing is sent.
pub fn production_egress() -> (e: Unavailable) {
    Unavailable
}

/// The block is text.
pub open spec fn is_text(b: ContentBlock) -> bool {
    b is Text
}

/// The prompt-direction refusal: an empty prompt, or the kind of the first
/// block that is not text.
pub open spec fn prompt_refusal(content: Seq<ContentBlock>) -> Option<Seq<char>> {
    if content.len() == 0 {
        Some("prompt carries no content"@)
    } else if exists|i: int| 0 <= i < content.len() && !is_text(#[trigger] content[i]) {
        let i = choose|i: int|
            0 <= i < content.len() && !is_text(#[trigger] content[i]) && forall|j: int|
                0 <= j < i ==> is_text(#[trigger] content[j]);
        Some("content block type not admitted in this deployment: "@ + kind_of(content[i]))
    } else {
        None
    }
}

/// Text only, and at least one block; the first offender is named.
pub fn admitted_blocks(content: &[ContentBlock]) -> (r: Result<(), String>)
    ensures
        r is Ok <==> prompt_refusal(content@) is None,
        r matches Err(m) ==> prompt_refusal(content@) == Some(m@),
{
    if content.len() == 0 {
        return Err(String::from_str("prompt carries no content"));
    }
    let mut i: usize = 0;
    while i < content.len()
        invariant
            0 <= i <= content@.len(),
            forall|j: int| 0 <= j < i ==> is_text(#[trigger] content@[j]),
        decreases content@.len() - i,
    {
        if !matches!(content[i], ContentBlock::Text { .. }) {
            proof {
                let c = choose|k: int|
                    0 <= k < content@.len() && !is_text(#[trigger] content@[k]) && forall|j: int|
                        0 <= j < k ==> is_text(#[trigger] content@[j]);
                if c < i {
                    assert(is_text(content@[c]));
                } else if c > i {
                    assert(is_text(content@[i as int]));
                }
            }
            let mut m = String::from_str("content block type not admitted in this deployment: ");
            m.append(content[i].kind());
            return Err(m);
        }
        i = i + 1;
    }
    Ok(())
}

/// Why the kernel refused to deliver a reply that arrived.
#[derive(Debug, Clone, Copy, PartialEq, Eq, Structural)]
pub enum ReplyRefusal {
    Oversize,
    NonText,
    Empty,
}

/// The reply-direction admission: at least one block, and text only.
pub fn admitted_reply(reply: &PromptReply) -> (r: Result<(), ReplyRefusal>)
    ensures
        reply.blocks@.len() == 0 ==> r == Err::<(), ReplyRefusal>(ReplyRefusal::Empty),
        reply.blocks@.len() > 0 && (exists|i: int|
            0 <= i < reply.blocks@.len() && !is_text(#[trigger] reply.blocks@[i])) ==> r
            == Err::<(), ReplyRefusal>(ReplyRefusal::NonText),
        r is Ok <==> reply.blocks@.len() > 0 && forall|i: int|
            0 <= i < reply.blocks@.len() ==> is_text(#[trigger] reply.blocks@[i]),
{
    if reply.blocks.len() == 0 {
        return Err(ReplyRefusal::Empty);
    }
    let mut i: usize = 0;
    while i < reply.blocks.len()
        invariant
            0 <= i <= reply.blocks@.len(),
            forall|j: int| 0 <= j < i ==> is_text(#[trigger] reply.blocks@[j]),
        decreases reply.blocks@.len() - i,
    {
        if !matches!(reply.blocks[i], ContentBlock::Text { .. }) {
            return Err(ReplyRefusal::NonText);
        }
        i = i + 1;
    }
    Ok(())
}

/// The UTF-8 length of a text block, and zero for any other.
pub open spec fn block_text_len(b: ContentBlock) -> nat {
    match b {
        ContentBlock::Text { text } => bytes_of(text@).len(),
        _ => 0,
    }
}

/// The total text length of the blocks.
pub open spec fn text_len(blocks: Seq<ContentBlock>) -> nat
    decreases blocks.len(),
{
    if blocks.len() == 0 {
        0
    } else {
        text_len(blocks.drop_last()) + block_text_len(blocks.last())
    }
}

/// The text length of a prefix never exceeds that of the whole.
pub proof fn lemma_text_len_prefix(blocks: Seq<ContentBlock>, i: int)
    requires
        0 <= i <= blocks.len(),
    ensures
        text_len(blocks.take(i)) <= text_len(blocks),
    decreases blocks.len() - i,
{
    if i < blocks.len() {
        lemma_text_len_prefix(blocks, i + 1);
        assert(blocks.take(i + 1).drop_last() =~= blocks.take(i));
    } else {
        assert(blocks.take(i) =~= blocks);
    }
}

/// The total UTF-8 length of the text blocks.
fn total_text_len(blocks: &[ContentBlock]) -> (n: u64)
    requires
        text_len(blocks@) <= u64::MAX,
    ensures
        n == text_len(blocks@),
{
    let ghost bs = blocks@;
    let mut n: u64 = 0;
    let mut i: usize = 0;
    while i < blocks.len()
        invariant
            bs == blocks@,
            text_len(bs) <= u64::MAX,
            0 <= i <= bs.len(),
            n == text_len(bs.take(i as int)),
        decreases bs.len() - i,
    {
        proof {
            assert(bs.take(i + 1).drop_last() =~= bs.take(i as int));
            assert(bs.take(i + 1).last() == bs[i as int]);
            lemma_text_len_prefix(bs, i + 1);
        }
        match &blocks[i] {
            ContentBlock::Text { text } => {
                let l = str_bytes(text.as_str()).len();
                let len = l as u64;
                assert(bs[i as int] == ContentBlock::Text { text: *text });
                assert(len == block_text_len(bs[i as int]));
                n = n + len;
            },
            _ => {},
        }
        i = i + 1;
    }
    assert(bs.take(i as int) =~= bs);
    n
}

/// The reply's text length: the audit record's `reply_length`.
pub fn reply_text_length(reply: &PromptReply) -> (n: u64)
    requires
        text_len(reply.blocks@) <= u64::MAX,
    ensures
        n == text_len(reply.blocks@),
{
    total_text_len(reply.blocks.as_slice())
}

/// The bytes that a content measure digests: the UTF-8 bytes of the text
/// blocks, in order; other blocks contribute nothing.
pub open spec fn measured_bytes(blocks: Seq<ContentBlock>) -> Seq<u8>
    decreases blocks.len(),
{
    if blocks.len() == 0 {
        Seq::empty()
    } else {
        measured_bytes(blocks.drop_last()) + match blocks.last() {
            ContentBlock::Text { text } => bytes_of(text@),
            _ => Seq::empty(),
        }
    }
}

/// The length that a content measure records is the length of the bytes it
/// digests.
pub proof fn lemma_measured_len(blocks: Seq<ContentBlock>)
    ensures
        measured_bytes(blocks).len() == text_len(blocks),
    decreases blocks.len(),
{
    if blocks.len() > 0 {
        lemma_measured_len(blocks.drop_last());
    }
}

/// How many characters of the content digest the trail keeps.
pub const DIGEST_KEPT_CHARS: usize = 32;

/// A digest cut to the characters the trail keeps.
pub open spec fn kept_digest(hex: Seq<char>) -> Seq<char> {
    if hex.len() <= DIGEST_KEPT_CHARS {
        hex
    } else {
        hex.take(DIGEST_KEPT_CHARS as int)
    }
}

/// What the trail holds about content: its text length and a truncated
/// digest of it, never the text itself.
#[derive(Debug, Clone, PartialEq, Eq)]
pub struct ContentMeasure {
    pub length: u64,
    pub digest32: String,
}

/// Measure content for the trail. `text_digest_hex` is the hexadecimal
/// SHA-256 of `measured_bytes(content)`, which the vault computes; the measure
/// keeps the text length of the content and the first 32 characters of that
/// digest.
pub fn content_measure(content: &[ContentBlock], text_digest_hex: &str) -> (m: ContentMeasure)
    requires
        text_len(content@) <= u64::MAX,
    ensures
        m.length == text_len(content@),
        m.length == measured_bytes(content@).len(),
        m.digest32@ == kept_digest(text_digest_hex@),
{
    proof {
        lemma_measured_len(content@);
    }
    let length = total_text_len(content);
    let n = text_digest_hex.unicode_len();
    let digest32 = if n <= DIGEST_KEPT_CHARS {
        text_digest_hex.to_string()
    } else {
        text_digest_hex.substring_char(0, DIGEST_KEPT_CHARS).to_string()
    };
    ContentMeasure { length, digest32 }
}

/// Envelope allowance per content block in an encoded reply.
pub const REPLY_BLOCK_ENVELOPE: usize = 32;

/// Envelope headroom of a whole response frame.
pub const FRAME_ENVELOPE_MARGIN: usize = 512;

/// The encode buffer's capacity for a text-only reply: its text length, an
/// envelope allowance per block, and the frame margin. An upper bound, so
/// encoding never reallocates.
pub fn reply_capacity(reply: &PromptReply) -> (c: usize)
    requires
        text_len(reply.blocks@) + reply.blocks@.len() * REPLY_BLOCK_ENVELOPE + FRAME_ENVELOPE_MARGIN
            <= usize::MAX,
    ensures
        c == text_len(reply.blocks@) + reply.blocks@.len() * REPLY_BLOCK_ENVELOPE
            + FRAME_ENVELOPE_MARGIN,
{
    let text = reply_text_length(reply) as usize;
    let blocks = reply.blocks.len();
    assert(blocks * REPLY_BLOCK_ENVELOPE <= usize::MAX) by (nonlinear_arith)
        requires
            text_len(reply.blocks@) + blocks * REPLY_BLOCK_ENVELOPE + FRAME_ENVELOPE_MARGIN
                <= usize::MAX,
    ;
    text + blocks * REPLY_BLOCK_ENVELOPE + FRAME_ENVELOPE_MARGIN
}

/// A frame of `n` bytes is within a cap of `cap` bytes: at the cap is within.
pub fn frame_len_within_cap(n: usize, cap: usize) -> (r: bool)
    ensures
        r == (n <= cap),
{
    n <= cap
}

/// What a send came back as, after the kernel's checks on the reply.
#[derive(Debug, Clone, Copy, PartialEq, Eq, Structural)]
pub enum SendOutcome {
    Sent { reply_length: u64 },
    Failed,
    DeadlineExpired,
    LandedUndelivered { reply_length: u64, refusal: ReplyRefusal },
}

/// The egress-specific fact an audit record carries.
#[derive(Debug, Clone, Copy, PartialEq, Eq, Structural)]
pub enum EgressStatus {
    IntentOnly,
    BackendUnavailable,
    Sent,
    Failed,
    DeadlineExpired,
    LandedUndelivered,
}

/// The decision outcome an audit record carries.
#[derive(Debug, Clone, PartialEq, Eq)]
pub struct Outcome {
    pub result: String,
    pub reason: String,
    pub posture: String,
}

/// What the trail holds about egressed content: never the text.
#[derive(Debug, Clone, PartialEq, Eq)]
pub struct EgressAudit {
    pub status: EgressStatus,
    pub content_length: u64,
    pub content_digest: String,
    pub conversation: String,
    pub reply_length: Option<u64>,
}

impl EgressAudit {
    /// Whether this is still the intent, before any send outcome.
    pub fn is_intent(&self) -> (r: bool)
        ensures
            r == (self.status == EgressStatus::IntentOnly),
    {
        self.status == EgressStatus::IntentOnly
    }
}

/// The fields of an audit record that the egress decisions read and write.
#[derive(Debug, Clone, PartialEq, Eq)]
pub struct EgressRecord {
    pub ts: String,
    pub action: String,
    pub object: Option<String>,
    pub session_id: u64,
    pub seq: u64,
    pub outcome: Outcome,
    pub egress: Option<EgressAudit>,
}

/// Proof of a durable intent. Only [`commit_intent`] constructs one, and only
/// when the audit append of its record succeeded.
pub struct DurableEgressIntent {
    record: EgressRecord,
}

impl View for DurableEgressIntent {
    type V = EgressRecord;

    closed spec fn view(&self) -> EgressRecord {
        self.record
    }
}

impl DurableEgressIntent {
    /// The intent's record.
    pub fn record(&self) -> (r: &EgressRecord)
        ensures
            *r == self@,
    {
        &self.record
    }
}

/// Turn an appended intent record into the proof of a durable intent: the
/// proof exists exactly when the append succeeded, and the append's error is
/// handed back otherwise.
pub fn commit_intent<E>(record: EgressRecord, appended: Result<(), E>) -> (r: Result<
    DurableEgressIntent,
    E,
>)
    ensures
        appended is Ok <==> r is Ok,
        r matches Ok(i) ==> i@ == record,
        r matches Err(e) ==> appended == Err::<(), E>(e),
{
    match appended {
        Ok(()) => Ok(DurableEgressIntent { record }),
        Err(e) => Err(e),
    }
}

/// The status, reply length, result, reason and posture each send outcome
/// is recorded with. A send that did not go out is a deny; a reply the
/// kernel refused to deliver stays a permit, because the content did leave.
pub open spec fn stamp_of(o: SendOutcome) -> (EgressStatus, Option<u64>, Seq<char>, Seq<char>, Seq<
    char,
>) {
    match o {
        SendOutcome::Sent { reply_length } => (
            EgressStatus::Sent,
            Some(reply_length),
            "permit"@,
            "sent"@,
            "authorized"@,
        ),
        SendOutcome::Failed => (EgressStatus::Failed, None, "deny"@, "send failed"@, "unavailable"@),
        SendOutcome::DeadlineExpired => (
            EgressStatus::DeadlineExpired,
            None,
            "deny"@,
            "send deadline expired"@,
            "unavailable"@,
        ),
        SendOutcome::LandedUndelivered { reply_length, refusal: ReplyRefusal::Oversize } => (
            EgressStatus::LandedUndelivered,
            Some(reply_length),
            "permit"@,
            "reply refused: oversize"@,
            "refused-oversize"@,
        ),
        SendOutcome::LandedUndelivered { reply_length, refusal: ReplyRefusal::NonText } => (
            EgressStatus::LandedUndelivered,
            Some(reply_length),
            "permit"@,
            "reply refused: non-text"@,
            "unauthorized"@,
        ),
        SendOutcome::LandedUndelivered { reply_length, refusal: ReplyRefusal::Empty } => (
            EgressStatus::LandedUndelivered,
            Some(reply_length),
            "permit"@,
            "reply refused: empty"@,
            "unauthorized"@,
        ),
    }
}

/// The outcome record derived from the intent: same identity, the new `seq`
/// and `ts`, and the result, reason, posture and egress status of the
/// outcome; an egress section, when the intent has one, also gets the reply
/// length.
pub fn outcome_for(intent: &DurableEgressIntent, seq: u64, ts: String, outcome: SendOutcome) -> (r:
    EgressRecord)
    ensures
        r.seq == seq,
        r.ts == ts,
        r.action == intent@.action,
        r.object == intent@.object,
        r.session_id == intent@.session_id,
        r.outcome.result@ == stamp_of(outcome).2,
        r.outcome.reason@ == stamp_of(outcome).3,
        r.outcome.posture@ == stamp_of(outcome).4,
        r.egress is Some <==> intent@.egress is Some,
        r.egress matches Some(e) ==> e.status == stamp_of(outcome).0 && e.reply_length == stamp_of(
            outcome,
        ).1 && e.content_length == intent@.egress->0.content_length && e.content_digest
            == intent@.egress->0.content_digest && e.conversation == intent@.egress->0.conversation,
{
    let (status, reply_length, result, reason, posture): (
        EgressStatus,
        Option<u64>,
        &'static str,
        &'static str,
        &'static str,
    ) = match outcome {
        SendOutcome::Sent { reply_length } => (
            EgressStatus::Sent,
            Some(reply_length),
            "permit",
            "sent",
            "authorized",
        ),
        SendOutcome::Failed => (EgressStatus::Failed, None, "deny", "send failed", "unavailable"),
        SendOutcome::DeadlineExpired => (
            EgressStatus::DeadlineExpired,
            None,
            "deny",
            "send deadline expired",
            "unavailable",
        ),
        SendOutcome::LandedUndelivered { reply_length, refusal: ReplyRefusal::Oversize } => (
            EgressStatus::LandedUndelivered,
            Some(reply_length),
            "permit",
            "reply refused: oversize",
            "refused-oversize",
        ),
        SendOutcome::LandedUndelivered { reply_length, refusal: ReplyRefusal::NonText } => (
            EgressStatus::LandedUndelivered,
            Some(reply_length),
            "permit",
            "reply refused: non-text",
            "unauthorized",
        ),
        SendOutcome::LandedUndelivered { reply_length, refusal: ReplyRefusal::Empty } => (
            EgressStatus::LandedUndelivered,
            Some(reply_length),
            "permit",
            "reply refused: empty",
            "unauthorized",
        ),
    };
    let egress = match &intent.record.egress {
        Some(e) => Some(
            EgressAudit {
                status,
                content_length: e.content_length,
                content_digest: e.content_digest.clone(),
                conversation: e.conversation.clone(),
                reply_length,
            },
        ),
        None => None,
    };
    EgressRecord {
        ts,
        action: intent.record.action.clone(),
        object: intent.record.object.clone(),
        session_id: intent.record.session_id,
        seq,
        outcome: Outcome {
            result: String::from_str(result),
            reason: String::from_str(reason),
            posture: String::from_str(posture),
        },
        egress,
    }
}

/// A send that did not leave is recorded as a deny; every outcome in which
/// the content left is recorded as a permit.
pub proof fn law_only_content_that_left_is_a_permit(o: SendOutcome)
    ensures
        (stamp_of(o).2 == "permit"@) <==> (o is Sent || o is LandedUndelivered),
        (stamp_of(o).2 == "deny"@) <==> (o is Failed || o is DeadlineExpired),
{
    reveal_strlit("permit");
    reveal_strlit("deny");
    assert("permit"@.len() != "deny"@.len());
}

} // verus!
