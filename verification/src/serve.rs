//! The decisions of serving one authenticated connection: admission, the one
//! request frame, the policy decision and the reply. Each step takes the
//! connection's phase and what the last action came back with, and yields
//! the next phase and the next action; the caller performs the action (an
//! audit append, a frame read, a policy decision, a write) and reports back.
//! A reply frame is released only after the record that justifies it was
//! durably appended, and a refusal's reason reaches the trail, never the wire.
use crate::authz::{authorize_connection, ConnDecision};
use crate::blocking_guard::{success, timeout, BlockingBreaker, BreakerAdmission, BreakerTransition};
use crate::handler::{
    discharge_plan, dispatch_of, dispatch_verb, honorable, lexical_pregate, pregate_refusal,
    verb_to_action, action_of, Dispatch, Obligation, UnhonorableObligation, Verb,
};
use crate::paths::bytes_of;
use crate::run::{reject_label, reject_reason_str, RejectReason};
use vstd::prelude::*;

verus! {

/// The final policy decision on a request.
#[derive(Debug, Clone)]
pub enum Decision {
    Permit { obligations: Vec<Obligation> },
    Deny { reason: String },
}

/// The generic error frame a request is answered with; reasons live in the
/// trail only.
#[derive(Debug, Clone, Copy, PartialEq, Eq, Structural)]
pub enum WireError {
    BadRequest,
    Unauthorized,
    NotImplemented,
    Internal,
    TooLarge,
}

/// The fixed message each error frame carries.
pub open spec fn wire_message(e: WireError) -> Seq<char> {
    match e {
        WireError::BadRequest => "malformed path"@,
        WireError::Unauthorized => "not authorized"@,
        WireError::NotImplemented => "not implemented"@,
        WireError::Internal => "binding enumeration unavailable"@,
        WireError::TooLarge => "response exceeds the configured frame limit"@,
    }
}

impl WireError {
    /// The fixed message this error frame carries.
    pub fn message(&self) -> (m: &'static str)
        ensures
            m@ == wire_message(*self),
    {
        match self {
            WireError::BadRequest => "malformed path",
            WireError::Unauthorized => "not authorized",
            WireError::NotImplemented => "not implemented",
            WireError::Internal => "binding enumeration unavailable",
            WireError::TooLarge => "response exceeds the configured frame limit",
        }
    }
}

/// The facts one audit record states about this connection.
#[derive(Debug, Clone, PartialEq, Eq)]
pub struct Record {
    pub event: String,
    pub action: String,
    pub object: Option<String>,
    pub object_requested: Option<String>,
    pub result: String,
    pub reason: String,
    pub posture: String,
}

/// A record as text.
pub struct RecordView {
    pub event: Seq<char>,
    pub action: Seq<char>,
    pub object: Option<Seq<char>>,
    pub object_requested: Option<Seq<char>>,
    pub result: Seq<char>,
    pub reason: Seq<char>,
    pub posture: Seq<char>,
}

/// An optional string as optional text.
pub open spec fn opt_text(s: Option<String>) -> Option<Seq<char>> {
    match s {
        Some(v) => Some(v@),
        None => None,
    }
}

impl View for Record {
    type V = RecordView;

    open spec fn view(&self) -> RecordView {
        RecordView {
            event: self.event@,
            action: self.action@,
            object: opt_text(self.object),
            object_requested: opt_text(self.object_requested),
            result: self.result@,
            reason: self.reason@,
            posture: self.posture@,
        }
    }
}

/// What is released once a record is durable.
#[derive(Debug, Clone, Copy, PartialEq, Eq, Structural)]
pub enum Reply {
    /// Nothing: the connection closes.
    Nothing,
    /// A generic error frame.
    Error(WireError),
    /// The answer of a served term.
    Serve(Dispatch),
}

/// Where the connection stands.
#[derive(Debug, Clone)]
pub enum Phase {
    /// Accepted; nothing decided yet.
    Admitting,
    /// The admission deny is being recorded; the connection closes after.
    AdmissionDenied,
    /// The admission permit is being recorded; serving waits on it.
    AdmissionRecorded,
    /// The one request frame is being read.
    AwaitingRequest,
    /// The policy decides on the request's object.
    AwaitingDecision { verb: Verb, object: Option<String>, asked: Option<String> },
    /// A record is being appended; `then` is released only if it lands.
    Recorded { then: Reply },
    /// Nothing more happens on this connection.
    Finished,
}

/// What the last action came back with.
#[derive(Debug, Clone)]
pub enum Event {
    /// The connection was accepted, its certificate verified, with the
    /// peer's group membership.
    Opened { in_group: bool },
    /// An audit append finished.
    Appended { ok: bool },
    /// No request frame arrived in time.
    FrameTimedOut,
    /// The frame read failed.
    FrameFailed { message: String },
    /// The frame did not decode as a request.
    Malformed { message: String },
    /// The request decoded; for a read, the path the kernel verified for the
    /// delegated descriptor, if it verified one.
    Decoded { verb: Verb, verified_path: Option<String> },
    /// The policy decided.
    Decided { decision: Decision },
}

/// What the caller must do next.
#[derive(Debug, Clone)]
pub enum Action {
    /// Append this record, under this sequence number and the peer's uid as
    /// its source, to the audit trail, and report whether it landed.
    Emit { record: Record, seq: u64, source_uid: u32 },
    /// Read the one request frame.
    ReadFrame,
    /// Ask the policy about the decoded verb on this object.
    Decide { object: Option<String> },
    /// Write this generic error frame, then close.
    Respond { error: WireError },
    /// Write the answer of this served term, then close.
    Serve { dispatch: Dispatch },
    /// The term's dedicated lane takes the connection over.
    Handoff { dispatch: Dispatch, verb: Verb },
    /// Close without writing.
    Close,
}

/// A record's contents, as text.
pub open spec fn record_of(
    event: Seq<char>,
    action: Seq<char>,
    object: Option<Seq<char>>,
    object_requested: Option<Seq<char>>,
    result: Seq<char>,
    reason: Seq<char>,
    posture: Seq<char>,
) -> RecordView {
    RecordView { event, action, object, object_requested, result, reason, posture }
}

/// The object a request is decided and recorded on: for a read, the path the
/// kernel verified for the delegated descriptor, or the client's own path
/// when none was verified; nothing for any other term.
pub open spec fn decided_object(verb: Verb, verified: Option<Seq<char>>) -> Option<Seq<char>> {
    match verb {
        Verb::Read { path, .. } => match verified {
            Some(v) => Some(v),
            None => Some(path@),
        },
        _ => None,
    }
}

/// The client's own path, recorded only when it differs from the object
/// decided on.
pub open spec fn asked_object(verb: Verb, verified: Option<Seq<char>>) -> Option<Seq<char>> {
    match verb {
        Verb::Read { path, .. } => match verified {
            Some(v) => if v != path@ {
                Some(path@)
            } else {
                None
            },
            None => None,
        },
        _ => None,
    }
}

/// The first obligation of a permit that cannot be honored.
pub open spec fn first_unhonorable(obligations: Seq<Obligation>, i: int) -> bool {
    &&& 0 <= i < obligations.len()
    &&& !honorable(obligations[i])
    &&& forall|j: int| 0 <= j < i ==> honorable(#[trigger] obligations[j])
}

/// The request record and the reply a decision comes to, or the lane that
/// takes the request over (no record: `None`).
pub open spec fn decision_outcome(
    verb: Verb,
    object: Option<Seq<char>>,
    asked: Option<Seq<char>>,
    decision: Decision,
) -> Option<(RecordView, Reply)> {
    let action = action_of(verb);
    match decision {
        Decision::Deny { reason } => Some(
            (
                record_of(
                    "request"@,
                    action,
                    object,
                    asked,
                    "deny"@,
                    reason@,
                    "unauthorized"@,
                ),
                Reply::Error(WireError::Unauthorized),
            ),
        ),
        Decision::Permit { obligations } => if exists|i: int|
            first_unhonorable(obligations@, i) {
            let i = choose|i: int| first_unhonorable(obligations@, i);
            Some(
                (
                    record_of(
                        "request"@,
                        action,
                        object,
                        asked,
                        "deny"@,
                        "unhonorable obligation: "@ + obligations@[i].id@,
                        "unauthorized"@,
                    ),
                    Reply::Error(WireError::Unauthorized),
                ),
            )
        } else {
            match dispatch_of(verb) {
                Dispatch::NoBehaviour => Some(
                    (
                        record_of(
                            "request"@,
                            action,
                            object,
                            asked,
                            "permit"@,
                            "permitted; term not implemented"@,
                            "not-implemented"@,
                        ),
                        Reply::Error(WireError::NotImplemented),
                    ),
                ),
                Dispatch::MutationRequested => None,
                Dispatch::PromptRequested => None,
                d => Some(
                    (
                        record_of(
                            "request"@,
                            action,
                            None,
                            None,
                            "permit"@,
                            "authorized"@,
                            "authorized"@,
                        ),
                        Reply::Serve(d),
                    ),
                ),
            }
        },
    }
}

proof fn lemma_first_unhonorable_unique(obligations: Seq<Obligation>, a: int, b: int)
    requires
        first_unhonorable(obligations, a),
        first_unhonorable(obligations, b),
    ensures
        a == b,
{
    if a < b {
        assert(honorable(obligations[a]));
    } else if b < a {
        assert(honorable(obligations[b]));
    }
}

/// The action that releases a reply.
pub open spec fn release(reply: Reply) -> Action {
    match reply {
        Reply::Nothing => Action::Close,
        Reply::Error(e) => Action::Respond { error: e },
        Reply::Serve(d) => Action::Serve { dispatch: d },
    }
}

fn copy_text(s: &Option<String>) -> (r: Option<String>)
    ensures
        opt_text(r) == opt_text(*s),
{
    match s {
        Some(v) => Some(v.clone()),
        None => None,
    }
}

fn request_deny(action: &str, reason: String) -> (r: Record)
    ensures
        r@ == record_of("request"@, action@, None, None, "deny"@, reason@, "unauthorized"@),
{
    Record {
        event: String::from_str("request"),
        action: String::from_str(action),
        object: None,
        object_requested: None,
        result: String::from_str("deny"),
        reason,
        posture: String::from_str("unauthorized"),
    }
}

fn prefixed(prefix: &str, rest: &str) -> (r: String)
    ensures
        r@ == prefix@ + rest@,
{
    let mut r = String::from_str(prefix);
    r.append(rest);
    r
}

/// The record and reply of a decided request, or the lane it is handed to.
fn settle_decision(verb: &Verb, object: Option<String>, asked: Option<String>, decision: Decision) -> (r:
    Option<(Record, Reply)>)
    ensures
        r is Some <==> decision_outcome(*verb, opt_text(object), opt_text(asked), decision) is Some,
        r matches Some((rec, reply)) ==> (decision_outcome(
            *verb,
            opt_text(object),
            opt_text(asked),
            decision,
        ) matches Some((v, p)) && rec@ == v && reply == p),
{
    let action = verb_to_action(verb);
    let (result, reason, posture, reply): (&'static str, String, &'static str, Reply) =
        match decision {
        Decision::Deny { reason } => ("deny", reason, "unauthorized", Reply::Error(WireError::Unauthorized)),
        Decision::Permit { obligations } => {
            match discharge_plan(obligations.as_slice()) {
                Err(UnhonorableObligation(id)) => {
                    proof {
                        let k = choose|k: int|
                            0 <= k < obligations@.len() && !honorable(#[trigger] obligations@[k])
                                && id@ == obligations@[k].id@ && forall|j: int|
                                0 <= j < k ==> honorable(#[trigger] obligations@[j]);
                        assert(first_unhonorable(obligations@, k));
                        let c = choose|c: int| first_unhonorable(obligations@, c);
                        lemma_first_unhonorable_unique(obligations@, k, c);
                    }
                    (
                        "deny",
                        prefixed("unhonorable obligation: ", id.as_str()),
                        "unauthorized",
                        Reply::Error(WireError::Unauthorized),
                    )
                },
                Ok(()) => {
                    proof {
                        assert(!exists|i: int| first_unhonorable(obligations@, i));
                    }
                    let d = dispatch_verb(verb);
                    match d {
                        Dispatch::NoBehaviour => (
                            "permit",
                            String::from_str("permitted; term not implemented"),
                            "not-implemented",
                            Reply::Error(WireError::NotImplemented),
                        ),
                        Dispatch::MutationRequested => return None,
                        Dispatch::PromptRequested => return None,
                        _ => {
                            let record = Record {
                                event: String::from_str("request"),
                                action: String::from_str(action),
                                object: None,
                                object_requested: None,
                                result: String::from_str("permit"),
                                reason: String::from_str("authorized"),
                                posture: String::from_str("authorized"),
                            };
                            return Some((record, Reply::Serve(d)));
                        },
                    }
                },
            }
        },
    };
    let record = Record {
        event: String::from_str("request"),
        action: String::from_str(action),
        object,
        object_requested: asked,
        result: String::from_str(result),
        reason,
        posture: String::from_str(posture),
    };
    Some((record, reply))
}

/// The sequence number of a connection's admission record.
pub const ADMISSION_SEQ: u64 = 1;

/// The sequence number of a connection's request record, which follows the
/// admission record.
pub const REQUEST_SEQ: u64 = 2;

/// The action appends exactly this record, under this sequence number and
/// source uid.
pub open spec fn emits(action: Action, record: RecordView, seq: u64, source_uid: u32) -> bool {
    match action {
        Action::Emit { record: r, seq: n, source_uid: u } => r@ == record && n == seq && u
            == source_uid,
        _ => false,
    }
}

/// The phase and action a step yields from a phase and an event.
pub open spec fn stepped(phase: Phase, event: Event, peer_uid: u32, next: Phase, action: Action) -> bool {
    match (phase, event) {
        (Phase::Admitting, Event::Opened { in_group }) => if in_group {
            &&& next is AdmissionRecorded
            &&& emits(
                action,
                record_of(
                    "connection"@,
                    "connect"@,
                    None,
                    None,
                    "permit"@,
                    "admitted"@,
                    "authorized"@,
                ),
                ADMISSION_SEQ,
                peer_uid,
            )
        } else {
            &&& next is AdmissionDenied
            &&& emits(
                action,
                record_of(
                    "connection"@,
                    "connect"@,
                    None,
                    None,
                    "deny"@,
                    "peer uid not in `maknae` group"@,
                    "unauthorized"@,
                ),
                ADMISSION_SEQ,
                peer_uid,
            )
        },
        (Phase::AdmissionRecorded, Event::Appended { ok }) => if ok {
            next is AwaitingRequest && action is ReadFrame
        } else {
            next is Finished && action is Close
        },
        (Phase::AwaitingRequest, Event::FrameTimedOut) => {
            &&& next == Phase::Recorded { then: Reply::Nothing }
            &&& emits(
                action,
                record_of(
                    "request"@,
                    "read"@,
                    None,
                    None,
                    "deny"@,
                    "read timeout"@,
                    "unauthorized"@,
                ),
                REQUEST_SEQ,
                peer_uid,
            )
        },
        (Phase::AwaitingRequest, Event::FrameFailed { message }) => {
            &&& next == Phase::Recorded { then: Reply::Nothing }
            &&& emits(
                action,
                record_of(
                    "request"@,
                    "read"@,
                    None,
                    None,
                    "deny"@,
                    "frame read failed: "@ + message@,
                    "unauthorized"@,
                ),
                REQUEST_SEQ,
                peer_uid,
            )
        },
        (Phase::AwaitingRequest, Event::Malformed { message }) => {
            &&& next == Phase::Recorded { then: Reply::Nothing }
            &&& emits(
                action,
                record_of(
                    "request"@,
                    "decode"@,
                    None,
                    None,
                    "deny"@,
                    "malformed request: "@ + message@,
                    "unauthorized"@,
                ),
                REQUEST_SEQ,
                peer_uid,
            )
        },
        (Phase::AwaitingRequest, Event::Decoded { verb, verified_path }) => match pregate_outcome(
            verb,
        ) {
            Some(record) => {
                &&& next == Phase::Recorded { then: Reply::Error(WireError::BadRequest) }
                &&& emits(action, record, REQUEST_SEQ, peer_uid)
            },
            None => {
                &&& next matches Phase::AwaitingDecision { verb: v, object, asked }
                &&& v == verb
                &&& opt_text(object) == decided_object(verb, opt_text(verified_path))
                &&& opt_text(asked) == asked_object(verb, opt_text(verified_path))
                &&& action matches Action::Decide { object: o }
                &&& opt_text(o) == decided_object(verb, opt_text(verified_path))
            },
        },
        (Phase::AwaitingDecision { verb, object, asked }, Event::Decided { decision }) => {
            match decision_outcome(verb, opt_text(object), opt_text(asked), decision) {
                Some((record, reply)) => {
                    &&& next == Phase::Recorded { then: reply }
                    &&& emits(action, record, REQUEST_SEQ, peer_uid)
                },
                None => {
                    &&& next is Finished
                    &&& action matches Action::Handoff { dispatch, verb: v }
                    &&& dispatch == dispatch_of(verb)
                    &&& v == verb
                },
            }
        },
        (Phase::Recorded { then }, Event::Appended { ok }) => {
            &&& next is Finished
            &&& action == (if ok {
                release(then)
            } else {
                Action::Close
            })
        },
        _ => next is Finished && action is Close,
    }
}

/// The record a read path that fails the lexical pre-gate comes to, if the
/// verb is such a read.
pub open spec fn pregate_outcome(verb: Verb) -> Option<RecordView> {
    match verb {
        Verb::Read { path, .. } => match pregate_refusal(bytes_of(path@)) {
            Some(why) => Some(
                record_of(
                    "request"@,
                    "fs.read"@,
                    Some(path@),
                    None,
                    "deny"@,
                    "path fails canonical pre-gate: "@ + why,
                    "unauthorized"@,
                ),
            ),
            None => None,
        },
        _ => None,
    }
}

/// The next phase and action of a connection: admission is recorded first
/// and a permit is gated on its append; one request frame is read, and a
/// failed read or decode is recorded and closed; a read path that fails the
/// lexical pre-gate is recorded and answered as a bad request without a
/// decision; otherwise the policy decides on the object, and the decision's
/// record is appended before its reply is released. Any other pairing of
/// phase and event finishes the connection.
pub fn step(phase: Phase, event: Event, peer_uid: u32) -> (r: (Phase, Action))
    ensures
        stepped(phase, event, peer_uid, r.0, r.1),
{
    match (phase, event) {
        (Phase::Admitting, Event::Opened { in_group }) => {
            match authorize_connection(true, in_group) {
                ConnDecision::Permit => {
                    let record = Record {
                        event: String::from_str("connection"),
                        action: String::from_str("connect"),
                        object: None,
                        object_requested: None,
                        result: String::from_str("permit"),
                        reason: String::from_str("admitted"),
                        posture: String::from_str("authorized"),
                    };
                    (
                        Phase::AdmissionRecorded,
                        Action::Emit { record, seq: ADMISSION_SEQ, source_uid: peer_uid },
                    )
                },
                ConnDecision::Deny { reason } => {
                    let record = Record {
                        event: String::from_str("connection"),
                        action: String::from_str("connect"),
                        object: None,
                        object_requested: None,
                        result: String::from_str("deny"),
                        reason,
                        posture: String::from_str("unauthorized"),
                    };
                    (
                        Phase::AdmissionDenied,
                        Action::Emit { record, seq: ADMISSION_SEQ, source_uid: peer_uid },
                    )
                },
            }
        },
        (Phase::AdmissionDenied, Event::Appended { .. }) => (Phase::Finished, Action::Close),
        (Phase::AdmissionRecorded, Event::Appended { ok }) => {
            if ok {
                (Phase::AwaitingRequest, Action::ReadFrame)
            } else {
                (Phase::Finished, Action::Close)
            }
        },
        (Phase::AwaitingRequest, Event::FrameTimedOut) => (
            Phase::Recorded { then: Reply::Nothing },
            Action::Emit {
                record: request_deny("read", String::from_str("read timeout")),
                seq: REQUEST_SEQ,
                source_uid: peer_uid,
            },
        ),
        (Phase::AwaitingRequest, Event::FrameFailed { message }) => (
            Phase::Recorded { then: Reply::Nothing },
            Action::Emit {
                record: request_deny("read", prefixed("frame read failed: ", message.as_str())),
                seq: REQUEST_SEQ,
                source_uid: peer_uid,
            },
        ),
        (Phase::AwaitingRequest, Event::Malformed { message }) => (
            Phase::Recorded { then: Reply::Nothing },
            Action::Emit {
                record: request_deny("decode", prefixed("malformed request: ", message.as_str())),
                seq: REQUEST_SEQ,
                source_uid: peer_uid,
            },
        ),
        (Phase::AwaitingRequest, Event::Decoded { verb, verified_path }) => {
            if let Verb::Read { path, .. } = &verb {
                if let Err(why) = lexical_pregate(path.as_str()) {
                    let record = Record {
                        event: String::from_str("request"),
                        action: String::from_str("fs.read"),
                        object: Some(path.clone()),
                        object_requested: None,
                        result: String::from_str("deny"),
                        reason: prefixed("path fails canonical pre-gate: ", why),
                        posture: String::from_str("unauthorized"),
                    };
                    return (
                        Phase::Recorded { then: Reply::Error(WireError::BadRequest) },
                        Action::Emit { record, seq: REQUEST_SEQ, source_uid: peer_uid },
                    );
                }
            }
            let (object, asked): (Option<String>, Option<String>) = match &verb {
                Verb::Read { path, .. } => match verified_path {
                    Some(v) => {
                        let differs = v != *path;
                        (Some(v), if differs {
                            Some(path.clone())
                        } else {
                            None
                        })
                    },
                    None => (Some(path.clone()), None),
                },
                _ => (None, None),
            };
            let o = copy_text(&object);
            (Phase::AwaitingDecision { verb, object, asked }, Action::Decide { object: o })
        },
        (Phase::AwaitingDecision { verb, object, asked }, Event::Decided { decision }) => {
            match settle_decision(&verb, object, asked, decision) {
                Some((record, reply)) => (
                    Phase::Recorded { then: reply },
                    Action::Emit { record, seq: REQUEST_SEQ, source_uid: peer_uid },
                ),
                None => {
                    let dispatch = dispatch_verb(&verb);
                    (Phase::Finished, Action::Handoff { dispatch, verb })
                },
            }
        },
        (Phase::Recorded { then }, Event::Appended { ok }) => {
            if !ok {
                return (Phase::Finished, Action::Close);
            }
            let action = match then {
                Reply::Nothing => Action::Close,
                Reply::Error(e) => Action::Respond { error: e },
                Reply::Serve(d) => Action::Serve { dispatch: d },
            };
            (Phase::Finished, action)
        },
        _ => (Phase::Finished, Action::Close),
    }
}

/// Audit-then-respond: a reply frame is released only by the step that
/// learns the justifying record was durably appended.
pub proof fn law_reply_only_after_durable_record(
    phase: Phase,
    event: Event,
    peer_uid: u32,
    next: Phase,
    action: Action,
)
    requires
        stepped(phase, event, peer_uid, next, action),
        action is Respond || action is Serve,
    ensures
        phase is Recorded,
        event == (Event::Appended { ok: true }),
{
}

/// A record whose append failed releases nothing: the connection closes.
pub proof fn law_failed_append_releases_nothing(then: Reply, peer_uid: u32, next: Phase, action: Action)
    requires
        stepped((Phase::Recorded { then }), (Event::Appended { ok: false }), peer_uid, next, action),
    ensures
        next is Finished,
        action is Close,
{
}

/// A peer outside the group is refused at admission: its deny is recorded
/// as the connection's first record, with the peer's uid as its source, and,
/// whatever that append did, the connection closes without reading a
/// request.
pub proof fn law_denied_admission_is_never_served(
    peer_uid: u32,
    next: Phase,
    action: Action,
    appended: bool,
    last: Phase,
    last_action: Action,
)
    requires
        stepped(Phase::Admitting, (Event::Opened { in_group: false }), peer_uid, next, action),
        stepped(next, (Event::Appended { ok: appended }), peer_uid, last, last_action),
    ensures
        emits(
            action,
            record_of(
                "connection"@,
                "connect"@,
                None,
                None,
                "deny"@,
                "peer uid not in `maknae` group"@,
                "unauthorized"@,
            ),
            ADMISSION_SEQ,
            peer_uid,
        ),
        last is Finished,
        last_action is Close,
{
}

/// Admission gates serving: a permitted connection reads its request only
/// once the admission record is durable.
pub proof fn law_request_read_only_after_admission_recorded(
    phase: Phase,
    event: Event,
    peer_uid: u32,
    next: Phase,
    action: Action,
)
    requires
        stepped(phase, event, peer_uid, next, action),
        action is ReadFrame,
    ensures
        phase is AdmissionRecorded,
        event == (Event::Appended { ok: true }),
{
}

/// A read path that fails the pre-gate is never put to the policy.
pub proof fn law_malformed_read_path_is_never_decided(
    verb: Verb,
    verified_path: Option<String>,
    peer_uid: u32,
    next: Phase,
    action: Action,
)
    requires
        stepped(
            Phase::AwaitingRequest,
            (Event::Decoded { verb, verified_path }),
            peer_uid,
            next,
            action,
        ),
        pregate_outcome(verb) is Some,
    ensures
        !(action is Decide),
        next == (Phase::Recorded { then: Reply::Error(WireError::BadRequest) }),
{
}

/// A run of a connection: each step goes from the phase the last one left,
/// starting at admission.
pub open spec fn valid_run(peer_uid: u32, steps: Seq<(Phase, Event, Phase, Action)>) -> bool {
    &&& steps.len() > 0 ==> steps[0].0 is Admitting
    &&& forall|i: int|
        0 <= i < steps.len() ==> stepped(
            #[trigger] steps[i].0,
            steps[i].1,
            peer_uid,
            steps[i].2,
            steps[i].3,
        )
    &&& forall|i: int| 0 <= i < steps.len() - 1 ==> #[trigger] steps[i + 1].0 == steps[i].2
}

/// Step `a` of a run learned that the admission record was durably appended.
pub open spec fn admission_durable_at(steps: Seq<(Phase, Event, Phase, Action)>, a: int) -> bool {
    &&& steps[a].0 is AdmissionRecorded
    &&& steps[a].1 == (Event::Appended { ok: true })
}

proof fn lemma_run_invariant(peer_uid: u32, steps: Seq<(Phase, Event, Phase, Action)>, i: int)
    requires
        valid_run(peer_uid, steps),
        0 <= i < steps.len(),
    ensures
        (steps[i].0 is AwaitingRequest || steps[i].0 is AwaitingDecision || steps[i].0 is Recorded)
            ==> exists|a: int| 0 <= a < i && admission_durable_at(steps, a),
        steps[i].0 is Recorded ==> i > 0 && (steps[i - 1].3 matches Action::Emit { seq, source_uid, .. }
            && seq == REQUEST_SEQ && source_uid == peer_uid),
    decreases i,
{
    if i > 0 {
        lemma_run_invariant(peer_uid, steps, i - 1);
        let j = i - 1;
        assert(steps[j + 1].0 == steps[j].2);
        assert(stepped(steps[j].0, steps[j].1, peer_uid, steps[j].2, steps[j].3));
        if steps[j].0 is AdmissionRecorded && steps[j].1 == (Event::Appended { ok: true }) {
            assert(admission_durable_at(steps, j));
        }
    }
}

/// Over a whole connection, audit comes before any reply: a reply frame is
/// released only by a step that learned the request's record (the
/// connection's second) was durably appended, and the admission record was
/// durably appended at an earlier step.
pub proof fn law_reply_follows_both_durable_records(
    peer_uid: u32,
    steps: Seq<(Phase, Event, Phase, Action)>,
    k: int,
)
    requires
        valid_run(peer_uid, steps),
        0 <= k < steps.len(),
        steps[k].3 is Respond || steps[k].3 is Serve,
    ensures
        steps[k].0 is Recorded,
        steps[k].1 == (Event::Appended { ok: true }),
        k > 0,
        steps[k - 1].3 matches Action::Emit { seq, source_uid, .. } && seq == REQUEST_SEQ
            && source_uid == peer_uid,
        exists|a: int| 0 <= a < k - 1 && admission_durable_at(steps, a),
{
    assert(stepped(steps[k].0, steps[k].1, peer_uid, steps[k].2, steps[k].3));
    law_reply_only_after_durable_record(steps[k].0, steps[k].1, peer_uid, steps[k].2, steps[k].3);
    lemma_run_invariant(peer_uid, steps, k);
    let a = choose|a: int| 0 <= a < k && admission_durable_at(steps, a);
    if a == k - 1 {
        assert(stepped(steps[a].0, steps[a].1, peer_uid, steps[a].2, steps[a].3));
        assert(steps[a + 1].0 == steps[a].2);
        assert(false);
    }
}

/// How a bounded blocking worker ended.
#[derive(Debug, Clone, Copy, PartialEq, Eq, Structural)]
pub enum WorkerEnd {
    /// It returned within its bound.
    Completed,
    /// It ended without returning (panicked or was cancelled).
    JoinFailed,
    /// Its bound elapsed first.
    TimedOut,
}

/// The deny a policy decision comes to before it is attempted: the breaker
/// open, or its worker budget spent.
pub fn decide_admission_refusal(admission: BreakerAdmission) -> (r: Option<&'static str>)
    ensures
        admission is Admit ==> r is None,
        admission is RefuseOpen ==> (r matches Some(m) && m@
            == "authorization decision circuit breaker open"@),
        admission is RefuseAtCapacity ==> (r matches Some(m) && m@
            == "authorization decision blocking worker budget exhausted"@),
{
    match admission {
        BreakerAdmission::Admit => None,
        BreakerAdmission::RefuseOpen => Some("authorization decision circuit breaker open"),
        BreakerAdmission::RefuseAtCapacity => Some(
            "authorization decision blocking worker budget exhausted",
        ),
    }
}

/// The refusal a content read comes to before it is attempted.
pub fn read_admission_refusal(admission: BreakerAdmission) -> (r: Option<&'static str>)
    ensures
        admission is Admit ==> r is None,
        admission is RefuseOpen ==> (r matches Some(m) && m@ == "read circuit breaker open"@),
        admission is RefuseAtCapacity ==> (r matches Some(m) && m@
            == "read blocking worker budget exhausted"@),
{
    match admission {
        BreakerAdmission::Admit => None,
        BreakerAdmission::RefuseOpen => Some("read circuit breaker open"),
        BreakerAdmission::RefuseAtCapacity => Some("read blocking worker budget exhausted"),
    }
}

/// The deny a policy decision comes to when its worker returned no
/// decision: a join failure and an elapsed bound each have their own reason.
pub fn decide_worker_refusal(end: WorkerEnd) -> (r: Option<&'static str>)
    ensures
        end is Completed ==> r is None,
        end is JoinFailed ==> (r matches Some(m) && m@ == "authorization decision failed (join)"@),
        end is TimedOut ==> (r matches Some(m) && m@ == "authorization decision timed out"@),
{
    match end {
        WorkerEnd::Completed => None,
        WorkerEnd::JoinFailed => Some("authorization decision failed (join)"),
        WorkerEnd::TimedOut => Some("authorization decision timed out"),
    }
}

/// Only an elapsed bound counts against a breaker: a worker that ended,
/// even by failing, is evidence that the blocking call is not wedged.
pub fn counts_as_timeout(end: WorkerEnd) -> (r: bool)
    ensures
        r <==> end is TimedOut,
{
    match end {
        WorkerEnd::TimedOut => true,
        _ => false,
    }
}

/// The reason a policy decision is denied when its worker completed without
/// returning one, or ended without returning at all.
pub open spec fn join_failed_reason() -> Seq<char> {
    "authorization decision failed (join)"@
}

/// After a policy worker ended: a timeout is counted on the breaker (and may
/// trip it), any other end closes it; the decision is the worker's own when
/// it completed with one, and otherwise a deny naming how it ended. Returns
/// the decision and whether this end tripped the breaker.
pub fn settle_worker(
    breaker: &mut BlockingBreaker,
    now_ms: u64,
    end: WorkerEnd,
    decided: Option<Decision>,
) -> (r: (Decision, bool))
    ensures
        end is TimedOut ==> final(breaker)@ == timeout(old(breaker)@, now_ms).0 && (r.1 <==> timeout(
            old(breaker)@,
            now_ms,
        ).1 is Tripped),
        !(end is TimedOut) ==> final(breaker)@ == success(old(breaker)@) && !r.1,
        end is TimedOut ==> (r.0 matches Decision::Deny { reason } && reason@
            == "authorization decision timed out"@),
        end is JoinFailed ==> (r.0 matches Decision::Deny { reason } && reason@
            == join_failed_reason()),
        end is Completed ==> match decided {
            Some(d) => r.0 == d,
            None => r.0 matches Decision::Deny { reason } && reason@ == join_failed_reason(),
        },
{
    let tripped = if counts_as_timeout(end) {
        let t = breaker.record_timeout_at(now_ms);
        match t {
            BreakerTransition::Tripped => true,
            BreakerTransition::RemainsClosed => false,
        }
    } else {
        breaker.record_success();
        false
    };
    let decision = match (decide_worker_refusal(end), decided) {
        (None, Some(d)) => d,
        (Some(reason), _) => Decision::Deny { reason: String::from_str(reason) },
        (None, None) => Decision::Deny {
            reason: String::from_str("authorization decision failed (join)"),
        },
    };
    (decision, tripped)
}

/// A served answer that does not fit the frame limit is refused explicitly:
/// a corrective record (the decision was a permit, the delivery refused) and
/// a too-large error frame; an answer that fits needs neither.
pub fn oversize_correction(action: &str, encoded_len: usize, frame_max_bytes: usize) -> (r: Option<
    (Record, WireError),
>)
    ensures
        encoded_len <= frame_max_bytes ==> r is None,
        encoded_len > frame_max_bytes ==> (r matches Some((rec, e)) && e == WireError::TooLarge
            && rec@ == record_of(
            "request"@,
            action@,
            None,
            None,
            "permit"@,
            "delivery refused: response exceeds the frame limit"@,
            "refused-oversize"@,
        )),
{
    if encoded_len <= frame_max_bytes {
        return None;
    }
    let record = Record {
        event: String::from_str("request"),
        action: String::from_str(action),
        object: None,
        object_requested: None,
        result: String::from_str("permit"),
        reason: String::from_str("delivery refused: response exceeds the frame limit"),
        posture: String::from_str("refused-oversize"),
    };
    Some((record, WireError::TooLarge))
}

/// A permitted enumeration that could not be performed is corrected in the
/// trail as unavailable and answered with an internal error.
pub fn enumeration_unavailable(action: &str) -> (r: (Record, WireError))
    ensures
        r.1 == WireError::Internal,
        r.0@ == record_of(
            "request"@,
            action@,
            None,
            None,
            "deny"@,
            "binding enumeration unavailable"@,
            "unavailable"@,
        ),
{
    let record = Record {
        event: String::from_str("request"),
        action: String::from_str(action),
        object: None,
        object_requested: None,
        result: String::from_str("deny"),
        reason: String::from_str("binding enumeration unavailable"),
        posture: String::from_str("unavailable"),
    };
    (record, WireError::Internal)
}

/// The connection record of a peer refused before any handshake because
/// every connection slot is taken.
pub fn at_capacity_record() -> (r: Record)
    ensures
        r@ == record_of(
            "connection"@,
            "connect"@,
            None,
            None,
            "deny"@,
            "at capacity"@,
            "unauthorized"@,
        ),
{
    Record {
        event: String::from_str("connection"),
        action: String::from_str("connect"),
        object: None,
        object_requested: None,
        result: String::from_str("deny"),
        reason: String::from_str("at capacity"),
        posture: String::from_str("unauthorized"),
    }
}

/// The connection record of a peer whose certificate half the transport
/// rejected, labelled by the rejection.
pub fn rejected_handshake_record(reason: &RejectReason) -> (r: Record)
    ensures
        r@ == record_of(
            "connection"@,
            "connect"@,
            None,
            None,
            "deny"@,
            reject_label(*reason),
            "unauthorized"@,
        ),
{
    Record {
        event: String::from_str("connection"),
        action: String::from_str("connect"),
        object: None,
        object_requested: None,
        result: String::from_str("deny"),
        reason: String::from_str(reject_reason_str(reason)),
        posture: String::from_str("unauthorized"),
    }
}

/// Group membership as admission sees it, fail-closed: a member only when
/// the lookup was admitted by its breaker, returned within its bound, and
/// answered yes; a refused, failed, stalled or negative lookup is not.
pub fn admitted_membership(admission: BreakerAdmission, end: WorkerEnd, answer: Option<bool>) -> (r: bool)
    ensures
        r <==> (admission is Admit && end is Completed && answer == Some(true)),
{
    match admission {
        BreakerAdmission::Admit => match end {
            WorkerEnd::Completed => match answer {
                Some(true) => true,
                _ => false,
            },
            _ => false,
        },
        _ => false,
    }
}

} // verus!
