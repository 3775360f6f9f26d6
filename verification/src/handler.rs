//! Verb-dispatch decision points. No I/O and no peer state beyond the explicit
//! arguments: which behaviour a verb resolves to, the action name the policy
//! decides on, the audit-then-respond gate, the lexical path pre-gate, the
//! read budget and the obligation discharge plan.
use crate::blocking_guard::BLOCKING_OPERATION_TIMEOUT_MS;
use crate::paths::{
    absolute, bytes_of, empty_segment_at, find_bad_segment, first_bad_segment, is_root, str_bytes,
    bad_segment_at, canonical, no_bad_segment, SLASH,
};
use vstd::prelude::*;

verus! {

/// How a file write treats its target.
#[derive(Debug, Clone, Copy, PartialEq, Eq, Structural)]
pub enum WriteMode {
    /// Replace the contents of an existing object.
    Existing,
    /// Create a new object; refuse if one exists.
    CreateExclusive,
}

/// A request verb, with the operands the kernel reads.
#[derive(Debug, Clone, PartialEq, Eq)]
pub enum Verb {
    Ping,
    Whoami,
    AdminStatus,
    AdminConfigShow,
    AdminAuditTail,
    AdminPolicyReload,
    AdminSubjectList,
    AdminSubjectBind,
    AdminSubjectUnbind,
    AdminContain,
    AdminRelease,
    AdminCredentialRotate,
    AdminProviderList,
    AdminProviderSet,
    AdminProviderDisable,
    AdminCredentialBroker,
    AdminSessionList,
    AdminSessionTerminate,
    SessionNew,
    SessionResume,
    SessionClose,
    SessionDelete,
    SessionList,
    SessionFork,
    SessionPrompt { conversation: String, turns: Vec<String> },
    SessionCancel,
    SessionSetconfigoption,
    SessionSetmode,
    SessionLoad,
    SessionUpdate,
    SessionRequestpermission,
    SessionElicitCreate,
    SessionElicitComplete,
    SessionCompact,
    Read { path: String, conversation: Option<String> },
    FsWrite { path: String, content: Vec<u8>, mode: WriteMode },
    FsDelete { path: String, recursive: bool },
    FsMove,
    FsList,
    FsStat,
    FsMkdir { path: String, parents: bool, components: Vec<String> },
    FsLink,
    FsChmod,
    FsChown,
    TerminalCreate,
    TerminalOutput,
    TerminalWaitforexit,
    TerminalKill,
    TerminalRelease,
    TerminalInput,
    McpConnect,
    McpDisconnect,
    McpMessage,
    McpToolCall,
    McpResourceRead,
    McpPromptGet,
    McpSamplingCreate,
}

/// What a request's verb resolves to. Carries no peer facts.
#[derive(Debug, Clone, Copy, PartialEq, Eq, Structural)]
pub enum Dispatch {
    /// An enumerated term with no behaviour; answered like any refusal.
    NoBehaviour,
    Pong,
    WhoamiRequested,
    /// Requires the dedicated descriptor/preparation and durable intent path.
    MutationRequested,
    /// The peer asked for the effective configuration.
    ConfigShowRequested,
    /// The peer asked for runtime posture.
    StatusRequested,
    /// The peer asked to enumerate role bindings.
    SubjectListRequested,
    /// The peer asked to send content to the registered provider.
    PromptRequested,
}

/// The dispatch each verb resolves to.
pub open spec fn dispatch_of(verb: Verb) -> Dispatch {
    match verb {
        Verb::Ping => Dispatch::Pong,
        Verb::Whoami => Dispatch::WhoamiRequested,
        Verb::Read { .. } | Verb::FsWrite { .. } | Verb::FsDelete { .. } | Verb::FsMkdir {
            ..
        } => Dispatch::MutationRequested,
        Verb::AdminConfigShow => Dispatch::ConfigShowRequested,
        Verb::AdminStatus => Dispatch::StatusRequested,
        Verb::AdminSubjectList => Dispatch::SubjectListRequested,
        Verb::SessionPrompt { .. } => Dispatch::PromptRequested,
        _ => Dispatch::NoBehaviour,
    }
}

/// Each dispatch names its own terms: a pong exactly for a ping, the whoami
/// answer exactly for whoami, the mutation path exactly for a read, write,
/// delete or mkdir, the configuration, status and subject-list answers
/// exactly for their admin terms, the provider exactly for a prompt; every
/// other term has no behaviour.
pub proof fn law_each_dispatch_names_its_terms(v: Verb)
    ensures
        dispatch_of(v) == Dispatch::Pong <==> v is Ping,
        dispatch_of(v) == Dispatch::WhoamiRequested <==> v is Whoami,
        dispatch_of(v) == Dispatch::MutationRequested <==> (v is Read || v is FsWrite || v is FsDelete
            || v is FsMkdir),
        dispatch_of(v) == Dispatch::ConfigShowRequested <==> v is AdminConfigShow,
        dispatch_of(v) == Dispatch::StatusRequested <==> v is AdminStatus,
        dispatch_of(v) == Dispatch::SubjectListRequested <==> v is AdminSubjectList,
        dispatch_of(v) == Dispatch::PromptRequested <==> v is SessionPrompt,
        dispatch_of(v) == Dispatch::NoBehaviour <==> !(v is Ping || v is Whoami || v is Read
            || v is FsWrite || v is FsDelete || v is FsMkdir || v is AdminConfigShow
            || v is AdminStatus || v is AdminSubjectList || v is SessionPrompt),
{
}

/// Resolve a verb to its dispatch.
pub fn dispatch_verb(verb: &Verb) -> (d: Dispatch)
    ensures
        d == dispatch_of(*verb),
{
    match verb {
        Verb::Ping => Dispatch::Pong,
        Verb::Whoami => Dispatch::WhoamiRequested,
        Verb::Read { .. } | Verb::FsWrite { .. } | Verb::FsDelete { .. } | Verb::FsMkdir {
            ..
        } => Dispatch::MutationRequested,
        Verb::AdminConfigShow => Dispatch::ConfigShowRequested,
        Verb::AdminStatus => Dispatch::StatusRequested,
        Verb::AdminSubjectList => Dispatch::SubjectListRequested,
        Verb::SessionPrompt { .. } => Dispatch::PromptRequested,
        Verb::AdminAuditTail
        | Verb::AdminPolicyReload
        | Verb::AdminSubjectBind
        | Verb::AdminSubjectUnbind
        | Verb::AdminContain
        | Verb::AdminRelease
        | Verb::AdminCredentialRotate
        | Verb::AdminProviderList
        | Verb::AdminProviderSet
        | Verb::AdminProviderDisable
        | Verb::AdminCredentialBroker
        | Verb::AdminSessionList
        | Verb::AdminSessionTerminate
        | Verb::SessionNew
        | Verb::SessionResume
        | Verb::SessionClose
        | Verb::SessionDelete
        | Verb::SessionList
        | Verb::SessionFork
        | Verb::SessionCancel
        | Verb::SessionSetconfigoption
        | Verb::SessionSetmode
        | Verb::SessionLoad
        | Verb::SessionUpdate
        | Verb::SessionRequestpermission
        | Verb::SessionElicitCreate
        | Verb::SessionElicitComplete
        | Verb::SessionCompact
        | Verb::FsMove
        | Verb::FsList
        | Verb::FsStat
        | Verb::FsLink
        | Verb::FsChmod
        | Verb::FsChown
        | Verb::TerminalCreate
        | Verb::TerminalOutput
        | Verb::TerminalWaitforexit
        | Verb::TerminalKill
        | Verb::TerminalRelease
        | Verb::TerminalInput
        | Verb::McpConnect
        | Verb::McpDisconnect
        | Verb::McpMessage
        | Verb::McpToolCall
        | Verb::McpResourceRead
        | Verb::McpPromptGet
        | Verb::McpSamplingCreate => Dispatch::NoBehaviour,
    }
}

/// The peer facts `whoami` answers with.
#[derive(Debug, Clone, PartialEq, Eq)]
pub struct WhoamiView {
    pub peer_plane_uri_san: String,
    pub peer_uid: u32,
}

/// The response payloads built by this module.
#[derive(Debug, Clone, PartialEq, Eq)]
pub enum Payload {
    Pong,
    Whoami(WhoamiView),
}

/// Build the `whoami` response payload from the kernel-verified peer facts.
pub fn build_whoami(uri: &str, uid: u32) -> (p: Payload)
    ensures
        p matches Payload::Whoami(w) && w.peer_plane_uri_san@ == uri@ && w.peer_uid == uid,
{
    Payload::Whoami(WhoamiView { peer_plane_uri_san: String::from_str(uri), peer_uid: uid })
}

/// Audit-then-respond gate: a response may be released only when the
/// request's audit record was durably appended.
pub fn may_respond(audit_ok: bool) -> (r: bool)
    ensures
        r == audit_ok,
{
    audit_ok
}

/// Why the serving loop stopped.
#[derive(Debug, Clone, PartialEq, Eq)]
pub enum ServeOutcome {
    /// A termination signal was observed and in-flight handlers drained.
    GracefulShutdown,
    /// The credential supervisor gave up; its reason is carried.
    SupervisorExited(String),
}

/// The process exit status of a clean stop.
pub const EXIT_SUCCESS: u8 = 0;

/// The process exit status of every failure without a status of its own.
pub const EXIT_FAILURE: u8 = 1;

/// The process exit status for a serve outcome: a graceful shutdown
/// succeeds, any supervisor exit fails.
pub fn serve_outcome_to_exit_code(outcome: &ServeOutcome) -> (code: u8)
    ensures
        (outcome is GracefulShutdown) ==> code == EXIT_SUCCESS,
        (outcome is SupervisorExited) ==> code == EXIT_FAILURE,
{
    match outcome {
        ServeOutcome::GracefulShutdown => EXIT_SUCCESS,
        ServeOutcome::SupervisorExited(_) => EXIT_FAILURE,
    }
}

/// The actions the kernel initiates on its own behalf; they have no verb.
pub const KERNEL_ACTIONS: [&'static str; 2] = ["kernel.contain", "kernel.session.terminate"];

/// The policy action name of each verb.
pub open spec fn action_of(verb: Verb) -> Seq<char> {
    match verb {
        Verb::Ping => "liveness.ping"@,
        Verb::Whoami => "admin.whoami"@,
        Verb::AdminStatus => "admin.status"@,
        Verb::AdminConfigShow => "admin.config.show"@,
        Verb::AdminAuditTail => "admin.audit.tail"@,
        Verb::AdminPolicyReload => "admin.policy.reload"@,
        Verb::AdminSubjectList => "admin.subject.list"@,
        Verb::AdminSubjectBind => "admin.subject.bind"@,
        Verb::AdminSubjectUnbind => "admin.subject.unbind"@,
        Verb::AdminContain => "admin.contain"@,
        Verb::AdminRelease => "admin.release"@,
        Verb::AdminCredentialRotate => "admin.credential.rotate"@,
        Verb::AdminProviderList => "admin.provider.list"@,
        Verb::AdminProviderSet => "admin.provider.set"@,
        Verb::AdminProviderDisable => "admin.provider.disable"@,
        Verb::AdminCredentialBroker => "admin.credential.broker"@,
        Verb::AdminSessionList => "admin.session.list"@,
        Verb::AdminSessionTerminate => "admin.session.terminate"@,
        Verb::SessionNew => "session.new"@,
        Verb::SessionResume => "session.resume"@,
        Verb::SessionClose => "session.close"@,
        Verb::SessionDelete => "session.delete"@,
        Verb::SessionList => "session.list"@,
        Verb::SessionFork => "session.fork"@,
        Verb::SessionPrompt { .. } => "session.prompt"@,
        Verb::SessionCancel => "session.cancel"@,
        Verb::SessionSetconfigoption => "session.set_config_option"@,
        Verb::SessionSetmode => "session.set_mode"@,
        Verb::SessionLoad => "session.load"@,
        Verb::SessionUpdate => "session.update"@,
        Verb::SessionRequestpermission => "session.request_permission"@,
        Verb::SessionElicitCreate => "session.elicit.create"@,
        Verb::SessionElicitComplete => "session.elicit.complete"@,
        Verb::SessionCompact => "session.compact"@,
        Verb::Read { .. } => "fs.read"@,
        Verb::FsWrite { .. } => "fs.write"@,
        Verb::FsDelete { .. } => "fs.delete"@,
        Verb::FsMove => "fs.move"@,
        Verb::FsList => "fs.list"@,
        Verb::FsStat => "fs.stat"@,
        Verb::FsMkdir { .. } => "fs.mkdir"@,
        Verb::FsLink => "fs.link"@,
        Verb::FsChmod => "fs.chmod"@,
        Verb::FsChown => "fs.chown"@,
        Verb::TerminalCreate => "terminal.create"@,
        Verb::TerminalOutput => "terminal.output"@,
        Verb::TerminalWaitforexit => "terminal.wait_for_exit"@,
        Verb::TerminalKill => "terminal.kill"@,
        Verb::TerminalRelease => "terminal.release"@,
        Verb::TerminalInput => "terminal.input"@,
        Verb::McpConnect => "mcp.connect"@,
        Verb::McpDisconnect => "mcp.disconnect"@,
        Verb::McpMessage => "mcp.message"@,
        Verb::McpToolCall => "mcp.tool.call"@,
        Verb::McpResourceRead => "mcp.resource.read"@,
        Verb::McpPromptGet => "mcp.prompt.get"@,
        Verb::McpSamplingCreate => "mcp.sampling.create"@,
    }
}

/// Verb to policy action name; the audit record's `action` field carries
/// the same vocabulary.
pub fn verb_to_action(verb: &Verb) -> (a: &'static str)
    ensures
        a@ == action_of(*verb),
{
    match verb {
        Verb::Ping => "liveness.ping",
        Verb::Whoami => "admin.whoami",
        Verb::AdminStatus => "admin.status",
        Verb::AdminConfigShow => "admin.config.show",
        Verb::AdminAuditTail => "admin.audit.tail",
        Verb::AdminPolicyReload => "admin.policy.reload",
        Verb::AdminSubjectList => "admin.subject.list",
        Verb::AdminSubjectBind => "admin.subject.bind",
        Verb::AdminSubjectUnbind => "admin.subject.unbind",
        Verb::AdminContain => "admin.contain",
        Verb::AdminRelease => "admin.release",
        Verb::AdminCredentialRotate => "admin.credential.rotate",
        Verb::AdminProviderList => "admin.provider.list",
        Verb::AdminProviderSet => "admin.provider.set",
        Verb::AdminProviderDisable => "admin.provider.disable",
        Verb::AdminCredentialBroker => "admin.credential.broker",
        Verb::AdminSessionList => "admin.session.list",
        Verb::AdminSessionTerminate => "admin.session.terminate",
        Verb::SessionNew => "session.new",
        Verb::SessionResume => "session.resume",
        Verb::SessionClose => "session.close",
        Verb::SessionDelete => "session.delete",
        Verb::SessionList => "session.list",
        Verb::SessionFork => "session.fork",
        Verb::SessionPrompt { .. } => "session.prompt",
        Verb::SessionCancel => "session.cancel",
        Verb::SessionSetconfigoption => "session.set_config_option",
        Verb::SessionSetmode => "session.set_mode",
        Verb::SessionLoad => "session.load",
        Verb::SessionUpdate => "session.update",
        Verb::SessionRequestpermission => "session.request_permission",
        Verb::SessionElicitCreate => "session.elicit.create",
        Verb::SessionElicitComplete => "session.elicit.complete",
        Verb::SessionCompact => "session.compact",
        Verb::Read { .. } => "fs.read",
        Verb::FsWrite { .. } => "fs.write",
        Verb::FsDelete { .. } => "fs.delete",
        Verb::FsMove => "fs.move",
        Verb::FsList => "fs.list",
        Verb::FsStat => "fs.stat",
        Verb::FsMkdir { .. } => "fs.mkdir",
        Verb::FsLink => "fs.link",
        Verb::FsChmod => "fs.chmod",
        Verb::FsChown => "fs.chown",
        Verb::TerminalCreate => "terminal.create",
        Verb::TerminalOutput => "terminal.output",
        Verb::TerminalWaitforexit => "terminal.wait_for_exit",
        Verb::TerminalKill => "terminal.kill",
        Verb::TerminalRelease => "terminal.release",
        Verb::TerminalInput => "terminal.input",
        Verb::McpConnect => "mcp.connect",
        Verb::McpDisconnect => "mcp.disconnect",
        Verb::McpMessage => "mcp.message",
        Verb::McpToolCall => "mcp.tool.call",
        Verb::McpResourceRead => "mcp.resource.read",
        Verb::McpPromptGet => "mcp.prompt.get",
        Verb::McpSamplingCreate => "mcp.sampling.create",
    }
}

/// Bound on one policy decision, in milliseconds; the shared blocking
/// operation timeout.
pub const AUTHZ_DECIDE_TIMEOUT_MS: u64 = BLOCKING_OPERATION_TIMEOUT_MS;

/// An obligation a permit carries: its identifier and the names of its
/// parameters.
#[derive(Debug, Clone, PartialEq, Eq)]
pub struct Obligation {
    pub id: String,
    pub params: Vec<String>,
}

/// An obligation the enforcement point has no handler for.
#[derive(Debug, Clone, PartialEq, Eq)]
pub struct UnhonorableObligation(pub String);

/// The one obligation with a registered handler: `audit`, without parameters.
pub open spec fn honorable(ob: Obligation) -> bool {
    ob.id@ == "audit"@ && ob.params@.len() == 0
}

/// Obligation discharge plan: every obligation must be exactly `audit` with
/// no parameters; the first one that is not is named. An empty list is fine.
pub fn discharge_plan(obligations: &[Obligation]) -> (r: Result<(), UnhonorableObligation>)
    ensures
        r is Ok <==> forall|i: int| 0 <= i < obligations@.len() ==> honorable(#[trigger] obligations@[i]),
        r matches Err(UnhonorableObligation(id)) ==> exists|i: int|
            0 <= i < obligations@.len() && !honorable(#[trigger] obligations@[i])
                && id@ == obligations@[i].id@ && forall|j: int|
                0 <= j < i ==> honorable(#[trigger] obligations@[j]),
{
    let audit = String::from_str("audit");
    let mut i: usize = 0;
    while i < obligations.len()
        invariant
            0 <= i <= obligations@.len(),
            audit@ == "audit"@,
            forall|j: int| 0 <= j < i ==> honorable(#[trigger] obligations@[j]),
        decreases obligations@.len() - i,
    {
        let ob = &obligations[i];
        if ob.id != audit || ob.params.len() != 0 {
            return Err(UnhonorableObligation(ob.id.clone()));
        }
        i = i + 1;
    }
    Ok(())
}

/// What the lexical pre-gate refuses a read path for, if anything: not
/// absolute; a trailing slash; and otherwise the first segment that is empty
/// or is `.` or `..`. The bare root passes (it matches no grant downstream).
pub open spec fn pregate_refusal(p: Seq<u8>) -> Option<Seq<char>> {
    if !absolute(p) {
        Some("not absolute"@)
    } else if is_root(p) {
        None
    } else if p.last() == SLASH {
        Some("trailing slash"@)
    } else if exists|i: int| first_bad_segment(p, i) {
        let i = choose|i: int| first_bad_segment(p, i);
        if empty_segment_at(p, i) {
            Some("empty segment"@)
        } else {
            Some("dot segment"@)
        }
    } else {
        None
    }
}

/// A bad segment somewhere means a first one.
proof fn lemma_first_bad_exists(p: Seq<u8>, i: int)
    requires
        bad_segment_at(p, i),
    ensures
        exists|j: int| first_bad_segment(p, j),
    decreases i,
{
    if exists|j: int| 0 <= j < i && #[trigger] bad_segment_at(p, j) {
        let j = choose|j: int| 0 <= j < i && #[trigger] bad_segment_at(p, j);
        lemma_first_bad_exists(p, j);
    } else {
        assert(first_bad_segment(p, i));
    }
}

/// The pre-gate passes exactly the canonical spellings: the root, and
/// absolute paths whose every segment is non-empty and neither `.` nor `..`.
/// A path that is not absolute is refused as such, and a trailing slash
/// after anything but the root as such.
pub proof fn law_pregate_passes_exactly_canonical_paths(p: Seq<u8>)
    ensures
        pregate_refusal(p) is None <==> canonical(p),
        !absolute(p) ==> pregate_refusal(p) == Some("not absolute"@),
        absolute(p) && !is_root(p) && p.last() == SLASH ==> pregate_refusal(p) == Some(
            "trailing slash"@,
        ),
{
    if absolute(p) && !is_root(p) {
        if p.last() == SLASH {
            assert(empty_segment_at(p, p.len() - 1));
            assert(bad_segment_at(p, p.len() - 1));
        } else {
            if !no_bad_segment(p) {
                let i = choose|i: int| 0 <= i < p.len() && #[trigger] bad_segment_at(p, i);
                lemma_first_bad_exists(p, i);
            }
        }
    }
}

/// Two first bad segments are one.
pub proof fn lemma_first_bad_segment_unique(p: Seq<u8>, i: int, j: int)
    requires
        first_bad_segment(p, i),
        first_bad_segment(p, j),
    ensures
        i == j,
{
    if i < j {
        assert(!bad_segment_at(p, i));
    } else if j < i {
        assert(!bad_segment_at(p, j));
    }
}

/// The lexical canonical-form pre-gate over a client-supplied read path.
pub fn lexical_pregate(path: &str) -> (r: Result<(), &'static str>)
    ensures
        r is Ok <==> pregate_refusal(bytes_of(path@)) is None,
        r matches Err(m) ==> pregate_refusal(bytes_of(path@)) == Some(m@),
{
    let p = str_bytes(path);
    if p.len() == 0 || p[0] != SLASH {
        return Err("not absolute");
    }
    if p.len() == 1 {
        assert(is_root(p@));
        return Ok(());
    }
    assert(!is_root(p@));
    if p[p.len() - 1] == SLASH {
        return Err("trailing slash");
    }
    match find_bad_segment(p) {
        Some(i) => {
            proof {
                let c = choose|k: int| first_bad_segment(p@, k);
                lemma_first_bad_segment_unique(p@, i as int, c);
            }
            if i + 1 == p.len() || p[i + 1] == SLASH {
                Err("empty segment")
            } else {
                Err("dot segment")
            }
        },
        None => {
            assert(!exists|i: int| first_bad_segment(p@, i));
            Ok(())
        },
    }
}

/// Envelope headroom subtracted from the frame budget before a read is sized.
pub const FRAME_ENVELOPE_MARGIN: u64 = 512;

/// The content bound for one read grant: the frame budget less the envelope
/// margin, never below zero.
pub fn read_budget(frame_max_bytes: usize) -> (b: u64)
    ensures
        b == if frame_max_bytes >= FRAME_ENVELOPE_MARGIN {
            frame_max_bytes - FRAME_ENVELOPE_MARGIN
        } else {
            0
        },
{
    let f = frame_max_bytes as u64;
    if f >= FRAME_ENVELOPE_MARGIN {
        f - FRAME_ENVELOPE_MARGIN
    } else {
        0
    }
}

/// Which listener accepted a connection: the on-host client socket, or a
/// remote one.
#[derive(Debug, Clone, Copy, PartialEq, Eq, Structural)]
pub enum Lane {
    Local,
    Remote,
}

impl Lane {
    /// The lane's name as the policy reads it.
    pub fn as_str(&self) -> (s: &'static str)
        ensures
            *self is Local ==> s@ == "local"@,
            *self is Remote ==> s@ == "remote"@,
    {
        match self {
            Lane::Local => "local",
            Lane::Remote => "remote",
        }
    }
}

/// What the policy decision point is asked: the peer's uid, the term, the
/// read path for a read, the registered provider as `provider:<name>` for a
/// prompt, and the lane of the listener that accepted the connection.
#[derive(Debug, Clone, PartialEq, Eq)]
pub struct AuthzRequest {
    pub uid: i64,
    pub action: String,
    pub path: Option<String>,
    pub destination: Option<String>,
    pub lane: Lane,
}

/// Build the policy request from the verb and the kernel-verified peer uid.
/// The lane is an argument, never read off the verb, so nothing the client
/// sends can choose it; the destination is the provider registered at boot,
/// never the client's.
pub fn build_authz_request(verb: &Verb, peer_uid: u32, lane: Lane, provider_name: Option<&str>) -> (r:
    AuthzRequest)
    ensures
        r.uid == peer_uid as i64,
        r.action@ == action_of(*verb),
        r.lane == lane,
        r.path is Some <==> verb is Read,
        *verb matches Verb::Read { path, .. } ==> r.path == Some(path),
        r.destination is Some <==> (verb is SessionPrompt && provider_name is Some),
        r.destination matches Some(d) ==> d@ == "provider:"@ + provider_name->0@,
{
    let path = match verb {
        Verb::Read { path, .. } => Some(path.clone()),
        _ => None,
    };
    let destination = match (verb, provider_name) {
        (Verb::SessionPrompt { .. }, Some(name)) => {
            let mut d = String::from_str("provider:");
            d.append(name);
            Some(d)
        },
        _ => None,
    };
    AuthzRequest {
        uid: peer_uid as i64,
        action: String::from_str(verb_to_action(verb)),
        path,
        destination,
        lane,
    }
}

/// What a delegated descriptor must prove before the kernel acts on it: the
/// object lies beneath the enrolled home; the home belongs to the principal
/// and is not group- or world-writable; and the object is a regular file
/// with exactly one link, with an optional size bound. The object's own
/// owner and mode are left to the operating system's answer.
#[derive(Debug, Clone, PartialEq, Eq)]
pub struct DelegatedPlan {
    pub confined_beneath: String,
    pub root_owner: Option<u32>,
    pub root_mode_mask: Option<u32>,
    pub target_owner: Option<u32>,
    pub target_mode_mask: Option<u32>,
    pub nlink_exactly_one: bool,
    pub regular_file: bool,
    pub max_bytes: Option<u64>,
}

/// The mode bits the home must not carry: group and other write.
pub const HOME_MODE_MASK: u32 = 0o022;

/// The requirements a delegated descriptor is verified against.
pub fn delegated_plan(home: &str, owner_uid: u32, max_bytes: Option<u64>) -> (p: DelegatedPlan)
    ensures
        p.confined_beneath@ == home@,
        p.root_owner == Some(owner_uid),
        p.root_mode_mask == Some(HOME_MODE_MASK),
        p.target_owner is None,
        p.target_mode_mask is None,
        p.nlink_exactly_one,
        p.regular_file,
        p.max_bytes == max_bytes,
{
    DelegatedPlan {
        confined_beneath: String::from_str(home),
        root_owner: Some(owner_uid),
        root_mode_mask: Some(HOME_MODE_MASK),
        target_owner: None,
        target_mode_mask: None,
        nlink_exactly_one: true,
        regular_file: true,
        max_bytes,
    }
}

/// The position of each term in the vocabulary.
pub open spec fn term_index(verb: Verb) -> int {
    match verb {
        Verb::Ping => 0,
        Verb::Whoami => 1,
        Verb::AdminStatus => 2,
        Verb::AdminConfigShow => 3,
        Verb::AdminAuditTail => 4,
        Verb::AdminPolicyReload => 5,
        Verb::AdminSubjectList => 6,
        Verb::AdminSubjectBind => 7,
        Verb::AdminSubjectUnbind => 8,
        Verb::AdminContain => 9,
        Verb::AdminRelease => 10,
        Verb::AdminCredentialRotate => 11,
        Verb::AdminProviderList => 12,
        Verb::AdminProviderSet => 13,
        Verb::AdminProviderDisable => 14,
        Verb::AdminCredentialBroker => 15,
        Verb::AdminSessionList => 16,
        Verb::AdminSessionTerminate => 17,
        Verb::SessionNew => 18,
        Verb::SessionResume => 19,
        Verb::SessionClose => 20,
        Verb::SessionDelete => 21,
        Verb::SessionList => 22,
        Verb::SessionFork => 23,
        Verb::SessionPrompt { .. } => 24,
        Verb::SessionCancel => 25,
        Verb::SessionSetconfigoption => 26,
        Verb::SessionSetmode => 27,
        Verb::SessionLoad => 28,
        Verb::SessionUpdate => 29,
        Verb::SessionRequestpermission => 30,
        Verb::SessionElicitCreate => 31,
        Verb::SessionElicitComplete => 32,
        Verb::SessionCompact => 33,
        Verb::Read { .. } => 34,
        Verb::FsWrite { .. } => 35,
        Verb::FsDelete { .. } => 36,
        Verb::FsMove => 37,
        Verb::FsList => 38,
        Verb::FsStat => 39,
        Verb::FsMkdir { .. } => 40,
        Verb::FsLink => 41,
        Verb::FsChmod => 42,
        Verb::FsChown => 43,
        Verb::TerminalCreate => 44,
        Verb::TerminalOutput => 45,
        Verb::TerminalWaitforexit => 46,
        Verb::TerminalKill => 47,
        Verb::TerminalRelease => 48,
        Verb::TerminalInput => 49,
        Verb::McpConnect => 50,
        Verb::McpDisconnect => 51,
        Verb::McpMessage => 52,
        Verb::McpToolCall => 53,
        Verb::McpResourceRead => 54,
        Verb::McpPromptGet => 55,
        Verb::McpSamplingCreate => 56,
    }
}

/// Every term has an action name of its own: two verbs with the same action
/// name are the same term, so no term is ever decided as another.
pub proof fn law_action_names_are_distinct(a: Verb, b: Verb)
    ensures
        action_of(a) == action_of(b) ==> term_index(a) == term_index(b),
{
    reveal_strlit("liveness.ping");
    reveal_strlit("admin.whoami");
    reveal_strlit("admin.status");
    reveal_strlit("admin.config.show");
    reveal_strlit("admin.audit.tail");
    reveal_strlit("admin.policy.reload");
    reveal_strlit("admin.subject.list");
    reveal_strlit("admin.subject.bind");
    reveal_strlit("admin.subject.unbind");
    reveal_strlit("admin.contain");
    reveal_strlit("admin.release");
    reveal_strlit("admin.credential.rotate");
    reveal_strlit("admin.provider.list");
    reveal_strlit("admin.provider.set");
    reveal_strlit("admin.provider.disable");
    reveal_strlit("admin.credential.broker");
    reveal_strlit("admin.session.list");
    reveal_strlit("admin.session.terminate");
    reveal_strlit("session.new");
    reveal_strlit("session.resume");
    reveal_strlit("session.close");
    reveal_strlit("session.delete");
    reveal_strlit("session.list");
    reveal_strlit("session.fork");
    reveal_strlit("session.prompt");
    reveal_strlit("session.cancel");
    reveal_strlit("session.set_config_option");
    reveal_strlit("session.set_mode");
    reveal_strlit("session.load");
    reveal_strlit("session.update");
    reveal_strlit("session.request_permission");
    reveal_strlit("session.elicit.create");
    reveal_strlit("session.elicit.complete");
    reveal_strlit("session.compact");
    reveal_strlit("fs.read");
    reveal_strlit("fs.write");
    reveal_strlit("fs.delete");
    reveal_strlit("fs.move");
    reveal_strlit("fs.list");
    reveal_strlit("fs.stat");
    reveal_strlit("fs.mkdir");
    reveal_strlit("fs.link");
    reveal_strlit("fs.chmod");
    reveal_strlit("fs.chown");
    reveal_strlit("terminal.create");
    reveal_strlit("terminal.output");
    reveal_strlit("terminal.wait_for_exit");
    reveal_strlit("terminal.kill");
    reveal_strlit("terminal.release");
    reveal_strlit("terminal.input");
    reveal_strlit("mcp.connect");
    reveal_strlit("mcp.disconnect");
    reveal_strlit("mcp.message");
    reveal_strlit("mcp.tool.call");
    reveal_strlit("mcp.resource.read");
    reveal_strlit("mcp.prompt.get");
    reveal_strlit("mcp.sampling.create");
    if action_of(a) == action_of(b) {
        let x = action_of(a);
        let y = action_of(b);
        assert(x.len() == y.len());
        assert(x[0] == y[0]);
        assert(x[1] == y[1]);
        assert(x[2] == y[2]);
        assert(x[3] == y[3]);
        assert(x[4] == y[4]);
        assert(x[5] == y[5]);
        assert(x[6] == y[6]);
        assert(x[7] == y[7]);
        assert(x[8] == y[8]);
        assert(x[9] == y[9]);
        assert(x[10] == y[10]);
        assert(x[11] == y[11]);
        assert(x[12] == y[12]);
        assert(x[13] == y[13]);
        assert(x[14] == y[14]);
        assert(x[15] == y[15]);
        assert(x[16] == y[16]);
        assert(x[17] == y[17]);
    }
}

/// The class a term's action belongs to, by its place in the vocabulary.
pub open spec fn action_class(verb: Verb) -> Seq<char> {
    let i = term_index(verb);
    if i == 0 {
        "liveness"@
    } else if i <= 17 {
        "admin"@
    } else if i <= 33 {
        "session"@
    } else if i <= 43 {
        "fs"@
    } else if i <= 49 {
        "terminal"@
    } else {
        "mcp"@
    }
}

/// Every action name's first segment is its class, one of liveness, admin,
/// session, fs, terminal and mcp: the name is the class, a dot, and the rest.
pub proof fn law_action_names_begin_with_their_class(v: Verb)
    ensures
        action_class(v) == "liveness"@ || action_class(v) == "admin"@ || action_class(v)
            == "session"@ || action_class(v) == "fs"@ || action_class(v) == "terminal"@
            || action_class(v) == "mcp"@,
        action_of(v).len() > action_class(v).len(),
        action_of(v).take(action_class(v).len() as int) == action_class(v),
        action_of(v)[action_class(v).len() as int] == '.',
{
    reveal_strlit("liveness.ping");
    reveal_strlit("admin.whoami");
    reveal_strlit("admin.status");
    reveal_strlit("admin.config.show");
    reveal_strlit("admin.audit.tail");
    reveal_strlit("admin.policy.reload");
    reveal_strlit("admin.subject.list");
    reveal_strlit("admin.subject.bind");
    reveal_strlit("admin.subject.unbind");
    reveal_strlit("admin.contain");
    reveal_strlit("admin.release");
    reveal_strlit("admin.credential.rotate");
    reveal_strlit("admin.provider.list");
    reveal_strlit("admin.provider.set");
    reveal_strlit("admin.provider.disable");
    reveal_strlit("admin.credential.broker");
    reveal_strlit("admin.session.list");
    reveal_strlit("admin.session.terminate");
    reveal_strlit("session.new");
    reveal_strlit("session.resume");
    reveal_strlit("session.close");
    reveal_strlit("session.delete");
    reveal_strlit("session.list");
    reveal_strlit("session.fork");
    reveal_strlit("session.prompt");
    reveal_strlit("session.cancel");
    reveal_strlit("session.set_config_option");
    reveal_strlit("session.set_mode");
    reveal_strlit("session.load");
    reveal_strlit("session.update");
    reveal_strlit("session.request_permission");
    reveal_strlit("session.elicit.create");
    reveal_strlit("session.elicit.complete");
    reveal_strlit("session.compact");
    reveal_strlit("fs.read");
    reveal_strlit("fs.write");
    reveal_strlit("fs.delete");
    reveal_strlit("fs.move");
    reveal_strlit("fs.list");
    reveal_strlit("fs.stat");
    reveal_strlit("fs.mkdir");
    reveal_strlit("fs.link");
    reveal_strlit("fs.chmod");
    reveal_strlit("fs.chown");
    reveal_strlit("terminal.create");
    reveal_strlit("terminal.output");
    reveal_strlit("terminal.wait_for_exit");
    reveal_strlit("terminal.kill");
    reveal_strlit("terminal.release");
    reveal_strlit("terminal.input");
    reveal_strlit("mcp.connect");
    reveal_strlit("mcp.disconnect");
    reveal_strlit("mcp.message");
    reveal_strlit("mcp.tool.call");
    reveal_strlit("mcp.resource.read");
    reveal_strlit("mcp.prompt.get");
    reveal_strlit("mcp.sampling.create");
    reveal_strlit("liveness");
    reveal_strlit("admin");
    reveal_strlit("session");
    reveal_strlit("fs");
    reveal_strlit("terminal");
    reveal_strlit("mcp");
    assert(action_of(v).take(action_class(v).len() as int) =~= action_class(v));
}

/// No client term is named like an action the kernel takes on its own
/// behalf, nor like a transport or boot record's pseudo-action.
pub proof fn law_client_terms_collide_with_no_pseudo_action(v: Verb)
    ensures
        action_of(v) != "kernel.contain"@,
        action_of(v) != "kernel.session.terminate"@,
        action_of(v) != "connect"@,
        action_of(v) != "read"@,
        action_of(v) != "decode"@,
        action_of(v) != "authz"@,
        action_of(v) != "posture"@,
{
    reveal_strlit("liveness.ping");
    reveal_strlit("admin.whoami");
    reveal_strlit("admin.status");
    reveal_strlit("admin.config.show");
    reveal_strlit("admin.audit.tail");
    reveal_strlit("admin.policy.reload");
    reveal_strlit("admin.subject.list");
    reveal_strlit("admin.subject.bind");
    reveal_strlit("admin.subject.unbind");
    reveal_strlit("admin.contain");
    reveal_strlit("admin.release");
    reveal_strlit("admin.credential.rotate");
    reveal_strlit("admin.provider.list");
    reveal_strlit("admin.provider.set");
    reveal_strlit("admin.provider.disable");
    reveal_strlit("admin.credential.broker");
    reveal_strlit("admin.session.list");
    reveal_strlit("admin.session.terminate");
    reveal_strlit("session.new");
    reveal_strlit("session.resume");
    reveal_strlit("session.close");
    reveal_strlit("session.delete");
    reveal_strlit("session.list");
    reveal_strlit("session.fork");
    reveal_strlit("session.prompt");
    reveal_strlit("session.cancel");
    reveal_strlit("session.set_config_option");
    reveal_strlit("session.set_mode");
    reveal_strlit("session.load");
    reveal_strlit("session.update");
    reveal_strlit("session.request_permission");
    reveal_strlit("session.elicit.create");
    reveal_strlit("session.elicit.complete");
    reveal_strlit("session.compact");
    reveal_strlit("fs.read");
    reveal_strlit("fs.write");
    reveal_strlit("fs.delete");
    reveal_strlit("fs.move");
    reveal_strlit("fs.list");
    reveal_strlit("fs.stat");
    reveal_strlit("fs.mkdir");
    reveal_strlit("fs.link");
    reveal_strlit("fs.chmod");
    reveal_strlit("fs.chown");
    reveal_strlit("terminal.create");
    reveal_strlit("terminal.output");
    reveal_strlit("terminal.wait_for_exit");
    reveal_strlit("terminal.kill");
    reveal_strlit("terminal.release");
    reveal_strlit("terminal.input");
    reveal_strlit("mcp.connect");
    reveal_strlit("mcp.disconnect");
    reveal_strlit("mcp.message");
    reveal_strlit("mcp.tool.call");
    reveal_strlit("mcp.resource.read");
    reveal_strlit("mcp.prompt.get");
    reveal_strlit("mcp.sampling.create");
    reveal_strlit("kernel.contain");
    reveal_strlit("kernel.session.terminate");
    reveal_strlit("connect");
    reveal_strlit("read");
    reveal_strlit("decode");
    reveal_strlit("authz");
    reveal_strlit("posture");
    let x = action_of(v);
    if x == "kernel.contain"@ {
        let y = "kernel.contain"@;
        assert(x.len() == y.len());
        assert(x[0] == y[0]);
    }
    if x == "kernel.session.terminate"@ {
        let y = "kernel.session.terminate"@;
        assert(x.len() == y.len());
        assert(x[0] == y[0]);
    }
    if x == "connect"@ {
        let y = "connect"@;
        assert(x.len() == y.len());
        assert(x[0] == y[0]);
    }
    if x == "read"@ {
        let y = "read"@;
        assert(x.len() == y.len());
        assert(x[0] == y[0]);
    }
    if x == "decode"@ {
        let y = "decode"@;
        assert(x.len() == y.len());
        assert(x[0] == y[0]);
    }
    if x == "authz"@ {
        let y = "authz"@;
        assert(x.len() == y.len());
        assert(x[0] == y[0]);
    }
    if x == "posture"@ {
        let y = "posture"@;
        assert(x.len() == y.len());
        assert(x[0] == y[0]);
    }
}

} // verus!
