//! The kernel's egress backend over the deputy's Unix socket: one decided
//! request per connection, the peer checked before the first write, and a
//! wall-clock budget over the whole exchange. The socket operations are the
//! caller's; the decisions they consult are here.
use crate::decimal::{decimal, push_decimal};
use crate::egress::EgressFailure;
use vstd::prelude::*;

verus! {

/// The deputy's socket, the uid its listener must have been created under,
/// the wall-clock budget of one exchange, and the largest reply frame the
/// kernel accepts.
pub struct SocketEgress {
    path: String,
    expected_uid: u32,
    timeout: std::time::Duration,
    max_frame_bytes: usize,
}

/// How a socket write failed, as far as the budget loop cares.
#[derive(Debug, Clone, Copy, PartialEq, Eq, Structural)]
pub enum IoErrorKind {
    /// A signal arrived mid-call.
    Interrupted,
    /// A non-blocking write found no space yet.
    WouldBlock,
    /// Anything else.
    Other,
}

/// A failure once the request has started to leave: a transport failure is
/// delivery-unknown; any other passes through.
pub open spec fn after_send_of(e: EgressFailure) -> EgressFailure {
    match e {
        EgressFailure::Transport(m) => EgressFailure::AfterSend(m),
        other => other,
    }
}

/// The refusal of a reply frame declared over the cap.
pub open spec fn over_cap_message(n: nat, cap: nat) -> Seq<char> {
    "deputy declared a "@ + decimal(n) + "-byte reply frame over the "@ + decimal(cap)
        + "-byte cap"@
}

/// The refusal of a request frame over the deputy's request cap.
pub open spec fn request_over_cap_message(n: nat, cap: nat) -> Seq<char> {
    "request frame of "@ + decimal(n) + " bytes over the "@ + decimal(cap) + "-byte cap"@
}

/// The refusal of a listener that belongs to neither the expected uid nor
/// root.
pub open spec fn peer_refusal_message() -> Seq<char> {
    "egress peer is not the expected uid"@
}

/// What the send path decides before its first write, in order: the peer's
/// listener must be accepted, then the encoded request frame must be within
/// the request cap (at the cap is within). Either refusal is a transport
/// failure: nothing left the kernel.
pub open spec fn pre_send_refusal(listener_is_expected: bool, request_frame_len: nat, request_cap: nat) -> Option<
    Seq<char>,
> {
    if !listener_is_expected {
        Some(peer_refusal_message())
    } else if request_frame_len > request_cap {
        Some(request_over_cap_message(request_frame_len, request_cap))
    } else {
        None
    }
}

impl SocketEgress {
    /// A backend for the deputy at `path`, whose listener must belong to
    /// `expected_uid`, bounded by `timeout` per exchange and accepting reply
    /// frames of at most `max_frame_bytes`.
    pub fn new(path: String, expected_uid: u32, timeout: std::time::Duration, max_frame_bytes: usize) -> (e: Self)
        ensures
            e.path() == path@,
            e.expected_uid() == expected_uid,
            e.timeout() == timeout,
            e.max_frame_bytes() == max_frame_bytes,
    {
        SocketEgress { path, expected_uid, timeout, max_frame_bytes }
    }

    /// The socket path.
    pub closed spec fn path(&self) -> Seq<char> {
        self.path@
    }

    /// The uid the listener must have been created under.
    pub closed spec fn expected_uid(&self) -> u32 {
        self.expected_uid
    }

    /// The wall-clock budget of one exchange.
    pub closed spec fn timeout(&self) -> std::time::Duration {
        self.timeout
    }

    /// The reply frame cap.
    pub closed spec fn max_frame_bytes(&self) -> usize {
        self.max_frame_bytes
    }

    /// The socket path.
    pub fn socket_path(&self) -> (p: &str)
        ensures
            p@ == self.path(),
    {
        self.path.as_str()
    }

    /// The uid the listener must have been created under.
    pub fn listener_uid(&self) -> (u: u32)
        ensures
            u == self.expected_uid(),
    {
        self.expected_uid
    }

    /// The configured deadline: the wall-clock budget over the whole exchange.
    pub fn deadline(&self) -> (d: std::time::Duration)
        ensures
            d == self.timeout(),
    {
        self.timeout
    }

    /// The reply frame cap.
    pub fn frame_cap(&self) -> (n: usize)
        ensures
            n == self.max_frame_bytes(),
    {
        self.max_frame_bytes
    }

    /// Whether the deputy can be reached: its socket exists, or the backend
    /// fails closed as not configured.
    pub fn readiness(&self, socket_exists: bool) -> (r: Result<(), EgressFailure>)
        ensures
            socket_exists ==> r is Ok,
            !socket_exists ==> r == Err::<(), EgressFailure>(EgressFailure::NotConfigured),
    {
        if socket_exists {
            Ok(())
        } else {
            Err(EgressFailure::NotConfigured)
        }
    }

    /// A failure before anything was written: nothing left the kernel.
    pub fn transport(message: String) -> (f: EgressFailure)
        ensures
            f == EgressFailure::Transport(message),
    {
        EgressFailure::Transport(message)
    }

    /// Every failure from the first written byte on: a transport failure
    /// becomes delivery-unknown, and the budget's own refusal passes through.
    pub fn after_send(e: EgressFailure) -> (f: EgressFailure)
        ensures
            e matches EgressFailure::Transport(m) ==> f == EgressFailure::AfterSend(m),
            !(e is Transport) ==> f == e,
    {
        match e {
            EgressFailure::Transport(m) => EgressFailure::AfterSend(m),
            other => other,
        }
    }

    /// What is left of the budget at `now`, in ticks of the clock that
    /// `deadline_at` is read on; a spent budget is a refusal.
    pub fn remaining(deadline_at: u64, now: u64) -> (r: Result<u64, EgressFailure>)
        ensures
            now < deadline_at ==> r == Ok::<u64, EgressFailure>((deadline_at - now) as u64),
            now >= deadline_at ==> r == Err::<u64, EgressFailure>(EgressFailure::DeadlineExpired),
    {
        if now >= deadline_at {
            return Err(EgressFailure::DeadlineExpired);
        }
        Ok(deadline_at - now)
    }

    /// The write errors the budget loop absorbs and retries: an interrupted
    /// call, and a non-blocking write with no space yet.
    pub fn write_is_retried(kind: IoErrorKind) -> (r: bool)
        ensures
            r <==> (kind == IoErrorKind::Interrupted || kind == IoErrorKind::WouldBlock),
    {
        match kind {
            IoErrorKind::Interrupted => true,
            IoErrorKind::WouldBlock => true,
            IoErrorKind::Other => false,
        }
    }

    /// The peer check made before the first write: a listener that does not
    /// belong to the expected uid is refused as a transport failure, so
    /// nothing is ever written to it.
    pub fn peer_check(listener_is_expected: bool) -> (r: Result<(), EgressFailure>)
        ensures
            listener_is_expected ==> r is Ok,
            !listener_is_expected ==> (r matches Err(EgressFailure::Transport(m)) && m@
                == "egress peer is not the expected uid"@),
    {
        if listener_is_expected {
            Ok(())
        } else {
            Err(EgressFailure::Transport(String::from_str("egress peer is not the expected uid")))
        }
    }

    /// Whether a listener created under `listener_uid` may be written to: one
    /// created by the expected uid itself, or by root, which creates the
    /// listener the init system hands over.
    pub fn listener_accepted(&self, listener_uid: u32) -> (r: bool)
        ensures
            r <==> (listener_uid == self.expected_uid() || listener_uid == 0),
    {
        listener_uid == self.expected_uid || listener_uid == 0
    }

    /// Everything the send path checks before its first write: the peer's
    /// listener first, then the encoded request frame against the request
    /// cap. A refusal here is a transport failure, so the outcome records
    /// that nothing left the kernel.
    pub fn before_first_write(
        &self,
        listener_is_expected: bool,
        request_frame_len: usize,
        request_cap: usize,
    ) -> (r: Result<(), EgressFailure>)
        ensures
            pre_send_refusal(listener_is_expected, request_frame_len as nat, request_cap as nat) is None
                ==> r is Ok,
            pre_send_refusal(listener_is_expected, request_frame_len as nat, request_cap as nat) matches Some(
                msg,
            ) ==> (r matches Err(EgressFailure::Transport(m)) && m@ == msg),
    {
        Self::peer_check(listener_is_expected)?;
        if request_frame_len <= request_cap {
            return Ok(());
        }
        let mut m = String::from_str("request frame of ");
        push_decimal(&mut m, request_frame_len as u64);
        m.append(" bytes over the ");
        push_decimal(&mut m, request_cap as u64);
        m.append("-byte cap");
        Err(EgressFailure::Transport(m))
    }

    /// The reply frame the deputy declared, checked against the cap before
    /// any allocation: its length when within the cap (at the cap is within),
    /// and otherwise a delivery-unknown refusal that names both sizes.
    pub fn declared_reply_len(&self, declared: u32) -> (r: Result<usize, EgressFailure>)
        ensures
            declared <= self.max_frame_bytes() ==> r == Ok::<usize, EgressFailure>(declared as usize),
            declared > self.max_frame_bytes() ==> (r matches Err(EgressFailure::AfterSend(m)) && m@
                == over_cap_message(declared as nat, self.max_frame_bytes() as nat)),
    {
        let n = declared as usize;
        if n <= self.max_frame_bytes {
            return Ok(n);
        }
        let mut m = String::from_str("deputy declared a ");
        push_decimal(&mut m, declared as u64);
        m.append("-byte reply frame over the ");
        push_decimal(&mut m, self.max_frame_bytes as u64);
        m.append("-byte cap");
        Err(EgressFailure::AfterSend(m))
    }
}

/// Where one exchange with the deputy stands.
#[derive(Debug, Clone, PartialEq, Eq)]
pub enum DeputyPhase {
    /// The socket is being connected and the request encoded.
    Connecting,
    /// The listener's credentials are being read; the encoded request frame
    /// has `request_len` bytes.
    CheckingPeer { request_len: usize },
    /// The length-prefixed request is being written.
    Sending,
    /// The reply's declared length is being read.
    AwaitingLength,
    /// A buffer of the declared length is being allocated and filled.
    ReadingBody,
    /// The exchange is over.
    Done,
}

/// What the last socket operation came back with.
#[derive(Debug, PartialEq, Eq)]
pub enum DeputyEvent {
    /// The socket connected and the request encoded to `request_len` bytes.
    Connected { request_len: usize },
    /// Connecting, or encoding the request, failed; nothing was written.
    ConnectFailed { message: String },
    /// The listener was created under this uid.
    PeerRead { listener_uid: u32 },
    /// The listener's credentials could not be read.
    PeerUnreadable { message: String },
    /// The request was written, or how writing it failed.
    Sent { result: Result<(), EgressFailure> },
    /// The reply's declared length, or how reading it failed.
    LengthRead { result: Result<u32, EgressFailure> },
    /// The reply body was read, or how reading it failed.
    BodyRead { result: Result<(), EgressFailure> },
}

/// What the driver must do next.
#[derive(Debug, PartialEq, Eq)]
pub enum DeputyAction {
    /// Read the listener's credentials off the connected socket.
    ReadPeer,
    /// Write the length-prefixed request.
    Write,
    /// Read the reply's declared length.
    ReadLength,
    /// Allocate a buffer of `n` bytes and read the reply body into it.
    Allocate { n: usize },
    /// The exchange ends with this result.
    Finish { result: Result<(), EgressFailure> },
}

/// The step of an exchange with a deputy whose listener must belong to
/// `expected_uid` (or root), whose request frames may have at most
/// `request_cap` bytes and whose reply frames at most `max_frame` bytes.
pub open spec fn deputy_stepped(
    expected_uid: u32,
    max_frame: usize,
    request_cap: usize,
    phase: DeputyPhase,
    event: DeputyEvent,
    next: DeputyPhase,
    action: DeputyAction,
) -> bool {
    match (phase, event) {
        (DeputyPhase::Connecting, DeputyEvent::Connected { request_len }) => {
            next == (DeputyPhase::CheckingPeer { request_len }) && action == DeputyAction::ReadPeer
        },
        (DeputyPhase::Connecting, DeputyEvent::ConnectFailed { message }) => {
            next == DeputyPhase::Done && action == (DeputyAction::Finish {
                result: Err(EgressFailure::Transport(message)),
            })
        },
        (DeputyPhase::CheckingPeer { request_len }, DeputyEvent::PeerRead { listener_uid }) => {
            match pre_send_refusal(
                listener_uid == expected_uid || listener_uid == 0,
                request_len as nat,
                request_cap as nat,
            ) {
                None => next == DeputyPhase::Sending && action == DeputyAction::Write,
                Some(msg) => next == DeputyPhase::Done && (action matches DeputyAction::Finish {
                    result: Err(EgressFailure::Transport(m)),
                } && m@ == msg),
            }
        },
        (DeputyPhase::CheckingPeer { .. }, DeputyEvent::PeerUnreadable { message }) => {
            next == DeputyPhase::Done && action == (DeputyAction::Finish {
                result: Err(EgressFailure::Transport(message)),
            })
        },
        (DeputyPhase::Sending, DeputyEvent::Sent { result }) => match result {
            Ok(()) => next == DeputyPhase::AwaitingLength && action == DeputyAction::ReadLength,
            Err(e) => next == DeputyPhase::Done && action == (DeputyAction::Finish {
                result: Err(after_send_of(e)),
            }),
        },
        (DeputyPhase::AwaitingLength, DeputyEvent::LengthRead { result }) => match result {
            Ok(declared) => if declared <= max_frame {
                next == DeputyPhase::ReadingBody && action == (DeputyAction::Allocate {
                    n: declared as usize,
                })
            } else {
                next == DeputyPhase::Done && (action matches DeputyAction::Finish {
                    result: Err(EgressFailure::AfterSend(m)),
                } && m@ == over_cap_message(declared as nat, max_frame as nat))
            },
            Err(e) => next == DeputyPhase::Done && action == (DeputyAction::Finish {
                result: Err(after_send_of(e)),
            }),
        },
        (DeputyPhase::ReadingBody, DeputyEvent::BodyRead { result }) => next == DeputyPhase::Done
            && action == (DeputyAction::Finish {
            result: match result {
                Ok(()) => Ok(()),
                Err(e) => Err(after_send_of(e)),
            },
        }),
        _ => next == DeputyPhase::Done && (action matches DeputyAction::Finish {
            result: Err(EgressFailure::AfterSend(m)),
        } && m@ == out_of_order_text()),
    }
}

/// The failure of an exchange driven out of order; the request may have
/// left, so delivery is unknown.
pub open spec fn out_of_order_text() -> Seq<char> {
    "egress exchange driven out of order"@
}

impl SocketEgress {
    /// Step one exchange with the deputy: the listener is checked and the
    /// request measured against `request_cap` before anything is written; the
    /// reply's declared length is checked against the frame cap before any
    /// buffer is allocated; every failure from the first written byte on is
    /// delivery-unknown.
    pub fn deputy_step(&self, phase: DeputyPhase, event: DeputyEvent, request_cap: usize) -> (r: (
        DeputyPhase,
        DeputyAction,
    ))
        ensures
            deputy_stepped(
                self.expected_uid(),
                self.max_frame_bytes(),
                request_cap,
                phase,
                event,
                r.0,
                r.1,
            ),
    {
        match (phase, event) {
            (DeputyPhase::Connecting, DeputyEvent::Connected { request_len }) => (
                DeputyPhase::CheckingPeer { request_len },
                DeputyAction::ReadPeer,
            ),
            (DeputyPhase::Connecting, DeputyEvent::ConnectFailed { message }) => (
                DeputyPhase::Done,
                DeputyAction::Finish { result: Err(Self::transport(message)) },
            ),
            (DeputyPhase::CheckingPeer { request_len }, DeputyEvent::PeerRead { listener_uid }) => {
                let accepted = self.listener_accepted(listener_uid);
                match self.before_first_write(accepted, request_len, request_cap) {
                    Ok(()) => (DeputyPhase::Sending, DeputyAction::Write),
                    Err(e) => (DeputyPhase::Done, DeputyAction::Finish { result: Err(e) }),
                }
            },
            (DeputyPhase::CheckingPeer { .. }, DeputyEvent::PeerUnreadable { message }) => (
                DeputyPhase::Done,
                DeputyAction::Finish { result: Err(Self::transport(message)) },
            ),
            (DeputyPhase::Sending, DeputyEvent::Sent { result }) => match result {
                Ok(()) => (DeputyPhase::AwaitingLength, DeputyAction::ReadLength),
                Err(e) => (DeputyPhase::Done, DeputyAction::Finish { result: Err(Self::after_send(e)) }),
            },
            (DeputyPhase::AwaitingLength, DeputyEvent::LengthRead { result }) => match result {
                Ok(declared) => match self.declared_reply_len(declared) {
                    Ok(n) => (DeputyPhase::ReadingBody, DeputyAction::Allocate { n }),
                    Err(e) => (DeputyPhase::Done, DeputyAction::Finish { result: Err(e) }),
                },
                Err(e) => (DeputyPhase::Done, DeputyAction::Finish { result: Err(Self::after_send(e)) }),
            },
            (DeputyPhase::ReadingBody, DeputyEvent::BodyRead { result }) => (
                DeputyPhase::Done,
                DeputyAction::Finish {
                    result: match result {
                        Ok(()) => Ok(()),
                        Err(e) => Err(Self::after_send(e)),
                    },
                },
            ),
            _ => (
                DeputyPhase::Done,
                DeputyAction::Finish {
                    result: Err(EgressFailure::AfterSend(String::from_str("egress exchange driven out of order"))),
                },
            ),
        }
    }
}

/// The peer is checked and the request measured before the first write: the
/// step that asks for a write is the one that read an accepted listener's
/// credentials for a request within the request cap.
pub proof fn law_write_only_after_peer_check(
    expected_uid: u32,
    max_frame: usize,
    request_cap: usize,
    phase: DeputyPhase,
    event: DeputyEvent,
    next: DeputyPhase,
    action: DeputyAction,
)
    requires
        deputy_stepped(expected_uid, max_frame, request_cap, phase, event, next, action),
        action == DeputyAction::Write,
    ensures
        phase matches DeputyPhase::CheckingPeer { request_len } && request_len <= request_cap,
        event matches DeputyEvent::PeerRead { listener_uid } && (listener_uid == expected_uid
            || listener_uid == 0),
{
}

/// The reply cap is checked before allocation: a buffer is allocated only by
/// the step that read a declared length within the frame cap, and it has
/// exactly that length.
pub proof fn law_allocate_only_within_the_cap(
    expected_uid: u32,
    max_frame: usize,
    request_cap: usize,
    phase: DeputyPhase,
    event: DeputyEvent,
    next: DeputyPhase,
    n: usize,
)
    requires
        deputy_stepped(
            expected_uid,
            max_frame,
            request_cap,
            phase,
            event,
            next,
            DeputyAction::Allocate { n },
        ),
    ensures
        phase == DeputyPhase::AwaitingLength,
        event == (DeputyEvent::LengthRead { result: Ok(n as u32) }),
        n <= max_frame,
{
}

/// A refused peer, or an over-cap request, ends the exchange as a transport
/// failure before anything is written: nothing left the kernel.
pub proof fn law_refusal_before_the_first_write_is_nothing_left(
    expected_uid: u32,
    max_frame: usize,
    request_cap: usize,
    request_len: usize,
    event: DeputyEvent,
    next: DeputyPhase,
    action: DeputyAction,
)
    requires
        deputy_stepped(
            expected_uid,
            max_frame,
            request_cap,
            DeputyPhase::CheckingPeer { request_len },
            event,
            next,
            action,
        ),
        event is PeerRead || event is PeerUnreadable,
        action != DeputyAction::Write,
    ensures
        next == DeputyPhase::Done,
        action matches DeputyAction::Finish { result: Err(EgressFailure::Transport(_)) },
{
}

/// Nothing that failed after the first written byte is recorded as
/// "nothing left the kernel".
pub proof fn law_nothing_after_send_is_nothing_left(e: EgressFailure)
    ensures
        !(after_send_of(e) is Transport),
        after_send_of(after_send_of(e)) == after_send_of(e),
{
}

} // verus!
