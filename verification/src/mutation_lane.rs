//! The namespace-mutation lane: once a mutation's intent is durable, the
//! kernel grants the client an attempt and then trades reports for
//! acknowledgments. Each report is validated by the exchange, its audit
//! record is appended durably, and only then is it acknowledged and the
//! acknowledgment written. A missing, malformed or refused report ends the
//! lane with an incomplete outcome; a finish report ends it once its
//! acknowledgment is written.
//!
//! The lane is a state machine: `exchange_step` takes the lane's phase and
//! the outcome of the last action and gives the next phase and action. The
//! driver performs each action (writing frames, calling the exchange,
//! appending records) and reports back.
use crate::mutation::{REPORT_MISSING, REPORT_REJECTED};
use crate::mutation_exchange::MutationAck;
use vstd::prelude::*;

verus! {

/// Where the lane stands.
#[derive(Debug, Clone, Copy, PartialEq, Eq, Structural)]
pub enum ExchangePhase {
    /// The exchange is to be opened and the grant encoded.
    Opening,
    /// The grant frame is being written.
    Granting,
    /// A report frame is being read and decoded.
    AwaitingReport,
    /// The exchange is validating the report.
    Validating,
    /// The accepted report's audit record is being appended.
    Recording { finished: bool },
    /// The exchange is committing the accepted report.
    Acknowledging { finished: bool },
    /// The acknowledgment frame is being written.
    Acking { finished: bool },
    /// The lane is over.
    Done,
}

/// The outcome of the action the lane last asked for.
#[derive(Debug, Clone, Copy, PartialEq, Eq, Structural)]
pub enum ExchangeEvent {
    /// The exchange opened (or was refused), and whether the grant frame
    /// fits the frame cap.
    Opened { opened: bool, grant_fits: bool },
    /// Whether the grant frame was written within the deadline.
    GrantWritten { ok: bool },
    /// Whether a report frame arrived and decoded within the deadline.
    ReportRead { present: bool },
    /// Whether the exchange accepted the report, and whether it is a finish.
    Validated { accepted: bool, finished: bool },
    /// Whether the report's audit record was appended within the deadline.
    Appended { ok: bool },
    /// What the exchange's acknowledgment gave.
    Acknowledged { ack: Option<MutationAck> },
    /// Whether the acknowledgment frame was written within the deadline.
    AckWritten { ok: bool },
}

/// Why a lane ended incomplete.
#[derive(Debug, Clone, Copy, PartialEq, Eq, Structural)]
pub enum IncompleteCause {
    /// The report was missing, malformed or late.
    Missing,
    /// The exchange refused the report.
    Rejected,
}

/// The reason an incomplete completion records for its cause.
pub open spec fn incomplete_text(cause: IncompleteCause) -> Seq<char> {
    match cause {
        IncompleteCause::Missing => REPORT_MISSING@,
        IncompleteCause::Rejected => REPORT_REJECTED@,
    }
}

impl IncompleteCause {
    /// The reason recorded for this cause.
    pub fn reason(&self) -> (r: &'static str)
        ensures
            r@ == incomplete_text(*self),
    {
        match self {
            IncompleteCause::Missing => REPORT_MISSING,
            IncompleteCause::Rejected => REPORT_REJECTED,
        }
    }
}

/// What the driver must do next.
#[derive(Debug, Clone, Copy, PartialEq, Eq, Structural)]
pub enum ExchangeAction {
    /// Write the grant frame.
    WriteGrant,
    /// Read and decode one report frame.
    ReadReport,
    /// Ask the exchange to validate the report just read.
    Validate,
    /// Append the accepted report's audit record.
    AppendReport,
    /// Ask the exchange to acknowledge the pending report.
    Acknowledge,
    /// Write this acknowledgment frame.
    WriteAck { ack: MutationAck },
    /// Append an incomplete completion for this cause, then end the lane.
    RecordIncomplete { cause: IncompleteCause },
    /// End the lane.
    Close,
}

/// The step of the lane from `phase` on `event`: the next phase and action.
pub open spec fn exchange_stepped(phase: ExchangePhase, event: ExchangeEvent) -> (
    ExchangePhase,
    ExchangeAction,
) {
    match (phase, event) {
        (ExchangePhase::Opening, ExchangeEvent::Opened { opened, grant_fits }) => if opened
            && grant_fits {
            (ExchangePhase::Granting, ExchangeAction::WriteGrant)
        } else {
            (ExchangePhase::Done, ExchangeAction::Close)
        },
        (ExchangePhase::Granting, ExchangeEvent::GrantWritten { ok }) => if ok {
            (ExchangePhase::AwaitingReport, ExchangeAction::ReadReport)
        } else {
            (ExchangePhase::Done, ExchangeAction::Close)
        },
        (ExchangePhase::AwaitingReport, ExchangeEvent::ReportRead { present }) => if present {
            (ExchangePhase::Validating, ExchangeAction::Validate)
        } else {
            (ExchangePhase::Done, ExchangeAction::RecordIncomplete { cause: IncompleteCause::Missing })
        },
        (ExchangePhase::Validating, ExchangeEvent::Validated { accepted, finished }) => if accepted {
            (ExchangePhase::Recording { finished }, ExchangeAction::AppendReport)
        } else {
            (ExchangePhase::Done, ExchangeAction::RecordIncomplete { cause: IncompleteCause::Rejected })
        },
        (ExchangePhase::Recording { finished }, ExchangeEvent::Appended { ok }) => if ok {
            (ExchangePhase::Acknowledging { finished }, ExchangeAction::Acknowledge)
        } else {
            (ExchangePhase::Done, ExchangeAction::Close)
        },
        (ExchangePhase::Acknowledging { finished }, ExchangeEvent::Acknowledged { ack }) => match ack {
            Some(a) => (ExchangePhase::Acking { finished }, ExchangeAction::WriteAck { ack: a }),
            None => (ExchangePhase::Done, ExchangeAction::Close),
        },
        (ExchangePhase::Acking { finished }, ExchangeEvent::AckWritten { ok }) => if ok && !finished {
            (ExchangePhase::AwaitingReport, ExchangeAction::ReadReport)
        } else {
            (ExchangePhase::Done, ExchangeAction::Close)
        },
        _ => (ExchangePhase::Done, ExchangeAction::Close),
    }
}

/// Step the lane.
pub fn exchange_step(phase: ExchangePhase, event: ExchangeEvent) -> (r: (ExchangePhase, ExchangeAction))
    ensures
        r == exchange_stepped(phase, event),
{
    match (phase, event) {
        (ExchangePhase::Opening, ExchangeEvent::Opened { opened, grant_fits }) => {
            if opened && grant_fits {
                (ExchangePhase::Granting, ExchangeAction::WriteGrant)
            } else {
                (ExchangePhase::Done, ExchangeAction::Close)
            }
        },
        (ExchangePhase::Granting, ExchangeEvent::GrantWritten { ok }) => {
            if ok {
                (ExchangePhase::AwaitingReport, ExchangeAction::ReadReport)
            } else {
                (ExchangePhase::Done, ExchangeAction::Close)
            }
        },
        (ExchangePhase::AwaitingReport, ExchangeEvent::ReportRead { present }) => {
            if present {
                (ExchangePhase::Validating, ExchangeAction::Validate)
            } else {
                (ExchangePhase::Done, ExchangeAction::RecordIncomplete { cause: IncompleteCause::Missing })
            }
        },
        (ExchangePhase::Validating, ExchangeEvent::Validated { accepted, finished }) => {
            if accepted {
                (ExchangePhase::Recording { finished }, ExchangeAction::AppendReport)
            } else {
                (ExchangePhase::Done, ExchangeAction::RecordIncomplete { cause: IncompleteCause::Rejected })
            }
        },
        (ExchangePhase::Recording { finished }, ExchangeEvent::Appended { ok }) => {
            if ok {
                (ExchangePhase::Acknowledging { finished }, ExchangeAction::Acknowledge)
            } else {
                (ExchangePhase::Done, ExchangeAction::Close)
            }
        },
        (ExchangePhase::Acknowledging { finished }, ExchangeEvent::Acknowledged { ack }) => {
            match ack {
                Some(a) => (ExchangePhase::Acking { finished }, ExchangeAction::WriteAck { ack: a }),
                None => (ExchangePhase::Done, ExchangeAction::Close),
            }
        },
        (ExchangePhase::Acking { finished }, ExchangeEvent::AckWritten { ok }) => {
            if ok && !finished {
                (ExchangePhase::AwaitingReport, ExchangeAction::ReadReport)
            } else {
                (ExchangePhase::Done, ExchangeAction::Close)
            }
        },
        _ => (ExchangePhase::Done, ExchangeAction::Close),
    }
}

/// Audit before acknowledge: the exchange is asked to acknowledge a report
/// only by the step that learns the report's audit record was durably
/// appended, and an acknowledgment frame is written only for what that
/// acknowledgment returned, in the phase it leads to.
pub proof fn law_acknowledge_only_after_durable_append(phase: ExchangePhase, event: ExchangeEvent)
    ensures
        exchange_stepped(phase, event).1 is Acknowledge ==> phase is Recording && event
            == (ExchangeEvent::Appended { ok: true }),
        exchange_stepped(phase, event).0 is Acknowledging ==> phase is Recording && event
            == (ExchangeEvent::Appended { ok: true }),
        exchange_stepped(phase, event).1 matches ExchangeAction::WriteAck { ack } ==> phase is Acknowledging
            && event == (ExchangeEvent::Acknowledged { ack: Some(ack) }),
        exchange_stepped(phase, event).0 is Acking ==> phase is Acknowledging && event
            matches ExchangeEvent::Acknowledged { ack: Some(_) },
{
}

/// A failed append acknowledges nothing: the lane ends without asking the
/// exchange to commit.
pub proof fn law_failed_append_ends_the_lane(finished: bool)
    ensures
        exchange_stepped(ExchangePhase::Recording { finished }, ExchangeEvent::Appended { ok: false })
            == (ExchangePhase::Done, ExchangeAction::Close),
{
}

/// A missing or malformed report, and a report the exchange refuses, each end
/// the lane with an incomplete outcome and its own reason; nothing is
/// acknowledged.
pub proof fn law_missing_or_refused_report_is_incomplete(finished: bool)
    ensures
        exchange_stepped(ExchangePhase::AwaitingReport, ExchangeEvent::ReportRead { present: false })
            == (ExchangePhase::Done, ExchangeAction::RecordIncomplete { cause: IncompleteCause::Missing }),
        exchange_stepped(
            ExchangePhase::Validating,
            ExchangeEvent::Validated { accepted: false, finished },
        ) == (ExchangePhase::Done, ExchangeAction::RecordIncomplete { cause: IncompleteCause::Rejected }),
{
}

/// A report is validated only once it was read, and read only after the
/// grant or a previous acknowledgment was written, never while a report is
/// pending.
pub proof fn law_reports_are_read_one_at_a_time(phase: ExchangePhase, event: ExchangeEvent)
    ensures
        exchange_stepped(phase, event).1 is Validate ==> phase is AwaitingReport && event
            == (ExchangeEvent::ReportRead { present: true }),
        exchange_stepped(phase, event).1 is ReadReport ==> (phase is Granting && event
            == (ExchangeEvent::GrantWritten { ok: true })) || (phase == (ExchangePhase::Acking {
            finished: false,
        }) && event == (ExchangeEvent::AckWritten { ok: true })),
{
}

/// The lane ends at the finish report: once its acknowledgment is written,
/// nothing more is read.
pub proof fn law_finish_report_ends_the_lane(ok: bool)
    ensures
        exchange_stepped(ExchangePhase::Acking { finished: true }, ExchangeEvent::AckWritten { ok })
            == (ExchangePhase::Done, ExchangeAction::Close),
{
}

/// Whether an accepted report is a finish is carried unchanged from its
/// validation to its acknowledgment: a report accepted with `finished`,
/// durably appended, acknowledged and its acknowledgment written, ends the
/// lane when it was a finish, and otherwise reads the next report; the ack
/// written is the one the exchange returned.
pub proof fn law_finished_flag_is_carried_to_the_ack(finished: bool, ack: MutationAck, ok: bool)
    ensures
        ({
            let s1 = exchange_stepped(
                ExchangePhase::Validating,
                ExchangeEvent::Validated { accepted: true, finished },
            );
            let s2 = exchange_stepped(s1.0, ExchangeEvent::Appended { ok: true });
            let s3 = exchange_stepped(s2.0, ExchangeEvent::Acknowledged { ack: Some(ack) });
            let s4 = exchange_stepped(s3.0, ExchangeEvent::AckWritten { ok });
            &&& s1 == (ExchangePhase::Recording { finished }, ExchangeAction::AppendReport)
            &&& s2 == (ExchangePhase::Acknowledging { finished }, ExchangeAction::Acknowledge)
            &&& s3 == (ExchangePhase::Acking { finished }, ExchangeAction::WriteAck { ack })
            &&& (finished || !ok) ==> s4 == (ExchangePhase::Done, ExchangeAction::Close)
            &&& (!finished && ok) ==> s4 == (ExchangePhase::AwaitingReport, ExchangeAction::ReadReport)
        }),
{
}

/// An ended lane stays ended.
pub proof fn law_done_is_final(event: ExchangeEvent)
    ensures
        exchange_stepped(ExchangePhase::Done, event) == (ExchangePhase::Done, ExchangeAction::Close),
{
}

} // verus!
