//! The per-request classification-ceiling operand.
//!
//! Content at or below the declared level flows; content marked above it is
//! spillage and is refused. The order is the selected classification
//! system's: this module orders nothing itself. The caller asks the selected
//! system for its readings (the level of the label, which compiled-in
//! systems recognize an unranked marking, and whether the ceiling dominates
//! the level) and this module decides on them.
//!
//! The operand never permits: satisfied is `NotApplicable`, violated is
//! `Deny`. Control-plane actions carry no content, so it abstains on them.
use crate::paths::{bytes_of, in_class, in_class_bytes};
use vstd::prelude::*;

verus! {

/// The action classes that move no content.
pub const CONTROL_PLANE_CLASSES: [&'static str; 3] = ["liveness", "admin", "kernel"];

/// The name this operand reports.
pub const CEILING_BACKEND_NAME: &'static str = "maknae-ceiling";

/// The action is in one of the control-plane classes, by exact segment.
pub open spec fn control_plane(action: Seq<u8>) -> bool {
    ||| in_class_bytes(action, bytes_of("liveness"@))
    ||| in_class_bytes(action, bytes_of("admin"@))
    ||| in_class_bytes(action, bytes_of("kernel"@))
}

/// Does this action move no content?
pub fn is_control_plane(action: &str) -> (r: bool)
    ensures
        r == control_plane(bytes_of(action@)),
{
    in_class(action, "liveness") || in_class(action, "admin") || in_class(action, "kernel")
}

/// What the request's resource says about its classification.
#[derive(Debug, Clone, Copy, PartialEq, Eq)]
pub enum Label<'a> {
    /// No marking: the system's lowest level, at or below every ceiling.
    Absent,
    /// A marking, ranked by its first token through the selected system.
    Marking(&'a str),
    /// Present but not a string: refused rather than coerced.
    NotAString,
}

/// A level of a classification system.
#[derive(Debug, Clone, PartialEq, Eq)]
pub struct Level {
    pub policy: String,
    pub name: String,
    pub rank: u32,
}

/// The selected system's answers for one request.
#[derive(Debug, Clone)]
pub struct SystemReading {
    /// The selected system's name.
    pub policy_name: String,
    /// The level of the label: the system's unmarked level for an absent
    /// label, the level of the marking's first token for a marking, `None`
    /// when the system does not carry that token.
    pub level: Option<Level>,
    /// The names of the compiled-in systems that carry the marking's first
    /// token, in registry order.
    pub recognizing: Vec<String>,
    /// Whether the declared ceiling dominates the level; `None` when the
    /// ceiling is not a level of the selected system.
    pub ceiling_dominates: Option<bool>,
}

/// A decision of one authorization operand.
#[derive(Debug, Clone, PartialEq, Eq)]
pub enum Verdict {
    Permit,
    NotApplicable,
    Deny { reason: String },
}

/// A verdict as contracts speak of it, with a refusal's reason as text.
pub enum VerdictView {
    Permit,
    NotApplicable,
    Deny { reason: Seq<char> },
}

impl View for Verdict {
    type V = VerdictView;

    open spec fn view(&self) -> VerdictView {
        match self {
            Verdict::Permit => VerdictView::Permit,
            Verdict::NotApplicable => VerdictView::NotApplicable,
            Verdict::Deny { reason } => VerdictView::Deny { reason: reason@ },
        }
    }
}

/// The recognizing systems other than the selected one, in order.
pub open spec fn others_of(names: Seq<Seq<char>>, policy: Seq<char>) -> Seq<Seq<char>>
    decreases names.len(),
{
    if names.len() == 0 {
        Seq::empty()
    } else {
        let rest = others_of(names.drop_last(), policy);
        if names.last() != policy {
            rest.push(names.last())
        } else {
            rest
        }
    }
}

/// The names joined by `/`.
pub open spec fn join_slash(names: Seq<Seq<char>>) -> Seq<char>
    decreases names.len(),
{
    if names.len() == 0 {
        Seq::empty()
    } else if names.len() == 1 {
        names[0]
    } else {
        join_slash(names.drop_last()) + "/"@ + names.last()
    }
}

/// The strings' characters.
pub open spec fn chars_of(v: Seq<String>) -> Seq<Seq<char>> {
    v.map_values(|s: String| s@)
}

/// The operand's truth table.
pub open spec fn ceiling_verdict(
    ceiling_name: Seq<char>,
    action: Seq<u8>,
    label_is_string: bool,
    reading: SystemReading,
) -> VerdictView {
    if control_plane(action) {
        VerdictView::NotApplicable
    } else if !label_is_string {
        VerdictView::Deny { reason: "ceiling: classification attribute is not a string"@ }
    } else {
        match reading.level {
            None => {
                let others = others_of(chars_of(reading.recognizing@), reading.policy_name@);
                if others.len() == 0 {
                    VerdictView::Deny { reason: "ceiling: unrecognized classification marking"@ }
                } else {
                    VerdictView::Deny {
                        reason: "ceiling: marking is a level of the "@ + join_slash(others)
                            + " system, not "@ + reading.policy_name@,
                    }
                }
            },
            Some(level) => match reading.ceiling_dominates {
                Some(true) => VerdictView::NotApplicable,
                Some(false) => VerdictView::Deny {
                    reason: "ceiling: content marked "@ + level.name@
                        + " exceeds the declared ceiling "@ + ceiling_name,
                },
                None => VerdictView::Deny {
                    reason: "ceiling: the declared ceiling is not a level of the "@
                        + reading.policy_name@ + " system"@,
                },
            },
        }
    }
}

/// `/`-joined names of the recognizing systems other than the selected one,
/// and how many there are.
fn other_systems(recognizing: &Vec<String>, policy: &String) -> (r: (String, usize))
    ensures
        r.1 == others_of(chars_of(recognizing@), policy@).len(),
        r.0@ == join_slash(others_of(chars_of(recognizing@), policy@)),
{
    let ghost names = chars_of(recognizing@);
    let mut out = String::new();
    let mut n: usize = 0;
    let mut i: usize = 0;
    while i < recognizing.len()
        invariant
            names == chars_of(recognizing@),
            0 <= i <= recognizing@.len(),
            n == others_of(names.take(i as int), policy@).len(),
            n <= i,
            out@ == join_slash(others_of(names.take(i as int), policy@)),
        decreases recognizing@.len() - i,
    {
        proof {
            assert(names.take(i + 1).drop_last() =~= names.take(i as int));
            assert(names.take(i + 1).last() == recognizing@[i as int]@);
        }
        if recognizing[i] != *policy {
            let ghost prev = others_of(names.take(i as int), policy@);
            if n > 0 {
                out.append("/");
            }
            out.append(recognizing[i].as_str());
            n = n + 1;
            proof {
                let next = others_of(names.take(i + 1), policy@);
                assert(next == prev.push(recognizing@[i as int]@));
                assert(next.drop_last() =~= prev);
                if prev.len() == 0 {
                    assert(next.len() == 1);
                    assert(out@ =~= next[0]);
                } else {
                    assert(out@ =~= join_slash(prev) + "/"@ + next.last());
                }
            }
        }
        i = i + 1;
    }
    assert(names.take(i as int) =~= names);
    (out, n)
}

/// The pure decision: abstain on control plane; refuse a label that is not a
/// string; refuse a marking the selected system does not rank, naming the
/// other compiled-in systems that do; refuse content above the ceiling,
/// naming both levels; refuse when the ceiling is not a level of the
/// selected system; otherwise abstain.
pub fn decide_ceiling(ceiling_name: &str, action: &str, label: Label<'_>, reading: &SystemReading) -> (v:
    Verdict)
    ensures
        v@ == ceiling_verdict(ceiling_name@, bytes_of(action@), !(label is NotAString), *reading),
        !(v is Permit),
{
    if is_control_plane(action) {
        return Verdict::NotApplicable;
    }
    if let Label::NotAString = label {
        return Verdict::Deny {
            reason: String::from_str("ceiling: classification attribute is not a string"),
        };
    }
    match &reading.level {
        None => {
            let (joined, n) = other_systems(&reading.recognizing, &reading.policy_name);
            if n == 0 {
                Verdict::Deny { reason: String::from_str("ceiling: unrecognized classification marking") }
            } else {
                let mut reason = String::from_str("ceiling: marking is a level of the ");
                reason.append(joined.as_str());
                reason.append(" system, not ");
                reason.append(reading.policy_name.as_str());
                Verdict::Deny { reason }
            }
        },
        Some(level) => match reading.ceiling_dominates {
            Some(true) => Verdict::NotApplicable,
            Some(false) => {
                let mut reason = String::from_str("ceiling: content marked ");
                reason.append(level.name.as_str());
                reason.append(" exceeds the declared ceiling ");
                reason.append(ceiling_name);
                Verdict::Deny { reason }
            },
            None => {
                let mut reason = String::from_str(
                    "ceiling: the declared ceiling is not a level of the ",
                );
                reason.append(reading.policy_name.as_str());
                reason.append(" system");
                Verdict::Deny { reason }
            },
        },
    }
}

/// The operand never permits, on any action, label or reading.
pub proof fn law_ceiling_never_permits(
    ceiling_name: Seq<char>,
    action: Seq<u8>,
    label_is_string: bool,
    reading: SystemReading,
)
    ensures
        !(ceiling_verdict(ceiling_name, action, label_is_string, reading) is Permit),
{
}

/// On a control-plane action the operand abstains, whatever the label and
/// whatever the ceiling.
pub proof fn law_control_plane_abstains(
    ceiling_name: Seq<char>,
    action: Seq<u8>,
    label_is_string: bool,
    reading: SystemReading,
)
    requires
        control_plane(action),
    ensures
        ceiling_verdict(ceiling_name, action, label_is_string, reading) is NotApplicable,
{
}

/// Content at or below the ceiling flows exactly when the ceiling dominates
/// its level; only the level and the dominance answer matter.
pub proof fn law_only_dominance_decides_ranked_content(
    ceiling_name: Seq<char>,
    action: Seq<u8>,
    reading: SystemReading,
)
    requires
        !control_plane(action),
        reading.level is Some,
    ensures
        (ceiling_verdict(ceiling_name, action, true, reading) is NotApplicable) <==> (
        reading.ceiling_dominates == Some(true)),
{
}

} // verus!
