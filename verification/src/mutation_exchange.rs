//! Validation of client-reported mutation progress; no authorization or I/O.
//!
//! An exchange is opened over an authorized scope. Each report from the
//! client is checked for shape, correlation and internal consistency and, if
//! it passes, reserved as a [`PendingReport`]. Progress advances only when the
//! caller acknowledges that pending report, after appending it durably to the
//! audit trail. No method attests that the reported effects happened.
use crate::paths::{
    absolute, bytes_eq, bytes_of, bytes_start_with, count_byte, count_bytes, contains_byte,
    find_bad_segment, has_byte, is_root, no_bad_segment, starts_with, str_bytes, NUL, SLASH,
};
use std::sync::Arc;
use vstd::prelude::*;

verus! {

/// Most effects one batch report may carry.
pub const MAX_MUTATION_BATCH: usize = 32;

/// Most effects one exchange may ever acknowledge.
pub const MAX_MUTATION_EFFECTS: u32 = 4096;

/// Deepest a reported path may lie beneath a recursive-delete root, and the
/// longest chain of directories one mkdir may create.
pub const MAX_MUTATION_DEPTH: u16 = 128;

/// Longest path, in bytes, a mutation may name.
pub const MAX_MUTATION_PATH_BYTES: usize = 4096;

/// Why a report (or the exchange itself) was refused.
#[derive(Debug, Clone, Copy, PartialEq, Eq, Structural)]
pub enum ReportError {
    WrongId,
    WrongIndex,
    OutOfScope,
    WrongEffect,
    Limit,
    Terminal,
    MalformedPath,
    Outstanding,
    ForeignPending,
    /// Duplicate effects, impossible effect ordering, or an unsupported success claim.
    InconsistentClaim,
}

/// Correlates reports with the intent record that authorized the mutation.
#[derive(Debug, Clone, Copy, PartialEq, Eq, Structural)]
pub struct MutationId {
    pub session_id: u64,
    pub intent_seq: u64,
}

/// The effect a client reports for one path.
#[derive(Debug, Clone, Copy, PartialEq, Eq, Structural)]
pub enum ReportedEffect {
    CreatedFile,
    ReplacedFile,
    CreatedDirectory,
    DeletedEntry,
}

/// How a client says the mutation ended.
#[derive(Debug, Clone, Copy, PartialEq, Eq, Structural)]
pub enum ReportedFinish {
    Success,
    OsRefused,
    Partial,
    LimitReached,
    PathChanged,
    UnsupportedName,
    DurabilityUnknown,
}

/// The bounds one exchange runs under.
#[derive(Debug, Clone, Copy, PartialEq, Eq, Structural)]
pub struct MutationLimits {
    pub max_effects: u32,
    pub max_depth: u16,
    pub deadline_ms: u64,
}

/// What a mutation was authorized to touch.
#[derive(Debug, Clone)]
pub enum MutationScope {
    /// Exactly one path, with exactly one kind of effect.
    Exact { path: String, effect: ReportedEffect },
    /// A tree removed from the bottom up, its root last.
    RecursiveDelete { root: String },
    /// A chain of directories, each the child of the one before.
    Directories { paths: Vec<String> },
}

/// One reported effect.
#[derive(Debug, Clone)]
pub struct EffectEntry {
    pub path: String,
    pub effect: ReportedEffect,
}

/// A client's progress report.
#[derive(Debug, Clone)]
pub enum MutationReport {
    Batch { id: MutationId, first_index: u32, effects: Vec<EffectEntry> },
    Finished {
        id: MutationId,
        next_index: u32,
        outcome: ReportedFinish,
        stopped_at: Option<String>,
    },
}

/// The acknowledgment sent back once a report is durable.
#[derive(Debug, Clone, Copy, PartialEq, Eq, Structural)]
pub struct MutationAck {
    pub id: MutationId,
    pub next_index: u32,
}

/// Opaque, single-use transition, bound to the exchange that validated it
/// even when another connection reuses the same correlation id.
#[derive(Debug)]
pub struct PendingReport {
    owner: Arc<()>,
    next_index: u32,
    terminal: bool,
    paths: Vec<String>,
}

/// The checked state of one mutation's report exchange.
#[derive(Debug)]
pub struct MutationExchange {
    id: MutationId,
    scope: MutationScope,
    limits: MutationLimits,
    owner: Arc<()>,
    next_index: u32,
    outstanding: bool,
    terminal: bool,
    seen: Vec<String>,
}

/// The abstract state of an exchange.
pub struct ExchangeView {
    pub id: MutationId,
    pub scope: MutationScope,
    pub limits: MutationLimits,
    pub next_index: u32,
    pub outstanding: bool,
    pub terminal: bool,
    /// The paths of every acknowledged effect, as bytes.
    pub seen: Seq<Seq<u8>>,
}

/// The abstract content of a pending report.
pub struct PendingView {
    pub next_index: u32,
    pub terminal: bool,
    pub paths: Seq<Seq<u8>>,
}

/// The bytes of each string.
pub open spec fn all_bytes(v: Seq<String>) -> Seq<Seq<u8>> {
    v.map_values(|s: String| bytes_of(s@))
}

impl View for MutationExchange {
    type V = ExchangeView;

    closed spec fn view(&self) -> ExchangeView {
        ExchangeView {
            id: self.id,
            scope: self.scope,
            limits: self.limits,
            next_index: self.next_index,
            outstanding: self.outstanding,
            terminal: self.terminal,
            seen: all_bytes(self.seen@),
        }
    }
}

impl View for PendingReport {
    type V = PendingView;

    closed spec fn view(&self) -> PendingView {
        PendingView {
            next_index: self.next_index,
            terminal: self.terminal,
            paths: all_bytes(self.paths@),
        }
    }
}

/// Limits an exchange may be opened with.
pub open spec fn limits_ok(l: MutationLimits) -> bool {
    &&& l.max_effects != 0
    &&& l.max_effects <= MAX_MUTATION_EFFECTS
    &&& l.max_depth <= MAX_MUTATION_DEPTH
    &&& l.deadline_ms != 0
}

/// The refusal of a path's spelling, checked before any splitting so that
/// no duplicate slash or dot segment is silently normalized away.
pub open spec fn path_error(p: Seq<u8>) -> Option<ReportError> {
    if p.len() > MAX_MUTATION_PATH_BYTES {
        Some(ReportError::Limit)
    } else if !absolute(p) || has_byte(p, NUL) {
        Some(ReportError::MalformedPath)
    } else if is_root(p) {
        None
    } else if !no_bad_segment(p) {
        Some(ReportError::MalformedPath)
    } else {
        None
    }
}

/// The first refusal among the spellings of `ps`, in order.
pub open spec fn first_path_error(ps: Seq<Seq<u8>>) -> Option<ReportError>
    decreases ps.len(),
{
    if ps.len() == 0 {
        None
    } else if path_error(ps[0]) is Some {
        path_error(ps[0])
    } else {
        first_path_error(ps.drop_first())
    }
}

/// `child` lies directly beneath `parent`: one more segment.
pub open spec fn child_link(parent: Seq<u8>, child: Seq<u8>) -> bool {
    if is_root(parent) {
        child.len() > 1 && !has_byte(child.subrange(1, child.len() as int), SLASH)
    } else {
        &&& starts_with(child, parent)
        &&& child.len() > parent.len() + 1
        &&& child[parent.len() as int] == SLASH
        &&& !has_byte(child.subrange(parent.len() as int + 1, child.len() as int), SLASH)
    }
}

/// Why an exchange cannot be opened over `scope` with `limits`, if at all.
pub open spec fn begin_error(scope: MutationScope, limits: MutationLimits) -> Option<ReportError> {
    if !limits_ok(limits) {
        Some(ReportError::Limit)
    } else {
        match scope {
            MutationScope::Exact { path, .. } => path_error(bytes_of(path@)),
            MutationScope::RecursiveDelete { root } => path_error(bytes_of(root@)),
            MutationScope::Directories { paths } => {
                let ps = all_bytes(paths@);
                if ps.len() == 0 {
                    Some(ReportError::OutOfScope)
                } else if ps.len() > limits.max_depth {
                    Some(ReportError::Limit)
                } else if first_path_error(ps) is Some {
                    first_path_error(ps)
                } else if !(forall|k: int|
                    0 <= k < ps.len() - 1 ==> #[trigger] child_link(ps[k], ps[k + 1])) {
                    Some(ReportError::OutOfScope)
                } else {
                    None
                }
            },
        }
    }
}

/// How many segments a relative path has.
pub open spec fn depth(s: Seq<u8>) -> nat {
    if s.len() == 0 {
        0
    } else {
        count_byte(s, SLASH) + 1
    }
}

/// Whether `p` is one of `ps`.
pub open spec fn has_path(ps: Seq<Seq<u8>>, p: Seq<u8>) -> bool {
    exists|k: int| 0 <= k < ps.len() && ps[k] == p
}

/// Why a reported path is refused under `scope`: its spelling first, then
/// membership in the scope, and beneath a recursive-delete root its depth.
pub open spec fn scope_error(scope: MutationScope, max_depth: u16, p: Seq<u8>) -> Option<ReportError> {
    if path_error(p) is Some {
        path_error(p)
    } else {
        match scope {
            MutationScope::Exact { path, .. } => if p == bytes_of(path@) {
                None
            } else {
                Some(ReportError::OutOfScope)
            },
            MutationScope::RecursiveDelete { root } => {
                let r = bytes_of(root@);
                if p == r {
                    None
                } else if is_root(r) {
                    if depth(p.subrange(1, p.len() as int)) > max_depth {
                        Some(ReportError::Limit)
                    } else {
                        None
                    }
                } else if starts_with(p, r) && p.len() > r.len() && p[r.len() as int] == SLASH {
                    if depth(p.subrange(r.len() as int + 1, p.len() as int)) > max_depth {
                        Some(ReportError::Limit)
                    } else {
                        None
                    }
                } else {
                    Some(ReportError::OutOfScope)
                }
            },
            MutationScope::Directories { paths } => if has_path(all_bytes(paths@), p) {
                None
            } else {
                Some(ReportError::OutOfScope)
            },
        }
    }
}

/// The only effect a scope admits.
pub open spec fn expected_effect(scope: MutationScope) -> ReportedEffect {
    match scope {
        MutationScope::Exact { effect, .. } => effect,
        MutationScope::RecursiveDelete { .. } => ReportedEffect::DeletedEntry,
        MutationScope::Directories { .. } => ReportedEffect::CreatedDirectory,
    }
}

/// Why one batch entry is refused: its path, then its effect.
pub open spec fn entry_error(v: ExchangeView, e: EffectEntry) -> Option<ReportError> {
    if scope_error(v.scope, v.limits.max_depth, bytes_of(e.path@)) is Some {
        scope_error(v.scope, v.limits.max_depth, bytes_of(e.path@))
    } else if e.effect != expected_effect(v.scope) {
        Some(ReportError::WrongEffect)
    } else {
        None
    }
}

/// The first refused entry's error, in order.
pub open spec fn first_entry_error(v: ExchangeView, es: Seq<EffectEntry>) -> Option<ReportError>
    decreases es.len(),
{
    if es.len() == 0 {
        None
    } else if entry_error(v, es[0]) is Some {
        entry_error(v, es[0])
    } else {
        first_entry_error(v, es.drop_first())
    }
}

/// The paths of a batch's entries, as bytes.
pub open spec fn entry_paths(es: Seq<EffectEntry>) -> Seq<Seq<u8>> {
    es.map_values(|e: EffectEntry| bytes_of(e.path@))
}

/// A batch claims the recursive-delete root out of order: after it was
/// already removed, or before the last entry of the batch.
pub open spec fn root_claimed_early(v: ExchangeView, ps: Seq<Seq<u8>>) -> bool {
    match v.scope {
        MutationScope::RecursiveDelete { root } => {
            let r = bytes_of(root@);
            has_path(v.seen, r) || has_path(ps.take(ps.len() - 1), r)
        },
        _ => false,
    }
}

/// A batch repeats a path: one already acknowledged, or one earlier in itself.
pub open spec fn repeats_path(seen: Seq<Seq<u8>>, ps: Seq<Seq<u8>>) -> bool {
    exists|k: int| 0 <= k < ps.len() && (has_path(seen, #[trigger] ps[k]) || has_path(ps.take(k), ps[k]))
}

/// The outcome of validating a batch at the expected index.
pub open spec fn batch_result(v: ExchangeView, es: Seq<EffectEntry>) -> Result<PendingView, ReportError> {
    let next = v.next_index + es.len();
    if es.len() == 0 || es.len() > MAX_MUTATION_BATCH {
        Err(ReportError::Limit)
    } else if next > u32::MAX || next > v.limits.max_effects {
        Err(ReportError::Limit)
    } else if first_entry_error(v, es) is Some {
        Err(first_entry_error(v, es).unwrap())
    } else if root_claimed_early(v, entry_paths(es)) {
        Err(ReportError::InconsistentClaim)
    } else if repeats_path(v.seen, entry_paths(es)) {
        Err(ReportError::InconsistentClaim)
    } else {
        Ok(
            PendingView {
                next_index: next as u32,
                terminal: false,
                paths: entry_paths(es),
            },
        )
    }
}

/// A success claim the acknowledged history supports: an exact scope's one
/// effect, a recursive delete's root, and any directory chain.
pub open spec fn success_supported(v: ExchangeView) -> bool {
    match v.scope {
        MutationScope::Exact { .. } => v.next_index == 1,
        MutationScope::RecursiveDelete { root } => has_path(v.seen, bytes_of(root@)),
        MutationScope::Directories { .. } => true,
    }
}

/// The outcome of validating a finish report at the expected index.
pub open spec fn finish_result(
    v: ExchangeView,
    stopped_at: Option<String>,
    outcome: ReportedFinish,
) -> Result<PendingView, ReportError> {
    match stopped_at {
        Some(p) if scope_error(v.scope, v.limits.max_depth, bytes_of(p@)) is Some => Err(
            scope_error(v.scope, v.limits.max_depth, bytes_of(p@)).unwrap(),
        ),
        _ => if outcome == ReportedFinish::Success && !success_supported(v) {
            Err(ReportError::InconsistentClaim)
        } else {
            Ok(
                PendingView {
                        next_index: v.next_index,
                    terminal: true,
                    paths: Seq::empty(),
                },
            )
        },
    }
}

/// The correlation id a report carries.
pub open spec fn report_id(r: MutationReport) -> MutationId {
    match r {
        MutationReport::Batch { id, .. } => id,
        MutationReport::Finished { id, .. } => id,
    }
}

/// The index a report claims to continue from.
pub open spec fn report_index(r: MutationReport) -> u32 {
    match r {
        MutationReport::Batch { first_index, .. } => first_index,
        MutationReport::Finished { next_index, .. } => next_index,
    }
}

/// The outcome of validating report `r` against exchange state `v`.
pub open spec fn validate(v: ExchangeView, r: MutationReport) -> Result<PendingView, ReportError> {
    if v.terminal {
        Err(ReportError::Terminal)
    } else if v.outstanding {
        Err(ReportError::Outstanding)
    } else if report_id(r) != v.id {
        Err(ReportError::WrongId)
    } else if report_index(r) != v.next_index {
        Err(ReportError::WrongIndex)
    } else {
        match r {
            MutationReport::Batch { effects, .. } => batch_result(v, effects@),
            MutationReport::Finished { stopped_at, outcome, .. } => finish_result(
                v,
                stopped_at,
                outcome,
            ),
        }
    }
}

/// The exchange state once a pending report is acknowledged.
pub open spec fn acknowledged(v: ExchangeView, p: PendingView) -> ExchangeView {
    ExchangeView {
        seen: v.seen + p.paths,
        next_index: p.next_index,
        terminal: p.terminal,
        outstanding: false,
        ..v
    }
}

/// The exchange state while a validated report awaits acknowledgment.
pub open spec fn reserved(v: ExchangeView) -> ExchangeView {
    ExchangeView { outstanding: true, ..v }
}

/// The state an exchange opens in.
pub open spec fn opened(id: MutationId, scope: MutationScope, limits: MutationLimits) -> ExchangeView {
    ExchangeView {
        id,
        scope,
        limits,
        next_index: 0,
        outstanding: false,
        terminal: false,
        seen: Seq::empty(),
    }
}

/// A terminal exchange refuses every report.
pub proof fn law_terminal_refuses_every_report(v: ExchangeView, r: MutationReport)
    requires
        v.terminal,
    ensures
        validate(v, r) == Err::<PendingView, ReportError>(ReportError::Terminal),
{
}

/// While a validated report awaits acknowledgment, every further report is
/// refused as outstanding.
pub proof fn law_outstanding_blocks_every_report(v: ExchangeView, r: MutationReport)
    requires
        !v.terminal,
    ensures
        validate(reserved(v), r) == Err::<PendingView, ReportError>(ReportError::Outstanding),
{
}

/// Reserving a report advances nothing: index, history and terminal state
/// move only when the report is acknowledged.
pub proof fn law_reservation_advances_nothing(v: ExchangeView)
    ensures
        reserved(v).next_index == v.next_index,
        reserved(v).seen == v.seen,
        reserved(v).terminal == v.terminal,
{
}

/// No entry of a batch is refused when the first refusal is none.
pub proof fn lemma_no_first_entry_error(v: ExchangeView, es: Seq<EffectEntry>)
    requires
        first_entry_error(v, es) is None,
    ensures
        forall|k: int| 0 <= k < es.len() ==> entry_error(v, #[trigger] es[k]) is None,
    decreases es.len(),
{
    if es.len() > 0 {
        lemma_no_first_entry_error(v, es.drop_first());
        assert forall|k: int| 0 <= k < es.len() implies entry_error(v, #[trigger] es[k]) is None by {
            if k > 0 {
                assert(es[k] == es.drop_first()[k - 1]);
            }
        }
    }
}

/// An accepted batch reports between one and the batch bound of effects, each
/// within scope with the scope's one effect, none repeating an acknowledged
/// path or an earlier one of the batch, and advances the index by exactly
/// their number without passing the exchange's effect bound.
pub proof fn law_accepted_batch_is_in_scope_and_fresh(v: ExchangeView, r: MutationReport, p: PendingView)
    requires
        r is Batch,
        validate(v, r) == Ok::<PendingView, ReportError>(p),
    ensures
        1 <= p.paths.len() <= MAX_MUTATION_BATCH,
        p.next_index == v.next_index + p.paths.len(),
        p.next_index <= v.limits.max_effects,
        !p.terminal,
        forall|k: int|
            0 <= k < p.paths.len() ==> scope_error(v.scope, v.limits.max_depth, #[trigger] p.paths[k])
                is None,
        forall|k: int|
            0 <= k < p.paths.len() ==> !has_path(v.seen, #[trigger] p.paths[k]) && !has_path(
                p.paths.take(k),
                p.paths[k],
            ),
{
    match r {
        MutationReport::Batch { effects, .. } => {
            let es = effects@;
            lemma_no_first_entry_error(v, es);
            assert forall|k: int| 0 <= k < p.paths.len() implies scope_error(
                v.scope,
                v.limits.max_depth,
                #[trigger] p.paths[k],
            ) is None by {
                assert(entry_error(v, es[k]) is None);
            }
        },
        _ => {},
    }
}

/// Under an exact scope an accepted batch is exactly the scope's one path.
pub proof fn law_exact_scope_accepts_its_one_path_once(v: ExchangeView, r: MutationReport, p: PendingView)
    requires
        v.scope is Exact,
        r is Batch,
        validate(v, r) == Ok::<PendingView, ReportError>(p),
    ensures
        p.paths == seq![bytes_of(v.scope->Exact_path@)],
        !has_path(v.seen, bytes_of(v.scope->Exact_path@)),
{
    law_accepted_batch_is_in_scope_and_fresh(v, r, p);
    let e = bytes_of(v.scope->Exact_path@);
    assert(scope_error(v.scope, v.limits.max_depth, p.paths[0]) is None);
    assert(p.paths[0] == e);
    if p.paths.len() > 1 {
        assert(scope_error(v.scope, v.limits.max_depth, p.paths[1]) is None);
        assert(p.paths.take(1)[0] == p.paths[1]);
        assert(has_path(p.paths.take(1), p.paths[1]));
        assert(false);
    }
    assert(p.paths =~= seq![e]);
}

/// Once a recursive delete's root is acknowledged as removed, no further
/// batch is accepted.
pub proof fn law_no_batch_after_root_removal(v: ExchangeView, r: MutationReport)
    requires
        v.scope is RecursiveDelete,
        has_path(v.seen, bytes_of(v.scope->root@)),
        r is Batch,
    ensures
        validate(v, r) is Err,
{
}

/// A batch that names the recursive-delete root anywhere but last is refused.
pub proof fn law_root_is_the_last_effect(v: ExchangeView, r: MutationReport, p: PendingView)
    requires
        v.scope is RecursiveDelete,
        r is Batch,
        validate(v, r) == Ok::<PendingView, ReportError>(p),
    ensures
        forall|k: int|
            0 <= k < p.paths.len() - 1 ==> #[trigger] p.paths[k] != bytes_of(v.scope->root@),
{
    assert forall|k: int| 0 <= k < p.paths.len() - 1 implies #[trigger] p.paths[k] != bytes_of(
        v.scope->root@,
    ) by {
        if p.paths[k] == bytes_of(v.scope->root@) {
            assert(p.paths.take(p.paths.len() - 1)[k] == p.paths[k]);
        }
    }
}

/// An accepted success claim is one the acknowledged history supports.
pub proof fn law_success_claims_are_supported(v: ExchangeView, r: MutationReport, p: PendingView)
    requires
        r matches MutationReport::Finished { outcome, .. } && outcome == ReportedFinish::Success,
        validate(v, r) == Ok::<PendingView, ReportError>(p),
    ensures
        success_supported(v),
        p.terminal,
        p.next_index == v.next_index,
        p.paths.len() == 0,
{
}

/// Acknowledging a report makes exactly its paths history and its index the
/// exchange's, and releases the reservation.
pub proof fn law_acknowledgment_commits_the_pending_report(v: ExchangeView, p: PendingView)
    ensures
        acknowledged(v, p).seen == v.seen + p.paths,
        acknowledged(v, p).next_index == p.next_index,
        acknowledged(v, p).terminal == p.terminal,
        !acknowledged(v, p).outstanding,
        acknowledged(v, p).id == v.id,
{
}

/// No path occurs twice.
pub open spec fn distinct_paths(ps: Seq<Seq<u8>>) -> bool {
    forall|i: int, j: int| 0 <= i < j < ps.len() ==> ps[i] != ps[j]
}

/// The acknowledged history never names a path twice: an exchange opens with
/// none, and acknowledging an accepted report keeps every path distinct.
pub proof fn law_history_never_repeats(v: ExchangeView, r: MutationReport, p: PendingView)
    requires
        distinct_paths(v.seen),
        validate(v, r) == Ok::<PendingView, ReportError>(p),
    ensures
        distinct_paths(acknowledged(reserved(v), p).seen),
{
    let all = v.seen + p.paths;
    assert(acknowledged(reserved(v), p).seen == all);
    if r is Batch {
        law_accepted_batch_is_in_scope_and_fresh(v, r, p);
        assert forall|i: int, j: int| 0 <= i < j < all.len() implies all[i] != all[j] by {
            if j >= v.seen.len() {
                let k = j - v.seen.len();
                assert(all[j] == p.paths[k]);
                if i < v.seen.len() {
                    if all[i] == all[j] {
                        assert(has_path(v.seen, p.paths[k]));
                    }
                } else {
                    let h = i - v.seen.len();
                    if all[i] == all[j] {
                        assert(p.paths.take(k)[h] == p.paths[k]);
                        assert(has_path(p.paths.take(k), p.paths[k]));
                    }
                }
            }
        }
    } else {
        assert(p.paths.len() == 0);
        assert(all =~= v.seen);
    }
}

/// Validating a report and then acknowledging it moves the exchange exactly
/// once: a batch advances the index by its number of effects and no later
/// accepted batch claims any acknowledged path again; a finish keeps the
/// index and ends the exchange, after which every report is refused as
/// terminal.
pub proof fn law_validate_then_acknowledge(v: ExchangeView, r: MutationReport, p: PendingView, later: MutationReport, q: PendingView)
    requires
        validate(v, r) == Ok::<PendingView, ReportError>(p),
    ensures
        r matches MutationReport::Batch { effects, .. } ==> acknowledged(reserved(v), p).next_index
            == v.next_index + effects@.len() && !acknowledged(reserved(v), p).terminal,
        r is Finished ==> acknowledged(reserved(v), p).next_index == v.next_index
            && validate(acknowledged(reserved(v), p), later) == Err::<PendingView, ReportError>(
            ReportError::Terminal,
        ),
        later is Batch && validate(acknowledged(reserved(v), p), later) == Ok::<PendingView, ReportError>(q)
            ==> forall|k: int|
            0 <= k < q.paths.len() ==> !has_path(acknowledged(reserved(v), p).seen, #[trigger] q.paths[k]),
{
    let w = acknowledged(reserved(v), p);
    if r is Batch {
        law_accepted_batch_is_in_scope_and_fresh(v, r, p);
        match r {
            MutationReport::Batch { effects, .. } => {
                assert(p.paths == entry_paths(effects@));
            },
            _ => {},
        }
    }
    if later is Batch && validate(w, later) == Ok::<PendingView, ReportError>(q) {
        law_accepted_batch_is_in_scope_and_fresh(w, later, q);
    }
}

/// An exchange opens with no acknowledged path.
pub proof fn law_opened_history_is_empty(id: MutationId, scope: MutationScope, limits: MutationLimits)
    ensures
        opened(id, scope, limits).seen.len() == 0,
        distinct_paths(opened(id, scope, limits).seen),
{
}

/// Calls `std::sync::Arc::clone` on the exchange's owner token, so that a
/// pending report can carry the token of the exchange that validated it.
/// Nothing is claimed of the result.
#[verifier::external_body]
fn share_owner(owner: &Arc<()>) -> Arc<()> {
    Arc::clone(owner)
}

/// Calls `std::sync::Arc::ptr_eq`: whether two owner tokens are one
/// allocation, as a token and its clones are. Nothing is claimed of the
/// result: proofs have no name for an allocation, so which exchange a pending
/// report belongs to is left to this call.
#[verifier::external_body]
fn same_owner(a: &Arc<()>, b: &Arc<()>) -> bool {
    Arc::ptr_eq(a, b)
}

/// Check a path's spelling.
pub fn canonical_path(path: &str) -> (r: Result<(), ReportError>)
    ensures
        r matches Err(e) ==> path_error(bytes_of(path@)) == Some(e),
        r is Ok ==> path_error(bytes_of(path@)) is None,
{
    let p = str_bytes(path);
    if p.len() > MAX_MUTATION_PATH_BYTES {
        return Err(ReportError::Limit);
    }
    if p.len() == 0 || p[0] != SLASH || contains_byte(p, NUL) {
        return Err(ReportError::MalformedPath);
    }
    if p.len() == 1 {
        assert(is_root(p@));
        return Ok(());
    }
    assert(!is_root(p@));
    match find_bad_segment(p) {
        Some(_) => Err(ReportError::MalformedPath),
        None => Ok(()),
    }
}

/// Whether a path occurs among `paths`, compared byte for byte.
fn contains_path(paths: &Vec<String>, p: &[u8]) -> (r: bool)
    ensures
        r == has_path(all_bytes(paths@), p@),
{
    let mut k: usize = 0;
    while k < paths.len()
        invariant
            0 <= k <= paths@.len(),
            forall|j: int| 0 <= j < k ==> all_bytes(paths@)[j] != p@,
        decreases paths@.len() - k,
    {
        if bytes_eq(str_bytes(paths[k].as_str()), p) {
            assert(all_bytes(paths@)[k as int] == p@);
            return true;
        }
        k = k + 1;
    }
    false
}

/// Whether a path occurs among the first `n` entries of a batch.
fn entries_contain_path(effects: &Vec<EffectEntry>, n: usize, p: &[u8]) -> (r: bool)
    requires
        n <= effects@.len(),
    ensures
        r == has_path(entry_paths(effects@).take(n as int), p@),
{
    let mut k: usize = 0;
    while k < n
        invariant
            n <= effects@.len(),
            0 <= k <= n,
            forall|j: int| 0 <= j < k ==> entry_paths(effects@)[j] != p@,
        decreases n - k,
    {
        if bytes_eq(str_bytes(effects[k].path.as_str()), p) {
            assert(entry_paths(effects@).take(n as int)[k as int] == p@);
            return true;
        }
        k = k + 1;
    }
    false
}

impl MutationExchange {
    /// Open an exchange over an authorized scope.
    pub fn begin(id: MutationId, scope: MutationScope, limits: MutationLimits) -> (r: Result<
        Self,
        ReportError,
    >)
        ensures
            r matches Err(e) ==> begin_error(scope, limits) == Some(e),
            r matches Ok(x) ==> begin_error(scope, limits) is None && x@ == opened(id, scope, limits),
    {
        if limits.max_effects == 0 || limits.max_effects > MAX_MUTATION_EFFECTS || limits.max_depth
            > MAX_MUTATION_DEPTH || limits.deadline_ms == 0 {
            return Err(ReportError::Limit);
        }
        match &scope {
            MutationScope::Exact { path, .. } => {
                canonical_path(path.as_str())?;
            },
            MutationScope::RecursiveDelete { root } => {
                canonical_path(root.as_str())?;
            },
            MutationScope::Directories { paths } => {
                Self::check_chain(paths, limits)?;
            },
        }
        let seen: Vec<String> = Vec::new();
        proof {
            assert(all_bytes(seen@) =~= Seq::<Seq<u8>>::empty());
        }
        Ok(MutationExchange {
            id,
            scope,
            limits,
            owner: Arc::new(()),
            next_index: 0,
            outstanding: false,
            terminal: false,
            seen,
        })
    }

    /// Check a directory chain: non-empty, within the depth bound, each path
    /// canonical, each the direct child of the one before.
    fn check_chain(paths: &Vec<String>, limits: MutationLimits) -> (r: Result<(), ReportError>)
        requires
            limits_ok(limits),
        ensures
            r matches Err(e) ==> begin_error(MutationScope::Directories { paths: *paths }, limits)
                == Some(e),
            r is Ok ==> begin_error(MutationScope::Directories { paths: *paths }, limits) is None,
    {
        let ghost ps = all_bytes(paths@);
        if paths.len() == 0 {
            return Err(ReportError::OutOfScope);
        }
        if paths.len() > limits.max_depth as usize {
            return Err(ReportError::Limit);
        }
        let mut i: usize = 0;
        assert(ps.skip(0) =~= ps);
        while i < paths.len()
            invariant
                ps == all_bytes(paths@),
                limits_ok(limits),
                0 < ps.len() <= limits.max_depth,
                0 <= i <= paths@.len(),
                first_path_error(ps) == first_path_error(ps.skip(i as int)),
            decreases paths@.len() - i,
        {
            proof {
                assert(ps.skip(i as int).drop_first() =~= ps.skip(i + 1));
                assert(ps.skip(i as int)[0] == ps[i as int]);
                assert(ps[i as int] == bytes_of(paths@[i as int]@));
            }
            canonical_path(paths[i].as_str())?;
            i = i + 1;
        }
        assert(ps.skip(i as int) =~= Seq::<Seq<u8>>::empty());
        let mut k: usize = 0;
        while k < paths.len() - 1
            invariant
                ps == all_bytes(paths@),
                limits_ok(limits),
                0 < ps.len() <= limits.max_depth,
                0 <= k < paths@.len(),
                first_path_error(ps) is None,
                forall|j: int| 0 <= j < k ==> #[trigger] child_link(ps[j], ps[j + 1]),
            decreases paths@.len() - k,
        {
            assert(ps[k as int] == bytes_of(paths@[k as int]@));
            assert(ps[k + 1] == bytes_of(paths@[k + 1]@));
            if !Self::is_child(paths[k].as_str(), paths[k + 1].as_str()) {
                assert(!child_link(ps[k as int], ps[k + 1]));
                return Err(ReportError::OutOfScope);
            }
            k = k + 1;
        }
        Ok(())
    }

    /// Whether `child` lies directly beneath `parent`.
    fn is_child(parent: &str, child: &str) -> (r: bool)
        ensures
            r == child_link(bytes_of(parent@), bytes_of(child@)),
    {
        let pa = str_bytes(parent);
        let ch = str_bytes(child);
        if pa.len() == 1 && pa[0] == SLASH {
            assert(is_root(pa@));
            if ch.len() <= 1 {
                return false;
            }
            let tail = slice_from(ch, 1);
            !contains_byte(tail, SLASH)
        } else {
            assert(!is_root(pa@));
            if !bytes_start_with(ch, pa) || ch.len() - pa.len() <= 1 || ch[pa.len()] != SLASH {
                return false;
            }
            let tail = slice_from(ch, pa.len() + 1);
            !contains_byte(tail, SLASH)
        }
    }

    /// Check a reported path against this exchange's scope.
    fn validate_path(&self, path: &str) -> (r: Result<(), ReportError>)
        ensures
            r matches Err(e) ==> scope_error(self@.scope, self@.limits.max_depth, bytes_of(path@))
                == Some(e),
            r is Ok ==> scope_error(self@.scope, self@.limits.max_depth, bytes_of(path@)) is None,
    {
        canonical_path(path)?;
        let p = str_bytes(path);
        match &self.scope {
            MutationScope::Exact { path: expected, .. } => {
                if !bytes_eq(p, str_bytes(expected.as_str())) {
                    return Err(ReportError::OutOfScope);
                }
            },
            MutationScope::RecursiveDelete { root } => {
                let r = str_bytes(root.as_str());
                let suffix: &[u8] = if bytes_eq(p, r) {
                    slice_from(p, p.len())
                } else if r.len() == 1 && r[0] == SLASH {
                    assert(is_root(r@));
                    slice_from(p, 1)
                } else {
                    assert(!is_root(r@));
                    if !bytes_start_with(p, r) || p.len() <= r.len() || p[r.len()] != SLASH {
                        return Err(ReportError::OutOfScope);
                    }
                    slice_from(p, r.len() + 1)
                };
                let relative_depth: usize = if suffix.len() == 0 {
                    0
                } else {
                    count_bytes(suffix, SLASH) + 1
                };
                if relative_depth > self.limits.max_depth as usize {
                    return Err(ReportError::Limit);
                }
            },
            MutationScope::Directories { paths } => {
                if !contains_path(paths, p) {
                    return Err(ReportError::OutOfScope);
                }
            },
        }
        Ok(())
    }

    /// Reserve a transition without advancing acknowledged progress. A
    /// refused report leaves the exchange exactly as it was; an accepted one
    /// blocks every further report until it is acknowledged.
    pub fn validate_report(&mut self, report: &MutationReport) -> (r: Result<
        PendingReport,
        ReportError,
    >)
        ensures
            r matches Ok(p) ==> validate(old(self)@, *report) == Ok::<PendingView, ReportError>(p@)
                && final(self)@ == reserved(old(self)@),
            r matches Err(e) ==> validate(old(self)@, *report) == Err::<PendingView, ReportError>(e)
                && final(self)@ == old(self)@,
    {
        if self.terminal {
            return Err(ReportError::Terminal);
        }
        if self.outstanding {
            return Err(ReportError::Outstanding);
        }
        let (id, index) = match report {
            MutationReport::Batch { id, first_index, .. } => (*id, *first_index),
            MutationReport::Finished { id, next_index, .. } => (*id, *next_index),
        };
        if id != self.id {
            return Err(ReportError::WrongId);
        }
        if index != self.next_index {
            return Err(ReportError::WrongIndex);
        }
        let (next_index, terminal, paths) = match report {
            MutationReport::Batch { effects, .. } => {
                let paths = self.check_batch(effects)?;
                (self.next_index + effects.len() as u32, false, paths)
            },
            MutationReport::Finished { stopped_at, outcome, .. } => {
                self.check_finish(stopped_at, *outcome)?;
                let paths: Vec<String> = Vec::new();
                proof {
                    assert(all_bytes(paths@) =~= Seq::<Seq<u8>>::empty());
                }
                (self.next_index, true, paths)
            },
        };
        self.outstanding = true;
        Ok(PendingReport { owner: share_owner(&self.owner), next_index, terminal, paths })
    }

    /// The checks of a batch report at the expected index; on success the
    /// batch's paths.
    fn check_batch(&self, effects: &Vec<EffectEntry>) -> (r: Result<Vec<String>, ReportError>)
        requires
            !self@.terminal,
            !self@.outstanding,
        ensures
            r matches Err(e) ==> batch_result(self@, effects@) == Err::<PendingView, ReportError>(
                e,
            ),
            r matches Ok(ps) ==> batch_result(self@, effects@) == Ok::<PendingView, ReportError>(
                PendingView {
                    next_index: (self@.next_index + effects@.len()) as u32,
                    terminal: false,
                    paths: all_bytes(ps@),
                },
            ),
    {
        let ghost v = self@;
        let ghost es = effects@;
        if effects.len() == 0 || effects.len() > MAX_MUTATION_BATCH {
            return Err(ReportError::Limit);
        }
        let count = effects.len() as u32;
        if count > u32::MAX - self.next_index {
            return Err(ReportError::Limit);
        }
        let next = self.next_index + count;
        if next > self.limits.max_effects {
            return Err(ReportError::Limit);
        }
        let mut i: usize = 0;
        assert(es.skip(0) =~= es);
        while i < effects.len()
            invariant
                v == self@,
                es == effects@,
                1 <= es.len() <= MAX_MUTATION_BATCH,
                v.next_index + es.len() <= v.limits.max_effects,
                v.limits.max_effects <= u32::MAX,
                0 <= i <= es.len(),
                first_entry_error(v, es) == first_entry_error(v, es.skip(i as int)),
            decreases es.len() - i,
        {
            proof {
                assert(es.skip(i as int).drop_first() =~= es.skip(i + 1));
                assert(es.skip(i as int)[0] == es[i as int]);
            }
            let entry = &effects[i];
            assert(es[i as int] == *entry);
            match self.validate_path(entry.path.as_str()) {
                Ok(()) => {},
                Err(e) => {
                    assert(entry_error(v, es[i as int]) == Some(e));
                    return Err(e);
                },
            }
            let expected = match &self.scope {
                MutationScope::Exact { effect, .. } => *effect,
                MutationScope::RecursiveDelete { .. } => ReportedEffect::DeletedEntry,
                MutationScope::Directories { .. } => ReportedEffect::CreatedDirectory,
            };
            if entry.effect != expected {
                assert(entry_error(v, es[i as int]) == Some(ReportError::WrongEffect));
                return Err(ReportError::WrongEffect);
            }
            i = i + 1;
        }
        assert(es.skip(i as int) =~= Seq::<EffectEntry>::empty());
        let ghost ps = entry_paths(es);
        if let MutationScope::RecursiveDelete { root } = &self.scope {
            let r = str_bytes(root.as_str());
            if contains_path(&self.seen, r) {
                return Err(ReportError::InconsistentClaim);
            }
            if entries_contain_path(effects, effects.len() - 1, r) {
                return Err(ReportError::InconsistentClaim);
            }
        }
        assert(!root_claimed_early(v, ps));
        let mut paths: Vec<String> = Vec::new();
        let mut k: usize = 0;
        while k < effects.len()
            invariant
                v == self@,
                es == effects@,
                1 <= es.len() <= MAX_MUTATION_BATCH,
                v.next_index + es.len() <= v.limits.max_effects,
                v.limits.max_effects <= u32::MAX,
                first_entry_error(v, es) is None,
                !root_claimed_early(v, ps),
                ps == entry_paths(es),
                0 <= k <= es.len(),
                all_bytes(paths@) =~= ps.take(k as int),
                forall|j: int|
                    0 <= j < k ==> !(has_path(v.seen, #[trigger] ps[j]) || has_path(ps.take(j), ps[j])),
            decreases es.len() - k,
        {
            let p = str_bytes(effects[k].path.as_str());
            if contains_path(&self.seen, p) || entries_contain_path(effects, k, p) {
                assert(has_path(v.seen, ps[k as int]) || has_path(ps.take(k as int), ps[k as int]));
                return Err(ReportError::InconsistentClaim);
            }
            let ghost before = paths@;
            paths.push(effects[k].path.clone());
            proof {
                assert(paths@ =~= before.push(effects@[k as int].path));
                assert(ps[k as int] == bytes_of(effects@[k as int].path@));
                assert(all_bytes(paths@) =~= all_bytes(before).push(ps[k as int]));
                assert(ps.take(k + 1) =~= ps.take(k as int).push(ps[k as int]));
            }
            k = k + 1;
        }
        assert(ps.take(k as int) =~= ps);
        assert(!repeats_path(v.seen, ps));
        Ok(paths)
    }

    /// The checks of a finish report at the expected index.
    fn check_finish(&self, stopped_at: &Option<String>, outcome: ReportedFinish) -> (r: Result<
        (),
        ReportError,
    >)
        ensures
            r matches Err(e) ==> finish_result(self@, *stopped_at, outcome) == Err::<
                PendingView,
                ReportError,
            >(e),
            r is Ok ==> finish_result(self@, *stopped_at, outcome) == Ok::<PendingView, ReportError>(
                PendingView {
                    next_index: self@.next_index,
                    terminal: true,
                    paths: Seq::empty(),
                },
            ),
    {
        if let Some(path) = stopped_at {
            self.validate_path(path.as_str())?;
        }
        if outcome == ReportedFinish::Success {
            let consistent = match &self.scope {
                MutationScope::Exact { .. } => self.next_index == 1,
                MutationScope::RecursiveDelete { root } => contains_path(
                    &self.seen,
                    str_bytes(root.as_str()),
                ),
                MutationScope::Directories { .. } => true,
            };
            if !consistent {
                return Err(ReportError::InconsistentClaim);
            }
        }
        Ok(())
    }

    /// Commit a pending report; call only after the caller's durable audit
    /// append of that report succeeded. A report validated by another
    /// exchange is refused and changes nothing. Which exchange validated the
    /// report is told by comparing owner tokens with `Arc::ptr_eq`, of which
    /// nothing is claimed; so this contract states what each answer does, and
    /// not which answer the exchange's own report receives.
    pub fn acknowledge(&mut self, pending: PendingReport) -> (r: Result<MutationAck, ReportError>)
        ensures
            r matches Err(e) ==> e == ReportError::ForeignPending && final(self)@ == old(self)@,
            r matches Ok(ack) ==> ack == (MutationAck {
                id: old(self)@.id,
                next_index: pending@.next_index,
            }) && final(self)@ == acknowledged(old(self)@, pending@),
    {
        if !same_owner(&self.owner, &pending.owner) {
            return Err(ReportError::ForeignPending);
        }
        let ghost old_seen = self.seen@;
        let PendingReport { owner: _, next_index, terminal, paths } = pending;
        let mut paths = paths;
        let ghost added = paths@;
        self.seen.append(&mut paths);
        proof {
            assert(all_bytes(self.seen@) =~= all_bytes(old_seen) + all_bytes(added));
        }
        self.next_index = next_index;
        self.terminal = terminal;
        self.outstanding = false;
        Ok(MutationAck { id: self.id, next_index: self.next_index })
    }

    /// The index the next report must continue from.
    pub fn next_index(&self) -> (n: u32)
        ensures
            n == self@.next_index,
    {
        self.next_index
    }

    /// Whether an acknowledged effect named `path`.
    pub fn has_seen(&self, path: &str) -> (r: bool)
        ensures
            r == has_path(self@.seen, bytes_of(path@)),
    {
        contains_path(&self.seen, str_bytes(path))
    }

    /// How many effects have been acknowledged.
    pub fn seen_count(&self) -> (n: usize)
        ensures
            n == self@.seen.len(),
    {
        self.seen.len()
    }
}

/// The bytes of `s` from `start` on.
fn slice_from(s: &[u8], start: usize) -> (r: &[u8])
    requires
        start <= s@.len(),
    ensures
        r@ == s@.subrange(start as int, s@.len() as int),
{
    vstd::slice::slice_subrange(s, start, s.len())
}

} // verus!
