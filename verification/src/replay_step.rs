//! The replay's bookkeeping around the GPU: when an attempt is allowed,
//! when a full validation is due, and what an attempt records and whether
//! the GPU is rolled back, given what the GPU reported at each stage.
use vstd::prelude::*;
use crate::bus::Bus;
use crate::replay::{
    spec_replay_decision, UnlinkedPrimitiveReplayInputs, BR2_UNLINKED_PRIMITIVE_REPLAY_REJECT_COOLDOWN_VBLANKS,
    UnlinkedPrimitiveReplayContext,
    UnlinkedPrimitiveReplayDecision, UnlinkedPrimitiveReplayDiagnostics,
    UnlinkedPrimitiveReplayReason, BR2_UNLINKED_PRIMITIVE_REPLAY_SPARSE_NODE_LIMIT,
};

verus! {

/// Vertical blanks between two full validations of a replay.
pub const BR2_UNLINKED_PRIMITIVE_REPLAY_FULL_VALIDATION_COOLDOWN_VBLANKS: u64 = 300;
/// The longest interval between sparse-scene scans.
pub const BR2_UNLINKED_PRIMITIVE_REPLAY_SPARSE_SCENE_SCAN_INTERVAL: u64 = 15;

/// An attempt is allowed when forced on, with no interval, an interval of
/// at most 1, or at a multiple of the interval.
pub open spec fn spec_attempt_allowed(force_enabled: bool, interval: Option<u64>, vblank: u64) -> bool {
    force_enabled || match interval {
        None => true,
        Some(i) => i <= 1 || vblank % i == 0,
    }
}

pub fn replay_attempt_allowed(
    force_enabled: bool,
    interval: Option<u64>,
    vblank: u64,
) -> (r: bool)
    ensures
        r == spec_attempt_allowed(force_enabled, interval, vblank),
{
    if force_enabled {
        return true;
    }
    match interval {
        None => true,
        Some(i) => i <= 1 || vblank % i == 0,
    }
}

/// The interval of sparse-scene attempts: the replay interval, at most 15
/// and at least 1.
pub open spec fn spec_sparse_interval(interval: u64) -> u64 {
    let capped = if interval <= BR2_UNLINKED_PRIMITIVE_REPLAY_SPARSE_SCENE_SCAN_INTERVAL {
        interval
    } else {
        BR2_UNLINKED_PRIMITIVE_REPLAY_SPARSE_SCENE_SCAN_INTERVAL
    };
    if capped >= 1 {
        capped
    } else {
        1
    }
}

/// A sparse-scene attempt is allowed when an interval is set, neither
/// replays nor stale replays are turned off, the last linked list had few
/// non-empty nodes, the GPU reports a sparse scene, and the vertical blank
/// falls on the sparse-scene interval.
pub open spec fn spec_sparse_attempt_allowed(
    interval: Option<u64>,
    disable_requested: bool,
    stale_disable_requested: bool,
    last_nonempty_nodes: u32,
    sparse_scene_gate: bool,
    vblank: u64,
) -> bool {
    match interval {
        None => false,
        Some(i) => {
            &&& !disable_requested
            &&& !stale_disable_requested
            &&& last_nonempty_nodes <= BR2_UNLINKED_PRIMITIVE_REPLAY_SPARSE_NODE_LIMIT
            &&& sparse_scene_gate
            &&& (spec_sparse_interval(i) <= 1 || vblank % spec_sparse_interval(i) == 0)
        },
    }
}

pub fn should_attempt_sparse_scene_unlinked_primitive_replay(
    interval: Option<u64>,
    disable_requested: bool,
    stale_disable_requested: bool,
    last_nonempty_nodes: u32,
    sparse_scene_gate: bool,
    vblank: u64,
) -> (r: bool)
    ensures
        r == spec_sparse_attempt_allowed(
            interval,
            disable_requested,
            stale_disable_requested,
            last_nonempty_nodes,
            sparse_scene_gate,
            vblank,
        ),
{
    let i = match interval {
        Some(i) => i,
        None => {
            return false;
        },
    };
    if disable_requested || stale_disable_requested
        || last_nonempty_nodes > BR2_UNLINKED_PRIMITIVE_REPLAY_SPARSE_NODE_LIMIT
        || !sparse_scene_gate {
        return false;
    }
    let capped = if i <= BR2_UNLINKED_PRIMITIVE_REPLAY_SPARSE_SCENE_SCAN_INTERVAL {
        i
    } else {
        BR2_UNLINKED_PRIMITIVE_REPLAY_SPARSE_SCENE_SCAN_INTERVAL
    };
    let sparse = if capped >= 1 {
        capped
    } else {
        1
    };
    sparse <= 1 || vblank % sparse == 0
}

/// The counts of the GPU's last linked list that an attempt records.
#[derive(Clone, Copy, Debug, PartialEq, Eq, Structural)]
pub struct LinkedRunCounts {
    pub last_nodes: u32,
    pub last_nonempty_nodes: u32,
    pub last_words: u32,
}

/// The history of replay attempts.
#[derive(Clone, Copy, Debug, PartialEq, Eq, Structural)]
pub struct UnlinkedPrimitiveReplayStats {
    pub attempts: u64,
    pub conditional_replays: u64,
    pub forced_replays: u64,
    pub skipped: u64,
    pub total_packets: u64,
    pub total_words: u64,
    pub full_validations: u64,
    pub last_full_validation_vblank: Option<u64>,
    pub last_vblank: Option<u64>,
    pub last_reason: UnlinkedPrimitiveReplayReason,
    pub last_candidate_headers: usize,
    pub last_linked: LinkedRunCounts,
    pub last_packets: usize,
    pub last_words: usize,
    pub last_diagnostics: UnlinkedPrimitiveReplayDiagnostics,
}

pub open spec fn sat_add(a: u64, b: u64) -> u64 {
    if a + b > u64::MAX {
        u64::MAX
    } else {
        (a + b) as u64
    }
}

/// All counts zero.
pub open spec fn zero_diagnostics() -> UnlinkedPrimitiveReplayDiagnostics {
    UnlinkedPrimitiveReplayDiagnostics {
        min_vblank: 0,
        recent_header_count: 0,
        recent_header_writes: 0,
        recent_draw_writes: 0,
        recent_draw_candidates: 0,
        recent_stale_draw_candidates: 0,
        stale_draw_candidates: 0,
    }
}

/// What an attempt did.
#[derive(Clone, Copy, Debug, PartialEq, Eq, Structural)]
pub enum UnlinkedPrimitiveReplayAction {
    /// Nothing was replayed, or nothing is kept: leave the GPU as it is.
    Skipped,
    /// The replayed packets failed validation or could not be validated:
    /// restore the GPU to its state before the replay.
    RolledBack,
    /// The replayed packets stay.
    Replayed,
}

impl UnlinkedPrimitiveReplayStats {
    /// No attempt yet.
    pub fn new() -> (r: Self)
        ensures
            r == (UnlinkedPrimitiveReplayStats {
                attempts: 0,
                conditional_replays: 0,
                forced_replays: 0,
                skipped: 0,
                total_packets: 0,
                total_words: 0,
                full_validations: 0,
                last_full_validation_vblank: None,
                last_vblank: None,
                last_reason: UnlinkedPrimitiveReplayReason::NotAttempted,
                last_candidate_headers: 0,
                last_linked: LinkedRunCounts { last_nodes: 0, last_nonempty_nodes: 0, last_words: 0 },
                last_packets: 0,
                last_words: 0,
                last_diagnostics: zero_diagnostics(),
            }),
    {
        UnlinkedPrimitiveReplayStats {
            attempts: 0,
            conditional_replays: 0,
            forced_replays: 0,
            skipped: 0,
            total_packets: 0,
            total_words: 0,
            full_validations: 0,
            last_full_validation_vblank: None,
            last_vblank: None,
            last_reason: UnlinkedPrimitiveReplayReason::NotAttempted,
            last_candidate_headers: 0,
            last_linked: LinkedRunCounts { last_nodes: 0, last_nonempty_nodes: 0, last_words: 0 },
            last_packets: 0,
            last_words: 0,
            last_diagnostics: UnlinkedPrimitiveReplayDiagnostics {
                min_vblank: 0,
                recent_header_count: 0,
                recent_header_writes: 0,
                recent_draw_writes: 0,
                recent_draw_candidates: 0,
                recent_stale_draw_candidates: 0,
                stale_draw_candidates: 0,
            },
        }
    }

    /// The history after a skipped attempt.
    pub open spec fn spec_skipped(
        self,
        vblank: u64,
        reason: UnlinkedPrimitiveReplayReason,
        candidate_headers: usize,
        linked: LinkedRunCounts,
        diagnostics: UnlinkedPrimitiveReplayDiagnostics,
    ) -> Self {
        UnlinkedPrimitiveReplayStats {
            attempts: sat_add(self.attempts, 1),
            skipped: sat_add(self.skipped, 1),
            last_vblank: Some(vblank),
            last_reason: reason,
            last_candidate_headers: candidate_headers,
            last_linked: linked,
            last_packets: 0,
            last_words: 0,
            last_diagnostics: diagnostics,
            ..self
        }
    }

    /// The history after a replay that stays.
    pub open spec fn spec_replayed(
        self,
        vblank: u64,
        reason: UnlinkedPrimitiveReplayReason,
        candidate_headers: usize,
        linked: LinkedRunCounts,
        diagnostics: UnlinkedPrimitiveReplayDiagnostics,
        packets: usize,
        words: usize,
    ) -> Self {
        let forced = reason == UnlinkedPrimitiveReplayReason::Forced;
        UnlinkedPrimitiveReplayStats {
            attempts: sat_add(self.attempts, 1),
            forced_replays: if forced {
                sat_add(self.forced_replays, 1)
            } else {
                self.forced_replays
            },
            conditional_replays: if forced {
                self.conditional_replays
            } else {
                sat_add(self.conditional_replays, 1)
            },
            total_packets: sat_add(self.total_packets, packets as u64),
            total_words: sat_add(self.total_words, words as u64),
            last_vblank: Some(vblank),
            last_reason: reason,
            last_candidate_headers: candidate_headers,
            last_linked: linked,
            last_packets: packets,
            last_words: words,
            last_diagnostics: diagnostics,
            ..self
        }
    }

    /// The history after a full validation at `vblank`.
    pub open spec fn spec_full_validated(self, vblank: u64) -> Self {
        UnlinkedPrimitiveReplayStats {
            full_validations: sat_add(self.full_validations, 1),
            last_full_validation_vblank: Some(vblank),
            ..self
        }
    }

    /// Records a skipped attempt.
    pub fn record_skip(
        &mut self,
        vblank: u64,
        reason: UnlinkedPrimitiveReplayReason,
        candidate_headers: usize,
        linked: LinkedRunCounts,
        diagnostics: UnlinkedPrimitiveReplayDiagnostics,
    )
        ensures
            *final(self) == old(self).spec_skipped(
                vblank,
                reason,
                candidate_headers,
                linked,
                diagnostics,
            ),
    {
        self.attempts = self.attempts.saturating_add(1);
        self.skipped = self.skipped.saturating_add(1);
        self.last_vblank = Some(vblank);
        self.last_reason = reason;
        self.last_candidate_headers = candidate_headers;
        self.last_linked = linked;
        self.last_packets = 0;
        self.last_words = 0;
        self.last_diagnostics = diagnostics;
    }

    /// Records a replay that stays; a forced one counts apart.
    pub fn record_replay(
        &mut self,
        vblank: u64,
        reason: UnlinkedPrimitiveReplayReason,
        candidate_headers: usize,
        linked: LinkedRunCounts,
        diagnostics: UnlinkedPrimitiveReplayDiagnostics,
        packets: usize,
        words: usize,
    )
        ensures
            *final(self) == old(self).spec_replayed(
                vblank,
                reason,
                candidate_headers,
                linked,
                diagnostics,
                packets,
                words,
            ),
    {
        self.attempts = self.attempts.saturating_add(1);
        if reason == UnlinkedPrimitiveReplayReason::Forced {
            self.forced_replays = self.forced_replays.saturating_add(1);
        } else {
            self.conditional_replays = self.conditional_replays.saturating_add(1);
        }
        self.total_packets = self.total_packets.saturating_add(packets as u64);
        self.total_words = self.total_words.saturating_add(words as u64);
        self.last_vblank = Some(vblank);
        self.last_reason = reason;
        self.last_candidate_headers = candidate_headers;
        self.last_linked = linked;
        self.last_packets = packets;
        self.last_words = words;
        self.last_diagnostics = diagnostics;
    }

    /// Records a full validation.
    pub fn record_full_validation(&mut self, vblank: u64)
        ensures
            *final(self) == old(self).spec_full_validated(vblank),
    {
        self.full_validations = self.full_validations.saturating_add(1);
        self.last_full_validation_vblank = Some(vblank);
    }

    /// A full validation is due unless one ran fewer than 300 vertical
    /// blanks ago; the operator can lift that throttle.
    pub open spec fn spec_full_validation_due(self, vblank: u64, throttle_disabled: bool) -> bool {
        throttle_disabled || match self.last_full_validation_vblank {
            None => true,
            Some(last) => (if vblank >= last {
                vblank - last
            } else {
                0
            }) >= BR2_UNLINKED_PRIMITIVE_REPLAY_FULL_VALIDATION_COOLDOWN_VBLANKS,
        }
    }

    pub fn full_validation_due(&self, vblank: u64, throttle_disabled: bool) -> (r: bool)
        ensures
            r == self.spec_full_validation_due(vblank, throttle_disabled),
    {
        if throttle_disabled {
            return true;
        }
        match self.last_full_validation_vblank {
            None => true,
            Some(last) => vblank.saturating_sub(last)
                >= BR2_UNLINKED_PRIMITIVE_REPLAY_FULL_VALIDATION_COOLDOWN_VBLANKS,
        }
    }
}

/// What the GPU and the operator reported for one attempt, stage by stage.
/// A stage's values are looked at only when the attempt gets that far.
#[derive(Clone, Copy, Debug)]
pub struct UnlinkedPrimitiveReplayAttempt {
    pub vblank: u64,
    /// The interval or the sparse-scene rule allows an attempt now.
    pub attempt_allowed: bool,
    /// The decision for this vertical blank.
    pub decision: UnlinkedPrimitiveReplayDecision,
    /// The GPU's last linked list.
    pub linked: LinkedRunCounts,
    /// The counts after the packets were fed to the GPU.
    pub replay_diagnostics: UnlinkedPrimitiveReplayDiagnostics,
    pub packets: usize,
    pub words: usize,
    /// The operator turned validation off.
    pub validation_disabled: bool,
    /// The cheap comparison with the GPU's state before the replay passed.
    pub lightweight_validated: bool,
    /// The operator lifted the full-validation throttle.
    pub full_validation_throttle_disabled: bool,
    /// The full validation passed (looked at only when one is run).
    pub full_validated: bool,
}

/// The history and action after an attempt.
pub open spec fn spec_replay_step(s: UnlinkedPrimitiveReplayStats, a: UnlinkedPrimitiveReplayAttempt) -> (
    UnlinkedPrimitiveReplayStats,
    UnlinkedPrimitiveReplayAction,
) {
    let d = a.decision;
    if !a.attempt_allowed {
        (
            s.spec_skipped(
                a.vblank,
                UnlinkedPrimitiveReplayReason::ReplayThrottled,
                0,
                a.linked,
                zero_diagnostics(),
            ),
            UnlinkedPrimitiveReplayAction::Skipped,
        )
    } else if !d.enabled {
        (
            s.spec_skipped(a.vblank, d.reason, d.candidate_headers, a.linked, d.diagnostics),
            UnlinkedPrimitiveReplayAction::Skipped,
        )
    } else if a.packets == 0 {
        (
            s.spec_skipped(
                a.vblank,
                UnlinkedPrimitiveReplayReason::ReplayNoPackets,
                d.candidate_headers,
                a.linked,
                a.replay_diagnostics,
            ),
            UnlinkedPrimitiveReplayAction::Skipped,
        )
    } else {
        let validate = d.reason != UnlinkedPrimitiveReplayReason::Forced && !a.validation_disabled;
        let light = validate && a.lightweight_validated;
        let run_full = validate && !light && s.spec_full_validation_due(
            a.vblank,
            a.full_validation_throttle_disabled,
        );
        if validate && !light && !run_full {
            (
                s.spec_skipped(
                    a.vblank,
                    UnlinkedPrimitiveReplayReason::ReplayFullValidationThrottled,
                    d.candidate_headers,
                    a.linked,
                    a.replay_diagnostics,
                ),
                UnlinkedPrimitiveReplayAction::RolledBack,
            )
        } else {
            let s1 = if run_full {
                s.spec_full_validated(a.vblank)
            } else {
                s
            };
            let validated = !validate || light || (run_full && a.full_validated);
            if !validated {
                (
                    s1.spec_skipped(
                        a.vblank,
                        UnlinkedPrimitiveReplayReason::ReplayRejectedAfterValidation,
                        d.candidate_headers,
                        a.linked,
                        a.replay_diagnostics,
                    ),
                    UnlinkedPrimitiveReplayAction::RolledBack,
                )
            } else {
                (
                    s1.spec_replayed(
                        a.vblank,
                        d.reason,
                        d.candidate_headers,
                        a.linked,
                        a.replay_diagnostics,
                        a.packets,
                        a.words,
                    ),
                    UnlinkedPrimitiveReplayAction::Replayed,
                )
            }
        }
    }
}

/// Records one attempt and says whether the replayed packets stay, are
/// rolled back, or there was nothing to keep.
pub fn unlinked_primitive_replay_step(
    stats: &mut UnlinkedPrimitiveReplayStats,
    attempt: &UnlinkedPrimitiveReplayAttempt,
) -> (r: UnlinkedPrimitiveReplayAction)
    ensures
        (*final(stats), r) == spec_replay_step(*old(stats), *attempt),
{
    let d = attempt.decision;
    if !attempt.attempt_allowed {
        let zero = UnlinkedPrimitiveReplayDiagnostics {
            min_vblank: 0,
            recent_header_count: 0,
            recent_header_writes: 0,
            recent_draw_writes: 0,
            recent_draw_candidates: 0,
            recent_stale_draw_candidates: 0,
            stale_draw_candidates: 0,
        };
        stats.record_skip(
            attempt.vblank,
            UnlinkedPrimitiveReplayReason::ReplayThrottled,
            0,
            attempt.linked,
            zero,
        );
        return UnlinkedPrimitiveReplayAction::Skipped;
    }
    if !d.enabled {
        stats.record_skip(attempt.vblank, d.reason, d.candidate_headers, attempt.linked, d.diagnostics);
        return UnlinkedPrimitiveReplayAction::Skipped;
    }
    if attempt.packets == 0 {
        stats.record_skip(
            attempt.vblank,
            UnlinkedPrimitiveReplayReason::ReplayNoPackets,
            d.candidate_headers,
            attempt.linked,
            attempt.replay_diagnostics,
        );
        return UnlinkedPrimitiveReplayAction::Skipped;
    }
    let validate = d.reason != UnlinkedPrimitiveReplayReason::Forced && !attempt.validation_disabled;
    let light = validate && attempt.lightweight_validated;
    let run_full = validate && !light && stats.full_validation_due(
        attempt.vblank,
        attempt.full_validation_throttle_disabled,
    );
    if validate && !light && !run_full {
        stats.record_skip(
            attempt.vblank,
            UnlinkedPrimitiveReplayReason::ReplayFullValidationThrottled,
            d.candidate_headers,
            attempt.linked,
            attempt.replay_diagnostics,
        );
        return UnlinkedPrimitiveReplayAction::RolledBack;
    }
    if run_full {
        stats.record_full_validation(attempt.vblank);
    }
    let validated = !validate || light || (run_full && attempt.full_validated);
    if !validated {
        stats.record_skip(
            attempt.vblank,
            UnlinkedPrimitiveReplayReason::ReplayRejectedAfterValidation,
            d.candidate_headers,
            attempt.linked,
            attempt.replay_diagnostics,
        );
        return UnlinkedPrimitiveReplayAction::RolledBack;
    }
    stats.record_replay(
        attempt.vblank,
        d.reason,
        d.candidate_headers,
        attempt.linked,
        attempt.replay_diagnostics,
        attempt.packets,
        attempt.words,
    );
    UnlinkedPrimitiveReplayAction::Replayed
}

impl Bus {
    /// Whether a replay may be attempted at this vertical blank under the
    /// bus's replay interval; `force_enabled` is the operator's switch.
    pub fn should_attempt_unlinked_primitive_replay(&self, force_enabled: bool) -> (r: bool)
        ensures
            r == spec_attempt_allowed(
                force_enabled,
                self.unlinked_primitive_replay_interval,
                self.vblank_count,
            ),
    {
        replay_attempt_allowed(force_enabled, self.unlinked_primitive_replay_interval, self.vblank_count)
    }
}

impl UnlinkedPrimitiveReplayStats {
    /// `context` with the last attempt's vertical blank, packet count and
    /// reason taken from this history.
    pub fn context_with_history(&self, context: UnlinkedPrimitiveReplayContext) -> (r:
        UnlinkedPrimitiveReplayContext)
        ensures
            r == (UnlinkedPrimitiveReplayContext {
                last_vblank: self.last_vblank,
                last_packets: self.last_packets,
                last_reason: self.last_reason,
                ..context
            }),
    {
        UnlinkedPrimitiveReplayContext {
            last_vblank: self.last_vblank,
            last_packets: self.last_packets,
            last_reason: self.last_reason,
            ..context
        }
    }
}

/// The decision's inputs carry the history of `s` at vertical blank `vblank`.
pub open spec fn inputs_follow_history(
    i: UnlinkedPrimitiveReplayInputs,
    s: UnlinkedPrimitiveReplayStats,
    vblank: u64,
) -> bool {
    &&& i.vblank_count == vblank
    &&& i.last_vblank == s.last_vblank
    &&& i.last_packets == s.last_packets
    &&& i.last_reason == s.last_reason
}

/// Every attempt is recorded once, and only a replay that stays adds to
/// the replay counts and totals.
pub proof fn law_only_kept_replays_count(s: UnlinkedPrimitiveReplayStats, a: UnlinkedPrimitiveReplayAttempt)
    ensures
        spec_replay_step(s, a).0.attempts == sat_add(s.attempts, 1),
        spec_replay_step(s, a).0.last_vblank == Some(a.vblank),
        spec_replay_step(s, a).1 != UnlinkedPrimitiveReplayAction::Replayed ==> {
            &&& spec_replay_step(s, a).0.total_packets == s.total_packets
            &&& spec_replay_step(s, a).0.conditional_replays == s.conditional_replays
            &&& spec_replay_step(s, a).0.forced_replays == s.forced_replays
            &&& spec_replay_step(s, a).0.skipped == sat_add(s.skipped, 1)
        },
{
}

/// Once an enabled decision was acted on, the decision for the rest of that
/// vertical blank does not replay again, unless replays are forced.
pub proof fn law_one_replay_attempt_per_vblank(
    s: UnlinkedPrimitiveReplayStats,
    a: UnlinkedPrimitiveReplayAttempt,
    i: UnlinkedPrimitiveReplayInputs,
)
    requires
        a.attempt_allowed,
        a.decision.enabled,
        inputs_follow_history(i, spec_replay_step(s, a).0, a.vblank),
        !i.force_requested,
    ensures
        !spec_replay_decision(i).enabled,
{
}

/// A replay refused by validation keeps replays off, unless forced, for
/// the cooldown that follows.
pub proof fn law_rejected_replay_cools_down(
    s: UnlinkedPrimitiveReplayStats,
    a: UnlinkedPrimitiveReplayAttempt,
    later: u64,
    i: UnlinkedPrimitiveReplayInputs,
)
    requires
        spec_replay_step(s, a).0.last_reason == UnlinkedPrimitiveReplayReason::ReplayRejectedAfterValidation,
        a.vblank <= later < a.vblank + BR2_UNLINKED_PRIMITIVE_REPLAY_REJECT_COOLDOWN_VBLANKS,
        inputs_follow_history(i, spec_replay_step(s, a).0, later),
        !i.force_requested,
    ensures
        !spec_replay_decision(i).enabled,
{
}

/// Attempts run at every vertical blank when forced on, with no interval,
/// or with an interval of 0 or 1; with an interval of 2 or more, exactly at
/// its multiples. Sparse-scene attempts, once their other conditions hold,
/// run at the multiples of the interval capped at 15 (so at most 15
/// vertical blanks apart however long the interval), and at every one for
/// an interval of 0 or 1; they never run without an interval, with either
/// switch set, with more than 32 non-empty nodes or without the GPU's
/// sparse-scene report.
pub proof fn law_replay_attempt_schedule(
    force: bool,
    interval: Option<u64>,
    vblank: u64,
    disable: bool,
    stale_disable: bool,
    nonempty: u32,
    gate: bool,
)
    ensures
        force || interval is None ==> spec_attempt_allowed(force, interval, vblank),
        !force && interval is Some && interval->0 >= 2 ==> (spec_attempt_allowed(
            force,
            interval,
            vblank,
        ) <==> vblank % interval->0 == 0),
        !force && interval is Some && interval->0 <= 1 ==> spec_attempt_allowed(force, interval, vblank),
        interval is None || disable || stale_disable || nonempty > 32 || !gate
            ==> !spec_sparse_attempt_allowed(interval, disable, stale_disable, nonempty, gate, vblank),
        interval is Some && interval->0 >= 15 ==> (spec_sparse_attempt_allowed(
            interval,
            disable,
            stale_disable,
            nonempty,
            gate,
            vblank,
        ) <==> !disable && !stale_disable && nonempty <= 32 && gate && vblank % 15 == 0),
        interval is Some && interval->0 <= 1 && !disable && !stale_disable && nonempty <= 32 && gate
            ==> spec_sparse_attempt_allowed(interval, disable, stale_disable, nonempty, gate, vblank),
        interval is Some && 2 <= interval->0 <= 15 ==> (spec_sparse_attempt_allowed(
            interval,
            disable,
            stale_disable,
            nonempty,
            gate,
            vblank,
        ) <==> !disable && !stale_disable && nonempty <= 32 && gate && vblank % interval->0
            == 0),
{
}

/// A full validation is due when the operator lifted the throttle, when
/// none ran before, or when the last one is at least 300 vertical blanks
/// back; within 300 blanks after one, with the throttle on, it is not.
pub proof fn law_full_validation_cooldown(s: UnlinkedPrimitiveReplayStats, vblank: u64, throttle_disabled: bool)
    ensures
        throttle_disabled ==> s.spec_full_validation_due(vblank, throttle_disabled),
        s.last_full_validation_vblank is None ==> s.spec_full_validation_due(vblank, throttle_disabled),
        s.last_full_validation_vblank is Some && vblank >= s.last_full_validation_vblank->0 + 300
            ==> s.spec_full_validation_due(vblank, throttle_disabled),
        !throttle_disabled && s.last_full_validation_vblank is Some
            && s.last_full_validation_vblank->0 <= vblank < s.last_full_validation_vblank->0 + 300
            ==> !s.spec_full_validation_due(vblank, throttle_disabled),
{
}

} // verus!
