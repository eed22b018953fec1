use lib::bus::Bus;
use lib::replay::{
    UnlinkedPrimitiveReplayContext, UnlinkedPrimitiveReplayDecision,
    UnlinkedPrimitiveReplayDiagnostics, UnlinkedPrimitiveReplayReason,
};
use lib::replay_step::{
    should_attempt_sparse_scene_unlinked_primitive_replay, unlinked_primitive_replay_step,
    LinkedRunCounts, UnlinkedPrimitiveReplayAction, UnlinkedPrimitiveReplayAttempt,
    UnlinkedPrimitiveReplayStats, BR2_UNLINKED_PRIMITIVE_REPLAY_FULL_VALIDATION_COOLDOWN_VBLANKS,
};

fn zero_diagnostics() -> UnlinkedPrimitiveReplayDiagnostics {
    UnlinkedPrimitiveReplayDiagnostics {
        min_vblank: 0,
        recent_header_count: 0,
        recent_header_writes: 0,
        recent_draw_writes: 0,
        recent_draw_candidates: 0,
        recent_stale_draw_candidates: 0,
        stale_draw_candidates: 0,
    }
}

fn no_linked() -> LinkedRunCounts {
    LinkedRunCounts { last_nodes: 0, last_nonempty_nodes: 0, last_words: 0 }
}

fn empty_context() -> UnlinkedPrimitiveReplayContext {
    UnlinkedPrimitiveReplayContext {
        disable_requested: false,
        force_requested: false,
        stale_scan_requested: false,
        sparse_scene_stale_scan_allowed: false,
        last_vblank: None,
        last_packets: 0,
        last_reason: UnlinkedPrimitiveReplayReason::NotAttempted,
        recent_draw_candidates: 0,
        recent_stale_draw_candidates: 0,
        stale_scan_candidates: 0,
        last_nodes: 0,
        last_nonempty_nodes: 0,
        command_opcode_counts: [0; 256],
    }
}

#[test]
fn bus_unlinked_primitive_replay_interval_is_configurable() {
    let mut bus = Bus::new(Vec::new(), 2 * 1024 * 1024);

    assert_eq!(bus.unlinked_primitive_replay_interval(), None);
    bus.vblank_count = 17;
    assert!(bus.should_attempt_unlinked_primitive_replay(false));

    bus.set_unlinked_primitive_replay_interval(Some(4));
    bus.vblank_count = 8;
    assert!(bus.should_attempt_unlinked_primitive_replay(false));
    bus.vblank_count = 10;
    assert!(!bus.should_attempt_unlinked_primitive_replay(false));

    bus.set_unlinked_primitive_replay_interval(None);
    assert!(bus.should_attempt_unlinked_primitive_replay(false));
    bus.set_unlinked_primitive_replay_interval(Some(0));
    assert_eq!(bus.unlinked_primitive_replay_interval(), None);
    assert!(bus.should_attempt_unlinked_primitive_replay(false));
}

#[test]
fn bus_unlinked_primitive_replay_reject_throttles_same_vblank_validation() {
    let mut bus = Bus::new(Vec::new(), 2 * 1024 * 1024);
    bus.set_unlinked_primitive_replay_interval(Some(1));
    bus.vblank_count = 24;
    let mut history = UnlinkedPrimitiveReplayStats::new();
    history.record_skip(
        bus.vblank_count,
        UnlinkedPrimitiveReplayReason::ReplayRejectedAfterValidation,
        0,
        no_linked(),
        zero_diagnostics(),
    );

    let decision = bus.unlinked_primitive_replay_decision(&history.context_with_history(empty_context()));

    assert!(!decision.enabled);
    assert_eq!(decision.reason.as_str(), "already_attempted_this_vblank");
}

#[test]
fn bus_unlinked_primitive_replay_reject_throttles_nearby_validation() {
    let mut bus = Bus::new(Vec::new(), 2 * 1024 * 1024);
    bus.set_unlinked_primitive_replay_interval(Some(1));
    let mut history = UnlinkedPrimitiveReplayStats::new();
    history.record_skip(
        20,
        UnlinkedPrimitiveReplayReason::ReplayRejectedAfterValidation,
        0,
        no_linked(),
        zero_diagnostics(),
    );
    bus.vblank_count = 24;

    let decision = bus.unlinked_primitive_replay_decision(&history.context_with_history(empty_context()));

    assert!(!decision.enabled);
    assert_eq!(decision.reason.as_str(), "recent_validation_reject_cooldown");
}

#[test]
fn bus_unlinked_primitive_replay_full_validation_has_cooldown() {
    let mut history = UnlinkedPrimitiveReplayStats::new();
    assert!(history.full_validation_due(24, false));

    history.record_full_validation(20);
    assert!(!history.full_validation_due(24, false));
    assert!(history.full_validation_due(24, true));

    assert!(history.full_validation_due(
        20 + BR2_UNLINKED_PRIMITIVE_REPLAY_FULL_VALIDATION_COOLDOWN_VBLANKS,
        false
    ));
}

#[test]
fn bus_unlinked_primitive_replay_full_validation_throttle_blocks_same_vblank_retry() {
    let mut bus = Bus::new(Vec::new(), 2 * 1024 * 1024);
    bus.set_unlinked_primitive_replay_interval(Some(1));
    bus.vblank_count = 24;
    let mut history = UnlinkedPrimitiveReplayStats::new();
    history.record_skip(
        bus.vblank_count,
        UnlinkedPrimitiveReplayReason::ReplayFullValidationThrottled,
        0,
        no_linked(),
        zero_diagnostics(),
    );

    let decision = bus.unlinked_primitive_replay_decision(&history.context_with_history(empty_context()));

    assert!(!decision.enabled);
    assert_eq!(decision.reason.as_str(), "already_attempted_this_vblank");
}

fn enabled_decision(reason: UnlinkedPrimitiveReplayReason) -> UnlinkedPrimitiveReplayDecision {
    UnlinkedPrimitiveReplayDecision {
        enabled: true,
        reason,
        candidate_headers: 5,
        diagnostics: zero_diagnostics(),
    }
}

fn attempt(decision: UnlinkedPrimitiveReplayDecision) -> UnlinkedPrimitiveReplayAttempt {
    UnlinkedPrimitiveReplayAttempt {
        vblank: 40,
        attempt_allowed: true,
        decision,
        linked: LinkedRunCounts { last_nodes: 600, last_nonempty_nodes: 10, last_words: 900 },
        replay_diagnostics: zero_diagnostics(),
        packets: 3,
        words: 21,
        validation_disabled: false,
        lightweight_validated: false,
        full_validation_throttle_disabled: false,
        full_validated: true,
    }
}

#[test]
fn replay_step_records_each_outcome() {
    let reason = UnlinkedPrimitiveReplayReason::SparseRecentPrimitiveHeaders;

    let mut history = UnlinkedPrimitiveReplayStats::new();
    let mut a = attempt(enabled_decision(reason));
    a.attempt_allowed = false;
    assert_eq!(unlinked_primitive_replay_step(&mut history, &a), UnlinkedPrimitiveReplayAction::Skipped);
    assert_eq!(history.last_reason, UnlinkedPrimitiveReplayReason::ReplayThrottled);
    assert_eq!(history.last_candidate_headers, 0);

    let mut a = attempt(enabled_decision(reason));
    a.packets = 0;
    assert_eq!(unlinked_primitive_replay_step(&mut history, &a), UnlinkedPrimitiveReplayAction::Skipped);
    assert_eq!(history.last_reason, UnlinkedPrimitiveReplayReason::ReplayNoPackets);

    // A full validation runs and passes: the replay stays.
    let a = attempt(enabled_decision(reason));
    assert_eq!(unlinked_primitive_replay_step(&mut history, &a), UnlinkedPrimitiveReplayAction::Replayed);
    assert_eq!(history.full_validations, 1);
    assert_eq!(history.last_full_validation_vblank, Some(40));
    assert_eq!(history.conditional_replays, 1);
    assert_eq!(history.total_packets, 3);
    assert_eq!(history.total_words, 21);
    assert_eq!(history.last_linked.last_nodes, 600);
    assert_eq!(history.attempts, 3);
    assert_eq!(history.skipped, 2);

    // The next full validation is not due yet: the GPU is rolled back.
    let mut a = attempt(enabled_decision(reason));
    a.vblank = 41;
    assert_eq!(unlinked_primitive_replay_step(&mut history, &a), UnlinkedPrimitiveReplayAction::RolledBack);
    assert_eq!(history.last_reason, UnlinkedPrimitiveReplayReason::ReplayFullValidationThrottled);
    assert_eq!(history.full_validations, 1);

    // The cheap check passes: no full validation needed.
    a.lightweight_validated = true;
    assert_eq!(unlinked_primitive_replay_step(&mut history, &a), UnlinkedPrimitiveReplayAction::Replayed);

    // A failed full validation rolls back and is recorded as a reject.
    let mut a = attempt(enabled_decision(reason));
    a.vblank = 400;
    a.full_validated = false;
    assert_eq!(unlinked_primitive_replay_step(&mut history, &a), UnlinkedPrimitiveReplayAction::RolledBack);
    assert_eq!(history.last_reason, UnlinkedPrimitiveReplayReason::ReplayRejectedAfterValidation);
    assert_eq!(history.full_validations, 2);
    assert_eq!(history.last_packets, 0);

    // A forced replay is never validated and counts apart.
    let a = attempt(enabled_decision(UnlinkedPrimitiveReplayReason::Forced));
    assert_eq!(unlinked_primitive_replay_step(&mut history, &a), UnlinkedPrimitiveReplayAction::Replayed);
    assert_eq!(history.forced_replays, 1);
    assert_eq!(history.conditional_replays, 2);

    // A decision that does not replay is recorded with its reason.
    let mut d = enabled_decision(UnlinkedPrimitiveReplayReason::LinkedListNotSparse);
    d.enabled = false;
    assert_eq!(unlinked_primitive_replay_step(&mut history, &attempt(d)), UnlinkedPrimitiveReplayAction::Skipped);
    assert_eq!(history.last_reason.as_str(), "linked_list_not_sparse");
    assert_eq!(history.last_candidate_headers, 5);
}

#[test]
fn sparse_scene_attempts_follow_a_capped_interval() {
    assert!(!should_attempt_sparse_scene_unlinked_primitive_replay(None, false, false, 4, true, 30));
    assert!(should_attempt_sparse_scene_unlinked_primitive_replay(Some(60), false, false, 4, true, 30));
    assert!(!should_attempt_sparse_scene_unlinked_primitive_replay(Some(60), false, false, 4, true, 31));
    assert!(should_attempt_sparse_scene_unlinked_primitive_replay(Some(4), false, false, 4, true, 8));
    assert!(!should_attempt_sparse_scene_unlinked_primitive_replay(Some(4), false, false, 40, true, 8));
    assert!(!should_attempt_sparse_scene_unlinked_primitive_replay(Some(4), false, false, 4, false, 8));
    assert!(!should_attempt_sparse_scene_unlinked_primitive_replay(Some(4), true, false, 4, true, 8));
}
