//! Whether to replay primitive packets the game wrote to RAM but left out
//! of the GPU's linked list this frame.
//!
//! The counts the decision rests on come from scanning primitive RAM and
//! the last linked-list DMA run; they are handed in as plain numbers, and
//! the decision itself (which rule applies, and why) is verified here.
use vstd::prelude::*;
use crate::bus::Bus;
use crate::gp0::{draw_primitive_count, spec_draw_count_below};

verus! {

/// Vertical blanks whose primitive header writes count as recent.
pub const BR2_UNLINKED_PRIMITIVE_REPLAY_VBLANK_WINDOW: u64 = 4;
/// A linked list with at most this many non-empty nodes is sparse.
pub const BR2_UNLINKED_PRIMITIVE_REPLAY_SPARSE_NODE_LIMIT: u32 = 32;
/// A linked list with fewer nodes than this is short.
pub const BR2_UNLINKED_PRIMITIVE_REPLAY_MIN_LINKED_NODES: u32 = 512;
/// Draw packets that make a stream of draws.
pub const BR2_UNLINKED_PRIMITIVE_REPLAY_MIN_DRAW_PACKETS: u32 = 8;
/// Header writes that make a stream of primitives.
pub const BR2_UNLINKED_PRIMITIVE_REPLAY_MIN_RECENT_HEADERS: u64 = 32;
/// Stale draw packets a stale scan must find.
pub const BR2_UNLINKED_PRIMITIVE_REPLAY_STALE_SCAN_MIN_PACKETS: u32 = 8;
/// Vertical blanks a rejected replay keeps the next one away.
pub const BR2_UNLINKED_PRIMITIVE_REPLAY_REJECT_COOLDOWN_VBLANKS: u64 = 60;

/// Why a replay was, or was not, attempted.
#[derive(Clone, Copy, Debug, PartialEq, Eq, Structural)]
pub enum UnlinkedPrimitiveReplayReason {
    Disabled,
    Forced,
    DisabledByDefault,
    AlreadyAttemptedThisVblank,
    RecentValidationRejectCooldown,
    ShortLinkedListRecentPrimitiveStream,
    ShortLinkedListRecentStalePrimitiveStream,
    ShortLinkedListStaleSparseScene,
    ShortLinkedListStalePrimitiveScan,
    LinkedListTooShort,
    LinkedListNotSparse,
    NotEnoughLinkedDrawPackets,
    NotEnoughRecentHeaders,
    NoRecentHeaders,
    SparseRecentPrimitiveHeaders,
    ReplayThrottled,
    ReplayRejectedAfterValidation,
    ReplayNoPackets,
    ReplayFullValidationThrottled,
    Replayed,
    NotAttempted,
}

impl UnlinkedPrimitiveReplayReason {
    pub open spec fn spec_text(self) -> Seq<char> {
        match self {
            UnlinkedPrimitiveReplayReason::Disabled => "disabled"@,
            UnlinkedPrimitiveReplayReason::Forced => "forced"@,
            UnlinkedPrimitiveReplayReason::DisabledByDefault => "disabled_by_default"@,
            UnlinkedPrimitiveReplayReason::AlreadyAttemptedThisVblank => "already_attempted_this_vblank"@,
            UnlinkedPrimitiveReplayReason::RecentValidationRejectCooldown => "recent_validation_reject_cooldown"@,
            UnlinkedPrimitiveReplayReason::ShortLinkedListRecentPrimitiveStream => "short_linked_list_recent_primitive_stream"@,
            UnlinkedPrimitiveReplayReason::ShortLinkedListRecentStalePrimitiveStream => "short_linked_list_recent_stale_primitive_stream"@,
            UnlinkedPrimitiveReplayReason::ShortLinkedListStaleSparseScene => "short_linked_list_stale_sparse_scene"@,
            UnlinkedPrimitiveReplayReason::ShortLinkedListStalePrimitiveScan => "short_linked_list_stale_primitive_scan"@,
            UnlinkedPrimitiveReplayReason::LinkedListTooShort => "linked_list_too_short"@,
            UnlinkedPrimitiveReplayReason::LinkedListNotSparse => "linked_list_not_sparse"@,
            UnlinkedPrimitiveReplayReason::NotEnoughLinkedDrawPackets => "not_enough_linked_draw_packets"@,
            UnlinkedPrimitiveReplayReason::NotEnoughRecentHeaders => "not_enough_recent_headers"@,
            UnlinkedPrimitiveReplayReason::NoRecentHeaders => "no_recent_headers"@,
            UnlinkedPrimitiveReplayReason::SparseRecentPrimitiveHeaders => "sparse_recent_primitive_headers"@,
            UnlinkedPrimitiveReplayReason::ReplayThrottled => "replay_throttled"@,
            UnlinkedPrimitiveReplayReason::ReplayRejectedAfterValidation => "replay_rejected_after_validation"@,
            UnlinkedPrimitiveReplayReason::ReplayNoPackets => "replay_no_packets"@,
            UnlinkedPrimitiveReplayReason::ReplayFullValidationThrottled => "replay_full_validation_throttled"@,
            UnlinkedPrimitiveReplayReason::Replayed => "replayed"@,
            UnlinkedPrimitiveReplayReason::NotAttempted => "none"@,
        }
    }

    /// The reason as it appears in diagnostics.
    pub fn as_str(self) -> (r: &'static str)
        ensures
            r@ == self.spec_text(),
    {
        match self {
            UnlinkedPrimitiveReplayReason::Disabled => "disabled",
            UnlinkedPrimitiveReplayReason::Forced => "forced",
            UnlinkedPrimitiveReplayReason::DisabledByDefault => "disabled_by_default",
            UnlinkedPrimitiveReplayReason::AlreadyAttemptedThisVblank => "already_attempted_this_vblank",
            UnlinkedPrimitiveReplayReason::RecentValidationRejectCooldown => "recent_validation_reject_cooldown",
            UnlinkedPrimitiveReplayReason::ShortLinkedListRecentPrimitiveStream => "short_linked_list_recent_primitive_stream",
            UnlinkedPrimitiveReplayReason::ShortLinkedListRecentStalePrimitiveStream => "short_linked_list_recent_stale_primitive_stream",
            UnlinkedPrimitiveReplayReason::ShortLinkedListStaleSparseScene => "short_linked_list_stale_sparse_scene",
            UnlinkedPrimitiveReplayReason::ShortLinkedListStalePrimitiveScan => "short_linked_list_stale_primitive_scan",
            UnlinkedPrimitiveReplayReason::LinkedListTooShort => "linked_list_too_short",
            UnlinkedPrimitiveReplayReason::LinkedListNotSparse => "linked_list_not_sparse",
            UnlinkedPrimitiveReplayReason::NotEnoughLinkedDrawPackets => "not_enough_linked_draw_packets",
            UnlinkedPrimitiveReplayReason::NotEnoughRecentHeaders => "not_enough_recent_headers",
            UnlinkedPrimitiveReplayReason::NoRecentHeaders => "no_recent_headers",
            UnlinkedPrimitiveReplayReason::SparseRecentPrimitiveHeaders => "sparse_recent_primitive_headers",
            UnlinkedPrimitiveReplayReason::ReplayThrottled => "replay_throttled",
            UnlinkedPrimitiveReplayReason::ReplayRejectedAfterValidation => "replay_rejected_after_validation",
            UnlinkedPrimitiveReplayReason::ReplayNoPackets => "replay_no_packets",
            UnlinkedPrimitiveReplayReason::ReplayFullValidationThrottled => "replay_full_validation_throttled",
            UnlinkedPrimitiveReplayReason::Replayed => "replayed",
            UnlinkedPrimitiveReplayReason::NotAttempted => "none",
        }
    }
}

/// What the decision looks at.
#[derive(Clone, Copy, Debug)]
pub struct UnlinkedPrimitiveReplayInputs {
    pub vblank_count: u64,
    /// Distinct primitive headers written since the start of the window.
    pub recent_header_count: usize,
    /// Replays are turned off by the operator.
    pub disable_requested: bool,
    /// Replays are forced on by the operator.
    pub force_requested: bool,
    /// The replay interval in effect; none turns conditional replays off.
    pub replay_interval: Option<u64>,
    /// The vertical blank, packet count and reason of the last attempt.
    pub last_vblank: Option<u64>,
    pub last_packets: usize,
    pub last_reason: UnlinkedPrimitiveReplayReason,
    /// Header-like and draw writes to primitive RAM in this and the last
    /// vertical blank.
    pub recent_header_writes: u64,
    pub recent_draw_writes: u64,
    /// Recent unlinked draw packets inside the playfield, and recent stale
    /// ones.
    pub recent_draw_candidates: u32,
    pub recent_stale_draw_candidates: u32,
    /// The operator allows scanning stale packets.
    pub stale_scan_requested: bool,
    /// The GPU reports a sparse scene that allows a stale scan.
    pub sparse_scene_stale_scan_allowed: bool,
    /// Stale unlinked draw packets a scan finds.
    pub stale_scan_candidates: u32,
    /// Nodes and non-empty nodes of the last linked list.
    pub last_nodes: u32,
    pub last_nonempty_nodes: u32,
    /// GP0 commands of the last linked list, by opcode.
    pub command_opcode_counts: [u32; 256],
}

/// The counts behind a decision.
#[derive(Clone, Copy, Debug, PartialEq, Eq, Structural)]
pub struct UnlinkedPrimitiveReplayDiagnostics {
    pub min_vblank: u64,
    pub recent_header_count: usize,
    pub recent_header_writes: u64,
    pub recent_draw_writes: u64,
    pub recent_draw_candidates: u32,
    pub recent_stale_draw_candidates: u32,
    pub stale_draw_candidates: u32,
}

/// Whether to replay, why, how many headers are candidates, and the counts
/// looked at.
#[derive(Clone, Copy, Debug, PartialEq, Eq, Structural)]
pub struct UnlinkedPrimitiveReplayDecision {
    pub enabled: bool,
    pub reason: UnlinkedPrimitiveReplayReason,
    pub candidate_headers: usize,
    pub diagnostics: UnlinkedPrimitiveReplayDiagnostics,
}

pub open spec fn decision(
    enabled: bool,
    reason: UnlinkedPrimitiveReplayReason,
    candidate_headers: usize,
    diagnostics: UnlinkedPrimitiveReplayDiagnostics,
) -> UnlinkedPrimitiveReplayDecision {
    UnlinkedPrimitiveReplayDecision { enabled, reason, candidate_headers, diagnostics }
}

pub open spec fn max_usize(a: usize, b: usize) -> usize {
    if a >= b {
        a
    } else {
        b
    }
}

/// The first vertical blank of the window of recent ones.
pub open spec fn spec_min_vblank(i: UnlinkedPrimitiveReplayInputs) -> u64 {
    if i.vblank_count >= BR2_UNLINKED_PRIMITIVE_REPLAY_VBLANK_WINDOW {
        (i.vblank_count - BR2_UNLINKED_PRIMITIVE_REPLAY_VBLANK_WINDOW) as u64
    } else {
        0
    }
}

pub open spec fn spec_sparse(i: UnlinkedPrimitiveReplayInputs) -> bool {
    i.last_nonempty_nodes <= BR2_UNLINKED_PRIMITIVE_REPLAY_SPARSE_NODE_LIMIT
}

pub open spec fn spec_stale_scan_allowed(i: UnlinkedPrimitiveReplayInputs) -> bool {
    i.stale_scan_requested || i.sparse_scene_stale_scan_allowed
}

/// Stale packets counted: those a scan finds, when a scan is allowed and
/// the list is sparse; else none.
pub open spec fn spec_stale_candidates(i: UnlinkedPrimitiveReplayInputs) -> u32 {
    if spec_stale_scan_allowed(i) && spec_sparse(i) {
        i.stale_scan_candidates
    } else {
        0
    }
}

/// A replay was already tried at this vertical blank and either replayed
/// packets or ended in a way that rules out another try.
pub open spec fn spec_attempted_this_vblank(i: UnlinkedPrimitiveReplayInputs) -> bool {
    i.last_vblank == Some(i.vblank_count) && (i.last_packets > 0 || i.last_reason
        == UnlinkedPrimitiveReplayReason::ReplayRejectedAfterValidation || i.last_reason
        == UnlinkedPrimitiveReplayReason::ReplayNoPackets || i.last_reason
        == UnlinkedPrimitiveReplayReason::ReplayFullValidationThrottled || i.last_reason
        == UnlinkedPrimitiveReplayReason::AlreadyAttemptedThisVblank)
}

/// The last try was rejected after validation less than the cooldown ago.
pub open spec fn spec_in_reject_cooldown(i: UnlinkedPrimitiveReplayInputs) -> bool {
    i.last_reason == UnlinkedPrimitiveReplayReason::ReplayRejectedAfterValidation && match i.last_vblank {
        Some(last) => (if i.vblank_count >= last {
            i.vblank_count - last
        } else {
            0
        }) < BR2_UNLINKED_PRIMITIVE_REPLAY_REJECT_COOLDOWN_VBLANKS,
        None => false,
    }
}

pub open spec fn spec_replay_decision(i: UnlinkedPrimitiveReplayInputs) -> UnlinkedPrimitiveReplayDecision {
    let headers = i.recent_header_count;
    let early = UnlinkedPrimitiveReplayDiagnostics {
        min_vblank: spec_min_vblank(i),
        recent_header_count: headers,
        recent_header_writes: 0,
        recent_draw_writes: 0,
        recent_draw_candidates: 0,
        recent_stale_draw_candidates: 0,
        stale_draw_candidates: 0,
    };
    let stale = spec_stale_candidates(i);
    let full = UnlinkedPrimitiveReplayDiagnostics {
        recent_header_writes: i.recent_header_writes,
        recent_draw_writes: i.recent_draw_writes,
        recent_draw_candidates: i.recent_draw_candidates,
        recent_stale_draw_candidates: i.recent_stale_draw_candidates,
        stale_draw_candidates: stale,
        ..early
    };
    let primitive_stream = headers >= BR2_UNLINKED_PRIMITIVE_REPLAY_MIN_RECENT_HEADERS
        || i.recent_header_writes >= BR2_UNLINKED_PRIMITIVE_REPLAY_MIN_RECENT_HEADERS
        || i.recent_draw_candidates >= BR2_UNLINKED_PRIMITIVE_REPLAY_MIN_DRAW_PACKETS;
    let any_headers = headers > 0 || i.recent_header_writes > 0;
    let draw_stream = i.recent_draw_writes >= BR2_UNLINKED_PRIMITIVE_REPLAY_MIN_DRAW_PACKETS
        || i.recent_draw_candidates >= BR2_UNLINKED_PRIMITIVE_REPLAY_MIN_DRAW_PACKETS;
    if i.disable_requested {
        decision(false, UnlinkedPrimitiveReplayReason::Disabled, headers, early)
    } else if i.force_requested {
        decision(true, UnlinkedPrimitiveReplayReason::Forced, headers, early)
    } else if i.replay_interval is None {
        decision(false, UnlinkedPrimitiveReplayReason::DisabledByDefault, headers, early)
    } else if spec_attempted_this_vblank(i) {
        decision(false, UnlinkedPrimitiveReplayReason::AlreadyAttemptedThisVblank, headers, early)
    } else if spec_in_reject_cooldown(i) {
        decision(false, UnlinkedPrimitiveReplayReason::RecentValidationRejectCooldown, headers, early)
    } else if i.last_nodes < BR2_UNLINKED_PRIMITIVE_REPLAY_MIN_LINKED_NODES {
        if spec_sparse(i) && draw_stream && (primitive_stream || any_headers) {
            decision(true, UnlinkedPrimitiveReplayReason::ShortLinkedListRecentPrimitiveStream, headers, full)
        } else if spec_sparse(i) && i.recent_stale_draw_candidates
            >= BR2_UNLINKED_PRIMITIVE_REPLAY_MIN_DRAW_PACKETS {
            decision(
                true,
                UnlinkedPrimitiveReplayReason::ShortLinkedListRecentStalePrimitiveStream,
                max_usize(headers, i.recent_stale_draw_candidates as usize),
                full,
            )
        } else if spec_sparse(i) && stale >= BR2_UNLINKED_PRIMITIVE_REPLAY_STALE_SCAN_MIN_PACKETS
            && spec_stale_scan_allowed(i) {
            decision(
                true,
                if i.sparse_scene_stale_scan_allowed && !i.stale_scan_requested {
                    UnlinkedPrimitiveReplayReason::ShortLinkedListStaleSparseScene
                } else {
                    UnlinkedPrimitiveReplayReason::ShortLinkedListStalePrimitiveScan
                },
                max_usize(headers, stale as usize),
                full,
            )
        } else {
            decision(false, UnlinkedPrimitiveReplayReason::LinkedListTooShort, headers, full)
        }
    } else if !spec_sparse(i) {
        decision(false, UnlinkedPrimitiveReplayReason::LinkedListNotSparse, headers, full)
    } else if spec_draw_count_below(i.command_opcode_counts@, 256)
        < BR2_UNLINKED_PRIMITIVE_REPLAY_MIN_DRAW_PACKETS {
        decision(false, UnlinkedPrimitiveReplayReason::NotEnoughLinkedDrawPackets, headers, full)
    } else if i.recent_header_writes < BR2_UNLINKED_PRIMITIVE_REPLAY_MIN_RECENT_HEADERS {
        decision(false, UnlinkedPrimitiveReplayReason::NotEnoughRecentHeaders, headers, full)
    } else if headers == 0 {
        decision(false, UnlinkedPrimitiveReplayReason::NoRecentHeaders, 0, full)
    } else {
        decision(true, UnlinkedPrimitiveReplayReason::SparseRecentPrimitiveHeaders, headers, full)
    }
}

/// Decides whether to replay unlinked primitive packets this vertical
/// blank. In order: the operator's off and on switches; replays off by
/// default; one try per vertical blank and a cooldown after a rejected
/// one; for a short linked list, a recent stream of draws or of stale
/// draws, or a stale scan that finds enough; for a long list, only a sparse
/// one with enough linked draws and recent headers.
pub fn decide_unlinked_primitive_replay(inputs: &UnlinkedPrimitiveReplayInputs) -> (r:
    UnlinkedPrimitiveReplayDecision)
    ensures
        r == spec_replay_decision(*inputs),
{
    let i = inputs;
    let headers = i.recent_header_count;
    let min_vblank = i.vblank_count.saturating_sub(BR2_UNLINKED_PRIMITIVE_REPLAY_VBLANK_WINDOW);
    let early = UnlinkedPrimitiveReplayDiagnostics {
        min_vblank,
        recent_header_count: headers,
        recent_header_writes: 0,
        recent_draw_writes: 0,
        recent_draw_candidates: 0,
        recent_stale_draw_candidates: 0,
        stale_draw_candidates: 0,
    };
    if i.disable_requested {
        return UnlinkedPrimitiveReplayDecision {
            enabled: false,
            reason: UnlinkedPrimitiveReplayReason::Disabled,
            candidate_headers: headers,
            diagnostics: early,
        };
    }
    if i.force_requested {
        return UnlinkedPrimitiveReplayDecision {
            enabled: true,
            reason: UnlinkedPrimitiveReplayReason::Forced,
            candidate_headers: headers,
            diagnostics: early,
        };
    }
    if i.replay_interval.is_none() {
        return UnlinkedPrimitiveReplayDecision {
            enabled: false,
            reason: UnlinkedPrimitiveReplayReason::DisabledByDefault,
            candidate_headers: headers,
            diagnostics: early,
        };
    }
    let same_vblank = match i.last_vblank {
        Some(last) => last == i.vblank_count,
        None => false,
    };
    let last = i.last_reason;
    if same_vblank && (i.last_packets > 0 || last
        == UnlinkedPrimitiveReplayReason::ReplayRejectedAfterValidation || last
        == UnlinkedPrimitiveReplayReason::ReplayNoPackets || last
        == UnlinkedPrimitiveReplayReason::ReplayFullValidationThrottled || last
        == UnlinkedPrimitiveReplayReason::AlreadyAttemptedThisVblank) {
        return UnlinkedPrimitiveReplayDecision {
            enabled: false,
            reason: UnlinkedPrimitiveReplayReason::AlreadyAttemptedThisVblank,
            candidate_headers: headers,
            diagnostics: early,
        };
    }
    let cooling_down = last == UnlinkedPrimitiveReplayReason::ReplayRejectedAfterValidation
        && match i.last_vblank {
        Some(last_vblank) => i.vblank_count.saturating_sub(last_vblank)
            < BR2_UNLINKED_PRIMITIVE_REPLAY_REJECT_COOLDOWN_VBLANKS,
        None => false,
    };
    if cooling_down {
        return UnlinkedPrimitiveReplayDecision {
            enabled: false,
            reason: UnlinkedPrimitiveReplayReason::RecentValidationRejectCooldown,
            candidate_headers: headers,
            diagnostics: early,
        };
    }
    let sparse = i.last_nonempty_nodes <= BR2_UNLINKED_PRIMITIVE_REPLAY_SPARSE_NODE_LIMIT;
    let stale_scan_allowed = i.stale_scan_requested || i.sparse_scene_stale_scan_allowed;
    let stale = if stale_scan_allowed && sparse {
        i.stale_scan_candidates
    } else {
        0
    };
    let full = UnlinkedPrimitiveReplayDiagnostics {
        min_vblank,
        recent_header_count: headers,
        recent_header_writes: i.recent_header_writes,
        recent_draw_writes: i.recent_draw_writes,
        recent_draw_candidates: i.recent_draw_candidates,
        recent_stale_draw_candidates: i.recent_stale_draw_candidates,
        stale_draw_candidates: stale,
    };
    let primitive_stream = headers as u64 >= BR2_UNLINKED_PRIMITIVE_REPLAY_MIN_RECENT_HEADERS
        || i.recent_header_writes >= BR2_UNLINKED_PRIMITIVE_REPLAY_MIN_RECENT_HEADERS
        || i.recent_draw_candidates >= BR2_UNLINKED_PRIMITIVE_REPLAY_MIN_DRAW_PACKETS;
    let any_headers = headers > 0 || i.recent_header_writes > 0;
    let draw_stream = i.recent_draw_writes >= BR2_UNLINKED_PRIMITIVE_REPLAY_MIN_DRAW_PACKETS as u64
        || i.recent_draw_candidates >= BR2_UNLINKED_PRIMITIVE_REPLAY_MIN_DRAW_PACKETS;
    if i.last_nodes < BR2_UNLINKED_PRIMITIVE_REPLAY_MIN_LINKED_NODES {
        if sparse && draw_stream && (primitive_stream || any_headers) {
            return UnlinkedPrimitiveReplayDecision {
                enabled: true,
                reason: UnlinkedPrimitiveReplayReason::ShortLinkedListRecentPrimitiveStream,
                candidate_headers: headers,
                diagnostics: full,
            };
        }
        if sparse && i.recent_stale_draw_candidates >= BR2_UNLINKED_PRIMITIVE_REPLAY_MIN_DRAW_PACKETS {
            let stale_count = i.recent_stale_draw_candidates as usize;
            return UnlinkedPrimitiveReplayDecision {
                enabled: true,
                reason: UnlinkedPrimitiveReplayReason::ShortLinkedListRecentStalePrimitiveStream,
                candidate_headers: if headers >= stale_count {
                    headers
                } else {
                    stale_count
                },
                diagnostics: full,
            };
        }
        if sparse && stale >= BR2_UNLINKED_PRIMITIVE_REPLAY_STALE_SCAN_MIN_PACKETS
            && stale_scan_allowed {
            let reason = if i.sparse_scene_stale_scan_allowed && !i.stale_scan_requested {
                UnlinkedPrimitiveReplayReason::ShortLinkedListStaleSparseScene
            } else {
                UnlinkedPrimitiveReplayReason::ShortLinkedListStalePrimitiveScan
            };
            let stale_count = stale as usize;
            return UnlinkedPrimitiveReplayDecision {
                enabled: true,
                reason,
                candidate_headers: if headers >= stale_count {
                    headers
                } else {
                    stale_count
                },
                diagnostics: full,
            };
        }
        return UnlinkedPrimitiveReplayDecision {
            enabled: false,
            reason: UnlinkedPrimitiveReplayReason::LinkedListTooShort,
            candidate_headers: headers,
            diagnostics: full,
        };
    }
    if !sparse {
        return UnlinkedPrimitiveReplayDecision {
            enabled: false,
            reason: UnlinkedPrimitiveReplayReason::LinkedListNotSparse,
            candidate_headers: headers,
            diagnostics: full,
        };
    }
    if draw_primitive_count(&i.command_opcode_counts) < BR2_UNLINKED_PRIMITIVE_REPLAY_MIN_DRAW_PACKETS {
        return UnlinkedPrimitiveReplayDecision {
            enabled: false,
            reason: UnlinkedPrimitiveReplayReason::NotEnoughLinkedDrawPackets,
            candidate_headers: headers,
            diagnostics: full,
        };
    }
    if i.recent_header_writes < BR2_UNLINKED_PRIMITIVE_REPLAY_MIN_RECENT_HEADERS {
        return UnlinkedPrimitiveReplayDecision {
            enabled: false,
            reason: UnlinkedPrimitiveReplayReason::NotEnoughRecentHeaders,
            candidate_headers: headers,
            diagnostics: full,
        };
    }
    if headers == 0 {
        return UnlinkedPrimitiveReplayDecision {
            enabled: false,
            reason: UnlinkedPrimitiveReplayReason::NoRecentHeaders,
            candidate_headers: 0,
            diagnostics: full,
        };
    }
    UnlinkedPrimitiveReplayDecision {
        enabled: true,
        reason: UnlinkedPrimitiveReplayReason::SparseRecentPrimitiveHeaders,
        candidate_headers: headers,
        diagnostics: full,
    }
}

/// What the decision needs beyond the bus: the operator's switches, the
/// outcome of the last attempt, and what the GPU's last linked list and a
/// scan of primitive RAM found.
#[derive(Clone, Copy, Debug)]
pub struct UnlinkedPrimitiveReplayContext {
    pub disable_requested: bool,
    pub force_requested: bool,
    pub stale_scan_requested: bool,
    pub sparse_scene_stale_scan_allowed: bool,
    pub last_vblank: Option<u64>,
    pub last_packets: usize,
    pub last_reason: UnlinkedPrimitiveReplayReason,
    pub recent_draw_candidates: u32,
    pub recent_stale_draw_candidates: u32,
    pub stale_scan_candidates: u32,
    pub last_nodes: u32,
    pub last_nonempty_nodes: u32,
    pub command_opcode_counts: [u32; 256],
}

/// The decision's inputs: the vertical blank, recent primitive RAM stores
/// and replay interval from the bus, the rest from `context`.
pub open spec fn spec_replay_inputs(bus: Bus, context: UnlinkedPrimitiveReplayContext) -> UnlinkedPrimitiveReplayInputs {
    let min_vblank = if bus.vblank_count >= BR2_UNLINKED_PRIMITIVE_REPLAY_VBLANK_WINDOW {
        (bus.vblank_count - BR2_UNLINKED_PRIMITIVE_REPLAY_VBLANK_WINDOW) as u64
    } else {
        0
    };
    let p = bus.primitive_ram_writes;
    UnlinkedPrimitiveReplayInputs {
        vblank_count: bus.vblank_count,
        recent_header_count: p.spec_recent_header_count(min_vblank) as usize,
        disable_requested: context.disable_requested,
        force_requested: context.force_requested,
        replay_interval: bus.unlinked_primitive_replay_interval,
        last_vblank: context.last_vblank,
        last_packets: context.last_packets,
        last_reason: context.last_reason,
        recent_header_writes: if p.current_vblank_header_like_writes + p.last_vblank_header_like_writes
            > u64::MAX {
            u64::MAX
        } else {
            (p.current_vblank_header_like_writes + p.last_vblank_header_like_writes) as u64
        },
        recent_draw_writes: p.spec_recent_draw_writes(),
        recent_draw_candidates: context.recent_draw_candidates,
        recent_stale_draw_candidates: context.recent_stale_draw_candidates,
        stale_scan_requested: context.stale_scan_requested,
        sparse_scene_stale_scan_allowed: context.sparse_scene_stale_scan_allowed,
        stale_scan_candidates: context.stale_scan_candidates,
        last_nodes: context.last_nodes,
        last_nonempty_nodes: context.last_nonempty_nodes,
        command_opcode_counts: context.command_opcode_counts,
    }
}

/// Gathers the decision's inputs from the bus and `context`.
pub fn unlinked_primitive_replay_inputs(bus: &Bus, context: &UnlinkedPrimitiveReplayContext) -> (r:
    UnlinkedPrimitiveReplayInputs)
    requires
        bus.wf(),
    ensures
        r == spec_replay_inputs(*bus, *context),
{
    let min_vblank = bus.vblank_count.saturating_sub(BR2_UNLINKED_PRIMITIVE_REPLAY_VBLANK_WINDOW);
    let p = &bus.primitive_ram_writes;
    UnlinkedPrimitiveReplayInputs {
        vblank_count: bus.vblank_count,
        recent_header_count: p.recent_header_count(min_vblank),
        disable_requested: context.disable_requested,
        force_requested: context.force_requested,
        replay_interval: bus.unlinked_primitive_replay_interval,
        last_vblank: context.last_vblank,
        last_packets: context.last_packets,
        last_reason: context.last_reason,
        recent_header_writes: p.current_vblank_header_like_writes.saturating_add(
            p.last_vblank_header_like_writes,
        ),
        recent_draw_writes: p.recent_draw_writes(),
        recent_draw_candidates: context.recent_draw_candidates,
        recent_stale_draw_candidates: context.recent_stale_draw_candidates,
        stale_scan_requested: context.stale_scan_requested,
        sparse_scene_stale_scan_allowed: context.sparse_scene_stale_scan_allowed,
        stale_scan_candidates: context.stale_scan_candidates,
        last_nodes: context.last_nodes,
        last_nonempty_nodes: context.last_nonempty_nodes,
        command_opcode_counts: context.command_opcode_counts,
    }
}

impl Bus {
    /// Decides whether to replay unlinked primitive packets at this vertical
    /// blank, from the primitive RAM stores the bus saw and `context`.
    pub fn unlinked_primitive_replay_decision(&self, context: &UnlinkedPrimitiveReplayContext) -> (r:
        UnlinkedPrimitiveReplayDecision)
        requires
            self.wf(),
        ensures
            r == spec_replay_decision(spec_replay_inputs(*self, *context)),
    {
        let inputs = unlinked_primitive_replay_inputs(self, context);
        decide_unlinked_primitive_replay(&inputs)
    }
}

} // verus!
