//! Properties of the frame heuristics, the window scaling and the replay
//! decision that hold for every input.
use vstd::prelude::*;
use crate::display::{
    spec_caption_stalled_select, spec_periodic_ghosting, spec_supports_playable,
    spec_visible_detail,
};
use crate::frame::{grid_count, lemma_row_start, row_count, sat_mul, FrameView, PixelTest};
use crate::replay::{
    spec_attempted_this_vblank, spec_in_reject_cooldown, spec_replay_decision,
    UnlinkedPrimitiveReplayInputs, UnlinkedPrimitiveReplayReason,
};
use crate::window::{
    expand_source_y, lemma_rows_len, row_of, sat_sub, spec_expand, spec_expanded_rows,
    spec_frame_or_window_supports_playable, spec_layout, spec_prefers_stronger_stacked_field,
    spec_should_deinterlace, spec_window, spec_window_rows, zeros, NATIVE_WINDOW_FRAME_HEIGHT,
    NATIVE_WINDOW_FRAME_WIDTH,
};

verus! {

proof fn lemma_expanded_rows_len(f: FrameView, start: int, height: int, n: int)
    requires
        f.complete(),
        f.height > 0,
        start >= 0,
        height >= 0,
        n >= 0,
    ensures
        spec_expanded_rows(f, start, height, n).len() == n * f.width,
    decreases n,
{
    if n > 0 {
        lemma_expanded_rows_len(f, start, height, n - 1);
        let sy = expand_source_y(f, start, height, n - 1);
        assert(0 <= (n - 1) * height) by (nonlinear_arith)
            requires
                n >= 1,
                height >= 0,
        ;
        assert(0 <= sy < f.height);
        lemma_row_start(f, sy);
        assert(row_of(f, sy).len() == f.width);
        assert((n - 1) * f.width + f.width == n * f.width) by (nonlinear_arith);
    }
}

/// Vertical expansion keeps a complete frame's size and pixel count.
proof fn lemma_expand_keeps_size(f: FrameView)
    requires
        f.complete(),
    ensures
        spec_expand(f).width == f.width,
        spec_expand(f).height == f.height,
        spec_expand(f).pixels.len() == f.pixels.len() || spec_expand(f).pixels.len() == f.width
            * f.height,
{
    if f.height > 0 {
        assert forall|start: int, height: int|
            start >= 0 && height >= 0 implies #[trigger] spec_expanded_rows(
            f,
            start,
            height,
            f.height as int,
        ).len() == f.height * f.width by {
            lemma_expanded_rows_len(f, start, height, f.height as int);
        }
        assert(f.height * f.width == f.width * f.height) by (nonlinear_arith);
    }
}

/// Whatever the display frame, its window rendition is 512 by 480 with one
/// pixel for each place.
pub proof fn law_window_frame_is_window_sized(f: FrameView)
    ensures
        spec_window(f).width == NATIVE_WINDOW_FRAME_WIDTH,
        spec_window(f).height == NATIVE_WINDOW_FRAME_HEIGHT,
        spec_window(f).pixels.len() == NATIVE_WINDOW_FRAME_WIDTH * NATIVE_WINDOW_FRAME_HEIGHT,
{
    if f.width == 0 || f.height == 0 || !f.complete() {
        assert(zeros(NATIVE_WINDOW_FRAME_WIDTH * NATIVE_WINDOW_FRAME_HEIGHT).len()
            == NATIVE_WINDOW_FRAME_WIDTH * NATIVE_WINDOW_FRAME_HEIGHT);
    } else {
        let l = spec_layout(f);
        crate::window::lemma_layout_fits(f);
        lemma_rows_len(f, l, NATIVE_WINDOW_FRAME_HEIGHT as int);
        let scaled = FrameView {
            width: NATIVE_WINDOW_FRAME_WIDTH,
            height: NATIVE_WINDOW_FRAME_HEIGHT,
            pixels: spec_window_rows(f, l, NATIVE_WINDOW_FRAME_HEIGHT as int),
        };
        assert(scaled.complete());
        lemma_expand_keeps_size(scaled);
    }
}

/// A render context that reports live 3D work never turns a playable
/// frame into an unplayable one.
pub proof fn law_render_context_only_admits_more(f: FrameView)
    ensures
        spec_supports_playable(f, false) ==> spec_supports_playable(f, true),
        spec_frame_or_window_supports_playable(f, false) ==> spec_frame_or_window_supports_playable(
            f,
            true,
        ),
{
    let w = spec_window(f);
    assert(spec_supports_playable(w, false) ==> spec_supports_playable(w, true));
}

/// A stalled select screen or a ghosting movie frame is never playable,
/// whatever the render context.
pub proof fn law_stalled_and_ghosting_frames_are_never_playable(f: FrameView, render_context: bool)
    requires
        spec_caption_stalled_select(f) || spec_periodic_ghosting(f),
    ensures
        !spec_supports_playable(f, render_context),
{
}

/// Every pixel of the frame is black (its colour, without the top byte, is
/// zero).
pub open spec fn all_black(f: FrameView) -> bool {
    forall|x: int, y: int| 0 <= x < f.width && 0 <= y < f.height ==> #[trigger] f.rgb(x, y) == 0
}

proof fn lemma_black_rows_count_nothing(f: FrameView, rows: int)
    requires
        all_black(f),
        0 <= rows <= f.height,
    ensures
        grid_count(f, PixelTest::Nonzero, rows) == 0,
    decreases rows,
{
    if rows > 0 {
        lemma_black_rows_count_nothing(f, rows - 1);
        lemma_black_row_counts_nothing(f, rows - 1, f.width as int);
    }
}

proof fn lemma_black_row_counts_nothing(f: FrameView, y: int, n: int)
    requires
        all_black(f),
        0 <= y < f.height,
        n <= f.width,
    ensures
        row_count(f, PixelTest::Nonzero, y, n) == 0,
    decreases n,
{
    if n > 0 {
        lemma_black_row_counts_nothing(f, y, n - 1);
        assert(f.rgb(n - 1, y) == 0);
    }
}

/// A black frame shows no visible detail, and so is never a playable
/// candidate, whatever the render context.
pub proof fn law_black_frame_is_never_playable(f: FrameView, render_context: bool)
    requires
        all_black(f),
    ensures
        !spec_visible_detail(f),
        !spec_supports_playable(f, render_context),
{
    if f.width > 0 && f.height > 0 && f.complete() {
        lemma_black_rows_count_nothing(f, f.height as int);
        assert(f.width * f.height >= 1) by (nonlinear_arith)
            requires
                f.width >= 1,
                f.height >= 1,
        ;
        assert(sat_mul(sat_mul(f.width as int, f.height as int), 10) > 0);
    }
}

/// A full-height select screen is never collapsed to one field, and a
/// preferred stronger field only exists when the frame is deinterlaced.
pub proof fn law_deinterlace_guards(f: FrameView)
    ensures
        spec_caption_stalled_select(f) ==> !spec_should_deinterlace(f),
        spec_prefers_stronger_stacked_field(f) ==> spec_should_deinterlace(f),
{
}

/// The operator's off switch always wins; otherwise the on switch does;
/// and without it a replay needs an interval and is tried at most once per
/// vertical blank.
pub proof fn law_replay_switches_and_once_per_vblank(i: UnlinkedPrimitiveReplayInputs)
    ensures
        i.disable_requested ==> !spec_replay_decision(i).enabled,
        !i.disable_requested && i.force_requested ==> spec_replay_decision(i).enabled,
        !i.force_requested && i.replay_interval is None ==> !spec_replay_decision(i).enabled,
        !i.force_requested && spec_attempted_this_vblank(i) ==> !spec_replay_decision(i).enabled,
{
}

/// A short linked list (under 512 nodes) that is sparse (at most 32
/// non-empty nodes) and has at least 8 recent stale draw packets is
/// replayed, once neither switch is set, an interval is in effect, and no
/// try at this blank or cooldown after a rejected one stands in the way.
/// Without a recent draw stream (under 8 draw writes and under 8 draw
/// packets) the reason is the recent stale stream, and the candidates are
/// the larger of the recent headers and the stale packets.
pub proof fn law_short_sparse_stale_stream_is_replayed(i: UnlinkedPrimitiveReplayInputs)
    requires
        !i.disable_requested,
        !i.force_requested,
        i.replay_interval is Some,
        !spec_attempted_this_vblank(i),
        !spec_in_reject_cooldown(i),
        i.last_nodes < 512,
        i.last_nonempty_nodes <= 32,
        i.recent_stale_draw_candidates >= 8,
    ensures
        spec_replay_decision(i).enabled,
        i.recent_draw_writes < 8 && i.recent_draw_candidates < 8 ==> spec_replay_decision(i).reason
            == UnlinkedPrimitiveReplayReason::ShortLinkedListRecentStalePrimitiveStream
            && spec_replay_decision(i).candidate_headers == (if i.recent_header_count
            >= i.recent_stale_draw_candidates as usize {
            i.recent_header_count
        } else {
            i.recent_stale_draw_candidates as usize
        }),
{
}

} // verus!
