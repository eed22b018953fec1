//! Rules of the game-facing backend that do not need the emulator core:
//! when a run counts as playable, the replay settings it runs with, and how
//! the HUD meters are read off the window frame.
use vstd::prelude::*;
use crate::buttons::ActionButtons;
use crate::frame::{blue, green, red, FrameView, NativeDisplayFrame};

verus! {

/// Width of the frame the HUD is read from.
pub const NATIVE_HUD_WIDTH: usize = 512;
/// Height of the frame the HUD is read from.
pub const NATIVE_HUD_HEIGHT: usize = 480;

/// Playable when the emulator says so, or when a playable startup was
/// reached, the game accepted the start and the runtime is running.
pub fn native_backend_playable_candidate(
    emulator_candidate: bool,
    startup_playable: bool,
    game_start_accepted: bool,
    runtime_running: bool,
) -> (r: bool)
    ensures
        r == (emulator_candidate || (startup_playable && game_start_accepted && runtime_running)),
{
    emulator_candidate || (startup_playable && game_start_accepted && runtime_running)
}

/// How the game advanced since the last observation.
#[derive(Clone, Copy, Debug, PartialEq, Eq, Structural)]
pub struct NativeObservationProgress {
    pub vblank_delta: u64,
    pub frame_changed: bool,
    pub draw_progressed: bool,
    pub render_progressing: bool,
    pub effects_requested: bool,
    pub effects_progressing: bool,
}

pub open spec fn spec_attack_requested(b: ActionButtons) -> bool {
    b.punch || b.kick || b.beast
}

/// The progress between two observations: the vertical blanks passed
/// (saturating), whether the frame's checksum changed since a previous
/// one, whether drawing advanced, whether rendering progresses (blanks
/// passed and the frame changed or drawing advanced), and whether attacks
/// were asked of either player while it did.
pub open spec fn spec_observation_progress(
    p1: ActionButtons,
    p2: ActionButtons,
    current_vblank: u64,
    last_vblank: u64,
    current_draw_sequence: u64,
    last_draw_sequence: u64,
    frame_checksum: u64,
    last_frame_checksum: Option<u64>,
) -> NativeObservationProgress {
    let vblank_delta = if current_vblank >= last_vblank {
        (current_vblank - last_vblank) as u64
    } else {
        0
    };
    let frame_changed = last_frame_checksum matches Some(previous) && previous != frame_checksum;
    let draw_progressed = current_draw_sequence > last_draw_sequence;
    let render_progressing = vblank_delta > 0 && (frame_changed || draw_progressed);
    let effects_requested = spec_attack_requested(p1) || spec_attack_requested(p2);
    NativeObservationProgress {
        vblank_delta,
        frame_changed,
        draw_progressed,
        render_progressing,
        effects_requested,
        effects_progressing: effects_requested && render_progressing,
    }
}

pub fn native_observation_progress(
    p1: &ActionButtons,
    p2: &ActionButtons,
    current_vblank: u64,
    last_vblank: u64,
    current_draw_sequence: u64,
    last_draw_sequence: u64,
    frame_checksum: u64,
    last_frame_checksum: Option<u64>,
) -> (r: NativeObservationProgress)
    ensures
        r == spec_observation_progress(
            *p1,
            *p2,
            current_vblank,
            last_vblank,
            current_draw_sequence,
            last_draw_sequence,
            frame_checksum,
            last_frame_checksum,
        ),
{
    let vblank_delta = current_vblank.saturating_sub(last_vblank);
    let frame_changed = match last_frame_checksum {
        Some(previous) => previous != frame_checksum,
        None => false,
    };
    let draw_progressed = current_draw_sequence > last_draw_sequence;
    let render_progressing = vblank_delta > 0 && (frame_changed || draw_progressed);
    let effects_requested = p1.punch || p1.kick || p1.beast || p2.punch || p2.kick || p2.beast;
    NativeObservationProgress {
        vblank_delta,
        frame_changed,
        draw_progressed,
        render_progressing,
        effects_requested,
        effects_progressing: effects_requested && render_progressing,
    }
}

/// Between two observations: the blanks passed are the difference of the
/// counters, or none when the counter went back; once a blank has passed,
/// rendering progresses whenever drawing advanced, whatever the checksum
/// did, and whenever the checksum differs from a previous one, and it
/// progresses in no other case; attack effects progress exactly when
/// either player asks for punch, kick or beast while rendering progresses.
pub proof fn law_observation_progress(
    p1: ActionButtons,
    p2: ActionButtons,
    current_vblank: u64,
    last_vblank: u64,
    current_draw_sequence: u64,
    last_draw_sequence: u64,
    frame_checksum: u64,
    last_frame_checksum: Option<u64>,
)
    ensures
        ({
            let r = spec_observation_progress(
                p1,
                p2,
                current_vblank,
                last_vblank,
                current_draw_sequence,
                last_draw_sequence,
                frame_checksum,
                last_frame_checksum,
            );
            let checksum_changed = last_frame_checksum is Some && last_frame_checksum->0
                != frame_checksum;
            let attack = p1.punch || p1.kick || p1.beast || p2.punch || p2.kick || p2.beast;
            &&& r.vblank_delta == (if current_vblank >= last_vblank {
                current_vblank - last_vblank
            } else {
                0
            })
            &&& current_vblank > last_vblank && current_draw_sequence > last_draw_sequence
                ==> r.render_progressing
            &&& current_vblank > last_vblank && checksum_changed ==> r.render_progressing
            &&& r.render_progressing ==> current_vblank > last_vblank && (current_draw_sequence
                > last_draw_sequence || checksum_changed)
            &&& r.draw_progressed == (current_draw_sequence > last_draw_sequence)
            &&& r.frame_changed == checksum_changed
            &&& r.effects_requested == attack
            &&& r.effects_progressing == (attack && r.render_progressing)
        }),
{
}

/// The backend keeps automatic primitive replay on, with no fixed interval:
/// only the stale and sparse-scene rules can trigger it.
pub fn native_backend_unlinked_primitive_replay_settings() -> (r: (bool, Option<u64>))
    ensures
        r == (true, Option::<u64>::None),
{
    (true, None)
}

pub open spec fn spec_hud_meter_pixel(pixel: u32) -> bool {
    let r = red(pixel) as int;
    let g = green(pixel) as int;
    let b = blue(pixel) as int;
    let maximum = if r >= g && r >= b {
        r
    } else if g >= b {
        g
    } else {
        b
    };
    let minimum = if r <= g && r <= b {
        r
    } else if g <= b {
        g
    } else {
        b
    };
    maximum >= 80 && maximum - minimum >= 24 && (r >= b + 20 || g >= b + 20)
}

/// A lit, coloured meter pixel: bright enough, saturated enough, and red or
/// green rather than blue.
pub fn native_hud_meter_pixel(pixel: u32) -> (r: bool)
    ensures
        r == spec_hud_meter_pixel(pixel),
{
    proof {
        crate::frame::lemma_channels(pixel);
    }
    let red = ((pixel >> 16) & 0xff) as i32;
    let green = ((pixel >> 8) & 0xff) as i32;
    let blue = (pixel & 0xff) as i32;
    let maximum = if red >= green && red >= blue {
        red
    } else if green >= blue {
        green
    } else {
        blue
    };
    let minimum = if red <= green && red <= blue {
        red
    } else if green <= blue {
        green
    } else {
        blue
    };
    maximum >= 80 && maximum - minimum >= 24 && (red >= blue + 20 || green >= blue + 20)
}

/// Grey pixels, dark pixels (every channel under 80) and pixels where blue
/// is the brightest channel are never meter pixels; a pixel whose red (or
/// green) channel is at least 80, at least as bright as the other two, and
/// at least 24 above blue always is.
pub proof fn law_hud_meter_pixel(pixel: u32)
    ensures
        red(pixel) == green(pixel) && green(pixel) == blue(pixel) ==> !spec_hud_meter_pixel(pixel),
        red(pixel) < 80 && green(pixel) < 80 && blue(pixel) < 80 ==> !spec_hud_meter_pixel(pixel),
        blue(pixel) >= red(pixel) && blue(pixel) >= green(pixel) ==> !spec_hud_meter_pixel(pixel),
        red(pixel) >= 80 && red(pixel) >= green(pixel) && red(pixel) >= blue(pixel) + 24
            ==> spec_hud_meter_pixel(pixel),
        green(pixel) >= 80 && green(pixel) >= red(pixel) && green(pixel) >= blue(pixel) + 24
            ==> spec_hud_meter_pixel(pixel),
{
    crate::frame::lemma_channels(pixel);
}

/// The meter pixels of column `x` in rows `y_start` up to `y`.
pub open spec fn meter_rows(f: FrameView, x: int, y_start: int, y: int) -> nat
    decreases y - y_start,
{
    if y <= y_start {
        0
    } else {
        meter_rows(f, x, y_start, y - 1) + if spec_hud_meter_pixel(f.raw(x, y - 1)) {
            1nat
        } else {
            0nat
        }
    }
}

/// The columns from `x_start` up to `x` with meter pixels in at least half
/// of rows `y_start` to `y_end`.
pub open spec fn active_columns(f: FrameView, x_start: int, x: int, y_start: int, y_end: int) -> nat
    decreases x - x_start,
{
    if x <= x_start {
        0
    } else {
        active_columns(f, x_start, x - 1, y_start, y_end) + if meter_rows(f, x - 1, y_start, y_end)
            * 2 >= y_end - y_start {
            1nat
        } else {
            0nat
        }
    }
}

/// The frame can show the HUD and both ranges hold something.
pub open spec fn spec_hud_readable(f: FrameView, x_start: usize, x_end: usize, y_start: usize, y_end: usize) -> bool {
    &&& f.width >= NATIVE_HUD_WIDTH
    &&& f.height >= NATIVE_HUD_HEIGHT
    &&& f.complete()
    &&& x_start < x_end
    &&& y_start < y_end
}

pub proof fn lemma_meter_rows_bound(f: FrameView, x: int, y_start: int, y: int)
    ensures
        y >= y_start ==> meter_rows(f, x, y_start, y) <= y - y_start,
    decreases y - y_start,
{
    if y > y_start {
        lemma_meter_rows_bound(f, x, y_start, y - 1);
    }
}

pub proof fn lemma_active_columns_bound(f: FrameView, x_start: int, x: int, y_start: int, y_end: int)
    ensures
        x >= x_start ==> active_columns(f, x_start, x, y_start, y_end) <= x - x_start,
    decreases x - x_start,
{
    if x > x_start {
        lemma_active_columns_bound(f, x_start, x - 1, y_start, y_end);
    }
}

/// The number of columns of the meter in columns `x_start..x_end` that are
/// lit in at least half of rows `y_start..y_end`; none when the frame is
/// smaller than the HUD, incomplete, or a range is empty. The meter's fill
/// is this count over the range's width.
pub fn native_hud_active_columns(
    frame: &NativeDisplayFrame,
    x_start: usize,
    x_end: usize,
    y_start: usize,
    y_end: usize,
) -> (r: Option<usize>)
    requires
        spec_hud_readable(frame@, x_start, x_end, y_start, y_end) ==> (y_end - 1) * frame.width + (
        x_end - 1) < frame.pixels.len(),
    ensures
        r == if spec_hud_readable(frame@, x_start, x_end, y_start, y_end) {
            Some(active_columns(frame@, x_start as int, x_end as int, y_start as int, y_end as int) as usize)
        } else {
            None::<usize>
        },
{
    if frame.width < NATIVE_HUD_WIDTH || frame.height < NATIVE_HUD_HEIGHT || !frame.is_complete()
        || x_start >= x_end || y_start >= y_end {
        return None;
    }
    let w = frame.width;
    let rows = y_end - y_start;
    let mut columns: usize = 0;
    let mut x = x_start;
    while x < x_end
        invariant
            spec_hud_readable(frame@, x_start, x_end, y_start, y_end),
            (y_end - 1) * frame.width + (x_end - 1) < frame.pixels.len(),
            w == frame.width,
            rows == y_end - y_start,
            x_start <= x <= x_end,
            columns == active_columns(frame@, x_start as int, x as int, y_start as int, y_end as int),
        decreases x_end - x,
    {
        proof {
            lemma_active_columns_bound(frame@, x_start as int, x as int, y_start as int, y_end as int);
        }
        let mut active: usize = 0;
        let mut y = y_start;
        while y < y_end
            invariant
                spec_hud_readable(frame@, x_start, x_end, y_start, y_end),
                (y_end - 1) * frame.width + (x_end - 1) < frame.pixels.len(),
                w == frame.width,
                x_start <= x < x_end,
                y_start <= y <= y_end,
                active == meter_rows(frame@, x as int, y_start as int, y as int),
            decreases y_end - y,
        {
            proof {
                lemma_meter_rows_bound(frame@, x as int, y_start as int, y as int);
                assert(y * w + x <= (y_end - 1) * w + (x_end - 1)) by (nonlinear_arith)
                    requires
                        y <= y_end - 1,
                        x <= x_end - 1,
                        w >= 0,
                ;
            }
            if native_hud_meter_pixel(frame.pixels[y * w + x]) {
                active = active + 1;
            }
            y = y + 1;
        }
        proof {
            lemma_meter_rows_bound(frame@, x as int, y_start as int, y_end as int);
            assert((y_end - 1) * 512 <= (y_end - 1) * w) by (nonlinear_arith)
                requires
                    y_end >= 1,
                    w >= 512,
            ;
        }
        if active * 2 >= rows {
            columns = columns + 1;
        }
        x = x + 1;
    }
    Some(columns)
}

} // verus!
