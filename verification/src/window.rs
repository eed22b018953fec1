//! Scaling a display frame to the 512 by 480 window: choosing one field of
//! an interlaced frame when the other is stale, letterboxing to the
//! window's aspect, and stretching a thin band of content vertically.
use vstd::prelude::*;
use vstd::arithmetic::div_mod::lemma_multiply_divide_lt;
use crate::display::{
    at_least_one, native_display_frame_has_caption_stalled_select_ui_artifact,
    native_display_frame_has_glyph_texture_atlas_artifact,
    native_display_frame_has_saturated_logo_transition,
    native_display_frame_has_sparse_title_logo_artifact,
    native_display_frame_has_title_logo_overlay,
    native_display_frame_supports_playable_candidate_with_render_context,
    spec_caption_stalled_select, spec_glyph_texture_atlas, spec_saturated_logo_transition,
    spec_sparse_title_logo, spec_supports_playable, spec_title_logo_overlay,
};
use crate::frame::{
    count_distinct_colors, count_in_rows, count_pixels, distinct_colors, first_occupied,
    frame_count, grid_count, lemma_frame_count_fits, lemma_grid_monotone, lemma_index,
    lemma_row_start, last_occupied, max1, occupied_rows, row_stats, sadd, sat_add, sat_mul, smul,
    FrameView, NativeDisplayFrame, PixelTest,
};

verus! {

/// Width of the window frame.
pub const NATIVE_WINDOW_FRAME_WIDTH: usize = 512;

/// Height of the window frame.
pub const NATIVE_WINDOW_FRAME_HEIGHT: usize = 480;

/// `a * b` on 64-bit counters, or their largest value when that does not
/// fit.
pub open spec fn sat_mul64(a: int, b: int) -> int {
    if a * b > u64::MAX {
        u64::MAX as int
    } else {
        a * b
    }
}

pub open spec fn sat_add64(a: int, b: int) -> int {
    if a + b > u64::MAX {
        u64::MAX as int
    } else {
        a + b
    }
}

pub fn smul64(a: u64, b: u64) -> (r: u64)
    ensures
        r == sat_mul64(a as int, b as int),
{
    match a.checked_mul(b) {
        Some(v) => v,
        None => u64::MAX,
    }
}

pub open spec fn max_int(a: int, b: int) -> int {
    if a >= b {
        a
    } else {
        b
    }
}

pub open spec fn min_int(a: int, b: int) -> int {
    if a <= b {
        a
    } else {
        b
    }
}

/// `a - b`, or zero when `b` is larger.
pub open spec fn sat_sub(a: int, b: int) -> int {
    if a >= b {
        a - b
    } else {
        0
    }
}

/// How much of one field of an interlaced frame is lit, and how busy it is.
#[derive(Clone, Copy, Debug, PartialEq, Eq)]
pub struct NativeWindowFieldProfile {
    pub nonzero: u64,
    pub color_changes: u64,
}

impl NativeWindowFieldProfile {
    pub open spec fn spec_score(self) -> int {
        sat_add64(sat_mul64(self.nonzero as int, 4), sat_mul64(self.color_changes as int, 3))
    }

    /// Four points for each lit pixel and three for each colour change.
    pub fn score(self) -> (r: u64)
        ensures
            r == self.spec_score(),
    {
        smul64(self.nonzero, 4).saturating_add(smul64(self.color_changes, 3))
    }
}

/// The row after the last row of the field of `height` rows at `start`.
pub open spec fn field_end(f: FrameView, start: int, height: int) -> int {
    min_int(sat_add(start, height), f.height as int)
}

pub open spec fn spec_profile(f: FrameView, start: usize, height: usize) -> NativeWindowFieldProfile {
    let end = field_end(f, start as int, height as int);
    if start >= end {
        NativeWindowFieldProfile { nonzero: 0, color_changes: 0 }
    } else {
        NativeWindowFieldProfile {
            nonzero: (grid_count(f, PixelTest::RawNonzero, end) - grid_count(
                f,
                PixelTest::RawNonzero,
                start as int,
            )) as u64,
            color_changes: (grid_count(f, PixelTest::RawChange, end) - grid_count(
                f,
                PixelTest::RawChange,
                start as int,
            )) as u64,
        }
    }
}

/// The lit pixels and colour changes of the rows of the field of `height`
/// rows at `start`, counted on the raw pixels.
pub fn native_window_deinterlace_field_profile(
    frame: &NativeDisplayFrame,
    start: usize,
    height: usize,
) -> (r: NativeWindowFieldProfile)
    requires
        frame@.complete(),
    ensures
        r == spec_profile(frame@, start, height),
{
    let end_candidate = sadd(start, height);
    let end = if end_candidate < frame.height {
        end_candidate
    } else {
        frame.height
    };
    if start >= end {
        return NativeWindowFieldProfile { nonzero: 0, color_changes: 0 };
    }
    let nonzero = count_in_rows(frame, &PixelTest::RawNonzero, start, end);
    let color_changes = count_in_rows(frame, &PixelTest::RawChange, start, end);
    NativeWindowFieldProfile { nonzero: nonzero as u64, color_changes: color_changes as u64 }
}

/// Both fields lit, the weaker one markedly less lit and less busy than the
/// stronger one.
pub open spec fn spec_asymmetric(
    f: FrameView,
    weaker: NativeWindowFieldProfile,
    stronger: NativeWindowFieldProfile,
    field_pixels: u64,
) -> bool {
    &&& sat_mul64(weaker.nonzero as int, 100) >= sat_mul64(field_pixels as int, 5)
    &&& sat_mul64(stronger.nonzero as int, 100) >= sat_mul64(field_pixels as int, 18)
    &&& sat_mul64(weaker.nonzero as int, 20) <= sat_mul64(stronger.nonzero as int, 9)
    &&& sat_mul64(weaker.color_changes as int, 4) <= max_int(
        stronger.color_changes as int,
        f.width as int,
    )
}

pub fn native_window_has_asymmetric_stacked_fields(
    frame: &NativeDisplayFrame,
    weaker: NativeWindowFieldProfile,
    stronger: NativeWindowFieldProfile,
    field_pixels: u64,
) -> (r: bool)
    ensures
        r == spec_asymmetric(frame@, weaker, stronger, field_pixels),
{
    let width = frame.width as u64;
    let busiest = if stronger.color_changes >= width {
        stronger.color_changes
    } else {
        width
    };
    smul64(weaker.nonzero, 100) >= smul64(field_pixels, 5) && smul64(stronger.nonzero, 100)
        >= smul64(field_pixels, 18) && smul64(weaker.nonzero, 20) <= smul64(stronger.nonzero, 9)
        && smul64(weaker.color_changes, 4) <= busiest
}

pub open spec fn half_height(f: FrameView) -> usize {
    max1(f.height as int / 2) as usize
}

pub open spec fn spec_should_deinterlace(f: FrameView) -> bool {
    if f.height < NATIVE_WINDOW_FRAME_HEIGHT {
        false
    } else if spec_caption_stalled_select(f) {
        false
    } else {
        let half = half_height(f);
        let top = spec_profile(f, 0, half);
        let bottom = spec_profile(f, half, half);
        let top_score = top.spec_score();
        let bottom_score = bottom.spec_score();
        let stronger = max_int(top_score, bottom_score);
        let weaker = min_int(top_score, bottom_score);
        let field_pixels = sat_mul(f.width as int, half as int);
        let w = f.width as int;
        if sat_mul64(max_int(top.nonzero as int, bottom.nonzero as int), 100) < sat_mul64(
            field_pixels,
            18,
        ) {
            false
        } else if stronger <= sat_add64(sat_mul64(weaker, 2), 1024) {
            false
        } else {
            let weak = if top_score <= bottom_score {
                top
            } else {
                bottom
            };
            let strong = if top_score <= bottom_score {
                bottom
            } else {
                top
            };
            let blank_limit = max_int(field_pixels / 400, 64);
            let residual_limit = max_int(field_pixels / 32, blank_limit);
            let weak_blank = weak.nonzero <= blank_limit && weak.color_changes <= w;
            let weak_residual = weak.nonzero <= residual_limit && weak.color_changes >= w
                && sat_mul64(weak.color_changes as int, 4) <= max_int(strong.color_changes as int, w);
            ||| spec_asymmetric(f, weak, strong, field_pixels as u64)
            ||| (weak_blank || weak_residual) && sat_mul64(weak.nonzero as int, 8) <= max1(
                strong.nonzero as int,
            ) && sat_mul64(weaker, 8) <= max1(stronger)
        }
    }
}

/// An interlaced frame of window height whose two fields are stacked and
/// one of them is blank, a residue, or much weaker than the other.
pub fn native_window_should_deinterlace_frame(frame: &NativeDisplayFrame) -> (r: bool)
    requires
        frame@.complete(),
    ensures
        r == spec_should_deinterlace(frame@),
{
    if frame.height < NATIVE_WINDOW_FRAME_HEIGHT {
        return false;
    }
    if native_display_frame_has_caption_stalled_select_ui_artifact(frame) {
        return false;
    }
    let half = at_least_one(frame.height / 2);
    let top = native_window_deinterlace_field_profile(frame, 0, half);
    let bottom = native_window_deinterlace_field_profile(frame, half, half);
    let top_score = top.score();
    let bottom_score = bottom.score();
    let stronger = if top_score >= bottom_score {
        top_score
    } else {
        bottom_score
    };
    let weaker = if top_score <= bottom_score {
        top_score
    } else {
        bottom_score
    };
    let field_pixels = smul(frame.width, half) as u64;
    let most_lit = if top.nonzero >= bottom.nonzero {
        top.nonzero
    } else {
        bottom.nonzero
    };
    if smul64(most_lit, 100) < smul64(field_pixels, 18) {
        return false;
    }
    if stronger <= smul64(weaker, 2).saturating_add(1024) {
        return false;
    }
    let (weak, strong) = if top_score <= bottom_score {
        (top, bottom)
    } else {
        (bottom, top)
    };
    let width = frame.width as u64;
    let blank_limit = if field_pixels / 400 >= 64 {
        field_pixels / 400
    } else {
        64
    };
    let residual_limit = if field_pixels / 32 >= blank_limit {
        field_pixels / 32
    } else {
        blank_limit
    };
    let strong_changes = if strong.color_changes >= width {
        strong.color_changes
    } else {
        width
    };
    let weak_blank = weak.nonzero <= blank_limit && weak.color_changes <= width;
    let weak_residual = weak.nonzero <= residual_limit && weak.color_changes >= width && smul64(
        weak.color_changes,
        4,
    ) <= strong_changes;
    let asymmetric = native_window_has_asymmetric_stacked_fields(frame, weak, strong, field_pixels);
    let strong_lit = if strong.nonzero >= 1 {
        strong.nonzero
    } else {
        1
    };
    let stronger_at_least_one = if stronger >= 1 {
        stronger
    } else {
        1
    };
    asymmetric || ((weak_blank || weak_residual) && smul64(weak.nonzero, 8) <= strong_lit && smul64(
        weaker,
        8,
    ) <= stronger_at_least_one)
}

pub open spec fn spec_field_offset(f: FrameView) -> usize {
    let half = half_height(f);
    if spec_profile(f, half, half).spec_score() > spec_profile(f, 0, half).spec_score() {
        half
    } else {
        0
    }
}

/// The first row of the stronger field: the bottom field when it scores
/// higher, else the top.
pub fn native_window_deinterlace_field_offset(frame: &NativeDisplayFrame) -> (r: usize)
    requires
        frame@.complete(),
    ensures
        r == spec_field_offset(frame@),
{
    let half = at_least_one(frame.height / 2);
    let top_score = native_window_deinterlace_field_profile(frame, 0, half).score();
    let bottom_score = native_window_deinterlace_field_profile(frame, half, half).score();
    if bottom_score > top_score {
        half
    } else {
        0
    }
}

pub open spec fn spec_prefers_stronger_stacked_field(f: FrameView) -> bool {
    if !spec_should_deinterlace(f) {
        false
    } else {
        let half = half_height(f);
        let top = spec_profile(f, 0, half);
        let bottom = spec_profile(f, half, half);
        let weak = if top.spec_score() <= bottom.spec_score() {
            top
        } else {
            bottom
        };
        let strong = if top.spec_score() <= bottom.spec_score() {
            bottom
        } else {
            top
        };
        let field_pixels = sat_mul(f.width as int, half as int) as u64;
        spec_asymmetric(f, weak, strong, field_pixels) && !spec_texture_atlas_field(
            f,
            spec_field_offset(f),
        )
    }
}

/// The frame is deinterlaced because both fields are lit but one is
/// markedly stronger, and the stronger field is not a texture atlas.
pub fn native_window_prefers_stronger_stacked_field(frame: &NativeDisplayFrame) -> (r: bool)
    requires
        frame@.complete(),
    ensures
        r == spec_prefers_stronger_stacked_field(frame@),
{
    if !native_window_should_deinterlace_frame(frame) {
        return false;
    }
    let half = at_least_one(frame.height / 2);
    let top = native_window_deinterlace_field_profile(frame, 0, half);
    let bottom = native_window_deinterlace_field_profile(frame, half, half);
    let (weak, strong) = if top.score() <= bottom.score() {
        (top, bottom)
    } else {
        (bottom, top)
    };
    let field_pixels = smul(frame.width, half) as u64;
    let offset = native_window_deinterlace_field_offset(frame);
    native_window_has_asymmetric_stacked_fields(frame, weak, strong, field_pixels)
        && !native_window_deinterlace_field_is_texture_atlas_artifact(frame, offset)
}

// ---------------------------------------------------------------------------
// One field as a frame of its own
pub open spec fn spec_field_pixels(f: FrameView, offset: usize, height: usize) -> Seq<u32> {
    let end = field_end(f, offset as int, height as int);
    if offset < end {
        f.pixels.subrange(offset * f.width, end * f.width)
    } else {
        Seq::empty()
    }
}

pub open spec fn spec_field_frame(f: FrameView, offset: usize, height: usize) -> FrameView {
    FrameView { width: f.width, height, pixels: spec_field_pixels(f, offset, height) }
}

proof fn lemma_mul_le(a: int, b: int, w: int)
    requires
        0 <= a <= b,
        0 <= w,
    ensures
        a * w <= b * w,
        (a + 1) * w == a * w + w,
{
    assert(a * w <= b * w) by (nonlinear_arith)
        requires
            0 <= a <= b,
            0 <= w,
    ;
    assert((a + 1) * w == a * w + w) by (nonlinear_arith);
}

/// The rows of the field of `field_height` rows at `field_offset`, as a
/// frame `field_height` rows high.
pub fn native_window_field_frame(
    frame: &NativeDisplayFrame,
    field_offset: usize,
    field_height: usize,
) -> (r: NativeDisplayFrame)
    requires
        frame@.complete(),
    ensures
        r@ == spec_field_frame(frame@, field_offset, field_height),
{
    let end_candidate = sadd(field_offset, field_height);
    let end = if end_candidate < frame.height {
        end_candidate
    } else {
        frame.height
    };
    let mut pixels: Vec<u32> = Vec::new();
    if field_offset < end {
        let w = frame.width;
        let mut y = field_offset;
        proof {
            lemma_mul_le(field_offset as int, end as int, w as int);
            lemma_mul_le(end as int, frame.height as int, w as int);
        }
        while y < end
            invariant
                frame@.complete(),
                field_offset <= y <= end <= frame.height,
                w == frame.width,
                field_offset * w <= y * w <= end * w <= frame.width * frame.height,
                pixels@ == frame@.pixels.subrange(field_offset * w, y * w),
            decreases end - y,
        {
            proof {
                lemma_row_start(frame@, y as int);
                lemma_mul_le(y as int, y as int, w as int);
                lemma_mul_le(y + 1, end as int, w as int);
            }
            let row = y * w;
            let mut x: usize = 0;
            while x < w
                invariant
                    frame@.complete(),
                    y < frame.height,
                    w == frame.width,
                    row == y * w,
                    row + w <= frame.width * frame.height,
                    field_offset * w <= row,
                    x <= w,
                    pixels@ == frame@.pixels.subrange(field_offset * w, row + x),
                decreases w - x,
            {
                let ghost before = pixels@;
                pixels.push(frame.pixels[row + x]);
                assert(pixels@ =~= frame@.pixels.subrange(field_offset * w, row + x + 1));
                x = x + 1;
            }
            y = y + 1;
        }
    }
    NativeDisplayFrame { width: frame.width, height: field_height, pixels }
}

// ---------------------------------------------------------------------------
// Live scene density and texture atlas fields
pub open spec fn spec_live_scene_density(f: FrameView) -> bool {
    if f.width < 256 || f.height < 200 || !f.complete() {
        false
    } else {
        let w = f.width as int;
        let h = f.height as int;
        let total = max1(sat_mul(w, h));
        let nonzero = frame_count(f, PixelTest::Nonzero) as int;
        let bright = frame_count(f, PixelTest::Bright) as int;
        let changes = frame_count(f, PixelTest::Change) as int;
        let occupied = occupied_rows(f, PixelTest::Nonzero, max1(w / 20), h) as int;
        let unique = distinct_colors(f, PixelTest::Nonzero, 97);
        &&& sat_mul64(nonzero, 100) >= sat_mul64(total, 28)
        &&& sat_mul64(bright, 100) >= sat_mul64(total, 3)
        &&& sat_mul64(changes, 100) >= sat_mul64(total, 4)
        &&& sat_mul64(occupied, 100) >= sat_mul64(h, 45)
        &&& unique >= 32
    }
}

/// A field dense enough to be a live scene: lit, bright, busy, occupied
/// and colourful.
pub fn native_window_field_has_live_scene_density(frame: &NativeDisplayFrame) -> (r: bool)
    ensures
        r == spec_live_scene_density(frame@),
{
    if frame.width < 256 || frame.height < 200 || !frame.is_complete() {
        return false;
    }
    let w = frame.width;
    let h = frame.height;
    let total = at_least_one(smul(w, h)) as u64;
    let nonzero = count_pixels(frame, PixelTest::Nonzero) as u64;
    let bright = count_pixels(frame, PixelTest::Bright) as u64;
    let changes = count_pixels(frame, PixelTest::Change) as u64;
    let occupied = row_stats(frame, &PixelTest::Nonzero, at_least_one(w / 20)).occupied as u64;
    let unique = count_distinct_colors(frame, &PixelTest::Nonzero, 97);
    smul64(nonzero, 100) >= smul64(total, 28) && smul64(bright, 100) >= smul64(total, 3) && smul64(
        changes,
        100,
    ) >= smul64(total, 4) && smul64(occupied, 100) >= smul64(h as u64, 45) && unique >= 32
}

pub open spec fn spec_texture_atlas_field(f: FrameView, offset: usize) -> bool {
    if f.width < 256 || f.height < 240 || f.height % 2 != 0 || !f.complete() {
        false
    } else {
        let half = (f.height / 2) as usize;
        if sat_add(offset as int, half as int) > f.height {
            false
        } else {
            let other_offset: usize = if offset == 0 {
                half
            } else {
                0
            };
            let active = spec_profile(f, offset, half);
            let other = spec_profile(f, other_offset, half);
            let field_pixels = sat_mul(f.width as int, half as int);
            let other_blank = sat_mul64(other.nonzero as int, 100) <= max1(field_pixels) * 3
                && sat_mul64(other.color_changes as int, 100) <= max1(field_pixels) * 4;
            if !other_blank || sat_mul64(active.nonzero as int, 100) < max1(field_pixels) * 15 {
                false
            } else {
                let field = spec_field_frame(f, offset, half);
                if spec_live_scene_density(field) {
                    false
                } else {
                    spec_title_logo_overlay(field) || spec_sparse_title_logo(field)
                        || spec_glyph_texture_atlas(field)
                }
            }
        }
    }
}

proof fn lemma_field_frame_complete(f: FrameView, offset: usize, half: usize)
    requires
        f.complete(),
        offset + half <= f.height,
    ensures
        spec_field_frame(f, offset, half).complete(),
{
    let end = offset + half;
    if offset < end {
        lemma_mul_le(offset as int, end as int, f.width as int);
        lemma_mul_le(end as int, f.height as int, f.width as int);
        assert(end * f.width - offset * f.width == half * f.width) by (nonlinear_arith)
            requires
                end == offset + half,
        ;
        assert(f.width * half == half * f.width) by (nonlinear_arith);
        assert(f.height * f.width == f.width * f.height) by (nonlinear_arith);
        assert(spec_field_pixels(f, offset, half).len() == half * f.width);
    } else {
        assert(half == 0);
        assert(f.width * half == 0) by (nonlinear_arith)
            requires
                half == 0,
        ;
    }
}

/// The chosen field of a stacked interlaced frame is a logo or glyph atlas
/// over a blank or residual other field, not a live scene: it should not
/// be stretched to the whole window.
pub fn native_window_deinterlace_field_is_texture_atlas_artifact(
    frame: &NativeDisplayFrame,
    field_offset: usize,
) -> (r: bool)
    ensures
        r == spec_texture_atlas_field(frame@, field_offset),
{
    if frame.width < 256 || frame.height < 240 || frame.height % 2 != 0 || !frame.is_complete() {
        return false;
    }
    let half = frame.height / 2;
    if sadd(field_offset, half) > frame.height {
        return false;
    }
    let other_offset = if field_offset == 0 {
        half
    } else {
        0
    };
    let active = native_window_deinterlace_field_profile(frame, field_offset, half);
    let other = native_window_deinterlace_field_profile(frame, other_offset, half);
    let field_pixels = smul(frame.width, half);
    let floor = at_least_one(field_pixels) as u128;
    let other_blank = (smul64(other.nonzero, 100) as u128) <= floor * 3 && (smul64(
        other.color_changes,
        100,
    ) as u128) <= floor * 4;
    if !other_blank || (smul64(active.nonzero, 100) as u128) < floor * 15 {
        return false;
    }
    let field = native_window_field_frame(frame, field_offset, half);
    proof {
        lemma_field_frame_complete(frame@, field_offset, half);
    }
    if native_window_field_has_live_scene_density(&field) {
        return false;
    }
    native_display_frame_has_title_logo_overlay(&field)
        || native_display_frame_has_sparse_title_logo_artifact(&field)
        || native_display_frame_has_glyph_texture_atlas_artifact(&field)
}

// ---------------------------------------------------------------------------
// Sparse frames
pub open spec fn spec_text_screen(f: FrameView) -> bool {
    let w = f.width as int;
    let h = f.height as int;
    let total = sat_mul(w, h);
    let unique = distinct_colors(f, PixelTest::Nonzero, 49);
    let changes = frame_count(f, PixelTest::Change) as int;
    let nonzero = frame_count(f, PixelTest::Nonzero) as int;
    let occupied = occupied_rows(f, PixelTest::Nonzero, max1(w / 20), h) as int;
    &&& total > 0
    &&& nonzero > 0
    &&& sat_mul(nonzero, 100) <= sat_mul(total, 45)
    &&& sat_mul(changes, 5) >= max1(nonzero)
    &&& (occupied >= 16 || occupied >= h / 6)
    &&& unique <= 48
    &&& !spec_saturated_logo_transition(f)
}

/// A sparse screen of text: under half lit, with many colour changes for
/// its lit pixels, enough occupied rows and a small palette.
pub fn native_window_sparse_frame_is_text_screen(frame: &NativeDisplayFrame) -> (r: bool)
    requires
        frame@.complete(),
    ensures
        r == spec_text_screen(frame@),
{
    let w = frame.width;
    let h = frame.height;
    let unique = count_distinct_colors(frame, &PixelTest::Nonzero, 49);
    let changes = count_pixels(frame, PixelTest::Change);
    let nonzero = count_pixels(frame, PixelTest::Nonzero);
    let occupied = row_stats(frame, &PixelTest::Nonzero, at_least_one(w / 20)).occupied;
    let total = smul(w, h);
    total > 0 && nonzero > 0 && smul(nonzero, 100) <= smul(total, 45) && smul(changes, 5)
        >= at_least_one(nonzero) && (occupied >= 16 || occupied >= h / 6) && unique <= 48
        && !native_display_frame_has_saturated_logo_transition(frame)
}

pub open spec fn spec_row_bounds(f: FrameView) -> Option<(usize, usize, usize)> {
    let cutoff = max1(f.width as int / 20);
    let h = f.height as int;
    match first_occupied(f, PixelTest::Nonzero, cutoff, h) {
        Some(first) => Some(
            (
                first as usize,
                last_occupied(f, PixelTest::Nonzero, cutoff, h)->0 as usize,
                occupied_rows(f, PixelTest::Nonzero, cutoff, h) as usize,
            ),
        ),
        None => None,
    }
}

/// The first and last rows with a twentieth of their pixels lit, and the
/// number of such rows; none when no row is.
pub fn native_window_occupied_row_bounds(frame: &NativeDisplayFrame) -> (r: Option<
    (usize, usize, usize),
>)
    requires
        frame@.complete(),
    ensures
        r == spec_row_bounds(frame@),
        r matches Some((first, last, occupied)) ==> first <= last < frame.height && occupied
            <= frame.height,
{
    let stats = row_stats(frame, &PixelTest::Nonzero, at_least_one(frame.width / 20));
    match (stats.first, stats.last) {
        (Some(first), Some(last)) => Some((first, last, stats.occupied)),
        _ => None,
    }
}

// ---------------------------------------------------------------------------
// Viewports
pub open spec fn spec_should_stretch(
    source_width: usize,
    source_height: usize,
    target_width: usize,
    target_height: usize,
) -> bool {
    &&& target_width == NATIVE_WINDOW_FRAME_WIDTH
    &&& target_height == NATIVE_WINDOW_FRAME_HEIGHT
    &&& (source_width == 256 || source_width == 320 || source_width == 368 || source_width == 384
        || source_width == 512 || source_width == 640)
    &&& (224 <= source_height <= 256 || source_height == 480)
}

/// A common PS1 video mode shown in the window: stretched to fill it.
pub fn native_window_should_stretch_video_frame(
    source_width: usize,
    source_height: usize,
    target_width: usize,
    target_height: usize,
) -> (r: bool)
    ensures
        r == spec_should_stretch(source_width, source_height, target_width, target_height),
{
    if target_width != NATIVE_WINDOW_FRAME_WIDTH || target_height != NATIVE_WINDOW_FRAME_HEIGHT {
        return false;
    }
    let common_width = source_width == 256 || source_width == 320 || source_width == 368
        || source_width == 384 || source_width == 512 || source_width == 640;
    let common_height = (224 <= source_height && source_height <= 256) || source_height == 480;
    common_width && common_height
}

/// The largest viewport of the source's aspect inside the target, as
/// (width, height), at least one pixel each way.
pub open spec fn spec_fit(sw: int, sh: int, tw: int, th: int) -> (int, int) {
    if sw * th > tw * sh {
        (tw, min_int(max1(tw * sh / sw), th))
    } else {
        (min_int(max1(th * sw / sh), tw), th)
    }
}

pub open spec fn spec_centered(tw: int, th: int, size: (int, int)) -> (usize, usize, usize, usize) {
    (
        ((tw - size.0) / 2) as usize,
        ((th - size.1) / 2) as usize,
        size.0 as usize,
        size.1 as usize,
    )
}

pub open spec fn spec_letterbox_preserving(
    sw: usize,
    sh: usize,
    tw: usize,
    th: usize,
) -> (usize, usize, usize, usize) {
    if sw == 0 || sh == 0 || tw == 0 || th == 0 {
        (0, 0, 0, 0)
    } else {
        spec_centered(tw as int, th as int, spec_fit(sw as int, sh as int, tw as int, th as int))
    }
}

pub open spec fn spec_letterbox(sw: usize, sh: usize, tw: usize, th: usize) -> (
    usize,
    usize,
    usize,
    usize,
) {
    if sw == 0 || sh == 0 || tw == 0 || th == 0 {
        (0, 0, 0, 0)
    } else if spec_should_stretch(sw, sh, tw, th) {
        (0, 0, tw, th)
    } else {
        spec_letterbox_preserving(sw, sh, tw, th)
    }
}

proof fn lemma_product_fits(a: usize, b: usize)
    ensures
        a * b <= u128::MAX,
{
    assert(a <= usize::MAX && b <= usize::MAX && usize::MAX <= 0xffff_ffff_ffff_ffff);
    assert(a * b <= 0xffff_ffff_ffff_ffff * 0xffff_ffff_ffff_ffff) by (nonlinear_arith)
        requires
            a <= 0xffff_ffff_ffff_ffff,
            b <= 0xffff_ffff_ffff_ffff,
    ;
}

#[verifier::spinoff_prover]
fn letterbox_fit(sw: usize, sh: usize, tw: usize, th: usize) -> (r: (usize, usize))
    requires
        sw > 0,
        sh > 0,
        tw > 0,
        th > 0,
    ensures
        (r.0 as int, r.1 as int) == spec_fit(sw as int, sh as int, tw as int, th as int),
        1 <= r.0 <= tw,
        1 <= r.1 <= th,
{
    proof {
        lemma_product_fits(sw, th);
        lemma_product_fits(tw, sh);
    }
    let a = (sw as u128) * (th as u128);
    let b = (tw as u128) * (sh as u128);
    assert(a as int == (sw as int) * (th as int));
    assert(b as int == (tw as int) * (sh as int));
    if a > b {
        let q = b / (sw as u128);
        let q = if q >= 1 {
            q
        } else {
            1
        };
        let height = if q <= th as u128 {
            q as usize
        } else {
            th
        };
        (tw, height)
    } else {
        let q = a / (sh as u128);
        let q = if q >= 1 {
            q
        } else {
            1
        };
        let width = if q <= tw as u128 {
            q as usize
        } else {
            tw
        };
        (width, th)
    }
}

/// The viewport of the source's aspect, centred in the target, as
/// (x, y, width, height); all zero when either size is empty.
pub fn native_window_letterbox_viewport_preserving_aspect(
    source_width: usize,
    source_height: usize,
    target_width: usize,
    target_height: usize,
) -> (r: (usize, usize, usize, usize))
    ensures
        r == spec_letterbox_preserving(source_width, source_height, target_width, target_height),
        r.0 + r.2 <= target_width,
        r.1 + r.3 <= target_height,
{
    if source_width == 0 || source_height == 0 || target_width == 0 || target_height == 0 {
        return (0, 0, 0, 0);
    }
    let (width, height) = letterbox_fit(source_width, source_height, target_width, target_height);
    ((target_width - width) / 2, (target_height - height) / 2, width, height)
}

/// As `native_window_letterbox_viewport_preserving_aspect`, except that a
/// common video mode fills the whole window.
pub fn native_window_letterbox_viewport(
    source_width: usize,
    source_height: usize,
    target_width: usize,
    target_height: usize,
) -> (r: (usize, usize, usize, usize))
    ensures
        r == spec_letterbox(source_width, source_height, target_width, target_height),
        r.0 + r.2 <= target_width,
        r.1 + r.3 <= target_height,
{
    if source_width == 0 || source_height == 0 || target_width == 0 || target_height == 0 {
        return (0, 0, 0, 0);
    }
    if native_window_should_stretch_video_frame(
        source_width,
        source_height,
        target_width,
        target_height,
    ) {
        return (0, 0, target_width, target_height);
    }
    native_window_letterbox_viewport_preserving_aspect(
        source_width,
        source_height,
        target_width,
        target_height,
    )
}

pub open spec fn spec_source_y(
    target_y: int,
    source_height: int,
    target_height: int,
    deinterlace: bool,
    field_offset: int,
) -> int {
    if deinterlace {
        let half = max1(source_height / 2);
        let field_y = min_int(sat_mul(target_y, half) / target_height, half - 1);
        min_int(sat_add(field_offset, field_y), sat_sub(source_height, 1))
    } else {
        let scaled = if target_height == 0 {
            0
        } else {
            sat_mul(target_y, source_height) / target_height
        };
        min_int(scaled, sat_sub(source_height, 1))
    }
}

/// The source row shown on row `target_y` of the viewport: rows of the
/// chosen field when deinterlacing, else rows of the whole source.
pub fn native_window_source_y(
    target_y: usize,
    source_height: usize,
    target_height: usize,
    deinterlace: bool,
    deinterlace_field_offset: usize,
) -> (r: usize)
    requires
        deinterlace ==> target_height > 0,
    ensures
        r == spec_source_y(
            target_y as int,
            source_height as int,
            target_height as int,
            deinterlace,
            deinterlace_field_offset as int,
        ),
        source_height > 0 ==> r < source_height,
{
    let last = source_height.saturating_sub(1);
    if deinterlace {
        let half = at_least_one(source_height / 2);
        let field_y = smul(target_y, half) / target_height;
        let field_y = if field_y <= half - 1 {
            field_y
        } else {
            half - 1
        };
        let y = sadd(deinterlace_field_offset, field_y);
        return if y <= last {
            y
        } else {
            last
        };
    }
    let scaled = if target_height == 0 {
        0
    } else {
        smul(target_y, source_height) / target_height
    };
    if scaled <= last {
        scaled
    } else {
        last
    }
}

// ---------------------------------------------------------------------------
// Vertical expansion of a thin band
pub open spec fn spec_can_expand(f: FrameView, first: int, last: int, occupied: int) -> bool {
    let height = max1(f.height as int);
    let span = sat_add(sat_sub(last, first), 1);
    if first < height / 8 || last > sat_mul(height, 7) / 8 {
        false
    } else if span < height / 5 || occupied < height / 6 {
        false
    } else {
        !spec_sparse_title_logo(f) && !spec_title_logo_overlay(f) && !spec_glyph_texture_atlas(f)
    }
}

/// The band of content between rows `first` and `last` sits inside the
/// middle of the frame, is tall enough and is not a logo or glyph atlas.
pub fn native_window_sparse_vertical_frame_can_expand(
    frame: &NativeDisplayFrame,
    first: usize,
    last: usize,
    occupied_rows: usize,
) -> (r: bool)
    ensures
        r == spec_can_expand(frame@, first as int, last as int, occupied_rows as int),
{
    let height = at_least_one(frame.height);
    let span = sadd(last.saturating_sub(first), 1);
    if first < height / 8 || last > smul(height, 7) / 8 {
        return false;
    }
    if span < height / 5 || occupied_rows < height / 6 {
        return false;
    }
    if native_display_frame_has_sparse_title_logo_artifact(frame)
        || native_display_frame_has_title_logo_overlay(frame)
        || native_display_frame_has_glyph_texture_atlas_artifact(frame) {
        return false;
    }
    true
}

/// The source row of output row `y` when rows `start` to `start + height`
/// are stretched over the frame.
pub open spec fn expand_source_y(f: FrameView, start: int, height: int, y: int) -> int {
    min_int(sat_add(start, sat_mul(y, height) / (f.height as int)), sat_sub(f.height as int, 1))
}

/// Row `y` of a frame.
pub open spec fn row_of(f: FrameView, y: int) -> Seq<u32> {
    f.pixels.subrange(y * f.width, y * f.width + f.width)
}

/// The first `n` rows of the stretched frame.
pub open spec fn spec_expanded_rows(f: FrameView, start: int, height: int, n: int) -> Seq<u32>
    decreases n,
{
    if n <= 0 {
        Seq::empty()
    } else {
        spec_expanded_rows(f, start, height, n - 1) + row_of(
            f,
            expand_source_y(f, start, height, n - 1),
        )
    }
}

pub open spec fn clamp_margin(span: int) -> int {
    let m = span / 12;
    if m < 2 {
        2
    } else if m > 16 {
        16
    } else {
        m
    }
}

pub open spec fn spec_expand(f: FrameView) -> FrameView {
    if f.width == 0 || f.height == 0 || !f.complete() || spec_text_screen(f) {
        f
    } else {
        match spec_row_bounds(f) {
            None => f,
            Some((first, last, occupied)) => {
                let h = f.height as int;
                let span = sat_add(sat_sub(last as int, first as int), 1);
                if span >= sat_mul(h, 45) / 100 || occupied >= h / 2 || span < 8 || !spec_can_expand(
                    f,
                    first as int,
                    last as int,
                    occupied as int,
                ) {
                    f
                } else {
                    let margin = clamp_margin(span);
                    let start = sat_sub(first as int, margin);
                    let end = min_int(sat_add(last as int, margin), sat_sub(h, 1));
                    let height = sat_add(sat_sub(end, start), 1);
                    if height == 0 || height >= sat_mul(h, 3) / 4 {
                        f
                    } else {
                        FrameView {
                            width: f.width,
                            height: f.height,
                            pixels: spec_expanded_rows(f, start, height, h),
                        }
                    }
                }
            },
        }
    }
}

fn copy_frame(frame: &NativeDisplayFrame) -> (r: NativeDisplayFrame)
    ensures
        r@ == frame@,
{
    frame.clone()
}

/// A frame whose content is a thin band in the middle, not text and not a
/// logo, has that band (with a margin) stretched over its whole height;
/// any other frame is returned as it is.
pub fn native_window_expand_sparse_vertical_frame(frame: &NativeDisplayFrame) -> (r:
    NativeDisplayFrame)
    ensures
        r@ == spec_expand(frame@),
{
    if frame.width == 0 || frame.height == 0 || !frame.is_complete()
        || native_window_sparse_frame_is_text_screen(frame) {
        return copy_frame(frame);
    }
    let (first, last, occupied) = match native_window_occupied_row_bounds(frame) {
        Some(bounds) => bounds,
        None => return copy_frame(frame),
    };
    let h = frame.height;
    let w = frame.width;
    let span = sadd(last.saturating_sub(first), 1);
    if span >= smul(h, 45) / 100 || occupied >= h / 2 || span < 8
        || !native_window_sparse_vertical_frame_can_expand(frame, first, last, occupied) {
        return copy_frame(frame);
    }
    let m = span / 12;
    let margin = if m < 2 {
        2
    } else if m > 16 {
        16
    } else {
        m
    };
    let start = first.saturating_sub(margin);
    let end_candidate = sadd(last, margin);
    let end = if end_candidate <= h - 1 {
        end_candidate
    } else {
        h - 1
    };
    let height = sadd(end.saturating_sub(start), 1);
    if height == 0 || height >= smul(h, 3) / 4 {
        return copy_frame(frame);
    }
    let mut pixels: Vec<u32> = Vec::new();
    let mut y: usize = 0;
    while y < h
        invariant
            frame@.complete(),
            w == frame.width,
            h == frame.height,
            h > 0,
            y <= h,
            pixels@ == spec_expanded_rows(frame@, start as int, height as int, y as int),
        decreases h - y,
    {
        let source = sadd(start, smul(y, height) / h);
        let source_y = if source <= h - 1 {
            source
        } else {
            h - 1
        };
        proof {
            lemma_row_start(frame@, source_y as int);
        }
        let row = source_y * w;
        let ghost before = pixels@;
        let mut x: usize = 0;
        while x < w
            invariant
                frame@.complete(),
                w == frame.width,
                source_y < frame.height,
                row == source_y * w,
                row + w <= frame@.pixels.len(),
                x <= w,
                pixels@ == before + frame@.pixels.subrange(row as int, row + x),
            decreases w - x,
        {
            pixels.push(frame.pixels[row + x]);
            assert(pixels@ =~= before + frame@.pixels.subrange(row as int, row + x + 1));
            x = x + 1;
        }
        assert(source_y == expand_source_y(frame@, start as int, height as int, y as int));
        y = y + 1;
    }
    NativeDisplayFrame { width: w, height: h, pixels }
}

// ---------------------------------------------------------------------------
// The window frame
pub open spec fn zeros(n: int) -> Seq<u32> {
    Seq::new(n as nat, |i: int| 0u32)
}

/// Where a frame goes in the window: its viewport, whether one field is
/// shown, and which.
pub struct WindowLayout {
    pub x: usize,
    pub y: usize,
    pub width: usize,
    pub height: usize,
    pub deinterlace: bool,
    pub field_offset: usize,
}

/// Row `ty` of the window before any vertical expansion.
pub open spec fn spec_window_row(f: FrameView, l: WindowLayout, ty: int) -> Seq<u32> {
    if l.y <= ty < l.y + l.height {
        let sy = spec_source_y(
            ty - l.y,
            f.height as int,
            l.height as int,
            l.deinterlace,
            l.field_offset as int,
        );
        zeros(l.x as int) + Seq::new(
            l.width as nat,
            |x: int| f.raw(sat_mul(x, f.width as int) / (l.width as int), sy),
        ) + zeros(NATIVE_WINDOW_FRAME_WIDTH - l.x - l.width)
    } else {
        zeros(NATIVE_WINDOW_FRAME_WIDTH as int)
    }
}

pub open spec fn spec_window_rows(f: FrameView, l: WindowLayout, n: int) -> Seq<u32>
    decreases n,
{
    if n <= 0 {
        Seq::empty()
    } else {
        spec_window_rows(f, l, n - 1) + spec_window_row(f, l, n - 1)
    }
}

pub open spec fn spec_layout(f: FrameView) -> WindowLayout {
    let candidate = spec_should_deinterlace(f);
    let offset: usize = if candidate {
        spec_field_offset(f)
    } else {
        0
    };
    let deinterlace = candidate && !spec_texture_atlas_field(f, offset);
    let layout_height: usize = if deinterlace {
        half_height(f)
    } else {
        f.height
    };
    let viewport = if spec_sparse_title_logo(f) {
        spec_letterbox_preserving(
            f.width,
            layout_height,
            NATIVE_WINDOW_FRAME_WIDTH,
            NATIVE_WINDOW_FRAME_HEIGHT,
        )
    } else {
        spec_letterbox(f.width, layout_height, NATIVE_WINDOW_FRAME_WIDTH, NATIVE_WINDOW_FRAME_HEIGHT)
    };
    WindowLayout {
        x: viewport.0,
        y: viewport.1,
        width: viewport.2,
        height: viewport.3,
        deinterlace,
        field_offset: offset,
    }
}

pub open spec fn spec_window(f: FrameView) -> FrameView {
    let empty = FrameView {
        width: NATIVE_WINDOW_FRAME_WIDTH,
        height: NATIVE_WINDOW_FRAME_HEIGHT,
        pixels: zeros(NATIVE_WINDOW_FRAME_WIDTH * NATIVE_WINDOW_FRAME_HEIGHT),
    };
    if f.width == 0 || f.height == 0 || !f.complete() || f.width * NATIVE_WINDOW_FRAME_WIDTH
        > usize::MAX {
        empty
    } else {
        let scaled = FrameView {
            width: NATIVE_WINDOW_FRAME_WIDTH,
            height: NATIVE_WINDOW_FRAME_HEIGHT,
            pixels: spec_window_rows(f, spec_layout(f), NATIVE_WINDOW_FRAME_HEIGHT as int),
        };
        if spec_sparse_title_logo(f) {
            scaled
        } else {
            spec_expand(scaled)
        }
    }
}

fn push_zeros(pixels: &mut Vec<u32>, n: usize)
    ensures
        final(pixels)@ == old(pixels)@ + zeros(n as int),
{
    let ghost before = pixels@;
    let mut i: usize = 0;
    while i < n
        invariant
            i <= n,
            pixels@ == before + zeros(i as int),
        decreases n - i,
    {
        pixels.push(0);
        assert(pixels@ =~= before + zeros(i + 1));
        i = i + 1;
    }
}

/// A viewport chosen for a non-empty target lies inside it.
pub proof fn lemma_viewport_fits(sw: usize, sh: usize, tw: usize, th: usize)
    ensures
        spec_letterbox_preserving(sw, sh, tw, th).0 + spec_letterbox_preserving(sw, sh, tw, th).2
            <= tw,
        spec_letterbox_preserving(sw, sh, tw, th).1 + spec_letterbox_preserving(sw, sh, tw, th).3
            <= th,
        spec_letterbox(sw, sh, tw, th).0 + spec_letterbox(sw, sh, tw, th).2 <= tw,
        spec_letterbox(sw, sh, tw, th).1 + spec_letterbox(sw, sh, tw, th).3 <= th,
{
    if !(sw == 0 || sh == 0 || tw == 0 || th == 0) {
        let size = spec_fit(sw as int, sh as int, tw as int, th as int);
        assert(1 <= size.0 <= tw && 1 <= size.1 <= th);
    }
}

/// For non-empty source and target, the aspect-preserving viewport is at
/// least one pixel each way, spans the whole target in at least one
/// direction, and is centred: the margins on either side differ by at
/// most one pixel. The letterbox viewport is the whole target for a
/// stretched video mode and the aspect-preserving one otherwise.
pub proof fn law_letterbox_fills_and_centres(sw: usize, sh: usize, tw: usize, th: usize)
    requires
        sw > 0,
        sh > 0,
        tw > 0,
        th > 0,
    ensures
        ({
            let (x, y, w, h) = spec_letterbox_preserving(sw, sh, tw, th);
            &&& 1 <= w <= tw
            &&& 1 <= h <= th
            &&& w == tw || h == th
            &&& tw - w - 2 * x == 0 || tw - w - 2 * x == 1
            &&& th - h - 2 * y == 0 || th - h - 2 * y == 1
        }),
        spec_should_stretch(sw, sh, tw, th) ==> spec_letterbox(sw, sh, tw, th) == (0usize, 0usize, tw, th),
        !spec_should_stretch(sw, sh, tw, th) ==> spec_letterbox(sw, sh, tw, th)
            == spec_letterbox_preserving(sw, sh, tw, th),
{
    let size = spec_fit(sw as int, sh as int, tw as int, th as int);
    assert(1 <= size.0 <= tw && 1 <= size.1 <= th);
}

/// The layout of a complete frame puts its viewport inside the window.
pub proof fn lemma_layout_fits(f: FrameView)
    ensures
        spec_layout(f).x + spec_layout(f).width <= NATIVE_WINDOW_FRAME_WIDTH,
        spec_layout(f).y + spec_layout(f).height <= NATIVE_WINDOW_FRAME_HEIGHT,
{
    let candidate = spec_should_deinterlace(f);
    let offset: usize = if candidate {
        spec_field_offset(f)
    } else {
        0
    };
    let deinterlace = candidate && !spec_texture_atlas_field(f, offset);
    let layout_height: usize = if deinterlace {
        half_height(f)
    } else {
        f.height
    };
    lemma_viewport_fits(f.width, layout_height, NATIVE_WINDOW_FRAME_WIDTH, NATIVE_WINDOW_FRAME_HEIGHT);
}

pub proof fn lemma_rows_len(f: FrameView, l: WindowLayout, n: int)
    requires
        0 <= n,
        l.x + l.width <= NATIVE_WINDOW_FRAME_WIDTH,
    ensures
        spec_window_rows(f, l, n).len() == n * NATIVE_WINDOW_FRAME_WIDTH,
    decreases n,
{
    if n > 0 {
        lemma_rows_len(f, l, n - 1);
    }
}

proof fn lemma_scaled_column(x: int, w: int, vw: int)
    requires
        0 <= x < vw,
        0 < w,
        x * w <= usize::MAX,
    ensures
        sat_mul(x, w) / vw < w,
        sat_mul(x, w) == x * w,
{
    assert(x * w < vw * w) by (nonlinear_arith)
        requires
            0 <= x < vw,
            0 < w,
    ;
    assert(vw * w == w * vw) by (nonlinear_arith);
    lemma_multiply_divide_lt(x * w, vw, w);
}

fn window_layout(frame: &NativeDisplayFrame) -> (r: WindowLayout)
    requires
        frame@.complete(),
        frame.width > 0,
        frame.height > 0,
    ensures
        r == spec_layout(frame@),
        r.x + r.width <= NATIVE_WINDOW_FRAME_WIDTH,
        r.y + r.height <= NATIVE_WINDOW_FRAME_HEIGHT,
{
    let candidate = native_window_should_deinterlace_frame(frame);
    let offset = if candidate {
        native_window_deinterlace_field_offset(frame)
    } else {
        0
    };
    let deinterlace = candidate && !native_window_deinterlace_field_is_texture_atlas_artifact(
        frame,
        offset,
    );
    let layout_height = if deinterlace {
        at_least_one(frame.height / 2)
    } else {
        frame.height
    };
    let viewport = if native_display_frame_has_sparse_title_logo_artifact(frame) {
        native_window_letterbox_viewport_preserving_aspect(
            frame.width,
            layout_height,
            NATIVE_WINDOW_FRAME_WIDTH,
            NATIVE_WINDOW_FRAME_HEIGHT,
        )
    } else {
        native_window_letterbox_viewport(
            frame.width,
            layout_height,
            NATIVE_WINDOW_FRAME_WIDTH,
            NATIVE_WINDOW_FRAME_HEIGHT,
        )
    };
    WindowLayout {
        x: viewport.0,
        y: viewport.1,
        width: viewport.2,
        height: viewport.3,
        deinterlace,
        field_offset: offset,
    }
}

fn scale_to_window(frame: &NativeDisplayFrame, layout: &WindowLayout) -> (r: NativeDisplayFrame)
    requires
        frame@.complete(),
        frame.width > 0,
        frame.height > 0,
        frame.width * NATIVE_WINDOW_FRAME_WIDTH <= usize::MAX,
        layout.x + layout.width <= NATIVE_WINDOW_FRAME_WIDTH,
        layout.y + layout.height <= NATIVE_WINDOW_FRAME_HEIGHT,
    ensures
        r.width == NATIVE_WINDOW_FRAME_WIDTH,
        r.height == NATIVE_WINDOW_FRAME_HEIGHT,
        r@.pixels == spec_window_rows(frame@, *layout, NATIVE_WINDOW_FRAME_HEIGHT as int),
        r@.complete(),
{
    let w = frame.width;
    let mut pixels: Vec<u32> = Vec::new();
    let mut ty: usize = 0;
    while ty < NATIVE_WINDOW_FRAME_HEIGHT
        invariant
            frame@.complete(),
            w == frame.width,
            w > 0,
            frame.height > 0,
            w * NATIVE_WINDOW_FRAME_WIDTH <= usize::MAX,
            layout.x + layout.width <= NATIVE_WINDOW_FRAME_WIDTH,
            layout.y + layout.height <= NATIVE_WINDOW_FRAME_HEIGHT,
            ty <= NATIVE_WINDOW_FRAME_HEIGHT,
            pixels@ == spec_window_rows(frame@, *layout, ty as int),
        decreases NATIVE_WINDOW_FRAME_HEIGHT - ty,
    {
        let ghost before = pixels@;
        if layout.y <= ty && ty < layout.y + layout.height {
            let source_y = native_window_source_y(
                ty - layout.y,
                frame.height,
                layout.height,
                layout.deinterlace,
                layout.field_offset,
            );
            proof {
                lemma_row_start(frame@, source_y as int);
            }
            let row = source_y * w;
            push_zeros(&mut pixels, layout.x);
            let ghost mid = pixels@;
            let mut x: usize = 0;
            while x < layout.width
                invariant
                    frame@.complete(),
                    w == frame.width,
                    w > 0,
                    w * NATIVE_WINDOW_FRAME_WIDTH <= usize::MAX,
                    layout.x + layout.width <= NATIVE_WINDOW_FRAME_WIDTH,
                    source_y < frame.height,
                    row == source_y * w,
                    row + w <= frame@.pixels.len(),
                    x <= layout.width,
                    pixels@ == mid + Seq::new(
                        x as nat,
                        |i: int| frame@.raw(sat_mul(i, w as int) / (layout.width as int), source_y as int),
                    ),
                decreases layout.width - x,
            {
                proof {
                    assert(x * w <= usize::MAX) by (nonlinear_arith)
                        requires
                            x < NATIVE_WINDOW_FRAME_WIDTH,
                            w * NATIVE_WINDOW_FRAME_WIDTH <= usize::MAX,
                    ;
                    lemma_scaled_column(x as int, w as int, layout.width as int);
                }
                let source_x = smul(x, w) / layout.width;
                pixels.push(frame.pixels[row + source_x]);
                assert(pixels@ =~= mid + Seq::new(
                    (x + 1) as nat,
                    |i: int| frame@.raw(sat_mul(i, w as int) / (layout.width as int), source_y as int),
                ));
                x = x + 1;
            }
            push_zeros(&mut pixels, NATIVE_WINDOW_FRAME_WIDTH - layout.x - layout.width);
            assert(pixels@ =~= before + spec_window_row(frame@, *layout, ty as int));
        } else {
            push_zeros(&mut pixels, NATIVE_WINDOW_FRAME_WIDTH);
            assert(pixels@ =~= before + spec_window_row(frame@, *layout, ty as int));
        }
        ty = ty + 1;
    }
    proof {
        lemma_rows_len(frame@, *layout, NATIVE_WINDOW_FRAME_HEIGHT as int);
    }
    NativeDisplayFrame {
        width: NATIVE_WINDOW_FRAME_WIDTH,
        height: NATIVE_WINDOW_FRAME_HEIGHT,
        pixels,
    }
}

/// The frame as shown in the 512 by 480 window: one field of a stacked
/// interlaced frame when the other is stale, letterboxed (a common video
/// mode stretched), and a thin band of content stretched vertically unless
/// the frame is the sparse title logo. An empty or incomplete frame gives a
/// black window, and so does a frame too wide to scale column by column in
/// the address space (no such frame fits in memory).
pub fn native_window_frame_from_display(frame: &NativeDisplayFrame) -> (r: NativeDisplayFrame)
    ensures
        r@ == spec_window(frame@),
{
    if frame.width == 0 || frame.height == 0 || !frame.is_complete() || frame.width > usize::MAX
        / NATIVE_WINDOW_FRAME_WIDTH {
        let mut pixels: Vec<u32> = Vec::new();
        push_zeros(&mut pixels, NATIVE_WINDOW_FRAME_WIDTH * NATIVE_WINDOW_FRAME_HEIGHT);
        assert(pixels@ =~= zeros(NATIVE_WINDOW_FRAME_WIDTH * NATIVE_WINDOW_FRAME_HEIGHT));
        return NativeDisplayFrame {
            width: NATIVE_WINDOW_FRAME_WIDTH,
            height: NATIVE_WINDOW_FRAME_HEIGHT,
            pixels,
        };
    }
    let layout = window_layout(frame);
    let scaled = scale_to_window(frame, &layout);
    if native_display_frame_has_sparse_title_logo_artifact(frame) {
        return scaled;
    }
    native_window_expand_sparse_vertical_frame(&scaled)
}

pub open spec fn spec_frame_or_window_supports_playable(f: FrameView, render_context_allows_periodic: bool) -> bool {
    spec_supports_playable(f, render_context_allows_periodic) || spec_supports_playable(
        spec_window(f),
        render_context_allows_periodic,
    )
}

/// The frame, or failing that its window rendition, can show gameplay.
pub fn native_display_frame_or_window_supports_playable_candidate_with_render_context(
    frame: &NativeDisplayFrame,
    render_context_allows_periodic: bool,
) -> (r: bool)
    ensures
        r == spec_frame_or_window_supports_playable(frame@, render_context_allows_periodic),
{
    if native_display_frame_supports_playable_candidate_with_render_context(
        frame,
        render_context_allows_periodic,
    ) {
        return true;
    }
    let window = native_window_frame_from_display(frame);
    native_display_frame_supports_playable_candidate_with_render_context(
        &window,
        render_context_allows_periodic,
    )
}

} // verus!
