//! Heuristics that tell a frame showing live gameplay from the title logo,
//! attract-mode captions, texture-page fragments, glyph atlases, colour
//! floods of logo transitions and the periodic ghosting of a stalled movie.
//!
//! Each one is a statement about pixel counts of the frame (see `frame`);
//! the comparisons multiply with saturation, as the counts do not always
//! fit otherwise. The debugging override that let saturated colour floods
//! pass is not part of this library: such frames are always flagged.
use vstd::prelude::*;
use crate::frame::{
    count_distinct_colors, count_dominant_bucket, count_pixels, distinct_colors, dominant_bucket,
    frame_count, max1, occupied_rows, occupied_span, row_stats, sadd, sat_add, sat_mul, smul,
    span_of, FrameView, NativeDisplayFrame, PixelTest,
};

verus! {

/// `a` when it is at least one, else one.
pub fn at_least_one(a: usize) -> (r: usize)
    ensures
        r == max1(a as int),
{
    if a >= 1 {
        a
    } else {
        1
    }
}

pub open spec fn fc(f: FrameView, t: PixelTest) -> int {
    frame_count(f, t) as int
}

// ---------------------------------------------------------------------------
// Visible detail
pub open spec fn spec_visible_detail(f: FrameView) -> bool {
    if f.width == 0 || f.height == 0 || !f.complete() {
        false
    } else {
        let total = sat_mul(f.width as int, f.height as int);
        let sampled = distinct_colors(
            f,
            PixelTest::Sampled {
                x_step: max1(f.width as int / 16) as usize,
                y_step: max1(f.height as int / 16) as usize,
            },
            32,
        );
        &&& sat_mul(fc(f, PixelTest::Nonzero), 100) >= sat_mul(total, 10)
        &&& sat_mul(fc(f, PixelTest::Change), 100) >= total
        &&& sampled >= 4
    }
}

/// The frame shows something: a tenth of it lit, colour changes along
/// its rows, and at least four colours among sixteen by sixteen samples.
pub fn native_display_frame_has_visible_detail(frame: &NativeDisplayFrame) -> (r: bool)
    ensures
        r == spec_visible_detail(frame@),
{
    if frame.width == 0 || frame.height == 0 || !frame.is_complete() {
        return false;
    }
    let nonzero = count_pixels(frame, PixelTest::Nonzero);
    let changes = count_pixels(frame, PixelTest::Change);
    let x_step = at_least_one(frame.width / 16);
    let y_step = at_least_one(frame.height / 16);
    let sampled = count_distinct_colors(frame, &PixelTest::Sampled { x_step, y_step }, 32);
    let total = smul(frame.width, frame.height);
    smul(nonzero, 100) >= smul(total, 10) && smul(changes, 100) >= total && sampled >= 4
}

// ---------------------------------------------------------------------------
// Caption-stalled select screen
pub open spec fn spec_caption_stalled_select(f: FrameView) -> bool {
    if f.width < 512 || f.height < 240 || !f.complete() {
        false
    } else {
        let w = f.width as int;
        let h = f.height as int;
        let warning = PixelTest::WarningText {
            x_start: (w / 20) as usize,
            x_end: (sat_mul(w, 48) / 100) as usize,
            y_start: (h / 12) as usize,
            y_end: (sat_mul(h, 38) / 100) as usize,
        };
        let warning_cutoff = if w / 80 >= 6 {
            w / 80
        } else {
            6
        };
        let band_start = (sat_mul(h, 4) / 5) as usize;
        let nonzero = fc(f, PixelTest::Nonzero);
        let black = fc(f, PixelTest::Zero);
        let warm = fc(f, PixelTest::Warm);
        let red_dominant = fc(f, PixelTest::RedDominant);
        let changes = fc(f, PixelTest::Change);
        let warning_rows = occupied_rows(f, warning, warning_cutoff, h) as int;
        let caption = fc(f, PixelTest::BottomCaption { y_start: band_start });
        let dark = fc(f, PixelTest::BottomDark { y_start: band_start });
        let unique = distinct_colors(f, PixelTest::Any, 257);
        let span = occupied_span(f, PixelTest::Nonzero, max1(w / 20));
        let dominant = dominant_bucket(f);
        let total = sat_mul(w, h);
        let band = sat_mul(w, max1(h / 5));
        let visible = sat_mul(nonzero, 100) >= total && unique >= 2;
        let scene = visible && unique >= 64 && sat_mul(changes, 30) >= total;
        let caption_band = sat_mul(caption, 1000) >= sat_mul(total, 3) && sat_mul(dark, 100)
            >= sat_mul(band, 5);
        let dark_subtitle = sat_mul(dark, 100) >= sat_mul(band, 30) && sat_mul(caption, 100)
            <= sat_mul(band, 35);
        let bright_panel = sat_mul(caption, 100) >= sat_mul(band, 70) && sat_mul(dark, 100)
            >= sat_mul(band, 4);
        let intro = caption_band && (dark_subtitle || bright_panel);
        &&& band > 0
        &&& scene
        &&& caption_band
        &&& intro
        &&& 192 <= unique <= 320
        &&& sat_mul(nonzero, 100) >= sat_mul(total, 55)
        &&& sat_mul(nonzero, 100) <= sat_mul(total, 66)
        &&& sat_mul(black, 100) >= sat_mul(total, 34)
        &&& sat_mul(black, 100) <= sat_mul(total, 45)
        &&& sat_mul(red_dominant, 100) >= sat_mul(total, 12)
        &&& sat_mul(red_dominant, 100) <= sat_mul(total, 22)
        &&& sat_mul(warm, 100) <= sat_mul(total, 8)
        &&& sat_mul(dominant, 100) >= sat_mul(total, 40)
        &&& sat_mul(dominant, 100) <= sat_mul(total, 50)
        &&& sat_mul(changes, 100) >= sat_mul(total, 32)
        &&& sat_mul(changes, 100) <= sat_mul(total, 46)
        &&& sat_mul(span, 100) >= sat_mul(h, 95)
        &&& sat_mul(dark, 100) >= sat_mul(band, 80)
        &&& sat_mul(dark, 100) <= sat_mul(band, 95)
        &&& sat_mul(caption, 1000) >= sat_mul(total, 4)
        &&& sat_mul(caption, 1000) <= sat_mul(total, 10)
        &&& warning_rows <= (if h / 32 >= 8 {
            h / 32
        } else {
            8
        })
    }
}

/// A character-select screen stalled behind an intro caption: a dense,
/// reddish scene with a dark subtitle band at the bottom and no warning
/// text in the top left.
pub fn native_display_frame_has_caption_stalled_select_ui_artifact(frame: &NativeDisplayFrame) -> (r:
    bool)
    ensures
        r == spec_caption_stalled_select(frame@),
{
    if frame.width < 512 || frame.height < 240 || !frame.is_complete() {
        return false;
    }
    let w = frame.width;
    let h = frame.height;
    let warning = PixelTest::WarningText {
        x_start: w / 20,
        x_end: smul(w, 48) / 100,
        y_start: h / 12,
        y_end: smul(h, 38) / 100,
    };
    let warning_cutoff = if w / 80 >= 6 {
        w / 80
    } else {
        6
    };
    let band_start = smul(h, 4) / 5;
    let nonzero = count_pixels(frame, PixelTest::Nonzero);
    let black = count_pixels(frame, PixelTest::Zero);
    let warm = count_pixels(frame, PixelTest::Warm);
    let red_dominant = count_pixels(frame, PixelTest::RedDominant);
    let changes = count_pixels(frame, PixelTest::Change);
    let warning_rows = row_stats(frame, &warning, warning_cutoff).occupied;
    let caption = count_pixels(frame, PixelTest::BottomCaption { y_start: band_start });
    let dark = count_pixels(frame, PixelTest::BottomDark { y_start: band_start });
    let unique = count_distinct_colors(frame, &PixelTest::Any, 257);
    let rows = row_stats(frame, &PixelTest::Nonzero, at_least_one(w / 20));
    let span = span_of(&rows);
    let dominant = count_dominant_bucket(frame);
    let total = smul(w, h);
    let band = smul(w, at_least_one(h / 5));
    let visible = smul(nonzero, 100) >= total && unique >= 2;
    let scene = visible && unique >= 64 && smul(changes, 30) >= total;
    let caption_band = smul(caption, 1000) >= smul(total, 3) && smul(dark, 100) >= smul(band, 5);
    let dark_subtitle = smul(dark, 100) >= smul(band, 30) && smul(caption, 100) <= smul(band, 35);
    let bright_panel = smul(caption, 100) >= smul(band, 70) && smul(dark, 100) >= smul(band, 4);
    let intro = caption_band && (dark_subtitle || bright_panel);
    let warning_limit = if h / 32 >= 8 {
        h / 32
    } else {
        8
    };
    band > 0 && scene && caption_band && intro && unique >= 192 && unique <= 320 && smul(nonzero, 100)
        >= smul(total, 55) && smul(nonzero, 100) <= smul(total, 66) && smul(black, 100) >= smul(
        total,
        34,
    ) && smul(black, 100) <= smul(total, 45) && smul(red_dominant, 100) >= smul(total, 12) && smul(
        red_dominant,
        100,
    ) <= smul(total, 22) && smul(warm, 100) <= smul(total, 8) && smul(dominant, 100) >= smul(
        total,
        40,
    ) && smul(dominant, 100) <= smul(total, 50) && smul(changes, 100) >= smul(total, 32) && smul(
        changes,
        100,
    ) <= smul(total, 46) && smul(span, 100) >= smul(h, 95) && smul(dark, 100) >= smul(band, 80)
        && smul(dark, 100) <= smul(band, 95) && smul(caption, 1000) >= smul(total, 4) && smul(
        caption,
        1000,
    ) <= smul(total, 10) && warning_rows <= warning_limit
}

// ---------------------------------------------------------------------------
// Texture-page fragment
pub open spec fn spec_texture_page_fragment(f: FrameView) -> bool {
    if f.width < 320 || f.height < 240 || !f.complete() {
        false
    } else {
        let w = f.width as int;
        let h = f.height as int;
        let bottom_start = (sat_mul(h, 4) / 5) as usize;
        let cutoff = max1(w / 20);
        let unique = distinct_colors(f, PixelTest::Any, 161);
        let dominant = dominant_bucket(f);
        let nonzero = fc(f, PixelTest::Nonzero);
        let black = fc(f, PixelTest::Zero);
        let bottom_dark = fc(f, PixelTest::BottomDark { y_start: bottom_start });
        let changes = fc(f, PixelTest::Change);
        let occupied = occupied_rows(f, PixelTest::Nonzero, cutoff, h) as int;
        let span = occupied_span(f, PixelTest::Nonzero, cutoff);
        let total = sat_mul(w, h);
        let bottom = sat_mul(w, max1(h / 5));
        let scene_detail = total > 0 && unique >= 64 && sat_mul(changes, 30) >= total;
        &&& scene_detail
        &&& bottom > 0
        &&& unique <= 160
        &&& sat_mul(bottom_dark, 100) >= sat_mul(bottom, 92)
        &&& sat_mul(black, 100) >= sat_mul(total, 35)
        &&& sat_mul(dominant, 100) >= sat_mul(total, 32)
        &&& sat_mul(occupied, 100) >= sat_mul(h, 45)
        &&& sat_mul(span, 100) <= sat_mul(h, 85)
        &&& sat_mul(nonzero, 100) >= sat_mul(total, 35)
        &&& sat_mul(nonzero, 100) <= sat_mul(total, 70)
        &&& sat_mul(changes, 100) <= sat_mul(total, 30)
    }
}

/// A fragment of a texture page drawn as a scene: a limited palette, a
/// dark bottom band, much black and few colour changes.
pub fn native_display_frame_has_texture_page_fragment_artifact(frame: &NativeDisplayFrame) -> (r:
    bool)
    ensures
        r == spec_texture_page_fragment(frame@),
{
    if frame.width < 320 || frame.height < 240 || !frame.is_complete() {
        return false;
    }
    let w = frame.width;
    let h = frame.height;
    let bottom_start = smul(h, 4) / 5;
    let cutoff = at_least_one(w / 20);
    let unique = count_distinct_colors(frame, &PixelTest::Any, 161);
    let dominant = count_dominant_bucket(frame);
    let nonzero = count_pixels(frame, PixelTest::Nonzero);
    let black = count_pixels(frame, PixelTest::Zero);
    let bottom_dark = count_pixels(frame, PixelTest::BottomDark { y_start: bottom_start });
    let changes = count_pixels(frame, PixelTest::Change);
    let rows = row_stats(frame, &PixelTest::Nonzero, cutoff);
    let occupied = rows.occupied;
    let span = span_of(&rows);
    let total = smul(w, h);
    let bottom = smul(w, at_least_one(h / 5));
    let scene_detail = total > 0 && unique >= 64 && smul(changes, 30) >= total;
    scene_detail && bottom > 0 && unique <= 160 && smul(bottom_dark, 100) >= smul(bottom, 92)
        && smul(black, 100) >= smul(total, 35) && smul(dominant, 100) >= smul(total, 32) && smul(
        occupied,
        100,
    ) >= smul(h, 45) && smul(span, 100) <= smul(h, 85) && smul(nonzero, 100) >= smul(total, 35)
        && smul(nonzero, 100) <= smul(total, 70) && smul(changes, 100) <= smul(total, 30)
}

// ---------------------------------------------------------------------------
// Stage letterbox
pub open spec fn spec_context_stage_letterbox(f: FrameView) -> bool {
    if f.width < 320 || f.height < 240 || !f.complete() {
        false
    } else {
        let w = f.width as int;
        let h = f.height as int;
        let bottom_start = (sat_mul(h, 4) / 5) as usize;
        let cutoff = max1(w / 20);
        let nonzero = fc(f, PixelTest::Nonzero);
        let black = fc(f, PixelTest::Zero);
        let bottom_dark = fc(f, PixelTest::BottomDark { y_start: bottom_start });
        let occupied = occupied_rows(f, PixelTest::Nonzero, cutoff, h) as int;
        let span = occupied_span(f, PixelTest::Nonzero, cutoff);
        let dominant = dominant_bucket(f);
        let total = sat_mul(w, h);
        let bottom = sat_mul(w, max1(h / 5));
        &&& total > 0
        &&& bottom > 0
        &&& sat_mul(nonzero, 100) >= sat_mul(total, 35)
        &&& sat_mul(black, 100) <= sat_mul(total, 55)
        &&& sat_mul(bottom_dark, 100) >= sat_mul(bottom, 70)
        &&& sat_mul(occupied, 100) >= sat_mul(h, 55)
        &&& sat_mul(span, 100) >= sat_mul(h, 60)
        &&& sat_mul(dominant, 100) <= sat_mul(total, 55)
    }
}

/// A stage with the dark letterbox band of the fight HUD under it.
pub fn native_display_frame_has_context_stage_letterbox(frame: &NativeDisplayFrame) -> (r: bool)
    ensures
        r == spec_context_stage_letterbox(frame@),
{
    if frame.width < 320 || frame.height < 240 || !frame.is_complete() {
        return false;
    }
    let w = frame.width;
    let h = frame.height;
    let bottom_start = smul(h, 4) / 5;
    let cutoff = at_least_one(w / 20);
    let nonzero = count_pixels(frame, PixelTest::Nonzero);
    let black = count_pixels(frame, PixelTest::Zero);
    let bottom_dark = count_pixels(frame, PixelTest::BottomDark { y_start: bottom_start });
    let rows = row_stats(frame, &PixelTest::Nonzero, cutoff);
    let occupied = rows.occupied;
    let span = span_of(&rows);
    let dominant = count_dominant_bucket(frame);
    let total = smul(w, h);
    let bottom = smul(w, at_least_one(h / 5));
    total > 0 && bottom > 0 && smul(nonzero, 100) >= smul(total, 35) && smul(black, 100) <= smul(
        total,
        55,
    ) && smul(bottom_dark, 100) >= smul(bottom, 70) && smul(occupied, 100) >= smul(h, 55) && smul(
        span,
        100,
    ) >= smul(h, 60) && smul(dominant, 100) <= smul(total, 55)
}

// ---------------------------------------------------------------------------
// Title logo overlay
pub open spec fn spec_title_logo_overlay(f: FrameView) -> bool {
    if f.width < 320 || f.height < 240 || !f.complete() {
        false
    } else {
        let w = f.width as int;
        let h = f.height as int;
        let x_start = (sat_mul(w, 52) / 100) as usize;
        let x_end = (sat_mul(w, 99) / 100) as usize;
        let y_start = (sat_mul(h, 48) / 100) as usize;
        let y_end = (sat_mul(h, 84) / 100) as usize;
        let red_logo = fc(f, PixelTest::TitleRed { x_start, x_end, y_start, y_end });
        let bright_logo = fc(f, PixelTest::TitleBright { x_start, x_end, y_start, y_end });
        let black = fc(f, PixelTest::TitleDark);
        let changes = fc(f, PixelTest::Change);
        let total = sat_mul(w, h);
        let marks = sat_add(red_logo, bright_logo);
        &&& sat_mul(red_logo, 1000) >= sat_mul(total, 8)
        &&& sat_mul(bright_logo, 1000) >= sat_mul(total, 2)
        &&& sat_mul(marks, 100) >= total
        &&& sat_mul(black, 100) >= sat_mul(total, 10)
        &&& sat_mul(changes, 100) >= sat_mul(total, 20)
    }
}

/// The title logo in the lower right: strong red and light marks there,
/// some black and busy rows elsewhere.
pub fn native_display_frame_has_title_logo_overlay(frame: &NativeDisplayFrame) -> (r: bool)
    ensures
        r == spec_title_logo_overlay(frame@),
{
    if frame.width < 320 || frame.height < 240 || !frame.is_complete() {
        return false;
    }
    let w = frame.width;
    let h = frame.height;
    let x_start = smul(w, 52) / 100;
    let x_end = smul(w, 99) / 100;
    let y_start = smul(h, 48) / 100;
    let y_end = smul(h, 84) / 100;
    let red_logo = count_pixels(frame, PixelTest::TitleRed { x_start, x_end, y_start, y_end });
    let bright_logo = count_pixels(frame, PixelTest::TitleBright { x_start, x_end, y_start, y_end });
    let black = count_pixels(frame, PixelTest::TitleDark);
    let changes = count_pixels(frame, PixelTest::Change);
    let total = smul(w, h);
    let marks = sadd(red_logo, bright_logo);
    smul(red_logo, 1000) >= smul(total, 8) && smul(bright_logo, 1000) >= smul(total, 2) && smul(
        marks,
        100,
    ) >= total && smul(black, 100) >= smul(total, 10) && smul(changes, 100) >= smul(total, 20)
}

// ---------------------------------------------------------------------------
// Sparse title logo
pub open spec fn spec_sparse_title_logo(f: FrameView) -> bool {
    if f.width < 256 || f.height < 120 || !f.complete() {
        false
    } else {
        let w = f.width as int;
        let h = f.height as int;
        let x_start = (sat_mul(w, 50) / 100) as usize;
        let y_start = (sat_mul(h, 38) / 100) as usize;
        let nonzero = fc(f, PixelTest::Nonzero);
        let dark = fc(f, PixelTest::Dark { limit: 32 });
        let samples = fc(f, PixelTest::Region { x_start, y_start });
        let region_nonzero = fc(f, PixelTest::RegionNonzero { x_start, y_start });
        let region_red = fc(f, PixelTest::RegionRed { x_start, y_start });
        let region_bright = fc(f, PixelTest::RegionBright { x_start, y_start });
        let occupied = occupied_rows(f, PixelTest::Nonzero, max1(w / 32), h) as int;
        let total = sat_mul(w, h);
        let marks = sat_add(region_red, region_bright);
        let sparse = sat_mul(nonzero, 100) <= sat_mul(total, 24) && sat_mul(dark, 100) >= sat_mul(
            total,
            55,
        ) && sat_mul(occupied, 100) <= sat_mul(h, 72);
        let logo = sat_mul(region_nonzero, 100) >= sat_mul(samples, 3) && sat_mul(region_red, 100)
            >= samples && sat_mul(region_bright, 1000) >= sat_mul(samples, 3) && sat_mul(marks, 100)
            >= sat_mul(samples, 2);
        total != 0 && samples != 0 && sparse && logo
    }
}

/// The title logo alone on a mostly dark frame.
pub fn native_display_frame_has_sparse_title_logo_artifact(frame: &NativeDisplayFrame) -> (r: bool)
    ensures
        r == spec_sparse_title_logo(frame@),
{
    if frame.width < 256 || frame.height < 120 || !frame.is_complete() {
        return false;
    }
    let w = frame.width;
    let h = frame.height;
    let x_start = smul(w, 50) / 100;
    let y_start = smul(h, 38) / 100;
    let nonzero = count_pixels(frame, PixelTest::Nonzero);
    let dark = count_pixels(frame, PixelTest::Dark { limit: 32 });
    let samples = count_pixels(frame, PixelTest::Region { x_start, y_start });
    let region_nonzero = count_pixels(frame, PixelTest::RegionNonzero { x_start, y_start });
    let region_red = count_pixels(frame, PixelTest::RegionRed { x_start, y_start });
    let region_bright = count_pixels(frame, PixelTest::RegionBright { x_start, y_start });
    let occupied = row_stats(frame, &PixelTest::Nonzero, at_least_one(w / 32)).occupied;
    let total = smul(w, h);
    if total == 0 || samples == 0 {
        return false;
    }
    let marks = sadd(region_red, region_bright);
    let sparse = smul(nonzero, 100) <= smul(total, 24) && smul(dark, 100) >= smul(total, 55) && smul(
        occupied,
        100,
    ) <= smul(h, 72);
    let logo = smul(region_nonzero, 100) >= smul(samples, 3) && smul(region_red, 100) >= samples
        && smul(region_bright, 1000) >= smul(samples, 3) && smul(marks, 100) >= smul(samples, 2);
    sparse && logo
}

// ---------------------------------------------------------------------------
// Glyph texture atlas
pub open spec fn spec_glyph_texture_atlas(f: FrameView) -> bool {
    if f.width < 256 || f.height < 120 || !f.complete() {
        false
    } else {
        let w = f.width as int;
        let h = f.height as int;
        let nonzero = fc(f, PixelTest::Nonzero);
        let dark = fc(f, PixelTest::Dark { limit: 36 });
        let bright = fc(f, PixelTest::Luma148);
        let changes = fc(f, PixelTest::Change);
        let busy = occupied_rows(f, PixelTest::Change, max1(w / 10), h) as int;
        let unique = distinct_colors(f, PixelTest::Any, 129);
        let dominant = dominant_bucket(f);
        let total = max1(sat_mul(w, h));
        &&& sat_mul(nonzero, 100) >= sat_mul(total, 18)
        &&& sat_mul(nonzero, 100) <= sat_mul(total, 96)
        &&& unique <= 128
        &&& sat_mul(bright, 100) >= sat_mul(total, 4)
        &&& sat_mul(dark, 100) >= sat_mul(total, 8)
        &&& sat_mul(changes, 100) >= sat_mul(total, 8)
        &&& sat_mul(busy, 100) >= sat_mul(h, 20)
        &&& sat_mul(dominant, 100) >= sat_mul(total, 12)
    }
}

/// A glyph texture atlas drawn to the screen: a low palette, light glyphs
/// on dark cells and rows busy with edges.
pub fn native_display_frame_has_glyph_texture_atlas_artifact(frame: &NativeDisplayFrame) -> (r: bool)
    ensures
        r == spec_glyph_texture_atlas(frame@),
{
    if frame.width < 256 || frame.height < 120 || !frame.is_complete() {
        return false;
    }
    let w = frame.width;
    let h = frame.height;
    let nonzero = count_pixels(frame, PixelTest::Nonzero);
    let dark = count_pixels(frame, PixelTest::Dark { limit: 36 });
    let bright = count_pixels(frame, PixelTest::Luma148);
    let changes = count_pixels(frame, PixelTest::Change);
    let busy = row_stats(frame, &PixelTest::Change, at_least_one(w / 10)).occupied;
    let unique = count_distinct_colors(frame, &PixelTest::Any, 129);
    let dominant = count_dominant_bucket(frame);
    let total = at_least_one(smul(w, h));
    smul(nonzero, 100) >= smul(total, 18) && smul(nonzero, 100) <= smul(total, 96) && unique <= 128
        && smul(bright, 100) >= smul(total, 4) && smul(dark, 100) >= smul(total, 8) && smul(
        changes,
        100,
    ) >= smul(total, 8) && smul(busy, 100) >= smul(h, 20) && smul(dominant, 100) >= smul(total, 12)
}

// ---------------------------------------------------------------------------
// Saturated logo transition
pub open spec fn spec_saturated_logo_transition(f: FrameView) -> bool {
    if f.width == 0 || f.height == 0 || !f.complete() {
        false
    } else {
        let total = sat_mul(f.width as int, f.height as int);
        ||| sat_mul(fc(f, PixelTest::MagentaFlood), 100) >= sat_mul(total, 18)
        ||| sat_mul(fc(f, PixelTest::RedFlood), 100) >= sat_mul(total, 18)
        ||| sat_mul(fc(f, PixelTest::HighSaturation), 100) >= sat_mul(total, 45)
    }
}

/// A logo transition flooding the frame with red, magenta or other
/// saturated colour.
pub fn native_display_frame_has_saturated_logo_transition(frame: &NativeDisplayFrame) -> (r: bool)
    ensures
        r == spec_saturated_logo_transition(frame@),
{
    if frame.width == 0 || frame.height == 0 || !frame.is_complete() {
        return false;
    }
    let magenta = count_pixels(frame, PixelTest::MagentaFlood);
    let red = count_pixels(frame, PixelTest::RedFlood);
    let saturated = count_pixels(frame, PixelTest::HighSaturation);
    let total = smul(frame.width, frame.height);
    smul(magenta, 100) >= smul(total, 18) || smul(red, 100) >= smul(total, 18) || smul(saturated, 100)
        >= smul(total, 45)
}

// ---------------------------------------------------------------------------
// Periodic horizontal ghosting
/// The periods, in columns, at which a stalled movie repeats.
pub open spec fn ghost_period(i: int) -> usize {
    if i == 0 {
        64
    } else if i == 1 {
        96
    } else if i == 2 {
        128
    } else if i == 3 {
        160
    } else {
        192
    }
}

/// Half the sampled pixels or more repeat `period` columns to the right
/// (counted in thousandths, rounded down, against 350).
pub open spec fn spec_repeats_at(f: FrameView, period: usize) -> bool {
    let samples = fc(f, PixelTest::PeriodSample { period });
    let matches = fc(f, PixelTest::PeriodMatch { period });
    period < f.width && samples > 0 && sat_mul(matches, 1000) / samples >= 350
}

pub open spec fn spec_periodic_ghosting(f: FrameView) -> bool {
    if f.width < 128 || f.height == 0 || !f.complete() {
        false
    } else if sat_mul(fc(f, PixelTest::SampledChange), 100) < sat_mul(
        f.width as int,
        f.height as int,
    ) / 2 {
        false
    } else {
        exists|i: int| 0 <= i < 5 && #[trigger] spec_repeats_at(f, ghost_period(i))
    }
}

fn repeats_at(frame: &NativeDisplayFrame, period: usize) -> (r: bool)
    requires
        frame@.complete(),
    ensures
        r == spec_repeats_at(frame@, period),
{
    if period >= frame.width {
        return false;
    }
    let samples = count_pixels(frame, PixelTest::PeriodSample { period });
    let matches = count_pixels(frame, PixelTest::PeriodMatch { period });
    samples > 0 && smul(matches, 1000) / samples >= 350
}

/// A frame whose busy rows repeat themselves at a fixed horizontal period,
/// as a movie that stopped decoding leaves behind.
pub fn native_display_frame_has_periodic_horizontal_ghosting(frame: &NativeDisplayFrame) -> (r:
    bool)
    ensures
        r == spec_periodic_ghosting(frame@),
{
    if frame.width < 128 || frame.height == 0 || !frame.is_complete() {
        return false;
    }
    let changes = count_pixels(frame, PixelTest::SampledChange);
    if smul(changes, 100) < smul(frame.width, frame.height) / 2 {
        return false;
    }
    let r = repeats_at(frame, 64) || repeats_at(frame, 96) || repeats_at(frame, 128) || repeats_at(
        frame,
        160,
    ) || repeats_at(frame, 192);
    proof {
        if r {
            if spec_repeats_at(frame@, 64) {
                assert(spec_repeats_at(frame@, ghost_period(0)));
            } else if spec_repeats_at(frame@, 96) {
                assert(spec_repeats_at(frame@, ghost_period(1)));
            } else if spec_repeats_at(frame@, 128) {
                assert(spec_repeats_at(frame@, ghost_period(2)));
            } else if spec_repeats_at(frame@, 160) {
                assert(spec_repeats_at(frame@, ghost_period(3)));
            } else {
                assert(spec_repeats_at(frame@, ghost_period(4)));
            }
        } else {
            assert forall|i: int| 0 <= i < 5 implies !#[trigger] spec_repeats_at(
                frame@,
                ghost_period(i),
            ) by {
                if i == 0 {
                } else if i == 1 {
                } else if i == 2 {
                } else if i == 3 {
                } else {
                }
            }
        }
    }
    r
}

// ---------------------------------------------------------------------------
// Contextual live scenes
pub open spec fn spec_context_live_stage_hud(f: FrameView) -> bool {
    spec_context_stage_letterbox(f) && spec_title_logo_overlay(f)
}

/// A stage with its letterbox whose HUD resembles the title logo.
pub fn native_display_frame_has_context_live_stage_hud(frame: &NativeDisplayFrame) -> (r: bool)
    ensures
        r == spec_context_live_stage_hud(frame@),
{
    native_display_frame_has_context_stage_letterbox(frame)
        && native_display_frame_has_title_logo_overlay(frame)
}

pub open spec fn spec_context_full_live_scene(f: FrameView) -> bool {
    if f.width < 512 || f.height < 480 || !f.complete() {
        false
    } else {
        let w = f.width as int;
        let h = f.height as int;
        let cutoff = max1(w / 20);
        let unique = distinct_colors(f, PixelTest::Any, 65);
        let dominant = dominant_bucket(f);
        let nonzero = fc(f, PixelTest::Nonzero);
        let black = fc(f, PixelTest::Zero);
        let changes = fc(f, PixelTest::Change);
        let occupied = occupied_rows(f, PixelTest::Nonzero, cutoff, h) as int;
        let span = occupied_span(f, PixelTest::Nonzero, cutoff);
        let total = sat_mul(w, h);
        &&& total > 0
        &&& unique >= 24
        &&& sat_mul(nonzero, 100) >= sat_mul(total, 35)
        &&& sat_mul(black, 100) <= sat_mul(total, 45)
        &&& sat_mul(changes, 30) >= total
        &&& sat_mul(occupied, 100) >= sat_mul(h, 55)
        &&& sat_mul(span, 100) >= sat_mul(h, 60)
        &&& sat_mul(dominant, 100) <= sat_mul(total, 60)
        &&& spec_title_logo_overlay(f)
        &&& !spec_texture_page_fragment(f)
        &&& !spec_sparse_title_logo(f)
        &&& !spec_periodic_ghosting(f)
    }
}

/// A full, busy interlaced scene whose HUD resembles the title logo.
pub fn native_display_frame_has_context_full_live_scene(frame: &NativeDisplayFrame) -> (r: bool)
    ensures
        r == spec_context_full_live_scene(frame@),
{
    if frame.width < 512 || frame.height < 480 || !frame.is_complete() {
        return false;
    }
    let w = frame.width;
    let h = frame.height;
    let cutoff = at_least_one(w / 20);
    let unique = count_distinct_colors(frame, &PixelTest::Any, 65);
    let dominant = count_dominant_bucket(frame);
    let nonzero = count_pixels(frame, PixelTest::Nonzero);
    let black = count_pixels(frame, PixelTest::Zero);
    let changes = count_pixels(frame, PixelTest::Change);
    let rows = row_stats(frame, &PixelTest::Nonzero, cutoff);
    let occupied = rows.occupied;
    let span = span_of(&rows);
    let total = smul(w, h);
    total > 0 && unique >= 24 && smul(nonzero, 100) >= smul(total, 35) && smul(black, 100) <= smul(
        total,
        45,
    ) && smul(changes, 30) >= total && smul(occupied, 100) >= smul(h, 55) && smul(span, 100)
        >= smul(h, 60) && smul(dominant, 100) <= smul(total, 60)
        && native_display_frame_has_title_logo_overlay(frame)
        && !native_display_frame_has_texture_page_fragment_artifact(frame)
        && !native_display_frame_has_sparse_title_logo_artifact(frame)
        && !native_display_frame_has_periodic_horizontal_ghosting(frame)
}

// ---------------------------------------------------------------------------
// Playable candidate
pub open spec fn spec_supports_playable(f: FrameView, render_context_allows_periodic: bool) -> bool {
    let live_stage = render_context_allows_periodic && spec_context_live_stage_hud(f);
    let full_scene = render_context_allows_periodic && spec_context_full_live_scene(f);
    &&& spec_visible_detail(f)
    &&& !(spec_texture_page_fragment(f) && !live_stage)
    &&& !spec_caption_stalled_select(f)
    &&& !(spec_saturated_logo_transition(f) && !full_scene)
    &&& !(spec_title_logo_overlay(f) && !live_stage && !full_scene)
    &&& !spec_periodic_ghosting(f)
}

/// The frame can show gameplay: it has visible detail and none of the
/// known non-gameplay screens; when the renderer reports live 3D work
/// (`render_context_allows_periodic`), a stage HUD or a full live scene may
/// excuse a frame that resembles the title logo, a texture page or a
/// colour flood.
pub fn native_display_frame_supports_playable_candidate_with_render_context(
    frame: &NativeDisplayFrame,
    render_context_allows_periodic: bool,
) -> (r: bool)
    ensures
        r == spec_supports_playable(frame@, render_context_allows_periodic),
{
    let live_stage = render_context_allows_periodic
        && native_display_frame_has_context_live_stage_hud(frame);
    let full_scene = render_context_allows_periodic
        && native_display_frame_has_context_full_live_scene(frame);
    let texture_page_blocks = native_display_frame_has_texture_page_fragment_artifact(frame)
        && !live_stage;
    let caption_stall_blocks = native_display_frame_has_caption_stalled_select_ui_artifact(frame);
    let title_logo_blocks = native_display_frame_has_title_logo_overlay(frame) && !live_stage
        && !full_scene;
    let saturated_blocks = native_display_frame_has_saturated_logo_transition(frame)
        && !full_scene;
    native_display_frame_has_visible_detail(frame) && !texture_page_blocks && !caption_stall_blocks
        && !saturated_blocks && !title_logo_blocks
        && !native_display_frame_has_periodic_horizontal_ghosting(frame)
}

} // verus!
