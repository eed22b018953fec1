use lib::board::NativeBoardAssets;
use lib::config::native_at28c16_mode_is_blank;
use lib::display::{
    native_display_frame_has_caption_stalled_select_ui_artifact,
    native_display_frame_has_context_full_live_scene,
    native_display_frame_has_context_stage_letterbox,
    native_display_frame_has_glyph_texture_atlas_artifact,
    native_display_frame_has_periodic_horizontal_ghosting,
    native_display_frame_has_saturated_logo_transition,
    native_display_frame_has_sparse_title_logo_artifact,
    native_display_frame_has_texture_page_fragment_artifact,
    native_display_frame_has_title_logo_overlay, native_display_frame_has_visible_detail,
    native_display_frame_supports_playable_candidate_with_render_context,
};
use lib::emulator::apply_at28c16_mode_override;
use lib::frame::NativeDisplayFrame;
use lib::window::{
    native_window_deinterlace_field_is_texture_atlas_artifact,
    native_window_deinterlace_field_offset, native_window_field_frame,
    native_window_field_has_live_scene_density, native_window_frame_from_display,
    native_window_prefers_stronger_stacked_field, native_window_should_deinterlace_frame,
};

fn nonzero_bounds(frame: &NativeDisplayFrame) -> Option<(usize, usize, usize, usize)> {
    let mut min_x = usize::MAX;
    let mut min_y = usize::MAX;
    let mut max_x = 0usize;
    let mut max_y = 0usize;

    for y in 0..frame.height {
        for x in 0..frame.width {
            if frame.pixels[y * frame.width + x] & 0x00ff_ffff == 0 {
                continue;
            }
            min_x = min_x.min(x);
            min_y = min_y.min(y);
            max_x = max_x.max(x);
            max_y = max_y.max(y);
        }
    }

    (min_x != usize::MAX).then_some((min_x, min_y, max_x, max_y))
}

fn test_caption_stalled_select_artifact_frame() -> NativeDisplayFrame {
    let width = 512usize;
    let height = 480usize;
    let bottom_start = height * 4 / 5;
    let mut pixels = vec![0; width * height];

    for y in 0..bottom_start {
        for x in 0..width {
            let slot = x % 7;
            if slot < 2 {
                continue;
            }
            let seed = (x / 7 + y * 11 + if slot < 5 { 0 } else { 97 }) as u32;
            pixels[y * width + x] = if seed.is_multiple_of(3) {
                let red = 72 + (seed % 48);
                let low = 12 + (seed % 20);
                (red << 16) | (low << 8) | low
            } else if seed % 3 == 1 {
                let green = 72 + (seed % 96);
                let blue = 24 + (seed % 80);
                (16 << 16) | (green << 8) | blue
            } else {
                let red = 20 + (seed % 56);
                let green = 36 + (seed % 72);
                let blue = 88 + (seed % 96);
                (red << 16) | (green << 8) | blue
            };
        }
    }

    for y in bottom_start..height {
        let local_y = y - bottom_start;
        for x in 0..width {
            let index = y * width + x;
            if x < 16 || (local_y < 64 && x == 26) {
                pixels[index] = 0x00d0_d0d0;
            } else if (16..26).contains(&x) {
                pixels[index] = 0x0040_4040;
            }
        }
    }

    NativeDisplayFrame {
        width,
        height,
        pixels,
    }
}

#[test]
fn at28c16_runtime_mode_parser_accepts_blank_aliases_only() {
    assert!(native_at28c16_mode_is_blank("blank"));
    assert!(native_at28c16_mode_is_blank(" default "));
    assert!(native_at28c16_mode_is_blank("FF"));
    assert!(native_at28c16_mode_is_blank("ignore"));
    assert!(!native_at28c16_mode_is_blank("asset"));
    assert!(!native_at28c16_mode_is_blank("cfg"));
}

#[test]
fn blank_at28c16_runtime_mode_disables_legacy_zinc_input_compat() {
    let assets = NativeBoardAssets {
        at28c16: Some(vec![0x00; 2048]),
        at28c16_blank_default: false,
        legacy_zinc_input_compat: true,
        ..NativeBoardAssets::default()
    };

    let overridden = apply_at28c16_mode_override(assets.clone(), "blank");

    assert_eq!(overridden.at28c16, Some(vec![0xff; 2048]));
    assert!(overridden.at28c16_blank_default);
    assert!(!overridden.legacy_zinc_input_compat);
    assert_eq!(
        apply_at28c16_mode_override(assets, "asset").at28c16,
        Some(vec![0x00; 2048])
    );
}

#[test]
fn native_window_keeps_sparse_title_logo_letterboxed_not_vertically_expanded() {
    let width = 512usize;
    let height = 240usize;
    let mut pixels = vec![0; width * height];

    for y in 148..190 {
        for x in 328..430 {
            if (x / 5) % 2 == 0 || (y / 4) % 2 == 0 {
                pixels[y * width + x] = 0x00d8_1010;
            }
        }
    }
    for y in 192..202 {
        for x in 332..470 {
            if (x + y) % 3 != 0 {
                pixels[y * width + x] = 0x00f8_f8f0;
            }
        }
    }
    for y in 129..208 {
        for x in 455..497 {
            let shade = 176 + ((x + y) % 72) as u32;
            pixels[y * width + x] = (shade << 16) | (shade << 8) | shade;
        }
    }

    let frame = NativeDisplayFrame {
        width,
        height,
        pixels,
    };

    assert!(native_display_frame_has_sparse_title_logo_artifact(
        &frame
    ));
    let window = native_window_frame_from_display(&frame);
    let (_, first_y, _, last_y) = nonzero_bounds(&window).expect("logo should remain visible");
    let occupied_height = last_y.saturating_sub(first_y).saturating_add(1);

    assert_eq!(window.width, 512);
    assert_eq!(window.height, 480);
    assert!(
        occupied_height <= 120,
        "sparse title logo should stay letterboxed instead of being expanded to {occupied_height}px"
    );
    assert!(
        first_y >= 240,
        "sparse title logo should remain in the lower display area after aspect-preserving scale"
    );
}

#[test]
fn native_window_keeps_single_field_glyph_atlas_from_vertical_expansion() {
    let width = 512usize;
    let height = 480usize;
    let field_height = height / 2;
    let mut pixels = vec![0; width * height];
    const PALETTE: [u32; 8] = [
        0x0018_1010,
        0x0050_4008,
        0x00d8_1010,
        0x00f0_f0d8,
        0x0008_2038,
        0x00e0_d000,
        0x0070_7040,
        0x00ff_ffff,
    ];

    for local_y in (0..field_height).step_by(12) {
        for cell_x in (0..width).step_by(16) {
            let color = PALETTE[(cell_x / 16 + local_y / 12) % PALETTE.len()];
            let y = field_height + local_y;
            for x in cell_x..(cell_x + 10).min(width) {
                pixels[y * width + x] = color;
                if local_y + 4 < field_height {
                    pixels[(y + 4) * width + x] = color;
                }
            }
            for glyph_y in local_y..(local_y + 9).min(field_height) {
                pixels[(field_height + glyph_y) * width + cell_x] = color;
                if cell_x + 5 < width && (cell_x / 16 + local_y / 12) % 2 == 0 {
                    pixels[(field_height + glyph_y) * width + cell_x + 5] = 0x00ff_ffff;
                }
            }
        }
    }
    for y in 176..224 {
        for x in 332..500 {
            let local_x = x - 332;
            let local_y = y - 176;
            pixels[(field_height + y) * width + x] =
                if local_x < 112 && (local_x / 4 + local_y / 3) % 2 == 0 {
                    0x00d8_1010
                } else if local_x >= 120 && local_y % 5 != 0 {
                    0x00f0_f0d8
                } else {
                    0
                };
        }
    }

    let frame = NativeDisplayFrame {
        width,
        height,
        pixels,
    };
    let active = native_window_field_frame(&frame, field_height, field_height);

    assert!(native_window_should_deinterlace_frame(&frame));
    assert!(native_display_frame_has_glyph_texture_atlas_artifact(&active));
    assert!(
        native_window_deinterlace_field_is_texture_atlas_artifact(&frame, field_height)
    );
    let window = native_window_frame_from_display(&frame);
    let (_, first_y, _, last_y) =
        nonzero_bounds(&window).expect("active atlas field should remain visible");
    let occupied_height = last_y.saturating_sub(first_y).saturating_add(1);

    assert_eq!(window.width, 512);
    assert_eq!(window.height, 480);
    assert!(
        first_y >= 220,
        "single-field atlas should stay in the lower field instead of starting at y={first_y}"
    );
    assert!(
        occupied_height <= 260,
        "single-field atlas should not be expanded to full height: {occupied_height}px"
    );
}

#[test]
fn native_window_deinterlaces_dense_bottom_live_scene_despite_title_like_hud() {
    let width = 512usize;
    let height = 480usize;
    let field_height = height / 2;
    let mut pixels = vec![0; width * height];

    for local_y in 0..216 {
        for x in 12..width {
            let red = 12 + ((x * 5 + local_y * 3) % 92) as u32;
            let green = 24 + ((x * 7 + local_y * 11) % 184) as u32;
            let blue = 40 + ((x * 13 + local_y * 17) % 176) as u32;
            pixels[(field_height + local_y) * width + x] = (red << 16) | (green << 8) | blue;
        }
    }
    for local_y in 70..126 {
        for x in 0..178 {
            if (x + local_y) % 5 != 0 {
                pixels[(field_height + local_y) * width + x] = 0x00f8_f8f8;
            }
        }
    }
    for local_y in 150..205 {
        for x in 330..506 {
            let local_x = x - 330;
            let color = if local_x < 88 {
                0x00d0_1818
            } else if (local_x + local_y) % 3 == 0 {
                0x00f0_f0e0
            } else {
                0x0018_2040
            };
            pixels[(field_height + local_y) * width + x] = color;
        }
    }

    let frame = NativeDisplayFrame {
        width,
        height,
        pixels,
    };
    let active = native_window_field_frame(&frame, field_height, field_height);

    assert!(native_window_should_deinterlace_frame(&frame));
    assert!(native_window_field_has_live_scene_density(&active));
    assert!(
        !native_window_deinterlace_field_is_texture_atlas_artifact(&frame, field_height)
    );

    let window = native_window_frame_from_display(&frame);
    let (_, first_y, _, last_y) =
        nonzero_bounds(&window).expect("live scene should remain visible");
    let occupied_height = last_y.saturating_sub(first_y).saturating_add(1);

    assert_eq!((window.width, window.height), (512, 480));
    assert!(
        first_y <= 16,
        "deinterlaced live scene should start near the top instead of y={first_y}"
    );
    assert!(
        occupied_height >= 360,
        "deinterlaced live scene should use most of the output height, got {occupied_height}px"
    );
    assert_ne!(window.pixels[256 + 40 * 512], 0);
    assert_ne!(window.pixels[256 + 420 * 512], 0);
}

#[test]
fn native_window_deinterlaces_stronger_field_when_both_stacked_fields_are_visible() {
    let width = 512usize;
    let height = 480usize;
    let field_height = height / 2;
    let mut pixels = vec![0; width * height];

    // Model a stale, partially populated top field.
    for y in 54..126 {
        for x in 112..368 {
            pixels[y * width + x] = 0x00f0_1010;
        }
    }

    // Model the current field with substantially denser scene detail.
    for local_y in 8..232 {
        for x in 18..246 {
            let red = 24 + ((x * 3 + local_y * 5) % 96) as u32;
            let green = 48 + ((x * 7 + local_y * 11) % 176) as u32;
            let blue = 32 + ((x * 13 + local_y * 17) % 192) as u32;
            pixels[(field_height + local_y) * width + x] = (red << 16) | (green << 8) | blue;
        }
    }

    let frame = NativeDisplayFrame {
        width,
        height,
        pixels,
    };

    assert!(native_window_should_deinterlace_frame(&frame));
    assert!(native_window_prefers_stronger_stacked_field(&frame));
    assert_eq!(
        native_window_deinterlace_field_offset(&frame),
        field_height
    );
    assert!(
        !native_window_deinterlace_field_is_texture_atlas_artifact(&frame, field_height)
    );

    let window = native_window_frame_from_display(&frame);
    let (_, first_y, _, last_y) =
        nonzero_bounds(&window).expect("stronger current field should remain visible");
    assert_eq!((window.width, window.height), (512, 480));
    assert!(first_y <= 20);
    assert!(last_y >= 455);
    assert!(
        window
            .pixels
            .iter()
            .all(|pixel| *pixel & 0x00ff_ffff != 0x00f0_1010),
        "stale top-field pixels must not leak into the window frame"
    );
}

#[test]
fn native_playable_candidate_rejects_periodic_fmv_ghosting_guard() {
    let width = 320usize;
    let height = 240usize;
    let mut pixels = vec![0; width * height];
    for y in 0..height {
        for x in 0..width {
            let source_x = x % 64;
            let red = 24 + ((source_x * 7 + y * 3) % 208) as u32;
            let green = 40 + ((source_x * 11 + y * 5) % 176) as u32;
            let blue = 56 + ((source_x * 13 + y * 17) % 160) as u32;
            pixels[y * width + x] = (red << 16) | (green << 8) | blue;
        }
    }
    let frame = NativeDisplayFrame {
        width,
        height,
        pixels,
    };

    assert!(native_display_frame_has_periodic_horizontal_ghosting(
        &frame
    ));
    assert!(
        !native_display_frame_supports_playable_candidate_with_render_context(&frame, false)
    );
    assert!(
        !native_display_frame_supports_playable_candidate_with_render_context(&frame, true)
    );
}

#[test]
fn native_playable_candidate_rejects_caption_stalled_select_guard() {
    let frame = test_caption_stalled_select_artifact_frame();

    assert!(native_display_frame_has_visible_detail(&frame));
    assert!(native_display_frame_has_caption_stalled_select_ui_artifact(&frame));
    assert!(
        !native_window_should_deinterlace_frame(&frame),
        "full-height select UI must not collapse to one field"
    );
    assert!(
        !native_display_frame_supports_playable_candidate_with_render_context(&frame, false)
    );
    assert!(
        !native_display_frame_supports_playable_candidate_with_render_context(&frame, true)
    );
}

#[test]
fn native_playable_candidate_rejects_saturated_logo_transition_guard() {
    let width = 512usize;
    let height = 480usize;
    let mut pixels = vec![0; width * height];
    for y in 0..height {
        for x in 0..width {
            let color = if y < height / 3 {
                0x00b0_10d8
            } else if x < width / 2 {
                0x00d0_1010
            } else {
                let shade = ((x + y) % 96) as u32;
                ((80 + shade) << 16) | ((48 + shade) << 8) | (128 + shade / 2)
            };
            pixels[y * width + x] = color;
        }
    }
    let frame = NativeDisplayFrame {
        width,
        height,
        pixels,
    };

    assert!(native_display_frame_has_visible_detail(&frame));
    assert!(native_display_frame_has_saturated_logo_transition(&frame));
    assert!(
        !native_display_frame_supports_playable_candidate_with_render_context(&frame, true)
    );
}

#[test]
fn native_playable_candidate_rejects_texture_page_fragment_guard() {
    let width = 512usize;
    let height = 240usize;
    let mut pixels = vec![0; width * height];
    for y in 12..192 {
        for x in 0..width {
            if (x / 17 + y / 11) % 7 == 0 {
                continue;
            }
            let palette_index = ((x / 13 + y / 9 + (x * y) / 2048) % 96) as u32;
            let red = 16 + ((palette_index * 5) % 160);
            let green = 24 + ((palette_index * 7) % 144);
            let blue = 32 + ((palette_index * 11) % 176);
            pixels[y * width + x] = (red << 16) | (green << 8) | blue;
        }
    }
    let frame = NativeDisplayFrame {
        width,
        height,
        pixels,
    };

    assert!(native_display_frame_has_visible_detail(&frame));
    assert!(native_display_frame_has_texture_page_fragment_artifact(
        &frame
    ));
    assert!(
        !native_display_frame_supports_playable_candidate_with_render_context(&frame, true)
    );
}

#[test]
fn native_playable_candidate_allows_contextual_live_stage_field() {
    let width = 512usize;
    let height = 240usize;
    let mut pixels = vec![0; width * height];
    for y in 0..183 {
        for x in 0..width {
            if (x / 11 + y / 7 + (x * y) / 4096) % 10 < 3 {
                continue;
            }
            let palette_index = ((x / 2 + y + (x * y) / 4096) % 96) as u32;
            let red = 16 + ((palette_index * 5) % 160);
            let green = 24 + ((palette_index * 7) % 144);
            let blue = 32 + ((palette_index * 11) % 176);
            pixels[y * width + x] = (red << 16) | (green << 8) | blue;
        }
    }
    for y in 116..188 {
        for x in 324..506 {
            if (x + y) % 5 == 0 {
                continue;
            }
            pixels[y * width + x] = if (x / 8 + y / 5) % 3 == 0 {
                0x00e0_1810
            } else {
                0x00d8_d8d8
            };
        }
    }
    let frame = NativeDisplayFrame {
        width,
        height,
        pixels,
    };

    assert!(native_display_frame_has_visible_detail(&frame));
    assert!(native_display_frame_has_context_stage_letterbox(&frame));
    assert!(native_display_frame_has_title_logo_overlay(&frame));
    assert!(native_display_frame_has_texture_page_fragment_artifact(
        &frame
    ));
    assert!(
        !native_display_frame_supports_playable_candidate_with_render_context(&frame, false)
    );
    assert!(native_display_frame_supports_playable_candidate_with_render_context(&frame, true));
}

#[test]
fn native_playable_candidate_allows_full_live_scene_title_overlay_false_positive() {
    let width = 512usize;
    let height = 480usize;
    let mut pixels = vec![0; width * height];

    for y in 0..height {
        for x in 0..width {
            let color = if (194..226).contains(&y) {
                0
            } else {
                let red = 40 + ((x * 11 + y * 3 + (x * y) / 257) % 176) as u32;
                let green = 32 + ((x * 7 + y * 13 + (x * y) / 509) % 168) as u32;
                let blue = 24 + ((x * 17 + y * 5 + (x * y) / 383) % 160) as u32;
                (red << 16) | (green << 8) | blue
            };
            pixels[y * width + x] = color;
        }
    }

    let title_x = width * 52 / 100;
    let title_y = height * 48 / 100;
    let title_width = width * 47 / 100;
    let title_height = height * 36 / 100;
    for y in title_y..title_y + title_height {
        for x in title_x..title_x + title_width {
            let local_x = x - title_x;
            let local_y = y - title_y;
            pixels[y * width + x] = if local_y % 18 < 10 && local_x < title_width * 2 / 3 {
                0x00d8_1818
            } else if (local_x + local_y * 3) % 23 < 5 {
                0x00f0_f0f0
            } else {
                0
            };
        }
    }

    let frame = NativeDisplayFrame {
        width,
        height,
        pixels,
    };

    assert!(native_display_frame_has_visible_detail(&frame));
    assert!(native_display_frame_has_title_logo_overlay(&frame));
    assert!(native_display_frame_has_context_full_live_scene(&frame));
    assert!(
        !native_display_frame_supports_playable_candidate_with_render_context(&frame, false)
    );
    assert!(native_display_frame_supports_playable_candidate_with_render_context(&frame, true));
}

#[test]
fn native_playable_candidate_rejects_title_logo_overlay_guard() {
    let width = 512usize;
    let height = 240usize;
    let mut pixels = vec![0; width * height];
    for y in 0..height {
        for x in 0..width {
            let color = if x < 168 {
                0
            } else {
                let red = 24 + ((x * 17 + y * 5) % 176) as u32;
                let green = 40 + ((x * 7 + y * 19) % 184) as u32;
                let blue = 32 + ((x * 13 + y * 11) % 192) as u32;
                (red << 16) | (green << 8) | blue
            };
            pixels[y * width + x] = color;
        }
    }
    for y in 144..188 {
        for x in (300..448).step_by(10) {
            for stroke_x in x..(x + 6).min(width) {
                pixels[y * width + stroke_x] = 0x00d0_1010;
            }
        }
    }
    for y in 118..205 {
        for x in 450..505 {
            let shade = 152 + ((x + y) % 88) as u32;
            pixels[y * width + x] = (shade << 16) | (shade << 8) | shade;
        }
    }
    let frame = NativeDisplayFrame {
        width,
        height,
        pixels,
    };

    assert!(native_display_frame_has_visible_detail(&frame));
    assert!(native_display_frame_has_title_logo_overlay(&frame));
    assert!(
        !native_display_frame_supports_playable_candidate_with_render_context(&frame, true)
    );
}
