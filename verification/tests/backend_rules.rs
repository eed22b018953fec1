use lib::backend::{
    native_backend_playable_candidate, native_backend_unlinked_primitive_replay_settings,
    native_hud_active_columns, native_hud_meter_pixel, NATIVE_HUD_HEIGHT, NATIVE_HUD_WIDTH,
};
use lib::frame::NativeDisplayFrame;

#[test]
fn native_backend_keeps_conditional_primitive_recovery_enabled() {
    assert_eq!(
        native_backend_unlinked_primitive_replay_settings(),
        (true, None)
    );
}

#[test]
fn native_backend_accepts_a_proven_rendered_match_when_gpu_heuristic_is_false() {
    assert!(native_backend_playable_candidate(false, true, true, true));
    assert!(native_backend_playable_candidate(true, false, false, false));
    assert!(!native_backend_playable_candidate(false, false, true, true));
    assert!(!native_backend_playable_candidate(false, true, false, true));
    assert!(!native_backend_playable_candidate(false, true, true, false));
}

#[test]
fn hud_meter_pixel_needs_bright_warm_saturated_colour() {
    assert!(native_hud_meter_pixel(0x00e0_c020));
    assert!(!native_hud_meter_pixel(0x0000_0000));
    assert!(!native_hud_meter_pixel(0x0080_8080), "grey is not a meter colour");
    assert!(!native_hud_meter_pixel(0x0020_20e0), "blue is not a meter colour");
    assert!(!native_hud_meter_pixel(0x0040_3010), "too dark");
}

#[test]
fn hud_active_columns_count_half_lit_columns() {
    let mut frame = NativeDisplayFrame {
        width: NATIVE_HUD_WIDTH,
        height: NATIVE_HUD_HEIGHT,
        pixels: vec![0; NATIVE_HUD_WIDTH * NATIVE_HUD_HEIGHT],
    };
    // Columns 35..132 fully lit, column 132 lit in 4 of 9 rows only.
    for y in 42..51 {
        for x in 35..132 {
            frame.pixels[y * frame.width + x] = 0x00e0_c020;
        }
    }
    for y in 42..46 {
        frame.pixels[y * frame.width + 132] = 0x00e0_c020;
    }
    assert_eq!(native_hud_active_columns(&frame, 35, 230, 42, 51), Some(97));
    assert_eq!(native_hud_active_columns(&frame, 35, 35, 42, 51), None);
}

#[test]
fn hud_active_columns_reject_partial_frames() {
    let frame = NativeDisplayFrame {
        width: 512,
        height: 240,
        pixels: vec![0; 512 * 240],
    };
    assert_eq!(native_hud_active_columns(&frame, 35, 230, 42, 51), None);
}
