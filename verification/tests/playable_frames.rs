use lib::emulator::{
    actual_display_frame_supports_playable_candidate, native_display_frames_support_playable_candidate,
    native_playable_candidate_from_frames,
};
use lib::frame::NativeDisplayFrame;

/// A live stage with a HUD panel: it passes only in a render context that
/// allows periodic ghosting.
fn live_stage_frame() -> NativeDisplayFrame {
    let width = 512usize;
    let height = 240usize;
    let mut pixels = vec![0; width * height];
    for y in 0..183 {
        for x in 0..width {
            if (x / 11 + y / 7 + (x * y) / 4096) % 10 < 3 {
                continue;
            }
            let palette_index = ((x / 2 + y + (x * y) / 4096) % 96) as u32;
            let red = 16 + ((palette_index * 5) % 160);
            let green = 24 + ((palette_index * 7) % 144);
            let blue = 32 + ((palette_index * 11) % 176);
            pixels[y * width + x] = (red << 16) | (green << 8) | blue;
        }
    }
    for y in 116..188 {
        for x in 324..506 {
            if (x + y) % 5 == 0 {
                continue;
            }
            pixels[y * width + x] = if (x / 8 + y / 5) % 3 == 0 {
                0x00e0_1810
            } else {
                0x00d8_d8d8
            };
        }
    }
    NativeDisplayFrame {
        width,
        height,
        pixels,
    }
}

fn blank_frame() -> NativeDisplayFrame {
    NativeDisplayFrame {
        width: 320,
        height: 240,
        pixels: vec![0; 320 * 240],
    }
}

#[test]
fn playable_candidate_needs_a_gpu_scene_signal() {
    let frame = live_stage_frame();
    assert!(!native_playable_candidate_from_frames(&frame, &frame, false, false, false));
    assert!(!native_playable_candidate_from_frames(&frame, &frame, false, true, false));
    assert!(native_playable_candidate_from_frames(&frame, &frame, true, false, false));
    assert!(native_playable_candidate_from_frames(&frame, &frame, false, true, true));
}

#[test]
fn playable_candidate_falls_back_to_the_actual_frame() {
    let live = live_stage_frame();
    let blank = blank_frame();
    assert!(native_display_frames_support_playable_candidate(&blank, &live, true, false, false));
    assert!(native_display_frames_support_playable_candidate(&live, &blank, true, false, false));
    assert!(!native_display_frames_support_playable_candidate(&blank, &blank, true, true, true));
    assert!(native_playable_candidate_from_frames(&blank, &live, true, false, false));
    assert!(!native_playable_candidate_from_frames(&blank, &blank, true, false, false));
}

#[test]
fn actual_frame_alone_decides_actual_display_playability() {
    let live = live_stage_frame();
    let blank = blank_frame();
    assert!(actual_display_frame_supports_playable_candidate(&live, true, false, false));
    assert!(actual_display_frame_supports_playable_candidate(&live, false, true, true));
    assert!(!actual_display_frame_supports_playable_candidate(&blank, true, true, true));
}
