use lib::backend::native_observation_progress;
use lib::buttons::ActionButtons;
use lib::emulator::NativeTraceConfig;
use lib::frame::NativeDisplayFrame;
use lib::trace_run::{
    scripted_requested_steps, trace_step, trace_watch_armed, NativeTraceState, NativeTraceStep,
};
use lib::window::native_window_frame_from_display;

fn step(pc: u32) -> NativeTraceStep {
    NativeTraceStep {
        start_pc: pc,
        unsupported: None,
        continued: true,
        pc_mapped_for_execution: true,
        watch_access_hit: false,
        watch_data_hit: false,
        watch_write_hit: false,
        cycles_elapsed: 1,
        cause_excode: 0,
        helper_accepted_before: 0,
        helper_accepted_after: 0,
    }
}

#[test]
fn scripted_steps_multiply_frames_by_instructions() {
    let buttons = ActionButtons::default();
    let segments = vec![(buttons, 3u64), (buttons, 2u64)];
    assert_eq!(scripted_requested_steps(&segments, 100), 500);
    assert_eq!(scripted_requested_steps(&segments, 0), 5);
    assert_eq!(scripted_requested_steps(&vec![(buttons, u64::MAX), (buttons, 1)], 2), u64::MAX);
    assert!(trace_watch_armed(None, 0));
    assert!(!trace_watch_armed(Some(5), 4));
    assert!(trace_watch_armed(Some(5), 5));
}

#[test]
fn trace_steps_count_addresses_and_keep_recent_steps() {
    let config = NativeTraceConfig::default();
    let mut state = NativeTraceState::new(&config);
    for pc in [0x8001_0000u32, 0x8001_0004, 0x8001_0000] {
        let r = trace_step(&mut state, &config, 2, &step(pc), format!("{{\"pc\":{}}}", pc));
        assert!(!r.stop);
    }
    assert_eq!(state.pc_counts, vec![(0x8001_0000, 2), (0x8001_0004, 1)]);
    assert_eq!(state.recent_steps.len(), 2);
    assert_eq!(state.recent_steps[1], format!("{{\"pc\":{}}}", 0x8001_0000u32));

    let mut unsupported = step(0x8001_0008);
    unsupported.unsupported = Some(0xfc00_0000);
    unsupported.continued = false;
    let r = trace_step(&mut state, &config, 0, &unsupported, String::new());
    assert!(r.stop);
    assert_eq!(state.unsupported, vec![(0xfc00_0000, 1)]);
    assert_eq!(state.recent_steps.len(), 2);
}

#[test]
fn trace_steps_skip_watched_writes_and_stop_addresses() {
    let config = NativeTraceConfig {
        stop_pc: Some(0x8002_0000),
        stop_pc_skip: 1,
        stop_watch_write: true,
        stop_watch_write_skip: 1,
        stop_excodes: vec![8],
        stop_cycles_elapsed: Some(100),
        ..NativeTraceConfig::default()
    };
    let mut state = NativeTraceState::new(&config);

    let mut write = step(0x8001_0000);
    write.watch_write_hit = true;
    let r = trace_step(&mut state, &config, 0, &write, String::new());
    assert!(r.clear_watch_hits);
    assert!(!r.stop);
    let r = trace_step(&mut state, &config, 0, &write, String::new());
    assert!(!r.clear_watch_hits);
    assert!(r.stop);

    let mut state = NativeTraceState::new(&config);
    assert!(!trace_step(&mut state, &config, 0, &step(0x8002_0000), String::new()).stop);
    assert!(trace_step(&mut state, &config, 0, &step(0x8002_0000), String::new()).stop);

    let mut slow = step(0x8001_0000);
    slow.cycles_elapsed = 100;
    assert!(trace_step(&mut state, &config, 0, &slow, String::new()).stop);
    let mut syscall = step(0x8001_0000);
    syscall.cause_excode = 8;
    assert!(trace_step(&mut state, &config, 0, &syscall, String::new()).stop);
}

#[test]
fn observation_progress_needs_blanks_and_a_changed_frame_or_draw() {
    let idle = ActionButtons::default();
    let punch = ActionButtons { punch: true, ..ActionButtons::default() };
    let p = native_observation_progress(&punch, &idle, 10, 7, 5, 5, 0xabc, Some(0xabd));
    assert_eq!(p.vblank_delta, 3);
    assert!(p.frame_changed);
    assert!(!p.draw_progressed);
    assert!(p.render_progressing);
    assert!(p.effects_requested);
    assert!(p.effects_progressing);

    let p = native_observation_progress(&idle, &idle, 10, 10, 6, 5, 0xabc, None);
    assert_eq!(p.vblank_delta, 0);
    assert!(!p.frame_changed);
    assert!(p.draw_progressed);
    assert!(!p.render_progressing);
    assert!(!p.effects_requested);

    let p = native_observation_progress(&idle, &punch, 3, 7, 5, 6, 1, Some(1));
    assert_eq!(p.vblank_delta, 0);
    assert!(p.effects_requested);
    assert!(!p.effects_progressing);
}

#[test]
fn window_of_a_very_wide_empty_frame_is_black() {
    let frame = NativeDisplayFrame { width: usize::MAX / 4, height: 0, pixels: Vec::new() };
    let window = native_window_frame_from_display(&frame);
    assert_eq!(window.width, 512);
    assert_eq!(window.height, 480);
    assert!(window.pixels.iter().all(|p| *p == 0));
}

#[test]
fn option_names_are_accepted_exactly_when_they_parse() {
    let mut bus = lib::bus::Bus::new(Vec::new(), 2 * 1024 * 1024);
    for name in ["copies", "wide", "none", "auto", "", "0x1f80007e/2=0x40"] {
        assert!(bus.set_native_credit_projection_name(name), "{name}");
    }
    for name in ["bogus", "0x1f80007e/3", "edge=0"] {
        assert!(!bus.set_native_credit_projection_name(name), "{name}");
    }
    for name in ["legacy-zinc", "MAME", "coin-register-bit0", "service"] {
        assert!(bus.set_coin_input_mapping_name(name), "{name}");
    }
    for name in ["", "auto", "bogus"] {
        assert!(!bus.set_coin_input_mapping_name(name), "{name}");
    }
}
