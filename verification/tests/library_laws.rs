use lib::board::NativeBoardAssets;
use lib::bus::Bus;
use lib::buttons::ActionButtons;
use lib::display::{
    native_display_frame_has_visible_detail,
    native_display_frame_supports_playable_candidate_with_render_context,
};
use lib::emulator::{
    apply_at28c16_mode_override, NativeEmulator, NativeTrace, NativeTraceConfig,
    NativeTraceParts,
};
use lib::frame::NativeDisplayFrame;
use lib::replay::{
    decide_unlinked_primitive_replay, UnlinkedPrimitiveReplayInputs,
    UnlinkedPrimitiveReplayReason,
};
use lib::window::{
    native_window_frame_from_display, native_window_letterbox_viewport,
    native_window_letterbox_viewport_preserving_aspect, native_window_source_y,
};

#[test]
fn ram_word_written_reads_back_through_every_segment() {
    let mut bus = Bus::new(Vec::new(), 2 * 1024 * 1024);
    bus.write_u32(0x8000_1234 & !3, 0x0bad_cafe);
    assert_eq!(bus.read_u32(0x0000_1234 & !3), 0x0bad_cafe);
    assert_eq!(bus.read_u32(0xa000_1234 & !3), 0x0bad_cafe);
    assert_eq!(bus.read_u16(0x8000_1234 & !3), 0xcafe);
    assert_eq!(bus.read_u8(0x8000_1237), 0x0b);
}

#[test]
fn stores_to_rom_leave_it_unchanged() {
    let mut bus = Bus::new(vec![0x11, 0x22, 0x33, 0x44], 2 * 1024 * 1024);
    bus.write_u32(0x1fc0_0000, 0xffff_ffff);
    assert_eq!(bus.read_u32(0xbfc0_0000), 0x4433_2211);
}

#[test]
fn coin_edges_are_taken_only_once() {
    let mut bus = Bus::new(Vec::new(), 2 * 1024 * 1024);
    bus.set_input(ActionButtons {
        coin: true,
        ..ActionButtons::default()
    });
    bus.set_input(ActionButtons::default());
    assert_eq!(bus.consume_br2_native_credit_hle_coin_edges(), 1);
    assert_eq!(bus.consume_br2_native_credit_hle_coin_edges(), 0);
}

#[test]
fn eeprom_byte_written_reads_back() {
    let mut bus = Bus::with_board_assets(
        Vec::new(),
        Vec::new(),
        2 * 1024 * 1024,
        NativeBoardAssets {
            at28c16: Some(vec![0; 2048]),
            ..NativeBoardAssets::default()
        },
    );
    bus.write_u8(0x1faf_0010, 0x5a);
    assert_eq!(bus.read_u8(0x1faf_0010), 0x5a);
}

#[test]
fn znsecsel_low_bits_select_the_rom_bank() {
    let mut bus = Bus::new(Vec::new(), 2 * 1024 * 1024);
    bus.write_u8(0x1fa1_0300, 0xfe);
    assert!(bus.zn_board_json().contains("\"rom_bank\":2"));
}

#[test]
fn tick_counts_vertical_blanks_and_keeps_the_remainder() {
    let mut bus = Bus::new(Vec::new(), 2 * 1024 * 1024);
    let before = bus.cycles_until_next_vblank();
    bus.tick(before - 1);
    assert_eq!(bus.vblank_count(), 0);
    bus.tick(1);
    assert_eq!(bus.vblank_count(), 1);
    assert_eq!(bus.cycles_until_next_vblank(), before);
}

#[test]
fn non_blank_eeprom_mode_leaves_assets_alone() {
    let assets = NativeBoardAssets {
        at28c16: Some(vec![0x12; 2048]),
        at28c16_blank_default: false,
        legacy_zinc_input_compat: true,
        ..NativeBoardAssets::default()
    };
    let kept = apply_at28c16_mode_override(assets, "cfg");
    assert_eq!(kept.at28c16, Some(vec![0x12; 2048]));
    assert!(!kept.at28c16_blank_default);
    assert!(kept.legacy_zinc_input_compat);
    let erased = apply_at28c16_mode_override(kept, " Erased ");
    assert_eq!(erased.at28c16, Some(vec![0xff; 2048]));
}

#[test]
fn emulator_delegates_input_and_reads_to_its_bus() {
    let mut emulator = NativeEmulator::with_bus(Bus::new(Vec::new(), 2 * 1024 * 1024));
    assert_eq!(emulator.executed_steps(), 0);
    emulator.set_input(ActionButtons {
        coin: true,
        ..ActionButtons::default()
    });
    emulator.bus.write_u32(0x8000_0100, 0x1234_5678);
    assert_eq!(emulator.debug_read_u32(0x0000_0100), 0x1234_5678);
    assert_eq!(emulator.ram_snapshot()[0x100], 0x78);
    assert_eq!(emulator.executed_steps(), 0);
    assert!(!emulator.has_full_control_activity());
    assert!(emulator.set_coin_input_mapping_name("mame"));
    assert!(!emulator.set_coin_input_mapping_name("nonsense"));
    emulator.set_vblank_presentation_capture_interval(Some(0));
    assert_eq!(emulator.vblank_presentation_capture_interval(), None);
}

#[test]
fn window_frame_is_always_window_sized() {
    let empty = NativeDisplayFrame {
        width: 0,
        height: 0,
        pixels: Vec::new(),
    };
    let incomplete = NativeDisplayFrame {
        width: 320,
        height: 240,
        pixels: vec![1; 100],
    };
    let small = NativeDisplayFrame {
        width: 320,
        height: 240,
        pixels: vec![0x00ff_ffff; 320 * 240],
    };
    for frame in [empty, incomplete, small] {
        let window = native_window_frame_from_display(&frame);
        assert_eq!((window.width, window.height), (512, 480));
        assert_eq!(window.pixels.len(), 512 * 480);
    }
}

#[test]
fn common_video_modes_fill_the_window_and_others_are_letterboxed() {
    assert_eq!(native_window_letterbox_viewport(320, 240, 512, 480), (0, 0, 512, 480));
    assert_eq!(native_window_letterbox_viewport(300, 200, 512, 480), (0, 69, 512, 341));
    assert_eq!(
        native_window_letterbox_viewport_preserving_aspect(512, 240, 512, 480),
        (0, 120, 512, 240)
    );
    assert_eq!(
        native_window_letterbox_viewport_preserving_aspect(100, 400, 512, 480),
        (196, 0, 120, 480)
    );
    assert_eq!(native_window_letterbox_viewport(0, 240, 512, 480), (0, 0, 0, 0));
}

#[test]
fn source_rows_follow_the_chosen_field() {
    assert_eq!(native_window_source_y(0, 480, 480, true, 240), 240);
    assert_eq!(native_window_source_y(479, 480, 480, true, 240), 479);
    assert_eq!(native_window_source_y(100, 480, 480, true, 0), 50);
    assert_eq!(native_window_source_y(100, 240, 480, false, 0), 50);
    assert_eq!(native_window_source_y(100, 240, 0, false, 0), 0);
}

#[test]
fn blank_frames_are_not_playable_in_any_render_context() {
    let frame = NativeDisplayFrame {
        width: 512,
        height: 480,
        pixels: vec![0; 512 * 480],
    };
    assert!(!native_display_frame_has_visible_detail(&frame));
    assert!(!native_display_frame_supports_playable_candidate_with_render_context(&frame, false));
    assert!(!native_display_frame_supports_playable_candidate_with_render_context(&frame, true));
}

fn replay_inputs() -> UnlinkedPrimitiveReplayInputs {
    UnlinkedPrimitiveReplayInputs {
        vblank_count: 24,
        recent_header_count: 0,
        disable_requested: false,
        force_requested: false,
        replay_interval: Some(1),
        last_vblank: None,
        last_packets: 0,
        last_reason: UnlinkedPrimitiveReplayReason::NotAttempted,
        recent_header_writes: 0,
        recent_draw_writes: 0,
        recent_draw_candidates: 0,
        recent_stale_draw_candidates: 0,
        stale_scan_requested: false,
        sparse_scene_stale_scan_allowed: false,
        stale_scan_candidates: 0,
        last_nodes: 0,
        last_nonempty_nodes: 0,
        command_opcode_counts: [0; 256],
    }
}

#[test]
fn replay_is_tried_once_per_vertical_blank() {
    let mut inputs = replay_inputs();
    inputs.last_vblank = Some(24);
    inputs.last_reason = UnlinkedPrimitiveReplayReason::ReplayRejectedAfterValidation;
    let decision = decide_unlinked_primitive_replay(&inputs);
    assert!(!decision.enabled);
    assert_eq!(decision.reason.as_str(), "already_attempted_this_vblank");

    inputs.last_reason = UnlinkedPrimitiveReplayReason::ReplayFullValidationThrottled;
    let decision = decide_unlinked_primitive_replay(&inputs);
    assert_eq!(decision.reason, UnlinkedPrimitiveReplayReason::AlreadyAttemptedThisVblank);
}

#[test]
fn replay_waits_out_a_recent_validation_reject() {
    let mut inputs = replay_inputs();
    inputs.last_vblank = Some(20);
    inputs.last_reason = UnlinkedPrimitiveReplayReason::ReplayRejectedAfterValidation;
    let decision = decide_unlinked_primitive_replay(&inputs);
    assert!(!decision.enabled);
    assert_eq!(decision.reason.as_str(), "recent_validation_reject_cooldown");
    assert_eq!(decision.diagnostics.min_vblank, 20);
}

#[test]
fn replay_switches_and_short_list_rules() {
    let mut inputs = replay_inputs();
    inputs.disable_requested = true;
    inputs.force_requested = true;
    assert_eq!(
        decide_unlinked_primitive_replay(&inputs).reason,
        UnlinkedPrimitiveReplayReason::Disabled
    );
    inputs.disable_requested = false;
    assert!(decide_unlinked_primitive_replay(&inputs).enabled);
    inputs.force_requested = false;
    inputs.replay_interval = None;
    assert_eq!(
        decide_unlinked_primitive_replay(&inputs).reason.as_str(),
        "disabled_by_default"
    );
    inputs.replay_interval = Some(4);
    assert_eq!(
        decide_unlinked_primitive_replay(&inputs).reason.as_str(),
        "linked_list_too_short"
    );
    inputs.recent_draw_writes = 8;
    inputs.recent_header_writes = 1;
    let decision = decide_unlinked_primitive_replay(&inputs);
    assert!(decision.enabled);
    assert_eq!(decision.reason.as_str(), "short_linked_list_recent_primitive_stream");
    assert_eq!(decision.diagnostics.recent_draw_writes, 8);

    let mut stale = replay_inputs();
    stale.sparse_scene_stale_scan_allowed = true;
    stale.stale_scan_candidates = 9;
    stale.recent_header_count = 3;
    let decision = decide_unlinked_primitive_replay(&stale);
    assert_eq!(decision.reason.as_str(), "short_linked_list_stale_sparse_scene");
    assert_eq!(decision.candidate_headers, 9);
}

#[test]
fn replay_on_long_lists_needs_sparse_draws_and_headers() {
    let mut inputs = replay_inputs();
    inputs.last_nodes = 600;
    inputs.last_nonempty_nodes = 40;
    assert_eq!(
        decide_unlinked_primitive_replay(&inputs).reason.as_str(),
        "linked_list_not_sparse"
    );
    inputs.last_nonempty_nodes = 10;
    assert_eq!(
        decide_unlinked_primitive_replay(&inputs).reason.as_str(),
        "not_enough_linked_draw_packets"
    );
    inputs.command_opcode_counts[0x2c] = 8;
    assert_eq!(
        decide_unlinked_primitive_replay(&inputs).reason.as_str(),
        "not_enough_recent_headers"
    );
    inputs.recent_header_writes = 32;
    assert_eq!(
        decide_unlinked_primitive_replay(&inputs).reason.as_str(),
        "no_recent_headers"
    );
    inputs.recent_header_count = 5;
    let decision = decide_unlinked_primitive_replay(&inputs);
    assert!(decision.enabled);
    assert_eq!(decision.reason.as_str(), "sparse_recent_primitive_headers");
    assert_eq!(decision.candidate_headers, 5);
}

#[test]
fn trace_stop_address_is_skipped_the_given_number_of_times() {
    let config = NativeTraceConfig {
        stop_pc: Some(0x8001_0000),
        stop_unaligned_pc: true,
        ..NativeTraceConfig::default()
    };
    let mut skip = 2u64;
    assert!(!config.reached_stop_condition(0x8001_0000, &mut skip, true, false, false, false));
    assert_eq!(skip, 1);
    assert!(!config.reached_stop_condition(0x8001_0000, &mut skip, true, false, false, false));
    assert!(config.reached_stop_condition(0x8001_0000, &mut skip, true, false, false, false));
    assert_eq!(skip, 0);
    assert!(config.reached_stop_condition(0x8001_0002, &mut skip, true, false, false, false));
    assert!(!config.reached_stop_condition(0x8001_0004, &mut skip, false, true, true, true));
}

#[test]
fn trace_ranks_hot_addresses_and_renders_json() {
    let trace = NativeTrace::new(NativeTraceParts {
        requested_steps: 10,
        executed_steps: 9,
        pc_counts: vec![(0x8000_0000, 2), (0x8000_0004, 5), (0x8000_0008, 5), (0x8000_000c, 1)],
        unsupported: vec![(0x4a00_0000, 1), (0x4b00_0000, 3)],
        recent_steps: vec!["{\"pc\":1}".to_string()],
        hot_limit: 2,
        watch_write_count: 4,
        bus_access_trace_json: "{\"operation\":\"read\"}".to_string(),
        state_json: "{}".to_string(),
    });
    assert_eq!(trace.watch_write_count(), 4);
    assert_eq!(trace.bus_access_trace_json(), "{\"operation\":\"read\"}");
    assert_eq!(
        trace.compact_json(),
        "{\"requested_steps\":10,\"executed_steps\":9,\"unique_pcs\":4,\"hot_pcs\":[{\"pc\":2147483652,\"pc_hex\":\"0x80000004\",\"count\":5},{\"pc\":2147483656,\"pc_hex\":\"0x80000008\",\"count\":5}],\"unsupported_instructions\":[{\"instruction\":1258291200,\"instruction_hex\":\"0x4b000000\",\"count\":3},{\"instruction\":1241513984,\"instruction_hex\":\"0x4a000000\",\"count\":1}],\"recent_steps\":[{\"pc\":1}]}"
    );
    assert!(trace
        .json()
        .ends_with(",\"watch_write_count\":4,\"bus_access_trace\":[{\"operation\":\"read\"}],\"state\":{}}"));
}
