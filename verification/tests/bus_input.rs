use lib::activity::NativeInputActivity;
use lib::board::{
    active_low_player1_input, active_low_service_input, active_low_system_input, NativeBoardAssets,
    BR2_NATIVE_CREDIT_INPUT_BIT, LEGACY_ZINC_SYSTEM_EDGE_LATCH_READS,
};
use lib::bus::{
    Bus, BR2_CREDIT_PLAYER_MODE_OFFSET, BR2_CREDIT_REQUIRED_P1_OFFSET,
    BR2_CREDIT_REQUIRED_P2_OFFSET, BR2_CREDIT_SHARED_SLOT_OFFSET, BR2_CREDIT_STATE_BASE,
    GPU_VBLANK_PRESENTATION_CAPTURE_INTERVAL,
};
use lib::buttons::ActionButtons;
use lib::config::parse_native_unlinked_primitive_replay_interval_override;
use lib::mapping::NativeCoinInputMapping;
use lib::projection::parse_native_credit_projection_rules;
use lib::stats::Br2NativeCreditHleCheck;

#[test]
fn bus_vblank_presentation_capture_interval_is_configurable() {
    let mut bus = Bus::new(Vec::new(), 2 * 1024 * 1024);

    assert_eq!(
        bus.vblank_presentation_capture_interval(),
        Some(GPU_VBLANK_PRESENTATION_CAPTURE_INTERVAL)
    );
    bus.vblank_count = 1;
    assert!(bus.should_capture_vblank_presented_frame());
    bus.vblank_count = GPU_VBLANK_PRESENTATION_CAPTURE_INTERVAL - 1;
    assert!(!bus.should_capture_vblank_presented_frame());
    bus.vblank_count = GPU_VBLANK_PRESENTATION_CAPTURE_INTERVAL;
    assert!(bus.should_capture_vblank_presented_frame());

    bus.set_vblank_presentation_capture_interval(Some(2));
    bus.vblank_count = 2;
    assert!(bus.should_capture_vblank_presented_frame());
    bus.vblank_count = 3;
    assert!(!bus.should_capture_vblank_presented_frame());

    bus.set_vblank_presentation_capture_interval(None);
    bus.vblank_count = 1;
    assert!(bus.should_capture_vblank_presented_frame());
    bus.vblank_count = 2;
    assert!(!bus.should_capture_vblank_presented_frame());

    bus.set_vblank_presentation_capture_interval(Some(0));
    assert_eq!(bus.vblank_presentation_capture_interval(), None);
}

#[test]
fn bus_unlinked_primitive_replay_interval_env_values_parse() {
    assert_eq!(
        parse_native_unlinked_primitive_replay_interval_override("1"),
        Some(Some(1))
    );
    assert_eq!(
        parse_native_unlinked_primitive_replay_interval_override(" 4 "),
        Some(Some(4))
    );
    assert_eq!(
        parse_native_unlinked_primitive_replay_interval_override("off"),
        Some(None)
    );
    assert_eq!(
        parse_native_unlinked_primitive_replay_interval_override("0"),
        Some(None)
    );
    assert_eq!(
        parse_native_unlinked_primitive_replay_interval_override("invalid"),
        None
    );
}

#[test]
fn znt2p_default_input_mapping_uses_mame_coin_start_bits_only() {
    let input = ActionButtons {
        start: true,
        coin: true,
        service: true,
        ..ActionButtons::default()
    };

    let p1 = active_low_player1_input(input, false);
    let service = active_low_service_input(input, NativeCoinInputMapping::Mame);
    let system = active_low_system_input(input, false, NativeCoinInputMapping::Mame);

    assert_eq!(p1 & 0x80, 0x80, "start is not mirrored onto P1 button 5");
    assert_eq!(service & 0x01, 0, "service clears test/service-mode bit");
    assert_eq!(service & 0x02, 0, "service clears service-button bit");
    assert_eq!(
        service & 0x10,
        0x10,
        "coin is not mirrored onto service coin bit"
    );
    assert_eq!(system & 0x01, 0, "start clears SYSTEM start1");
    assert_eq!(system & 0x02, 0x02, "start2 stays released");
    assert_eq!(system & 0x10, 0, "coin clears SYSTEM coin1");
    assert_eq!(system & 0x20, 0x20, "coin2 stays released");
}

#[test]
fn znt2p_coin_mapping_modes_cover_diagnostic_candidates() {
    let input = ActionButtons {
        coin: true,
        ..ActionButtons::default()
    };

    let legacy_service = active_low_service_input(input, NativeCoinInputMapping::LegacyZinc);
    let legacy_system = active_low_system_input(input, true, NativeCoinInputMapping::LegacyZinc);
    assert_eq!(legacy_service & 0x02, 0);
    assert_eq!(legacy_service & 0x10, 0);
    assert_eq!(legacy_system & 0x10, 0);
    assert_eq!(legacy_system & 0x20, 0);

    let service01 = active_low_service_input(input, NativeCoinInputMapping::Service01);
    assert_eq!(service01 & 0x01, 0);
    assert_eq!(service01 & 0x02, 0x02);
    assert_eq!(service01 & 0x10, 0x10);

    let system20 = active_low_system_input(input, false, NativeCoinInputMapping::System20);
    assert_eq!(system20 & 0x10, 0x10);
    assert_eq!(system20 & 0x20, 0);

    assert_eq!(
        NativeCoinInputMapping::parse("coin-register-bit0"),
        Some(NativeCoinInputMapping::CoinRegisterBit0)
    );
    assert_eq!(
        NativeCoinInputMapping::parse("legacy_zinc"),
        Some(NativeCoinInputMapping::LegacyZinc)
    );
}

#[test]
fn bus_zinc_legacy_assets_enable_compat_input_bits() {
    let mut bus = Bus::with_board_assets(
        Vec::new(),
        Vec::new(),
        2 * 1024 * 1024,
        NativeBoardAssets {
            legacy_zinc_input_compat: true,
            ..NativeBoardAssets::default()
        },
    );

    bus.set_input(ActionButtons {
        start: true,
        coin: true,
        ..ActionButtons::default()
    });

    let p1 = bus.read_u16(0x1fa0_0000);
    assert_eq!(p1 & 0x0080, 0);
    assert_eq!((p1 >> 8) & 0x00ff, p1 & 0x00ff);
    assert_eq!(bus.read_u8(0x1fa0_0200) & 0x02, 0);
    assert_eq!(bus.read_u8(0x1fa0_0200) & 0x10, 0);
    assert_eq!(bus.read_u8(0x1fa0_0300) & 0x01, 0);
    assert_eq!(bus.read_u8(0x1fa0_0300) & 0x02, 0);
    assert_eq!(bus.read_u8(0x1fa0_0300) & 0x10, 0);
    assert_eq!(bus.read_u8(0x1fa0_0300) & 0x20, 0);

    let board_json = bus.zn_board_json();
    assert!(board_json.contains("\"p1_start_active_reads\":1"));
    assert!(board_json.contains("\"legacy_zinc_input_compat\":true"));
}

#[test]
fn explicit_legacy_zinc_mapping_enables_start_mirror_without_asset_compat() {
    let mut bus = Bus::with_board_assets(
        Vec::new(),
        Vec::new(),
        2 * 1024 * 1024,
        NativeBoardAssets::default(),
    );
    assert!(bus.set_coin_input_mapping_name("legacy-zinc"));

    bus.set_input(ActionButtons {
        start: true,
        coin: true,
        ..ActionButtons::default()
    });

    let p1 = bus.read_u8(0x1fa0_0000);
    let system = bus.read_u8(0x1fa0_0300);
    let board_json = bus.zn_board_json();

    assert_eq!(p1 & 0x80, 0, "explicit legacy mapping mirrors start to P1");
    assert_eq!(system & 0x02, 0, "explicit legacy mapping mirrors start2");
    assert!(board_json.contains("\"legacy_zinc_input_compat\":false"));
    assert!(board_json.contains("\"legacy_system_coin_latch_edges\":1"));
    assert!(board_json.contains("\"legacy_system_start_latch_edges\":1"));
}

#[test]
fn bus_injects_br2_credit_slot_from_coin_edge_once() {
    let mut bus = Bus::with_board_assets(
        Vec::new(),
        Vec::new(),
        4 * 1024 * 1024,
        NativeBoardAssets::default(),
    );
    bus.write_u8(BR2_CREDIT_STATE_BASE + BR2_CREDIT_PLAYER_MODE_OFFSET, 0);
    bus.write_u8(BR2_CREDIT_STATE_BASE + BR2_CREDIT_REQUIRED_P1_OFFSET, 1);
    bus.write_u8(BR2_CREDIT_STATE_BASE + BR2_CREDIT_REQUIRED_P2_OFFSET, 1);

    bus.set_input(ActionButtons {
        coin: true,
        ..ActionButtons::default()
    });
    bus.set_input(ActionButtons {
        coin: true,
        ..ActionButtons::default()
    });

    assert_eq!(
        bus.read_u8(BR2_CREDIT_STATE_BASE + BR2_CREDIT_SHARED_SLOT_OFFSET),
        1
    );
    assert_eq!(bus.consume_br2_native_credit_hle_coin_edges(), 0);
    assert!(bus.br2_native_credit_hle_accepted_seen());
}

#[test]
fn bus_injects_br2_credit_after_required_zero_hle_confirms_state() {
    let mut bus = Bus::with_board_assets(
        Vec::new(),
        Vec::new(),
        4 * 1024 * 1024,
        NativeBoardAssets::default(),
    );
    bus.write_u8(BR2_CREDIT_STATE_BASE + BR2_CREDIT_PLAYER_MODE_OFFSET, 0);
    bus.write_u8(BR2_CREDIT_STATE_BASE + BR2_CREDIT_REQUIRED_P1_OFFSET, 0);
    bus.write_u8(BR2_CREDIT_STATE_BASE + BR2_CREDIT_REQUIRED_P2_OFFSET, 0);

    bus.set_input(ActionButtons {
        coin: true,
        ..ActionButtons::default()
    });
    bus.set_input(ActionButtons::default());
    assert_eq!(
        bus.read_u8(BR2_CREDIT_STATE_BASE + BR2_CREDIT_SHARED_SLOT_OFFSET),
        0,
        "required=0 alone is still treated as uninitialized"
    );

    bus.record_br2_native_credit_hle_check(Br2NativeCreditHleCheck {
        player: 0,
        freeplay: false,
        required: 0,
        credit_slot: BR2_CREDIT_STATE_BASE + BR2_CREDIT_SHARED_SLOT_OFFSET,
        credit_before: 0,
        credit_after: 0,
        pending_coin_edges: 0,
        result: 0,
    });
    bus.set_input(ActionButtons::default());

    assert_eq!(
        bus.read_u8(BR2_CREDIT_STATE_BASE + BR2_CREDIT_SHARED_SLOT_OFFSET),
        1
    );
    assert_eq!(bus.consume_br2_native_credit_hle_coin_edges(), 0);
    assert!(bus.br2_native_credit_hle_accepted_seen());
}

#[test]
fn bus_injects_br2_credit_after_required_zero_adapter_confirms_input_loop() {
    let mut bus = Bus::with_board_assets(
        Vec::new(),
        Vec::new(),
        4 * 1024 * 1024,
        NativeBoardAssets::default(),
    );
    bus.write_u8(BR2_CREDIT_STATE_BASE + BR2_CREDIT_PLAYER_MODE_OFFSET, 0);
    bus.write_u8(BR2_CREDIT_STATE_BASE + BR2_CREDIT_REQUIRED_P1_OFFSET, 0);
    bus.write_u8(BR2_CREDIT_STATE_BASE + BR2_CREDIT_REQUIRED_P2_OFFSET, 0);
    bus.zn_board.native_credit_adapter_writes = 1;

    bus.set_input(ActionButtons {
        coin: true,
        ..ActionButtons::default()
    });
    bus.set_input(ActionButtons::default());

    assert_eq!(
        bus.read_u8(BR2_CREDIT_STATE_BASE + BR2_CREDIT_SHARED_SLOT_OFFSET),
        1
    );
    assert_eq!(bus.consume_br2_native_credit_hle_coin_edges(), 0);
    assert!(bus.br2_native_credit_hle_accepted_seen());
}

#[test]
fn bus_does_not_inject_br2_credit_before_price_state_is_initialized() {
    let mut bus = Bus::with_board_assets(
        Vec::new(),
        Vec::new(),
        4 * 1024 * 1024,
        NativeBoardAssets::default(),
    );

    bus.set_input(ActionButtons {
        coin: true,
        ..ActionButtons::default()
    });
    bus.set_input(ActionButtons::default());

    assert_eq!(
        bus.read_u8(BR2_CREDIT_STATE_BASE + BR2_CREDIT_SHARED_SLOT_OFFSET),
        0
    );
    assert_eq!(bus.consume_br2_native_credit_hle_coin_edges(), 1);
    assert!(!bus.br2_native_credit_hle_accepted_seen());
}

#[test]
fn board_input_reads_use_register_base_before_lane_selection() {
    let mut bus = Bus::with_board_assets(
        Vec::new(),
        Vec::new(),
        2 * 1024 * 1024,
        NativeBoardAssets {
            legacy_zinc_input_compat: true,
            ..NativeBoardAssets::default()
        },
    );

    bus.set_input(ActionButtons {
        start: true,
        coin: true,
        punch: true,
        ..ActionButtons::default()
    });

    assert_eq!(bus.read_u16(0x1fa0_0000) & 0x0010, 0);
    assert_eq!(bus.read_u8(0x1fa0_0001) & 0x10, 0);
    let system = bus.read_u16(0x1fa0_0300);
    assert_eq!(system & 0x0011, 0);
    assert_eq!(system & 0x0022, 0);
    let system_mirror = bus.read_u8(0x1fa0_0301);
    assert_eq!(system_mirror & 0x11, 0);
    assert_eq!(system_mirror & 0x22, 0);
    assert_eq!(bus.read_u8(0x9fa0_0301) & 0x11, 0);
    assert_eq!(bus.read_u8(0x9fa0_0301) & 0x22, 0);
    assert_eq!(bus.read_u8(0xbfa0_0301) & 0x11, 0);
    assert_eq!(bus.read_u8(0xbfa0_0301) & 0x22, 0);

    let board_json = bus.zn_board_json();
    assert!(board_json.contains("\"p1_input_reads\":2"), "{board_json}");
    assert!(
        board_json.contains("\"system_input_reads\":6"),
        "{board_json}"
    );
}

#[test]
fn zn2_spu_hack_register_toggles_on_halfword_reads() {
    let mut bus = Bus::new(Vec::new(), 2 * 1024 * 1024);

    assert_eq!(bus.read_u16(0x1fa6_0000), 0x0008);
    assert_eq!(bus.read_u16(0x1fa6_0000), 0x0000);
    assert_eq!(bus.read_u16(0x1fa6_0000), 0x0008);

    let board_json = bus.zn_board_json();
    assert!(board_json.contains("\"zn2_spu_hack_reads\":3"));
    assert!(board_json.contains("\"zn2_spu_hack_value_hex\":\"0x0008\""));
}

#[test]
fn zn2_spu_hack_register_supports_byte_lanes_without_write_side_effects() {
    let mut bus = Bus::new(Vec::new(), 2 * 1024 * 1024);

    assert_eq!(bus.read_u8(0x1fa6_0000), 0x08);
    assert_eq!(bus.read_u8(0x1fa6_0001), 0x00);
    bus.write_u16(0x1fa6_0000, 0xffff);

    assert_eq!(bus.read_u16(0x1fa6_0000), 0x0008);
    let probe_json = bus.runtime_probe_json();
    assert!(probe_json.contains("\"zn2_spu_hack_reads\":3"));
    assert!(probe_json.contains("\"zn2_spu_hack_value_hex\":\"0x0008\""));
}

#[test]
fn board_input_read_summary_tracks_active_buttons_by_port() {
    let mut bus = Bus::new(Vec::new(), 2 * 1024 * 1024);

    bus.set_input(ActionButtons {
        start: true,
        coin: true,
        ..ActionButtons::default()
    });

    assert_eq!(bus.read_u8(0x1fa0_0300) & 0x11, 0);
    assert_eq!(bus.read_u8(0x1fa2_0000), 0);

    let probe_json = bus.input_probe_json();
    assert!(probe_json.contains("\"summary\""));
    assert!(probe_json.contains(
        "\"label\":\"system\",\"reads\":1,\"active_reads\":1,\"start_active_reads\":1,\"coin_active_reads\":1"
    ));
    assert!(probe_json.contains(
        "\"label\":\"coin_register\",\"reads\":1,\"active_reads\":1,\"start_active_reads\":1,\"coin_active_reads\":1"
    ));
    assert!(probe_json.contains("\"last_coin_active_value_hex\":\"0x00000000\""));
    assert!(probe_json.contains("\"recent_active\""));
}

#[test]
fn compact_input_probe_keeps_port_summary_without_recent_event_arrays() {
    let mut bus = Bus::new(Vec::new(), 2 * 1024 * 1024);

    bus.set_input(ActionButtons {
        start: true,
        coin: true,
        ..ActionButtons::default()
    });

    assert_eq!(bus.read_u8(0x1fa0_0300) & 0x11, 0);

    let probe_json = bus.input_compact_probe_json();
    assert!(probe_json.contains("\"zn_input_read_summary\""));
    assert!(probe_json.contains("\"recent_active_zn_input_reads\""));
    assert!(probe_json.contains(
        "\"label\":\"system\",\"reads\":1,\"active_reads\":1,\"start_active_reads\":1,\"coin_active_reads\":1"
    ));
    assert!(probe_json.contains("\"last_start_active_value_hex\":\"0x000000ee\""));
    assert!(probe_json.contains("\"address_hex\":\"0x1fa00300\""));
    assert!(!probe_json.contains("\"recent\""));
    assert!(!probe_json.contains("\"recent_active\""));
    assert!(!probe_json.contains("\"recent_security_transfers\""));
}

#[test]
fn board_coin_input_updates_system_port_and_coin_register_edge_counter() {
    let mut bus = Bus::new(Vec::new(), 2 * 1024 * 1024);

    assert_eq!(bus.read_u8(0x1fa2_0000), 0);

    bus.set_input(ActionButtons {
        coin: true,
        ..ActionButtons::default()
    });
    assert_eq!(bus.read_u8(0x1fa0_0200) & 0x02, 0x02);
    assert_eq!(bus.read_u8(0x1fa0_0200) & 0x10, 0x10);
    assert_eq!(bus.read_u8(0x1fa0_0300) & 0x10, 0);
    assert_eq!(bus.read_u8(0x1fa0_0300) & 0x20, 0x20);
    assert_eq!(bus.read_u8(0x1fa2_0000) & 0x01, 0);

    bus.write_u8(0x1fa2_0000, 0x22);
    assert_eq!(bus.read_u8(0x1fa2_0000), 0x22);

    bus.set_input(ActionButtons::default());
    assert_eq!(bus.read_u8(0x1fa2_0000), 0x22);
    assert_eq!(bus.read_u8(0x1fa0_0300) & 0x10, 0x10);

    bus.set_input(ActionButtons {
        coin: true,
        ..ActionButtons::default()
    });
    assert_eq!(bus.read_u8(0x1fa0_0300) & 0x10, 0);
    assert_eq!(bus.read_u8(0x1fa2_0000), 0x22);

    let board_json = bus.zn_board_json();
    assert!(board_json.contains("\"coin_insert_edges\":2"));
    assert_eq!(bus.input_activity().coin_register_active_reads, 3);
}

#[test]
fn native_credit_adapter_projects_system_coin_to_br2_input_word() {
    let mut bus = Bus::new(Vec::new(), 2 * 1024 * 1024);

    bus.set_input(ActionButtons {
        coin: true,
        ..ActionButtons::default()
    });
    assert_eq!(bus.read_u8(0x1fa0_0300) & 0x10, 0);

    bus.set_trace_context(0x802c_ff84, 1234);
    bus.write_u32(0x1f80_006c, 0);
    bus.clear_trace_context();

    assert_eq!(bus.read_u32(0x1f80_006c), BR2_NATIVE_CREDIT_INPUT_BIT);
    let activity = bus.input_activity();
    assert_eq!(activity.native_credit_adapter_writes, 1);
    assert_eq!(activity.native_credit_adapter_edges, 1);
    assert!(activity.has_native_credit_adapter_activity());
    let probe_json = bus.input_probe_json();
    assert!(
        probe_json.contains("\"native_credit_adapter_last_value_hex\":\"0x00000008\""),
        "{probe_json}"
    );
    assert!(
        probe_json.contains("\"native_credit_adapter_last_pc_hex\":\"0x802cff84\""),
        "{probe_json}"
    );
}

#[test]
fn native_credit_adapter_input_bit_can_be_set_per_bus() {
    let mut bus = Bus::new(Vec::new(), 2 * 1024 * 1024);

    assert!(!bus.set_native_credit_adapter_input_bit(0));
    assert!(bus.set_native_credit_adapter_input_bit(0x400));
    bus.set_input(ActionButtons {
        coin: true,
        ..ActionButtons::default()
    });
    assert_eq!(bus.read_u8(0x1fa0_0300) & 0x10, 0);

    bus.set_trace_context(0x802c_ff84, 1234);
    bus.write_u32(0x1f80_006c, 0x80);
    bus.clear_trace_context();

    assert_eq!(bus.read_u32(0x1f80_006c), 0x480);
    let probe_json = bus.input_probe_json();
    assert!(
        probe_json.contains("\"native_credit_adapter_input_bit_hex\":\"0x00000400\""),
        "{probe_json}"
    );
}

#[test]
fn native_credit_projection_rules_parse_wide_and_custom_targets() {
    let rules = parse_native_credit_projection_rules("wide 0x1f800080/4=0x20 0x1f80007e/2=0x40")
        .expect("projection rules should parse");

    assert!(rules
        .iter()
        .any(|rule| rule.address == 0x1f80_0070 && rule.access_len == 4));
    assert!(rules.iter().any(|rule| {
        rule.address == 0x1f80_0080 && rule.access_len == 4 && rule.mask == Some(0x20)
    }));
    assert!(rules.iter().any(|rule| {
        rule.address == 0x1f80_007e && rule.access_len == 2 && rule.mask == Some(0x40)
    }));
}

#[test]
fn native_credit_projection_projects_configured_copy_halfword() {
    let mut bus = Bus::new(Vec::new(), 2 * 1024 * 1024);

    assert!(bus.set_native_credit_projection_name("copies"));
    assert!(bus.set_native_credit_adapter_input_bit(0x0040));
    bus.set_input(ActionButtons {
        coin: true,
        ..ActionButtons::default()
    });
    assert_eq!(bus.read_u8(0x1fa0_0300) & 0x10, 0);

    bus.write_u16(0x1f80_007e, 0x0001);

    assert_eq!(bus.read_u16(0x1f80_007e), 0x0041);
    let probe_json = bus.input_probe_json();
    assert!(
        probe_json.contains("\"address_hex\":\"0x1f80007e\""),
        "{probe_json}"
    );
    assert_eq!(bus.input_activity().native_credit_adapter_writes, 1);
}

#[test]
fn native_credit_adapter_projects_first_coin_edge_words() {
    let mut bus = Bus::new(Vec::new(), 2 * 1024 * 1024);

    bus.set_input(ActionButtons {
        coin: true,
        start: true,
        ..ActionButtons::default()
    });
    assert_eq!(bus.read_u8(0x1fa0_0300) & 0x10, 0);

    bus.set_trace_context(0x802c_ff84, 1);
    bus.write_u32(0x1f80_006c, 0x800);
    bus.set_trace_context(0x802c_ff94, 2);
    bus.write_u32(0x1f80_0068, 0x800);
    bus.set_trace_context(0x802c_ff98, 3);
    bus.write_u32(0x1f80_0074, 0x800);

    assert_eq!(bus.read_u32(0x1f80_006c), 0x808);
    assert_eq!(bus.read_u32(0x1f80_0068), 0x808);
    assert_eq!(bus.read_u32(0x1f80_0074), 0x808);

    bus.set_trace_context(0x802c_ff84, 4);
    bus.write_u32(0x1f80_006c, 0x800);
    bus.set_trace_context(0x802c_ff94, 5);
    bus.write_u32(0x1f80_0068, 0);
    bus.set_trace_context(0x802c_ff98, 6);
    bus.write_u32(0x1f80_0074, 0);
    bus.clear_trace_context();

    assert_eq!(bus.read_u32(0x1f80_006c), 0x808);
    assert_eq!(bus.read_u32(0x1f80_0068), 0);
    assert_eq!(bus.read_u32(0x1f80_0074), 0);
    assert_eq!(bus.input_activity().native_credit_adapter_edges, 1);
}

#[test]
fn native_credit_adapter_requires_coin_poll_and_br2_input_write_site() {
    let mut bus = Bus::new(Vec::new(), 2 * 1024 * 1024);

    bus.set_input(ActionButtons {
        coin: true,
        ..ActionButtons::default()
    });
    bus.set_trace_context(0x802c_ff84, 10);
    bus.write_u32(0x1f80_006c, 0);
    bus.clear_trace_context();
    assert_eq!(bus.read_u32(0x1f80_006c), 0);

    assert_eq!(bus.read_u8(0x1fa0_0300) & 0x10, 0);
    bus.set_trace_context(0x802c_ff80, 20);
    bus.write_u32(0x1f80_006c, 0x80);
    bus.clear_trace_context();
    assert_eq!(bus.read_u32(0x1f80_006c), 0x80);

    bus.set_trace_context(0x802c_ff84, 30);
    bus.write_u32(0x1f80_0070, 0);
    bus.clear_trace_context();
    assert_eq!(bus.read_u32(0x1f80_0070), 0);
    assert_eq!(bus.input_activity().native_credit_adapter_writes, 0);
}

#[test]
fn board_coin_register_write_tracks_counter_and_lockout_outputs() {
    let mut bus = Bus::new(Vec::new(), 2 * 1024 * 1024);

    bus.set_trace_context(0x8020_0000, 123);
    bus.write_u8(0x1fa2_0000, 0x00);
    assert_eq!(bus.read_u8(0x1fa2_0000), 0x00);
    bus.write_u8(0x1fa2_0000, 0x33);
    bus.write_u8(0x1fa2_0000, 0x33);
    let active_probe_json = bus.input_probe_json();
    assert!(active_probe_json.contains("\"coin_lockout_0\":true"));
    assert!(active_probe_json.contains("\"coin_lockout_1\":true"));
    bus.write_u8(0x1fa2_0000, 0x00);

    let probe_json = bus.input_probe_json();

    assert!(
        probe_json.contains("\"coin_register_writes\":4"),
        "{probe_json}"
    );
    assert!(probe_json.contains("\"coin_counter_0_edges\":1"));
    assert!(probe_json.contains("\"coin_counter_1_edges\":1"));
    assert!(probe_json.contains("\"coin_lockout_0\":false"));
    assert!(probe_json.contains("\"coin_lockout_1\":false"));
    assert!(
        probe_json.contains("\"recent_coin_register_writes\""),
        "{probe_json}"
    );
    assert!(
        probe_json.contains("\"address_hex\":\"0x1fa20000\""),
        "{probe_json}"
    );
    assert!(
        probe_json.contains("\"pc_hex\":\"0x80200000\""),
        "{probe_json}"
    );
    assert!(probe_json.contains("\"cycles\":123"), "{probe_json}");
    assert!(probe_json.contains("\"data_hex\":\"0x33\""), "{probe_json}");
}

fn legacy_bus() -> Bus {
    Bus::with_board_assets(
        Vec::new(),
        Vec::new(),
        2 * 1024 * 1024,
        NativeBoardAssets {
            legacy_zinc_input_compat: true,
            ..NativeBoardAssets::default()
        },
    )
}

#[test]
fn zinc_legacy_coin_compat_mirrors_coin_to_coin_register_bit0() {
    let mut bus = legacy_bus();

    bus.set_input(ActionButtons {
        coin: true,
        ..ActionButtons::default()
    });
    assert_eq!(bus.read_u8(0x1fa2_0000) & 0x01, 0x01);
    assert_eq!(bus.read_u8(0x1fa2_0001) & 0x01, 0x01);
    assert_eq!(bus.read_u8(0x1fa2_0002) & 0x01, 0x01);
    assert_eq!(bus.read_u8(0x1fa2_0003) & 0x01, 0x01);

    bus.set_input(ActionButtons::default());
    assert_eq!(bus.read_u8(0x1fa2_0000) & 0x01, 0);
}

#[test]
fn zinc_legacy_coin_compat_latches_coin_edge_until_coin_register_read() {
    let mut bus = legacy_bus();

    bus.set_input(ActionButtons {
        coin: true,
        ..ActionButtons::default()
    });
    bus.set_input(ActionButtons::default());

    assert_eq!(bus.read_u8(0x1fa2_0001) & 0x01, 0x01);
    assert_eq!(bus.read_u8(0x1fa2_0000) & 0x01, 0);
    assert_eq!(bus.input_activity().coin_register_active_reads, 1);
}

#[test]
fn zinc_legacy_coin_latch_is_not_consumed_by_coin_register_write_merge() {
    let mut bus = legacy_bus();

    bus.set_input(ActionButtons {
        coin: true,
        ..ActionButtons::default()
    });
    bus.set_input(ActionButtons::default());

    bus.write_u8(0x1fa2_0000, 0);

    assert_eq!(bus.input_activity().coin_register_reads, 0);
    assert_eq!(bus.read_u8(0x1fa2_0000) & 0x01, 0x01);
    assert_eq!(bus.read_u8(0x1fa2_0000) & 0x01, 0);
}

#[test]
fn zinc_legacy_system_coin_latch_survives_brief_release_until_system_read() {
    let mut bus = legacy_bus();

    bus.set_input(ActionButtons {
        coin: true,
        ..ActionButtons::default()
    });
    bus.set_input(ActionButtons::default());

    assert_eq!(bus.read_u8(0x1fa0_0300) & 0x10, 0);
    assert_eq!(bus.input_activity().system_coin_active_reads, 1);

    for _ in 1..LEGACY_ZINC_SYSTEM_EDGE_LATCH_READS {
        assert_eq!(bus.read_u8(0x1fa0_0300) & 0x10, 0);
    }
    assert_eq!(bus.read_u8(0x1fa0_0300) & 0x10, 0x10);

    let probe_json = bus.input_probe_json();
    assert!(
        probe_json.contains("\"legacy_system_coin_latch_edges\":1"),
        "{probe_json}"
    );
}

#[test]
fn zinc_legacy_start_latch_reaches_p1_and_system_ports_after_release() {
    let mut bus = legacy_bus();

    bus.set_input(ActionButtons {
        start: true,
        ..ActionButtons::default()
    });
    bus.set_input(ActionButtons::default());

    assert_eq!(bus.read_u8(0x1fa0_0000) & 0x80, 0);
    assert_eq!(bus.read_u8(0x1fa0_0300) & 0x01, 0);
    assert!(bus.input_activity().p1_start_active_reads > 0);
    assert!(bus.input_activity().system_start_active_reads > 0);

    let probe_json = bus.input_probe_json();
    assert!(
        probe_json.contains("\"legacy_system_start_latch_edges\":1"),
        "{probe_json}"
    );
}

#[test]
fn input_activity_reports_direction_and_full_control_status() {
    let no_activity = NativeInputActivity::default();
    assert!(!no_activity.has_direction_activity());
    assert!(!no_activity.has_play_control_activity());
    assert!(!no_activity.has_full_control_activity());
    assert!(!no_activity.has_any_control_activity());

    let partial_activity = NativeInputActivity {
        p1_input_reads: 2,
        p1_right_active_reads: 1,
        p1_punch_active_reads: 1,
        ..NativeInputActivity::default()
    };
    assert!(!partial_activity.has_direction_activity());
    assert!(!partial_activity.has_play_control_activity());
    assert!(!partial_activity.has_full_control_activity());
    assert!(partial_activity.has_any_direction_activity());
    assert!(partial_activity.has_any_attack_activity());
    assert!(partial_activity.has_any_play_control_activity());
    assert!(partial_activity.has_any_control_activity());

    let service_activity = NativeInputActivity {
        system_service_active_reads: 1,
        ..NativeInputActivity::default()
    };
    assert!(service_activity.has_service_activity());
    assert!(service_activity.has_any_control_activity());
    assert!(!service_activity.has_any_play_control_activity());

    let full_activity = NativeInputActivity {
        p1_input_reads: 8,
        p1_up_active_reads: 1,
        p1_down_active_reads: 1,
        p1_left_active_reads: 1,
        p1_right_active_reads: 1,
        p1_start_active_reads: 1,
        p1_punch_active_reads: 1,
        p1_kick_active_reads: 1,
        p1_beast_active_reads: 1,
        p3_input_reads: 1,
        p3_guard_active_reads: 1,
        system_input_reads: 2,
        system_coin_active_reads: 1,
        system_service_active_reads: 1,
        system_start_active_reads: 1,
        coin_register_reads: 1,
        coin_register_active_reads: 1,
        coin_insert_edges: 1,
        legacy_system_coin_latch_edges: 1,
        legacy_system_start_latch_edges: 1,
        native_credit_adapter_writes: 1,
        native_credit_adapter_edges: 1,
        ..NativeInputActivity::default()
    };

    assert!(full_activity.has_direction_activity());
    assert!(full_activity.has_play_control_activity());
    assert!(full_activity.has_full_control_activity());
    assert!(full_activity.has_any_control_activity());
    assert!(full_activity.has_credit_probe_activity());
    assert!(full_activity.has_coin_register_active_activity());
    assert!(full_activity.has_native_credit_adapter_activity());

    let mame_start_activity = NativeInputActivity {
        system_start_active_reads: 1,
        ..NativeInputActivity::default()
    };
    assert!(mame_start_activity.has_start_edge_activity());
    assert!(mame_start_activity.has_start_probe_activity());

    let json = full_activity.json();
    assert!(json.contains("\"has_direction_activity\":true"));
    assert!(json.contains("\"has_play_control_activity\":true"));
    assert!(json.contains("\"has_full_control_activity\":true"));
    assert!(json.contains("\"has_any_direction_activity\":true"));
    assert!(json.contains("\"has_any_attack_activity\":true"));
    assert!(json.contains("\"has_any_play_control_activity\":true"));
    assert!(json.contains("\"has_service_activity\":true"));
    assert!(json.contains("\"has_any_control_activity\":true"));
    assert!(json.contains("\"has_credit_probe_activity\":true"));
    assert!(json.contains("\"has_coin_register_active_activity\":true"));
    assert!(json.contains("\"has_native_credit_adapter_activity\":true"));
}

#[test]
fn input_activity_merges_and_diffs_branch_reads_safely() {
    let baseline = NativeInputActivity {
        p1_input_reads: 8,
        p1_up_active_reads: 2,
        p1_punch_active_reads: 1,
        system_coin_active_reads: 1,
        native_credit_adapter_writes: 1,
        ..NativeInputActivity::default()
    };
    let branch = NativeInputActivity {
        p1_input_reads: 13,
        p1_up_active_reads: 2,
        p1_down_active_reads: 4,
        p1_punch_active_reads: 3,
        system_coin_active_reads: 1,
        p3_guard_active_reads: 5,
        native_credit_adapter_writes: 4,
        native_credit_adapter_edges: 1,
        ..NativeInputActivity::default()
    };

    let delta = branch.saturating_subtracted(baseline);
    assert_eq!(delta.p1_input_reads, 5);
    assert_eq!(delta.p1_up_active_reads, 0);
    assert_eq!(delta.p1_down_active_reads, 4);
    assert_eq!(delta.p1_punch_active_reads, 2);
    assert_eq!(delta.system_coin_active_reads, 0);
    assert_eq!(delta.p3_guard_active_reads, 5);
    assert_eq!(delta.native_credit_adapter_writes, 3);
    assert_eq!(delta.native_credit_adapter_edges, 1);

    let merged = baseline.saturating_added(delta);
    assert_eq!(merged.p1_input_reads, 13);
    assert_eq!(merged.p1_down_active_reads, 4);
    assert_eq!(merged.p1_punch_active_reads, 3);
    assert_eq!(merged.p3_guard_active_reads, 5);
    assert_eq!(merged.native_credit_adapter_writes, 4);
    assert_eq!(merged.native_credit_adapter_edges, 1);
}
