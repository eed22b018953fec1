use lib::bus::{Bus, BR2_DRAW_SYNC_FLAG_VIRTUAL};
use lib::snapshot::{
    BR2_BOOT_WORD_COPY_LOOP_PHYSICAL, BR2_CODE_PATCH_SNAPSHOT_LEN, BR2_RUNTIME_CODE_SNAPSHOT_START,
};

/// Start of the sound processor's registers in the I/O window.
const SPU_REGION_START: u32 = 0x1f80_1c00;
/// The GPU's command port in the I/O window.
const GPU_GP0: u32 = 0x1f80_1810;

#[test]
fn bus_preserves_mapped_but_unmodeled_register_range_state() {
    let mut bus = Bus::new(Vec::new(), 2 * 1024 * 1024);

    bus.write_u16(SPU_REGION_START + 2, 0xbeef);

    assert_eq!(bus.read_u16(SPU_REGION_START + 2), 0xbeef);
    assert_eq!(bus.read_u16(SPU_REGION_START + 4), 0);
}

#[test]
fn bus_maps_ram_mirrors_scratchpad_and_banked_roms() {
    let mut bus = Bus::with_banked_roms(
        vec![0xaa, 0xbb, 0xcc, 0xdd],
        vec![0x11, 0x22, 0x33, 0x44],
        2 * 1024 * 1024,
    );

    bus.write_u32(0x0020_0000, 0x1234_5678);
    bus.write_u32(0x1f80_0000, 0xfeed_beef);

    assert_eq!(bus.read_u32(0), 0x1234_5678);
    assert_eq!(bus.read_u32(0x8000_0000), 0x1234_5678);
    assert_eq!(bus.read_u32(0x1f80_0000), 0xfeed_beef);
    assert_eq!(bus.read_u32(0x1f00_0000), 0x4433_2211);
    assert_eq!(bus.read_u32(0x1fc0_0000), 0xddcc_bbaa);
}

#[test]
fn bus_freezes_br2_code_patch_snapshot_after_boot_copy() {
    let mut bus = Bus::new(Vec::new(), 4 * 1024 * 1024);
    let mut boot_copy = vec![0u8; BR2_CODE_PATCH_SNAPSHOT_LEN];
    for (index, byte) in boot_copy.iter_mut().enumerate() {
        *byte = (index as u8).wrapping_mul(17).wrapping_add(3);
    }

    bus.write_bytes(0x802c_c100, &boot_copy);
    assert_eq!(bus.read_u32(0x802c_c100), 0x3625_1403);
    assert_eq!(bus.read_u32(0x802c_c104), 0x7a69_5847);

    bus.write_u32(0x802c_c100, 0xa7be_ffe8);
    bus.write_u32(0x802c_c104, 0x0bc0_51f8);

    assert_eq!(bus.read_u32(0x802c_c100), 0x3625_1403);
    assert_eq!(bus.read_u32(0x802c_c104), 0x7a69_5847);
}

#[test]
fn bus_serves_boot_runtime_code_snapshot_after_table_corruption() {
    let mut bus = Bus::new(Vec::new(), 4 * 1024 * 1024);
    let address = 0x8000_0000 | (BR2_RUNTIME_CODE_SNAPSHOT_START + 0x8374);
    bus.set_trace_context(0x8001_011c, 100);
    bus.write_u32(address, 0x0c0c_209e);
    bus.clear_trace_context();

    bus.set_trace_context(0x8035_6f0c, 200);
    bus.write_u32(address, 0x8c0d_209e);
    bus.clear_trace_context();

    assert_eq!(
        bus.read_ram_u32_physical(BR2_RUNTIME_CODE_SNAPSHOT_START + 0x8374),
        Some(0x8c0d_209e)
    );
    assert_eq!(bus.read_u32(address), 0x8c0d_209e);
    bus.set_trace_context(address, 300);
    assert_eq!(bus.read_u32(address), 0x0c0c_209e);
    bus.set_trace_context(address | 0x2000_0000, 400);
    assert_eq!(bus.read_u32(address | 0x2000_0000), 0x0c0c_209e);
    bus.clear_trace_context();
}

#[test]
fn bus_serves_low_boot_runtime_code_snapshot_after_pattern_corruption() {
    let mut bus = Bus::new(Vec::new(), 4 * 1024 * 1024);
    let address = 0x802d_a6b8;
    bus.set_trace_context(0x8001_011c, 100);
    bus.write_u32(address, 0x2442_0001);
    bus.clear_trace_context();

    bus.write_u32(address, 0x5555_5555);

    assert_eq!(bus.read_ram_u32_physical(0x002d_a6b8), Some(0x5555_5555));
    assert_eq!(bus.read_u32(address), 0x5555_5555);
    bus.set_trace_context(address, 300);
    assert_eq!(bus.read_u32(address), 0x2442_0001);
    bus.clear_trace_context();
}

#[test]
fn bus_restores_br2_boot_dispatch_pointer_when_ram_is_zeroed() {
    let mut bus = Bus::new(Vec::new(), 4 * 1024 * 1024);
    let address = 0x8036_647c;

    bus.set_trace_context(BR2_BOOT_WORD_COPY_LOOP_PHYSICAL, 100);
    bus.write_u32(address, 0x8036_643c);
    bus.clear_trace_context();

    bus.write_u32(address, 0);

    assert_eq!(bus.read_u32(address), 0x8036_643c);
    assert_eq!(bus.read_u16(address), 0x643c);
    assert_eq!(bus.read_u8(address), 0x3c);
}

#[test]
fn bus_prefers_live_br2_boot_dispatch_pointer_when_ram_is_nonzero() {
    let mut bus = Bus::new(Vec::new(), 4 * 1024 * 1024);
    let address = 0x8036_647c;

    bus.set_trace_context(BR2_BOOT_WORD_COPY_LOOP_PHYSICAL, 100);
    bus.write_u32(address, 0x8036_643c);
    bus.clear_trace_context();

    bus.write_u32(address, 0x8123_4567);

    assert_eq!(bus.read_u32(address), 0x8123_4567);
}

#[test]
fn bus_restores_br2_boot_gpu_status_pointer_when_ram_is_zeroed() {
    let mut bus = Bus::new(Vec::new(), 4 * 1024 * 1024);
    let address = 0x8036_658c;

    bus.set_trace_context(BR2_BOOT_WORD_COPY_LOOP_PHYSICAL, 100);
    bus.write_u32(address, 0x1f80_1814);
    bus.clear_trace_context();

    bus.write_u32(address, 0);

    assert_eq!(bus.read_u32(address), 0x1f80_1814);
    assert_eq!(bus.read_u16(address), 0x1814);
    assert_eq!(bus.read_u8(address), 0x14);
}

#[test]
fn bus_prefers_live_br2_boot_gpu_status_pointer_when_ram_is_nonzero() {
    let mut bus = Bus::new(Vec::new(), 4 * 1024 * 1024);
    let address = 0x8036_658c;

    bus.set_trace_context(BR2_BOOT_WORD_COPY_LOOP_PHYSICAL, 100);
    bus.write_u32(address, 0x1f80_1814);
    bus.clear_trace_context();

    bus.write_u32(address, 0x1f80_1810);

    assert_eq!(bus.read_u32(address), 0x1f80_1810);
}

#[test]
fn bus_does_not_snapshot_runtime_code_from_non_boot_writes() {
    let mut bus = Bus::new(Vec::new(), 4 * 1024 * 1024);
    let address = 0x8000_0000 | (BR2_RUNTIME_CODE_SNAPSHOT_START + 0x10);

    bus.set_trace_context(0x8035_6f0c, 200);
    bus.write_u32(address, 0x8c0d_209e);
    bus.clear_trace_context();

    assert_eq!(bus.read_u32(address), 0x8c0d_209e);
}

#[test]
fn bus_access_trace_records_io_and_unmapped_accesses_only() {
    let mut bus = Bus::new(Vec::new(), 2 * 1024 * 1024);
    bus.set_access_trace_limit(3);

    bus.write_u32(GPU_GP0, 0x1234_5678);
    let _ = bus.read_u32(GPU_GP0);
    let _ = bus.read_u32(0x1ffe_0130);
    bus.write_u32(0x1ffe_0130, 0x0000_0804);

    let json = bus.access_trace_json();
    assert!(!json.contains("\"address_hex\":\"0x00000000\""));
    assert!(json.contains("\"operation\":\"read\""));
    assert!(json.contains("\"operation\":\"write\""));
    assert!(json.contains("\"region\":\"io\""));
    assert!(json.contains("\"region\":\"cache_control\""));
    assert!(json.contains("\"address_hex\":\"0x1ffe0130\""));
    assert_eq!(json.matches("\"operation\"").count(), 3);
}

#[test]
fn bus_access_trace_records_watched_ram_with_cpu_context() {
    let mut bus = Bus::new(Vec::new(), 4 * 1024 * 1024);
    bus.set_access_trace_limit(8);
    bus.set_access_trace_watch_ranges(vec![(0x803a_2210, 4)]);
    bus.set_access_trace_watch_only(true);
    bus.set_trace_context(0x802d_080c, 1234);

    bus.write_u32(0x803a_2210, 1);
    let _ = bus.read_u32(0x003a_2210);
    let _ = bus.read_u32(GPU_GP0);
    bus.write_u32(0x803a_2220, 2);

    let json = bus.access_trace_json();
    assert!(json.contains("\"region\":\"ram\""));
    assert!(json.contains("\"physical_address_hex\":\"0x003a2210\""));
    assert!(json.contains("\"pc_hex\":\"0x802d080c\""));
    assert!(json.contains("\"cycles\":1234"));
    assert_eq!(json.matches("\"operation\"").count(), 2);
}

#[test]
fn bus_records_banked_rom_read_stats_and_watch_trace() {
    let mut banked = vec![0; 0x0100_0004];
    banked[0x0080_0000..0x0080_0004].copy_from_slice(&[0x78, 0x56, 0x34, 0x12]);
    let mut bus = Bus::with_banked_roms(Vec::new(), banked, 4 * 1024 * 1024);
    bus.set_access_trace_limit(4);
    bus.set_access_trace_watch_ranges(vec![(0x1f00_0000, 4)]);
    bus.set_access_trace_watch_only(true);
    bus.set_trace_context(0x8020_0000, 99);

    bus.write_u8(0x1fa1_0300, 0x01);
    assert_eq!(bus.read_u32(0x1f00_0000), 0x1234_5678);

    let sync_json = bus.native_sync_json();
    assert!(sync_json.contains("\"banked_rom_reads\""));
    assert!(sync_json.contains("\"bank\":1,\"reads\":1"));
    assert!(sync_json.contains("\"last_offset_hex\":\"0x00800000\""));

    let trace_json = bus.access_trace_json();
    assert!(trace_json.contains("\"region\":\"banked_rom\""));
    assert!(trace_json.contains("\"pc_hex\":\"0x80200000\""));
    assert!(trace_json.contains("\"cycles\":99"));
}

#[test]
fn bus_suppresses_cacheable_ram_writes_while_cache_is_isolated() {
    let mut bus = Bus::new(Vec::new(), 2 * 1024 * 1024);
    bus.write_u32(0x0000_0500, 0x1234_5678);

    bus.set_cache_isolated(true);
    bus.write_u32(0x8000_0500, 0xdead_beef);
    bus.write_u32(0xa000_0504, 0xcafe_babe);

    assert_eq!(bus.read_u32(0x0000_0500), 0x1234_5678);
    assert_eq!(bus.read_u32(0x0000_0504), 0xcafe_babe);
    assert!(bus.cache_isolated());
}

#[test]
fn bus_byte_copy_uses_forward_cpu_order_for_overlapping_backrefs() {
    let mut bus = Bus::new(Vec::new(), 2 * 1024 * 1024);
    bus.write_u8(0x0000_1000, b'A');

    let copied = bus
        .try_copy_bytes(0x0000_1000, 0x0000_1001, 4)
        .expect("overlapping byte copy");

    assert_eq!(copied, b"AAAA");
    assert_eq!(bus.read_bytes(0x0000_1000, 5), b"AAAAA");
}

#[test]
fn vblank_clears_bloody_roar_draw_sync_flag() {
    let mut bus = Bus::new(Vec::new(), 4 * 1024 * 1024);

    bus.write_u32(BR2_DRAW_SYNC_FLAG_VIRTUAL, 1);
    bus.tick(566_000);

    assert_eq!(bus.read_u32(BR2_DRAW_SYNC_FLAG_VIRTUAL), 0);
    assert!(bus
        .native_sync_json()
        .contains("\"vblank_draw_sync_clears\":1"));
}

#[test]
fn draw_sync_json_tracks_game_writes_separately_from_vblank_clears() {
    let mut bus = Bus::new(Vec::new(), 4 * 1024 * 1024);

    bus.write_u32(BR2_DRAW_SYNC_FLAG_VIRTUAL, 1);
    bus.write_u32(BR2_DRAW_SYNC_FLAG_VIRTUAL, 0);
    bus.write_u32(BR2_DRAW_SYNC_FLAG_VIRTUAL, 7);

    let json = bus.native_sync_json();
    assert!(json.contains("\"game_set_writes\":1"));
    assert!(json.contains("\"game_clear_writes\":1"));
    assert!(json.contains("\"game_other_writes\":1"));
    assert!(json.contains("\"last_game_write_value\":7"));
}

#[test]
fn bus_models_raizing_zn_board_config_and_bank_select() {
    let mut banked = vec![0; 0x0180_0000];
    banked[0] = 0x11;
    banked[0x0080_0000] = 0x22;
    banked[0x0100_0000] = 0x33;
    let mut bus = Bus::with_banked_roms(Vec::new(), banked, 4 * 1024 * 1024);

    assert_eq!(bus.read_u8(0x1fa1_0200), 0x69);
    assert_eq!(bus.read_u8(0x1f00_0000), 0x11);

    bus.write_u8(0x1fa1_0300, 0x01);
    assert_eq!(bus.read_u8(0x1fa1_0300), 0x01);
    assert_eq!(bus.read_u8(0x1f00_0000), 0x22);

    bus.write_u8(0x1fa1_0300, 0x02);
    assert_eq!(bus.read_u8(0x1f00_0000), 0x33);

    assert_eq!(bus.read_u8(0x1faf_0000), 0xff);
    assert_eq!(bus.read_u16(0x1fb2_0000), 0xffff);
    assert!(bus.zn_board_json().contains("\"rom_bank\":2"));
}
