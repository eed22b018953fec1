use lib::bus::{Bus, VBLANK_CYCLES};
use lib::dma::{DMA_GPU_CHCR, DMA_GPU_MADR, DMA_OTC_BCR, DMA_OTC_CHCR, DMA_OTC_MADR};
use lib::primitive::{PrimitiveRamWriteStats, PRIMITIVE_RAM_RECENT_LIMIT};
use lib::replay::{UnlinkedPrimitiveReplayContext, UnlinkedPrimitiveReplayReason};
use lib::header_relations::{
    recent_primitive_header_relations, relations_json_text, LinkedListContext,
};
use lib::relation::{primitive_address_dma_relation, OtcClearRange};
use lib::scan::primitive_packet_scan;

#[test]
fn primitive_stats_classify_headers_and_commands() {
    let mut stats = PrimitiveRamWriteStats::new();

    let header = stats.record(0x0038_0010, 0x01ff_ffff, Some(0x8001_0000), 3, 100);
    assert!(header.header_like);
    assert!(header.command_like);

    let command = stats.record(0x0038_0020, 0x2c80_8080, None, 3, 200);
    assert!(!command.header_like);
    assert!(command.command_like);

    let plain = stats.record(0x0038_0030, 0x0300_0000, None, 3, 300);
    assert!(!plain.header_like);
    assert!(!plain.command_like);

    assert_eq!(stats.writes, 3);
    assert_eq!(stats.header_like_writes, 1);
    assert_eq!(stats.command_like_writes, 2);
    assert_eq!(stats.opcode_counts[0x2c], 1);
    assert_eq!(stats.opcode_counts[0x01], 1);
    assert_eq!(stats.tracked_header_addresses, 1);
    assert_eq!(stats.tracked_command_addresses, 2);
    assert_eq!(stats.header_write_vblank(0x0038_0010), Some(3));
    assert_eq!(stats.header_write_vblank(0x0038_0020), None);
    assert_eq!(stats.command_write_vblank(0x0038_0020), Some(3));
    assert_eq!(stats.header_write_vblank(0x0010_0000), None);
    assert_eq!(stats.last_address, Some(0x0038_0030));
    assert_eq!(stats.recent_header_like_writes.len(), 1);
    assert_eq!(stats.recent_command_like_writes.len(), 2);
}

#[test]
fn primitive_stats_roll_counts_over_at_each_vblank() {
    let mut stats = PrimitiveRamWriteStats::new();
    stats.record(0x0038_0000, 0x2c00_0000, None, 0, 0);
    stats.record(0x0038_0004, 0x3800_0000, None, 0, 0);
    assert_eq!(stats.recent_draw_writes(), 2);

    stats.advance_vblank();
    assert_eq!(stats.current_vblank_writes, 0);
    assert_eq!(stats.last_vblank_writes, 2);
    assert_eq!(stats.last_vblank_command_like_writes, 2);
    assert_eq!(stats.recent_draw_writes(), 2);

    stats.advance_vblank();
    assert_eq!(stats.last_vblank_writes, 0);
    assert_eq!(stats.recent_draw_writes(), 0);
    assert_eq!(stats.writes, 2);
}

#[test]
fn primitive_stats_count_headers_since_a_vblank() {
    let mut stats = PrimitiveRamWriteStats::new();
    stats.record(0x0038_0000, 0x01ff_ffff, None, 1, 0);
    stats.record(0x0038_0008, 0x0200_0000 | 0x0038_0100, None, 5, 0);
    stats.record(0x0038_0010, 0x01ff_ffff, None, 9, 0);
    // A second header at the same address keeps one entry, with the later
    // vertical blank.
    stats.record(0x0038_0000, 0x0180_0000, None, 9, 0);
    assert_eq!(stats.tracked_header_addresses, 3);
    assert_eq!(stats.recent_header_count(0), 3);
    assert_eq!(stats.recent_header_count(5), 3);
    assert_eq!(stats.recent_header_count(6), 2);
    assert_eq!(stats.recent_header_count(10), 0);
}

#[test]
fn primitive_stats_keep_only_the_latest_samples() {
    let mut stats = PrimitiveRamWriteStats::new();
    let total = PRIMITIVE_RAM_RECENT_LIMIT as u32 + 5;
    for i in 0..total {
        stats.record(0x0038_0000 + 4 * (i % 1000), 0x2c00_0000 | i, None, 0, i as u64);
    }
    assert_eq!(stats.recent_command_like_writes.len(), PRIMITIVE_RAM_RECENT_LIMIT);
    assert_eq!(stats.recent_command_like_writes[0].cycles, 5);
    assert_eq!(
        stats.recent_command_like_writes[PRIMITIVE_RAM_RECENT_LIMIT - 1].cycles,
        total as u64 - 1
    );
    assert_eq!(stats.writes, total as u64);
}

#[test]
fn primitive_stats_json_reports_counts_and_samples() {
    let mut stats = PrimitiveRamWriteStats::new();
    stats.record(0x0038_0010, 0x01ff_ffff, Some(0x8001_2340), 2, 77);
    let json = stats.json();
    assert!(json.starts_with("{\"range_start\":\"0x00380000\",\"range_end\":\"0x003c0000\""));
    assert!(json.contains("\"writes\":1"));
    assert!(json.contains("\"header_like_writes\":1"));
    assert!(json.contains("\"tracked_header_addresses\":1"));
    assert!(json.contains("\"last_address_hex\":\"0x00380010\""));
    assert!(json.contains("\"last_value_hex\":\"0x01ffffff\""));
    assert!(json.contains("\"last_pc_hex\":\"0x80012340\""));
    assert!(json.ends_with("]}"));
}

#[test]
fn bus_records_word_stores_into_primitive_ram() {
    let mut bus = Bus::new(Vec::new(), 4 * 1024 * 1024);
    bus.write_u32(0x8038_0100, 0x01ff_ffff);
    bus.write_u32(0x0038_0104, 0xe100_0400);
    bus.write_u32(0x0010_0000, 0x01ff_ffff);
    bus.write_u16(0x0038_0200, 0x1234);

    let stats = &bus.primitive_ram_writes;
    assert_eq!(stats.writes, 2);
    assert_eq!(stats.header_like_writes, 1);
    assert_eq!(stats.command_like_writes, 2);
    assert_eq!(stats.header_write_vblank(0x0038_0100), Some(0));
    assert!(bus.native_sync_json().contains("\"primitive_ram_writes\":{\"range_start\""));

    bus.tick(VBLANK_CYCLES);
    assert_eq!(bus.primitive_ram_writes.last_vblank_writes, 2);
    assert_eq!(bus.primitive_ram_writes.current_vblank_writes, 0);
}

fn long_list_context() -> UnlinkedPrimitiveReplayContext {
    let mut command_opcode_counts = [0u32; 256];
    command_opcode_counts[0x2c] = 8;
    UnlinkedPrimitiveReplayContext {
        disable_requested: false,
        force_requested: false,
        stale_scan_requested: false,
        sparse_scene_stale_scan_allowed: false,
        last_vblank: None,
        last_packets: 0,
        last_reason: UnlinkedPrimitiveReplayReason::NotAttempted,
        recent_draw_candidates: 0,
        recent_stale_draw_candidates: 0,
        stale_scan_candidates: 0,
        last_nodes: 600,
        last_nonempty_nodes: 10,
        command_opcode_counts,
    }
}

#[test]
fn bus_replay_decision_counts_recent_primitive_headers() {
    let mut bus = Bus::new(Vec::new(), 4 * 1024 * 1024);
    bus.set_unlinked_primitive_replay_interval(Some(1));
    let context = long_list_context();

    let decision = bus.unlinked_primitive_replay_decision(&context);
    assert!(!decision.enabled);
    assert_eq!(decision.reason.as_str(), "not_enough_recent_headers");

    for i in 0..40u32 {
        bus.write_u32(0x0038_0000 + 8 * i, 0x01ff_ffff);
    }
    let decision = bus.unlinked_primitive_replay_decision(&context);
    assert!(decision.enabled);
    assert_eq!(decision.reason.as_str(), "sparse_recent_primitive_headers");
    assert_eq!(decision.candidate_headers, 40);
    assert_eq!(decision.diagnostics.recent_header_writes, 40);
    assert_eq!(decision.diagnostics.recent_header_count, 40);

    // Once the stores fall out of the window of recent vertical blanks the
    // headers no longer count.
    bus.tick(VBLANK_CYCLES * 6);
    let decision = bus.unlinked_primitive_replay_decision(&context);
    assert!(!decision.enabled);
    assert_eq!(decision.reason.as_str(), "not_enough_recent_headers");
}

#[test]
fn primitive_packet_scan_distinguishes_linked_and_unlinked_packets() {
    let mut bus = Bus::new(Vec::new(), 4 * 1024 * 1024);
    bus.write_u32(0x003a_1000, 0x01ff_ffff);
    bus.write_u32(0x003a_1004, 0xe100_0400);
    bus.write_u32(0x003a_1100, 0x01ff_ffff);
    bus.write_u32(0x003a_1104, 0xe600_0000);

    bus.write_u32(DMA_GPU_MADR, 0x003a_1000);
    bus.write_u32(DMA_GPU_CHCR, 0x0100_0401);

    let sync_json = bus.native_sync_json();
    assert!(sync_json.contains("\"primitive_packet_scan\""));
    assert!(sync_json.contains("\"last_dma_visited_nodes\":1"));
    assert!(sync_json.contains("\"candidates\":2"));
    assert!(sync_json.contains("\"linked_candidates\":1"));
    assert!(sync_json.contains("\"unlinked_candidates\":1"));
    assert!(sync_json.contains("\"address_hex\":\"0x003a1100\""));
}

#[test]
fn header_relations_use_the_ordering_table_the_bus_cleared() {
    let mut bus = Bus::new(Vec::new(), 4 * 1024 * 1024);
    bus.write_u32(DMA_OTC_MADR, 0x0039_ffec);
    bus.write_u32(DMA_OTC_BCR, 4);
    bus.write_u32(DMA_OTC_CHCR, 0x1100_0002);
    bus.write_u32(0x0039_ffe0, 0x01ff_ffff);
    bus.write_u32(0x0039_ffe4, 0xe100_020a);

    let sync_json = bus.native_sync_compact_json();
    assert!(sync_json.contains("\"recent_primitive_header_relations\""));
    assert!(sync_json.contains("\"address_hex\":\"0x0039ffe0\""));
    assert!(sync_json.contains("\"inside_latest_otc\":true"));
    assert!(sync_json.contains("\"distance_to_latest_otc\":0"));
}

#[test]
fn packet_scan_counts_words_opcodes_and_recent_headers() {
    let mut bus = Bus::new(Vec::new(), 4 * 1024 * 1024);
    // A two-word packet holding one flat triangle (opcode 0x20 takes four
    // words, so it does not split) and one with two state commands.
    bus.write_u32(0x0038_0000, 0x0200_0000 | 0x0038_0100);
    bus.write_u32(0x0038_0004, 0xe100_0000);
    bus.write_u32(0x0038_0008, 0xe200_0000);
    bus.write_u32(0x0038_0100, 0x01ff_ffff);
    bus.write_u32(0x0038_0104, 0x2000_0000);
    let scan = primitive_packet_scan(&bus, &vec![0x0038_0003, 0x0038_0000]);
    assert_eq!(scan.last_dma_visited_nodes, 1);
    assert_eq!(scan.candidates, 1);
    assert_eq!(scan.linked_candidates, 1);
    assert_eq!(scan.candidate_words, 2);
    assert_eq!(scan.opcode_counts[0xe1], 1);
    assert_eq!(scan.current_vblank_candidates, 1);
    assert_eq!(scan.current_vblank_command_candidates, 1);
    assert_eq!(scan.linked_samples[0].address, 0x0038_0000);
    assert_eq!(scan.linked_samples[0].next, 0x0038_0100);
    let json = scan.json();
    assert!(json.contains("\"opcode_counts\":[{\"opcode\":225,\"opcode_hex\":\"0xe1\",\"count\":1}]"));
    assert!(json.contains("\"next_hex\":\"0x380100\""));
}

#[test]
fn packet_scan_on_small_ram_finds_nothing() {
    let bus = Bus::new(Vec::new(), 2 * 1024 * 1024);
    let scan = primitive_packet_scan(&bus, &Vec::new());
    assert_eq!(scan.candidates, 0);
    assert_eq!(scan.previous_vblank, 0);
    assert!(scan.json().ends_with("\"linked_samples\":[],\"unlinked_samples\":[]}"));
}

#[test]
fn dma_relation_reports_linked_list_and_otc_distances() {
    let clears = vec![
        OtcClearRange { vblank: 3, start: Some(0x0039_0010), end: Some(0x0039_0000) },
        OtcClearRange { vblank: 4, start: None, end: None },
        OtcClearRange { vblank: 5, start: Some(0x0039_ffec), end: Some(0x0039_ffe0) },
    ];
    let relation = primitive_address_dma_relation(0x0039_0008, 0x8039_0003, 0x0038_0000, &clears);
    assert_eq!(relation.gpu_start, 0x0039_0000);
    assert_eq!(relation.gpu_start_distance, 8);
    assert_eq!(relation.gpu_first_node_distance, 0x1_0008);
    let latest = relation.latest_otc.unwrap();
    assert_eq!(latest.vblank, 5);
    assert!(!latest.inside);
    assert_eq!(latest.distance, 0x0039_ffe0 - 0x0039_0008);
    let nearest = relation.nearest_otc.unwrap();
    assert_eq!(nearest.vblank, 3);
    assert!(nearest.inside);
    assert_eq!(nearest.distance, 0);

    let json = relation.json();
    assert!(json.starts_with("{\"last_gpu_start\":3735552,\"last_gpu_start_hex\":\"0x00390000\""));
    assert!(json.contains("\"inside_latest_otc\":false"));
    assert!(json.contains("\"latest_otc_low_hex\":\"0x0039ffe0\""));
    assert!(json.contains("\"inside_nearest_otc\":true,\"distance_to_nearest_otc\":0}"));

    let none = primitive_address_dma_relation(0x0039_ffe0, 0, 0, &vec![clears[1]]);
    assert_eq!(none.latest_otc, None);
    assert_eq!(none.nearest_otc, None);
    assert!(none.json().contains("\"latest_otc_vblank\":null"));
}

#[test]
fn dma_relation_keeps_the_more_recent_of_equal_clears() {
    let clears = vec![
        OtcClearRange { vblank: 1, start: Some(0x0039_0000), end: Some(0x0039_0010) },
        OtcClearRange { vblank: 2, start: Some(0x0039_0000), end: Some(0x0039_0010) },
    ];
    let relation = primitive_address_dma_relation(0x0039_0004, 0, 0, &clears);
    assert_eq!(relation.nearest_otc.unwrap().vblank, 2);
    // Only the eight most recent clears are considered.
    let mut many = vec![OtcClearRange { vblank: 0, start: Some(0x0039_0000), end: Some(0x0039_0010) }];
    for i in 1..=8u64 {
        many.push(OtcClearRange { vblank: i, start: Some(0x003a_0000), end: Some(0x003a_0010) });
    }
    let relation = primitive_address_dma_relation(0x0039_0004, 0, 0, &many);
    assert!(!relation.nearest_otc.unwrap().inside);
    assert_eq!(relation.nearest_otc.unwrap().vblank, 8);
}

#[test]
fn header_relations_report_otc_distance_and_candidates() {
    let mut bus = Bus::new(Vec::new(), 4 * 1024 * 1024);
    bus.write_u32(0x0039_ffe0, 0x01ff_ffff);
    bus.write_u32(0x0039_ffe4, 0xe100_020a);

    let ctx = LinkedListContext {
        visited_nodes: Vec::new(),
        last_start: 0x0039_ffe0,
        last_first_node: 0,
        otc_clears: vec![OtcClearRange { vblank: 0, start: Some(0x0039_ffec), end: Some(0x0039_ffe0) }],
    };
    let relations = recent_primitive_header_relations(&bus, &ctx, 8);
    assert_eq!(relations.len(), 1);
    assert!(relations[0].candidate);
    assert!(!relations[0].linked);
    assert!(!relations[0].playfield_bounds);
    let json = relations_json_text(&relations);
    assert!(json.contains("\"address_hex\":\"0x0039ffe0\""));
    assert!(json.contains("\"inside_latest_otc\":true"));
    assert!(json.contains("\"distance_to_latest_otc\":0"));
    assert!(json.contains("\"distance_to_last_gpu_start\":0"));

    let compact = bus.native_sync_compact_json();
    assert!(compact.contains("\"recent_primitive_header_relations\":[{\"address\":3801056"));
    assert!(compact.contains("\"latest_otc_vblank\":null"));
    assert!(compact.contains("\"primitive_ram_writes\":{\"writes\":2,\"command_like_writes\":2,\"header_like_writes\":1"));
    let full = bus.native_sync_json();
    assert!(full.contains("\"primitive_packet_scan\":{\"range_start\""));
    assert!(full.contains("\"unlinked_candidates\":1"));
}
