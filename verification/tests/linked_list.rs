use lib::bus::Bus;
use lib::linked_list::{gpu_linked_list_walk, GPU_LINKED_LIST_NODE_LIMIT};
use lib::scan::primitive_packet_scan;

#[test]
fn walk_follows_nodes_to_the_bit_23_terminator() {
    let mut bus = Bus::new(Vec::new(), 4 * 1024 * 1024);
    bus.write_u32(0x0000_3000, 0x0100_3008);
    bus.write_u32(0x0000_3004, 0xe100_0400);
    bus.write_u32(0x0000_3008, 0x0280_0000);
    bus.write_u32(0x0000_300c, 0xe200_0001);
    bus.write_u32(0x0000_3010, 0xe300_0002);

    let walk = gpu_linked_list_walk(&bus, 0x8000_3002);
    assert!(walk.terminated);
    assert_eq!(walk.nodes, vec![(0x3000, 0x0100_3008), (0x3008, 0x0280_0000)]);
    assert_eq!(
        walk.commands,
        vec![(0x3004, 0xe100_0400), (0x300c, 0xe200_0001), (0x3010, 0xe300_0002)]
    );
    assert_eq!(walk.visited_nodes(), vec![0x3000, 0x3008]);
}

#[test]
fn walk_stops_at_the_node_limit_on_a_cycle() {
    let mut bus = Bus::new(Vec::new(), 2 * 1024 * 1024);
    bus.write_u32(0x0000_4000, 0x0000_4000);
    let walk = gpu_linked_list_walk(&bus, 0x4000);
    assert!(!walk.terminated);
    assert_eq!(walk.nodes.len(), GPU_LINKED_LIST_NODE_LIMIT as usize);
    assert!(walk.commands.is_empty());
}

#[test]
fn walked_nodes_mark_scanned_packets_linked() {
    let mut bus = Bus::new(Vec::new(), 4 * 1024 * 1024);
    bus.write_u32(0x003a_1000, 0x01ff_ffff);
    bus.write_u32(0x003a_1004, 0xe100_0400);
    bus.write_u32(0x003a_1100, 0x01ff_ffff);
    bus.write_u32(0x003a_1104, 0xe600_0000);

    let walk = gpu_linked_list_walk(&bus, 0x003a_1000);
    assert!(walk.terminated);
    let scan = primitive_packet_scan(&bus, &walk.visited_nodes());
    assert_eq!(scan.last_dma_visited_nodes, 1);
    assert_eq!(scan.candidates, 2);
    assert_eq!(scan.linked_candidates, 1);
    assert_eq!(scan.unlinked_candidates, 1);
    assert_eq!(scan.unlinked_samples[0].address, 0x003a_1100);
}

use lib::dma::{DMA_OTC_BCR, DMA_OTC_CHCR, DMA_OTC_MADR};

#[test]
fn otc_dma_initializes_reverse_ordering_table() {
    let mut bus = Bus::new(Vec::new(), 2 * 1024 * 1024);

    bus.write_u32(DMA_OTC_MADR, 0x0000_2008);
    bus.write_u32(DMA_OTC_BCR, 3);
    bus.write_u32(DMA_OTC_CHCR, 0x1100_0002);

    assert_eq!(bus.read_u32(0x0000_2008), 0x0000_2004);
    assert_eq!(bus.read_u32(0x0000_2004), 0x0000_2000);
    assert_eq!(bus.read_u32(0x0000_2000), 0x00ff_ffff);
}

#[test]
fn otc_dma_needs_the_start_bit_and_caps_its_length() {
    let mut bus = Bus::new(Vec::new(), 2 * 1024 * 1024);
    bus.write_u32(DMA_OTC_MADR, 0x0001_0000);
    bus.write_u32(DMA_OTC_BCR, 2);
    bus.write_u32(DMA_OTC_CHCR, 0x0000_0002);
    assert_eq!(bus.read_u32(0x0001_0000), 0);

    bus.write_u32(DMA_OTC_BCR, 0x0001_ffff);
    bus.write_u32(DMA_OTC_CHCR, 0x1100_0002);
    assert_eq!(bus.read_u32(0x0001_0000), 0x0000_fffc);
    // 4096 entries at most: the last one sits 4095 words below the base.
    assert_eq!(bus.read_u32(0x0001_0000 - 4 * 4095), 0x00ff_ffff);
    assert_eq!(bus.read_u32(0x0001_0000 - 4 * 4096), 0);
    // The table is a linked list the walk follows to its end.
    let walk = gpu_linked_list_walk(&bus, 0x0001_0000);
    assert!(walk.terminated);
    assert_eq!(walk.nodes.len(), 4096);
}
