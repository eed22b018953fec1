use lib::bus::Bus;
use lib::irq::{IRQ_MASK, IRQ_STATUS, IRQ_STATUS_OFFSET};

#[test]
fn bus_dispatches_halfword_irq_io_accesses() {
    let mut bus = Bus::new(Vec::new(), 2 * 1024 * 1024);
    bus.io_registers[IRQ_STATUS_OFFSET] = 0xff;
    bus.io_registers[IRQ_STATUS_OFFSET + 1] = 0xff;

    bus.write_u16(IRQ_STATUS, 0x00ff);
    bus.write_u16(0xbf80_1074, 0x0101);

    assert_eq!(bus.read_u16(IRQ_STATUS), 0x00ff);
    assert_eq!(bus.read_u16(IRQ_MASK), 0x0101);
}

#[test]
fn vertical_blank_raises_irq_bit_zero_until_acknowledged() {
    let mut bus = Bus::new(Vec::new(), 2 * 1024 * 1024);
    assert_eq!(bus.cycles_until_next_vblank(), 566_000);

    bus.tick(127);
    assert_eq!(bus.cycles_until_next_vblank(), 565_873);
    assert_eq!(bus.vblank_count(), 0);
    assert_eq!(bus.read_u32(IRQ_STATUS) & 1, 0);

    bus.tick(566_000);
    assert_eq!(bus.cycles_until_next_vblank(), 565_873);
    assert_eq!(bus.vblank_count(), 1);
    assert_eq!(bus.read_u32(IRQ_STATUS) & 1, 1);

    // Acknowledging other bits leaves the vertical blank bit set.
    bus.write_u32(IRQ_STATUS, !(1 << 3));
    assert_eq!(bus.read_u32(IRQ_STATUS), 1);
    // Acknowledging bit 0 clears it.
    bus.write_u32(0xbf80_1070, !1);
    assert_eq!(bus.read_u32(IRQ_STATUS), 0);

    // A byte store acknowledges only its own byte.
    bus.tick(566_000 * 3);
    assert_eq!(bus.vblank_count(), 4);
    bus.write_u8(IRQ_STATUS + 1, 0);
    assert_eq!(bus.read_u32(IRQ_STATUS), 1);
    // The mask is stored as written.
    bus.write_u32(IRQ_MASK, 0x0000_0001);
    assert_eq!(bus.read_u32(IRQ_MASK), 1);
}
