//! Properties of the bus that span several operations.
use vstd::prelude::*;
use crate::address::{
    lemma_le_roundtrip, lemma_physical, spec_board_register_base, spec_cache_control_address,
    spec_le_bytes, spec_le_u32, spec_physical, spec_ram_offset, spec_spliced,
};
use crate::board::{inc, ZnBoard};
use crate::bus::{Bus, BusAccess, BusRegion, VBLANK_CYCLES};
use crate::irq::{spec_io_stored, spec_vblank_irq_raised, IRQ_STATUS, IRQ_STATUS_OFFSET};
use crate::snapshot::{
    spec_all_valid, spec_byte_physical, spec_executing, spec_in_boot_global_fallback_range,
    spec_put_bytes, CodeSnapshots, BR2_CODE_PATCH_SNAPSHOT_END, BR2_CODE_PATCH_SNAPSHOT_LEN,
    BR2_CODE_PATCH_SNAPSHOT_START, BR2_RUNTIME_CODE_SNAPSHOT_END, BR2_RUNTIME_CODE_SNAPSHOT_START,
};

verus! {

/// The bytes of an access that does not cross the top of the physical map
/// sit at consecutive physical addresses.
pub proof fn lemma_byte_physical_consecutive(address: u32, i: int)
    requires
        0 <= i < 4,
        spec_physical(address) + i <= 0x1fff_ffff,
    ensures
        spec_byte_physical(address, i) == spec_physical(address) + i,
{
    let k = i as u32;
    assert(k < 4 && (address & 0x1fff_ffff) + k <= 0x1fff_ffff ==> address + k <= 0xffff_ffff)
        by (bit_vector);
    assert(k < 4 && (address & 0x1fff_ffff) + k <= 0x1fff_ffff ==> ((address + k) as u32)
        & 0x1fff_ffff == (address & 0x1fff_ffff) + k) by (bit_vector);
}

/// Storing the bytes of an access that lies inside a copied range leaves
/// them, valid, at its offset.
pub proof fn lemma_put_bytes_inside(
    copy: (Seq<u8>, Seq<bool>),
    start: u32,
    address: u32,
    bytes: Seq<u8>,
    n: nat,
)
    requires
        copy.0.len() == copy.1.len(),
        n <= 4,
        n <= bytes.len(),
        start <= spec_physical(address),
        spec_physical(address) - start + n <= copy.0.len(),
        spec_physical(address) + 4 <= 0x1fff_ffff,
    ensures
        ({
            let after = spec_put_bytes(copy, start, address, bytes, n);
            let off = spec_physical(address) - start;
            &&& after.0.len() == copy.0.len()
            &&& after.1.len() == copy.1.len()
            &&& after.0.subrange(off, off + n) == bytes.take(n as int)
            &&& forall|k: int| off <= k < off + n ==> #[trigger] after.1[k]
            &&& forall|k: int| 0 <= k < after.1.len() && !(off <= k < off + n) ==> after.1[k]
                == copy.1[k]
            &&& forall|k: int| 0 <= k < after.0.len() && !(off <= k < off + n) ==> after.0[k]
                == copy.0[k]
        }),
    decreases n,
{
    if n > 0 {
        lemma_put_bytes_inside(copy, start, address, bytes, (n - 1) as nat);
        lemma_byte_physical_consecutive(address, n - 1);
        let off = spec_physical(address) - start;
        let after = spec_put_bytes(copy, start, address, bytes, n);
        let before = spec_put_bytes(copy, start, address, bytes, (n - 1) as nat);
        assert(after.0.subrange(off, off + n) =~= bytes.take(n as int)) by {
            assert forall|k: int| off <= k < off + n - 1 implies after.0[k] == before.0[k] by {}
            assert(before.0.subrange(off, off + n - 1) == bytes.take(n - 1));
            assert forall|j: int| 0 <= j < n - 1 implies after.0.subrange(off, off + n)[j]
                == bytes.take(n as int)[j] by {
                assert(before.0.subrange(off, off + n - 1)[j] == bytes.take(n - 1)[j]);
            }
        }
    }
}

/// The memory map, the same in every segment: an access that starts
/// inside main RAM (in its 8 MiB window) and ends inside it is a RAM access; one inside the 1 KiB scratchpad at physical
/// `0x1f80_0000` a scratchpad access; a byte, halfword or word inside the
/// I/O window `0x1f80_1000..=0x1f80_2fff` an I/O access; and one inside the
/// BIOS ROM at `0x1fc0_0000` (below the cache control register) a ROM
/// access.
pub proof fn law_memory_map(bus: Bus, address: u32, len: usize)
    requires
        bus.wf(),
    ensures
        spec_physical(address) < 0x0080_0000 && spec_physical(address) < bus.ram@.len()
            && spec_physical(address) + len <= bus.ram@.len() ==> bus.spec_region(address, len)
            == BusRegion::Ram,
        0x1f80_0000 <= spec_physical(address) && spec_physical(address) + len <= 0x1f80_0400
            ==> bus.spec_region(address, len) == BusRegion::Scratchpad,
        (len == 1 || len == 2 || len == 4) && 0x1f80_1000 <= spec_physical(address) && spec_physical(
            address,
        ) + len <= 0x1f80_3000 ==> bus.spec_region(address, len) == BusRegion::Io,
        0x1fc0_0000 <= spec_physical(address) < 0x1ffe_0000 && spec_physical(address) - 0x1fc0_0000
            + len <= bus.rom@.len() ==> bus.spec_region(address, len) == BusRegion::Rom,
{
    lemma_physical(address);
    lemma_physical(0xfffe_0130);
    let p = spec_physical(address);
    assert(bus.ram.len() == bus.ram@.len() && bus.rom.len() == bus.rom@.len());
    if p < 0x0080_0000 && p < bus.ram@.len() && p + len <= bus.ram@.len() {
        vstd::arithmetic::div_mod::lemma_small_mod(p as nat, bus.ram@.len());
    }
    if 0x1fc0_0000 <= p < 0x1ffe_0000 && p - 0x1fc0_0000 + len <= bus.rom@.len() {
        assert(!spec_cache_control_address(address));
    }
}

/// What the boot copy loop stores inside the runtime code range, the
/// runtime copy reads back: a store of one to four bytes that lies inside
/// the range reads back, at the same address and width, as those bytes in
/// little-endian order.
pub proof fn law_runtime_copy_write_then_read(
    s0: CodeSnapshots,
    address: u32,
    bytes: Seq<u8>,
    s1: CodeSnapshots,
)
    requires
        s0.wf(),
        s1.wf(),
        1 <= bytes.len() <= 4,
        BR2_RUNTIME_CODE_SNAPSHOT_START <= spec_physical(address),
        spec_physical(address) + bytes.len() <= BR2_RUNTIME_CODE_SNAPSHOT_END,
        s1.spec_runtime_copy() == spec_put_bytes(
            s0.spec_runtime_copy(),
            BR2_RUNTIME_CODE_SNAPSHOT_START,
            address,
            bytes,
            bytes.len(),
        ),
    ensures
        s1.spec_runtime_value(address, bytes.len() as usize) == Some(spec_le_u32(bytes)),
{
    lemma_put_bytes_inside(
        s0.spec_runtime_copy(),
        BR2_RUNTIME_CODE_SNAPSHOT_START,
        address,
        bytes,
        bytes.len(),
    );
    let off = spec_physical(address) - BR2_RUNTIME_CODE_SNAPSHOT_START;
    assert(bytes.take(bytes.len() as int) =~= bytes);
    assert(spec_all_valid(s1.runtime_valid@, off, bytes.len() as int));
}

/// What a word store to RAM writes, a word load there reads back: unless
/// the isolated cache swallows the store, the CPU is fetching that very
/// word (served from the runtime code copy), the word lies in the frozen
/// code patch copy, or a zero is stored to a boot global the runtime copy
/// restores. The store changes only those four RAM bytes, and every
/// segment's view of the same physical word reads the stored value.
pub proof fn law_ram_word_write_then_read(s0: Bus, address: u32, value: u32, s1: Bus)
    requires
        s0.wf(),
        s0.spec_write_effect(address, value, 4, s1),
        s0.spec_region(address, 4) == BusRegion::Ram,
        !s0.spec_write_suppressed(address),
        !spec_executing(s0.trace.pc, address),
        !(s0.snapshots.patch_frozen && BR2_CODE_PATCH_SNAPSHOT_START <= spec_physical(address)
            && spec_physical(address) + 4 <= BR2_CODE_PATCH_SNAPSHOT_END),
        value != 0 || !spec_in_boot_global_fallback_range(
            spec_physical(address) as int,
            spec_physical(address) + 4,
        ),
    ensures
        s1.spec_read_value(address, 4) == value,
        s1.spec_region(address, 4) == BusRegion::Ram,
        s1.ram@ == spec_spliced(
            s0.ram@,
            spec_ram_offset(address, s0.ram@.len() as usize, 4).unwrap() as int,
            spec_le_bytes(value),
        ),
        s1.scratchpad@ == s0.scratchpad@,
        forall|b: u32|
            spec_physical(b) == spec_physical(address) ==> #[trigger] s1.spec_read_value(b, 4)
                == value,
{
    let bytes = spec_le_bytes(value);
    lemma_le_roundtrip(value);
    assert(bytes.take(4) =~= bytes);
    let off = spec_ram_offset(address, s0.ram@.len() as usize, 4).unwrap() as int;
    assert(s1.ram@ == spec_spliced(s0.ram@, off, bytes));
    assert(s1.ram@.subrange(off, off + 4) =~= bytes);
    assert(s1.spec_region(address, 4) == BusRegion::Ram);
    assert(s1.trace.pc == s0.trace.pc);
    let p = spec_physical(address);
    if s1.snapshots.patch_frozen && BR2_CODE_PATCH_SNAPSHOT_START <= p && p + 4
        <= BR2_CODE_PATCH_SNAPSHOT_END {
        assert(!s0.snapshots.patch_frozen);
        lemma_put_bytes_inside(
            s0.snapshots.spec_patch_copy(),
            BR2_CODE_PATCH_SNAPSHOT_START,
            address,
            bytes,
            4,
        );
        let poff = p - BR2_CODE_PATCH_SNAPSHOT_START;
        assert(s1.snapshots.patch@.subrange(poff, poff + 4) == bytes);
    }
    assert forall|b: u32| spec_physical(b) == spec_physical(address) implies #[trigger] s1.spec_read_value(
        b,
        4,
    ) == value by {
        law_segments_read_alike(s1, address, b, 4);
    }
}

/// Reads see the physical address only: the KUSEG, KSEG0 and KSEG1
/// windows onto the same physical address read alike.
pub proof fn law_segments_read_alike(bus: Bus, a: u32, b: u32, len: usize)
    requires
        spec_physical(a) == spec_physical(b),
    ensures
        bus.spec_region(a, len) == bus.spec_region(b, len),
        bus.spec_read_value(a, len) == bus.spec_read_value(b, len),
{
    assert(a == 0xfffe_0130 ==> spec_physical(a) == 0x1ffe_0130) by {
        assert(0xfffe_0130u32 & 0x1fff_ffff == 0x1ffe_0130) by (bit_vector);
    }
    assert(b == 0xfffe_0130 ==> spec_physical(b) == 0x1ffe_0130) by {
        assert(0xfffe_0130u32 & 0x1fff_ffff == 0x1ffe_0130) by (bit_vector);
    }
    reveal(crate::board::ZnBoard::spec_read);
}

/// While the cache is isolated, CPU stores to cached addresses do not
/// reach memory.
pub proof fn law_isolated_cache_swallows_stores(s0: Bus, address: u32, value: u32, len: usize, s1: Bus)
    requires
        s0.wf(),
        len == 1 || len == 2 || len == 4,
        s0.spec_write_effect(address, value, len, s1),
        s0.spec_write_suppressed(address),
        s0.spec_region(address, len) != BusRegion::CacheControl,
        s0.spec_region(address, len) != BusRegion::ZnBoard,
        s0.spec_region(address, len) != BusRegion::Io,
    ensures
        s1.ram@ == s0.ram@,
        s1.scratchpad@ == s0.scratchpad@,
        s1.cache.isolated_write_count == inc(s0.cache.isolated_write_count),
        s1.cache.isolated_last_address == Some(address),
{
}

/// No store changes the BIOS or the banked ROMs.
pub proof fn law_stores_leave_roms(s0: Bus, address: u32, value: u32, len: usize, s1: Bus)
    requires
        s0.spec_write_effect(address, value, len, s1),
    ensures
        s1.rom@ == s0.rom@,
        s1.banked_roms@ == s0.banked_roms@,
{
}

/// Time is kept exactly: the cycles ticked are the vertical blanks counted
/// times their length plus the change of the cycle accumulator (while the
/// counters stay below their limits).
pub proof fn law_tick_keeps_cycles(s0: Bus, cycles: u64, s1: Bus)
    requires
        s0.vblank_cycle_accumulator < VBLANK_CYCLES,
        s0.vblank_cycle_accumulator + cycles <= u64::MAX,
        s0.vblank_count + (s0.vblank_cycle_accumulator + cycles) / (VBLANK_CYCLES as int) <= u64::MAX,
        s1.vblank_cycle_accumulator == (s0.vblank_cycle_accumulator + cycles) % (VBLANK_CYCLES as int),
        s1.vblank_count == s0.vblank_count + (s0.vblank_cycle_accumulator + cycles) / (
        VBLANK_CYCLES as int),
    ensures
        (s1.vblank_count - s0.vblank_count) * VBLANK_CYCLES + s1.vblank_cycle_accumulator
            == s0.vblank_cycle_accumulator + cycles,
        s1.vblank_cycle_accumulator < VBLANK_CYCLES,
{
    let total = s0.vblank_cycle_accumulator + cycles;
    assert((total / (VBLANK_CYCLES as int)) * VBLANK_CYCLES + total % (VBLANK_CYCLES as int)
        == total) by (nonlinear_arith);
}

/// Coin edges are handed out once: taking them twice gives nothing the
/// second time.
pub proof fn law_coin_edges_taken_once(s0: Bus, s1: Bus)
    requires
        s1 == (Bus {
            br2_native_credit_hle_consumed_coin_edges: s0.zn_board.coin_insert_edges,
            ..s0
        }),
    ensures
        s1.spec_pending_coin_edges() == 0,
{
}

/// Once the game's credit state is ready, an injection turns every pending
/// coin edge into credit: none is left pending.
pub proof fn law_injection_leaves_no_pending_edges(s0: Bus, s1: Bus)
    requires
        s0.spec_credit_state_ready(),
        s0.spec_credit_injected(s1),
    ensures
        s1.spec_pending_coin_edges() == 0,
{
    if s0.spec_pending_coin_edges() != 0 {
        let after = choose|after: Bus|
            s0.spec_after_accesses(
                Bus::spec_ready_reads() + s0.spec_injection_accesses(),
                after,
            ) && s1 == (Bus {
                br2_native_credit_hle_consumed_coin_edges: s0.zn_board.coin_insert_edges,
                br2_native_credit_hle: s0.br2_native_credit_hle.spec_after_record(
                    s0.spec_injection_check(),
                ),
                ..after
            });
        let states = choose|states: Seq<Bus>|
            Bus::spec_runs(states, Bus::spec_ready_reads() + s0.spec_injection_accesses())
                && states[0] == s0 && states.last() == after;
        let accesses = Bus::spec_ready_reads() + s0.spec_injection_accesses();
        crate::bus::lemma_credit_addresses();
        assert forall|i: int| 0 <= i < accesses.len() implies #[trigger] spec_ram_window_access(
            accesses[i],
        ) by {
            if i < 4 {
                assert(accesses[i] == Bus::spec_ready_reads()[i]);
            } else {
                assert(accesses[i] == s0.spec_injection_accesses()[i - 4]);
            }
        }
        lemma_runs_keep_coin_edges(states, accesses);
    }
}

/// The credit state block and its slot are plain RAM: no access the
/// injection makes touches the board's coin edge counter.
pub proof fn lemma_runs_keep_coin_edges(states: Seq<Bus>, accesses: Seq<BusAccess>)
    requires
        Bus::spec_runs(states, accesses),
        forall|i: int| 0 <= i < accesses.len() ==> #[trigger] spec_ram_window_access(accesses[i]),
    ensures
        states.last().zn_board.coin_insert_edges == states[0].zn_board.coin_insert_edges,
    decreases accesses.len(),
{
    if accesses.len() > 0 {
        let n = accesses.len() - 1;
        lemma_runs_keep_coin_edges(states.drop_last(), accesses.drop_last());
        assert(states.drop_last().last() == states[n]);
        assert(spec_ram_window_access(accesses[n]));
        assert(states[n].spec_access(accesses[n], states[n + 1]));
        match accesses[n] {
            BusAccess::Read { address, len } => {
                assert(states[n].spec_region(address, len) != BusRegion::ZnBoard);
            },
            BusAccess::Write { address, value, len } => {
                assert(states[n].spec_region(address, len) != BusRegion::ZnBoard);
            },
        }
    }
}

/// An access to the RAM window (below 8 MiB physical, not the cache
/// control register).
pub open spec fn spec_ram_window_access(access: BusAccess) -> bool {
    match access {
        BusAccess::Read { address, .. } => spec_physical(address) < 0x0080_0000 && address
            != 0xfffe_0130,
        BusAccess::Write { address, .. } => spec_physical(address) < 0x0080_0000 && address
            != 0xfffe_0130,
    }
}

/// A byte stored to the settings EEPROM reads back.
pub proof fn law_eeprom_write_then_read(
    b0: ZnBoard,
    address: u32,
    value: u32,
    pc: Option<u32>,
    vblank: u64,
    cycles: u64,
    b1: ZnBoard,
)
    requires
        b0.wf(),
        0x1faf_0000 <= spec_physical(address) <= 0x1faf_07ff,
        b0.spec_access_write(address, value, 1, pc, vblank, cycles, b1),
    ensures
        b1.spec_read(address, 1).1 == value & 0xff,
{
    reveal(ZnBoard::spec_read);
    let p = spec_physical(address);
    assert(p <= 0x1fff_ffff ==> p & 0x1fff_ffff == p) by (bit_vector);
    let cur = b0.spec_read_for_merge(p);
    assert(((((cur & !(0xffu32 << 0u32)) | ((value << 0u32) & (0xffu32 << 0u32))) as u8) as u32
        >> 0u32) & 0xff == value & 0xff) by (bit_vector);
}

/// Bits 0 and 1 of a byte stored to ZNSECSEL select the ROM bank.
pub proof fn law_znsecsel_selects_bank(
    b0: ZnBoard,
    address: u32,
    value: u32,
    pc: Option<u32>,
    vblank: u64,
    cycles: u64,
    b1: ZnBoard,
)
    requires
        b0.wf(),
        spec_physical(address) == 0x1fa1_0300,
        b0.spec_access_write(address, value, 1, pc, vblank, cycles, b1),
    ensures
        b1.rom_bank == (value & 0xff) & 0x03,
        b1.znsecsel == value & 0xff,
{
    let p = spec_physical(address);
    assert(p == 0x1fa1_0300u32 ==> p & !0x03u32 == p && p & 0x1fff_ffff == p) by (bit_vector);
    let cur = b0.spec_read_for_merge(p);
    assert(((cur & !(0xffu32 << 0u32)) | ((value << 0u32) & (0xffu32 << 0u32))) as u8 == (value
        & 0xff) as u8) by (bit_vector);
    assert(((value & 0xff) as u8) & 0x03u8 == ((value & 0xff) & 0x03) as u8) by (bit_vector);
    assert((value & 0xff) < 256 && (value & 0xff) & 0x03 < 4) by (bit_vector);
    assert(spec_board_register_base(address) == p);
    assert(spec_physical(spec_board_register_base(address)) == p);
}

/// The status register reads back as the word its four bytes form.
proof fn lemma_irq_status_read(s: Bus)
    requires
        s.wf(),
    ensures
        Bus::spec_io_offset(IRQ_STATUS) == IRQ_STATUS_OFFSET,
        s.spec_region(IRQ_STATUS, 4) == BusRegion::Io,
        s.spec_read_value(IRQ_STATUS, 4) == spec_le_u32(
            s.io_registers@.subrange(IRQ_STATUS_OFFSET as int, IRQ_STATUS_OFFSET + 4),
        ),
{
    assert(spec_physical(IRQ_STATUS) == 0x1f80_1070 && spec_physical(0xfffe_0130u32) == 0x1ffe_0130)
        by (bit_vector);
}

/// A vertical blank raises the vertical blank interrupt: the status word
/// read afterwards has bit 0 set, and its other bits are as they were.
pub proof fn law_vblank_raises_irq(s0: Bus, s1: Bus)
    requires
        s0.wf(),
        s1.wf(),
        s1.io_registers@ == spec_vblank_irq_raised(s0.io_registers@),
    ensures
        s1.spec_read_value(IRQ_STATUS, 4) & 1 == 1,
        s1.spec_read_value(IRQ_STATUS, 4) == s0.spec_read_value(IRQ_STATUS, 4) | 1,
{
    lemma_irq_status_read(s0);
    lemma_irq_status_read(s1);
    let o = IRQ_STATUS_OFFSET as int;
    let b0 = s0.io_registers@[o];
    let b1 = s0.io_registers@[o + 1];
    let b2 = s0.io_registers@[o + 2];
    let b3 = s0.io_registers@[o + 3];
    assert(s0.io_registers@.subrange(o, o + 4) =~= seq![b0, b1, b2, b3]);
    assert(s1.io_registers@.subrange(o, o + 4) =~= seq![b0 | 1u8, b1, b2, b3]);
    assert(((b0 | 1u8) as u32) | ((b1 as u32) << 8u32) | ((b2 as u32) << 16u32) | ((b3 as u32)
        << 24u32) == ((b0 as u32) | ((b1 as u32) << 8u32) | ((b2 as u32) << 16u32) | ((b3 as u32)
        << 24u32)) | 1u32 && (((b0 as u32) | ((b1 as u32) << 8u32) | ((b2 as u32) << 16u32) | ((
    b3 as u32) << 24u32)) | 1u32) & 1u32 == 1u32) by (bit_vector);
}

/// A word stored to the status register acknowledges: the status read
/// afterwards keeps only the bits that were set in both.
pub proof fn law_irq_status_store_acknowledges(s0: Bus, value: u32, s1: Bus)
    requires
        s0.wf(),
        s1.wf(),
        s0.spec_write_effect(IRQ_STATUS, value, 4, s1),
    ensures
        s1.spec_read_value(IRQ_STATUS, 4) == s0.spec_read_value(IRQ_STATUS, 4) & value,
{
    lemma_irq_status_read(s0);
    lemma_irq_status_read(s1);
    let o = IRQ_STATUS_OFFSET as int;
    let r = s0.io_registers@;
    let v = spec_le_bytes(value);
    assert(v.take(4) =~= v);
    let stored = spec_io_stored(r, o, v);
    assert(Bus::spec_io_offset(IRQ_STATUS) == o);
    assert(s1.io_registers@ == spec_spliced(r, o, stored));
    assert(stored.len() == 4);
    assert(s1.io_registers@.subrange(o, o + 4) =~= stored);
    assert(stored =~= seq![r[o] & v[0], r[o + 1] & v[1], r[o + 2] & v[2], r[o + 3] & v[3]]);
    assert(r.subrange(o, o + 4) =~= seq![r[o], r[o + 1], r[o + 2], r[o + 3]]);
    let (b0, b1, b2, b3) = (r[o], r[o + 1], r[o + 2], r[o + 3]);
    assert((((b0 & ((value & 0xff) as u8)) as u32) | (((b1 & (((value >> 8u32) & 0xff) as u8)) as u32)
        << 8u32) | (((b2 & (((value >> 16u32) & 0xff) as u8)) as u32) << 16u32) | (((b3 & (((value
        >> 24u32) & 0xff) as u8)) as u32) << 24u32)) == ((b0 as u32) | ((b1 as u32) << 8u32) | ((
    b2 as u32) << 16u32) | ((b3 as u32) << 24u32)) & value) by (bit_vector);
}

} // verus!
