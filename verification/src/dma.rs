//! The ordering-table channel (DMA channel 6): started by a store to its
//! control register with bit 24 set, it writes a reverse-linked ordering
//! table into RAM, each entry pointing at the one four bytes below and the
//! last holding the end marker.
use vstd::prelude::*;
use crate::address::{
    le_bytes, ram_offset, spec_le_bytes, spec_le_u32, spec_ram_offset, spec_spliced, store_bytes,
};
use crate::bus::Bus;
use crate::relation::OtcClearRange;
use crate::snapshot::{
    spec_all_valid, spec_put_bytes, CodeSnapshots, BR2_CODE_PATCH_SNAPSHOT_LEN,
    BR2_CODE_PATCH_SNAPSHOT_START, BR2_RUNTIME_CODE_SNAPSHOT_START,
};

verus! {

/// The channel's base, block control and control registers.
pub const DMA_OTC_MADR: u32 = 0x1f80_10e0;
pub const DMA_OTC_BCR: u32 = 0x1f80_10e4;
pub const DMA_OTC_CHCR: u32 = 0x1f80_10e8;
/// Offsets of the base and block control registers in the I/O window.
pub const DMA_OTC_MADR_OFFSET: usize = 0xe0;
pub const DMA_OTC_BCR_OFFSET: usize = 0xe4;
/// Entries an ordering table holds at most.
pub const DMA_OTC_ENTRY_LIMIT: u32 = 4096;
/// The end marker of an ordering table.
pub const DMA_OTC_END_MARKER: u32 = 0x00ff_ffff;

/// `result` is `self` after the DMA engine stores `value` at `address`: a
/// RAM word (mirrors included) with the code copies kept up to date and a
/// watched store noted, or, outside RAM, nothing but the access logged.
pub open spec fn spec_dma_store(s: Bus, address: u32, value: u32, result: Bus) -> bool {
    let bytes = spec_le_bytes(value);
    &&& result.spec_same_fixed(s)
    &&& result.io_registers@ == s.io_registers@
    &&& result.scratchpad@ == s.scratchpad@
    &&& result.draw_sync == s.draw_sync
    &&& result.cache == s.cache
    &&& result.zn_board == s.zn_board
    &&& result.primitive_ram_writes == s.primitive_ram_writes
    &&& result.dma_context == s.dma_context
    &&& if spec_ram_offset(address, s.ram@.len() as usize, 4) is Some {
        let off = spec_ram_offset(address, s.ram@.len() as usize, 4).unwrap();
        &&& result.ram@ == spec_spliced(s.ram@, off as int, bytes)
        &&& result.snapshots.spec_runtime_copy() == (if CodeSnapshots::spec_boot_copy_write(
            s.trace.pc,
        ) {
            spec_put_bytes(
                s.snapshots.spec_runtime_copy(),
                BR2_RUNTIME_CODE_SNAPSHOT_START,
                address,
                bytes,
                4,
            )
        } else {
            s.snapshots.spec_runtime_copy()
        })
        &&& if s.snapshots.patch_frozen {
            &&& result.snapshots.spec_patch_copy() == s.snapshots.spec_patch_copy()
            &&& result.snapshots.patch_frozen == s.snapshots.patch_frozen
        } else {
            &&& result.snapshots.spec_patch_copy() == spec_put_bytes(
                s.snapshots.spec_patch_copy(),
                BR2_CODE_PATCH_SNAPSHOT_START,
                address,
                bytes,
                4,
            )
            &&& result.snapshots.patch_frozen == spec_all_valid(
                result.snapshots.patch_valid@,
                0,
                BR2_CODE_PATCH_SNAPSHOT_LEN as int,
            )
        }
        &&& s.trace.spec_watch_effect(true, "ram_dma", address, 4, value, result.trace)
    } else {
        &&& result.ram@ == s.ram@
        &&& result.spec_same_snapshots(s)
        &&& s.trace.spec_access_effect(true, "dma_unmapped", address, 4, value, result.trace)
    }
}

/// The word of the I/O window at `off`.
pub open spec fn io_word(s: Bus, off: int) -> u32 {
    spec_le_u32(s.io_registers@.subrange(off, off + 4))
}

/// The number of entries a start with block control `bcr` writes.
pub open spec fn otc_entries(bcr: u32) -> u32 {
    if (bcr & 0xffffu32) <= DMA_OTC_ENTRY_LIMIT {
        bcr & 0xffffu32
    } else {
        DMA_OTC_ENTRY_LIMIT
    }
}

/// Entry `i` of the table starting at `madr`, going down (wrapping below
/// address zero, for `4 * i` below 2^32).
pub open spec fn otc_entry_address(madr: u32, i: int) -> u32 {
    let base = madr & 0x00ff_fffcu32;
    if 4 * i <= base {
        (base - 4 * i) as u32
    } else {
        (base + 0x1_0000_0000int - 4 * i) as u32
    }
}

/// What entry `i` of `n` holds: the address below it, or the end marker.
pub open spec fn otc_entry_value(madr: u32, i: int, n: u32) -> u32 {
    if i + 1 == n {
        DMA_OTC_END_MARKER
    } else {
        otc_entry_address(madr, i + 1) & 0x00ff_fffcu32
    }
}

/// `states` steps through the table's stores, one per entry.
pub open spec fn spec_otc_runs(states: Seq<Bus>, madr: u32, n: u32) -> bool {
    &&& states.len() == n + 1
    &&& forall|i: int|
        0 <= i < n ==> #[trigger] spec_dma_store(
            states[i],
            otc_entry_address(madr, i),
            otc_entry_value(madr, i, n),
            states[i + 1],
        )
}

/// Ordering-table clears kept for relating addresses to them.
pub const DMA_OTC_RECENT_CLEARS: usize = 8;

/// `clears` with `c` appended, keeping the most recent eight.
pub open spec fn spec_recent_clears(clears: Seq<OtcClearRange>, c: OtcClearRange) -> Seq<
    OtcClearRange,
> {
    let v = clears.push(c);
    if v.len() > DMA_OTC_RECENT_CLEARS {
        v.skip(v.len() - DMA_OTC_RECENT_CLEARS)
    } else {
        v
    }
}

/// The clear a table of `n` entries from `madr` makes: from the base down
/// to its last entry.
pub open spec fn spec_otc_clear(madr: u32, n: u32, vblank: u64) -> OtcClearRange {
    OtcClearRange {
        vblank,
        start: Some(madr & 0x00ff_fffcu32),
        end: if n == 0 {
            None
        } else {
            Some(otc_entry_address(madr, n - 1) & 0x00ff_fffcu32)
        },
    }
}

/// `result` is `s` after the channel wrote the ordering table its base and
/// block control registers describe, and noted the clear.
pub open spec fn spec_otc_effect(s: Bus, result: Bus) -> bool {
    let madr = io_word(s, DMA_OTC_MADR_OFFSET as int);
    let n = otc_entries(io_word(s, DMA_OTC_BCR_OFFSET as int));
    &&& exists|states: Seq<Bus>|
        spec_otc_runs(states, madr, n) && states[0] == s && states.last().spec_same_but_dma_context(
            result,
        )
    &&& result.dma_context.otc_clears@ == spec_recent_clears(
        s.dma_context.otc_clears@,
        spec_otc_clear(madr, n, s.vblank_count),
    )
    &&& result.dma_context.visited_nodes@ == s.dma_context.visited_nodes@
    &&& result.dma_context.last_start == s.dma_context.last_start
    &&& result.dma_context.last_first_node == s.dma_context.last_first_node
    &&& result.spec_same_fixed(s)
    &&& result.io_registers@ == s.io_registers@
    &&& result.scratchpad@ == s.scratchpad@
    &&& result.draw_sync == s.draw_sync
    &&& result.cache == s.cache
    &&& result.zn_board == s.zn_board
    &&& result.primitive_ram_writes == s.primitive_ram_writes
}

/// A store to the channel's control register starts it when bit 24 is set.
pub open spec fn spec_starts_otc(physical: u32, value: u32, len: usize) -> bool {
    physical == DMA_OTC_CHCR && len == 4 && value & 0x0100_0000u32 != 0
}

impl Bus {
    /// Stores a word for the DMA engine.
    pub fn write_dma_u32(&mut self, address: u32, value: u32)
        requires
            old(self).wf(),
        ensures
            final(self).wf(),
            spec_dma_store(*old(self), address, value, *final(self)),
    {
        let bytes = le_bytes(value);
        match ram_offset(address, self.ram.len(), 4) {
            Some(offset) => {
                store_bytes(&mut self.ram, offset, bytes.as_slice());
                let pc = self.trace.pc;
                self.snapshots.record_runtime_write(address, bytes.as_slice(), pc);
                self.snapshots.record_patch_write(address, bytes.as_slice());
                self.trace.record_watch(true, "ram_dma", address, 4, value);
            },
            None => {
                self.trace.record_access(true, "dma_unmapped", address, 4, value);
            },
        }
    }

    fn io_word_at(&self, off: usize) -> (r: u32)
        requires
            self.wf(),
            off + 4 <= self.io_registers@.len(),
        ensures
            r == io_word(*self, off as int),
    {
        crate::address::le_u32_at(&self.io_registers, off, 4)
    }

    /// Runs the ordering-table channel: writes the table its base and block
    /// control registers describe, from the base downwards.
    pub fn run_otc_dma(&mut self)
        requires
            old(self).wf(),
        ensures
            final(self).wf(),
            spec_otc_effect(*old(self), *final(self)),
    {
        let ghost s0 = *self;
        let madr = self.io_word_at(DMA_OTC_MADR_OFFSET);
        let bcr = self.io_word_at(DMA_OTC_BCR_OFFSET);
        let n = if (bcr & 0xffff) <= DMA_OTC_ENTRY_LIMIT {
            bcr & 0xffff
        } else {
            DMA_OTC_ENTRY_LIMIT
        };
        let mut address = madr & 0x00ff_fffc;
        proof {
            crate::linked_list::lemma_mask_facts(madr);
        }
        let ghost mut states: Seq<Bus> = seq![*self];
        let mut index: u32 = 0;
        let mut last: u32 = address;
        while index < n
            invariant
                self.wf(),
                s0.wf(),
                index <= n <= DMA_OTC_ENTRY_LIMIT,
                madr == io_word(s0, DMA_OTC_MADR_OFFSET as int),
                n == otc_entries(io_word(s0, DMA_OTC_BCR_OFFSET as int)),
                address == otc_entry_address(madr, index as int),
                index > 0 ==> last == otc_entry_address(madr, index - 1),
                madr & 0x00ff_fffcu32 <= 0x00ff_fffc,
                states.len() == index + 1,
                states[0] == s0,
                states.last() == *self,
                forall|i: int|
                    0 <= i < index ==> #[trigger] spec_dma_store(
                        states[i],
                        otc_entry_address(madr, i),
                        otc_entry_value(madr, i, n),
                        states[i + 1],
                    ),
                self.spec_same_fixed(s0),
                self.io_registers@ == s0.io_registers@,
                self.scratchpad@ == s0.scratchpad@,
                self.draw_sync == s0.draw_sync,
                self.cache == s0.cache,
                self.zn_board == s0.zn_board,
                self.primitive_ram_writes == s0.primitive_ram_writes,
                self.dma_context == s0.dma_context,
            decreases n - index,
        {
            let next = if index + 1 == n {
                DMA_OTC_END_MARKER
            } else {
                address.wrapping_sub(4) & 0x00ff_fffc
            };
            self.write_dma_u32(address, next);
            last = address;
            proof {
                states = states.push(*self);
            }
            address = address.wrapping_sub(4);
            index = index + 1;
        }
        let end = if n == 0 {
            None
        } else {
            Some(last & 0x00ff_fffc)
        };
        let clear = OtcClearRange { vblank: self.vblank_count, start: Some(madr & 0x00ff_fffc), end };
        let ghost before = *self;
        push_recent_clear(&mut self.dma_context.otc_clears, clear);
        proof {
            assert(spec_otc_runs(states, madr, n));
            assert(before.spec_same_but_dma_context(*self));
            assert(states.last().spec_same_but_dma_context(*self));
            assert(clear == spec_otc_clear(madr, n, s0.vblank_count));
            assert(self.spec_same_fixed(s0));
            assert(spec_otc_runs(states, madr, n) && states[0] == s0
                && states.last().spec_same_but_dma_context(*self));
            assert(self.dma_context.visited_nodes@ == s0.dma_context.visited_nodes@);
            assert(self.io_registers@ == s0.io_registers@);
        }
    }
}

fn push_recent_clear(clears: &mut Vec<OtcClearRange>, c: OtcClearRange)
    ensures
        final(clears)@ == spec_recent_clears(old(clears)@, c),
{
    clears.push(c);
    if clears.len() > DMA_OTC_RECENT_CLEARS {
        let drop = clears.len() - DMA_OTC_RECENT_CLEARS;
        let mut kept: Vec<OtcClearRange> = Vec::new();
        let mut i: usize = drop;
        while i < clears.len()
            invariant
                drop <= i <= clears@.len(),
                kept@ == clears@.subrange(drop as int, i as int),
            decreases clears@.len() - i,
        {
            kept.push(clears[i]);
            i = i + 1;
            proof {
                assert(kept@ =~= clears@.subrange(drop as int, i as int));
            }
        }
        proof {
            assert(kept@ =~= clears@.skip(drop as int));
        }
        *clears = kept;
    }
}

/// The GPU channel's base and control registers.
pub const DMA_GPU_MADR: u32 = 0x1f80_10a0;
pub const DMA_GPU_CHCR: u32 = 0x1f80_10a8;
pub const DMA_GPU_MADR_OFFSET: usize = 0xa0;

/// A store to the GPU channel's control register starts a linked-list
/// transfer from RAM when bit 24 (start), bit 0 (from RAM) and bit 10
/// (linked-list mode) are set.
pub open spec fn spec_starts_gpu_linked_list(physical: u32, value: u32, len: usize) -> bool {
    &&& physical == DMA_GPU_CHCR
    &&& len == 4
    &&& value & 0x0100_0000u32 != 0
    &&& value & 0x01u32 != 0
    &&& value & 0x0400u32 != 0
}

/// `result` is `s` after the GPU channel walked the linked list at its base
/// register and noted the nodes it visited; the command words go to the
/// GPU, which this library does not hold.
pub open spec fn spec_gpu_linked_list_effect(s: Bus, result: Bus) -> bool {
    let madr = io_word(s, DMA_GPU_MADR_OFFSET as int);
    &&& s.spec_same_but_dma_context(result)
    &&& result.dma_context.visited_nodes@ == crate::linked_list::spec_walk(s, madr).0.map_values(
        |n: (u32, u32)| n.0,
    )
    &&& result.dma_context.last_start == madr
    &&& result.dma_context.last_first_node == madr & 0x00ff_fffcu32
    &&& result.dma_context.otc_clears@ == s.dma_context.otc_clears@
}

impl Bus {
    /// Runs a linked-list transfer of the GPU channel from its base register.
    pub fn run_gpu_linked_list_dma(&mut self)
        requires
            old(self).wf(),
        ensures
            final(self).wf(),
            spec_gpu_linked_list_effect(*old(self), *final(self)),
    {
        let madr = self.io_word_at(DMA_GPU_MADR_OFFSET);
        let walk = crate::linked_list::gpu_linked_list_walk(self, madr);
        let nodes = walk.visited_nodes();
        let ghost before = *self;
        self.dma_context.visited_nodes = nodes;
        self.dma_context.last_start = madr;
        self.dma_context.last_first_node = madr & 0x00ff_fffc;
        proof {
            assert(before.spec_same_but_dma_context(*self));
        }
    }
}

} // verus!
