//! The memory bus: main RAM and its mirrors, the scratchpad, the BIOS and
//! banked ROMs, the board registers, the cache control register and the
//! I/O window, with the bookkeeping the game's diagnostics rely on.
//!
//! The I/O window is held as plain registers: a value written there reads
//! back until it is overwritten. The devices behind it (GPU, DMA, timers,
//! interrupt controller, serial controller) are not part of this library.
use vstd::prelude::*;
use crate::activity::NativeInputActivity;
use crate::address::{
    bytes_to_le_u32, cache_control_address, cacheable_address, copy_bytes, le_bytes, le_u32_at,
    mapped_io_address, mapped_zn_board_address, banked_rom_offset, physical_address, ram_offset,
    rom_offset, scratchpad_offset, spec_banked_rom_offset, spec_board_read_lane,
    spec_board_register_base, spec_cache_control_address, spec_cacheable_address, spec_le_bytes,
    spec_le_u32, spec_mapped_io_address, spec_physical, spec_ram_offset, spec_rom_offset,
    spec_scratchpad_offset, spec_zn_board_address, IO_REGION_START,
};
use crate::board::{spec_initial_eeprom, NativeBoardAssets, ZnBoard};
use crate::board::opt_view as board_opt_view;
use crate::mapping::NativeCoinInputMapping;
use crate::projection::spec_parse_projection_rules;
use crate::buttons::ActionButtons;
use crate::primitive::PrimitiveRamWriteStats;
use crate::board::inc;
use crate::irq::{io_stored_bytes, spec_io_stored, spec_vblank_irq_raised, IRQ_STATUS_OFFSET, IRQ_VBLANK};
use crate::address::{lemma_le_fits, lemma_le_roundtrip, board_write_lane, copy_bytes_slice, spec_board_write_lane, spec_spliced, store_bytes};
use crate::snapshot::{
    lemma_low_byte_physical, lemma_put_bytes_outside, spec_byte_physical, spec_all_valid, spec_put_bytes, CodeSnapshots, BR2_CODE_PATCH_SNAPSHOT_LEN,
    BR2_CODE_PATCH_SNAPSHOT_START, BR2_RUNTIME_CODE_SNAPSHOT_LEN, BR2_RUNTIME_CODE_SNAPSHOT_START,
};
use crate::stats::{
    ZnBoardInputPortReadStats, BANKED_ROM_BANKS, ZN_BOARD_INPUT_READ_PORT_COUNT,
    spec_events_json, zn_input_events_json, zn_input_tail_events_json,
    ZN_BOARD_INPUT_COMPACT_ACTIVE_READ_LIMIT,
    push_recent_zn_input_event, spec_port_index, spec_pushed_recent, zn_input_port_index,
    BankedRomReadStats, Br2NativeCreditHleCheck, Br2NativeCreditHleStats, NativeBoardAssetStatus, ZnBoardInputReadEvent,
    ZnBoardInputReadStats, ZN_BOARD_INPUT_ACTIVE_READ_RECENT_LIMIT,
    ZN_BOARD_INPUT_READ_RECENT_LIMIT,
};
use crate::trace::AccessTrace;
use crate::json::{
    bool_text, dec, hex, opt_hex32, opt_u32_dec, push_bool, push_dec, push_hex, push_opt_hex32,
    push_opt_u32_dec,
};

verus! {

broadcast use vstd::string::group_string_axioms;

/// CPU cycles between two vertical blanks.
pub const VBLANK_CYCLES: u64 = 566_000;
/// Default number of vertical blanks between presented-frame captures.
pub const GPU_VBLANK_PRESENTATION_CAPTURE_INTERVAL: u64 = 60;
/// Size of the scratchpad.
pub const SCRATCHPAD_LEN: usize = 1024;
/// Size of the I/O window.
pub const IO_REGION_LEN: usize = 0x2000;
/// The draw sync flag the game sets and vertical blank clears.
pub const BR2_DRAW_SYNC_FLAG_VIRTUAL: u32 = 0x803a_2210;
pub const BR2_DRAW_SYNC_FLAG_PHYSICAL: u32 = 0x003a_2210;
/// RAM the game builds its GPU primitive packets in.
pub const BR2_PRIMITIVE_RAM_START: u32 = 0x0038_0000;
pub const BR2_PRIMITIVE_RAM_END: u32 = 0x003c_0000;
/// The game's credit state block.
pub const BR2_CREDIT_STATE_BASE: u32 = 0x803b_fa00;
pub const BR2_CREDIT_FREEPLAY_FLAG_OFFSET: u32 = 0x00;
pub const BR2_CREDIT_PLAYER_MODE_OFFSET: u32 = 0x01;
pub const BR2_CREDIT_REQUIRED_P1_OFFSET: u32 = 0x08;
pub const BR2_CREDIT_REQUIRED_P2_OFFSET: u32 = 0x09;
pub const BR2_CREDIT_SHARED_SLOT_OFFSET: u32 = 0x18;

/// The CPU's cache control register and the stores it swallowed while the
/// cache was isolated.
#[derive(Clone, Copy, Debug, PartialEq, Eq, Structural)]
pub struct CacheState {
    pub control: u32,
    pub isolated: bool,
    pub isolation_transitions: u64,
    pub isolated_write_count: u64,
    pub isolated_write_bytes: u64,
    pub isolated_last_address: Option<u32>,
    pub isolated_last_width: u8,
    pub isolated_last_value: u32,
}

/// The game's writes of its draw sync flag and the clears at vertical blank.
#[derive(Clone, Copy, Debug, PartialEq, Eq, Structural)]
pub struct DrawSyncStats {
    pub vblank_clears: u64,
    pub game_set_writes: u64,
    pub game_clear_writes: u64,
    pub game_other_writes: u64,
    pub last_game_write_value: Option<u32>,
    pub last_game_write_pc: Option<u32>,
}

/// Switches normally taken from the environment.
#[derive(Clone, Copy, Debug, Default, PartialEq, Eq, Structural)]
pub struct BusOptions {
    /// Stores made while the cache is isolated reach memory anyway.
    pub cache_isolated_write_suppression_disabled: bool,
    /// Stores to primitive RAM reach memory while the cache is isolated.
    pub cache_isolated_primitive_ram_write_passthrough: bool,
}

/// Where an access lands, in the order the bus decodes it.
#[derive(Clone, Copy, Debug, PartialEq, Eq, Structural)]
pub enum BusRegion {
    CacheControl,
    ZnBoard,
    Io,
    Ram,
    Scratchpad,
    Rom,
    BankedRom,
    Unmapped,
}

/// One access the bus makes on its own behalf.
#[derive(Clone, Copy, Debug, PartialEq, Eq, Structural)]
pub enum BusAccess {
    Read { address: u32, len: usize },
    Write { address: u32, value: u32, len: usize },
}

#[derive(Clone, Debug)]
pub struct Bus {
    pub ram: Vec<u8>,
    pub scratchpad: Vec<u8>,
    pub rom: Vec<u8>,
    pub banked_roms: Vec<u8>,
    pub io_registers: Vec<u8>,
    pub snapshots: CodeSnapshots,
    pub zn_board: ZnBoard,
    pub br2_native_credit_hle_consumed_coin_edges: u64,
    pub br2_native_credit_hle: Br2NativeCreditHleStats,
    pub cache: CacheState,
    pub vblank_cycle_accumulator: u64,
    pub vblank_count: u64,
    pub vblank_presentation_capture_interval: Option<u64>,
    pub unlinked_primitive_replay_interval: Option<u64>,
    pub draw_sync: DrawSyncStats,
    pub primitive_ram_writes: PrimitiveRamWriteStats,
    pub banked_rom_reads: BankedRomReadStats,
    pub recent_zn_input_reads: Vec<ZnBoardInputReadEvent>,
    pub recent_active_zn_input_reads: Vec<ZnBoardInputReadEvent>,
    pub zn_input_read_stats: ZnBoardInputReadStats,
    pub board_asset_status: NativeBoardAssetStatus,
    pub options: BusOptions,
    pub trace: AccessTrace,
    /// The CAT702 response the BIOS carries, for the serial controller.
    pub security_response: Option<Vec<u8>>,
    /// What the DMA channels left: the GPU's last linked list and the
    /// recent ordering-table clears.
    pub dma_context: crate::header_relations::LinkedListContext,
}

/// `v` cut to the bytes an access of `len` bytes carries.
pub open spec fn spec_fit(v: u32, len: usize) -> u32 {
    if len == 1 {
        v & 0xff
    } else if len == 2 {
        v & 0xffff
    } else {
        v
    }
}

impl Bus {
    pub open spec fn wf(self) -> bool {
        &&& self.scratchpad@.len() == SCRATCHPAD_LEN
        &&& self.io_registers@.len() == IO_REGION_LEN
        &&& self.snapshots.wf()
        &&& self.zn_board.wf()
        &&& self.banked_rom_reads.wf()
        &&& self.zn_input_read_stats.wf()
        &&& self.primitive_ram_writes.wf()
        &&& self.recent_zn_input_reads@.len() <= ZN_BOARD_INPUT_READ_RECENT_LIMIT
        &&& self.recent_active_zn_input_reads@.len() <= ZN_BOARD_INPUT_ACTIVE_READ_RECENT_LIMIT
    }

    /// Where an access of `len` bytes at `address` lands.
    pub open spec fn spec_region(self, address: u32, len: usize) -> BusRegion {
        if spec_cache_control_address(address) {
            BusRegion::CacheControl
        } else if spec_zn_board_address(spec_physical(address)) {
            BusRegion::ZnBoard
        } else if spec_mapped_io_address(address, len) is Some {
            BusRegion::Io
        } else if spec_ram_offset(address, self.ram@.len() as usize, len) is Some {
            BusRegion::Ram
        } else if spec_scratchpad_offset(address, self.scratchpad@.len() as usize, len) is Some {
            BusRegion::Scratchpad
        } else if spec_rom_offset(address, self.rom@.len() as usize, len) is Some {
            BusRegion::Rom
        } else if spec_banked_rom_offset(
            address,
            self.banked_roms@.len() as usize,
            len,
            self.zn_board.rom_bank,
        ) is Some {
            BusRegion::BankedRom
        } else {
            BusRegion::Unmapped
        }
    }

    pub fn region(&self, address: u32, len: usize) -> (r: BusRegion)
        ensures
            r == self.spec_region(address, len),
    {
        if cache_control_address(address) {
            BusRegion::CacheControl
        } else if mapped_zn_board_address(address).is_some() {
            BusRegion::ZnBoard
        } else if mapped_io_address(address, len).is_some() {
            BusRegion::Io
        } else if ram_offset(address, self.ram.len(), len).is_some() {
            BusRegion::Ram
        } else if scratchpad_offset(address, self.scratchpad.len(), len).is_some() {
            BusRegion::Scratchpad
        } else if rom_offset(address, self.rom.len(), len).is_some() {
            BusRegion::Rom
        } else if banked_rom_offset(address, self.banked_roms.len(), len, self.zn_board.rom_bank).is_some() {
            BusRegion::BankedRom
        } else {
            BusRegion::Unmapped
        }
    }

    /// Offset of an I/O access into the I/O window.
    pub open spec fn spec_io_offset(address: u32) -> int {
        spec_physical(address) - IO_REGION_START
    }

    /// What a read of RAM returns: the runtime code copy for a fetch of the
    /// address being executed, else the frozen patch copy, else RAM (with
    /// lost boot globals restored).
    pub open spec fn spec_ram_value(self, address: u32, len: usize) -> u32 {
        let off = spec_ram_offset(address, self.ram@.len() as usize, len).unwrap() as int;
        match self.snapshots.spec_fetch_value(address, len, self.trace.pc) {
            Some(v) => v,
            None => match self.snapshots.spec_patch_value(address, len) {
                Some(v) => v,
                None => self.snapshots.spec_fallback_value(
                    address,
                    len,
                    spec_le_u32(self.ram@.subrange(off, off + len)),
                ),
            },
        }
    }

    /// The value a read of `len` (1, 2 or 4) bytes at `address` returns.
    pub open spec fn spec_read_value(self, address: u32, len: usize) -> u32 {
        match self.spec_region(address, len) {
            BusRegion::CacheControl => spec_fit(self.cache.control, len),
            BusRegion::ZnBoard => self.zn_board.spec_read(address, len).1,
            BusRegion::Io => {
                let off = Self::spec_io_offset(address);
                spec_le_u32(self.io_registers@.subrange(off, off + len))
            },
            BusRegion::Ram => self.spec_ram_value(address, len),
            BusRegion::Scratchpad => {
                let off = spec_scratchpad_offset(address, self.scratchpad@.len() as usize, len).unwrap() as int;
                spec_le_u32(self.scratchpad@.subrange(off, off + len))
            },
            BusRegion::Rom => {
                let off = spec_rom_offset(address, self.rom@.len() as usize, len).unwrap() as int;
                spec_le_u32(self.rom@.subrange(off, off + len))
            },
            BusRegion::BankedRom => {
                let off = spec_banked_rom_offset(
                    address,
                    self.banked_roms@.len() as usize,
                    len,
                    self.zn_board.rom_bank,
                ).unwrap() as int;
                spec_le_u32(self.banked_roms@.subrange(off, off + len))
            },
            BusRegion::Unmapped => 0,
        }
    }

    /// Everything but the board, the poll log, the banked ROM counters and
    /// the trace is the same in `self` and `other`.
    pub open spec fn spec_same_memory(self, other: Bus) -> bool {
        &&& self.ram@ == other.ram@
        &&& self.scratchpad@ == other.scratchpad@
        &&& self.rom@ == other.rom@
        &&& self.banked_roms@ == other.banked_roms@
        &&& self.io_registers@ == other.io_registers@
        &&& self.snapshots.runtime@ == other.snapshots.runtime@
        &&& self.snapshots.runtime_valid@ == other.snapshots.runtime_valid@
        &&& self.snapshots.patch@ == other.snapshots.patch@
        &&& self.snapshots.patch_valid@ == other.snapshots.patch_valid@
        &&& self.snapshots.patch_frozen == other.snapshots.patch_frozen
        &&& self.br2_native_credit_hle_consumed_coin_edges
            == other.br2_native_credit_hle_consumed_coin_edges
        &&& self.br2_native_credit_hle == other.br2_native_credit_hle
        &&& self.cache == other.cache
        &&& self.vblank_cycle_accumulator == other.vblank_cycle_accumulator
        &&& self.vblank_count == other.vblank_count
        &&& self.vblank_presentation_capture_interval == other.vblank_presentation_capture_interval
        &&& self.unlinked_primitive_replay_interval == other.unlinked_primitive_replay_interval
        &&& self.draw_sync == other.draw_sync
        &&& self.primitive_ram_writes == other.primitive_ram_writes
        &&& self.board_asset_status == other.board_asset_status
        &&& self.options == other.options
        &&& self.security_response == other.security_response
    }

    /// The poll log and counters are the same in `self` and `other`.
    pub open spec fn spec_same_polls(self, other: Bus) -> bool {
        &&& self.recent_zn_input_reads@ == other.recent_zn_input_reads@
        &&& self.recent_active_zn_input_reads@ == other.recent_active_zn_input_reads@
        &&& self.zn_input_read_stats.ports@ == other.zn_input_read_stats.ports@
    }

    /// The banked ROM read counters are the same in `self` and `other`.
    pub open spec fn spec_same_banked_reads(self, other: Bus) -> bool {
        &&& self.banked_rom_reads.reads == other.banked_rom_reads.reads
        &&& self.banked_rom_reads.bytes == other.banked_rom_reads.bytes
        &&& self.banked_rom_reads.bank_reads@ == other.banked_rom_reads.bank_reads@
        &&& self.banked_rom_reads.last_bank == other.banked_rom_reads.last_bank
        &&& self.banked_rom_reads.last_address == other.banked_rom_reads.last_address
        &&& self.banked_rom_reads.last_offset == other.banked_rom_reads.last_offset
        &&& self.banked_rom_reads.last_width == other.banked_rom_reads.last_width
        &&& self.banked_rom_reads.last_value == other.banked_rom_reads.last_value
    }

    /// The poll event a board read of `width` bytes at `address` records.
    pub open spec fn spec_poll_event(self, address: u32, width: u8, value: u32) -> ZnBoardInputReadEvent {
        ZnBoardInputReadEvent {
            vblank: self.vblank_count,
            cycles: self.trace.cycles,
            pc: self.trace.pc,
            address,
            width,
            value,
            input: self.zn_board.input,
        }
    }

    /// `result`'s poll log is this bus's after a read of an input port (other
    /// board registers are not logged).
    pub open spec fn spec_poll_effect(self, address: u32, width: u8, value: u32, result: Bus) -> bool {
        let event = self.spec_poll_event(address, width, value);
        if spec_port_index(address) is Some {
            &&& result.zn_input_read_stats.ports@ == self.zn_input_read_stats.spec_after_record(event)
            &&& result.recent_zn_input_reads@ == spec_pushed_recent(
                self.recent_zn_input_reads@,
                event,
                ZN_BOARD_INPUT_READ_RECENT_LIMIT,
            )
            &&& result.recent_active_zn_input_reads@ == (if event.input.spec_any_input() {
                spec_pushed_recent(
                    self.recent_active_zn_input_reads@,
                    event,
                    ZN_BOARD_INPUT_ACTIVE_READ_RECENT_LIMIT,
                )
            } else {
                self.recent_active_zn_input_reads@
            })
        } else {
            self.spec_same_polls(result)
        }
    }

    /// Logs a poll of a board input port.
    fn record_zn_board_input_read(&mut self, address: u32, width: u8, value: u32)
        requires
            old(self).wf(),
        ensures
            final(self).wf(),
            old(self).spec_poll_effect(address, width, value, *final(self)),
            final(self).spec_same_memory(*old(self)),
            final(self).spec_same_banked_reads(*old(self)),
            final(self).zn_board == old(self).zn_board,
            final(self).trace == old(self).trace,
    {
        if zn_input_port_index(address).is_none() {
            return;
        }
        let event = ZnBoardInputReadEvent {
            vblank: self.vblank_count,
            cycles: self.trace.cycles,
            pc: self.trace.pc,
            address,
            width,
            value,
            input: self.zn_board.input,
        };
        self.zn_input_read_stats.record(event);
        push_recent_zn_input_event(
            &mut self.recent_zn_input_reads,
            event,
            ZN_BOARD_INPUT_READ_RECENT_LIMIT,
        );
        if crate::buttons::action_buttons_have_any_input(event.input) {
            push_recent_zn_input_event(
                &mut self.recent_active_zn_input_reads,
                event,
                ZN_BOARD_INPUT_ACTIVE_READ_RECENT_LIMIT,
            );
        }
    }

    /// `result` is this bus after a read of `len` bytes at `address`: memory
    /// is unchanged; board reads have their side effects and input port
    /// polls are logged; banked ROM reads are counted; the access is traced
    /// as its region is.
    pub open spec fn spec_read_effect(self, address: u32, len: usize, result: Bus) -> bool {
        let v = self.spec_read_value(address, len);
        &&& result.spec_same_memory(self)
        &&& match self.spec_region(address, len) {
            BusRegion::CacheControl => {
                &&& result.zn_board == self.zn_board
                &&& result.spec_same_polls(self)
                &&& result.spec_same_banked_reads(self)
                &&& self.trace.spec_access_effect(false, "cache_control", address, len as u8, v, result.trace)
            },
            BusRegion::ZnBoard => {
                &&& result.zn_board == self.zn_board.spec_read(address, len).0
                &&& self.spec_poll_effect(address, len as u8, v, result)
                &&& result.spec_same_banked_reads(self)
                &&& self.trace.spec_access_effect(false, "zn_board", address, len as u8, v, result.trace)
            },
            BusRegion::Io => {
                &&& result.zn_board == self.zn_board
                &&& result.spec_same_polls(self)
                &&& result.spec_same_banked_reads(self)
                &&& self.trace.spec_access_effect(false, "io", address, len as u8, v, result.trace)
            },
            BusRegion::Ram => {
                &&& result.zn_board == self.zn_board
                &&& result.spec_same_polls(self)
                &&& result.spec_same_banked_reads(self)
                &&& self.trace.spec_watch_effect(false, "ram", address, len, v, result.trace)
            },
            BusRegion::Scratchpad => {
                &&& result.zn_board == self.zn_board
                &&& result.spec_same_polls(self)
                &&& result.spec_same_banked_reads(self)
                &&& self.trace.spec_watch_effect(false, "scratchpad", address, len, v, result.trace)
            },
            BusRegion::Rom => {
                &&& result.zn_board == self.zn_board
                &&& result.spec_same_polls(self)
                &&& result.spec_same_banked_reads(self)
                &&& result.trace == self.trace
            },
            BusRegion::BankedRom => {
                let off = spec_banked_rom_offset(
                    address,
                    self.banked_roms@.len() as usize,
                    len,
                    self.zn_board.rom_bank,
                ).unwrap();
                &&& result.zn_board == self.zn_board
                &&& result.spec_same_polls(self)
                &&& result.banked_rom_reads.spec_recorded(
                    self.banked_rom_reads,
                    self.zn_board.rom_bank,
                    address,
                    off,
                    len,
                    v,
                )
                &&& self.trace.spec_watch_effect(false, "banked_rom", address, len, v, result.trace)
            },
            BusRegion::Unmapped => {
                &&& result.zn_board == self.zn_board
                &&& result.spec_same_polls(self)
                &&& result.spec_same_banked_reads(self)
                &&& self.trace.spec_access_effect(false, "unmapped", address, len as u8, 0, result.trace)
            },
        }
    }

    fn read_cache_control(&mut self, address: u32, len: usize) -> (r: u32)
        requires
            old(self).wf(),
            len == 1 || len == 2 || len == 4,
            old(self).spec_region(address, len) == BusRegion::CacheControl,
        ensures
            final(self).wf(),
            r == old(self).spec_read_value(address, len),
            old(self).spec_read_effect(address, len, *final(self)),
    {
        let control = self.cache.control;
        let value = if len == 1 {
            control & 0xff
        } else if len == 2 {
            control & 0xffff
        } else {
            control
        };
        self.trace.record_access(false, "cache_control", address, len as u8, value);
        value
    }

    fn read_zn_board(&mut self, address: u32, len: usize) -> (r: u32)
        requires
            old(self).wf(),
            len == 1 || len == 2 || len == 4,
            old(self).spec_region(address, len) == BusRegion::ZnBoard,
        ensures
            final(self).wf(),
            r == old(self).spec_read_value(address, len),
            old(self).spec_read_effect(address, len, *final(self)),
    {
        proof {
            self.zn_board.lemma_read_keeps_input(address, len);
        }
        let value = self.zn_board.read(address, len);
        self.record_zn_board_input_read(address, len as u8, value);
        self.trace.record_access(false, "zn_board", address, len as u8, value);
        value
    }

    fn read_io(&mut self, address: u32, len: usize) -> (r: u32)
        requires
            old(self).wf(),
            len == 1 || len == 2 || len == 4,
            old(self).spec_region(address, len) == BusRegion::Io,
        ensures
            final(self).wf(),
            r == old(self).spec_read_value(address, len),
            old(self).spec_read_effect(address, len, *final(self)),
    {
        let offset = (physical_address(address) - IO_REGION_START) as usize;
        let value = le_u32_at(&self.io_registers, offset, len);
        self.trace.record_access(false, "io", address, len as u8, value);
        value
    }

    fn read_ram(&mut self, address: u32, len: usize) -> (r: u32)
        requires
            old(self).wf(),
            len == 1 || len == 2 || len == 4,
            old(self).spec_region(address, len) == BusRegion::Ram,
        ensures
            final(self).wf(),
            r == old(self).spec_read_value(address, len),
            old(self).spec_read_effect(address, len, *final(self)),
    {
        let offset = ram_offset(address, self.ram.len(), len).unwrap();
        let value = match self.snapshots.runtime_read_value(address, len, self.trace.pc) {
            Some(value) => value,
            None => match self.snapshots.patch_read_value(address, len) {
                Some(value) => value,
                None => {
                    let ram_value = le_u32_at(&self.ram, offset, len);
                    self.snapshots.boot_global_fallback_value(address, len, ram_value)
                },
            },
        };
        self.trace.record_watch(false, "ram", address, len, value);
        value
    }

    fn read_scratchpad(&mut self, address: u32, len: usize) -> (r: u32)
        requires
            old(self).wf(),
            len == 1 || len == 2 || len == 4,
            old(self).spec_region(address, len) == BusRegion::Scratchpad,
        ensures
            final(self).wf(),
            r == old(self).spec_read_value(address, len),
            old(self).spec_read_effect(address, len, *final(self)),
    {
        let offset = scratchpad_offset(address, self.scratchpad.len(), len).unwrap();
        let value = le_u32_at(&self.scratchpad, offset, len);
        self.trace.record_watch(false, "scratchpad", address, len, value);
        value
    }

    fn read_rom(&mut self, address: u32, len: usize) -> (r: u32)
        requires
            old(self).wf(),
            len == 1 || len == 2 || len == 4,
            old(self).spec_region(address, len) == BusRegion::Rom,
        ensures
            final(self).wf(),
            r == old(self).spec_read_value(address, len),
            old(self).spec_read_effect(address, len, *final(self)),
    {
        let offset = rom_offset(address, self.rom.len(), len).unwrap();
        le_u32_at(&self.rom, offset, len)
    }

    fn read_banked_rom(&mut self, address: u32, len: usize) -> (r: u32)
        requires
            old(self).wf(),
            len == 1 || len == 2 || len == 4,
            old(self).spec_region(address, len) == BusRegion::BankedRom,
        ensures
            final(self).wf(),
            r == old(self).spec_read_value(address, len),
            old(self).spec_read_effect(address, len, *final(self)),
    {
        let bank = self.zn_board.rom_bank;
        let offset = banked_rom_offset(address, self.banked_roms.len(), len, bank).unwrap();
        let value = le_u32_at(&self.banked_roms, offset, len);
        self.banked_rom_reads.record(bank, address, offset, len, value);
        self.trace.record_watch(false, "banked_rom", address, len, value);
        value
    }

    fn read_unmapped(&mut self, address: u32, len: usize) -> (r: u32)
        requires
            old(self).wf(),
            len == 1 || len == 2 || len == 4,
            old(self).spec_region(address, len) == BusRegion::Unmapped,
        ensures
            final(self).wf(),
            r == old(self).spec_read_value(address, len),
            old(self).spec_read_effect(address, len, *final(self)),
    {
        self.trace.record_access(false, "unmapped", address, len as u8, 0);
        0
    }

    /// Reads `len` (1, 2 or 4) bytes at `address`, little-endian.
    fn read_value(&mut self, address: u32, len: usize) -> (r: u32)
        requires
            old(self).wf(),
            len == 1 || len == 2 || len == 4,
        ensures
            final(self).wf(),
            r == old(self).spec_read_value(address, len),
            old(self).spec_read_effect(address, len, *final(self)),
    {
        match self.region(address, len) {
            BusRegion::CacheControl => self.read_cache_control(address, len),
            BusRegion::ZnBoard => self.read_zn_board(address, len),
            BusRegion::Io => self.read_io(address, len),
            BusRegion::Ram => self.read_ram(address, len),
            BusRegion::Scratchpad => self.read_scratchpad(address, len),
            BusRegion::Rom => self.read_rom(address, len),
            BusRegion::BankedRom => self.read_banked_rom(address, len),
            BusRegion::Unmapped => self.read_unmapped(address, len),
        }
    }

    /// Reads one byte.
    pub fn read_u8(&mut self, address: u32) -> (r: u8)
        requires
            old(self).wf(),
        ensures
            final(self).wf(),
            r == old(self).spec_read_value(address, 1) as u8,
            old(self).spec_read_effect(address, 1, *final(self)),
    {
        self.read_value(address, 1) as u8
    }

    /// Reads a little-endian halfword.
    pub fn read_u16(&mut self, address: u32) -> (r: u16)
        requires
            old(self).wf(),
        ensures
            final(self).wf(),
            r == old(self).spec_read_value(address, 2) as u16,
            old(self).spec_read_effect(address, 2, *final(self)),
    {
        self.read_value(address, 2) as u16
    }

    /// Reads a little-endian word.
    pub fn read_u32(&mut self, address: u32) -> (r: u32)
        requires
            old(self).wf(),
        ensures
            final(self).wf(),
            r == old(self).spec_read_value(address, 4),
            old(self).spec_read_effect(address, 4, *final(self)),
    {
        self.read_value(address, 4)
    }

    /// The parts no store changes are the same in `self` and `other`.
    pub open spec fn spec_same_fixed(self, other: Bus) -> bool {
        &&& self.vblank_cycle_accumulator == other.vblank_cycle_accumulator
        &&& self.vblank_count == other.vblank_count
        &&& self.spec_same_untimed(other)
    }

    /// As `spec_same_fixed`, the vertical blank timing aside.
    pub open spec fn spec_same_untimed(self, other: Bus) -> bool {
        &&& self.rom@ == other.rom@
        &&& self.banked_roms@ == other.banked_roms@
        &&& self.br2_native_credit_hle_consumed_coin_edges
            == other.br2_native_credit_hle_consumed_coin_edges
        &&& self.br2_native_credit_hle == other.br2_native_credit_hle
        &&& self.vblank_presentation_capture_interval == other.vblank_presentation_capture_interval
        &&& self.unlinked_primitive_replay_interval == other.unlinked_primitive_replay_interval
        &&& self.board_asset_status == other.board_asset_status
        &&& self.options == other.options
        &&& self.security_response == other.security_response
        &&& self.spec_same_polls(other)
        &&& self.spec_same_banked_reads(other)
    }

    /// The code copies are the same in `self` and `other`.
    pub open spec fn spec_same_snapshots(self, other: Bus) -> bool {
        &&& self.snapshots.runtime@ == other.snapshots.runtime@
        &&& self.snapshots.runtime_valid@ == other.snapshots.runtime_valid@
        &&& self.snapshots.patch@ == other.snapshots.patch@
        &&& self.snapshots.patch_valid@ == other.snapshots.patch_valid@
        &&& self.snapshots.patch_frozen == other.snapshots.patch_frozen
    }

    /// Whether a store at `address` is swallowed by the isolated cache.
    pub open spec fn spec_write_suppressed(self, address: u32) -> bool {
        let p = spec_physical(address);
        let passthrough = self.options.cache_isolated_primitive_ram_write_passthrough
            && BR2_PRIMITIVE_RAM_START <= p < BR2_PRIMITIVE_RAM_END;
        &&& self.cache.isolated
        &&& spec_cacheable_address(address)
        &&& !self.options.cache_isolated_write_suppression_disabled
        &&& !passthrough
    }

    /// The draw sync counters after the game stores `bytes` at `address`.
    pub open spec fn spec_after_game_write(self, address: u32, bytes: Seq<u8>) -> DrawSyncStats {
        let value = spec_le_u32(bytes);
        if bytes.len() != 4 || spec_physical(address) != BR2_DRAW_SYNC_FLAG_PHYSICAL {
            self.draw_sync
        } else {
            DrawSyncStats {
                game_clear_writes: if value == 0 {
                    inc(self.draw_sync.game_clear_writes)
                } else {
                    self.draw_sync.game_clear_writes
                },
                game_set_writes: if value == 1 {
                    inc(self.draw_sync.game_set_writes)
                } else {
                    self.draw_sync.game_set_writes
                },
                game_other_writes: if value > 1 {
                    inc(self.draw_sync.game_other_writes)
                } else {
                    self.draw_sync.game_other_writes
                },
                last_game_write_value: Some(value),
                last_game_write_pc: self.trace.pc,
                ..self.draw_sync
            }
        }
    }

    /// The value the coin adapter stores in place of a scratchpad store.
    pub open spec fn spec_adapted(self, address: u32, bytes: Seq<u8>) -> Option<u32> {
        let len = bytes.len();
        if len == 1 || len == 2 || len == 4 {
            self.zn_board.spec_adapter_value(
                spec_physical(address),
                spec_le_u32(bytes),
                len as usize,
                self.trace.pc,
            )
        } else {
            None
        }
    }

    /// The bytes a scratchpad store leaves in the scratchpad.
    pub open spec fn spec_scratchpad_stored(self, address: u32, bytes: Seq<u8>) -> Seq<u8> {
        match self.spec_adapted(address, bytes) {
            Some(v) => spec_le_bytes(v).take(bytes.len() as int),
            None => bytes,
        }
    }

    /// `result` is this bus after the CPU stores `bytes` at `address`
    /// (outside the board, cache control and I/O registers): swallowed while
    /// the cache is isolated; else stored in RAM (recording the code copies
    /// and the draw sync flag), or in the scratchpad (through the coin
    /// adapter); stores to the banked ROM window and elsewhere are dropped.
    /// The primitive RAM statistics after a store of `bytes` at `address`
    /// that reaches RAM: a word store into primitive RAM is recorded.
    pub open spec fn spec_primitive_write(self, address: u32, bytes: Seq<u8>, result: PrimitiveRamWriteStats) -> bool {
        let p = spec_physical(address);
        if bytes.len() == 4 && BR2_PRIMITIVE_RAM_START <= p < BR2_PRIMITIVE_RAM_END {
            self.primitive_ram_writes.spec_record_effect(
                p,
                spec_le_u32(bytes),
                self.trace.pc,
                self.vblank_count,
                self.trace.cycles,
                result,
            )
        } else {
            result == self.primitive_ram_writes
        }
    }

    pub open spec fn spec_write_bytes_effect(self, address: u32, bytes: Seq<u8>, result: Bus) -> bool {
        let len = bytes.len();
        let value = spec_le_u32(bytes);
        &&& result.spec_same_fixed(self)
        &&& result.io_registers@ == self.io_registers@
        &&& if self.spec_write_suppressed(address) {
            &&& result.cache == (CacheState {
                isolated_write_count: inc(self.cache.isolated_write_count),
                isolated_write_bytes: if self.cache.isolated_write_bytes + len > u64::MAX {
                    u64::MAX
                } else {
                    (self.cache.isolated_write_bytes + len) as u64
                },
                isolated_last_address: Some(address),
                isolated_last_width: len as u8,
                isolated_last_value: value,
                ..self.cache
            })
            &&& result.ram@ == self.ram@
            &&& result.scratchpad@ == self.scratchpad@
            &&& result.spec_same_snapshots(self)
            &&& result.draw_sync == self.draw_sync
            &&& result.zn_board == self.zn_board
            &&& result.primitive_ram_writes == self.primitive_ram_writes
            &&& self.trace.spec_access_effect(true, "cache_isolated", address, len as u8, value, result.trace)
        } else if spec_ram_offset(address, self.ram@.len() as usize, len as usize) is Some {
            let off = spec_ram_offset(address, self.ram@.len() as usize, len as usize).unwrap();
            &&& result.ram@ == spec_spliced(self.ram@, off as int, bytes)
            &&& result.snapshots.spec_runtime_copy() == (if len > 0
                && CodeSnapshots::spec_boot_copy_write(self.trace.pc) {
                spec_put_bytes(
                    self.snapshots.spec_runtime_copy(),
                    BR2_RUNTIME_CODE_SNAPSHOT_START,
                    address,
                    bytes,
                    len,
                )
            } else {
                self.snapshots.spec_runtime_copy()
            })
            &&& if self.snapshots.patch_frozen || len == 0 {
                &&& result.snapshots.spec_patch_copy() == self.snapshots.spec_patch_copy()
                &&& result.snapshots.patch_frozen == self.snapshots.patch_frozen
            } else {
                &&& result.snapshots.spec_patch_copy() == spec_put_bytes(
                    self.snapshots.spec_patch_copy(),
                    BR2_CODE_PATCH_SNAPSHOT_START,
                    address,
                    bytes,
                    len,
                )
                &&& result.snapshots.patch_frozen == spec_all_valid(
                    result.snapshots.patch_valid@,
                    0,
                    BR2_CODE_PATCH_SNAPSHOT_LEN as int,
                )
            }
            &&& result.draw_sync == self.spec_after_game_write(address, bytes)
            &&& result.cache == self.cache
            &&& result.scratchpad@ == self.scratchpad@
            &&& result.zn_board == self.zn_board
            &&& self.spec_primitive_write(address, bytes, result.primitive_ram_writes)
            &&& self.trace.spec_watch_effect(true, "ram", address, len as usize, value, result.trace)
        } else if spec_scratchpad_offset(address, self.scratchpad@.len() as usize, len as usize) is Some {
            let off = spec_scratchpad_offset(address, self.scratchpad@.len() as usize, len as usize).unwrap();
            let stored = self.spec_scratchpad_stored(address, bytes);
            &&& (if len == 1 || len == 2 || len == 4 {
                self.zn_board.spec_adapter_effect(
                    spec_physical(address),
                    value,
                    len as usize,
                    self.trace.pc,
                    self.vblank_count,
                    self.trace.cycles,
                    result.zn_board,
                    self.spec_adapted(address, bytes),
                )
            } else {
                result.zn_board == self.zn_board
            })
            &&& result.scratchpad@ == spec_spliced(self.scratchpad@, off as int, stored)
            &&& result.ram@ == self.ram@
            &&& result.spec_same_snapshots(self)
            &&& result.draw_sync == self.draw_sync
            &&& result.cache == self.cache
            &&& result.primitive_ram_writes == self.primitive_ram_writes
            &&& self.trace.spec_watch_effect(
                true,
                "scratchpad",
                address,
                len as usize,
                spec_le_u32(stored),
                result.trace,
            )
        } else {
            &&& result.ram@ == self.ram@
            &&& result.scratchpad@ == self.scratchpad@
            &&& result.spec_same_snapshots(self)
            &&& result.draw_sync == self.draw_sync
            &&& result.cache == self.cache
            &&& result.zn_board == self.zn_board
            &&& result.primitive_ram_writes == self.primitive_ram_writes
            &&& self.trace.spec_access_effect(
                true,
                if spec_banked_rom_offset(
                    address,
                    self.banked_roms@.len() as usize,
                    len as usize,
                    self.zn_board.rom_bank,
                ) is Some {
                    "banked_rom"
                } else {
                    "unmapped"
                },
                address,
                len as u8,
                value,
                result.trace,
            )
        }
    }

    fn write_suppressed(&self, address: u32) -> (r: bool)
        ensures
            r == self.spec_write_suppressed(address),
    {
        let physical = physical_address(address);
        let passthrough = self.options.cache_isolated_primitive_ram_write_passthrough
            && BR2_PRIMITIVE_RAM_START <= physical && physical < BR2_PRIMITIVE_RAM_END;
        self.cache.isolated && cacheable_address(address)
            && !self.options.cache_isolated_write_suppression_disabled && !passthrough
    }

    fn record_draw_sync_game_write(&mut self, address: u32, bytes: &[u8])
        ensures
            final(self).draw_sync == old(self).spec_after_game_write(address, bytes@),
            *final(self) == (Bus { draw_sync: final(self).draw_sync, ..*old(self) }),
    {
        if bytes.len() != 4 || physical_address(address) != BR2_DRAW_SYNC_FLAG_PHYSICAL {
            return;
        }
        let value = bytes_to_le_u32(bytes);
        if value == 0 {
            self.draw_sync.game_clear_writes = self.draw_sync.game_clear_writes.saturating_add(1);
        } else if value == 1 {
            self.draw_sync.game_set_writes = self.draw_sync.game_set_writes.saturating_add(1);
        } else {
            self.draw_sync.game_other_writes = self.draw_sync.game_other_writes.saturating_add(1);
        }
        self.draw_sync.last_game_write_value = Some(value);
        self.draw_sync.last_game_write_pc = self.trace.pc;
    }

    fn write_suppressed_bytes(&mut self, address: u32, bytes: &[u8])
        requires
            old(self).wf(),
            old(self).spec_write_suppressed(address),
        ensures
            final(self).wf(),
            old(self).spec_write_bytes_effect(address, bytes@, *final(self)),
    {
        let value = bytes_to_le_u32(bytes);
        self.cache.isolated_write_count = self.cache.isolated_write_count.saturating_add(1);
        self.cache.isolated_write_bytes = self.cache.isolated_write_bytes.saturating_add(
            bytes.len() as u64,
        );
        self.cache.isolated_last_address = Some(address);
        self.cache.isolated_last_width = #[verifier::truncate] (bytes.len() as u8);
        self.cache.isolated_last_value = value;
        self.trace.record_access(true, "cache_isolated", address, #[verifier::truncate] (bytes.len() as u8), value);
    }

    fn write_ram_bytes(&mut self, address: u32, bytes: &[u8])
        requires
            old(self).wf(),
            !old(self).spec_write_suppressed(address),
            spec_ram_offset(address, old(self).ram@.len() as usize, bytes@.len() as usize) is Some,
        ensures
            final(self).wf(),
            old(self).spec_write_bytes_effect(address, bytes@, *final(self)),
    {
        let offset = ram_offset(address, self.ram.len(), bytes.len()).unwrap();
        store_bytes(&mut self.ram, offset, bytes);
        let pc = self.trace.pc;
        self.snapshots.record_runtime_write(address, bytes, pc);
        self.snapshots.record_patch_write(address, bytes);
        let physical = physical_address(address);
        if bytes.len() == 4 && BR2_PRIMITIVE_RAM_START <= physical && physical < BR2_PRIMITIVE_RAM_END {
            let vblank = self.vblank_count;
            let cycles = self.trace.cycles;
            self.primitive_ram_writes.record(physical, bytes_to_le_u32(bytes), pc, vblank, cycles);
        }
        self.record_draw_sync_game_write(address, bytes);
        self.trace.record_watch(true, "ram", address, bytes.len(), bytes_to_le_u32(bytes));
    }

    /// Lets the coin adapter see a scratchpad store of 1, 2 or 4 bytes.
    fn native_credit_adapter_scratchpad_write_value(&mut self, address: u32, bytes: &[u8]) -> (r:
        Option<u32>)
        requires
            old(self).wf(),
        ensures
            final(self).wf(),
            r == old(self).spec_adapted(address, bytes@),
            (if bytes@.len() == 1 || bytes@.len() == 2 || bytes@.len() == 4 {
                old(self).zn_board.spec_adapter_effect(
                    spec_physical(address),
                    spec_le_u32(bytes@),
                    bytes@.len() as usize,
                    old(self).trace.pc,
                    old(self).vblank_count,
                    old(self).trace.cycles,
                    final(self).zn_board,
                    r,
                )
            } else {
                final(self).zn_board == old(self).zn_board
            }),
            *final(self) == (Bus { zn_board: final(self).zn_board, ..*old(self) }),
    {
        let len = bytes.len();
        if !(len == 1 || len == 2 || len == 4) {
            return None;
        }
        let pc = self.trace.pc;
        let vblank = self.vblank_count;
        let cycles = self.trace.cycles;
        let r = self.zn_board.native_credit_adapter_scratchpad_write_value(
            physical_address(address),
            bytes_to_le_u32(bytes),
            len,
            pc,
            vblank,
            cycles,
        );
        proof {
            reveal(ZnBoard::spec_adapter_effect);
        }
        r
    }

    fn write_scratchpad_bytes(&mut self, address: u32, bytes: &[u8])
        requires
            old(self).wf(),
            !old(self).spec_write_suppressed(address),
            spec_ram_offset(address, old(self).ram@.len() as usize, bytes@.len() as usize) is None,
            spec_scratchpad_offset(address, old(self).scratchpad@.len() as usize, bytes@.len() as usize) is Some,
        ensures
            final(self).wf(),
            old(self).spec_write_bytes_effect(address, bytes@, *final(self)),
    {
        let offset = scratchpad_offset(address, self.scratchpad.len(), bytes.len()).unwrap();
        let len = bytes.len();
        let adapted = self.native_credit_adapter_scratchpad_write_value(address, bytes);
        let stored = match adapted {
            Some(value) => copy_bytes(&le_bytes(value), 0, len),
            None => copy_bytes_slice(bytes),
        };
        proof {
            assert(stored@ == old(self).spec_scratchpad_stored(address, bytes@)) by {
                if adapted is Some {
                    assert(spec_le_bytes(adapted.unwrap()).subrange(0, len as int)
                        =~= spec_le_bytes(adapted.unwrap()).take(len as int));
                }
            }
        }
        store_bytes(&mut self.scratchpad, offset, stored.as_slice());
        self.trace.record_watch(true, "scratchpad", address, len, bytes_to_le_u32(stored.as_slice()));
    }

    fn write_dropped_bytes(&mut self, address: u32, bytes: &[u8])
        requires
            old(self).wf(),
            !old(self).spec_write_suppressed(address),
            spec_ram_offset(address, old(self).ram@.len() as usize, bytes@.len() as usize) is None,
            spec_scratchpad_offset(address, old(self).scratchpad@.len() as usize, bytes@.len() as usize) is None,
        ensures
            final(self).wf(),
            old(self).spec_write_bytes_effect(address, bytes@, *final(self)),
    {
        let value = bytes_to_le_u32(bytes);
        let width = #[verifier::truncate] (bytes.len() as u8);
        if banked_rom_offset(address, self.banked_roms.len(), bytes.len(), self.zn_board.rom_bank).is_some() {
            self.trace.record_access(true, "banked_rom", address, width, value);
        } else {
            self.trace.record_access(true, "unmapped", address, width, value);
        }
    }

    /// A CPU store of `bytes` at `address` outside the board, cache control
    /// and I/O registers.
    pub fn write_bytes(&mut self, address: u32, bytes: &[u8])
        requires
            old(self).wf(),
        ensures
            final(self).wf(),
            old(self).spec_write_bytes_effect(address, bytes@, *final(self)),
    {
        if self.write_suppressed(address) {
            self.write_suppressed_bytes(address, bytes);
        } else if ram_offset(address, self.ram.len(), bytes.len()).is_some() {
            self.write_ram_bytes(address, bytes);
        } else if scratchpad_offset(address, self.scratchpad.len(), bytes.len()).is_some() {
            self.write_scratchpad_bytes(address, bytes);
        } else {
            self.write_dropped_bytes(address, bytes);
        }
    }

    /// The stores that leave memory outside the named register alone.
    pub open spec fn spec_same_stores(self, other: Bus) -> bool {
        &&& self.spec_same_fixed(other)
        &&& self.ram@ == other.ram@
        &&& self.scratchpad@ == other.scratchpad@
        &&& self.spec_same_snapshots(other)
        &&& self.draw_sync == other.draw_sync
    }

    /// The cache control register after a store of `len` bytes.
    pub open spec fn spec_cache_control_after(self, address: u32, value: u32, len: usize) -> u32 {
        if len == 4 {
            value
        } else {
            spec_board_write_lane(self.cache.control, address & !0x03u32, address, value, len)
        }
    }

    /// `result` is this bus after the CPU stores the low `len` (1, 2 or 4)
    /// bytes of `value` at `address`: cache control, board and I/O registers
    /// take the store themselves; other addresses are stored as bytes.
    /// `self` and `other` agree on everything but what the DMA channels left.
    pub open spec fn spec_same_but_dma_context(self, other: Bus) -> bool {
        other == (Bus { dma_context: other.dma_context, ..self })
    }

    /// `result` is this bus after a store to the I/O window's registers.
    pub open spec fn spec_io_write_effect(self, address: u32, value: u32, len: usize, result: Bus) -> bool {
        &&& result.io_registers@ == spec_spliced(
            self.io_registers@,
            Self::spec_io_offset(address),
            spec_io_stored(
                self.io_registers@,
                Self::spec_io_offset(address),
                spec_le_bytes(value).take(len as int),
            ),
        )
        &&& result.spec_same_stores(self)
        &&& result.cache == self.cache
        &&& result.zn_board == self.zn_board
        &&& result.primitive_ram_writes == self.primitive_ram_writes
        &&& self.trace.spec_access_effect(true, "io", address, len as u8, value, result.trace)
    }

    pub open spec fn spec_write_effect(self, address: u32, value: u32, len: usize, result: Bus) -> bool {
        match self.spec_region(address, len) {
            BusRegion::CacheControl => {
                &&& result.cache == (CacheState {
                    control: self.spec_cache_control_after(address, value, len),
                    ..self.cache
                })
                &&& result.spec_same_stores(self)
                &&& result.io_registers@ == self.io_registers@
                &&& result.zn_board == self.zn_board
                &&& result.primitive_ram_writes == self.primitive_ram_writes
                &&& self.trace.spec_access_effect(true, "cache_control", address, len as u8, value, result.trace)
            },
            BusRegion::ZnBoard => {
                &&& self.zn_board.spec_access_write(
                    address,
                    value,
                    len,
                    self.trace.pc,
                    self.vblank_count,
                    self.trace.cycles,
                    result.zn_board,
                )
                &&& result.spec_same_stores(self)
                &&& result.io_registers@ == self.io_registers@
                &&& result.cache == self.cache
                &&& result.primitive_ram_writes == self.primitive_ram_writes
                &&& self.trace.spec_access_effect(true, "zn_board", address, len as u8, value, result.trace)
            },
            BusRegion::Io => if crate::dma::spec_starts_otc(spec_physical(address), value, len) {
                exists|mid: Bus|
                    self.spec_io_write_effect(address, value, len, mid)
                        && crate::dma::spec_otc_effect(mid, result)
            } else if crate::dma::spec_starts_gpu_linked_list(spec_physical(address), value, len) {
                exists|mid: Bus|
                    self.spec_io_write_effect(address, value, len, mid)
                        && crate::dma::spec_gpu_linked_list_effect(mid, result)
            } else {
                self.spec_io_write_effect(address, value, len, result)
            },
            _ => self.spec_write_bytes_effect(address, spec_le_bytes(value).take(len as int), result),
        }
    }

    fn write_cache_control(&mut self, address: u32, value: u32, len: usize)
        requires
            old(self).wf(),
            len == 1 || len == 2 || len == 4,
            old(self).spec_region(address, len) == BusRegion::CacheControl,
        ensures
            final(self).wf(),
            old(self).spec_write_effect(address, value, len, *final(self)),
    {
        if len == 4 {
            self.cache.control = value;
        } else {
            let base = address & !0x03u32;
            proof {
                assert(address == 0xfffe_0130 || address & 0x1fff_ffff == 0x1ffe_0130 ==> spec_physical(
                    address & !0x03u32,
                ) == spec_physical(address)) by (bit_vector);
            }
            self.cache.control = board_write_lane(self.cache.control, base, address, value, len);
        }
        self.trace.record_access(true, "cache_control", address, len as u8, value);
    }

    fn write_zn_board(&mut self, address: u32, value: u32, len: usize)
        requires
            old(self).wf(),
            len == 1 || len == 2 || len == 4,
            old(self).spec_region(address, len) == BusRegion::ZnBoard,
        ensures
            final(self).wf(),
            old(self).spec_write_effect(address, value, len, *final(self)),
    {
        let pc = self.trace.pc;
        let vblank = self.vblank_count;
        let cycles = self.trace.cycles;
        self.zn_board.write(address, value, len, pc, vblank, cycles);
        self.trace.record_access(true, "zn_board", address, len as u8, value);
    }

    fn write_io(&mut self, address: u32, value: u32, len: usize)
        requires
            old(self).wf(),
            len == 1 || len == 2 || len == 4,
            old(self).spec_region(address, len) == BusRegion::Io,
        ensures
            final(self).wf(),
            old(self).spec_io_write_effect(address, value, len, *final(self)),
    {
        let offset = (physical_address(address) - IO_REGION_START) as usize;
        let bytes = copy_bytes(&le_bytes(value), 0, len);
        proof {
            assert(spec_le_bytes(value).subrange(0, len as int) =~= spec_le_bytes(value).take(
                len as int,
            ));
        }
        let stored = io_stored_bytes(&self.io_registers, offset, &bytes);
        store_bytes(&mut self.io_registers, offset, stored.as_slice());
        self.trace.record_access(true, "io", address, len as u8, value);
    }

    /// Stores the low `len` (1, 2 or 4) bytes of `value` at `address`.
    fn write_value(&mut self, address: u32, value: u32, len: usize)
        requires
            old(self).wf(),
            len == 1 || len == 2 || len == 4,
        ensures
            final(self).wf(),
            old(self).spec_write_effect(address, value, len, *final(self)),
    {
        match self.region(address, len) {
            BusRegion::CacheControl => self.write_cache_control(address, value, len),
            BusRegion::ZnBoard => self.write_zn_board(address, value, len),
            BusRegion::Io => {
                self.write_io(address, value, len);
                if physical_address(address) == crate::dma::DMA_OTC_CHCR && len == 4 && value
                    & 0x0100_0000 != 0 {
                    let ghost mid = *self;
                    self.run_otc_dma();
                    assert(old(self).spec_io_write_effect(address, value, len, mid)
                        && crate::dma::spec_otc_effect(mid, *self));
                } else if physical_address(address) == crate::dma::DMA_GPU_CHCR && len == 4 && value
                    & 0x0100_0000 != 0 && value & 0x01 != 0 && value & 0x0400 != 0 {
                    let ghost mid = *self;
                    self.run_gpu_linked_list_dma();
                    assert(old(self).spec_io_write_effect(address, value, len, mid)
                        && crate::dma::spec_gpu_linked_list_effect(mid, *self));
                }
            },
            _ => {
                let bytes = copy_bytes(&le_bytes(value), 0, len);
                proof {
                    assert(spec_le_bytes(value).subrange(0, len as int) =~= spec_le_bytes(
                        value,
                    ).take(len as int));
                }
                self.write_bytes(address, bytes.as_slice());
            },
        }
    }

    /// Stores one byte.
    pub fn write_u8(&mut self, address: u32, value: u8)
        requires
            old(self).wf(),
        ensures
            final(self).wf(),
            old(self).spec_write_effect(address, value as u32, 1, *final(self)),
    {
        self.write_value(address, value as u32, 1)
    }

    /// Stores a little-endian halfword.
    pub fn write_u16(&mut self, address: u32, value: u16)
        requires
            old(self).wf(),
        ensures
            final(self).wf(),
            old(self).spec_write_effect(address, value as u32, 2, *final(self)),
    {
        self.write_value(address, value as u32, 2)
    }

    /// Stores a little-endian word.
    pub fn write_u32(&mut self, address: u32, value: u32)
        requires
            old(self).wf(),
        ensures
            final(self).wf(),
            old(self).spec_write_effect(address, value, 4, *final(self)),
    {
        self.write_value(address, value, 4)
    }

    /// The state right after power-on.
    pub open spec fn spec_fresh(
        self,
        rom: Seq<u8>,
        banked_roms: Seq<u8>,
        ram_size: usize,
        assets: NativeBoardAssets,
    ) -> bool {
        &&& self.wf()
        &&& self.ram@ == Seq::new(ram_size as nat, |i: int| 0u8)
        &&& self.scratchpad@ == Seq::new(SCRATCHPAD_LEN as nat, |i: int| 0u8)
        &&& self.io_registers@ == Seq::new(IO_REGION_LEN as nat, |i: int| 0u8)
        &&& self.rom@ == rom
        &&& self.banked_roms@ == banked_roms
        &&& forall|k: int| 0 <= k < BR2_RUNTIME_CODE_SNAPSHOT_LEN ==> !self.snapshots.runtime_valid@[k]
        &&& forall|k: int| 0 <= k < BR2_CODE_PATCH_SNAPSHOT_LEN ==> !self.snapshots.patch_valid@[k]
        &&& !self.snapshots.patch_frozen
        &&& self.zn_board.spec_fresh(assets.legacy_zinc_input_compat)
        &&& self.zn_board.at28c16@ == spec_initial_eeprom(board_opt_view(assets.at28c16))
        &&& self.br2_native_credit_hle_consumed_coin_edges == 0
        &&& self.br2_native_credit_hle == Br2NativeCreditHleStats::spec_initial()
        &&& self.cache == (CacheState {
            control: 0,
            isolated: false,
            isolation_transitions: 0,
            isolated_write_count: 0,
            isolated_write_bytes: 0,
            isolated_last_address: None,
            isolated_last_width: 0,
            isolated_last_value: 0,
        })
        &&& self.vblank_cycle_accumulator == 0
        &&& self.vblank_count == 0
        &&& self.vblank_presentation_capture_interval == Some(GPU_VBLANK_PRESENTATION_CAPTURE_INTERVAL)
        &&& self.unlinked_primitive_replay_interval is None
        &&& self.draw_sync == (DrawSyncStats {
            vblank_clears: 0,
            game_set_writes: 0,
            game_clear_writes: 0,
            game_other_writes: 0,
            last_game_write_value: None,
            last_game_write_pc: None,
        })
        &&& self.primitive_ram_writes.spec_empty()
        &&& self.banked_rom_reads.reads == 0
        &&& self.banked_rom_reads.bytes == 0
        &&& forall|i: int| 0 <= i < BANKED_ROM_BANKS ==> self.banked_rom_reads.bank_reads@[i] == 0
        &&& self.banked_rom_reads.last_bank is None
        &&& self.banked_rom_reads.last_address is None
        &&& self.banked_rom_reads.last_offset is None
        &&& self.recent_zn_input_reads@.len() == 0
        &&& self.recent_active_zn_input_reads@.len() == 0
        &&& forall|i: int|
            0 <= i < ZN_BOARD_INPUT_READ_PORT_COUNT ==> self.zn_input_read_stats.ports@[i]
                == ZnBoardInputPortReadStats::spec_initial()
        &&& self.board_asset_status == (NativeBoardAssetStatus {
            cat702_1_loaded: assets.cat702_1 is Some,
            cat702_2_loaded: assets.cat702_2 is Some,
            at28c16_loaded: assets.at28c16 is Some,
            at28c16_blank_default: assets.at28c16_blank_default,
            legacy_zinc_input_compat: assets.legacy_zinc_input_compat,
        })
        &&& self.options == (BusOptions {
            cache_isolated_write_suppression_disabled: false,
            cache_isolated_primitive_ram_write_passthrough: false,
        })
        &&& self.trace.limit == 0
        &&& !self.trace.watch_only
        &&& self.trace.watch_ranges@.len() == 0
        &&& !self.trace.watch_access_hit && !self.trace.watch_data_hit && !self.trace.watch_write_hit
        &&& self.trace.pc is None
        &&& self.trace.cycles == 0
        &&& self.trace.events@.len() == 0
        &&& match self.security_response {
            Some(v) => spec_security_response(rom) == Some(v@),
            None => spec_security_response(rom) is None,
        }
    }

    /// A bus over `rom`, no banked ROMs and `ram_size` bytes of RAM.
    pub fn new(rom: Vec<u8>, ram_size: usize) -> (r: Self)
        ensures
            r.spec_fresh(rom@, Seq::empty(), ram_size, NativeBoardAssets::spec_default()),
    {
        Self::with_banked_roms(rom, Vec::new(), ram_size)
    }

    /// A bus with banked ROMs and no other board assets.
    pub fn with_banked_roms(rom: Vec<u8>, banked_roms: Vec<u8>, ram_size: usize) -> (r: Self)
        ensures
            r.spec_fresh(rom@, banked_roms@, ram_size, NativeBoardAssets::spec_default()),
    {
        Self::with_board_assets(rom, banked_roms, ram_size, NativeBoardAssets::new())
    }

    /// A bus with the given ROMs, RAM size and board assets.
    pub fn with_board_assets(
        rom: Vec<u8>,
        banked_roms: Vec<u8>,
        ram_size: usize,
        board_assets: NativeBoardAssets,
    ) -> (r: Self)
        ensures
            r.spec_fresh(rom@, banked_roms@, ram_size, board_assets),
    {
        let board_asset_status = NativeBoardAssetStatus::from_assets(&board_assets);
        let zn_board = ZnBoard::with_board_assets(&board_assets);
        let security_response = zn_security_response_from_bios(&rom);
        let r = Bus {
            ram: vec![0u8; ram_size],
            scratchpad: vec![0u8; SCRATCHPAD_LEN],
            rom,
            banked_roms,
            io_registers: vec![0u8; IO_REGION_LEN],
            snapshots: CodeSnapshots::new(),
            zn_board,
            br2_native_credit_hle_consumed_coin_edges: 0,
            br2_native_credit_hle: Br2NativeCreditHleStats::new(),
            cache: CacheState {
                control: 0,
                isolated: false,
                isolation_transitions: 0,
                isolated_write_count: 0,
                isolated_write_bytes: 0,
                isolated_last_address: None,
                isolated_last_width: 0,
                isolated_last_value: 0,
            },
            vblank_cycle_accumulator: 0,
            vblank_count: 0,
            vblank_presentation_capture_interval: Some(GPU_VBLANK_PRESENTATION_CAPTURE_INTERVAL),
            unlinked_primitive_replay_interval: None,
            draw_sync: DrawSyncStats {
                vblank_clears: 0,
                game_set_writes: 0,
                game_clear_writes: 0,
                game_other_writes: 0,
                last_game_write_value: None,
                last_game_write_pc: None,
            },
            primitive_ram_writes: PrimitiveRamWriteStats::new(),
            dma_context: crate::header_relations::LinkedListContext {
                visited_nodes: Vec::new(),
                last_start: 0,
                last_first_node: 0,
                otc_clears: Vec::new(),
            },
            banked_rom_reads: BankedRomReadStats::new(),
            recent_zn_input_reads: Vec::new(),
            recent_active_zn_input_reads: Vec::new(),
            zn_input_read_stats: ZnBoardInputReadStats::new(),
            board_asset_status,
            options: BusOptions {
                cache_isolated_write_suppression_disabled: false,
                cache_isolated_primitive_ram_write_passthrough: false,
            },
            trace: AccessTrace::new(),
            security_response,
        };
        assert(r.wf());
        assert(r.ram@ == Seq::new(ram_size as nat, |i: int| 0u8));
        assert(r.scratchpad@ == Seq::new(SCRATCHPAD_LEN as nat, |i: int| 0u8));
        assert(r.io_registers@ == Seq::new(IO_REGION_LEN as nat, |i: int| 0u8));
        assert(r.zn_board.spec_fresh(board_assets.legacy_zinc_input_compat));
        assert(r.br2_native_credit_hle == Br2NativeCreditHleStats::spec_initial());
        assert(r.board_asset_status == (NativeBoardAssetStatus {
            cat702_1_loaded: board_assets.cat702_1 is Some,
            cat702_2_loaded: board_assets.cat702_2 is Some,
            at28c16_loaded: board_assets.at28c16 is Some,
            at28c16_blank_default: board_assets.at28c16_blank_default,
            legacy_zinc_input_compat: board_assets.legacy_zinc_input_compat,
        }));
        r
    }

    pub fn rom_len(&self) -> (r: usize)
        ensures
            r == self.rom@.len(),
    {
        self.rom.len()
    }

    pub fn ram_len(&self) -> (r: usize)
        ensures
            r == self.ram@.len(),
    {
        self.ram.len()
    }

    pub fn scratchpad_len(&self) -> (r: usize)
        ensures
            r == self.scratchpad@.len(),
    {
        self.scratchpad.len()
    }

    pub fn banked_rom_len(&self) -> (r: usize)
        ensures
            r == self.banked_roms@.len(),
    {
        self.banked_roms.len()
    }

    /// A copy of RAM.
    pub fn ram_snapshot(&self) -> (r: Vec<u8>)
        ensures
            r@ == self.ram@,
    {
        copy_bytes(&self.ram, 0, self.ram.len())
    }

    /// A copy of the scratchpad.
    pub fn scratchpad_snapshot(&self) -> (r: Vec<u8>)
        ensures
            r@ == self.scratchpad@,
    {
        copy_bytes(&self.scratchpad, 0, self.scratchpad.len())
    }

    /// Isolates the cache or ends isolation, counting changes of state.
    pub fn set_cache_isolated(&mut self, isolated: bool)
        ensures
            *final(self) == (Bus {
                cache: CacheState {
                    isolated,
                    isolation_transitions: if old(self).cache.isolated != isolated {
                        inc(old(self).cache.isolation_transitions)
                    } else {
                        old(self).cache.isolation_transitions
                    },
                    ..old(self).cache
                },
                ..*old(self)
            }),
    {
        if self.cache.isolated != isolated {
            self.cache.isolation_transitions = self.cache.isolation_transitions.saturating_add(1);
        }
        self.cache.isolated = isolated;
    }

    pub fn cache_isolated(&self) -> (r: bool)
        ensures
            r == self.cache.isolated,
    {
        self.cache.isolated
    }

    pub fn vblank_count(&self) -> (r: u64)
        ensures
            r == self.vblank_count,
    {
        self.vblank_count
    }

    pub fn vblank_presentation_capture_interval(&self) -> (r: Option<u64>)
        ensures
            r == self.vblank_presentation_capture_interval,
    {
        self.vblank_presentation_capture_interval
    }

    /// Sets the capture interval; an interval of zero turns captures off.
    pub fn set_vblank_presentation_capture_interval(&mut self, interval: Option<u64>)
        ensures
            *final(self) == (Bus {
                vblank_presentation_capture_interval: spec_positive(interval),
                ..*old(self)
            }),
    {
        self.vblank_presentation_capture_interval = positive(interval);
    }

    pub fn unlinked_primitive_replay_interval(&self) -> (r: Option<u64>)
        ensures
            r == self.unlinked_primitive_replay_interval,
    {
        self.unlinked_primitive_replay_interval
    }

    /// Sets the replay interval; an interval of zero turns replays off.
    pub fn set_unlinked_primitive_replay_interval(&mut self, interval: Option<u64>)
        ensures
            *final(self) == (Bus { unlinked_primitive_replay_interval: spec_positive(interval), ..*old(self) }),
    {
        self.unlinked_primitive_replay_interval = positive(interval);
    }

    /// Whether the frame shown at this vertical blank is captured: at the
    /// first vertical blank, then every `interval` vertical blanks.
    pub open spec fn spec_should_capture(self) -> bool {
        self.vblank_count == 1 || match self.vblank_presentation_capture_interval {
            Some(interval) => if interval == 0 {
                self.vblank_count == 0
            } else {
                self.vblank_count % interval == 0
            },
            None => false,
        }
    }

    pub fn should_capture_vblank_presented_frame(&self) -> (r: bool)
        ensures
            r == self.spec_should_capture(),
    {
        self.vblank_count == 1 || match self.vblank_presentation_capture_interval {
            Some(interval) => if interval == 0 {
                self.vblank_count == 0
            } else {
                self.vblank_count % interval == 0
            },
            None => false,
        }
    }

    /// CPU cycles left until the next vertical blank.
    pub fn cycles_until_next_vblank(&self) -> (r: u64)
        ensures
            r == (if self.vblank_cycle_accumulator >= VBLANK_CYCLES {
                0
            } else {
                VBLANK_CYCLES - self.vblank_cycle_accumulator
            }),
    {
        VBLANK_CYCLES.saturating_sub(self.vblank_cycle_accumulator)
    }

    /// Whether a word at `pc` can be fetched from RAM, scratchpad or ROM.
    pub fn executable_pc_mapped(&self, pc: u32) -> (r: bool)
        ensures
            r == (spec_ram_offset(pc, self.ram@.len() as usize, 4) is Some
                || spec_scratchpad_offset(pc, self.scratchpad@.len() as usize, 4) is Some
                || spec_rom_offset(pc, self.rom@.len() as usize, 4) is Some
                || spec_banked_rom_offset(
                pc,
                self.banked_roms@.len() as usize,
                4,
                self.zn_board.rom_bank,
            ) is Some),
    {
        ram_offset(pc, self.ram.len(), 4).is_some() || scratchpad_offset(
            pc,
            self.scratchpad.len(),
            4,
        ).is_some() || rom_offset(pc, self.rom.len(), 4).is_some() || banked_rom_offset(
            pc,
            self.banked_roms.len(),
            4,
            self.zn_board.rom_bank,
        ).is_some()
    }

    /// The RAM word at a physical offset, without mirroring.
    pub open spec fn spec_ram_word(self, physical: u32) -> Option<u32> {
        if physical + 4 <= self.ram@.len() {
            Some(spec_le_u32(self.ram@.subrange(physical as int, physical + 4)))
        } else {
            None
        }
    }

    pub fn read_ram_u32_physical(&self, physical: u32) -> (r: Option<u32>)
        ensures
            r == self.spec_ram_word(physical),
    {
        let offset = physical as usize;
        if offset > self.ram.len() || self.ram.len() - offset < 4 {
            return None;
        }
        Some(le_u32_at(&self.ram, offset, 4))
    }

    pub fn set_coin_input_mapping_name(&mut self, value: &str) -> (r: bool)
        ensures
            r == NativeCoinInputMapping::spec_parse(value@) is Some,
            *final(self) == (Bus {
                zn_board: match NativeCoinInputMapping::spec_parse(value@) {
                    Some(m) => ZnBoard { coin_input_mapping: m, ..old(self).zn_board },
                    None => old(self).zn_board,
                },
                ..*old(self)
            }),
    {
        self.zn_board.set_coin_input_mapping_name(value)
    }

    pub fn set_native_credit_adapter_input_bit(&mut self, value: u32) -> (r: bool)
        ensures
            r == (value != 0),
            *final(self) == (Bus {
                zn_board: if value != 0 {
                    ZnBoard { native_credit_adapter_input_bit: value, ..old(self).zn_board }
                } else {
                    old(self).zn_board
                },
                ..*old(self)
            }),
    {
        self.zn_board.set_native_credit_adapter_input_bit(value)
    }

    pub fn set_native_credit_projection_name(&mut self, value: &str) -> (r: bool)
        requires
            old(self).wf(),
        ensures
            final(self).wf(),
            r == spec_parse_projection_rules(value@) is Some,
            match spec_parse_projection_rules(value@) {
                Some(rules) => final(self).zn_board.native_credit_projection_rules@ == rules
                    && final(self).zn_board == (ZnBoard {
                    native_credit_projection_rules: final(self).zn_board.native_credit_projection_rules,
                    ..old(self).zn_board
                }),
                None => final(self).zn_board == old(self).zn_board,
            },
            *final(self) == (Bus { zn_board: final(self).zn_board, ..*old(self) }),
    {
        self.zn_board.set_native_credit_projection_name(value)
    }

    /// Writes a RAM word at a physical offset, without mirroring; `false`
    /// when RAM does not hold it.
    fn write_ram_u32_physical(&mut self, physical: u32, value: u32) -> (r: bool)
        requires
            old(self).wf(),
        ensures
            final(self).wf(),
            r == (physical + 4 <= old(self).ram@.len()),
            final(self).ram@ == (if r {
                spec_spliced(old(self).ram@, physical as int, spec_le_bytes(value))
            } else {
                old(self).ram@
            }),
            final(self).snapshots.spec_runtime_copy() == (if r && CodeSnapshots::spec_boot_copy_write(
                old(self).trace.pc,
            ) {
                spec_put_bytes(
                    old(self).snapshots.spec_runtime_copy(),
                    BR2_RUNTIME_CODE_SNAPSHOT_START,
                    physical,
                    spec_le_bytes(value),
                    4,
                )
            } else {
                old(self).snapshots.spec_runtime_copy()
            }),
            final(self).snapshots.spec_patch_copy() == (if r && !old(self).snapshots.patch_frozen {
                spec_put_bytes(
                    old(self).snapshots.spec_patch_copy(),
                    BR2_CODE_PATCH_SNAPSHOT_START,
                    physical,
                    spec_le_bytes(value),
                    4,
                )
            } else {
                old(self).snapshots.spec_patch_copy()
            }),
            final(self).spec_same_fixed(*old(self)),
            final(self).scratchpad@ == old(self).scratchpad@,
            final(self).io_registers@ == old(self).io_registers@,
            final(self).cache == old(self).cache,
            final(self).draw_sync == old(self).draw_sync,
            final(self).zn_board == old(self).zn_board,
            final(self).trace == old(self).trace,
            final(self).primitive_ram_writes == old(self).primitive_ram_writes,
    {
        let offset = physical as usize;
        if offset > self.ram.len() || self.ram.len() - offset < 4 {
            return false;
        }
        let encoded = le_bytes(value);
        store_bytes(&mut self.ram, offset, encoded.as_slice());
        let pc = self.trace.pc;
        self.snapshots.record_runtime_write(physical, encoded.as_slice(), pc);
        self.snapshots.record_patch_write(physical, encoded.as_slice());
        true
    }

    /// Whether the game's draw sync flag is set in RAM.
    pub open spec fn spec_draw_sync_pending(self) -> bool {
        self.spec_ram_word(BR2_DRAW_SYNC_FLAG_PHYSICAL) matches Some(v) && v != 0
    }

    /// `result` is this bus with the draw sync flag cleared, if it was set;
    /// the vertical blank timing aside.
    pub open spec fn spec_draw_sync_cleared(self, result: Bus) -> bool {
        &&& result.io_registers@ == self.io_registers@
        &&& self.spec_draw_sync_cleared_in_memory(result)
    }

    /// `result` is this bus with the game's draw sync flag cleared, if it
    /// was set; the I/O window is not looked at.
    pub open spec fn spec_draw_sync_cleared_in_memory(self, result: Bus) -> bool {
        &&& result.spec_same_untimed(self)
        &&& result.scratchpad@ == self.scratchpad@
        &&& result.cache == self.cache
        &&& result.zn_board == self.zn_board
        &&& result.spec_same_snapshots(self)
        &&& if self.spec_draw_sync_pending() {
            &&& result.ram@ == spec_spliced(
                self.ram@,
                BR2_DRAW_SYNC_FLAG_PHYSICAL as int,
                spec_le_bytes(0),
            )
            &&& result.draw_sync == (DrawSyncStats {
                vblank_clears: inc(self.draw_sync.vblank_clears),
                ..self.draw_sync
            })
            &&& self.trace.spec_watch_effect(true, "ram", BR2_DRAW_SYNC_FLAG_VIRTUAL, 4, 0, result.trace)
        } else {
            &&& result.ram@ == self.ram@
            &&& result.draw_sync == self.draw_sync
            &&& result.trace == self.trace
        }
    }

    /// Vertical blank clears the game's draw sync flag.
    fn complete_draw_sync_on_vblank(&mut self)
        requires
            old(self).wf(),
        ensures
            final(self).wf(),
            old(self).spec_draw_sync_cleared(*final(self)),
            final(self).vblank_cycle_accumulator == old(self).vblank_cycle_accumulator,
            final(self).vblank_count == old(self).vblank_count,
            final(self).primitive_ram_writes == old(self).primitive_ram_writes,
            !final(self).spec_draw_sync_pending(),
    {
        let value = match self.read_ram_u32_physical(BR2_DRAW_SYNC_FLAG_PHYSICAL) {
            Some(value) => value,
            None => return,
        };
        if value == 0 {
            return;
        }
        proof {
            assert forall|i: int| 0 <= i < 4 implies !(0 <= #[trigger] spec_byte_physical(
                BR2_DRAW_SYNC_FLAG_PHYSICAL,
                i,
            ) - BR2_RUNTIME_CODE_SNAPSHOT_START < self.snapshots.runtime@.len()) by {
                lemma_low_byte_physical(BR2_DRAW_SYNC_FLAG_PHYSICAL, i);
            }
            assert forall|i: int| 0 <= i < 4 implies !(0 <= #[trigger] spec_byte_physical(
                BR2_DRAW_SYNC_FLAG_PHYSICAL,
                i,
            ) - BR2_CODE_PATCH_SNAPSHOT_START < self.snapshots.patch@.len()) by {
                lemma_low_byte_physical(BR2_DRAW_SYNC_FLAG_PHYSICAL, i);
            }
            lemma_put_bytes_outside(
                self.snapshots.spec_runtime_copy(),
                BR2_RUNTIME_CODE_SNAPSHOT_START,
                BR2_DRAW_SYNC_FLAG_PHYSICAL,
                spec_le_bytes(0),
                4,
            );
            lemma_put_bytes_outside(
                self.snapshots.spec_patch_copy(),
                BR2_CODE_PATCH_SNAPSHOT_START,
                BR2_DRAW_SYNC_FLAG_PHYSICAL,
                spec_le_bytes(0),
                4,
            );
        }
        if self.write_ram_u32_physical(BR2_DRAW_SYNC_FLAG_PHYSICAL, 0) {
            self.draw_sync.vblank_clears = self.draw_sync.vblank_clears.saturating_add(1);
            self.trace.record_watch(true, "ram", BR2_DRAW_SYNC_FLAG_VIRTUAL, 4, 0);
            proof {
                lemma_le_roundtrip(0);
                assert(self.ram@.subrange(
                    BR2_DRAW_SYNC_FLAG_PHYSICAL as int,
                    BR2_DRAW_SYNC_FLAG_PHYSICAL + 4,
                ) =~= spec_le_bytes(0));
            }
        }
    }

    /// Advances time by `cycles` CPU cycles; each vertical blank reached
    /// counts and clears the game's draw sync flag.
    pub fn tick(&mut self, cycles: u64)
        requires
            old(self).wf(),
        ensures
            final(self).wf(),
            ({
                let total = if old(self).vblank_cycle_accumulator + cycles > u64::MAX {
                    u64::MAX as int
                } else {
                    old(self).vblank_cycle_accumulator + cycles
                };
                let vblanks = total / (VBLANK_CYCLES as int);
                &&& final(self).vblank_cycle_accumulator == total % (VBLANK_CYCLES as int)
                &&& final(self).vblank_count == (if old(self).vblank_count + vblanks > u64::MAX {
                    u64::MAX as int
                } else {
                    old(self).vblank_count + vblanks
                })
                &&& if vblanks == 0 {
                    old(self).spec_draw_sync_cleared(*final(self)) && !old(self).spec_draw_sync_pending()
                        || final(self).spec_same_untimed(*old(self))
                        && final(self).spec_same_stores_untimed(*old(self))
                } else {
                    &&& old(self).spec_draw_sync_cleared_in_memory(*final(self))
                    &&& final(self).io_registers@ == spec_vblank_irq_raised(old(self).io_registers@)
                }
                &&& old(self).primitive_ram_writes.spec_after_vblanks(
                    vblanks,
                    final(self).primitive_ram_writes,
                )
            }),
    {
        let ghost start = *self;
        let ghost total = if self.vblank_cycle_accumulator + cycles > u64::MAX {
            u64::MAX as int
        } else {
            self.vblank_cycle_accumulator + cycles
        };
        self.vblank_cycle_accumulator = self.vblank_cycle_accumulator.saturating_add(cycles);
        let ghost mut done: int = 0;
        let mut vblank_passed = false;
        while self.vblank_cycle_accumulator >= VBLANK_CYCLES
            invariant
                self.wf(),
                0 <= done,
                vblank_passed == (done > 0),
                self.vblank_cycle_accumulator == total - done * VBLANK_CYCLES,
                self.vblank_count == (if start.vblank_count + done > u64::MAX {
                    u64::MAX as int
                } else {
                    start.vblank_count + done
                }),
                done == 0 ==> self.spec_same_untimed(start) && self.spec_same_stores_untimed(start),
                done > 0 ==> start.spec_draw_sync_cleared(*self) && !self.spec_draw_sync_pending(),
                start.wf(),
                start.primitive_ram_writes.spec_after_vblanks(done, self.primitive_ram_writes),
            decreases self.vblank_cycle_accumulator,
        {
            let ghost before = *self;
            self.vblank_cycle_accumulator = self.vblank_cycle_accumulator - VBLANK_CYCLES;
            self.vblank_count = self.vblank_count.saturating_add(1);
            self.primitive_ram_writes.advance_vblank();
            proof {
                crate::primitive::lemma_after_one_more_vblank(
                    start.primitive_ram_writes,
                    done,
                    before.primitive_ram_writes,
                    self.primitive_ram_writes,
                );
            }
            self.complete_draw_sync_on_vblank();
            vblank_passed = true;
            proof {
                done = done + 1;
            }
        }
        proof {
            assert(done == total / (VBLANK_CYCLES as int)) by (nonlinear_arith)
                requires
                    0 <= total - done * VBLANK_CYCLES < VBLANK_CYCLES,
                    0 <= done,
            ;
        }
        if vblank_passed {
            let raised = self.io_registers[IRQ_STATUS_OFFSET] | IRQ_VBLANK;
            self.io_registers.set(IRQ_STATUS_OFFSET, raised);
        }
    }

    /// Memory and the registers a store can change are the same in `self`
    /// and `other`.
    pub open spec fn spec_same_stores_untimed(self, other: Bus) -> bool {
        &&& self.ram@ == other.ram@
        &&& self.scratchpad@ == other.scratchpad@
        &&& self.io_registers@ == other.io_registers@
        &&& self.spec_same_snapshots(other)
        &&& self.draw_sync == other.draw_sync
        &&& self.cache == other.cache
        &&& self.zn_board == other.zn_board
        &&& self.trace == other.trace
    }

    /// `result` is this bus after `access`.
    pub open spec fn spec_access(self, access: BusAccess, result: Bus) -> bool {
        match access {
            BusAccess::Read { address, len } => self.spec_read_effect(address, len, result),
            BusAccess::Write { address, value, len } => self.spec_write_effect(address, value, len, result),
        }
    }

    /// `states` steps through `accesses`, one access at a time.
    pub open spec fn spec_runs(states: Seq<Bus>, accesses: Seq<BusAccess>) -> bool {
        &&& states.len() == accesses.len() + 1
        &&& forall|i: int|
            0 <= i < accesses.len() ==> #[trigger] states[i].spec_access(accesses[i], states[i + 1])
    }

    /// `result` is reached from this bus by making `accesses` in order.
    pub open spec fn spec_after_accesses(self, accesses: Seq<BusAccess>, result: Bus) -> bool {
        exists|states: Seq<Bus>|
            Self::spec_runs(states, accesses) && states[0] == self && states.last() == result
    }

    /// A byte of the game's credit state block.
    pub open spec fn spec_credit_byte(self, offset: u32) -> u8 {
        self.spec_read_value((BR2_CREDIT_STATE_BASE + offset) as u32, 1) as u8
    }

    /// Coin edges not yet turned into credits.
    pub open spec fn spec_pending_coin_edges(self) -> u64 {
        if self.zn_board.coin_insert_edges >= self.br2_native_credit_hle_consumed_coin_edges {
            (self.zn_board.coin_insert_edges - self.br2_native_credit_hle_consumed_coin_edges) as u64
        } else {
            0
        }
    }

    /// Whether the game has set its credit state up: a sane price and
    /// player mode, and either free play, a price of 1 to 9 credits, or a
    /// price of zero once a credit check or the coin adapter has been seen.
    pub open spec fn spec_credit_state_ready(self) -> bool {
        let freeplay = self.spec_credit_byte(BR2_CREDIT_FREEPLAY_FLAG_OFFSET) != 0;
        let required_p1 = self.spec_credit_byte(BR2_CREDIT_REQUIRED_P1_OFFSET);
        let required_p2 = self.spec_credit_byte(BR2_CREDIT_REQUIRED_P2_OFFSET);
        let player_mode = self.spec_credit_byte(BR2_CREDIT_PLAYER_MODE_OFFSET);
        let adapter_seen = self.zn_board.native_credit_adapter_writes > 0
            || self.zn_board.native_credit_adapter_edges > 0;
        &&& required_p2 <= 9
        &&& player_mode <= 2
        &&& (freeplay || (1 <= required_p1 <= 9) || (required_p1 == 0 && (
        self.br2_native_credit_hle.accepted > 0 || adapter_seen)))
    }

    /// The reads the readiness check makes.
    pub open spec fn spec_ready_reads() -> Seq<BusAccess> {
        seq![
            BusAccess::Read { address: (BR2_CREDIT_STATE_BASE + BR2_CREDIT_FREEPLAY_FLAG_OFFSET) as u32, len: 1 },
            BusAccess::Read { address: (BR2_CREDIT_STATE_BASE + BR2_CREDIT_REQUIRED_P1_OFFSET) as u32, len: 1 },
            BusAccess::Read { address: (BR2_CREDIT_STATE_BASE + BR2_CREDIT_REQUIRED_P2_OFFSET) as u32, len: 1 },
            BusAccess::Read { address: (BR2_CREDIT_STATE_BASE + BR2_CREDIT_PLAYER_MODE_OFFSET) as u32, len: 1 },
        ]
    }

    /// Player one's credit slot.
    pub open spec fn spec_credit_slot() -> u32 {
        (BR2_CREDIT_STATE_BASE + BR2_CREDIT_SHARED_SLOT_OFFSET) as u32
    }

    /// The check the injection records and the credit it leaves: each
    /// pending coin edge buys the price in credits (at least one), up to 255.
    pub open spec fn spec_injection_check(self) -> Br2NativeCreditHleCheck {
        let pending = self.spec_pending_coin_edges();
        let freeplay = self.spec_credit_byte(BR2_CREDIT_FREEPLAY_FLAG_OFFSET) != 0;
        let required = self.spec_credit_byte(BR2_CREDIT_REQUIRED_P1_OFFSET);
        let effective = if required < 1 {
            1
        } else {
            required
        };
        let before = self.spec_read_value(Self::spec_credit_slot(), 1) as u8;
        let inserted = if pending * effective > 0xff {
            0xffu8
        } else {
            (pending * effective) as u8
        };
        let after = if freeplay {
            before
        } else if before + inserted > 0xff {
            0xffu8
        } else {
            (before + inserted) as u8
        };
        Br2NativeCreditHleCheck {
            player: 0,
            freeplay,
            required,
            credit_slot: Self::spec_credit_slot(),
            credit_before: before,
            credit_after: after,
            pending_coin_edges: pending,
            result: after as u32,
        }
    }

    /// The accesses the injection itself makes.
    pub open spec fn spec_injection_accesses(self) -> Seq<BusAccess> {
        let check = self.spec_injection_check();
        let reads = seq![
            BusAccess::Read { address: (BR2_CREDIT_STATE_BASE + BR2_CREDIT_FREEPLAY_FLAG_OFFSET) as u32, len: 1 },
            BusAccess::Read { address: (BR2_CREDIT_STATE_BASE + BR2_CREDIT_REQUIRED_P1_OFFSET) as u32, len: 1 },
            BusAccess::Read { address: (BR2_CREDIT_STATE_BASE + BR2_CREDIT_PLAYER_MODE_OFFSET) as u32, len: 1 },
            BusAccess::Read { address: Self::spec_credit_slot(), len: 1 },
        ];
        if check.freeplay {
            reads
        } else {
            reads.push(BusAccess::Write { address: Self::spec_credit_slot(), value: check.credit_after as u32, len: 1 })
        }
    }

    /// `result` is this bus after pending coin edges are turned into credits
    /// on the game's behalf: with edges pending, the credit state is checked;
    /// once it is ready, the price is read, player one's credit slot is
    /// raised (unless in free play), the edges are consumed and the check is
    /// recorded.
    pub open spec fn spec_credit_injected(self, result: Bus) -> bool {
        if self.spec_pending_coin_edges() == 0 {
            result == self
        } else if !self.spec_credit_state_ready() {
            self.spec_after_accesses(Self::spec_ready_reads(), result)
        } else {
            exists|after: Bus|
                self.spec_after_accesses(
                    Self::spec_ready_reads() + self.spec_injection_accesses(),
                    after,
                ) && result == (Bus {
                    br2_native_credit_hle_consumed_coin_edges: self.zn_board.coin_insert_edges,
                    br2_native_credit_hle: self.br2_native_credit_hle.spec_after_record(
                        self.spec_injection_check(),
                    ),
                    ..after
                })
        }
    }

    /// A read of the RAM window leaves later reads of the RAM window alone.
    pub proof fn lemma_read_keeps_ram_window(self, address: u32, len: usize, result: Bus, other: u32)
        requires
            self.spec_read_effect(address, len, result),
            spec_physical(other) < 0x0080_0000,
            other != 0xfffe_0130,
        ensures
            result.spec_read_value(other, 1) == self.spec_read_value(other, 1),
            result.spec_region(other, 1) == self.spec_region(other, 1),
    {
        assert(!spec_zn_board_address(spec_physical(other)));
        assert(spec_mapped_io_address(other, 1) is None);
        assert(spec_scratchpad_offset(other, self.scratchpad@.len() as usize, 1) is None);
        assert(spec_rom_offset(other, self.rom@.len() as usize, 1) is None);
        assert(spec_banked_rom_offset(other, self.banked_roms@.len() as usize, 1, self.zn_board.rom_bank) is None);
        assert(spec_banked_rom_offset(other, result.banked_roms@.len() as usize, 1, result.zn_board.rom_bank) is None);
    }

    /// Reads of the bus leave reads of the RAM window alone.
    pub proof fn lemma_runs_of_reads(states: Seq<Bus>, accesses: Seq<BusAccess>, other: u32)
        requires
            Self::spec_runs(states, accesses),
            forall|i: int| 0 <= i < accesses.len() ==> #[trigger] accesses[i] is Read,
            spec_physical(other) < 0x0080_0000,
            other != 0xfffe_0130,
        ensures
            states.last().spec_read_value(other, 1) == states[0].spec_read_value(other, 1),
        decreases accesses.len(),
    {
        if accesses.len() > 0 {
            let n = accesses.len() - 1;
            Self::lemma_runs_of_reads(states.drop_last(), accesses.drop_last(), other);
            assert(states.drop_last().last() == states[n]);
            assert(states[n].spec_access(accesses[n], states[n + 1]));
            match accesses[n] {
                BusAccess::Read { address, len } => {
                    states[n].lemma_read_keeps_ram_window(address, len, states[n + 1], other);
                },
                BusAccess::Write { .. } => {},
            }
        }
    }

    /// No access changes the credit injection's own bookkeeping.
    pub proof fn lemma_runs_keep_credit(states: Seq<Bus>, accesses: Seq<BusAccess>)
        requires
            Self::spec_runs(states, accesses),
        ensures
            states.last().br2_native_credit_hle == states[0].br2_native_credit_hle,
            states.last().br2_native_credit_hle_consumed_coin_edges
                == states[0].br2_native_credit_hle_consumed_coin_edges,
        decreases accesses.len(),
    {
        if accesses.len() > 0 {
            let n = accesses.len() - 1;
            Self::lemma_runs_keep_credit(states.drop_last(), accesses.drop_last());
            assert(states.drop_last().last() == states[n]);
            assert(states[n].spec_access(accesses[n], states[n + 1]));
        }
    }

    /// Checks the game's credit state with the reads the game's own check
    /// makes.
    fn br2_native_credit_state_is_ready(&mut self) -> (r: bool)
        requires
            old(self).wf(),
        ensures
            final(self).wf(),
            r == old(self).spec_credit_state_ready(),
            old(self).spec_after_accesses(Self::spec_ready_reads(), *final(self)),
    {
        let ghost s0 = *self;
        let freeplay = self.read_u8(BR2_CREDIT_STATE_BASE + BR2_CREDIT_FREEPLAY_FLAG_OFFSET) != 0;
        let ghost s1 = *self;
        let required_p1 = self.read_u8(BR2_CREDIT_STATE_BASE + BR2_CREDIT_REQUIRED_P1_OFFSET);
        let ghost s2 = *self;
        let required_p2 = self.read_u8(BR2_CREDIT_STATE_BASE + BR2_CREDIT_REQUIRED_P2_OFFSET);
        let ghost s3 = *self;
        let player_mode = self.read_u8(BR2_CREDIT_STATE_BASE + BR2_CREDIT_PLAYER_MODE_OFFSET);
        let ghost s4 = *self;
        proof {
            lemma_credit_addresses();
            let reads = Self::spec_ready_reads();
            let base = BR2_CREDIT_STATE_BASE;
            s0.lemma_read_keeps_ram_window((base + 0) as u32, 1, s1, (base + 8) as u32);
            s0.lemma_read_keeps_ram_window((base + 0) as u32, 1, s1, (base + 9) as u32);
            s0.lemma_read_keeps_ram_window((base + 0) as u32, 1, s1, (base + 1) as u32);
            s1.lemma_read_keeps_ram_window((base + 8) as u32, 1, s2, (base + 9) as u32);
            s1.lemma_read_keeps_ram_window((base + 8) as u32, 1, s2, (base + 1) as u32);
            s2.lemma_read_keeps_ram_window((base + 9) as u32, 1, s3, (base + 1) as u32);
            let states = seq![s0, s1, s2, s3, s4];
            assert(states[0].spec_access(reads[0], states[1]));
            assert(states[1].spec_access(reads[1], states[2]));
            assert(states[2].spec_access(reads[2], states[3]));
            assert(states[3].spec_access(reads[3], states[4]));
            assert(Self::spec_runs(states, reads));
            assert(states.last() == *self);
        }
        if required_p2 > 9 || player_mode > 2 {
            return false;
        }
        let adapter_seen = self.zn_board.native_credit_adapter_writes > 0
            || self.zn_board.native_credit_adapter_edges > 0;
        freeplay || (1 <= required_p1 && required_p1 <= 9) || (required_p1 == 0 && (
        self.br2_native_credit_hle_accepted_seen() || adapter_seen))
    }

    /// Turns pending coin edges into credits once the game's credit state is
    /// set up.
    #[verifier::spinoff_prover]
    #[verifier::rlimit(40)]
    fn inject_br2_native_credit_from_coin_edges(&mut self)
        requires
            old(self).wf(),
        ensures
            final(self).wf(),
            old(self).spec_credit_injected(*final(self)),
    {
        let edges = self.zn_board.coin_insert_edges;
        let pending = edges.saturating_sub(self.br2_native_credit_hle_consumed_coin_edges);
        if pending == 0 {
            return;
        }
        let ghost s0 = *self;
        let ready = self.br2_native_credit_state_is_ready();
        if !ready {
            return;
        }
        let ghost r0 = *self;
        let player: u32 = 0;
        let freeplay = self.read_u8(BR2_CREDIT_STATE_BASE + BR2_CREDIT_FREEPLAY_FLAG_OFFSET) != 0;
        let ghost r1 = *self;
        let required = self.read_u8(BR2_CREDIT_STATE_BASE + BR2_CREDIT_REQUIRED_P1_OFFSET);
        let ghost r2 = *self;
        let effective_required: u8 = if required < 1 {
            1
        } else {
            required
        };
        let _player_mode = self.read_u8(BR2_CREDIT_STATE_BASE + BR2_CREDIT_PLAYER_MODE_OFFSET);
        let ghost r3 = *self;
        let credit_slot = BR2_CREDIT_STATE_BASE + BR2_CREDIT_SHARED_SLOT_OFFSET;
        let credit_before = self.read_u8(credit_slot);
        let ghost r4 = *self;
        let inserted: u8 = match pending.checked_mul(effective_required as u64) {
            Some(product) => if product > 0xff {
                0xff
            } else {
                product as u8
            },
            None => 0xff,
        };
        let credit_after = if freeplay {
            credit_before
        } else {
            credit_before.saturating_add(inserted)
        };
        if !freeplay {
            self.write_u8(credit_slot, credit_after);
        }
        let ghost after = *self;
        proof {
            let base = BR2_CREDIT_STATE_BASE;
            let a0 = (base + BR2_CREDIT_FREEPLAY_FLAG_OFFSET) as u32;
            let a8 = (base + BR2_CREDIT_REQUIRED_P1_OFFSET) as u32;
            let a1 = (base + BR2_CREDIT_PLAYER_MODE_OFFSET) as u32;
            let slot = Self::spec_credit_slot();
            lemma_credit_addresses();
            let ready_reads = Self::spec_ready_reads();
            let rs = choose|states: Seq<Bus>|
                Self::spec_runs(states, ready_reads) && states[0] == s0 && states.last() == r0;
            Self::lemma_runs_of_reads(rs, ready_reads, a0);
            Self::lemma_runs_of_reads(rs, ready_reads, a8);
            Self::lemma_runs_of_reads(rs, ready_reads, a1);
            Self::lemma_runs_of_reads(rs, ready_reads, slot);
            r0.lemma_read_keeps_ram_window(a0, 1, r1, a8);
            r0.lemma_read_keeps_ram_window(a0, 1, r1, slot);
            r1.lemma_read_keeps_ram_window(a8, 1, r2, slot);
            r2.lemma_read_keeps_ram_window(a1, 1, r3, slot);
            let check = s0.spec_injection_check();
            assert(check.freeplay == freeplay);
            assert(check.required == required);
            assert(check.credit_before == credit_before);
            assert(check.credit_after == credit_after);
            let inj = s0.spec_injection_accesses();
            let tail = if freeplay {
                seq![r1, r2, r3, r4]
            } else {
                seq![r1, r2, r3, r4, after]
            };
            let states = rs + tail;
            let accesses = ready_reads + inj;
            assert(states.len() == accesses.len() + 1);
            assert forall|i: int| 0 <= i < accesses.len() implies #[trigger] states[i].spec_access(
                accesses[i],
                states[i + 1],
            ) by {
                if i < 4 {
                    assert(states[i] == rs[i]);
                    assert(states[i + 1] == rs[i + 1]);
                    assert(accesses[i] == ready_reads[i]);
                } else if i == 4 {
                    assert(states[i] == r0);
                    assert(states[i + 1] == r1);
                } else if i == 5 {
                    assert(states[i] == r1);
                    assert(states[i + 1] == r2);
                } else if i == 6 {
                    assert(states[i] == r2);
                    assert(states[i + 1] == r3);
                } else if i == 7 {
                    assert(states[i] == r3);
                    assert(states[i + 1] == r4);
                } else {
                    assert(states[i] == r4);
                    assert(states[i + 1] == after);
                }
            }
            assert(states[0] == s0);
            assert(states.last() == after);
            assert(s0.spec_after_accesses(accesses, after));
            Self::lemma_runs_keep_credit(states, accesses);
        }
        self.br2_native_credit_hle_consumed_coin_edges = edges;
        self.br2_native_credit_hle.record(
            Br2NativeCreditHleCheck {
                player,
                freeplay,
                required,
                credit_slot,
                credit_before,
                credit_after,
                pending_coin_edges: pending,
                result: credit_after as u32,
            },
        );
        proof {
            let accesses = Self::spec_ready_reads() + s0.spec_injection_accesses();
            assert(after.br2_native_credit_hle == s0.br2_native_credit_hle);
            assert(*self == (Bus {
                br2_native_credit_hle_consumed_coin_edges: s0.zn_board.coin_insert_edges,
                br2_native_credit_hle: s0.br2_native_credit_hle.spec_after_record(
                    s0.spec_injection_check(),
                ),
                ..after
            }));
            assert(s0.spec_after_accesses(accesses, after));
        }
    }

    pub fn br2_native_credit_hle_accepted_seen(&self) -> (r: bool)
        ensures
            r == (self.br2_native_credit_hle.accepted > 0),
    {
        self.br2_native_credit_hle.accepted > 0
    }

    /// New buttons for the board; pending coin edges then become credits.
    pub fn set_input(&mut self, buttons: ActionButtons)
        requires
            old(self).wf(),
        ensures
            final(self).wf(),
            (Bus { zn_board: old(self).zn_board.spec_after_set_input(buttons), ..*old(self) })
                .spec_credit_injected(*final(self)),
    {
        self.zn_board.set_input(buttons);
        self.inject_br2_native_credit_from_coin_edges();
    }

    /// The board's poll counters. (Controller polls over the serial port
    /// are counted by the serial controller, which this library does not
    /// hold.)
    pub fn input_activity(&self) -> (r: NativeInputActivity)
        ensures
            r == self.zn_board.spec_input_activity(),
    {
        self.zn_board.input_activity()
    }

    /// Takes the coin edges not yet turned into credits, for a credit check
    /// answered elsewhere.
    pub fn consume_br2_native_credit_hle_coin_edges(&mut self) -> (r: u64)
        ensures
            r == old(self).spec_pending_coin_edges(),
            *final(self) == (Bus {
                br2_native_credit_hle_consumed_coin_edges: old(self).zn_board.coin_insert_edges,
                ..*old(self)
            }),
    {
        let edges = self.zn_board.coin_insert_edges;
        let pending = edges.saturating_sub(self.br2_native_credit_hle_consumed_coin_edges);
        self.br2_native_credit_hle_consumed_coin_edges = edges;
        pending
    }

    /// Records a credit check answered elsewhere.
    pub fn record_br2_native_credit_hle_check(&mut self, check: Br2NativeCreditHleCheck)
        ensures
            *final(self) == (Bus {
                br2_native_credit_hle: old(self).br2_native_credit_hle.spec_after_record(check),
                ..*old(self)
            }),
    {
        self.br2_native_credit_hle.record(check);
    }

    /// The credit check counters as JSON.
    pub fn br2_native_credit_hle_json(&self) -> (r: String)
        ensures
            r@ == self.br2_native_credit_hle.spec_json(),
    {
        self.br2_native_credit_hle.json()
    }

    /// Sets how many events the access trace keeps; clears it.
    pub fn set_access_trace_limit(&mut self, limit: usize)
        ensures
            final(self).trace.events@.len() == 0,
            final(self).trace == (AccessTrace {
                limit,
                events: final(self).trace.events,
                watch_access_hit: false,
                watch_data_hit: false,
                watch_write_hit: false,
                ..old(self).trace
            }),
            *final(self) == (Bus { trace: final(self).trace, ..*old(self) }),
    {
        self.trace.set_limit(limit);
    }

    /// Watches the given `(address, length)` ranges; clears the trace.
    pub fn set_access_trace_watch_ranges(&mut self, ranges: Vec<(u32, u32)>)
        ensures
            final(self).trace.watch_ranges@ == AccessTrace::spec_ranges(ranges@),
            final(self).trace.events@.len() == 0,
            final(self).trace == (AccessTrace {
                watch_ranges: final(self).trace.watch_ranges,
                events: final(self).trace.events,
                watch_access_hit: false,
                watch_data_hit: false,
                watch_write_hit: false,
                ..old(self).trace
            }),
            *final(self) == (Bus { trace: final(self).trace, ..*old(self) }),
    {
        self.trace.set_watch_ranges(ranges);
    }

    /// Traces only watched accesses, or all; clears the trace.
    pub fn set_access_trace_watch_only(&mut self, watch_only: bool)
        ensures
            final(self).trace.events@.len() == 0,
            final(self).trace == (AccessTrace {
                watch_only,
                events: final(self).trace.events,
                watch_access_hit: false,
                watch_data_hit: false,
                watch_write_hit: false,
                ..old(self).trace
            }),
            *final(self) == (Bus { trace: final(self).trace, ..*old(self) }),
    {
        self.trace.set_watch_only(watch_only);
    }

    /// The CPU context stamped on later accesses.
    pub fn set_trace_context(&mut self, pc: u32, cycles: u64)
        ensures
            *final(self) == (Bus {
                trace: AccessTrace { pc: Some(pc), cycles, ..old(self).trace },
                ..*old(self)
            }),
    {
        self.trace.pc = Some(pc);
        self.trace.cycles = cycles;
    }

    /// Forgets the CPU's program counter (the cycle count stays).
    pub fn clear_trace_context(&mut self)
        ensures
            *final(self) == (Bus { trace: AccessTrace { pc: None, ..old(self).trace }, ..*old(self) }),
    {
        self.trace.pc = None;
    }

    /// The traced accesses as comma-separated JSON objects.
    pub fn access_trace_json(&self) -> (r: String)
        ensures
            r@ == self.trace.spec_json(),
    {
        self.trace.json()
    }

    pub fn access_trace_watch_write_hit(&self) -> (r: bool)
        ensures
            r == self.trace.watch_write_hit,
    {
        self.trace.watch_write_hit
    }

    pub fn access_trace_watch_access_hit(&self) -> (r: bool)
        ensures
            r == self.trace.watch_access_hit,
    {
        self.trace.watch_access_hit
    }

    pub fn access_trace_watch_data_hit(&self) -> (r: bool)
        ensures
            r == self.trace.watch_data_hit,
    {
        self.trace.watch_data_hit
    }

    pub fn clear_access_trace_watch_hits(&mut self)
        ensures
            *final(self) == (Bus {
                trace: AccessTrace {
                    watch_access_hit: false,
                    watch_data_hit: false,
                    watch_write_hit: false,
                    ..old(self).trace
                },
                ..*old(self)
            }),
    {
        self.trace.clear_hits();
    }

    pub open spec fn spec_zn_board_json(self) -> Seq<char> {
        "{\"state\":"@
            + (self.zn_board.spec_json())
            + ",\"assets\":"@
            + (self.board_asset_status.spec_json())
            + "}"@
    }

    /// The board's registers and counters, and the assets found, as JSON.
    pub fn zn_board_json(&self) -> (r: String)
        ensures
            r@ == self.spec_zn_board_json(),
    {
        let mut out = String::from_str("{\"state\":");
        let part = self.zn_board.json();
        out.append(part.as_str());
        out.append(",\"assets\":");
        let part = self.board_asset_status.json();
        out.append(part.as_str());
        out.append("}");
        out
    }

    pub open spec fn spec_cache_json(self) -> Seq<char> {
        "{\"control\":"@
            + dec((self.cache.control) as nat)
            + ",\"control_hex\":\"0x"@
            + hex((self.cache.control) as nat, 8)
            + "\",\"isolated\":"@
            + bool_text(self.cache.isolated)
            + ",\"isolation_transitions\":"@
            + dec((self.cache.isolation_transitions) as nat)
            + ",\"isolated_write_count\":"@
            + dec((self.cache.isolated_write_count) as nat)
            + ",\"isolated_write_bytes\":"@
            + dec((self.cache.isolated_write_bytes) as nat)
            + ",\"isolated_last_address\":"@
            + opt_u32_dec(self.cache.isolated_last_address)
            + ",\"isolated_last_address_hex\":"@
            + opt_hex32(self.cache.isolated_last_address)
            + ",\"isolated_last_width\":"@
            + dec((self.cache.isolated_last_width) as nat)
            + ",\"isolated_last_value\":"@
            + dec((self.cache.isolated_last_value) as nat)
            + ",\"isolated_last_value_hex\":\"0x"@
            + hex((self.cache.isolated_last_value) as nat, 8)
            + "\"}"@
    }

    /// The cache control register and swallowed stores as JSON.
    pub fn cache_json(&self) -> (r: String)
        ensures
            r@ == self.spec_cache_json(),
    {
        let mut out = String::from_str("{\"control\":");
        push_dec(&mut out, (self.cache.control) as u64);
        out.append(",\"control_hex\":\"0x");
        push_hex(&mut out, (self.cache.control) as u64, 8);
        out.append("\",\"isolated\":");
        push_bool(&mut out, self.cache.isolated);
        out.append(",\"isolation_transitions\":");
        push_dec(&mut out, (self.cache.isolation_transitions) as u64);
        out.append(",\"isolated_write_count\":");
        push_dec(&mut out, (self.cache.isolated_write_count) as u64);
        out.append(",\"isolated_write_bytes\":");
        push_dec(&mut out, (self.cache.isolated_write_bytes) as u64);
        out.append(",\"isolated_last_address\":");
        push_opt_u32_dec(&mut out, self.cache.isolated_last_address);
        out.append(",\"isolated_last_address_hex\":");
        push_opt_hex32(&mut out, self.cache.isolated_last_address);
        out.append(",\"isolated_last_width\":");
        push_dec(&mut out, (self.cache.isolated_last_width) as u64);
        out.append(",\"isolated_last_value\":");
        push_dec(&mut out, (self.cache.isolated_last_value) as u64);
        out.append(",\"isolated_last_value_hex\":\"0x");
        push_hex(&mut out, (self.cache.isolated_last_value) as u64, 8);
        out.append("\"}");
        out
    }

    pub open spec fn spec_zn_input_reads_json(self) -> Seq<char> {
        "{\"summary\":"@
            + (self.zn_input_read_stats.spec_json())
            + ",\"recent\":["@
            + (spec_events_json(self.recent_zn_input_reads@))
            + "],\"recent_active\":["@
            + (spec_events_json(self.recent_active_zn_input_reads@))
            + "]}"@
    }

    /// Poll counters and the recent polls as JSON.
    pub fn zn_input_reads_json(&self) -> (r: String)
        requires
            self.wf(),
        ensures
            r@ == self.spec_zn_input_reads_json(),
    {
        let mut out = String::from_str("{\"summary\":");
        let part = self.zn_input_read_stats.json();
        out.append(part.as_str());
        out.append(",\"recent\":[");
        let part = zn_input_events_json(&self.recent_zn_input_reads);
        out.append(part.as_str());
        out.append("],\"recent_active\":[");
        let part = zn_input_events_json(&self.recent_active_zn_input_reads);
        out.append(part.as_str());
        out.append("]}");
        out
    }

    pub open spec fn spec_input_probe_json(self) -> Seq<char> {
        "{\"vblank_count\":"@
            + dec((self.vblank_count) as nat)
            + ",\"zn_board\":{\"state\":"@
            + (self.zn_board.spec_runtime_probe_json())
            + ",\"assets\":"@
            + (self.board_asset_status.spec_json())
            + "},\"br2_native_credit_hle\":"@
            + (self.br2_native_credit_hle.spec_json())
            + ",\"zn_input_reads\":"@
            + (self.spec_zn_input_reads_json())
            + ",\"input_activity\":"@
            + (self.zn_board.spec_input_activity().spec_json())
            + ",\"controller\":null}"@
    }

    /// Board, credit and poll diagnostics as JSON (the serial controller is not held here: `null`).
    pub fn input_probe_json(&self) -> (r: String)
        requires
            self.wf(),
        ensures
            r@ == self.spec_input_probe_json(),
    {
        let mut out = String::from_str("{\"vblank_count\":");
        push_dec(&mut out, (self.vblank_count) as u64);
        out.append(",\"zn_board\":{\"state\":");
        let part = self.zn_board.runtime_probe_json();
        out.append(part.as_str());
        out.append(",\"assets\":");
        let part = self.board_asset_status.json();
        out.append(part.as_str());
        out.append("},\"br2_native_credit_hle\":");
        let part = self.br2_native_credit_hle.json();
        out.append(part.as_str());
        out.append(",\"zn_input_reads\":");
        let part = self.zn_input_reads_json();
        out.append(part.as_str());
        out.append(",\"input_activity\":");
        let part = self.input_activity().json();
        out.append(part.as_str());
        out.append(",\"controller\":null}");
        out
    }

    pub open spec fn spec_input_compact_probe_json(self) -> Seq<char> {
        "{\"vblank_count\":"@
            + dec((self.vblank_count) as nat)
            + ",\"zn_board\":{\"state\":"@
            + (self.zn_board.spec_runtime_probe_json())
            + ",\"assets\":"@
            + (self.board_asset_status.spec_json())
            + "},\"br2_native_credit_hle\":"@
            + (self.br2_native_credit_hle.spec_json())
            + ",\"zn_input_read_summary\":"@
            + (self.zn_input_read_stats.spec_json())
            + ",\"recent_active_zn_input_reads\":["@
            + (spec_events_json(self.recent_active_zn_input_reads@.subrange(if self.recent_active_zn_input_reads@.len() > ZN_BOARD_INPUT_COMPACT_ACTIVE_READ_LIMIT { self.recent_active_zn_input_reads@.len() - ZN_BOARD_INPUT_COMPACT_ACTIVE_READ_LIMIT } else { 0 }, self.recent_active_zn_input_reads@.len() as int)))
            + "],\"input_activity\":"@
            + (self.zn_board.spec_input_activity().spec_json())
            + "}"@
    }

    /// Board, credit and poll summaries with the latest polls that saw a button, as JSON.
    pub fn input_compact_probe_json(&self) -> (r: String)
        requires
            self.wf(),
        ensures
            r@ == self.spec_input_compact_probe_json(),
    {
        let mut out = String::from_str("{\"vblank_count\":");
        push_dec(&mut out, (self.vblank_count) as u64);
        out.append(",\"zn_board\":{\"state\":");
        let part = self.zn_board.runtime_probe_json();
        out.append(part.as_str());
        out.append(",\"assets\":");
        let part = self.board_asset_status.json();
        out.append(part.as_str());
        out.append("},\"br2_native_credit_hle\":");
        let part = self.br2_native_credit_hle.json();
        out.append(part.as_str());
        out.append(",\"zn_input_read_summary\":");
        let part = self.zn_input_read_stats.json();
        out.append(part.as_str());
        out.append(",\"recent_active_zn_input_reads\":[");
        let part = zn_input_tail_events_json(&self.recent_active_zn_input_reads, ZN_BOARD_INPUT_COMPACT_ACTIVE_READ_LIMIT);
        out.append(part.as_str());
        out.append("],\"input_activity\":");
        let part = self.input_activity().json();
        out.append(part.as_str());
        out.append("}");
        out
    }

    pub open spec fn spec_input_summary_json(self) -> Seq<char> {
        "{\"vblank_count\":"@
            + dec((self.vblank_count) as nat)
            + ",\"zn_board\":{\"state\":"@
            + (self.zn_board.spec_runtime_probe_json())
            + ",\"assets\":"@
            + (self.board_asset_status.spec_json())
            + "},\"br2_native_credit_hle\":"@
            + (self.br2_native_credit_hle.spec_json())
            + ",\"zn_input_read_summary\":"@
            + (self.zn_input_read_stats.spec_json())
            + ",\"input_activity\":"@
            + (self.zn_board.spec_input_activity().spec_json())
            + ",\"controller\":null}"@
    }

    /// Board, credit and poll summaries as JSON (the serial controller is not held here: `null`).
    pub fn input_summary_json(&self) -> (r: String)
        requires
            self.wf(),
        ensures
            r@ == self.spec_input_summary_json(),
    {
        let mut out = String::from_str("{\"vblank_count\":");
        push_dec(&mut out, (self.vblank_count) as u64);
        out.append(",\"zn_board\":{\"state\":");
        let part = self.zn_board.runtime_probe_json();
        out.append(part.as_str());
        out.append(",\"assets\":");
        let part = self.board_asset_status.json();
        out.append(part.as_str());
        out.append("},\"br2_native_credit_hle\":");
        let part = self.br2_native_credit_hle.json();
        out.append(part.as_str());
        out.append(",\"zn_input_read_summary\":");
        let part = self.zn_input_read_stats.json();
        out.append(part.as_str());
        out.append(",\"input_activity\":");
        let part = self.input_activity().json();
        out.append(part.as_str());
        out.append(",\"controller\":null}");
        out
    }

    pub open spec fn spec_security_probe_json(self) -> Seq<char> {
        "{\"vblank_count\":"@
            + dec((self.vblank_count) as nat)
            + ",\"zn_board\":{\"state\":"@
            + (self.zn_board.spec_runtime_probe_json())
            + ",\"assets\":"@
            + (self.board_asset_status.spec_json())
            + "},\"br2_native_credit_hle\":"@
            + (self.br2_native_credit_hle.spec_json())
            + ",\"zn_input_read_summary\":"@
            + (self.zn_input_read_stats.spec_json())
            + ",\"input_activity\":"@
            + (self.zn_board.spec_input_activity().spec_json())
            + ",\"controller\":null}"@
    }

    /// Board, credit and poll summaries for security diagnostics as JSON (the serial controller is not held here: `null`).
    pub fn security_probe_json(&self) -> (r: String)
        requires
            self.wf(),
        ensures
            r@ == self.spec_security_probe_json(),
    {
        let mut out = String::from_str("{\"vblank_count\":");
        push_dec(&mut out, (self.vblank_count) as u64);
        out.append(",\"zn_board\":{\"state\":");
        let part = self.zn_board.runtime_probe_json();
        out.append(part.as_str());
        out.append(",\"assets\":");
        let part = self.board_asset_status.json();
        out.append(part.as_str());
        out.append("},\"br2_native_credit_hle\":");
        let part = self.br2_native_credit_hle.json();
        out.append(part.as_str());
        out.append(",\"zn_input_read_summary\":");
        let part = self.zn_input_read_stats.json();
        out.append(part.as_str());
        out.append(",\"input_activity\":");
        let part = self.input_activity().json();
        out.append(part.as_str());
        out.append(",\"controller\":null}");
        out
    }

    pub open spec fn spec_native_sync_json(self) -> Seq<char> {
        "{\"br2_draw_sync_flag\":"@
            + dec((spec_unwrap_or_zero(self.spec_ram_word(BR2_DRAW_SYNC_FLAG_PHYSICAL))) as nat)
            + ",\"vblank_count\":"@
            + dec((self.vblank_count) as nat)
            + ",\"vblank_cycle_accumulator\":"@
            + dec((self.vblank_cycle_accumulator) as nat)
            + ",\"vblank_draw_sync_clears\":"@
            + dec((self.draw_sync.vblank_clears) as nat)
            + ",\"game_set_writes\":"@
            + dec((self.draw_sync.game_set_writes) as nat)
            + ",\"game_clear_writes\":"@
            + dec((self.draw_sync.game_clear_writes) as nat)
            + ",\"game_other_writes\":"@
            + dec((self.draw_sync.game_other_writes) as nat)
            + ",\"last_game_write_value\":"@
            + opt_u32_dec(self.draw_sync.last_game_write_value)
            + ",\"last_game_write_pc\":"@
            + opt_hex32(self.draw_sync.last_game_write_pc)
            + ",\"cache\":"@
            + (self.spec_cache_json())
            + ",\"banked_rom_reads\":"@
            + (self.banked_rom_reads.spec_json())
            + ",\"primitive_ram_writes\":"@
            + self.primitive_ram_writes.spec_json()
            + ",\"recent_primitive_header_relations\":["@
            + crate::header_relations::relations_json(
                crate::header_relations::spec_recent_header_relations(self, self.dma_context, 24),
            )
            + "],\"primitive_packet_scan\":"@
            + crate::scan::spec_scan_json(crate::scan::spec_primitive_packet_scan(self, self.dma_context.visited_nodes@))
            + "}"@
    }

    /// Vertical blank, draw sync, cache, banked ROM and primitive RAM
    /// diagnostics as JSON.
    pub fn native_sync_json(&self) -> (r: String)
        requires
            self.wf(),
        ensures
            r@ == self.spec_native_sync_json(),
    {
        let mut out = String::from_str("{\"br2_draw_sync_flag\":");
        push_dec(&mut out, (unwrap_or_zero(self.read_ram_u32_physical(BR2_DRAW_SYNC_FLAG_PHYSICAL))) as u64);
        out.append(",\"vblank_count\":");
        push_dec(&mut out, (self.vblank_count) as u64);
        out.append(",\"vblank_cycle_accumulator\":");
        push_dec(&mut out, (self.vblank_cycle_accumulator) as u64);
        out.append(",\"vblank_draw_sync_clears\":");
        push_dec(&mut out, (self.draw_sync.vblank_clears) as u64);
        out.append(",\"game_set_writes\":");
        push_dec(&mut out, (self.draw_sync.game_set_writes) as u64);
        out.append(",\"game_clear_writes\":");
        push_dec(&mut out, (self.draw_sync.game_clear_writes) as u64);
        out.append(",\"game_other_writes\":");
        push_dec(&mut out, (self.draw_sync.game_other_writes) as u64);
        out.append(",\"last_game_write_value\":");
        push_opt_u32_dec(&mut out, self.draw_sync.last_game_write_value);
        out.append(",\"last_game_write_pc\":");
        push_opt_hex32(&mut out, self.draw_sync.last_game_write_pc);
        out.append(",\"cache\":");
        let part = self.cache_json();
        out.append(part.as_str());
        out.append(",\"banked_rom_reads\":");
        let part = self.banked_rom_reads.json();
        out.append(part.as_str());
        out.append(",\"primitive_ram_writes\":");
        let part = self.primitive_ram_writes.json();
        out.append(part.as_str());
        out.append(",\"recent_primitive_header_relations\":[");
        let relations = crate::header_relations::recent_primitive_header_relations_json(self, 24);
        out.append(relations.as_str());
        out.append("],\"primitive_packet_scan\":");
        let scan = crate::scan::primitive_packet_scan_json(self, &self.dma_context.visited_nodes);
        out.append(scan.as_str());
        out.append("}");
        out
    }

    pub open spec fn spec_native_sync_compact_json(self) -> Seq<char> {
        "{\"br2_draw_sync_flag\":"@
            + dec((spec_unwrap_or_zero(self.spec_ram_word(BR2_DRAW_SYNC_FLAG_PHYSICAL))) as nat)
            + ",\"vblank_count\":"@
            + dec((self.vblank_count) as nat)
            + ",\"vblank_cycle_accumulator\":"@
            + dec((self.vblank_cycle_accumulator) as nat)
            + ",\"vblank_draw_sync_clears\":"@
            + dec((self.draw_sync.vblank_clears) as nat)
            + ",\"game_set_writes\":"@
            + dec((self.draw_sync.game_set_writes) as nat)
            + ",\"game_clear_writes\":"@
            + dec((self.draw_sync.game_clear_writes) as nat)
            + ",\"game_other_writes\":"@
            + dec((self.draw_sync.game_other_writes) as nat)
            + ",\"last_game_write_value\":"@
            + opt_u32_dec(self.draw_sync.last_game_write_value)
            + ",\"last_game_write_pc\":"@
            + opt_hex32(self.draw_sync.last_game_write_pc)
            + ",\"cache_isolated\":"@
            + bool_text(self.cache.isolated)
            + ",\"cache_isolation_transitions\":"@
            + dec((self.cache.isolation_transitions) as nat)
            + ",\"banked_rom_reads\":"@
            + (self.banked_rom_reads.spec_json())
            + ",\"primitive_ram_writes\":{\"writes\":"@
            + dec(self.primitive_ram_writes.writes as nat)
            + ",\"command_like_writes\":"@
            + dec(self.primitive_ram_writes.command_like_writes as nat)
            + ",\"header_like_writes\":"@
            + dec(self.primitive_ram_writes.header_like_writes as nat)
            + ",\"current_vblank_header_like_writes\":"@
            + dec(self.primitive_ram_writes.current_vblank_header_like_writes as nat)
            + ",\"last_vblank_header_like_writes\":"@
            + dec(self.primitive_ram_writes.last_vblank_header_like_writes as nat)
            + "},\"recent_primitive_header_relations\":["@
            + crate::header_relations::relations_json(
                crate::header_relations::spec_recent_header_relations(self, self.dma_context, 8),
            )
            + "]}"@
    }

    /// Vertical blank, draw sync, cache, banked ROM and primitive RAM store
    /// summaries as JSON.
    pub fn native_sync_compact_json(&self) -> (r: String)
        requires
            self.wf(),
        ensures
            r@ == self.spec_native_sync_compact_json(),
    {
        let mut out = String::from_str("{\"br2_draw_sync_flag\":");
        push_dec(&mut out, (unwrap_or_zero(self.read_ram_u32_physical(BR2_DRAW_SYNC_FLAG_PHYSICAL))) as u64);
        out.append(",\"vblank_count\":");
        push_dec(&mut out, (self.vblank_count) as u64);
        out.append(",\"vblank_cycle_accumulator\":");
        push_dec(&mut out, (self.vblank_cycle_accumulator) as u64);
        out.append(",\"vblank_draw_sync_clears\":");
        push_dec(&mut out, (self.draw_sync.vblank_clears) as u64);
        out.append(",\"game_set_writes\":");
        push_dec(&mut out, (self.draw_sync.game_set_writes) as u64);
        out.append(",\"game_clear_writes\":");
        push_dec(&mut out, (self.draw_sync.game_clear_writes) as u64);
        out.append(",\"game_other_writes\":");
        push_dec(&mut out, (self.draw_sync.game_other_writes) as u64);
        out.append(",\"last_game_write_value\":");
        push_opt_u32_dec(&mut out, self.draw_sync.last_game_write_value);
        out.append(",\"last_game_write_pc\":");
        push_opt_hex32(&mut out, self.draw_sync.last_game_write_pc);
        out.append(",\"cache_isolated\":");
        push_bool(&mut out, self.cache.isolated);
        out.append(",\"cache_isolation_transitions\":");
        push_dec(&mut out, (self.cache.isolation_transitions) as u64);
        out.append(",\"banked_rom_reads\":");
        let part = self.banked_rom_reads.json();
        out.append(part.as_str());
        out.append(",\"primitive_ram_writes\":{\"writes\":");
        push_dec(&mut out, self.primitive_ram_writes.writes);
        out.append(",\"command_like_writes\":");
        push_dec(&mut out, self.primitive_ram_writes.command_like_writes);
        out.append(",\"header_like_writes\":");
        push_dec(&mut out, self.primitive_ram_writes.header_like_writes);
        out.append(",\"current_vblank_header_like_writes\":");
        push_dec(&mut out, self.primitive_ram_writes.current_vblank_header_like_writes);
        out.append(",\"last_vblank_header_like_writes\":");
        push_dec(&mut out, self.primitive_ram_writes.last_vblank_header_like_writes);
        out.append("},\"recent_primitive_header_relations\":[");
        let relations = crate::header_relations::recent_primitive_header_relations_json(self, 8);
        out.append(relations.as_str());
        out.append("]}");
        out
    }

    pub open spec fn spec_runtime_probe_json(self) -> Seq<char> {
        "{\"io\":null,\"zn_board\":{\"state\":"@
            + (self.zn_board.spec_runtime_probe_json())
            + ",\"assets\":"@
            + (self.board_asset_status.spec_json())
            + "},\"br2_native_credit_hle\":"@
            + (self.br2_native_credit_hle.spec_json())
            + ",\"zn_input_reads\":"@
            + (self.spec_zn_input_reads_json())
            + ",\"native_sync\":"@
            + (self.spec_native_sync_json())
            + "}"@
    }

    /// Board, credit, poll and sync diagnostics as JSON (the I/O devices are not held here: `null`).
    pub fn runtime_probe_json(&self) -> (r: String)
        requires
            self.wf(),
        ensures
            r@ == self.spec_runtime_probe_json(),
    {
        let mut out = String::from_str("{\"io\":null,\"zn_board\":{\"state\":");
        let part = self.zn_board.runtime_probe_json();
        out.append(part.as_str());
        out.append(",\"assets\":");
        let part = self.board_asset_status.json();
        out.append(part.as_str());
        out.append("},\"br2_native_credit_hle\":");
        let part = self.br2_native_credit_hle.json();
        out.append(part.as_str());
        out.append(",\"zn_input_reads\":");
        let part = self.zn_input_reads_json();
        out.append(part.as_str());
        out.append(",\"native_sync\":");
        let part = self.native_sync_json();
        out.append(part.as_str());
        out.append("}");
        out
    }

    pub open spec fn spec_runtime_compact_probe_json(self) -> Seq<char> {
        "{\"io\":null,\"zn_board\":{\"state\":"@
            + (self.zn_board.spec_runtime_probe_json())
            + ",\"assets\":"@
            + (self.board_asset_status.spec_json())
            + "},\"br2_native_credit_hle\":"@
            + (self.br2_native_credit_hle.spec_json())
            + ",\"zn_input_reads\":"@
            + (self.spec_zn_input_reads_json())
            + ",\"native_sync\":"@
            + (self.spec_native_sync_compact_json())
            + "}"@
    }

    /// Board, credit, poll and sync summaries as JSON (the I/O devices are not held here: `null`).
    pub fn runtime_compact_probe_json(&self) -> (r: String)
        requires
            self.wf(),
        ensures
            r@ == self.spec_runtime_compact_probe_json(),
    {
        let mut out = String::from_str("{\"io\":null,\"zn_board\":{\"state\":");
        let part = self.zn_board.runtime_probe_json();
        out.append(part.as_str());
        out.append(",\"assets\":");
        let part = self.board_asset_status.json();
        out.append(part.as_str());
        out.append("},\"br2_native_credit_hle\":");
        let part = self.br2_native_credit_hle.json();
        out.append(part.as_str());
        out.append(",\"zn_input_reads\":");
        let part = self.zn_input_reads_json();
        out.append(part.as_str());
        out.append(",\"native_sync\":");
        let part = self.native_sync_compact_json();
        out.append(part.as_str());
        out.append("}");
        out
    }

    /// The bytes a block read of `len` bytes at `address` returns: memory
    /// as a read would see it; nothing (zeros) outside memory.
    pub open spec fn spec_read_bytes(self, address: u32, len: usize) -> Seq<u8> {
        if spec_ram_offset(address, self.ram@.len() as usize, len) is Some {
            let off = spec_ram_offset(address, self.ram@.len() as usize, len).unwrap() as int;
            match self.snapshots.spec_runtime_bytes(address, len, self.trace.pc) {
                Some(b) => b,
                None => match self.snapshots.spec_patch_bytes(address, len) {
                    Some(b) => b,
                    None => self.ram@.subrange(off, off + len),
                },
            }
        } else if spec_scratchpad_offset(address, self.scratchpad@.len() as usize, len) is Some {
            let off = spec_scratchpad_offset(address, self.scratchpad@.len() as usize, len).unwrap() as int;
            self.scratchpad@.subrange(off, off + len)
        } else if spec_rom_offset(address, self.rom@.len() as usize, len) is Some {
            let off = spec_rom_offset(address, self.rom@.len() as usize, len).unwrap() as int;
            self.rom@.subrange(off, off + len)
        } else if spec_banked_rom_offset(
            address,
            self.banked_roms@.len() as usize,
            len,
            self.zn_board.rom_bank,
        ) is Some {
            let off = spec_banked_rom_offset(
                address,
                self.banked_roms@.len() as usize,
                len,
                self.zn_board.rom_bank,
            ).unwrap() as int;
            self.banked_roms@.subrange(off, off + len)
        } else {
            Seq::new(len as nat, |i: int| 0u8)
        }
    }

    /// `result` is this bus after a block read of `len` bytes at `address`.
    pub open spec fn spec_read_bytes_effect(self, address: u32, len: usize, result: Bus) -> bool {
        let bytes = self.spec_read_bytes(address, len);
        let value = spec_le_u32(bytes);
        &&& result.spec_same_memory(self)
        &&& result.zn_board == self.zn_board
        &&& result.spec_same_polls(self)
        &&& if spec_ram_offset(address, self.ram@.len() as usize, len) is Some {
            &&& result.spec_same_banked_reads(self)
            &&& self.trace.spec_watch_effect(false, "ram", address, len, value, result.trace)
        } else if spec_scratchpad_offset(address, self.scratchpad@.len() as usize, len) is Some {
            &&& result.spec_same_banked_reads(self)
            &&& self.trace.spec_watch_effect(false, "scratchpad", address, len, value, result.trace)
        } else if spec_rom_offset(address, self.rom@.len() as usize, len) is Some {
            &&& result.spec_same_banked_reads(self)
            &&& result.trace == self.trace
        } else if spec_banked_rom_offset(
            address,
            self.banked_roms@.len() as usize,
            len,
            self.zn_board.rom_bank,
        ) is Some {
            &&& result.banked_rom_reads.spec_recorded(
                self.banked_rom_reads,
                self.zn_board.rom_bank,
                address,
                spec_banked_rom_offset(
                    address,
                    self.banked_roms@.len() as usize,
                    len,
                    self.zn_board.rom_bank,
                ).unwrap(),
                len,
                value,
            )
            &&& self.trace.spec_watch_effect(false, "banked_rom", address, len, value, result.trace)
        } else {
            &&& result.spec_same_banked_reads(self)
            &&& self.trace.spec_access_effect(
                false,
                "unmapped",
                address,
                #[verifier::truncate] (len as u8),
                0,
                result.trace,
            )
        }
    }

    /// Reads a block of `len` bytes of memory at `address`.
    pub fn read_bytes(&mut self, address: u32, len: usize) -> (r: Vec<u8>)
        requires
            old(self).wf(),
        ensures
            final(self).wf(),
            r@ == old(self).spec_read_bytes(address, len),
            old(self).spec_read_bytes_effect(address, len, *final(self)),
    {
        if let Some(offset) = ram_offset(address, self.ram.len(), len) {
            let bytes = match self.snapshots.runtime_read(address, len, self.trace.pc) {
                Some(bytes) => bytes,
                None => match self.snapshots.patch_read(address, len) {
                    Some(bytes) => bytes,
                    None => copy_bytes(&self.ram, offset, len),
                },
            };
            let value = bytes_to_le_u32(bytes.as_slice());
            self.trace.record_watch(false, "ram", address, len, value);
            return bytes;
        }
        if let Some(offset) = scratchpad_offset(address, self.scratchpad.len(), len) {
            let bytes = copy_bytes(&self.scratchpad, offset, len);
            let value = bytes_to_le_u32(bytes.as_slice());
            self.trace.record_watch(false, "scratchpad", address, len, value);
            return bytes;
        }
        if let Some(offset) = rom_offset(address, self.rom.len(), len) {
            return copy_bytes(&self.rom, offset, len);
        }
        let bank = self.zn_board.rom_bank;
        if let Some(offset) = banked_rom_offset(address, self.banked_roms.len(), len, bank) {
            let bytes = copy_bytes(&self.banked_roms, offset, len);
            let value = bytes_to_le_u32(bytes.as_slice());
            self.banked_rom_reads.record(bank, address, offset, len, value);
            self.trace.record_watch(false, "banked_rom", address, len, value);
            return bytes;
        }
        self.trace.record_access(false, "unmapped", address, #[verifier::truncate] (len as u8), 0);
        let zeros = vec![0u8; len];
        proof {
            assert(zeros@ =~= Seq::new(len as nat, |i: int| 0u8));
        }
        zeros
    }

    /// Whether a block of `len` bytes at `address` lies in readable memory.
    pub open spec fn spec_readable(self, address: u32, len: usize) -> bool {
        ||| spec_ram_offset(address, self.ram@.len() as usize, len) is Some
        ||| spec_scratchpad_offset(address, self.scratchpad@.len() as usize, len) is Some
        ||| spec_rom_offset(address, self.rom@.len() as usize, len) is Some
        ||| spec_banked_rom_offset(address, self.banked_roms@.len() as usize, len, self.zn_board.rom_bank) is Some
    }

    /// Whether a block of `len` bytes at `address` lies in writable memory.
    pub open spec fn spec_writable(self, address: u32, len: usize) -> bool {
        ||| spec_ram_offset(address, self.ram@.len() as usize, len) is Some
        ||| spec_scratchpad_offset(address, self.scratchpad@.len() as usize, len) is Some
    }

    fn word_copy_readable_range(&self, address: u32, byte_len: usize) -> (r: bool)
        ensures
            r == self.spec_readable(address, byte_len),
    {
        ram_offset(address, self.ram.len(), byte_len).is_some() || scratchpad_offset(
            address,
            self.scratchpad.len(),
            byte_len,
        ).is_some() || rom_offset(address, self.rom.len(), byte_len).is_some()
            || banked_rom_offset(address, self.banked_roms.len(), byte_len, self.zn_board.rom_bank).is_some()
    }

    fn word_copy_writable_range(&self, address: u32, byte_len: usize) -> (r: bool)
        ensures
            r == self.spec_writable(address, byte_len),
    {
        ram_offset(address, self.ram.len(), byte_len).is_some() || scratchpad_offset(
            address,
            self.scratchpad.len(),
            byte_len,
        ).is_some()
    }

    /// Step `i` of a copy of items of `width` bytes: `states[2i]` reads the
    /// item, then `states[2i + 1]` stores the value read.
    pub open spec fn spec_copy_step(
        states: Seq<Bus>,
        source: u32,
        destination: u32,
        width: usize,
        i: int,
    ) -> bool {
        let from = spec_wrapping_add(source, width * i);
        let to = spec_wrapping_add(destination, width * i);
        &&& states[2 * i].spec_read_effect(from, width, states[2 * i + 1])
        &&& states[2 * i + 1].spec_write_effect(
            to,
            states[2 * i].spec_read_value(from, width),
            width,
            states[2 * i + 2],
        )
    }

    /// `states` copies `count` items of `width` bytes from `source` to
    /// `destination` in ascending order.
    pub open spec fn spec_copy_runs(
        states: Seq<Bus>,
        source: u32,
        destination: u32,
        count: nat,
        width: usize,
    ) -> bool {
        &&& states.len() == 2 * count + 1
        &&& forall|i: int|
            0 <= i < count ==> #[trigger] Self::spec_copy_step(states, source, destination, width, i)
    }

    /// Copies `byte_count` bytes of word-aligned memory from `source` to
    /// `destination`, a word at a time in ascending order; the words read and
    /// the last one, or `None` (and nothing done) when the count or the
    /// addresses are not word-aligned or a range is not memory.
    pub fn try_copy_aligned_words(&mut self, source: u32, destination: u32, byte_count: u32) -> (r:
        Option<(u32, u32)>)
        requires
            old(self).wf(),
        ensures
            final(self).wf(),
            ({
                let ok = byte_count != 0 && byte_count % 4 == 0 && source % 4 == 0 && destination
                    % 4 == 0 && old(self).spec_readable(source, byte_count as usize)
                    && old(self).spec_writable(destination, byte_count as usize);
                if ok {
                    let words = byte_count / 4;
                    exists|states: Seq<Bus>|
                        Self::spec_copy_runs(states, source, destination, words as nat, 4)
                            && states[0] == *old(self) && states.last() == *final(self) && r == Some(
                            (
                                words,
                                states[2 * (words - 1)].spec_read_value(
                                    spec_wrapping_add(source, 4 * (words - 1)),
                                    4,
                                ),
                            ),
                        )
                } else {
                    r is None && *final(self) == *old(self)
                }
            }),
    {
        proof {
            lemma_mod4_mask(byte_count);
            lemma_mod4_mask(source);
            lemma_mod4_mask(destination);
        }
        if byte_count == 0 || byte_count & 0x03 != 0 || source & 0x03 != 0 || destination & 0x03 != 0 {
            return None;
        }
        let byte_len = byte_count as usize;
        if !self.word_copy_readable_range(source, byte_len) || !self.word_copy_writable_range(
            destination,
            byte_len,
        ) {
            return None;
        }
        let words = byte_count / 4;
        let mut last_word: u32 = 0;
        let ghost mut states: Seq<Bus> = seq![*self];
        let mut index: u32 = 0;
        while index < words
            invariant
                self.wf(),
                index <= words,
                words == byte_count / 4,
                byte_count <= u32::MAX,
                Self::spec_copy_runs(states, source, destination, index as nat, 4),
                states[0] == *old(self),
                states.last() == *self,
                index > 0 ==> last_word == states[2 * (index - 1)].spec_read_value(
                    spec_wrapping_add(source, 4 * (index - 1)),
                    4,
                ),
            decreases words - index,
        {
            let offset = index * 4;
            let ghost before = *self;
            let from = source.wrapping_add(offset);
            let value = self.read_u32(from);
            let ghost middle = *self;
            let to = destination.wrapping_add(offset);
            self.write_u32(to, value);
            last_word = value;
            proof {
                let next = states.push(middle).push(*self);
                assert forall|i: int| 0 <= i < index + 1 implies #[trigger] Self::spec_copy_step(
                    next,
                    source,
                    destination,
                    4,
                    i,
                ) by {
                    if i < index {
                        assert(Self::spec_copy_step(states, source, destination, 4, i));
                        assert(next[2 * i] == states[2 * i]);
                        assert(next[2 * i + 1] == states[2 * i + 1]);
                        assert(next[2 * i + 2] == states[2 * i + 2]);
                    } else {
                        lemma_wrapping_add(source, offset);
                        lemma_wrapping_add(destination, offset);
                        assert(next[2 * i] == before);
                        assert(next[2 * i + 1] == middle);
                        assert(next[2 * i + 2] == *self);
                    }
                }
                states = next;
            }
            index = index + 1;
        }
        Some((words, last_word))
    }

    /// Copies `byte_count` bytes from `source` to `destination` a byte at a
    /// time in ascending order (so an overlapping copy repeats bytes) and
    /// returns the bytes read; `None` (and nothing done) for an empty copy, a
    /// destination the isolated cache would swallow, or a range that is not
    /// memory.
    pub fn try_copy_bytes(&mut self, source: u32, destination: u32, byte_count: u32) -> (r: Option<
        Vec<u8>,
    >)
        requires
            old(self).wf(),
        ensures
            final(self).wf(),
            ({
                let ok = byte_count != 0 && !(old(self).cache.isolated && spec_cacheable_address(
                    destination,
                ) && !old(self).options.cache_isolated_write_suppression_disabled) && old(
                    self,
                ).spec_readable(source, byte_count as usize) && old(self).spec_writable(
                    destination,
                    byte_count as usize,
                );
                if ok {
                    exists|states: Seq<Bus>|
                        {
                            &&& Self::spec_copy_runs(states, source, destination, byte_count as nat, 1)
                            &&& states[0] == *old(self)
                            &&& states.last() == *final(self)
                            &&& r is Some
                            &&& r.unwrap()@.len() == byte_count
                            &&& forall|i: int|
                                0 <= i < byte_count ==> #[trigger] r.unwrap()@[i]
                                    == states[2 * i].spec_read_value(spec_wrapping_add(source, i), 1) as u8
                        }
                } else {
                    r is None && *final(self) == *old(self)
                }
            }),
    {
        if byte_count == 0 || self.cache.isolated && cacheable_address(destination)
            && !self.options.cache_isolated_write_suppression_disabled {
            return None;
        }
        let byte_len = byte_count as usize;
        if !self.word_copy_readable_range(source, byte_len) || !self.word_copy_writable_range(
            destination,
            byte_len,
        ) {
            return None;
        }
        let mut bytes: Vec<u8> = Vec::new();
        let ghost mut states: Seq<Bus> = seq![*self];
        let mut offset: u32 = 0;
        while offset < byte_count
            invariant
                self.wf(),
                offset <= byte_count,
                Self::spec_copy_runs(states, source, destination, offset as nat, 1),
                states[0] == *old(self),
                states.last() == *self,
                bytes@.len() == offset,
                forall|i: int|
                    0 <= i < offset ==> #[trigger] bytes@[i] == states[2 * i].spec_read_value(
                        spec_wrapping_add(source, i),
                        1,
                    ) as u8,
            decreases byte_count - offset,
        {
            let ghost before = *self;
            proof {
                self.lemma_read_value_fits(source.wrapping_add(offset), 1);
            }
            let byte = self.read_u8(source.wrapping_add(offset));
            let ghost middle = *self;
            self.write_u8(destination.wrapping_add(offset), byte);
            bytes.push(byte);
            proof {
                let next = states.push(middle).push(*self);
                lemma_wrapping_add(source, offset);
                lemma_wrapping_add(destination, offset);
                assert forall|i: int| 0 <= i < offset + 1 implies #[trigger] Self::spec_copy_step(
                    next,
                    source,
                    destination,
                    1,
                    i,
                ) by {
                    if i < offset {
                        assert(Self::spec_copy_step(states, source, destination, 1, i));
                        assert(next[2 * i] == states[2 * i]);
                        assert(next[2 * i + 1] == states[2 * i + 1]);
                        assert(next[2 * i + 2] == states[2 * i + 2]);
                    } else {
                        assert(next[2 * i] == before);
                        assert(next[2 * i + 1] == middle);
                        assert(next[2 * i + 2] == *self);
                    }
                }
                assert forall|i: int| 0 <= i < offset + 1 implies #[trigger] bytes@[i]
                    == next[2 * i].spec_read_value(spec_wrapping_add(source, i), 1) as u8 by {
                    if i < offset {
                        assert(next[2 * i] == states[2 * i]);
                    } else {
                        assert(next[2 * i] == before);
                    }
                }
                states = next;
            }
            offset = offset + 1;
        }
        Some(bytes)
    }

    /// Copies `halfword_count` halfwords from `source` to `destination` in
    /// ascending order and returns the last one; `None` (and nothing done)
    /// for an empty copy, a destination the isolated cache would swallow, or
    /// a range that is not memory.
    pub fn try_copy_halfwords(&mut self, source: u32, destination: u32, halfword_count: u32) -> (r:
        Option<u16>)
        requires
            old(self).wf(),
        ensures
            final(self).wf(),
            ({
                let byte_len = 2 * halfword_count;
                let ok = halfword_count != 0 && !(old(self).cache.isolated && spec_cacheable_address(
                    destination,
                ) && !old(self).options.cache_isolated_write_suppression_disabled) && byte_len
                    <= usize::MAX && old(self).spec_readable(source, byte_len as usize) && old(
                    self,
                ).spec_writable(destination, byte_len as usize);
                if ok {
                    exists|states: Seq<Bus>|
                        Self::spec_copy_runs(states, source, destination, halfword_count as nat, 2)
                            && states[0] == *old(self) && states.last() == *final(self) && r == Some(
                            states[2 * (halfword_count - 1)].spec_read_value(
                                spec_wrapping_add(source, 2 * (halfword_count - 1)),
                                2,
                            ) as u16,
                        )
                } else {
                    r is None && *final(self) == *old(self)
                }
            }),
    {
        if halfword_count == 0 || self.cache.isolated && cacheable_address(destination)
            && !self.options.cache_isolated_write_suppression_disabled {
            return None;
        }
        let byte_len = match (halfword_count as usize).checked_mul(2) {
            Some(len) => len,
            None => return None,
        };
        if !self.word_copy_readable_range(source, byte_len) || !self.word_copy_writable_range(
            destination,
            byte_len,
        ) {
            return None;
        }
        let mut last: u16 = 0;
        let ghost mut states: Seq<Bus> = seq![*self];
        let mut index: u32 = 0;
        while index < halfword_count
            invariant
                self.wf(),
                index <= halfword_count,
                Self::spec_copy_runs(states, source, destination, index as nat, 2),
                states[0] == *old(self),
                states.last() == *self,
                index > 0 ==> last == states[2 * (index - 1)].spec_read_value(
                    spec_wrapping_add(source, 2 * (index - 1)),
                    2,
                ) as u16,
            decreases halfword_count - index,
        {
            let offset = index.wrapping_mul(2);
            proof {
                assert(offset == ((2 * index) % 0x1_0000_0000) as u32);
            }
            let ghost before = *self;
            proof {
                self.lemma_read_value_fits(source.wrapping_add(offset), 2);
            }
            let value = self.read_u16(source.wrapping_add(offset));
            let ghost middle = *self;
            self.write_u16(destination.wrapping_add(offset), value);
            last = value;
            proof {
                let next = states.push(middle).push(*self);
                lemma_wrapping_add(source, offset);
                lemma_wrapping_add(destination, offset);
                lemma_wrapping_add_mod(source, 2 * index);
                lemma_wrapping_add_mod(destination, 2 * index);
                assert forall|i: int| 0 <= i < index + 1 implies #[trigger] Self::spec_copy_step(
                    next,
                    source,
                    destination,
                    2,
                    i,
                ) by {
                    if i < index {
                        assert(Self::spec_copy_step(states, source, destination, 2, i));
                        assert(next[2 * i] == states[2 * i]);
                        assert(next[2 * i + 1] == states[2 * i + 1]);
                        assert(next[2 * i + 2] == states[2 * i + 2]);
                    } else {
                        assert(next[2 * i] == before);
                        assert(next[2 * i + 1] == middle);
                        assert(next[2 * i + 2] == *self);
                    }
                }
                states = next;
            }
            index = index + 1;
        }
        Some(last)
    }

    /// Step `i` of a fill: `states[i]` stores `value` at the `i`-th word.
    pub open spec fn spec_fill_step(states: Seq<Bus>, destination: u32, value: u32, i: int) -> bool {
        states[i].spec_write_effect(spec_wrapping_add(destination, 4 * i), value, 4, states[i + 1])
    }

    /// Fills `byte_count` bytes of word-aligned memory at `destination` with
    /// `value`, a word at a time in ascending order, and returns the number
    /// of words; `None` (and nothing done) when the count or the address is
    /// not word-aligned or the range is not writable memory.
    pub fn try_fill_aligned_words(&mut self, destination: u32, byte_count: u32, value: u32) -> (r:
        Option<u32>)
        requires
            old(self).wf(),
        ensures
            final(self).wf(),
            ({
                let ok = byte_count != 0 && byte_count % 4 == 0 && destination % 4 == 0 && old(
                    self,
                ).spec_writable(destination, byte_count as usize);
                if ok {
                    let words = byte_count / 4;
                    &&& r == Some(words)
                    &&& exists|states: Seq<Bus>|
                        states.len() == words + 1 && states[0] == *old(self) && states.last()
                            == *final(self) && forall|i: int|
                            0 <= i < words ==> #[trigger] Self::spec_fill_step(states, destination, value, i)
                } else {
                    r is None && *final(self) == *old(self)
                }
            }),
    {
        proof {
            lemma_mod4_mask(byte_count);
            lemma_mod4_mask(destination);
        }
        if byte_count == 0 || byte_count & 0x03 != 0 || destination & 0x03 != 0 {
            return None;
        }
        let byte_len = byte_count as usize;
        if !self.word_copy_writable_range(destination, byte_len) {
            return None;
        }
        let words = byte_count / 4;
        let ghost mut states: Seq<Bus> = seq![*self];
        let mut index: u32 = 0;
        while index < words
            invariant
                self.wf(),
                index <= words,
                words == byte_count / 4,
                states.len() == index + 1,
                states[0] == *old(self),
                states.last() == *self,
                forall|i: int| 0 <= i < index ==> #[trigger] Self::spec_fill_step(states, destination, value, i),
            decreases words - index,
        {
            let ghost before = *self;
            let offset = index * 4;
            self.write_u32(destination.wrapping_add(offset), value);
            proof {
                let next = states.push(*self);
                lemma_wrapping_add(destination, offset);
                assert forall|i: int| 0 <= i < index + 1 implies #[trigger] Self::spec_fill_step(
                    next,
                    destination,
                    value,
                    i,
                ) by {
                    if i < index {
                        assert(Self::spec_fill_step(states, destination, value, i));
                        assert(next[i] == states[i]);
                        assert(next[i + 1] == states[i + 1]);
                    } else {
                        assert(next[i] == before);
                        assert(next[i + 1] == *self);
                    }
                }
                states = next;
            }
            index = index + 1;
        }
        Some(words)
    }

    /// A read returns no more bytes than were asked for.
    pub proof fn lemma_read_value_fits(self, address: u32, len: usize)
        requires
            self.wf(),
            len == 1 || len == 2 || len == 4,
        ensures
            len == 1 ==> self.spec_read_value(address, len) <= 0xff,
            len == 2 ==> self.spec_read_value(address, len) <= 0xffff,
    {
        let c = self.cache.control;
        assert(c & 0xffu32 <= 0xff) by (bit_vector);
        assert(c & 0xffffu32 <= 0xffff) by (bit_vector);
        self.zn_board.lemma_read_fits(address, len);
        match self.spec_region(address, len) {
            BusRegion::Io => {
                let off = Self::spec_io_offset(address);
                lemma_le_fits(self.io_registers@.subrange(off, off + len));
            },
            BusRegion::Ram => {
                let off = spec_ram_offset(address, self.ram@.len() as usize, len).unwrap() as int;
                lemma_le_fits(self.ram@.subrange(off, off + len));
                let start = spec_physical(address) as int;
                let roff = start - BR2_RUNTIME_CODE_SNAPSHOT_START;
                let poff = start - BR2_CODE_PATCH_SNAPSHOT_START;
                lemma_le_fits(self.snapshots.runtime@.subrange(roff, roff + len));
                lemma_le_fits(self.snapshots.patch@.subrange(poff, poff + len));
            },
            BusRegion::Scratchpad => {
                let off = spec_scratchpad_offset(address, self.scratchpad@.len() as usize, len).unwrap() as int;
                lemma_le_fits(self.scratchpad@.subrange(off, off + len));
            },
            BusRegion::Rom => {
                let off = spec_rom_offset(address, self.rom@.len() as usize, len).unwrap() as int;
                lemma_le_fits(self.rom@.subrange(off, off + len));
            },
            BusRegion::BankedRom => {
                let off = spec_banked_rom_offset(
                    address,
                    self.banked_roms@.len() as usize,
                    len,
                    self.zn_board.rom_bank,
                ).unwrap() as int;
                lemma_le_fits(self.banked_roms@.subrange(off, off + len));
            },
            _ => {},
        }
    }

    /// The word at `address` in memory without snapshots or fallback, when
    /// it lies in scratchpad or ROM.
    pub open spec fn spec_plain_word(self, address: u32) -> Option<u32> {
        if spec_scratchpad_offset(address, self.scratchpad@.len() as usize, 4) is Some {
            let off = spec_scratchpad_offset(address, self.scratchpad@.len() as usize, 4).unwrap() as int;
            Some(spec_le_u32(self.scratchpad@.subrange(off, off + 4)))
        } else if spec_rom_offset(address, self.rom@.len() as usize, 4) is Some {
            let off = spec_rom_offset(address, self.rom@.len() as usize, 4).unwrap() as int;
            Some(spec_le_u32(self.rom@.subrange(off, off + 4)))
        } else if spec_banked_rom_offset(address, self.banked_roms@.len() as usize, 4, self.zn_board.rom_bank) is Some {
            let off = spec_banked_rom_offset(
                address,
                self.banked_roms@.len() as usize,
                4,
                self.zn_board.rom_bank,
            ).unwrap() as int;
            Some(spec_le_u32(self.banked_roms@.subrange(off, off + 4)))
        } else {
            None
        }
    }

    /// The word a fetch without tracing sees in RAM: the runtime code copy
    /// at the address being executed, the frozen patch copy, else RAM.
    pub open spec fn spec_fast_value(self, address: u32) -> Option<u32> {
        if spec_ram_offset(address, self.ram@.len() as usize, 4) is Some {
            let off = spec_ram_offset(address, self.ram@.len() as usize, 4).unwrap() as int;
            Some(
                match self.snapshots.spec_fetch_value(address, 4, self.trace.pc) {
                    Some(v) => v,
                    None => match self.snapshots.spec_patch_value(address, 4) {
                        Some(v) => v,
                        None => spec_le_u32(self.ram@.subrange(off, off + 4)),
                    },
                },
            )
        } else {
            self.spec_plain_word(address)
        }
    }

    fn read_plain_word(&self, address: u32) -> (r: Option<u32>)
        ensures
            r == self.spec_plain_word(address),
    {
        if let Some(offset) = scratchpad_offset(address, self.scratchpad.len(), 4) {
            return Some(le_u32_at(&self.scratchpad, offset, 4));
        }
        if let Some(offset) = rom_offset(address, self.rom.len(), 4) {
            return Some(le_u32_at(&self.rom, offset, 4));
        }
        if let Some(offset) = banked_rom_offset(address, self.banked_roms.len(), 4, self.zn_board.rom_bank) {
            return Some(le_u32_at(&self.banked_roms, offset, 4));
        }
        None
    }

    /// A word fetch that leaves no trace when it hits memory; other
    /// addresses are read as `read_u32` reads them.
    pub fn read_u32_fast_no_trace(&mut self, address: u32) -> (r: u32)
        requires
            old(self).wf(),
        ensures
            final(self).wf(),
            match old(self).spec_fast_value(address) {
                Some(v) => r == v && *final(self) == *old(self),
                None => r == old(self).spec_read_value(address, 4) && old(self).spec_read_effect(
                    address,
                    4,
                    *final(self),
                ),
            },
    {
        if let Some(offset) = ram_offset(address, self.ram.len(), 4) {
            if let Some(value) = self.snapshots.runtime_read_value(address, 4, self.trace.pc) {
                return value;
            }
            if let Some(value) = self.snapshots.patch_read_value(address, 4) {
                return value;
            }
            return le_u32_at(&self.ram, offset, 4);
        }
        match self.read_plain_word(address) {
            Some(value) => value,
            None => self.read_u32(address),
        }
    }

    /// The word an instruction fetch sees in RAM: the runtime code copy
    /// wherever it was recorded, the frozen patch copy, else RAM.
    pub open spec fn spec_executable_value(self, address: u32) -> Option<u32> {
        if spec_ram_offset(address, self.ram@.len() as usize, 4) is Some {
            let off = spec_ram_offset(address, self.ram@.len() as usize, 4).unwrap() as int;
            Some(
                match self.snapshots.spec_runtime_value(address, 4) {
                    Some(v) => v,
                    None => match self.snapshots.spec_patch_value(address, 4) {
                        Some(v) => v,
                        None => spec_le_u32(self.ram@.subrange(off, off + 4)),
                    },
                },
            )
        } else {
            self.spec_plain_word(address)
        }
    }

    /// An instruction fetch that leaves no trace when it hits memory; other
    /// addresses are read as `read_u32` reads them.
    pub fn read_u32_executable_no_trace(&mut self, address: u32) -> (r: u32)
        requires
            old(self).wf(),
        ensures
            final(self).wf(),
            match old(self).spec_executable_value(address) {
                Some(v) => r == v && *final(self) == *old(self),
                None => r == old(self).spec_read_value(address, 4) && old(self).spec_read_effect(
                    address,
                    4,
                    *final(self),
                ),
            },
    {
        if let Some(offset) = ram_offset(address, self.ram.len(), 4) {
            if let Some(value) = self.snapshots.runtime_read_value_unchecked(address, 4) {
                return value;
            }
            if let Some(value) = self.snapshots.patch_read_value(address, 4) {
                return value;
            }
            return le_u32_at(&self.ram, offset, 4);
        }
        self.read_u32_fast_no_trace(address)
    }
}

/// `a + b` wrapping at 2^32.
pub open spec fn spec_wrapping_add(a: u32, b: int) -> u32 {
    ((a + b) % 0x1_0000_0000) as u32
}

/// `wrapping_add` is addition modulo 2^32.
pub proof fn lemma_wrapping_add(a: u32, b: u32)
    ensures
        spec_wrapping_add(a, b as int) == (if a + b > u32::MAX {
            (a + b - 0x1_0000_0000) as u32
        } else {
            (a + b) as u32
        }),
{
}

/// Wrapping addition of a value taken modulo 2^32.
pub proof fn lemma_wrapping_add_mod(a: u32, b: int)
    requires
        0 <= b,
    ensures
        spec_wrapping_add(a, b) == spec_wrapping_add(a, b % 0x1_0000_0000),
{
    assert((a + b) % 0x1_0000_0000 == (a + b % 0x1_0000_0000) % 0x1_0000_0000) by (nonlinear_arith);
}

/// The low two bits decide alignment.
pub proof fn lemma_mod4_mask(x: u32)
    ensures
        (x & 0x03 == 0) == (x % 4 == 0),
{
    assert((x & 0x03 == 0) == (x % 4 == 0)) by (bit_vector);
}

pub open spec fn spec_unwrap_or_zero(v: Option<u32>) -> u32 {
    match v {
        Some(x) => x,
        None => 0,
    }
}

pub fn unwrap_or_zero(v: Option<u32>) -> (r: u32)
    ensures
        r == spec_unwrap_or_zero(v),
{
    match v {
        Some(x) => x,
        None => 0,
    }
}

/// The credit state block lies in the RAM window.
pub proof fn lemma_credit_addresses()
    ensures
        spec_physical(0x803b_fa00) == 0x003b_fa00,
        spec_physical(0x803b_fa01) == 0x003b_fa01,
        spec_physical(0x803b_fa08) == 0x003b_fa08,
        spec_physical(0x803b_fa09) == 0x003b_fa09,
        spec_physical(0x803b_fa18) == 0x003b_fa18,
{
    assert(0x803b_fa00u32 & 0x1fff_ffff == 0x003b_fa00 && 0x803b_fa01u32 & 0x1fff_ffff
        == 0x003b_fa01 && 0x803b_fa08u32 & 0x1fff_ffff == 0x003b_fa08 && 0x803b_fa09u32
        & 0x1fff_ffff == 0x003b_fa09 && 0x803b_fa18u32 & 0x1fff_ffff == 0x003b_fa18)
        by (bit_vector);
}

/// `None` for an interval of zero.
pub open spec fn spec_positive(interval: Option<u64>) -> Option<u64> {
    match interval {
        Some(v) => if v > 0 {
            Some(v)
        } else {
            None
        },
        None => None,
    }
}

pub fn positive(interval: Option<u64>) -> (r: Option<u64>)
    ensures
        r == spec_positive(interval),
{
    match interval {
        Some(v) => if v > 0 {
            Some(v)
        } else {
            None
        },
        None => None,
    }
}

/// Where the BIOS keeps the license string and the CAT702 response bytes.
pub const ZN_LICENSE_OFFSET: usize = 0x0000_baa0;
pub const ZN_SECURITY_RESPONSE_OFFSET: usize = 0x0000_b98d;

/// Index of the first zero byte of `rom` at or after `i`.
pub open spec fn spec_zero_position(rom: Seq<u8>, i: int) -> Option<int>
    decreases rom.len() - i,
{
    if i < 0 || i >= rom.len() {
        None
    } else if rom[i] == 0 {
        Some(i)
    } else {
        spec_zero_position(rom, i + 1)
    }
}

/// The security response the BIOS carries: as many bytes at the response
/// offset as the zero-terminated license string is long, less one; `None`
/// when the ROM is too short or the license string is shorter than two bytes.
pub open spec fn spec_security_response(rom: Seq<u8>) -> Option<Seq<u8>> {
    if rom.len() < ZN_LICENSE_OFFSET {
        None
    } else {
        match spec_zero_position(rom, ZN_LICENSE_OFFSET as int) {
            None => None,
            Some(zero) => {
                let license_len = zero - ZN_LICENSE_OFFSET;
                let response_len = license_len - 1;
                if license_len < 2 || ZN_SECURITY_RESPONSE_OFFSET + response_len > rom.len() {
                    None
                } else {
                    Some(
                        rom.subrange(
                            ZN_SECURITY_RESPONSE_OFFSET as int,
                            ZN_SECURITY_RESPONSE_OFFSET + response_len,
                        ),
                    )
                }
            },
        }
    }
}

/// Index of the first zero byte of `rom` at or after `start`.
pub fn first_zero_from(rom: &Vec<u8>, start: usize) -> (r: Option<usize>)
    ensures
        match r {
            Some(i) => spec_zero_position(rom@, start as int) == Some(i as int),
            None => spec_zero_position(rom@, start as int) is None,
        },
        r matches Some(i) ==> start <= i < rom@.len(),
{
    let mut i = start;
    while i < rom.len()
        invariant
            start <= i,
            spec_zero_position(rom@, start as int) == spec_zero_position(rom@, i as int),
        decreases rom@.len() - i,
    {
        if rom[i] == 0 {
            return Some(i);
        }
        i = i + 1;
    }
    None
}

/// The CAT702 security response derived from the BIOS bytes.
pub fn zn_security_response_from_bios(rom: &Vec<u8>) -> (r: Option<Vec<u8>>)
    ensures
        match r {
            Some(v) => spec_security_response(rom@) == Some(v@),
            None => spec_security_response(rom@) is None,
        },
{
    if rom.len() < ZN_LICENSE_OFFSET {
        return None;
    }
    let i = match first_zero_from(rom, ZN_LICENSE_OFFSET) {
        Some(i) => i,
        None => return None,
    };
    let license_len = i - ZN_LICENSE_OFFSET;
    if license_len < 2 {
        return None;
    }
    let response_len = license_len - 1;
    if response_len > rom.len() - ZN_SECURITY_RESPONSE_OFFSET {
        return None;
    }
    Some(copy_bytes(rom, ZN_SECURITY_RESPONSE_OFFSET, response_len))
}

} // verus!
