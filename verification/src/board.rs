//! The ZN board's own registers: input ports, coin register, ROM bank and
//! security selects, AT28C16 EEPROM, and the coin-to-credit adapter.
use vstd::prelude::*;
use crate::activity::{NativeInputActivity, sat_add};
use crate::address::{
    board_read_lane, board_register_base, board_write_lane, mirrored_input_port, physical_address,
    spec_board_read_lane, spec_board_register_base, spec_board_write_lane, spec_mirrored_input_port,
    spec_physical,
};
use crate::buttons::ActionButtons;
use crate::json::{
    bool_text, dec, hex, join_commas, lemma_join_commas_push, opt_hex32, opt_u16_to_u32, opt_u32_dec,
    push_bool, push_dec, push_hex, push_joined, push_opt_hex32, push_opt_u32_dec, widen_u16,
};
use crate::mapping::NativeCoinInputMapping;
use crate::projection::{
    native_credit_default_projection_rules, parse_native_credit_projection_rules, spec_default_rules,
    spec_parse_projection_rules, NativeCreditProjectionBucket, NativeCreditProjectionRule,
};

verus! {

broadcast use vstd::string::group_string_axioms;

/// Coin bit the adapter ORs into the game's input word by default.
pub const BR2_NATIVE_CREDIT_INPUT_BIT: u32 = 0x0000_0008;
/// Scratchpad stores a coin poll arms the adapter for.
pub const BR2_NATIVE_CREDIT_ADAPTER_PENDING_WRITES: u8 = 16;
/// Edge-word stores projected after the adapter first fires.
pub const BR2_NATIVE_CREDIT_ADAPTER_EDGE_PROJECTION_WRITES: u8 = 2;
/// Reads a legacy coin/start edge stays latched for.
pub const LEGACY_ZINC_SYSTEM_EDGE_LATCH_READS: u8 = 120;
/// Size of the recent coin register write ring.
pub const ZN_BOARD_RECENT_COIN_REGISTER_WRITES: usize = 16;
/// Size of the AT28C16 settings EEPROM.
pub const AT28C16_LEN: usize = 2048;

/// `x + 1`, saturating.
pub open spec fn inc(x: u64) -> u64 {
    sat_add(x, 1)
}

/// `x + 1` when `cond`, saturating.
pub open spec fn inc_if(x: u64, cond: bool) -> u64 {
    if cond { inc(x) } else { x }
}

/// One store to the coin register, as the CPU issued it.
#[derive(Clone, Copy, Debug, Default, PartialEq, Eq, Structural)]
pub struct CoinRegisterWriteEvent {
    pub vblank: u64,
    pub cycles: u64,
    pub pc: Option<u32>,
    pub address: u32,
    pub access_len: usize,
    pub raw_value: u32,
    pub merged_value: u32,
    pub data: u8,
}

/// Mask of the bytes an access of `access_len` bytes can carry.
pub open spec fn spec_access_len_mask(access_len: usize) -> u32 {
    if access_len == 1 {
        0x0000_00ff
    } else if access_len == 2 {
        0x0000_ffff
    } else {
        u32::MAX
    }
}

/// Index of the first rule from `i` on that covers a store of `access_len`
/// bytes at `address` by `pc`.
pub open spec fn spec_first_matching_rule(
    rules: Seq<NativeCreditProjectionRule>,
    address: u32,
    access_len: usize,
    pc: Option<u32>,
    i: int,
) -> Option<int>
    decreases rules.len() - i,
{
    if i < 0 || i >= rules.len() {
        None
    } else if rules[i].spec_matches(address, access_len, pc) {
        Some(i)
    } else {
        spec_first_matching_rule(rules, address, access_len, pc, i + 1)
    }
}

/// The first match found from `i` lies at or after `i` and does match.
pub proof fn lemma_first_matching_rule(
    rules: Seq<NativeCreditProjectionRule>,
    address: u32,
    access_len: usize,
    pc: Option<u32>,
    i: int,
)
    requires
        0 <= i,
    ensures
        spec_first_matching_rule(rules, address, access_len, pc, i) matches Some(j) ==> i <= j
            < rules.len() && rules[j].spec_matches(address, access_len, pc),
    decreases rules.len() - i,
{
    if i < rules.len() && !rules[i].spec_matches(address, access_len, pc) {
        lemma_first_matching_rule(rules, address, access_len, pc, i + 1);
    }
}

pub fn native_credit_access_len_mask(access_len: usize) -> (r: u32)
    ensures
        r == spec_access_len_mask(access_len),
{
    if access_len == 1 {
        0x0000_00ff
    } else if access_len == 2 {
        0x0000_ffff
    } else {
        u32::MAX
    }
}

/// `value` with `bit` cleared when `clear` holds.
pub open spec fn cleared_if(value: u32, bit: u32, clear: bool) -> u32 {
    if clear { value & !bit } else { value }
}

pub fn clear_bit_if(value: &mut u32, bit: u32, clear: bool)
    ensures
        *final(value) == cleared_if(*old(value), bit, clear),
{
    if clear {
        *value = *value & !bit;
    }
}

/// Player 1 port, active low: directions, punch, kick, beast, and start as
/// button 5 on legacy ZiNc wiring.
pub open spec fn spec_player1_input(input: ActionButtons, legacy: bool) -> u32 {
    let v = 0xffff_ffffu32;
    let v = cleared_if(v, 0x01, input.up);
    let v = cleared_if(v, 0x02, input.down);
    let v = cleared_if(v, 0x04, input.left);
    let v = cleared_if(v, 0x08, input.right);
    let v = cleared_if(v, 0x10, input.punch);
    let v = cleared_if(v, 0x20, input.kick);
    let v = cleared_if(v, 0x40, input.beast);
    cleared_if(v, 0x80, input.start && legacy)
}

pub fn active_low_player1_input(input: ActionButtons, legacy_zinc_input_compat: bool) -> (r: u32)
    ensures
        r == spec_player1_input(input, legacy_zinc_input_compat),
{
    let mut value: u32 = 0xffff_ffff;
    clear_bit_if(&mut value, 0x0000_0001, input.up);
    clear_bit_if(&mut value, 0x0000_0002, input.down);
    clear_bit_if(&mut value, 0x0000_0004, input.left);
    clear_bit_if(&mut value, 0x0000_0008, input.right);
    clear_bit_if(&mut value, 0x0000_0010, input.punch);
    clear_bit_if(&mut value, 0x0000_0020, input.kick);
    clear_bit_if(&mut value, 0x0000_0040, input.beast);
    clear_bit_if(&mut value, 0x0000_0080, input.start && legacy_zinc_input_compat);
    value
}

/// Each control of player 1 pulls its own line low and no other: up
/// `0x01`, down `0x02`, left `0x04`, right `0x08`, punch `0x10`, kick
/// `0x20`, beast `0x40`, and start `0x80` on legacy wiring only. Every
/// line above the low byte reads high whatever is held.
pub proof fn law_player1_lines(input: ActionButtons, legacy: bool)
    ensures
        (spec_player1_input(input, legacy) & 0x01 == 0) <==> input.up,
        (spec_player1_input(input, legacy) & 0x02 == 0) <==> input.down,
        (spec_player1_input(input, legacy) & 0x04 == 0) <==> input.left,
        (spec_player1_input(input, legacy) & 0x08 == 0) <==> input.right,
        (spec_player1_input(input, legacy) & 0x10 == 0) <==> input.punch,
        (spec_player1_input(input, legacy) & 0x20 == 0) <==> input.kick,
        (spec_player1_input(input, legacy) & 0x40 == 0) <==> input.beast,
        (spec_player1_input(input, legacy) & 0x80 == 0) <==> (input.start && legacy),
        spec_player1_input(input, legacy) & 0xffff_ff00 == 0xffff_ff00,
{
    let u = input.up;
    let d = input.down;
    let l = input.left;
    let r = input.right;
    let p = input.punch;
    let k = input.kick;
    let b = input.beast;
    let s = input.start && legacy;
    assert({
        let v = cleared_if(
            cleared_if(
                cleared_if(
                    cleared_if(
                        cleared_if(
                            cleared_if(cleared_if(cleared_if(0xffff_ffffu32, 0x01, u), 0x02, d), 0x04, l),
                            0x08,
                            r,
                        ),
                        0x10,
                        p,
                    ),
                    0x20,
                    k,
                ),
                0x40,
                b,
            ),
            0x80,
            s,
        );
        &&& (v & 0x01 == 0) == u
        &&& (v & 0x02 == 0) == d
        &&& (v & 0x04 == 0) == l
        &&& (v & 0x08 == 0) == r
        &&& (v & 0x10 == 0) == p
        &&& (v & 0x20 == 0) == k
        &&& (v & 0x40 == 0) == b
        &&& (v & 0x80 == 0) == s
        &&& v & 0xffff_ff00 == 0xffff_ff00
    }) by (bit_vector);
}

/// Player 2 is not wired: every line reads high.
pub fn active_low_player2_input() -> (r: u32)
    ensures
        r == 0xffff_ffff,
{
    0xffff_ffff
}

/// Player 3 port: the game reads P1 button 4 (guard) from bit `0x10`.
pub open spec fn spec_player3_input(input: ActionButtons) -> u32 {
    cleared_if(0xffff_ffff, 0x10, input.guard)
}

pub fn active_low_player3_input(input: ActionButtons) -> (r: u32)
    ensures
        r == spec_player3_input(input),
{
    let mut value: u32 = 0xffff_ffff;
    clear_bit_if(&mut value, 0x0000_0010, input.guard);
    value
}

/// Player 4 is not wired: every line reads high.
pub fn active_low_player4_input() -> (r: u32)
    ensures
        r == 0xffff_ffff,
{
    0xffff_ffff
}

/// Service port: the service button, and coin where the wiring routes it here.
pub open spec fn spec_service_input(input: ActionButtons, m: NativeCoinInputMapping) -> u32 {
    let v = 0xffff_ffffu32;
    let v = cleared_if(v, 0x01, input.service);
    let v = cleared_if(v, 0x02, input.service);
    let v = cleared_if(v, 0x01, input.coin && m.spec_clears_service_01());
    let v = cleared_if(v, 0x02, input.coin && m.spec_clears_service_02());
    cleared_if(v, 0x10, input.coin && m.spec_clears_service_10())
}

pub fn active_low_service_input(input: ActionButtons, coin_mapping: NativeCoinInputMapping) -> (r:
    u32)
    ensures
        r == spec_service_input(input, coin_mapping),
{
    let mut value: u32 = 0xffff_ffff;
    clear_bit_if(&mut value, 0x0000_0001, input.service);
    clear_bit_if(&mut value, 0x0000_0002, input.service);
    clear_bit_if(&mut value, 0x0000_0001, input.coin && coin_mapping.clears_service_01());
    clear_bit_if(&mut value, 0x0000_0002, input.coin && coin_mapping.clears_service_02());
    clear_bit_if(&mut value, 0x0000_0010, input.coin && coin_mapping.clears_service_10());
    value
}

/// System port: start 1, start 2 on legacy wiring, and the coin lines.
pub open spec fn spec_system_input(input: ActionButtons, legacy: bool, m: NativeCoinInputMapping) -> u32 {
    let v = 0xffff_ffffu32;
    let v = cleared_if(v, 0x01, input.start);
    let v = cleared_if(v, 0x02, input.start && legacy);
    let v = cleared_if(v, 0x10, input.coin && m.spec_clears_system_10());
    cleared_if(v, 0x20, input.coin && m.spec_clears_system_20())
}

pub fn active_low_system_input(
    input: ActionButtons,
    legacy_zinc_input_compat: bool,
    coin_mapping: NativeCoinInputMapping,
) -> (r: u32)
    ensures
        r == spec_system_input(input, legacy_zinc_input_compat, coin_mapping),
{
    let mut value: u32 = 0xffff_ffff;
    clear_bit_if(&mut value, 0x0000_0001, input.start);
    clear_bit_if(&mut value, 0x0000_0002, input.start && legacy_zinc_input_compat);
    clear_bit_if(&mut value, 0x0000_0010, input.coin && coin_mapping.clears_system_10());
    clear_bit_if(&mut value, 0x0000_0020, input.coin && coin_mapping.clears_system_20());
    value
}

/// Player 3 reads guard on line `0x10` alone. The service port pulls
/// `0x01` and `0x02` low for the service button, and the coin pulls low the
/// service lines its wiring routes there (`0x01`, `0x02`, `0x10`). The
/// system port pulls `0x01` low for start, `0x02` for start on legacy
/// wiring, and the system coin lines (`0x10`, `0x20`) its wiring routes.
/// Every other line of these ports reads high.
pub proof fn law_port_lines(input: ActionButtons, legacy: bool, m: NativeCoinInputMapping)
    ensures
        (spec_player3_input(input) & 0x10 == 0) <==> input.guard,
        spec_player3_input(input) | 0x10 == 0xffff_ffff,
        (spec_service_input(input, m) & 0x01 == 0) <==> (input.service || input.coin
            && m.spec_clears_service_01()),
        (spec_service_input(input, m) & 0x02 == 0) <==> (input.service || input.coin
            && m.spec_clears_service_02()),
        (spec_service_input(input, m) & 0x10 == 0) <==> (input.coin && m.spec_clears_service_10()),
        spec_service_input(input, m) | 0x13 == 0xffff_ffff,
        (spec_system_input(input, legacy, m) & 0x01 == 0) <==> input.start,
        (spec_system_input(input, legacy, m) & 0x02 == 0) <==> (input.start && legacy),
        (spec_system_input(input, legacy, m) & 0x10 == 0) <==> (input.coin
            && m.spec_clears_system_10()),
        (spec_system_input(input, legacy, m) & 0x20 == 0) <==> (input.coin
            && m.spec_clears_system_20()),
        spec_system_input(input, legacy, m) | 0x33 == 0xffff_ffff,
{
    let g = input.guard;
    let sv = input.service;
    let c1 = input.coin && m.spec_clears_service_01();
    let c2 = input.coin && m.spec_clears_service_02();
    let c10 = input.coin && m.spec_clears_service_10();
    let st = input.start;
    let st2 = input.start && legacy;
    let s10 = input.coin && m.spec_clears_system_10();
    let s20 = input.coin && m.spec_clears_system_20();
    assert({
        let p3 = cleared_if(0xffff_ffffu32, 0x10, g);
        let sv_port = cleared_if(
            cleared_if(
                cleared_if(cleared_if(cleared_if(0xffff_ffffu32, 0x01, sv), 0x02, sv), 0x01, c1),
                0x02,
                c2,
            ),
            0x10,
            c10,
        );
        let sys = cleared_if(
            cleared_if(cleared_if(cleared_if(0xffff_ffffu32, 0x01, st), 0x02, st2), 0x10, s10),
            0x20,
            s20,
        );
        &&& (p3 & 0x10 == 0) == g
        &&& p3 | 0x10 == 0xffff_ffff
        &&& (sv_port & 0x01 == 0) == (sv || c1)
        &&& (sv_port & 0x02 == 0) == (sv || c2)
        &&& (sv_port & 0x10 == 0) == c10
        &&& sv_port | 0x13 == 0xffff_ffff
        &&& (sys & 0x01 == 0) == st
        &&& (sys & 0x02 == 0) == st2
        &&& (sys & 0x10 == 0) == s10
        &&& (sys & 0x20 == 0) == s20
        &&& sys | 0x33 == 0xffff_ffff
    }) by (bit_vector);
}

/// A latch counts down one read while its button is released.
pub open spec fn spec_decayed(latch: u8, raw_button_active: bool) -> u8 {
    if raw_button_active || latch == 0 {
        latch
    } else {
        (latch - 1) as u8
    }
}

pub fn decay_legacy_latch_after_read(latch: &mut u8, raw_button_active: bool)
    ensures
        *final(latch) == spec_decayed(*old(latch), raw_button_active),
{
    if raw_button_active {
        return;
    }
    let remaining = *latch;
    if remaining > 0 {
        *latch = remaining - 1;
    }
}

/// The board-level registers, with the counters the game's polling leaves.
#[derive(Clone, Debug)]
pub struct ZnBoard {
    pub rom_bank: u8,
    pub znsecsel: u8,
    pub znsecsel_writes: u64,
    pub coin: u8,
    pub coin_register_writes: u64,
    pub recent_coin_register_writes: Vec<CoinRegisterWriteEvent>,
    pub recent_coin_register_write_count: usize,
    pub recent_coin_register_write_cursor: usize,
    pub coin_input_latched: bool,
    pub coin_insert_edges: u64,
    pub coin_counter_0: bool,
    pub coin_counter_1: bool,
    pub coin_counter_0_edges: u64,
    pub coin_counter_1_edges: u64,
    pub coin_lockout_0: bool,
    pub coin_lockout_1: bool,
    pub legacy_coin_read_latch: u8,
    pub legacy_system_coin_latch_reads: u8,
    pub legacy_system_start_latch_reads: u8,
    pub legacy_system_coin_latch_edges: u64,
    pub legacy_system_start_latch_edges: u64,
    pub native_credit_adapter_pending_writes: u8,
    pub native_credit_adapter_edge_projection_writes: u8,
    pub native_credit_adapter_active: bool,
    pub native_credit_adapter_writes: u64,
    pub native_credit_adapter_edges: u64,
    pub native_credit_adapter_last_raw_value: u32,
    pub native_credit_adapter_last_value: u32,
    pub native_credit_adapter_last_pc: Option<u32>,
    pub native_credit_adapter_last_vblank: u64,
    pub native_credit_adapter_last_cycles: u64,
    pub native_credit_adapter_input_bit: u32,
    pub native_credit_projection_rules: Vec<NativeCreditProjectionRule>,
    pub sound_irq_latch: u8,
    pub at28c16: Vec<u8>,
    pub at28c16_reads: u64,
    pub at28c16_writes: u64,
    pub last_at28c16_read_offset: Option<u16>,
    pub last_at28c16_read_value: u8,
    pub last_at28c16_write_offset: Option<u16>,
    pub last_at28c16_write_value: u8,
    pub zn2_spu_hack: u16,
    pub zn2_spu_hack_reads: u64,
    pub legacy_zinc_input_compat: bool,
    pub coin_input_mapping: NativeCoinInputMapping,
    pub input: ActionButtons,
    pub p1_input_reads: u64,
    pub p1_up_active_reads: u64,
    pub p1_down_active_reads: u64,
    pub p1_left_active_reads: u64,
    pub p1_right_active_reads: u64,
    pub p1_start_active_reads: u64,
    pub p1_punch_active_reads: u64,
    pub p1_kick_active_reads: u64,
    pub p1_beast_active_reads: u64,
    pub p3_input_reads: u64,
    pub p3_guard_active_reads: u64,
    pub system_input_reads: u64,
    pub system_coin_active_reads: u64,
    pub system_service_active_reads: u64,
    pub system_start_active_reads: u64,
    pub coin_register_reads: u64,
    pub coin_register_active_reads: u64,
    pub last_p1_input: u32,
    pub last_p3_input: u32,
    pub last_system_input: u32,
    pub last_coin_register: u32,
}

impl ZnBoard {
    /// The EEPROM holds 2 KiB and the coin write ring 16 entries.
    pub open spec fn wf(self) -> bool {
        &&& self.at28c16@.len() == AT28C16_LEN
        &&& self.recent_coin_register_writes@.len() == ZN_BOARD_RECENT_COIN_REGISTER_WRITES
        &&& self.recent_coin_register_write_cursor < ZN_BOARD_RECENT_COIN_REGISTER_WRITES
        &&& self.recent_coin_register_write_count <= ZN_BOARD_RECENT_COIN_REGISTER_WRITES
    }

    /// Legacy ZiNc behaviour comes from the board assets or the wiring.
    pub open spec fn spec_legacy_compat(self) -> bool {
        self.legacy_zinc_input_compat || self.coin_input_mapping.spec_enables_legacy_start_compat()
    }

    pub fn legacy_input_compat_active(&self) -> (r: bool)
        ensures
            r == self.spec_legacy_compat(),
    {
        self.legacy_zinc_input_compat || self.coin_input_mapping.enables_legacy_start_compat()
    }

    /// The held buttons, with latched coin/start edges still held on legacy
    /// wiring.
    pub open spec fn spec_effective_input(self) -> ActionButtons {
        if !self.spec_legacy_compat() {
            self.input
        } else {
            ActionButtons {
                coin: self.input.coin || self.legacy_system_coin_latch_reads > 0,
                start: self.input.start || self.legacy_system_start_latch_reads > 0,
                ..self.input
            }
        }
    }

    pub fn effective_legacy_system_input(&self) -> (r: ActionButtons)
        ensures
            r == self.spec_effective_input(),
    {
        if !self.legacy_input_compat_active() {
            return self.input;
        }
        ActionButtons {
            coin: self.input.coin || self.legacy_system_coin_latch_reads > 0,
            start: self.input.start || self.legacy_system_start_latch_reads > 0,
            ..self.input
        }
    }

    pub fn cat702_1_select(&self) -> (r: bool)
        ensures
            r == (self.znsecsel & 0x04 != 0),
    {
        self.znsecsel & 0x04 != 0
    }

    pub fn cat702_2_select(&self) -> (r: bool)
        ensures
            r == (self.znsecsel & 0x08 != 0),
    {
        self.znsecsel & 0x08 != 0
    }

    pub fn zn_mcu_analog_read(&self) -> (r: bool)
        ensures
            r == (self.znsecsel & 0x10 != 0),
    {
        self.znsecsel & 0x10 != 0
    }

    pub fn zn_mcu_trackball_read(&self) -> (r: bool)
        ensures
            r == (self.znsecsel & 0x20 != 0),
    {
        self.znsecsel & 0x20 != 0
    }

    /// Legacy behaviour is on when the board assets ask for it or the coin
    /// wiring is legacy ZiNc or `all`. Latched coin and start reads keep
    /// those two buttons held only then; without legacy behaviour the held
    /// buttons are the input as given, and every other button is the input
    /// as given in either case.
    pub proof fn law_effective_input(self)
        ensures
            self.spec_legacy_compat() <==> (self.legacy_zinc_input_compat || self.coin_input_mapping
                == NativeCoinInputMapping::LegacyZinc || self.coin_input_mapping
                == NativeCoinInputMapping::All),
            !self.spec_legacy_compat() ==> self.spec_effective_input() == self.input,
            self.spec_legacy_compat() ==> (self.spec_effective_input().coin <==> (self.input.coin
                || self.legacy_system_coin_latch_reads > 0)),
            self.spec_legacy_compat() ==> (self.spec_effective_input().start <==> (self.input.start
                || self.legacy_system_start_latch_reads > 0)),
            ({
                let e = self.spec_effective_input();
                &&& e.up == self.input.up && e.down == self.input.down && e.left == self.input.left
                    && e.right == self.input.right
                &&& e.punch == self.input.punch && e.kick == self.input.kick && e.beast
                    == self.input.beast && e.guard == self.input.guard
                &&& e.service == self.input.service
            }),
    {
    }

    pub open spec fn spec_zn_mcu_selected(self) -> bool {
        self.znsecsel_writes != 0 && self.znsecsel & 0x8c == 0x8c
    }

    /// The MCU select line is active low: the MCU is selected once the game
    /// has written ZNSECSEL with bits `0x8c` all set.
    pub fn zn_mcu_selected(&self) -> (r: bool)
        ensures
            r == self.spec_zn_mcu_selected(),
    {
        if self.znsecsel_writes == 0 {
            return false;
        }
        self.znsecsel & 0x8c == 0x8c
    }
}

/// Board assets found next to the ROMs: the CAT702 security transforms, the
/// settings EEPROM, and whether the dump expects legacy ZiNc input wiring.
#[derive(Clone, Debug, Default, PartialEq, Eq)]
pub struct NativeBoardAssets {
    pub cat702_1: Option<[u8; 8]>,
    pub cat702_2: Option<[u8; 8]>,
    pub at28c16: Option<Vec<u8>>,
    pub at28c16_blank_default: bool,
    pub legacy_zinc_input_compat: bool,
}

impl NativeBoardAssets {
    pub open spec fn spec_default() -> Self {
        NativeBoardAssets {
            cat702_1: None,
            cat702_2: None,
            at28c16: None,
            at28c16_blank_default: false,
            legacy_zinc_input_compat: false,
        }
    }

    /// No assets found.
    pub fn new() -> (r: Self)
        ensures
            r == Self::spec_default(),
    {
        NativeBoardAssets {
            cat702_1: None,
            cat702_2: None,
            at28c16: None,
            at28c16_blank_default: false,
            legacy_zinc_input_compat: false,
        }
    }
}

/// EEPROM contents: the given bytes (at most 2 KiB), the rest erased.
pub open spec fn spec_initial_eeprom(default: Option<Seq<u8>>) -> Seq<u8> {
    Seq::new(
        AT28C16_LEN as nat,
        |i: int|
            match default {
                Some(d) => if i < d.len() { d[i] } else { 0xff },
                None => 0xff,
            },
    )
}

pub open spec fn opt_view(v: Option<Vec<u8>>) -> Option<Seq<u8>> {
    match v {
        Some(b) => Some(b@),
        None => None,
    }
}

impl ZnBoard {
    /// The state right after power-on.
    pub open spec fn spec_fresh(self, legacy: bool) -> bool {
        &&& self.wf()
        &&& self.rom_bank == 0
        &&& self.znsecsel == 0
        &&& self.znsecsel_writes == 0
        &&& self.coin == 0
        &&& self.coin_register_writes == 0
        &&& forall|i: int| 0 <= i < 16 ==> #[trigger] self.recent_coin_register_writes@[i]
            == CoinRegisterWriteEvent::default_spec()
        &&& self.recent_coin_register_write_count == 0
        &&& self.recent_coin_register_write_cursor == 0
        &&& !self.coin_input_latched
        &&& self.coin_insert_edges == 0
        &&& !self.coin_counter_0 && !self.coin_counter_1
        &&& self.coin_counter_0_edges == 0 && self.coin_counter_1_edges == 0
        &&& !self.coin_lockout_0 && !self.coin_lockout_1
        &&& self.legacy_coin_read_latch == 0
        &&& self.legacy_system_coin_latch_reads == 0
        &&& self.legacy_system_start_latch_reads == 0
        &&& self.legacy_system_coin_latch_edges == 0
        &&& self.legacy_system_start_latch_edges == 0
        &&& self.native_credit_adapter_pending_writes == 0
        &&& self.native_credit_adapter_edge_projection_writes == 0
        &&& !self.native_credit_adapter_active
        &&& self.native_credit_adapter_writes == 0
        &&& self.native_credit_adapter_edges == 0
        &&& self.native_credit_adapter_last_raw_value == 0
        &&& self.native_credit_adapter_last_value == 0
        &&& self.native_credit_adapter_last_pc is None
        &&& self.native_credit_adapter_last_vblank == 0
        &&& self.native_credit_adapter_last_cycles == 0
        &&& self.native_credit_adapter_input_bit == BR2_NATIVE_CREDIT_INPUT_BIT
        &&& self.native_credit_projection_rules@ == spec_default_rules()
        &&& self.sound_irq_latch == 0
        &&& self.at28c16_reads == 0
        &&& self.at28c16_writes == 0
        &&& self.last_at28c16_read_offset is None
        &&& self.last_at28c16_read_value == 0
        &&& self.last_at28c16_write_offset is None
        &&& self.last_at28c16_write_value == 0
        &&& self.zn2_spu_hack == 0
        &&& self.zn2_spu_hack_reads == 0
        &&& self.legacy_zinc_input_compat == legacy
        &&& self.coin_input_mapping == (if legacy {
            NativeCoinInputMapping::LegacyZinc
        } else {
            NativeCoinInputMapping::Mame
        })
        &&& self.input == ActionButtons::default_spec()
        &&& self.p1_input_reads == 0 && self.p1_up_active_reads == 0
        &&& self.p1_down_active_reads == 0 && self.p1_left_active_reads == 0
        &&& self.p1_right_active_reads == 0 && self.p1_start_active_reads == 0
        &&& self.p1_punch_active_reads == 0 && self.p1_kick_active_reads == 0
        &&& self.p1_beast_active_reads == 0 && self.p3_input_reads == 0
        &&& self.p3_guard_active_reads == 0 && self.system_input_reads == 0
        &&& self.system_coin_active_reads == 0 && self.system_service_active_reads == 0
        &&& self.system_start_active_reads == 0 && self.coin_register_reads == 0
        &&& self.coin_register_active_reads == 0
        &&& self.last_p1_input == 0xffff_ffff
        &&& self.last_p3_input == 0xffff_ffff
        &&& self.last_system_input == 0xffff_ffff
        &&& self.last_coin_register == 0
    }

    /// A board at power-on with the given EEPROM image and input wiring.
    pub fn with_at28c16_and_compat(default_at28c16: Option<Vec<u8>>, legacy_zinc_input_compat: bool) -> (r: Self)
        ensures
            r.spec_fresh(legacy_zinc_input_compat),
            r.at28c16@ == spec_initial_eeprom(opt_view(default_at28c16)),
    {
        let ghost dv = opt_view(default_at28c16);
        let mut at28c16: Vec<u8> = Vec::new();
        let mut i: usize = 0;
        while i < AT28C16_LEN
            invariant
                i <= AT28C16_LEN,
                dv == opt_view(default_at28c16),
                at28c16@ == spec_initial_eeprom(dv).take(i as int),
            decreases AT28C16_LEN - i,
        {
            let byte = match &default_at28c16 {
                Some(bytes) => if i < bytes.len() { bytes[i] } else { 0xff },
                None => 0xff,
            };
            at28c16.push(byte);
            i = i + 1;
            assert(at28c16@ =~= spec_initial_eeprom(dv).take(i as int));
        }
        assert(at28c16@ =~= spec_initial_eeprom(dv));
        let mut recent: Vec<CoinRegisterWriteEvent> = Vec::new();
        let mut k: usize = 0;
        while k < ZN_BOARD_RECENT_COIN_REGISTER_WRITES
            invariant
                k <= ZN_BOARD_RECENT_COIN_REGISTER_WRITES,
                recent@.len() == k,
                forall|j: int| 0 <= j < k ==> #[trigger] recent@[j]
                    == CoinRegisterWriteEvent::default_spec(),
            decreases ZN_BOARD_RECENT_COIN_REGISTER_WRITES - k,
        {
            recent.push(CoinRegisterWriteEvent::empty());
            k = k + 1;
        }
        ZnBoard {
            rom_bank: 0,
            znsecsel: 0,
            znsecsel_writes: 0,
            coin: 0,
            coin_register_writes: 0,
            recent_coin_register_writes: recent,
            recent_coin_register_write_count: 0,
            recent_coin_register_write_cursor: 0,
            coin_input_latched: false,
            coin_insert_edges: 0,
            coin_counter_0: false,
            coin_counter_1: false,
            coin_counter_0_edges: 0,
            coin_counter_1_edges: 0,
            coin_lockout_0: false,
            coin_lockout_1: false,
            legacy_coin_read_latch: 0,
            legacy_system_coin_latch_reads: 0,
            legacy_system_start_latch_reads: 0,
            legacy_system_coin_latch_edges: 0,
            legacy_system_start_latch_edges: 0,
            native_credit_adapter_pending_writes: 0,
            native_credit_adapter_edge_projection_writes: 0,
            native_credit_adapter_active: false,
            native_credit_adapter_writes: 0,
            native_credit_adapter_edges: 0,
            native_credit_adapter_last_raw_value: 0,
            native_credit_adapter_last_value: 0,
            native_credit_adapter_last_pc: None,
            native_credit_adapter_last_vblank: 0,
            native_credit_adapter_last_cycles: 0,
            native_credit_adapter_input_bit: BR2_NATIVE_CREDIT_INPUT_BIT,
            native_credit_projection_rules: native_credit_default_projection_rules(),
            sound_irq_latch: 0,
            at28c16,
            at28c16_reads: 0,
            at28c16_writes: 0,
            last_at28c16_read_offset: None,
            last_at28c16_read_value: 0,
            last_at28c16_write_offset: None,
            last_at28c16_write_value: 0,
            zn2_spu_hack: 0,
            zn2_spu_hack_reads: 0,
            legacy_zinc_input_compat,
            coin_input_mapping: NativeCoinInputMapping::default_for_compat(legacy_zinc_input_compat),
            input: ActionButtons::none(),
            p1_input_reads: 0,
            p1_up_active_reads: 0,
            p1_down_active_reads: 0,
            p1_left_active_reads: 0,
            p1_right_active_reads: 0,
            p1_start_active_reads: 0,
            p1_punch_active_reads: 0,
            p1_kick_active_reads: 0,
            p1_beast_active_reads: 0,
            p3_input_reads: 0,
            p3_guard_active_reads: 0,
            system_input_reads: 0,
            system_coin_active_reads: 0,
            system_service_active_reads: 0,
            system_start_active_reads: 0,
            coin_register_reads: 0,
            coin_register_active_reads: 0,
            last_p1_input: 0xffff_ffff,
            last_p3_input: 0xffff_ffff,
            last_system_input: 0xffff_ffff,
            last_coin_register: 0,
        }
    }

    pub fn with_at28c16(default_at28c16: Option<Vec<u8>>) -> (r: Self)
        ensures
            r.spec_fresh(false),
            r.at28c16@ == spec_initial_eeprom(opt_view(default_at28c16)),
    {
        Self::with_at28c16_and_compat(default_at28c16, false)
    }

    /// A board configured from its assets.
    pub fn with_board_assets(assets: &NativeBoardAssets) -> (r: Self)
        ensures
            r.spec_fresh(assets.legacy_zinc_input_compat),
            r.at28c16@ == spec_initial_eeprom(opt_view(assets.at28c16)),
    {
        let eeprom = match &assets.at28c16 {
            Some(bytes) => Some(bytes.clone()),
            None => None,
        };
        Self::with_at28c16_and_compat(eeprom, assets.legacy_zinc_input_compat)
    }
}

impl CoinRegisterWriteEvent {
    pub open spec fn spec_json(self) -> Seq<char> {
        "{\"vblank\":"@
            + dec((self.vblank) as nat)
            + ",\"cycles\":"@
            + dec((self.cycles) as nat)
            + ",\"pc\":"@
            + opt_u32_dec(self.pc)
            + ",\"pc_hex\":"@
            + opt_hex32(self.pc)
            + ",\"address\":"@
            + dec((self.address) as nat)
            + ",\"address_hex\":\"0x"@
            + hex((self.address) as nat, 8)
            + "\",\"access_len\":"@
            + dec((self.access_len) as nat)
            + ",\"raw_value\":"@
            + dec((self.raw_value) as nat)
            + ",\"raw_value_hex\":\"0x"@
            + hex((self.raw_value) as nat, 8)
            + "\",\"merged_value\":"@
            + dec((self.merged_value) as nat)
            + ",\"merged_value_hex\":\"0x"@
            + hex((self.merged_value) as nat, 8)
            + "\",\"data\":"@
            + dec((self.data) as nat)
            + ",\"data_hex\":\"0x"@
            + hex((self.data) as nat, 2)
            + "\"}"@
    }

    /// The write as a JSON object.
    pub fn json(self) -> (r: String)
        ensures
            r@ == self.spec_json(),
    {
        let mut out = String::from_str("{\"vblank\":");
        push_dec(&mut out, (self.vblank) as u64);
        out.append(",\"cycles\":");
        push_dec(&mut out, (self.cycles) as u64);
        out.append(",\"pc\":");
        push_opt_u32_dec(&mut out, self.pc);
        out.append(",\"pc_hex\":");
        push_opt_hex32(&mut out, self.pc);
        out.append(",\"address\":");
        push_dec(&mut out, (self.address) as u64);
        out.append(",\"address_hex\":\"0x");
        push_hex(&mut out, (self.address) as u64, 8);
        out.append("\",\"access_len\":");
        push_dec(&mut out, (self.access_len) as u64);
        out.append(",\"raw_value\":");
        push_dec(&mut out, (self.raw_value) as u64);
        out.append(",\"raw_value_hex\":\"0x");
        push_hex(&mut out, (self.raw_value) as u64, 8);
        out.append("\",\"merged_value\":");
        push_dec(&mut out, (self.merged_value) as u64);
        out.append(",\"merged_value_hex\":\"0x");
        push_hex(&mut out, (self.merged_value) as u64, 8);
        out.append("\",\"data\":");
        push_dec(&mut out, (self.data) as u64);
        out.append(",\"data_hex\":\"0x");
        push_hex(&mut out, (self.data) as u64, 2);
        out.append("\"}");
        out
    }

    pub open spec fn default_spec() -> Self {
        CoinRegisterWriteEvent {
            vblank: 0,
            cycles: 0,
            pc: None,
            address: 0,
            access_len: 0,
            raw_value: 0,
            merged_value: 0,
            data: 0,
        }
    }

    pub fn empty() -> (r: Self)
        ensures
            r == Self::default_spec(),
    {
        CoinRegisterWriteEvent {
            vblank: 0,
            cycles: 0,
            pc: None,
            address: 0,
            access_len: 0,
            raw_value: 0,
            merged_value: 0,
            data: 0,
        }
    }
}

impl ZnBoard {
    /// Player 1 port read: counts the held directions and buttons.
    pub open spec fn spec_after_p1_read(self) -> Self {
        let i = self.spec_effective_input();
        ZnBoard {
            p1_input_reads: inc(self.p1_input_reads),
            p1_up_active_reads: inc_if(self.p1_up_active_reads, i.up),
            p1_down_active_reads: inc_if(self.p1_down_active_reads, i.down),
            p1_left_active_reads: inc_if(self.p1_left_active_reads, i.left),
            p1_right_active_reads: inc_if(self.p1_right_active_reads, i.right),
            p1_start_active_reads: inc_if(self.p1_start_active_reads, i.start),
            p1_punch_active_reads: inc_if(self.p1_punch_active_reads, i.punch),
            p1_kick_active_reads: inc_if(self.p1_kick_active_reads, i.kick),
            p1_beast_active_reads: inc_if(self.p1_beast_active_reads, i.beast),
            last_p1_input: spec_player1_input(i, self.spec_legacy_compat()),
            legacy_system_start_latch_reads: spec_decayed(
                self.legacy_system_start_latch_reads,
                self.input.start,
            ),
            ..self
        }
    }

    pub open spec fn spec_p1_value(self) -> u32 {
        spec_mirrored_input_port(
            spec_player1_input(self.spec_effective_input(), self.spec_legacy_compat()),
        )
    }

    pub fn read_player1_input(&mut self) -> (r: u32)
        ensures
            r == old(self).spec_p1_value(),
            *final(self) == old(self).spec_after_p1_read(),
    {
        let input = self.effective_legacy_system_input();
        let value = active_low_player1_input(input, self.legacy_input_compat_active());
        self.p1_input_reads = self.p1_input_reads.saturating_add(1);
        self.count_active_player1_inputs(input);
        self.last_p1_input = value;
        decay_legacy_latch_after_read(&mut self.legacy_system_start_latch_reads, self.input.start);
        mirrored_input_port(value)
    }

    /// Bumps the counter of every held player-1 control.
    pub fn count_active_player1_inputs(&mut self, input: ActionButtons)
        ensures
            *final(self) == (ZnBoard {
                p1_up_active_reads: inc_if(old(self).p1_up_active_reads, input.up),
                p1_down_active_reads: inc_if(old(self).p1_down_active_reads, input.down),
                p1_left_active_reads: inc_if(old(self).p1_left_active_reads, input.left),
                p1_right_active_reads: inc_if(old(self).p1_right_active_reads, input.right),
                p1_start_active_reads: inc_if(old(self).p1_start_active_reads, input.start),
                p1_punch_active_reads: inc_if(old(self).p1_punch_active_reads, input.punch),
                p1_kick_active_reads: inc_if(old(self).p1_kick_active_reads, input.kick),
                p1_beast_active_reads: inc_if(old(self).p1_beast_active_reads, input.beast),
                ..*old(self)
            }),
    {
        increment_if(&mut self.p1_up_active_reads, input.up);
        increment_if(&mut self.p1_down_active_reads, input.down);
        increment_if(&mut self.p1_left_active_reads, input.left);
        increment_if(&mut self.p1_right_active_reads, input.right);
        increment_if(&mut self.p1_start_active_reads, input.start);
        increment_if(&mut self.p1_punch_active_reads, input.punch);
        increment_if(&mut self.p1_kick_active_reads, input.kick);
        increment_if(&mut self.p1_beast_active_reads, input.beast);
    }

    /// Player 3 port read: counts guard.
    pub open spec fn spec_after_p3_read(self) -> Self {
        ZnBoard {
            p3_input_reads: inc(self.p3_input_reads),
            p3_guard_active_reads: inc_if(self.p3_guard_active_reads, self.input.guard),
            last_p3_input: spec_player3_input(self.input),
            ..self
        }
    }

    pub fn read_player3_input(&mut self) -> (r: u32)
        ensures
            r == spec_mirrored_input_port(spec_player3_input(old(self).input)),
            *final(self) == old(self).spec_after_p3_read(),
    {
        let value = active_low_player3_input(self.input);
        self.p3_input_reads = self.p3_input_reads.saturating_add(1);
        increment_if(&mut self.p3_guard_active_reads, self.input.guard);
        self.last_p3_input = value;
        mirrored_input_port(value)
    }

    /// Service port read: a latched coin edge decays.
    pub open spec fn spec_after_service_read(self) -> Self {
        ZnBoard {
            legacy_system_coin_latch_reads: spec_decayed(
                self.legacy_system_coin_latch_reads,
                self.input.coin,
            ),
            ..self
        }
    }

    pub open spec fn spec_service_value(self) -> u32 {
        spec_mirrored_input_port(
            spec_service_input(self.spec_effective_input(), self.coin_input_mapping),
        )
    }

    pub fn read_service_input(&mut self) -> (r: u32)
        ensures
            r == old(self).spec_service_value(),
            *final(self) == old(self).spec_after_service_read(),
    {
        let input = self.effective_legacy_system_input();
        decay_legacy_latch_after_read(&mut self.legacy_system_coin_latch_reads, self.input.coin);
        mirrored_input_port(active_low_service_input(input, self.coin_input_mapping))
    }

    /// System port read: counts coin, service and start, and arms the
    /// credit adapter while coin is held.
    pub open spec fn spec_after_system_read(self) -> Self {
        let i = self.spec_effective_input();
        ZnBoard {
            system_input_reads: inc(self.system_input_reads),
            system_coin_active_reads: inc_if(self.system_coin_active_reads, i.coin),
            native_credit_adapter_pending_writes: if i.coin {
                BR2_NATIVE_CREDIT_ADAPTER_PENDING_WRITES
            } else {
                self.native_credit_adapter_pending_writes
            },
            system_service_active_reads: inc_if(self.system_service_active_reads, i.service),
            system_start_active_reads: inc_if(self.system_start_active_reads, i.start),
            last_system_input: spec_system_input(
                i,
                self.spec_legacy_compat(),
                self.coin_input_mapping,
            ),
            legacy_system_coin_latch_reads: spec_decayed(
                self.legacy_system_coin_latch_reads,
                self.input.coin,
            ),
            legacy_system_start_latch_reads: spec_decayed(
                self.legacy_system_start_latch_reads,
                self.input.start,
            ),
            ..self
        }
    }

    pub open spec fn spec_system_value(self) -> u32 {
        spec_mirrored_input_port(
            spec_system_input(
                self.spec_effective_input(),
                self.spec_legacy_compat(),
                self.coin_input_mapping,
            ),
        )
    }

    #[verifier::rlimit(60)]
    pub fn read_system_input(&mut self) -> (r: u32)
        ensures
            r == old(self).spec_system_value(),
            *final(self) == old(self).spec_after_system_read(),
    {
        let input = self.effective_legacy_system_input();
        let value = active_low_system_input(
            input,
            self.legacy_input_compat_active(),
            self.coin_input_mapping,
        );
        self.system_input_reads = self.system_input_reads.saturating_add(1);
        if input.coin {
            self.system_coin_active_reads = self.system_coin_active_reads.saturating_add(1);
            self.native_credit_adapter_pending_writes = BR2_NATIVE_CREDIT_ADAPTER_PENDING_WRITES;
        }
        if input.service {
            self.system_service_active_reads = self.system_service_active_reads.saturating_add(1);
        }
        if input.start {
            self.system_start_active_reads = self.system_start_active_reads.saturating_add(1);
        }
        self.last_system_input = value;
        decay_legacy_latch_after_read(&mut self.legacy_system_coin_latch_reads, self.input.coin);
        decay_legacy_latch_after_read(&mut self.legacy_system_start_latch_reads, self.input.start);
        mirrored_input_port(value)
    }

    /// Coin register value: the coin outputs, plus coin and the latched coin
    /// edge on bit 0 for wirings that mirror it there.
    pub open spec fn spec_coin_register_raw(self) -> u32 {
        if self.coin_input_mapping.spec_mirrors_coin_register_bit0() {
            ((self.coin as u32) | (if self.input.coin { 1u32 } else { 0u32 }))
                | (self.legacy_coin_read_latch as u32)
        } else {
            self.coin as u32
        }
    }

    pub open spec fn spec_after_coin_register_read(self) -> Self {
        let v = self.spec_coin_register_raw();
        ZnBoard {
            coin_register_reads: inc(self.coin_register_reads),
            coin_register_active_reads: inc_if(self.coin_register_active_reads, v != 0),
            last_coin_register: v,
            legacy_coin_read_latch: if self.coin_input_mapping.spec_mirrors_coin_register_bit0() {
                0
            } else {
                self.legacy_coin_read_latch
            },
            ..self
        }
    }

    pub open spec fn spec_coin_register_value(self) -> u32 {
        if self.coin_input_mapping.spec_mirrors_coin_register_bit0() {
            spec_mirrored_input_port(self.spec_coin_register_raw())
        } else {
            self.spec_coin_register_raw()
        }
    }

    pub fn read_coin_register(&mut self) -> (r: u32)
        ensures
            r == old(self).spec_coin_register_value(),
            *final(self) == old(self).spec_after_coin_register_read(),
    {
        let mut value = self.coin as u32;
        let mirrors = self.coin_input_mapping.mirrors_coin_register_bit0();
        if mirrors {
            let coin_bit: u32 = if self.input.coin { 0x01 } else { 0 };
            value = (value | coin_bit) | (self.legacy_coin_read_latch as u32);
        }
        self.coin_register_reads = self.coin_register_reads.saturating_add(1);
        if value != 0 {
            self.coin_register_active_reads = self.coin_register_active_reads.saturating_add(1);
        }
        self.last_coin_register = value;
        if mirrors {
            self.legacy_coin_read_latch = 0;
            return mirrored_input_port(value);
        }
        value
    }

    /// The ZN-2 SPU status hack: bit 3 toggles on every read.
    pub fn read_zn2_spu_hack(&mut self) -> (r: u16)
        ensures
            r == old(self).zn2_spu_hack ^ 0x0008,
            *final(self) == (ZnBoard {
                zn2_spu_hack: old(self).zn2_spu_hack ^ 0x0008,
                zn2_spu_hack_reads: inc(old(self).zn2_spu_hack_reads),
                ..*old(self)
            }),
    {
        let value = self.zn2_spu_hack ^ 0x0008;
        self.zn2_spu_hack = value;
        self.zn2_spu_hack_reads = self.zn2_spu_hack_reads.saturating_add(1);
        value
    }

    /// EEPROM read of the byte at `offset`, recorded for diagnostics.
    pub fn read_at28c16(&mut self, offset: usize) -> (r: u32)
        requires
            old(self).wf(),
            offset < AT28C16_LEN,
        ensures
            r == old(self).at28c16@[offset as int] as u32,
            *final(self) == (ZnBoard {
                at28c16_reads: inc(old(self).at28c16_reads),
                last_at28c16_read_offset: Some(offset as u16),
                last_at28c16_read_value: old(self).at28c16@[offset as int],
                ..*old(self)
            }),
    {
        self.at28c16_reads = self.at28c16_reads.saturating_add(1);
        self.last_at28c16_read_offset = Some(offset as u16);
        self.last_at28c16_read_value = self.at28c16[offset];
        self.at28c16[offset] as u32
    }

    /// Result and new state of reading the register at `address`.
    pub open spec fn spec_read_base(self, address: u32) -> (Self, u32) {
        let p = spec_physical(address);
        if p == 0x1fa0_0000 {
            (self.spec_after_p1_read(), self.spec_p1_value())
        } else if p == 0x1fa0_0100 || p == 0x1fa1_0100 {
            (self, spec_mirrored_input_port(0xffff_ffff))
        } else if p == 0x1fa0_0200 {
            (self.spec_after_service_read(), self.spec_service_value())
        } else if p == 0x1fa0_0300 {
            (self.spec_after_system_read(), self.spec_system_value())
        } else if p == 0x1fa1_0000 {
            (self.spec_after_p3_read(), spec_mirrored_input_port(spec_player3_input(self.input)))
        } else if p == 0x1fa1_0200 {
            (self, 0x0000_0069)
        } else if p == 0x1fa1_0300 {
            (self, self.znsecsel as u32)
        } else if p == 0x1fa2_0000 {
            (self.spec_after_coin_register_read(), self.spec_coin_register_value())
        } else if p == 0x1fa3_0000 || p == 0x1fa4_0000 {
            (self, 0)
        } else if p == 0x1fa6_0000 {
            (
                ZnBoard {
                    zn2_spu_hack: self.zn2_spu_hack ^ 0x0008,
                    zn2_spu_hack_reads: inc(self.zn2_spu_hack_reads),
                    ..self
                },
                (self.zn2_spu_hack ^ 0x0008) as u32,
            )
        } else if 0x1faf_0000 <= p <= 0x1faf_07ff {
            let offset = (p - 0x1faf_0000) as int;
            (
                ZnBoard {
                    at28c16_reads: inc(self.at28c16_reads),
                    last_at28c16_read_offset: Some(offset as u16),
                    last_at28c16_read_value: self.at28c16@[offset],
                    ..self
                },
                self.at28c16@[offset] as u32,
            )
        } else if p == 0x1fb0_0004 {
            (self, self.sound_irq_latch as u32)
        } else if 0x1fb2_0000 <= p <= 0x1fb2_0007 {
            (self, 0xffff)
        } else {
            (self, 0)
        }
    }

    /// Reads the 32-bit register at `address` with its side effects.
    pub fn read_base_u32(&mut self, address: u32) -> (r: u32)
        requires
            old(self).wf(),
        ensures
            (*final(self), r) == old(self).spec_read_base(address),
            final(self).wf(),
    {
        let p = physical_address(address);
        if p == 0x1fa0_0000 {
            self.read_player1_input()
        } else if p == 0x1fa0_0100 {
            mirrored_input_port(active_low_player2_input())
        } else if p == 0x1fa0_0200 {
            self.read_service_input()
        } else if p == 0x1fa0_0300 {
            self.read_system_input()
        } else if p == 0x1fa1_0000 {
            self.read_player3_input()
        } else if p == 0x1fa1_0100 {
            mirrored_input_port(active_low_player4_input())
        } else if p == 0x1fa1_0200 {
            0x0000_0069
        } else if p == 0x1fa1_0300 {
            self.znsecsel as u32
        } else if p == 0x1fa2_0000 {
            self.read_coin_register()
        } else if p == 0x1fa3_0000 || p == 0x1fa4_0000 {
            0
        } else if p == 0x1fa6_0000 {
            self.read_zn2_spu_hack() as u32
        } else if 0x1faf_0000 <= p && p <= 0x1faf_07ff {
            self.read_at28c16((p - 0x1faf_0000) as usize)
        } else if p == 0x1fb0_0004 {
            self.sound_irq_latch as u32
        } else if 0x1fb2_0000 <= p && p <= 0x1fb2_0007 {
            0xffff
        } else {
            0
        }
    }

    /// Register contents used when merging a narrow write, without any read
    /// side effects.
    pub open spec fn spec_read_for_merge(self, address: u32) -> u32 {
        let p = spec_physical(address);
        if p == 0x1fa0_0000 {
            spec_mirrored_input_port(spec_player1_input(self.input, self.spec_legacy_compat()))
        } else if p == 0x1fa0_0100 || p == 0x1fa1_0100 {
            spec_mirrored_input_port(0xffff_ffff)
        } else if p == 0x1fa0_0200 {
            spec_mirrored_input_port(spec_service_input(self.input, self.coin_input_mapping))
        } else if p == 0x1fa0_0300 {
            spec_mirrored_input_port(
                spec_system_input(self.input, self.spec_legacy_compat(), self.coin_input_mapping),
            )
        } else if p == 0x1fa1_0000 {
            spec_mirrored_input_port(spec_player3_input(self.input))
        } else if p == 0x1fa1_0200 {
            0x0000_0069
        } else if p == 0x1fa1_0300 {
            self.znsecsel as u32
        } else if p == 0x1fa2_0000 {
            self.coin as u32
        } else if p == 0x1fa3_0000 || p == 0x1fa4_0000 {
            0
        } else if p == 0x1fa6_0000 {
            self.zn2_spu_hack as u32
        } else if 0x1faf_0000 <= p <= 0x1faf_07ff {
            self.at28c16@[(p - 0x1faf_0000) as int] as u32
        } else if p == 0x1fb0_0004 {
            self.sound_irq_latch as u32
        } else if 0x1fb2_0000 <= p <= 0x1fb2_0007 {
            0xffff
        } else {
            0
        }
    }

    pub fn read_base_u32_for_write_merge(&self, address: u32) -> (r: u32)
        requires
            self.wf(),
        ensures
            r == self.spec_read_for_merge(address),
    {
        let p = physical_address(address);
        if p == 0x1fa0_0000 {
            mirrored_input_port(
                active_low_player1_input(self.input, self.legacy_input_compat_active()),
            )
        } else if p == 0x1fa0_0100 {
            mirrored_input_port(active_low_player2_input())
        } else if p == 0x1fa0_0200 {
            mirrored_input_port(active_low_service_input(self.input, self.coin_input_mapping))
        } else if p == 0x1fa0_0300 {
            mirrored_input_port(
                active_low_system_input(
                    self.input,
                    self.legacy_input_compat_active(),
                    self.coin_input_mapping,
                ),
            )
        } else if p == 0x1fa1_0000 {
            mirrored_input_port(active_low_player3_input(self.input))
        } else if p == 0x1fa1_0100 {
            mirrored_input_port(active_low_player4_input())
        } else if p == 0x1fa1_0200 {
            0x0000_0069
        } else if p == 0x1fa1_0300 {
            self.znsecsel as u32
        } else if p == 0x1fa2_0000 {
            self.coin as u32
        } else if p == 0x1fa3_0000 || p == 0x1fa4_0000 {
            0
        } else if p == 0x1fa6_0000 {
            self.zn2_spu_hack as u32
        } else if 0x1faf_0000 <= p && p <= 0x1faf_07ff {
            self.at28c16[(p - 0x1faf_0000) as usize] as u32
        } else if p == 0x1fb0_0004 {
            self.sound_irq_latch as u32
        } else if 0x1fb2_0000 <= p && p <= 0x1fb2_0007 {
            0xffff
        } else {
            0
        }
    }

    /// The board and the value after a read of `access_len` bytes at
    /// `address`: the register is read whole and the addressed bytes returned.
    #[verifier::opaque]
    pub open spec fn spec_read(self, address: u32, access_len: usize) -> (Self, u32) {
        let base = spec_board_register_base(address);
        let (next, value) = self.spec_read_base(base);
        (next, spec_board_read_lane(value, base, address, access_len))
    }

    /// Reads change neither the held buttons nor the board's shape.
    pub proof fn lemma_read_keeps_input(self, address: u32, access_len: usize)
        ensures
            self.spec_read(address, access_len).0.input == self.input,
            self.spec_read(address, access_len).0.rom_bank == self.rom_bank,
            self.wf() ==> self.spec_read(address, access_len).0.wf(),
    {
        reveal(ZnBoard::spec_read);
    }

    /// A read returns no more bytes than were asked for.
    pub proof fn lemma_read_fits(self, address: u32, access_len: usize)
        ensures
            access_len == 1 ==> self.spec_read(address, access_len).1 <= 0xff,
            access_len == 2 ==> self.spec_read(address, access_len).1 <= 0xffff,
    {
        reveal(ZnBoard::spec_read);
        let base = spec_board_register_base(address);
        let v = self.spec_read_base(base).1;
        let shift = ((spec_physical(address) - spec_physical(base)) * 8) as u32;
        assert((v >> shift) & 0xffu32 <= 0xff) by (bit_vector);
        assert((v >> shift) & 0xffffu32 <= 0xffff) by (bit_vector);
    }

    /// A read of `access_len` bytes at `address`.
    pub fn read(&mut self, address: u32, access_len: usize) -> (r: u32)
        requires
            old(self).wf(),
        ensures
            final(self).wf(),
            (*final(self), r) == old(self).spec_read(address, access_len),
    {
        proof {
            reveal(ZnBoard::spec_read);
        }
        let base = board_register_base(address);
        let value = self.read_base_u32(base);
        board_read_lane(value, base, address, access_len)
    }
}

/// `counter + 1` when `condition`, saturating.
pub fn increment_if(counter: &mut u64, condition: bool)
    ensures
        *final(counter) == inc_if(*old(counter), condition),
{
    if condition {
        *counter = counter.saturating_add(1);
    }
}

impl ZnBoard {
    /// Coin register outputs: counters on bits 0 and 4 (edges counted on
    /// rising), lockouts on bits 1 and 5.
    pub open spec fn spec_after_coin_write(self, data: u8) -> Self {
        let counter_0 = data & 0x01 != 0;
        let counter_1 = data & 0x10 != 0;
        ZnBoard {
            coin: data,
            coin_register_writes: inc(self.coin_register_writes),
            coin_counter_0_edges: inc_if(self.coin_counter_0_edges, counter_0 && !self.coin_counter_0),
            coin_counter_1_edges: inc_if(self.coin_counter_1_edges, counter_1 && !self.coin_counter_1),
            coin_counter_0: counter_0,
            coin_counter_1: counter_1,
            coin_lockout_0: data & 0x02 != 0,
            coin_lockout_1: data & 0x20 != 0,
            ..self
        }
    }

    pub fn write_coin_register(&mut self, data: u8)
        ensures
            *final(self) == old(self).spec_after_coin_write(data),
    {
        self.coin = data;
        self.coin_register_writes = self.coin_register_writes.saturating_add(1);
        let counter_0 = data & 0x01 != 0;
        let counter_1 = data & 0x10 != 0;
        if counter_0 && !self.coin_counter_0 {
            self.coin_counter_0_edges = self.coin_counter_0_edges.saturating_add(1);
        }
        if counter_1 && !self.coin_counter_1 {
            self.coin_counter_1_edges = self.coin_counter_1_edges.saturating_add(1);
        }
        self.coin_counter_0 = counter_0;
        self.coin_counter_1 = counter_1;
        self.coin_lockout_0 = data & 0x02 != 0;
        self.coin_lockout_1 = data & 0x20 != 0;
    }

    /// ZNSECSEL write: security selects, with the ROM bank in bits 0 and 1.
    pub open spec fn spec_after_znsecsel_write(self, value: u32) -> Self {
        ZnBoard {
            znsecsel: value as u8,
            znsecsel_writes: inc(self.znsecsel_writes),
            rom_bank: (value as u8) & 0x03,
            ..self
        }
    }

    /// Bookkeeping of an EEPROM byte write at `offset` (the contents aside).
    pub open spec fn spec_after_eeprom_write(self, offset: int, value: u32) -> Self {
        ZnBoard {
            at28c16_writes: inc(self.at28c16_writes),
            last_at28c16_write_offset: Some(offset as u16),
            last_at28c16_write_value: value as u8,
            ..self
        }
    }

    /// `result` is this board after a write of `value` to the register at
    /// `address`, the EEPROM contents aside: ZNSECSEL, the coin register, the
    /// EEPROM window and the sound latch take writes; the rest ignore them.
    pub open spec fn spec_write_effect(self, address: u32, value: u32, result: Self) -> bool {
        let p = spec_physical(address);
        if p == 0x1fa1_0300 {
            result == self.spec_after_znsecsel_write(value)
        } else if p == 0x1fa2_0000 {
            result == self.spec_after_coin_write(value as u8)
        } else if 0x1faf_0000 <= p <= 0x1faf_07ff {
            result == (ZnBoard {
                at28c16: result.at28c16,
                ..self.spec_after_eeprom_write(p - 0x1faf_0000, value)
            })
        } else if p == 0x1fb0_0004 {
            result == (ZnBoard { sound_irq_latch: value as u8, ..self })
        } else {
            result == self
        }
    }

    /// EEPROM contents after writing `value` to the register at `address`.
    pub open spec fn spec_eeprom_after_write(self, address: u32, value: u32) -> Seq<u8> {
        let p = spec_physical(address);
        if 0x1faf_0000 <= p <= 0x1faf_07ff {
            self.at28c16@.update((p - 0x1faf_0000) as int, value as u8)
        } else {
            self.at28c16@
        }
    }

    /// ZNSECSEL: security selects, with the ROM bank in bits 0 and 1.
    pub fn write_znsecsel(&mut self, value: u32)
        ensures
            *final(self) == old(self).spec_after_znsecsel_write(value),
    {
        self.znsecsel = value as u8;
        self.znsecsel_writes = self.znsecsel_writes.saturating_add(1);
        self.rom_bank = self.znsecsel & 0x03;
    }

    /// Stores one EEPROM byte.
    pub fn write_at28c16(&mut self, offset: usize, value: u32)
        requires
            old(self).wf(),
            offset < AT28C16_LEN,
        ensures
            final(self).wf(),
            final(self).at28c16@ == old(self).at28c16@.update(offset as int, value as u8),
            *final(self) == (ZnBoard {
                at28c16: final(self).at28c16,
                ..old(self).spec_after_eeprom_write(offset as int, value)
            }),
    {
        let byte = value as u8;
        self.at28c16.set(offset, byte);
        self.at28c16_writes = self.at28c16_writes.saturating_add(1);
        self.last_at28c16_write_offset = Some(offset as u16);
        self.last_at28c16_write_value = byte;
    }

    /// Writes one register of the board window; writes to unknown registers
    /// are ignored.
    pub fn write_base_u32(&mut self, address: u32, value: u32)
        requires
            old(self).wf(),
        ensures
            final(self).wf(),
            final(self).at28c16@ == old(self).spec_eeprom_after_write(address, value),
            old(self).spec_write_effect(address, value, *final(self)),
    {
        let p = physical_address(address);
        if p == 0x1fa1_0300 {
            self.write_znsecsel(value);
        } else if p == 0x1fa2_0000 {
            self.write_coin_register(value as u8);
        } else if 0x1faf_0000 <= p && p <= 0x1faf_07ff {
            self.write_at28c16((p - 0x1faf_0000) as usize, value);
        } else if p == 0x1fb0_0004 {
            self.sound_irq_latch = value as u8;
        }
    }

    /// Ring position and fill after recording one coin register write.
    pub open spec fn spec_after_record(self) -> Self {
        ZnBoard {
            recent_coin_register_write_cursor: ((self.recent_coin_register_write_cursor + 1)
                % ZN_BOARD_RECENT_COIN_REGISTER_WRITES as int) as usize,
            recent_coin_register_write_count: if self.recent_coin_register_write_count + 1
                > ZN_BOARD_RECENT_COIN_REGISTER_WRITES {
                ZN_BOARD_RECENT_COIN_REGISTER_WRITES
            } else {
                (self.recent_coin_register_write_count + 1) as usize
            },
            ..self
        }
    }

    pub open spec fn spec_coin_event(
        address: u32,
        access_len: usize,
        raw_value: u32,
        merged_value: u32,
        pc: Option<u32>,
        vblank: u64,
        cycles: u64,
    ) -> CoinRegisterWriteEvent {
        CoinRegisterWriteEvent {
            vblank,
            cycles,
            pc,
            address,
            access_len,
            raw_value,
            merged_value,
            data: merged_value as u8,
        }
    }

    pub fn record_coin_register_write(
        &mut self,
        address: u32,
        access_len: usize,
        raw_value: u32,
        merged_value: u32,
        pc: Option<u32>,
        vblank: u64,
        cycles: u64,
    )
        requires
            old(self).wf(),
        ensures
            final(self).wf(),
            final(self).recent_coin_register_writes@ == old(self).recent_coin_register_writes@.update(
                old(self).recent_coin_register_write_cursor as int,
                Self::spec_coin_event(address, access_len, raw_value, merged_value, pc, vblank, cycles),
            ),
            *final(self) == (ZnBoard {
                recent_coin_register_writes: final(self).recent_coin_register_writes,
                ..old(self).spec_after_record()
            }),
    {
        let event = CoinRegisterWriteEvent {
            vblank,
            cycles,
            pc,
            address,
            access_len,
            raw_value,
            merged_value,
            data: merged_value as u8,
        };
        let cursor = self.recent_coin_register_write_cursor;
        self.recent_coin_register_writes.set(cursor, event);
        self.recent_coin_register_write_cursor = (cursor + 1) % ZN_BOARD_RECENT_COIN_REGISTER_WRITES;
        let count = self.recent_coin_register_write_count + 1;
        self.recent_coin_register_write_count = if count > ZN_BOARD_RECENT_COIN_REGISTER_WRITES {
            ZN_BOARD_RECENT_COIN_REGISTER_WRITES
        } else {
            count
        };
    }

    /// `result` is this board after a write of `access_len` bytes at
    /// `address` by `pc`: the addressed bytes are merged into the register's
    /// current value, coin register writes are recorded, and the merged value
    /// is stored.
    pub open spec fn spec_access_write(
        self,
        address: u32,
        value: u32,
        access_len: usize,
        pc: Option<u32>,
        vblank: u64,
        cycles: u64,
        result: Self,
    ) -> bool {
        let base = spec_board_register_base(address);
        let merged = spec_board_write_lane(
            self.spec_read_for_merge(base),
            base,
            address,
            value,
            access_len,
        );
        let coin = spec_physical(base) == 0x1fa2_0000;
        &&& result.at28c16@ == self.spec_eeprom_after_write(base, merged)
        &&& if coin {
            &&& result.recent_coin_register_writes@
                == self.recent_coin_register_writes@.update(
                self.recent_coin_register_write_cursor as int,
                Self::spec_coin_event(address, access_len, value, merged, pc, vblank, cycles),
            )
            &&& result == (ZnBoard {
                recent_coin_register_writes: result.recent_coin_register_writes,
                ..self.spec_after_record().spec_after_coin_write(merged as u8)
            })
        } else {
            self.spec_write_effect(base, merged, result)
        }
    }

    /// A write of `access_len` bytes at `address`.
    pub fn write(
        &mut self,
        address: u32,
        value: u32,
        access_len: usize,
        pc: Option<u32>,
        vblank: u64,
        cycles: u64,
    )
        requires
            old(self).wf(),
        ensures
            final(self).wf(),
            old(self).spec_access_write(address, value, access_len, pc, vblank, cycles, *final(self)),
    {
        let base = board_register_base(address);
        let merged = board_write_lane(
            self.read_base_u32_for_write_merge(base),
            base,
            address,
            value,
            access_len,
        );
        if physical_address(base) == 0x1fa2_0000 {
            self.record_coin_register_write(address, access_len, value, merged, pc, vblank, cycles);
        }
        self.write_base_u32(base, merged);
    }

    /// New buttons: a coin press counts an insert edge; on legacy wiring coin
    /// and start presses also latch for a number of reads.
    pub open spec fn spec_after_set_input(self, input: ActionButtons) -> Self {
        let coin_edge = input.coin && !self.coin_input_latched;
        let legacy = self.spec_legacy_compat();
        let start_edge = input.start && !self.input.start && legacy;
        ZnBoard {
            coin_insert_edges: inc_if(self.coin_insert_edges, coin_edge),
            legacy_coin_read_latch: if coin_edge && legacy {
                self.legacy_coin_read_latch | 0x01
            } else {
                self.legacy_coin_read_latch
            },
            legacy_system_coin_latch_reads: if coin_edge && legacy {
                LEGACY_ZINC_SYSTEM_EDGE_LATCH_READS
            } else {
                self.legacy_system_coin_latch_reads
            },
            legacy_system_coin_latch_edges: inc_if(
                self.legacy_system_coin_latch_edges,
                coin_edge && legacy,
            ),
            legacy_system_start_latch_reads: if start_edge {
                LEGACY_ZINC_SYSTEM_EDGE_LATCH_READS
            } else {
                self.legacy_system_start_latch_reads
            },
            legacy_system_start_latch_edges: inc_if(self.legacy_system_start_latch_edges, start_edge),
            coin_input_latched: input.coin,
            input,
            ..self
        }
    }

    pub fn set_input(&mut self, input: ActionButtons)
        ensures
            *final(self) == old(self).spec_after_set_input(input),
    {
        if input.coin && !self.coin_input_latched {
            self.coin_insert_edges = self.coin_insert_edges.saturating_add(1);
            if self.legacy_input_compat_active() {
                self.legacy_coin_read_latch = self.legacy_coin_read_latch | 0x01;
                self.legacy_system_coin_latch_reads = LEGACY_ZINC_SYSTEM_EDGE_LATCH_READS;
                self.legacy_system_coin_latch_edges = self.legacy_system_coin_latch_edges.saturating_add(1);
            }
        }
        if input.start && !self.input.start && self.legacy_input_compat_active() {
            self.legacy_system_start_latch_reads = LEGACY_ZINC_SYSTEM_EDGE_LATCH_READS;
            self.legacy_system_start_latch_edges = self.legacy_system_start_latch_edges.saturating_add(1);
        }
        self.coin_input_latched = input.coin;
        self.input = input;
    }

    pub open spec fn spec_input_activity(self) -> NativeInputActivity {
        NativeInputActivity {
            p1_input_reads: self.p1_input_reads,
            p1_up_active_reads: self.p1_up_active_reads,
            p1_down_active_reads: self.p1_down_active_reads,
            p1_left_active_reads: self.p1_left_active_reads,
            p1_right_active_reads: self.p1_right_active_reads,
            p1_start_active_reads: self.p1_start_active_reads,
            p1_punch_active_reads: self.p1_punch_active_reads,
            p1_kick_active_reads: self.p1_kick_active_reads,
            p1_beast_active_reads: self.p1_beast_active_reads,
            p3_input_reads: self.p3_input_reads,
            p3_guard_active_reads: self.p3_guard_active_reads,
            system_input_reads: self.system_input_reads,
            system_coin_active_reads: self.system_coin_active_reads,
            system_service_active_reads: self.system_service_active_reads,
            system_start_active_reads: self.system_start_active_reads,
            coin_register_reads: self.coin_register_reads,
            coin_register_active_reads: self.coin_register_active_reads,
            coin_register_writes: self.coin_register_writes,
            coin_insert_edges: self.coin_insert_edges,
            coin_counter_0_edges: self.coin_counter_0_edges,
            coin_counter_1_edges: self.coin_counter_1_edges,
            legacy_system_coin_latch_edges: self.legacy_system_coin_latch_edges,
            legacy_system_start_latch_edges: self.legacy_system_start_latch_edges,
            native_credit_adapter_writes: self.native_credit_adapter_writes,
            native_credit_adapter_edges: self.native_credit_adapter_edges,
            last_system_input: self.last_system_input,
            last_coin_register: self.last_coin_register,
        }
    }

    /// The board's polling counters.
    pub fn input_activity(&self) -> (r: NativeInputActivity)
        ensures
            r == self.spec_input_activity(),
    {
        NativeInputActivity {
            p1_input_reads: self.p1_input_reads,
            p1_up_active_reads: self.p1_up_active_reads,
            p1_down_active_reads: self.p1_down_active_reads,
            p1_left_active_reads: self.p1_left_active_reads,
            p1_right_active_reads: self.p1_right_active_reads,
            p1_start_active_reads: self.p1_start_active_reads,
            p1_punch_active_reads: self.p1_punch_active_reads,
            p1_kick_active_reads: self.p1_kick_active_reads,
            p1_beast_active_reads: self.p1_beast_active_reads,
            p3_input_reads: self.p3_input_reads,
            p3_guard_active_reads: self.p3_guard_active_reads,
            system_input_reads: self.system_input_reads,
            system_coin_active_reads: self.system_coin_active_reads,
            system_service_active_reads: self.system_service_active_reads,
            system_start_active_reads: self.system_start_active_reads,
            coin_register_reads: self.coin_register_reads,
            coin_register_active_reads: self.coin_register_active_reads,
            coin_register_writes: self.coin_register_writes,
            coin_insert_edges: self.coin_insert_edges,
            coin_counter_0_edges: self.coin_counter_0_edges,
            coin_counter_1_edges: self.coin_counter_1_edges,
            legacy_system_coin_latch_edges: self.legacy_system_coin_latch_edges,
            legacy_system_start_latch_edges: self.legacy_system_start_latch_edges,
            native_credit_adapter_writes: self.native_credit_adapter_writes,
            native_credit_adapter_edges: self.native_credit_adapter_edges,
            last_system_input: self.last_system_input,
            last_coin_register: self.last_coin_register,
        }
    }

    /// Selects the coin wiring by name; `false` (and no change) when the name
    /// is not one.
    pub fn set_coin_input_mapping_name(&mut self, value: &str) -> (r: bool)
        ensures
            r == NativeCoinInputMapping::spec_parse(value@) is Some,
            *final(self) == (match NativeCoinInputMapping::spec_parse(value@) {
                Some(m) => ZnBoard { coin_input_mapping: m, ..*old(self) },
                None => *old(self),
            }),
    {
        match NativeCoinInputMapping::parse(value) {
            Some(mapping) => {
                self.coin_input_mapping = mapping;
                true
            },
            None => false,
        }
    }

    /// Sets the bit the credit adapter projects; zero is refused.
    pub fn set_native_credit_adapter_input_bit(&mut self, value: u32) -> (r: bool)
        ensures
            r == (value != 0),
            *final(self) == (if value != 0 {
                ZnBoard { native_credit_adapter_input_bit: value, ..*old(self) }
            } else {
                *old(self)
            }),
    {
        if value == 0 {
            return false;
        }
        self.native_credit_adapter_input_bit = value;
        true
    }

    /// Replaces the projection rules by those an option value selects;
    /// `false` (and no change) when the value does not parse.
    pub fn set_native_credit_projection_name(&mut self, value: &str) -> (r: bool)
        requires
            old(self).wf(),
        ensures
            final(self).wf(),
            r == spec_parse_projection_rules(value@) is Some,
            match spec_parse_projection_rules(value@) {
                Some(rules) => final(self).native_credit_projection_rules@ == rules && *final(self)
                    == (ZnBoard {
                    native_credit_projection_rules: final(self).native_credit_projection_rules,
                    ..*old(self)
                }),
                None => *final(self) == *old(self),
            },
    {
        match parse_native_credit_projection_rules(value) {
            Some(rules) => {
                self.native_credit_projection_rules = rules;
                true
            },
            None => false,
        }
    }

    /// The value the coin adapter stores in place of a scratchpad store of
    /// `raw_value`, if any: the first rule covering the store applies while
    /// its bucket still has writes pending, ORing in the rule's mask (or the
    /// adapter's input bit) cut to the access width.
    #[verifier::opaque]
    pub open spec fn spec_adapter_value(
        self,
        address: u32,
        raw_value: u32,
        access_len: usize,
        pc: Option<u32>,
    ) -> Option<u32> {
        match spec_first_matching_rule(self.native_credit_projection_rules@, address, access_len, pc, 0) {
            None => None,
            Some(i) => {
                let rule = self.native_credit_projection_rules@[i];
                let pending = if rule.bucket == NativeCreditProjectionBucket::Current {
                    self.native_credit_adapter_pending_writes
                } else {
                    self.native_credit_adapter_edge_projection_writes
                };
                if pending == 0 {
                    None
                } else {
                    let mask = match rule.mask {
                        Some(m) => m,
                        None => self.native_credit_adapter_input_bit,
                    };
                    Some(raw_value | (mask & spec_access_len_mask(access_len)))
                }
            },
        }
    }

    /// What the coin adapter does to a scratchpad store: `Some(value)` to
    /// store instead, with the adapter's bookkeeping in `result`.
    #[verifier::opaque]
    pub open spec fn spec_adapter_effect(
        self,
        address: u32,
        raw_value: u32,
        access_len: usize,
        pc: Option<u32>,
        vblank: u64,
        cycles: u64,
        result: Self,
        stored: Option<u32>,
    ) -> bool {
        &&& stored == self.spec_adapter_value(address, raw_value, access_len, pc)
        &&& match spec_first_matching_rule(self.native_credit_projection_rules@, address, access_len, pc, 0) {
            None => result == self && stored is None,
            Some(i) => {
                let rule = self.native_credit_projection_rules@[i];
                let current = rule.bucket == NativeCreditProjectionBucket::Current;
                let pending = if current {
                    self.native_credit_adapter_pending_writes
                } else {
                    self.native_credit_adapter_edge_projection_writes
                };
                if pending == 0 {
                    &&& stored is None
                    &&& result == (if current {
                        ZnBoard {
                            native_credit_adapter_active: false,
                            native_credit_adapter_edge_projection_writes: 0,
                            ..self
                        }
                    } else {
                        self
                    })
                } else {
                    let mask = match rule.mask {
                        Some(m) => m,
                        None => self.native_credit_adapter_input_bit,
                    };
                    let value = raw_value | (mask & spec_access_len_mask(access_len));
                    let edge = !self.native_credit_adapter_active && current;
                    &&& stored == Some(value)
                    &&& result == ZnBoard {
                        native_credit_adapter_pending_writes: if current {
                            (pending - 1) as u8
                        } else {
                            self.native_credit_adapter_pending_writes
                        },
                        native_credit_adapter_edge_projection_writes: if edge {
                            BR2_NATIVE_CREDIT_ADAPTER_EDGE_PROJECTION_WRITES
                        } else if current {
                            self.native_credit_adapter_edge_projection_writes
                        } else {
                            (pending - 1) as u8
                        },
                        native_credit_adapter_writes: inc(self.native_credit_adapter_writes),
                        native_credit_adapter_edges: inc_if(self.native_credit_adapter_edges, edge),
                        native_credit_adapter_active: true,
                        native_credit_adapter_last_raw_value: raw_value,
                        native_credit_adapter_last_value: value,
                        native_credit_adapter_last_pc: pc,
                        native_credit_adapter_last_vblank: vblank,
                        native_credit_adapter_last_cycles: cycles,
                        ..self
                    }
                }
            },
        }
    }

    /// Index of the first projection rule covering the store.
    pub fn first_matching_rule(&self, address: u32, access_len: usize, pc: Option<u32>) -> (r: Option<usize>)
        ensures
            spec_first_matching_rule(self.native_credit_projection_rules@, address, access_len, pc, 0)
                == (match r {
                Some(k) => Some(k as int),
                None => None,
            }),
    {
        let rules = &self.native_credit_projection_rules;
        let mut i: usize = 0;
        while i < rules.len()
            invariant
                i <= rules@.len(),
                rules@ == self.native_credit_projection_rules@,
                spec_first_matching_rule(rules@, address, access_len, pc, 0)
                    == spec_first_matching_rule(rules@, address, access_len, pc, i as int),
            decreases rules@.len() - i,
        {
            if rules[i].matches(address, access_len, pc) {
                return Some(i);
            }
            i = i + 1;
        }
        None
    }

    /// A scratchpad store the adapter covers: while writes are pending, the
    /// coin bit is ORed into the stored value.
    pub fn native_credit_adapter_scratchpad_write_value(
        &mut self,
        physical_scratchpad_address: u32,
        raw_value: u32,
        access_len: usize,
        pc: Option<u32>,
        vblank: u64,
        cycles: u64,
    ) -> (r: Option<u32>)
        ensures
            r == old(self).spec_adapter_value(physical_scratchpad_address, raw_value, access_len, pc),
            old(self).spec_adapter_effect(
                physical_scratchpad_address,
                raw_value,
                access_len,
                pc,
                vblank,
                cycles,
                *final(self),
                r,
            ),
    {
        proof {
            reveal(ZnBoard::spec_adapter_value);
            reveal(ZnBoard::spec_adapter_effect);
        }
        let index = match self.first_matching_rule(physical_scratchpad_address, access_len, pc) {
            Some(index) => index,
            None => return None,
        };
        proof {
            lemma_first_matching_rule(
                self.native_credit_projection_rules@,
                physical_scratchpad_address,
                access_len,
                pc,
                0,
            );
        }
        let rule = self.native_credit_projection_rules[index];
        let current = match rule.bucket {
            NativeCreditProjectionBucket::Current => true,
            NativeCreditProjectionBucket::Edge => false,
        };
        let pending = if current {
            self.native_credit_adapter_pending_writes
        } else {
            self.native_credit_adapter_edge_projection_writes
        };
        if pending == 0 {
            if current {
                self.native_credit_adapter_active = false;
                self.native_credit_adapter_edge_projection_writes = 0;
            }
            return None;
        }
        if current {
            self.native_credit_adapter_pending_writes = pending - 1;
        } else {
            self.native_credit_adapter_edge_projection_writes = pending - 1;
        }
        let input_bit = rule.effective_mask(self.native_credit_adapter_input_bit)
            & native_credit_access_len_mask(access_len);
        let value = raw_value | input_bit;
        self.native_credit_adapter_writes = self.native_credit_adapter_writes.saturating_add(1);
        if !self.native_credit_adapter_active && current {
            self.native_credit_adapter_edges = self.native_credit_adapter_edges.saturating_add(1);
            self.native_credit_adapter_edge_projection_writes =
                BR2_NATIVE_CREDIT_ADAPTER_EDGE_PROJECTION_WRITES;
        }
        self.native_credit_adapter_active = true;
        self.native_credit_adapter_last_raw_value = raw_value;
        self.native_credit_adapter_last_value = value;
        self.native_credit_adapter_last_pc = pc;
        self.native_credit_adapter_last_vblank = vblank;
        self.native_credit_adapter_last_cycles = cycles;
        Some(value)
    }

    /// The recorded coin writes, oldest first.
    pub open spec fn spec_recent_coin_write_events(self) -> Seq<CoinRegisterWriteEvent> {
        let count = self.recent_coin_register_write_count;
        let start = if count == ZN_BOARD_RECENT_COIN_REGISTER_WRITES {
            self.recent_coin_register_write_cursor as int
        } else {
            0
        };
        Seq::new(
            count as nat,
            |k: int|
                self.recent_coin_register_writes@[(start + k) % (
                ZN_BOARD_RECENT_COIN_REGISTER_WRITES as int)],
        )
    }

    pub open spec fn spec_recent_coin_register_writes_json(self) -> Seq<char> {
        join_commas(self.spec_recent_coin_write_events().map_values(|e: CoinRegisterWriteEvent| e.spec_json()))
    }

    /// The recorded coin writes, oldest first, as comma-separated JSON objects.
    pub fn recent_coin_register_writes_json(&self) -> (r: String)
        requires
            self.wf(),
        ensures
            r@ == self.spec_recent_coin_register_writes_json(),
    {
        let count = self.recent_coin_register_write_count;
        let start = if count == ZN_BOARD_RECENT_COIN_REGISTER_WRITES {
            self.recent_coin_register_write_cursor
        } else {
            0
        };
        let ghost events = self.spec_recent_coin_write_events();
        let mut out = String::new();
        let mut offset: usize = 0;
        while offset < count
            invariant
                self.wf(),
                count == self.recent_coin_register_write_count,
                start < ZN_BOARD_RECENT_COIN_REGISTER_WRITES,
                start == (if count == ZN_BOARD_RECENT_COIN_REGISTER_WRITES {
                    self.recent_coin_register_write_cursor
                } else {
                    0
                }),
                events == self.spec_recent_coin_write_events(),
                offset <= count,
                out@ == join_commas(
                    events.take(offset as int).map_values(|e: CoinRegisterWriteEvent| e.spec_json()),
                ),
            decreases count - offset,
        {
            let index = (start + offset) % ZN_BOARD_RECENT_COIN_REGISTER_WRITES;
            let part = self.recent_coin_register_writes[index].json();
            proof {
                let done = events.take(offset as int).map_values(
                    |e: CoinRegisterWriteEvent| e.spec_json(),
                );
                lemma_join_commas_push(done, part@);
                assert(events.take(offset + 1).map_values(
                    |e: CoinRegisterWriteEvent| e.spec_json(),
                ) =~= done.push(part@));
            }
            push_joined(&mut out, offset, part.as_str());
            offset = offset + 1;
        }
        proof {
            assert(events.take(count as int) =~= events);
        }
        out
    }

    pub open spec fn spec_last_coin_register_write_json(self) -> Seq<char> {
        if self.recent_coin_register_write_count == 0 {
            "null"@
        } else {
            let index = if self.recent_coin_register_write_cursor == 0 {
                ZN_BOARD_RECENT_COIN_REGISTER_WRITES - 1
            } else {
                self.recent_coin_register_write_cursor - 1
            };
            self.recent_coin_register_writes@[index].spec_json()
        }
    }

    /// The most recent coin register write, or `null`.
    pub fn last_coin_register_write_json(&self) -> (r: String)
        requires
            self.wf(),
        ensures
            r@ == self.spec_last_coin_register_write_json(),
    {
        if self.recent_coin_register_write_count == 0 {
            return String::from_str("null");
        }
        let index = match self.recent_coin_register_write_cursor.checked_sub(1) {
            Some(index) => index,
            None => ZN_BOARD_RECENT_COIN_REGISTER_WRITES - 1,
        };
        self.recent_coin_register_writes[index].json()
    }

    pub open spec fn spec_projection_rules_json(self) -> Seq<char> {
        join_commas(
            self.native_credit_projection_rules@.map_values(|r: NativeCreditProjectionRule| r.spec_json()),
        )
    }

    /// The projection rules as comma-separated JSON objects.
    pub fn native_credit_projection_rules_json(&self) -> (r: String)
        ensures
            r@ == self.spec_projection_rules_json(),
    {
        let rules = &self.native_credit_projection_rules;
        let mut out = String::new();
        let mut i: usize = 0;
        while i < rules.len()
            invariant
                rules@ == self.native_credit_projection_rules@,
                i <= rules@.len(),
                out@ == join_commas(
                    rules@.take(i as int).map_values(|r: NativeCreditProjectionRule| r.spec_json()),
                ),
            decreases rules@.len() - i,
        {
            let part = rules[i].json();
            proof {
                let done = rules@.take(i as int).map_values(
                    |r: NativeCreditProjectionRule| r.spec_json(),
                );
                lemma_join_commas_push(done, part@);
                assert(rules@.take(i + 1).map_values(
                    |r: NativeCreditProjectionRule| r.spec_json(),
                ) =~= done.push(part@));
            }
            push_joined(&mut out, i, part.as_str());
            i = i + 1;
        }
        proof {
            assert(rules@.take(rules@.len() as int) =~= rules@);
        }
        out
    }

    pub open spec fn spec_json(self) -> Seq<char> {
        "{\"rom_bank\":"@
            + dec((self.rom_bank) as nat)
            + ",\"znsecsel\":"@
            + dec((self.znsecsel) as nat)
            + ",\"coin_input_mapping\":\""@
            + (self.coin_input_mapping.spec_name())
            + "\",\"coin\":"@
            + dec((self.coin) as nat)
            + ",\"coin_insert_edges\":"@
            + dec((self.coin_insert_edges) as nat)
            + ",\"legacy_system_coin_latch_reads\":"@
            + dec((self.legacy_system_coin_latch_reads) as nat)
            + ",\"legacy_system_start_latch_reads\":"@
            + dec((self.legacy_system_start_latch_reads) as nat)
            + ",\"legacy_system_coin_latch_edges\":"@
            + dec((self.legacy_system_coin_latch_edges) as nat)
            + ",\"legacy_system_start_latch_edges\":"@
            + dec((self.legacy_system_start_latch_edges) as nat)
            + ",\"native_credit_adapter_writes\":"@
            + dec((self.native_credit_adapter_writes) as nat)
            + ",\"native_credit_adapter_edges\":"@
            + dec((self.native_credit_adapter_edges) as nat)
            + ",\"sound_irq_latch\":"@
            + dec((self.sound_irq_latch) as nat)
            + ",\"zn2_spu_hack_reads\":"@
            + dec((self.zn2_spu_hack_reads) as nat)
            + ",\"zn2_spu_hack_value\":"@
            + dec((self.zn2_spu_hack) as nat)
            + ",\"zn2_spu_hack_value_hex\":\"0x"@
            + hex((self.zn2_spu_hack) as nat, 4)
            + "\",\"p1_input_reads\":"@
            + dec((self.p1_input_reads) as nat)
            + ",\"p1_up_active_reads\":"@
            + dec((self.p1_up_active_reads) as nat)
            + ",\"p1_down_active_reads\":"@
            + dec((self.p1_down_active_reads) as nat)
            + ",\"p1_left_active_reads\":"@
            + dec((self.p1_left_active_reads) as nat)
            + ",\"p1_right_active_reads\":"@
            + dec((self.p1_right_active_reads) as nat)
            + ",\"p1_start_active_reads\":"@
            + dec((self.p1_start_active_reads) as nat)
            + ",\"p1_punch_active_reads\":"@
            + dec((self.p1_punch_active_reads) as nat)
            + ",\"p1_kick_active_reads\":"@
            + dec((self.p1_kick_active_reads) as nat)
            + ",\"p1_beast_active_reads\":"@
            + dec((self.p1_beast_active_reads) as nat)
            + ",\"p3_input_reads\":"@
            + dec((self.p3_input_reads) as nat)
            + ",\"p3_guard_active_reads\":"@
            + dec((self.p3_guard_active_reads) as nat)
            + ",\"system_input_reads\":"@
            + dec((self.system_input_reads) as nat)
            + ",\"system_coin_active_reads\":"@
            + dec((self.system_coin_active_reads) as nat)
            + ",\"system_service_active_reads\":"@
            + dec((self.system_service_active_reads) as nat)
            + ",\"system_start_active_reads\":"@
            + dec((self.system_start_active_reads) as nat)
            + ",\"coin_register_reads\":"@
            + dec((self.coin_register_reads) as nat)
            + ",\"coin_register_active_reads\":"@
            + dec((self.coin_register_active_reads) as nat)
            + ",\"last_p1_input\":"@
            + dec((self.last_p1_input) as nat)
            + ",\"last_p1_input_hex\":\"0x"@
            + hex((self.last_p1_input) as nat, 8)
            + "\",\"last_p3_input\":"@
            + dec((self.last_p3_input) as nat)
            + ",\"last_p3_input_hex\":\"0x"@
            + hex((self.last_p3_input) as nat, 8)
            + "\",\"last_system_input\":"@
            + dec((self.last_system_input) as nat)
            + ",\"last_system_input_hex\":\"0x"@
            + hex((self.last_system_input) as nat, 8)
            + "\",\"last_coin_register\":"@
            + dec((self.last_coin_register) as nat)
            + ",\"last_coin_register_hex\":\"0x"@
            + hex((self.last_coin_register) as nat, 8)
            + "\"}"@
    }

    /// Register values and read counters as a JSON object.
    pub fn json(&self) -> (r: String)
        ensures
            r@ == self.spec_json(),
    {
        let mut out = String::from_str("{\"rom_bank\":");
        push_dec(&mut out, (self.rom_bank) as u64);
        out.append(",\"znsecsel\":");
        push_dec(&mut out, (self.znsecsel) as u64);
        out.append(",\"coin_input_mapping\":\"");
        out.append(self.coin_input_mapping.name());
        out.append("\",\"coin\":");
        push_dec(&mut out, (self.coin) as u64);
        out.append(",\"coin_insert_edges\":");
        push_dec(&mut out, (self.coin_insert_edges) as u64);
        out.append(",\"legacy_system_coin_latch_reads\":");
        push_dec(&mut out, (self.legacy_system_coin_latch_reads) as u64);
        out.append(",\"legacy_system_start_latch_reads\":");
        push_dec(&mut out, (self.legacy_system_start_latch_reads) as u64);
        out.append(",\"legacy_system_coin_latch_edges\":");
        push_dec(&mut out, (self.legacy_system_coin_latch_edges) as u64);
        out.append(",\"legacy_system_start_latch_edges\":");
        push_dec(&mut out, (self.legacy_system_start_latch_edges) as u64);
        out.append(",\"native_credit_adapter_writes\":");
        push_dec(&mut out, (self.native_credit_adapter_writes) as u64);
        out.append(",\"native_credit_adapter_edges\":");
        push_dec(&mut out, (self.native_credit_adapter_edges) as u64);
        out.append(",\"sound_irq_latch\":");
        push_dec(&mut out, (self.sound_irq_latch) as u64);
        out.append(",\"zn2_spu_hack_reads\":");
        push_dec(&mut out, (self.zn2_spu_hack_reads) as u64);
        out.append(",\"zn2_spu_hack_value\":");
        push_dec(&mut out, (self.zn2_spu_hack) as u64);
        out.append(",\"zn2_spu_hack_value_hex\":\"0x");
        push_hex(&mut out, (self.zn2_spu_hack) as u64, 4);
        out.append("\",\"p1_input_reads\":");
        push_dec(&mut out, (self.p1_input_reads) as u64);
        out.append(",\"p1_up_active_reads\":");
        push_dec(&mut out, (self.p1_up_active_reads) as u64);
        out.append(",\"p1_down_active_reads\":");
        push_dec(&mut out, (self.p1_down_active_reads) as u64);
        out.append(",\"p1_left_active_reads\":");
        push_dec(&mut out, (self.p1_left_active_reads) as u64);
        out.append(",\"p1_right_active_reads\":");
        push_dec(&mut out, (self.p1_right_active_reads) as u64);
        out.append(",\"p1_start_active_reads\":");
        push_dec(&mut out, (self.p1_start_active_reads) as u64);
        out.append(",\"p1_punch_active_reads\":");
        push_dec(&mut out, (self.p1_punch_active_reads) as u64);
        out.append(",\"p1_kick_active_reads\":");
        push_dec(&mut out, (self.p1_kick_active_reads) as u64);
        out.append(",\"p1_beast_active_reads\":");
        push_dec(&mut out, (self.p1_beast_active_reads) as u64);
        out.append(",\"p3_input_reads\":");
        push_dec(&mut out, (self.p3_input_reads) as u64);
        out.append(",\"p3_guard_active_reads\":");
        push_dec(&mut out, (self.p3_guard_active_reads) as u64);
        out.append(",\"system_input_reads\":");
        push_dec(&mut out, (self.system_input_reads) as u64);
        out.append(",\"system_coin_active_reads\":");
        push_dec(&mut out, (self.system_coin_active_reads) as u64);
        out.append(",\"system_service_active_reads\":");
        push_dec(&mut out, (self.system_service_active_reads) as u64);
        out.append(",\"system_start_active_reads\":");
        push_dec(&mut out, (self.system_start_active_reads) as u64);
        out.append(",\"coin_register_reads\":");
        push_dec(&mut out, (self.coin_register_reads) as u64);
        out.append(",\"coin_register_active_reads\":");
        push_dec(&mut out, (self.coin_register_active_reads) as u64);
        out.append(",\"last_p1_input\":");
        push_dec(&mut out, (self.last_p1_input) as u64);
        out.append(",\"last_p1_input_hex\":\"0x");
        push_hex(&mut out, (self.last_p1_input) as u64, 8);
        out.append("\",\"last_p3_input\":");
        push_dec(&mut out, (self.last_p3_input) as u64);
        out.append(",\"last_p3_input_hex\":\"0x");
        push_hex(&mut out, (self.last_p3_input) as u64, 8);
        out.append("\",\"last_system_input\":");
        push_dec(&mut out, (self.last_system_input) as u64);
        out.append(",\"last_system_input_hex\":\"0x");
        push_hex(&mut out, (self.last_system_input) as u64, 8);
        out.append("\",\"last_coin_register\":");
        push_dec(&mut out, (self.last_coin_register) as u64);
        out.append(",\"last_coin_register_hex\":\"0x");
        push_hex(&mut out, (self.last_coin_register) as u64, 8);
        out.append("\"}");
        out
    }

    pub open spec fn spec_board_diagnostics_json(self) -> Seq<char> {
        "{\"coin_input_mapping\":\""@
            + (self.coin_input_mapping.spec_name())
            + "\",\"znsecsel_writes\":"@
            + dec((self.znsecsel_writes) as nat)
            + ",\"coin_register_writes\":"@
            + dec((self.coin_register_writes) as nat)
            + ",\"last_coin_register_write\":"@
            + (self.spec_last_coin_register_write_json())
            + ",\"recent_coin_register_writes\":["@
            + (self.spec_recent_coin_register_writes_json())
            + "],\"coin_counter_0\":"@
            + bool_text(self.coin_counter_0)
            + ",\"coin_counter_1\":"@
            + bool_text(self.coin_counter_1)
            + ",\"coin_counter_0_edges\":"@
            + dec((self.coin_counter_0_edges) as nat)
            + ",\"coin_counter_1_edges\":"@
            + dec((self.coin_counter_1_edges) as nat)
            + ",\"coin_lockout_0\":"@
            + bool_text(self.coin_lockout_0)
            + ",\"coin_lockout_1\":"@
            + bool_text(self.coin_lockout_1)
            + ",\"legacy_system_coin_latch_reads\":"@
            + dec((self.legacy_system_coin_latch_reads) as nat)
            + ",\"legacy_system_start_latch_reads\":"@
            + dec((self.legacy_system_start_latch_reads) as nat)
            + ",\"legacy_system_coin_latch_edges\":"@
            + dec((self.legacy_system_coin_latch_edges) as nat)
            + ",\"legacy_system_start_latch_edges\":"@
            + dec((self.legacy_system_start_latch_edges) as nat)
            + ",\"native_credit_adapter_pending_writes\":"@
            + dec((self.native_credit_adapter_pending_writes) as nat)
            + ",\"native_credit_adapter_edge_projection_writes\":"@
            + dec((self.native_credit_adapter_edge_projection_writes) as nat)
            + ",\"native_credit_adapter_active\":"@
            + bool_text(self.native_credit_adapter_active)
            + ",\"native_credit_adapter_input_bit\":"@
            + dec((self.native_credit_adapter_input_bit) as nat)
            + ",\"native_credit_adapter_input_bit_hex\":\"0x"@
            + hex((self.native_credit_adapter_input_bit) as nat, 8)
            + "\",\"native_credit_projection_rules\":["@
            + (self.spec_projection_rules_json())
            + "],\"native_credit_adapter_writes\":"@
            + dec((self.native_credit_adapter_writes) as nat)
            + ",\"native_credit_adapter_edges\":"@
            + dec((self.native_credit_adapter_edges) as nat)
            + ",\"native_credit_adapter_last_raw_value\":"@
            + dec((self.native_credit_adapter_last_raw_value) as nat)
            + ",\"native_credit_adapter_last_raw_value_hex\":\"0x"@
            + hex((self.native_credit_adapter_last_raw_value) as nat, 8)
            + "\",\"native_credit_adapter_last_value\":"@
            + dec((self.native_credit_adapter_last_value) as nat)
            + ",\"native_credit_adapter_last_value_hex\":\"0x"@
            + hex((self.native_credit_adapter_last_value) as nat, 8)
            + "\",\"native_credit_adapter_last_pc\":"@
            + opt_u32_dec(self.native_credit_adapter_last_pc)
            + ",\"native_credit_adapter_last_pc_hex\":"@
            + opt_hex32(self.native_credit_adapter_last_pc)
            + ",\"native_credit_adapter_last_vblank\":"@
            + dec((self.native_credit_adapter_last_vblank) as nat)
            + ",\"native_credit_adapter_last_cycles\":"@
            + dec((self.native_credit_adapter_last_cycles) as nat)
            + ",\"at28c16_reads\":"@
            + dec((self.at28c16_reads) as nat)
            + ",\"at28c16_writes\":"@
            + dec((self.at28c16_writes) as nat)
            + ",\"last_at28c16_read_offset\":"@
            + opt_u32_dec(widen_u16(self.last_at28c16_read_offset))
            + ",\"last_at28c16_read_value\":"@
            + dec((self.last_at28c16_read_value) as nat)
            + ",\"last_at28c16_read_value_hex\":\"0x"@
            + hex((self.last_at28c16_read_value) as nat, 2)
            + "\",\"last_at28c16_write_offset\":"@
            + opt_u32_dec(widen_u16(self.last_at28c16_write_offset))
            + ",\"last_at28c16_write_value\":"@
            + dec((self.last_at28c16_write_value) as nat)
            + ",\"last_at28c16_write_value_hex\":\"0x"@
            + hex((self.last_at28c16_write_value) as nat, 2)
            + "\",\"zn2_spu_hack_reads\":"@
            + dec((self.zn2_spu_hack_reads) as nat)
            + ",\"zn2_spu_hack_value\":"@
            + dec((self.zn2_spu_hack) as nat)
            + ",\"zn2_spu_hack_value_hex\":\"0x"@
            + hex((self.zn2_spu_hack) as nat, 4)
            + "\"}"@
    }

    /// Coin, adapter and EEPROM diagnostics as a JSON object.
    pub fn board_diagnostics_json(&self) -> (r: String)
        requires
            self.wf(),
        ensures
            r@ == self.spec_board_diagnostics_json(),
    {
        let mut out = String::from_str("{\"coin_input_mapping\":\"");
        out.append(self.coin_input_mapping.name());
        out.append("\",\"znsecsel_writes\":");
        push_dec(&mut out, (self.znsecsel_writes) as u64);
        out.append(",\"coin_register_writes\":");
        push_dec(&mut out, (self.coin_register_writes) as u64);
        out.append(",\"last_coin_register_write\":");
        let part = self.last_coin_register_write_json();
        out.append(part.as_str());
        out.append(",\"recent_coin_register_writes\":[");
        let part = self.recent_coin_register_writes_json();
        out.append(part.as_str());
        out.append("],\"coin_counter_0\":");
        push_bool(&mut out, self.coin_counter_0);
        out.append(",\"coin_counter_1\":");
        push_bool(&mut out, self.coin_counter_1);
        out.append(",\"coin_counter_0_edges\":");
        push_dec(&mut out, (self.coin_counter_0_edges) as u64);
        out.append(",\"coin_counter_1_edges\":");
        push_dec(&mut out, (self.coin_counter_1_edges) as u64);
        out.append(",\"coin_lockout_0\":");
        push_bool(&mut out, self.coin_lockout_0);
        out.append(",\"coin_lockout_1\":");
        push_bool(&mut out, self.coin_lockout_1);
        out.append(",\"legacy_system_coin_latch_reads\":");
        push_dec(&mut out, (self.legacy_system_coin_latch_reads) as u64);
        out.append(",\"legacy_system_start_latch_reads\":");
        push_dec(&mut out, (self.legacy_system_start_latch_reads) as u64);
        out.append(",\"legacy_system_coin_latch_edges\":");
        push_dec(&mut out, (self.legacy_system_coin_latch_edges) as u64);
        out.append(",\"legacy_system_start_latch_edges\":");
        push_dec(&mut out, (self.legacy_system_start_latch_edges) as u64);
        out.append(",\"native_credit_adapter_pending_writes\":");
        push_dec(&mut out, (self.native_credit_adapter_pending_writes) as u64);
        out.append(",\"native_credit_adapter_edge_projection_writes\":");
        push_dec(&mut out, (self.native_credit_adapter_edge_projection_writes) as u64);
        out.append(",\"native_credit_adapter_active\":");
        push_bool(&mut out, self.native_credit_adapter_active);
        out.append(",\"native_credit_adapter_input_bit\":");
        push_dec(&mut out, (self.native_credit_adapter_input_bit) as u64);
        out.append(",\"native_credit_adapter_input_bit_hex\":\"0x");
        push_hex(&mut out, (self.native_credit_adapter_input_bit) as u64, 8);
        out.append("\",\"native_credit_projection_rules\":[");
        let part = self.native_credit_projection_rules_json();
        out.append(part.as_str());
        out.append("],\"native_credit_adapter_writes\":");
        push_dec(&mut out, (self.native_credit_adapter_writes) as u64);
        out.append(",\"native_credit_adapter_edges\":");
        push_dec(&mut out, (self.native_credit_adapter_edges) as u64);
        out.append(",\"native_credit_adapter_last_raw_value\":");
        push_dec(&mut out, (self.native_credit_adapter_last_raw_value) as u64);
        out.append(",\"native_credit_adapter_last_raw_value_hex\":\"0x");
        push_hex(&mut out, (self.native_credit_adapter_last_raw_value) as u64, 8);
        out.append("\",\"native_credit_adapter_last_value\":");
        push_dec(&mut out, (self.native_credit_adapter_last_value) as u64);
        out.append(",\"native_credit_adapter_last_value_hex\":\"0x");
        push_hex(&mut out, (self.native_credit_adapter_last_value) as u64, 8);
        out.append("\",\"native_credit_adapter_last_pc\":");
        push_opt_u32_dec(&mut out, self.native_credit_adapter_last_pc);
        out.append(",\"native_credit_adapter_last_pc_hex\":");
        push_opt_hex32(&mut out, self.native_credit_adapter_last_pc);
        out.append(",\"native_credit_adapter_last_vblank\":");
        push_dec(&mut out, (self.native_credit_adapter_last_vblank) as u64);
        out.append(",\"native_credit_adapter_last_cycles\":");
        push_dec(&mut out, (self.native_credit_adapter_last_cycles) as u64);
        out.append(",\"at28c16_reads\":");
        push_dec(&mut out, (self.at28c16_reads) as u64);
        out.append(",\"at28c16_writes\":");
        push_dec(&mut out, (self.at28c16_writes) as u64);
        out.append(",\"last_at28c16_read_offset\":");
        push_opt_u32_dec(&mut out, opt_u16_to_u32(self.last_at28c16_read_offset));
        out.append(",\"last_at28c16_read_value\":");
        push_dec(&mut out, (self.last_at28c16_read_value) as u64);
        out.append(",\"last_at28c16_read_value_hex\":\"0x");
        push_hex(&mut out, (self.last_at28c16_read_value) as u64, 2);
        out.append("\",\"last_at28c16_write_offset\":");
        push_opt_u32_dec(&mut out, opt_u16_to_u32(self.last_at28c16_write_offset));
        out.append(",\"last_at28c16_write_value\":");
        push_dec(&mut out, (self.last_at28c16_write_value) as u64);
        out.append(",\"last_at28c16_write_value_hex\":\"0x");
        push_hex(&mut out, (self.last_at28c16_write_value) as u64, 2);
        out.append("\",\"zn2_spu_hack_reads\":");
        push_dec(&mut out, (self.zn2_spu_hack_reads) as u64);
        out.append(",\"zn2_spu_hack_value\":");
        push_dec(&mut out, (self.zn2_spu_hack) as u64);
        out.append(",\"zn2_spu_hack_value_hex\":\"0x");
        push_hex(&mut out, (self.zn2_spu_hack) as u64, 4);
        out.append("\"}");
        out
    }

    pub open spec fn spec_runtime_probe_json(self) -> Seq<char> {
        "{\"rom_bank\":"@
            + dec((self.rom_bank) as nat)
            + ",\"znsecsel\":"@
            + dec((self.znsecsel) as nat)
            + ",\"znsecsel_hex\":\"0x"@
            + hex((self.znsecsel) as nat, 2)
            + "\",\"coin_input_mapping\":\""@
            + (self.coin_input_mapping.spec_name())
            + "\",\"cat702_1_select_line\":"@
            + bool_text((self.znsecsel & 0x04 != 0))
            + ",\"cat702_1_selected\":"@
            + bool_text(!(self.znsecsel & 0x04 != 0))
            + ",\"cat702_2_select_line\":"@
            + bool_text((self.znsecsel & 0x08 != 0))
            + ",\"cat702_2_selected\":"@
            + bool_text(!(self.znsecsel & 0x08 != 0))
            + ",\"zn_mcu_analog_read\":"@
            + bool_text((self.znsecsel & 0x10 != 0))
            + ",\"zn_mcu_trackball_read\":"@
            + bool_text((self.znsecsel & 0x20 != 0))
            + ",\"zn_mcu_selected\":"@
            + bool_text(self.spec_zn_mcu_selected())
            + ",\"coin\":"@
            + dec((self.coin) as nat)
            + ",\"coin_hex\":\"0x"@
            + hex((self.coin) as nat, 2)
            + "\",\"coin_insert_edges\":"@
            + dec((self.coin_insert_edges) as nat)
            + ",\"legacy_coin_read_latch\":"@
            + dec((self.legacy_coin_read_latch) as nat)
            + ",\"legacy_coin_read_latch_hex\":\"0x"@
            + hex((self.legacy_coin_read_latch) as nat, 2)
            + "\",\"legacy_system_coin_latch_reads\":"@
            + dec((self.legacy_system_coin_latch_reads) as nat)
            + ",\"legacy_system_start_latch_reads\":"@
            + dec((self.legacy_system_start_latch_reads) as nat)
            + ",\"legacy_system_coin_latch_edges\":"@
            + dec((self.legacy_system_coin_latch_edges) as nat)
            + ",\"legacy_system_start_latch_edges\":"@
            + dec((self.legacy_system_start_latch_edges) as nat)
            + ",\"native_credit_adapter_writes\":"@
            + dec((self.native_credit_adapter_writes) as nat)
            + ",\"native_credit_adapter_edges\":"@
            + dec((self.native_credit_adapter_edges) as nat)
            + ",\"zn2_spu_hack_reads\":"@
            + dec((self.zn2_spu_hack_reads) as nat)
            + ",\"zn2_spu_hack_value\":"@
            + dec((self.zn2_spu_hack) as nat)
            + ",\"zn2_spu_hack_value_hex\":\"0x"@
            + hex((self.zn2_spu_hack) as nat, 4)
            + "\",\"p1_input_reads\":"@
            + dec((self.p1_input_reads) as nat)
            + ",\"p1_start_active_reads\":"@
            + dec((self.p1_start_active_reads) as nat)
            + ",\"p1_punch_active_reads\":"@
            + dec((self.p1_punch_active_reads) as nat)
            + ",\"p1_kick_active_reads\":"@
            + dec((self.p1_kick_active_reads) as nat)
            + ",\"p1_beast_active_reads\":"@
            + dec((self.p1_beast_active_reads) as nat)
            + ",\"p3_input_reads\":"@
            + dec((self.p3_input_reads) as nat)
            + ",\"p3_guard_active_reads\":"@
            + dec((self.p3_guard_active_reads) as nat)
            + ",\"system_input_reads\":"@
            + dec((self.system_input_reads) as nat)
            + ",\"system_coin_active_reads\":"@
            + dec((self.system_coin_active_reads) as nat)
            + ",\"system_service_active_reads\":"@
            + dec((self.system_service_active_reads) as nat)
            + ",\"system_start_active_reads\":"@
            + dec((self.system_start_active_reads) as nat)
            + ",\"coin_register_reads\":"@
            + dec((self.coin_register_reads) as nat)
            + ",\"coin_register_active_reads\":"@
            + dec((self.coin_register_active_reads) as nat)
            + ",\"last_p1_input_hex\":\"0x"@
            + hex((self.last_p1_input) as nat, 8)
            + "\",\"last_p3_input_hex\":\"0x"@
            + hex((self.last_p3_input) as nat, 8)
            + "\",\"last_system_input_hex\":\"0x"@
            + hex((self.last_system_input) as nat, 8)
            + "\",\"last_coin_register_hex\":\"0x"@
            + hex((self.last_coin_register) as nat, 8)
            + "\",\"diagnostics\":"@
            + (self.spec_board_diagnostics_json())
            + "}"@
    }

    /// Board state, select lines and diagnostics as a JSON object.
    pub fn runtime_probe_json(&self) -> (r: String)
        requires
            self.wf(),
        ensures
            r@ == self.spec_runtime_probe_json(),
    {
        let mut out = String::from_str("{\"rom_bank\":");
        push_dec(&mut out, (self.rom_bank) as u64);
        out.append(",\"znsecsel\":");
        push_dec(&mut out, (self.znsecsel) as u64);
        out.append(",\"znsecsel_hex\":\"0x");
        push_hex(&mut out, (self.znsecsel) as u64, 2);
        out.append("\",\"coin_input_mapping\":\"");
        out.append(self.coin_input_mapping.name());
        out.append("\",\"cat702_1_select_line\":");
        push_bool(&mut out, self.cat702_1_select());
        out.append(",\"cat702_1_selected\":");
        push_bool(&mut out, !self.cat702_1_select());
        out.append(",\"cat702_2_select_line\":");
        push_bool(&mut out, self.cat702_2_select());
        out.append(",\"cat702_2_selected\":");
        push_bool(&mut out, !self.cat702_2_select());
        out.append(",\"zn_mcu_analog_read\":");
        push_bool(&mut out, self.zn_mcu_analog_read());
        out.append(",\"zn_mcu_trackball_read\":");
        push_bool(&mut out, self.zn_mcu_trackball_read());
        out.append(",\"zn_mcu_selected\":");
        push_bool(&mut out, self.zn_mcu_selected());
        out.append(",\"coin\":");
        push_dec(&mut out, (self.coin) as u64);
        out.append(",\"coin_hex\":\"0x");
        push_hex(&mut out, (self.coin) as u64, 2);
        out.append("\",\"coin_insert_edges\":");
        push_dec(&mut out, (self.coin_insert_edges) as u64);
        out.append(",\"legacy_coin_read_latch\":");
        push_dec(&mut out, (self.legacy_coin_read_latch) as u64);
        out.append(",\"legacy_coin_read_latch_hex\":\"0x");
        push_hex(&mut out, (self.legacy_coin_read_latch) as u64, 2);
        out.append("\",\"legacy_system_coin_latch_reads\":");
        push_dec(&mut out, (self.legacy_system_coin_latch_reads) as u64);
        out.append(",\"legacy_system_start_latch_reads\":");
        push_dec(&mut out, (self.legacy_system_start_latch_reads) as u64);
        out.append(",\"legacy_system_coin_latch_edges\":");
        push_dec(&mut out, (self.legacy_system_coin_latch_edges) as u64);
        out.append(",\"legacy_system_start_latch_edges\":");
        push_dec(&mut out, (self.legacy_system_start_latch_edges) as u64);
        out.append(",\"native_credit_adapter_writes\":");
        push_dec(&mut out, (self.native_credit_adapter_writes) as u64);
        out.append(",\"native_credit_adapter_edges\":");
        push_dec(&mut out, (self.native_credit_adapter_edges) as u64);
        out.append(",\"zn2_spu_hack_reads\":");
        push_dec(&mut out, (self.zn2_spu_hack_reads) as u64);
        out.append(",\"zn2_spu_hack_value\":");
        push_dec(&mut out, (self.zn2_spu_hack) as u64);
        out.append(",\"zn2_spu_hack_value_hex\":\"0x");
        push_hex(&mut out, (self.zn2_spu_hack) as u64, 4);
        out.append("\",\"p1_input_reads\":");
        push_dec(&mut out, (self.p1_input_reads) as u64);
        out.append(",\"p1_start_active_reads\":");
        push_dec(&mut out, (self.p1_start_active_reads) as u64);
        out.append(",\"p1_punch_active_reads\":");
        push_dec(&mut out, (self.p1_punch_active_reads) as u64);
        out.append(",\"p1_kick_active_reads\":");
        push_dec(&mut out, (self.p1_kick_active_reads) as u64);
        out.append(",\"p1_beast_active_reads\":");
        push_dec(&mut out, (self.p1_beast_active_reads) as u64);
        out.append(",\"p3_input_reads\":");
        push_dec(&mut out, (self.p3_input_reads) as u64);
        out.append(",\"p3_guard_active_reads\":");
        push_dec(&mut out, (self.p3_guard_active_reads) as u64);
        out.append(",\"system_input_reads\":");
        push_dec(&mut out, (self.system_input_reads) as u64);
        out.append(",\"system_coin_active_reads\":");
        push_dec(&mut out, (self.system_coin_active_reads) as u64);
        out.append(",\"system_service_active_reads\":");
        push_dec(&mut out, (self.system_service_active_reads) as u64);
        out.append(",\"system_start_active_reads\":");
        push_dec(&mut out, (self.system_start_active_reads) as u64);
        out.append(",\"coin_register_reads\":");
        push_dec(&mut out, (self.coin_register_reads) as u64);
        out.append(",\"coin_register_active_reads\":");
        push_dec(&mut out, (self.coin_register_active_reads) as u64);
        out.append(",\"last_p1_input_hex\":\"0x");
        push_hex(&mut out, (self.last_p1_input) as u64, 8);
        out.append("\",\"last_p3_input_hex\":\"0x");
        push_hex(&mut out, (self.last_p3_input) as u64, 8);
        out.append("\",\"last_system_input_hex\":\"0x");
        push_hex(&mut out, (self.last_system_input) as u64, 8);
        out.append("\",\"last_coin_register_hex\":\"0x");
        push_hex(&mut out, (self.last_coin_register) as u64, 8);
        out.append("\",\"diagnostics\":");
        let part = self.board_diagnostics_json();
        out.append(part.as_str());
        out.append("}");
        out
    }

}

} // verus!
