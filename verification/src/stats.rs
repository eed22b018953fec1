//! Bookkeeping kept beside the bus: the credit HLE checks, banked ROM reads,
//! the board assets found, and the polls of the board's input ports.
use vstd::prelude::*;
use crate::address::{physical_address, spec_physical};
use crate::board::NativeBoardAssets;
use crate::buttons::{action_buttons_have_any_input, ActionButtons};
use crate::json::{
    bool_text, dec, hex, join_commas, lemma_join_commas_push, opt_dec, opt_hex32, opt_hex64,
    opt_u32_dec, opt_u8_to_u32, opt_usize_to_u64, push_bool, push_dec, push_hex, push_joined,
    push_opt_dec, push_opt_hex32, push_opt_hex64, push_opt_u32_dec, widen_u8, widen_usize,
};
use crate::board::inc;

verus! {

broadcast use vstd::string::group_string_axioms;

/// The result value of a rejected credit check.
pub const BR2_CREDIT_CHECK_REJECTED: u32 = 0xffff_ffff;

/// One credit check answered on the game's behalf.
#[derive(Clone, Copy, Debug, Default, PartialEq, Eq, Structural)]
pub struct Br2NativeCreditHleCheck {
    pub player: u32,
    pub freeplay: bool,
    pub required: u8,
    pub credit_slot: u32,
    pub credit_before: u8,
    pub credit_after: u8,
    pub pending_coin_edges: u64,
    pub result: u32,
}

impl Br2NativeCreditHleCheck {
    pub open spec fn spec_json(self) -> Seq<char> {
        "{\"player\":"@
            + dec((self.player) as nat)
            + ",\"freeplay\":"@
            + bool_text(self.freeplay)
            + ",\"required\":"@
            + dec((self.required) as nat)
            + ",\"credit_slot\":"@
            + dec((self.credit_slot) as nat)
            + ",\"credit_slot_hex\":\"0x"@
            + hex((self.credit_slot) as nat, 8)
            + "\",\"credit_before\":"@
            + dec((self.credit_before) as nat)
            + ",\"credit_after\":"@
            + dec((self.credit_after) as nat)
            + ",\"pending_coin_edges\":"@
            + dec((self.pending_coin_edges) as nat)
            + ",\"result\":"@
            + dec((self.result) as nat)
            + ",\"result_hex\":\"0x"@
            + hex((self.result) as nat, 8)
            + "\"}"@
    }

    /// The check as a JSON object.
    pub fn json(self) -> (r: String)
        ensures
            r@ == self.spec_json(),
    {
        let mut out = String::from_str("{\"player\":");
        push_dec(&mut out, (self.player) as u64);
        out.append(",\"freeplay\":");
        push_bool(&mut out, self.freeplay);
        out.append(",\"required\":");
        push_dec(&mut out, (self.required) as u64);
        out.append(",\"credit_slot\":");
        push_dec(&mut out, (self.credit_slot) as u64);
        out.append(",\"credit_slot_hex\":\"0x");
        push_hex(&mut out, (self.credit_slot) as u64, 8);
        out.append("\",\"credit_before\":");
        push_dec(&mut out, (self.credit_before) as u64);
        out.append(",\"credit_after\":");
        push_dec(&mut out, (self.credit_after) as u64);
        out.append(",\"pending_coin_edges\":");
        push_dec(&mut out, (self.pending_coin_edges) as u64);
        out.append(",\"result\":");
        push_dec(&mut out, (self.result) as u64);
        out.append(",\"result_hex\":\"0x");
        push_hex(&mut out, (self.result) as u64, 8);
        out.append("\"}");
        out
    }

}

/// Counters over the credit checks answered so far.
#[derive(Clone, Copy, Debug, Default, PartialEq, Eq, Structural)]
pub struct Br2NativeCreditHleStats {
    pub calls: u64,
    pub accepted: u64,
    pub rejected: u64,
    pub freeplay: u64,
    pub injected_coin_edges: u64,
    pub last: Option<Br2NativeCreditHleCheck>,
}

impl Br2NativeCreditHleStats {
    pub open spec fn spec_initial() -> Self {
        Br2NativeCreditHleStats {
            calls: 0,
            accepted: 0,
            rejected: 0,
            freeplay: 0,
            injected_coin_edges: 0,
            last: None,
        }
    }

    pub fn new() -> (r: Self)
        ensures
            r == Self::spec_initial(),
    {
        Br2NativeCreditHleStats {
            calls: 0,
            accepted: 0,
            rejected: 0,
            freeplay: 0,
            injected_coin_edges: 0,
            last: None,
        }
    }

    /// A check is rejected when its result is all ones.
    pub open spec fn spec_after_record(self, check: Br2NativeCreditHleCheck) -> Self {
        let rejected = check.result == BR2_CREDIT_CHECK_REJECTED;
        Br2NativeCreditHleStats {
            calls: inc(self.calls),
            injected_coin_edges: if self.injected_coin_edges + check.pending_coin_edges > u64::MAX {
                u64::MAX
            } else {
                (self.injected_coin_edges + check.pending_coin_edges) as u64
            },
            freeplay: if check.freeplay {
                inc(self.freeplay)
            } else {
                self.freeplay
            },
            rejected: if rejected {
                inc(self.rejected)
            } else {
                self.rejected
            },
            accepted: if rejected {
                self.accepted
            } else {
                inc(self.accepted)
            },
            last: Some(check),
        }
    }

    pub fn record(&mut self, check: Br2NativeCreditHleCheck)
        ensures
            *final(self) == old(self).spec_after_record(check),
    {
        self.calls = self.calls.saturating_add(1);
        self.injected_coin_edges = self.injected_coin_edges.saturating_add(check.pending_coin_edges);
        if check.freeplay {
            self.freeplay = self.freeplay.saturating_add(1);
        }
        if check.result == BR2_CREDIT_CHECK_REJECTED {
            self.rejected = self.rejected.saturating_add(1);
        } else {
            self.accepted = self.accepted.saturating_add(1);
        }
        self.last = Some(check);
    }

    pub open spec fn spec_last_json(self) -> Seq<char> {
        match self.last {
            Some(check) => check.spec_json(),
            None => "null"@,
        }
    }

    pub fn last_json(&self) -> (r: String)
        ensures
            r@ == self.spec_last_json(),
    {
        match self.last {
            Some(check) => check.json(),
            None => String::from_str("null"),
        }
    }
    pub open spec fn spec_json(self) -> Seq<char> {
        "{\"calls\":"@
            + dec((self.calls) as nat)
            + ",\"accepted\":"@
            + dec((self.accepted) as nat)
            + ",\"rejected\":"@
            + dec((self.rejected) as nat)
            + ",\"freeplay\":"@
            + dec((self.freeplay) as nat)
            + ",\"injected_coin_edges\":"@
            + dec((self.injected_coin_edges) as nat)
            + ",\"last\":"@
            + (self.spec_last_json())
            + "}"@
    }

    /// Counters and the last check as a JSON object.
    pub fn json(&self) -> (r: String)
        ensures
            r@ == self.spec_json(),
    {
        let mut out = String::from_str("{\"calls\":");
        push_dec(&mut out, (self.calls) as u64);
        out.append(",\"accepted\":");
        push_dec(&mut out, (self.accepted) as u64);
        out.append(",\"rejected\":");
        push_dec(&mut out, (self.rejected) as u64);
        out.append(",\"freeplay\":");
        push_dec(&mut out, (self.freeplay) as u64);
        out.append(",\"injected_coin_edges\":");
        push_dec(&mut out, (self.injected_coin_edges) as u64);
        out.append(",\"last\":");
        let part = self.last_json();
        out.append(part.as_str());
        out.append("}");
        out
    }

}

/// Number of ROM banks the bank select can address.
pub const BANKED_ROM_BANKS: usize = 4;

/// Counters over reads of the banked ROM window.
#[derive(Clone, Debug)]
pub struct BankedRomReadStats {
    pub reads: u64,
    pub bytes: u64,
    pub bank_reads: Vec<u64>,
    pub last_bank: Option<u8>,
    pub last_address: Option<u32>,
    pub last_offset: Option<usize>,
    pub last_width: u8,
    pub last_value: u32,
}

impl BankedRomReadStats {
    pub open spec fn wf(self) -> bool {
        self.bank_reads@.len() == BANKED_ROM_BANKS
    }

    pub fn new() -> (r: Self)
        ensures
            r.wf(),
            r.reads == 0,
            r.bytes == 0,
            forall|i: int| 0 <= i < BANKED_ROM_BANKS ==> r.bank_reads@[i] == 0,
            r.last_bank is None,
            r.last_address is None,
            r.last_offset is None,
            r.last_width == 0,
            r.last_value == 0,
    {
        BankedRomReadStats {
            reads: 0,
            bytes: 0,
            bank_reads: vec![0u64, 0, 0, 0],
            last_bank: None,
            last_address: None,
            last_offset: None,
            last_width: 0,
            last_value: 0,
        }
    }

    /// `self` is `old` after counting a read of `width` bytes of `bank` at
    /// `address` (ROM `offset`) that returned `value`.
    pub open spec fn spec_recorded(
        self,
        old: Self,
        bank: u8,
        address: u32,
        offset: usize,
        width: usize,
        value: u32,
    ) -> bool {
        &&& self.wf()
        &&& self.reads == inc(old.reads)
        &&& self.bytes == (if old.bytes + width > u64::MAX {
            u64::MAX
        } else {
            (old.bytes + width) as u64
        })
        &&& self.bank_reads@ == (if (bank as int) < BANKED_ROM_BANKS {
            old.bank_reads@.update(bank as int, inc(old.bank_reads@[bank as int]))
        } else {
            old.bank_reads@
        })
        &&& self.last_bank == Some(bank)
        &&& self.last_address == Some(address)
        &&& self.last_offset == Some(offset)
        &&& self.last_width == #[verifier::truncate] (width as u8)
        &&& self.last_value == value
    }

    /// Counts a read of `width` bytes of `bank` at `address` (ROM `offset`).
    pub fn record(&mut self, bank: u8, address: u32, offset: usize, width: usize, value: u32)
        requires
            old(self).wf(),
        ensures
            final(self).spec_recorded(*old(self), bank, address, offset, width, value),
    {
        self.reads = self.reads.saturating_add(1);
        self.bytes = self.bytes.saturating_add(width as u64);
        if (bank as usize) < self.bank_reads.len() {
            let count = self.bank_reads[bank as usize];
            self.bank_reads.set(bank as usize, count.saturating_add(1));
        }
        self.last_bank = Some(bank);
        self.last_address = Some(address);
        self.last_offset = Some(offset);
        self.last_width = #[verifier::truncate] (width as u8);
        self.last_value = value;
    }

    pub open spec fn spec_bank_json(bank: nat, reads: u64) -> Seq<char> {
        "{\"bank\":"@ + dec(bank) + ",\"reads\":"@ + dec(reads as nat) + "}"@
    }

    pub open spec fn spec_bank_reads_json(self) -> Seq<char> {
        join_commas(
            Seq::new(
                self.bank_reads@.len(),
                |i: int| Self::spec_bank_json(i as nat, self.bank_reads@[i]),
            ),
        )
    }

    /// Reads per bank as comma-separated JSON objects.
    pub fn bank_reads_json(&self) -> (r: String)
        ensures
            r@ == self.spec_bank_reads_json(),
    {
        let counts = &self.bank_reads;
        let ghost all = Seq::new(
            counts@.len(),
            |i: int| Self::spec_bank_json(i as nat, counts@[i]),
        );
        let mut out = String::new();
        let mut i: usize = 0;
        while i < counts.len()
            invariant
                counts@ == self.bank_reads@,
                all == Seq::new(
                    counts@.len(),
                    |i: int| Self::spec_bank_json(i as nat, counts@[i]),
                ),
                i <= counts@.len(),
                out@ == join_commas(all.take(i as int)),
            decreases counts@.len() - i,
        {
            let mut part = String::from_str("{\"bank\":");
            push_dec(&mut part, i as u64);
            part.append(",\"reads\":");
            push_dec(&mut part, counts[i]);
            part.append("}");
            proof {
                assert(part@ == all[i as int]);
                lemma_join_commas_push(all.take(i as int), part@);
                assert(all.take(i + 1) =~= all.take(i as int).push(part@));
            }
            push_joined(&mut out, i, part.as_str());
            i = i + 1;
        }
        proof {
            assert(all.take(counts@.len() as int) =~= all);
        }
        out
    }
    pub open spec fn spec_json(self) -> Seq<char> {
        "{\"reads\":"@
            + dec((self.reads) as nat)
            + ",\"bytes\":"@
            + dec((self.bytes) as nat)
            + ",\"bank_reads\":["@
            + (self.spec_bank_reads_json())
            + "],\"last_bank\":"@
            + opt_u32_dec(widen_u8(self.last_bank))
            + ",\"last_address\":"@
            + opt_u32_dec(self.last_address)
            + ",\"last_address_hex\":"@
            + opt_hex32(self.last_address)
            + ",\"last_offset\":"@
            + opt_dec(widen_usize(self.last_offset))
            + ",\"last_offset_hex\":"@
            + opt_hex64(widen_usize(self.last_offset))
            + ",\"last_width\":"@
            + dec((self.last_width) as nat)
            + ",\"last_value\":"@
            + dec((self.last_value) as nat)
            + ",\"last_value_hex\":\"0x"@
            + hex((self.last_value) as nat, 8)
            + "\"}"@
    }

    /// Read counters and the last read as a JSON object.
    pub fn json(&self) -> (r: String)
        ensures
            r@ == self.spec_json(),
    {
        let mut out = String::from_str("{\"reads\":");
        push_dec(&mut out, (self.reads) as u64);
        out.append(",\"bytes\":");
        push_dec(&mut out, (self.bytes) as u64);
        out.append(",\"bank_reads\":[");
        let part = self.bank_reads_json();
        out.append(part.as_str());
        out.append("],\"last_bank\":");
        push_opt_u32_dec(&mut out, opt_u8_to_u32(self.last_bank));
        out.append(",\"last_address\":");
        push_opt_u32_dec(&mut out, self.last_address);
        out.append(",\"last_address_hex\":");
        push_opt_hex32(&mut out, self.last_address);
        out.append(",\"last_offset\":");
        push_opt_dec(&mut out, opt_usize_to_u64(self.last_offset));
        out.append(",\"last_offset_hex\":");
        push_opt_hex64(&mut out, opt_usize_to_u64(self.last_offset));
        out.append(",\"last_width\":");
        push_dec(&mut out, (self.last_width) as u64);
        out.append(",\"last_value\":");
        push_dec(&mut out, (self.last_value) as u64);
        out.append(",\"last_value_hex\":\"0x");
        push_hex(&mut out, (self.last_value) as u64, 8);
        out.append("\"}");
        out
    }

}

/// Which board assets were found.
#[derive(Clone, Copy, Debug, Default, PartialEq, Eq, Structural)]
pub struct NativeBoardAssetStatus {
    pub cat702_1_loaded: bool,
    pub cat702_2_loaded: bool,
    pub at28c16_loaded: bool,
    pub at28c16_blank_default: bool,
    pub legacy_zinc_input_compat: bool,
}

impl NativeBoardAssetStatus {
    pub fn from_assets(assets: &NativeBoardAssets) -> (r: Self)
        ensures
            r == (NativeBoardAssetStatus {
                cat702_1_loaded: assets.cat702_1 is Some,
                cat702_2_loaded: assets.cat702_2 is Some,
                at28c16_loaded: assets.at28c16 is Some,
                at28c16_blank_default: assets.at28c16_blank_default,
                legacy_zinc_input_compat: assets.legacy_zinc_input_compat,
            }),
    {
        NativeBoardAssetStatus {
            cat702_1_loaded: assets.cat702_1.is_some(),
            cat702_2_loaded: assets.cat702_2.is_some(),
            at28c16_loaded: assets.at28c16.is_some(),
            at28c16_blank_default: assets.at28c16_blank_default,
            legacy_zinc_input_compat: assets.legacy_zinc_input_compat,
        }
    }
    pub open spec fn spec_json(self) -> Seq<char> {
        "{\"cat702_1_loaded\":"@
            + bool_text(self.cat702_1_loaded)
            + ",\"cat702_2_loaded\":"@
            + bool_text(self.cat702_2_loaded)
            + ",\"at28c16_loaded\":"@
            + bool_text(self.at28c16_loaded)
            + ",\"at28c16_blank_default\":"@
            + bool_text(self.at28c16_blank_default)
            + ",\"legacy_zinc_input_compat\":"@
            + bool_text(self.legacy_zinc_input_compat)
            + "}"@
    }

    /// Which assets were found, as a JSON object.
    pub fn json(self) -> (r: String)
        ensures
            r@ == self.spec_json(),
    {
        let mut out = String::from_str("{\"cat702_1_loaded\":");
        push_bool(&mut out, self.cat702_1_loaded);
        out.append(",\"cat702_2_loaded\":");
        push_bool(&mut out, self.cat702_2_loaded);
        out.append(",\"at28c16_loaded\":");
        push_bool(&mut out, self.at28c16_loaded);
        out.append(",\"at28c16_blank_default\":");
        push_bool(&mut out, self.at28c16_blank_default);
        out.append(",\"legacy_zinc_input_compat\":");
        push_bool(&mut out, self.legacy_zinc_input_compat);
        out.append("}");
        out
    }

}

/// Physical base addresses of the polled input ports, in report order.
pub open spec fn spec_input_ports() -> Seq<u32> {
    seq![0x1fa0_0000u32, 0x1fa0_0200u32, 0x1fa0_0300u32, 0x1fa1_0000u32, 0x1fa2_0000u32]
}

/// Number of polled input ports.
pub const ZN_BOARD_INPUT_READ_PORT_COUNT: usize = 5;
/// Recent polls kept.
pub const ZN_BOARD_INPUT_READ_RECENT_LIMIT: usize = 128;
/// Recent polls with a button held kept.
pub const ZN_BOARD_INPUT_ACTIVE_READ_RECENT_LIMIT: usize = 1024;
/// Polls with a button held shown in the compact probe.
pub const ZN_BOARD_INPUT_COMPACT_ACTIVE_READ_LIMIT: usize = 32;

/// The port a polled address belongs to.
pub open spec fn spec_port_index(address: u32) -> Option<usize> {
    let base = spec_physical(address) & !0x03u32;
    if base == 0x1fa0_0000 {
        Some(0)
    } else if base == 0x1fa0_0200 {
        Some(1)
    } else if base == 0x1fa0_0300 {
        Some(2)
    } else if base == 0x1fa1_0000 {
        Some(3)
    } else if base == 0x1fa2_0000 {
        Some(4)
    } else {
        None
    }
}

pub fn zn_input_port_index(address: u32) -> (r: Option<usize>)
    ensures
        r == spec_port_index(address),
        r matches Some(i) ==> i < ZN_BOARD_INPUT_READ_PORT_COUNT,
{
    let base = physical_address(address) & !0x03u32;
    if base == 0x1fa0_0000 {
        Some(0)
    } else if base == 0x1fa0_0200 {
        Some(1)
    } else if base == 0x1fa0_0300 {
        Some(2)
    } else if base == 0x1fa1_0000 {
        Some(3)
    } else if base == 0x1fa2_0000 {
        Some(4)
    } else {
        None
    }
}

/// Each input port answers on all four bytes of its word, in every
/// segment: player 1 at physical `0x1fa0_0000` is port 0, service at
/// `0x1fa0_0200` port 1, system at `0x1fa0_0300` port 2, player 3 at
/// `0x1fa1_0000` port 3 and the coin register at `0x1fa2_0000` port 4;
/// the unwired player 2 word at `0x1fa0_0100` is no input port.
pub proof fn law_input_port_words(address: u32)
    ensures
        0x1fa0_0000 <= spec_physical(address) <= 0x1fa0_0003 ==> spec_port_index(address) == Some(
            0usize,
        ),
        0x1fa0_0200 <= spec_physical(address) <= 0x1fa0_0203 ==> spec_port_index(address) == Some(
            1usize,
        ),
        0x1fa0_0300 <= spec_physical(address) <= 0x1fa0_0303 ==> spec_port_index(address) == Some(
            2usize,
        ),
        0x1fa1_0000 <= spec_physical(address) <= 0x1fa1_0003 ==> spec_port_index(address) == Some(
            3usize,
        ),
        0x1fa2_0000 <= spec_physical(address) <= 0x1fa2_0003 ==> spec_port_index(address) == Some(
            4usize,
        ),
        0x1fa0_0100 <= spec_physical(address) <= 0x1fa0_0103 ==> spec_port_index(address) is None,
{
    let p = spec_physical(address);
    assert({
        &&& 0x1fa0_0000 <= p <= 0x1fa0_0003 ==> p & !0x03u32 == 0x1fa0_0000
        &&& 0x1fa0_0200 <= p <= 0x1fa0_0203 ==> p & !0x03u32 == 0x1fa0_0200
        &&& 0x1fa0_0300 <= p <= 0x1fa0_0303 ==> p & !0x03u32 == 0x1fa0_0300
        &&& 0x1fa1_0000 <= p <= 0x1fa1_0003 ==> p & !0x03u32 == 0x1fa1_0000
        &&& 0x1fa2_0000 <= p <= 0x1fa2_0003 ==> p & !0x03u32 == 0x1fa2_0000
        &&& 0x1fa0_0100 <= p <= 0x1fa0_0103 ==> p & !0x03u32 == 0x1fa0_0100
    }) by (bit_vector);
}

pub fn is_zn_input_read_address(address: u32) -> (r: bool)
    ensures
        r == spec_port_index(address) is Some,
{
    zn_input_port_index(address).is_some()
}

pub open spec fn spec_port_label(address: u32) -> Seq<char> {
    let base = spec_physical(address) & !0x03u32;
    if base == 0x1fa0_0000 {
        "p1"@
    } else if base == 0x1fa0_0200 {
        "service"@
    } else if base == 0x1fa0_0300 {
        "system"@
    } else if base == 0x1fa1_0000 {
        "p3"@
    } else if base == 0x1fa2_0000 {
        "coin_register"@
    } else {
        "unknown"@
    }
}

pub fn zn_input_port_label(address: u32) -> (r: &'static str)
    ensures
        r@ == spec_port_label(address),
{
    let base = physical_address(address) & !0x03u32;
    if base == 0x1fa0_0000 {
        "p1"
    } else if base == 0x1fa0_0200 {
        "service"
    } else if base == 0x1fa0_0300 {
        "system"
    } else if base == 0x1fa1_0000 {
        "p3"
    } else if base == 0x1fa2_0000 {
        "coin_register"
    } else {
        "unknown"
    }
}

/// One poll of a board input port.
#[derive(Clone, Copy, Debug, PartialEq, Eq, Structural)]
pub struct ZnBoardInputReadEvent {
    pub vblank: u64,
    pub cycles: u64,
    pub pc: Option<u32>,
    pub address: u32,
    pub width: u8,
    pub value: u32,
    pub input: ActionButtons,
}

impl ZnBoardInputReadEvent {
    pub open spec fn spec_json(self) -> Seq<char> {
        "{\"vblank\":"@
            + dec((self.vblank) as nat)
            + ",\"cycles\":"@
            + dec((self.cycles) as nat)
            + ",\"pc\":"@
            + opt_u32_dec(self.pc)
            + ",\"pc_hex\":"@
            + opt_hex32(self.pc)
            + ",\"address\":"@
            + dec((self.address) as nat)
            + ",\"address_hex\":\"0x"@
            + hex((self.address) as nat, 8)
            + "\",\"physical_address\":"@
            + dec((spec_physical(self.address)) as nat)
            + ",\"physical_address_hex\":\"0x"@
            + hex((spec_physical(self.address)) as nat, 8)
            + "\",\"width\":"@
            + dec((self.width) as nat)
            + ",\"value\":"@
            + dec((self.value) as nat)
            + ",\"value_hex\":\"0x"@
            + hex((self.value) as nat, 8)
            + "\",\"input\":"@
            + (self.input.spec_json())
            + "}"@
    }

    /// The read as a JSON object.
    pub fn json(self) -> (r: String)
        ensures
            r@ == self.spec_json(),
    {
        let mut out = String::from_str("{\"vblank\":");
        push_dec(&mut out, (self.vblank) as u64);
        out.append(",\"cycles\":");
        push_dec(&mut out, (self.cycles) as u64);
        out.append(",\"pc\":");
        push_opt_u32_dec(&mut out, self.pc);
        out.append(",\"pc_hex\":");
        push_opt_hex32(&mut out, self.pc);
        out.append(",\"address\":");
        push_dec(&mut out, (self.address) as u64);
        out.append(",\"address_hex\":\"0x");
        push_hex(&mut out, (self.address) as u64, 8);
        out.append("\",\"physical_address\":");
        push_dec(&mut out, (physical_address(self.address)) as u64);
        out.append(",\"physical_address_hex\":\"0x");
        push_hex(&mut out, (physical_address(self.address)) as u64, 8);
        out.append("\",\"width\":");
        push_dec(&mut out, (self.width) as u64);
        out.append(",\"value\":");
        push_dec(&mut out, (self.value) as u64);
        out.append(",\"value_hex\":\"0x");
        push_hex(&mut out, (self.value) as u64, 8);
        out.append("\",\"input\":");
        let part = self.input.json();
        out.append(part.as_str());
        out.append("}");
        out
    }

}

/// Counters over the polls of one port.
#[derive(Clone, Copy, Debug, Default, PartialEq, Eq, Structural)]
pub struct ZnBoardInputPortReadStats {
    pub reads: u64,
    pub active_reads: u64,
    pub start_active_reads: u64,
    pub coin_active_reads: u64,
    pub service_active_reads: u64,
    pub up_active_reads: u64,
    pub down_active_reads: u64,
    pub left_active_reads: u64,
    pub right_active_reads: u64,
    pub punch_active_reads: u64,
    pub kick_active_reads: u64,
    pub beast_active_reads: u64,
    pub guard_active_reads: u64,
    pub first_active_vblank: Option<u64>,
    pub last_read_vblank: Option<u64>,
    pub last_active_vblank: Option<u64>,
    pub last_start_active_vblank: Option<u64>,
    pub last_coin_active_vblank: Option<u64>,
    pub last_service_active_vblank: Option<u64>,
    pub last_width: u8,
    pub last_value: u32,
    pub last_active_value: Option<u32>,
    pub last_start_active_value: Option<u32>,
    pub last_coin_active_value: Option<u32>,
    pub last_service_active_value: Option<u32>,
    pub last_pc: Option<u32>,
}

/// `x + 1` when `b`, saturating.
pub open spec fn inc_when(x: u64, b: bool) -> u64 {
    if b {
        inc(x)
    } else {
        x
    }
}

impl ZnBoardInputPortReadStats {
    pub open spec fn spec_initial() -> Self {
        ZnBoardInputPortReadStats {
            reads: 0,
            active_reads: 0,
            start_active_reads: 0,
            coin_active_reads: 0,
            service_active_reads: 0,
            up_active_reads: 0,
            down_active_reads: 0,
            left_active_reads: 0,
            right_active_reads: 0,
            punch_active_reads: 0,
            kick_active_reads: 0,
            beast_active_reads: 0,
            guard_active_reads: 0,
            first_active_vblank: None,
            last_read_vblank: None,
            last_active_vblank: None,
            last_start_active_vblank: None,
            last_coin_active_vblank: None,
            last_service_active_vblank: None,
            last_width: 0,
            last_value: 0,
            last_active_value: None,
            last_start_active_value: None,
            last_coin_active_value: None,
            last_service_active_value: None,
            last_pc: None,
        }
    }

    pub fn new() -> (r: Self)
        ensures
            r == Self::spec_initial(),
    {
        ZnBoardInputPortReadStats {
            reads: 0,
            active_reads: 0,
            start_active_reads: 0,
            coin_active_reads: 0,
            service_active_reads: 0,
            up_active_reads: 0,
            down_active_reads: 0,
            left_active_reads: 0,
            right_active_reads: 0,
            punch_active_reads: 0,
            kick_active_reads: 0,
            beast_active_reads: 0,
            guard_active_reads: 0,
            first_active_vblank: None,
            last_read_vblank: None,
            last_active_vblank: None,
            last_start_active_vblank: None,
            last_coin_active_vblank: None,
            last_service_active_vblank: None,
            last_width: 0,
            last_value: 0,
            last_active_value: None,
            last_start_active_value: None,
            last_coin_active_value: None,
            last_service_active_value: None,
            last_pc: None,
        }
    }

    /// Counts one poll: every poll, polls with any button held, and polls per
    /// held button, with the last values seen.
    pub open spec fn spec_after_record(self, e: ZnBoardInputReadEvent) -> Self {
        let i = e.input;
        let any = i.spec_any_input();
        ZnBoardInputPortReadStats {
            reads: inc(self.reads),
            last_read_vblank: Some(e.vblank),
            last_width: e.width,
            last_value: e.value,
            last_pc: e.pc,
            active_reads: inc_when(self.active_reads, any),
            first_active_vblank: if any && self.first_active_vblank is None {
                Some(e.vblank)
            } else {
                self.first_active_vblank
            },
            last_active_vblank: if any {
                Some(e.vblank)
            } else {
                self.last_active_vblank
            },
            last_active_value: if any {
                Some(e.value)
            } else {
                self.last_active_value
            },
            start_active_reads: inc_when(self.start_active_reads, i.start),
            last_start_active_vblank: if i.start {
                Some(e.vblank)
            } else {
                self.last_start_active_vblank
            },
            last_start_active_value: if i.start {
                Some(e.value)
            } else {
                self.last_start_active_value
            },
            coin_active_reads: inc_when(self.coin_active_reads, i.coin),
            last_coin_active_vblank: if i.coin {
                Some(e.vblank)
            } else {
                self.last_coin_active_vblank
            },
            last_coin_active_value: if i.coin {
                Some(e.value)
            } else {
                self.last_coin_active_value
            },
            service_active_reads: inc_when(self.service_active_reads, i.service),
            last_service_active_vblank: if i.service {
                Some(e.vblank)
            } else {
                self.last_service_active_vblank
            },
            last_service_active_value: if i.service {
                Some(e.value)
            } else {
                self.last_service_active_value
            },
            up_active_reads: inc_when(self.up_active_reads, i.up),
            down_active_reads: inc_when(self.down_active_reads, i.down),
            left_active_reads: inc_when(self.left_active_reads, i.left),
            right_active_reads: inc_when(self.right_active_reads, i.right),
            punch_active_reads: inc_when(self.punch_active_reads, i.punch),
            kick_active_reads: inc_when(self.kick_active_reads, i.kick),
            beast_active_reads: inc_when(self.beast_active_reads, i.beast),
            guard_active_reads: inc_when(self.guard_active_reads, i.guard),
        }
    }

    pub fn record(&mut self, event: ZnBoardInputReadEvent)
        ensures
            *final(self) == old(self).spec_after_record(event),
    {
        self.reads = self.reads.saturating_add(1);
        self.last_read_vblank = Some(event.vblank);
        self.last_width = event.width;
        self.last_value = event.value;
        self.last_pc = event.pc;
        if action_buttons_have_any_input(event.input) {
            self.active_reads = self.active_reads.saturating_add(1);
            if self.first_active_vblank.is_none() {
                self.first_active_vblank = Some(event.vblank);
            }
            self.last_active_vblank = Some(event.vblank);
            self.last_active_value = Some(event.value);
        }
        if event.input.start {
            self.start_active_reads = self.start_active_reads.saturating_add(1);
            self.last_start_active_vblank = Some(event.vblank);
            self.last_start_active_value = Some(event.value);
        }
        if event.input.coin {
            self.coin_active_reads = self.coin_active_reads.saturating_add(1);
            self.last_coin_active_vblank = Some(event.vblank);
            self.last_coin_active_value = Some(event.value);
        }
        if event.input.service {
            self.service_active_reads = self.service_active_reads.saturating_add(1);
            self.last_service_active_vblank = Some(event.vblank);
            self.last_service_active_value = Some(event.value);
        }
        self.up_active_reads = self.up_active_reads.saturating_add(u64_from_bool(event.input.up));
        self.down_active_reads = self.down_active_reads.saturating_add(
            u64_from_bool(event.input.down),
        );
        self.left_active_reads = self.left_active_reads.saturating_add(
            u64_from_bool(event.input.left),
        );
        self.right_active_reads = self.right_active_reads.saturating_add(
            u64_from_bool(event.input.right),
        );
        self.punch_active_reads = self.punch_active_reads.saturating_add(
            u64_from_bool(event.input.punch),
        );
        self.kick_active_reads = self.kick_active_reads.saturating_add(
            u64_from_bool(event.input.kick),
        );
        self.beast_active_reads = self.beast_active_reads.saturating_add(
            u64_from_bool(event.input.beast),
        );
        self.guard_active_reads = self.guard_active_reads.saturating_add(
            u64_from_bool(event.input.guard),
        );
    }
    pub open spec fn spec_json(self, address: u32) -> Seq<char> {
        "{\"address\":"@
            + dec((address) as nat)
            + ",\"address_hex\":\"0x"@
            + hex((address) as nat, 8)
            + "\",\"label\":\""@
            + (spec_port_label(address))
            + "\",\"reads\":"@
            + dec((self.reads) as nat)
            + ",\"active_reads\":"@
            + dec((self.active_reads) as nat)
            + ",\"start_active_reads\":"@
            + dec((self.start_active_reads) as nat)
            + ",\"coin_active_reads\":"@
            + dec((self.coin_active_reads) as nat)
            + ",\"service_active_reads\":"@
            + dec((self.service_active_reads) as nat)
            + ",\"up_active_reads\":"@
            + dec((self.up_active_reads) as nat)
            + ",\"down_active_reads\":"@
            + dec((self.down_active_reads) as nat)
            + ",\"left_active_reads\":"@
            + dec((self.left_active_reads) as nat)
            + ",\"right_active_reads\":"@
            + dec((self.right_active_reads) as nat)
            + ",\"punch_active_reads\":"@
            + dec((self.punch_active_reads) as nat)
            + ",\"kick_active_reads\":"@
            + dec((self.kick_active_reads) as nat)
            + ",\"beast_active_reads\":"@
            + dec((self.beast_active_reads) as nat)
            + ",\"guard_active_reads\":"@
            + dec((self.guard_active_reads) as nat)
            + ",\"first_active_vblank\":"@
            + opt_dec(self.first_active_vblank)
            + ",\"last_read_vblank\":"@
            + opt_dec(self.last_read_vblank)
            + ",\"last_active_vblank\":"@
            + opt_dec(self.last_active_vblank)
            + ",\"last_start_active_vblank\":"@
            + opt_dec(self.last_start_active_vblank)
            + ",\"last_coin_active_vblank\":"@
            + opt_dec(self.last_coin_active_vblank)
            + ",\"last_service_active_vblank\":"@
            + opt_dec(self.last_service_active_vblank)
            + ",\"last_width\":"@
            + dec((self.last_width) as nat)
            + ",\"last_value\":"@
            + dec((self.last_value) as nat)
            + ",\"last_value_hex\":\"0x"@
            + hex((self.last_value) as nat, 8)
            + "\",\"last_active_value\":"@
            + opt_u32_dec(self.last_active_value)
            + ",\"last_active_value_hex\":"@
            + opt_hex32(self.last_active_value)
            + ",\"last_start_active_value\":"@
            + opt_u32_dec(self.last_start_active_value)
            + ",\"last_start_active_value_hex\":"@
            + opt_hex32(self.last_start_active_value)
            + ",\"last_coin_active_value\":"@
            + opt_u32_dec(self.last_coin_active_value)
            + ",\"last_coin_active_value_hex\":"@
            + opt_hex32(self.last_coin_active_value)
            + ",\"last_service_active_value\":"@
            + opt_u32_dec(self.last_service_active_value)
            + ",\"last_service_active_value_hex\":"@
            + opt_hex32(self.last_service_active_value)
            + ",\"last_pc\":"@
            + opt_u32_dec(self.last_pc)
            + ",\"last_pc_hex\":"@
            + opt_hex32(self.last_pc)
            + "}"@
    }

    /// The port's counters as a JSON object.
    pub fn json(&self, address: u32) -> (r: String)
        ensures
            r@ == self.spec_json(address),
    {
        let mut out = String::from_str("{\"address\":");
        push_dec(&mut out, (address) as u64);
        out.append(",\"address_hex\":\"0x");
        push_hex(&mut out, (address) as u64, 8);
        out.append("\",\"label\":\"");
        out.append(zn_input_port_label(address));
        out.append("\",\"reads\":");
        push_dec(&mut out, (self.reads) as u64);
        out.append(",\"active_reads\":");
        push_dec(&mut out, (self.active_reads) as u64);
        out.append(",\"start_active_reads\":");
        push_dec(&mut out, (self.start_active_reads) as u64);
        out.append(",\"coin_active_reads\":");
        push_dec(&mut out, (self.coin_active_reads) as u64);
        out.append(",\"service_active_reads\":");
        push_dec(&mut out, (self.service_active_reads) as u64);
        out.append(",\"up_active_reads\":");
        push_dec(&mut out, (self.up_active_reads) as u64);
        out.append(",\"down_active_reads\":");
        push_dec(&mut out, (self.down_active_reads) as u64);
        out.append(",\"left_active_reads\":");
        push_dec(&mut out, (self.left_active_reads) as u64);
        out.append(",\"right_active_reads\":");
        push_dec(&mut out, (self.right_active_reads) as u64);
        out.append(",\"punch_active_reads\":");
        push_dec(&mut out, (self.punch_active_reads) as u64);
        out.append(",\"kick_active_reads\":");
        push_dec(&mut out, (self.kick_active_reads) as u64);
        out.append(",\"beast_active_reads\":");
        push_dec(&mut out, (self.beast_active_reads) as u64);
        out.append(",\"guard_active_reads\":");
        push_dec(&mut out, (self.guard_active_reads) as u64);
        out.append(",\"first_active_vblank\":");
        push_opt_dec(&mut out, self.first_active_vblank);
        out.append(",\"last_read_vblank\":");
        push_opt_dec(&mut out, self.last_read_vblank);
        out.append(",\"last_active_vblank\":");
        push_opt_dec(&mut out, self.last_active_vblank);
        out.append(",\"last_start_active_vblank\":");
        push_opt_dec(&mut out, self.last_start_active_vblank);
        out.append(",\"last_coin_active_vblank\":");
        push_opt_dec(&mut out, self.last_coin_active_vblank);
        out.append(",\"last_service_active_vblank\":");
        push_opt_dec(&mut out, self.last_service_active_vblank);
        out.append(",\"last_width\":");
        push_dec(&mut out, (self.last_width) as u64);
        out.append(",\"last_value\":");
        push_dec(&mut out, (self.last_value) as u64);
        out.append(",\"last_value_hex\":\"0x");
        push_hex(&mut out, (self.last_value) as u64, 8);
        out.append("\",\"last_active_value\":");
        push_opt_u32_dec(&mut out, self.last_active_value);
        out.append(",\"last_active_value_hex\":");
        push_opt_hex32(&mut out, self.last_active_value);
        out.append(",\"last_start_active_value\":");
        push_opt_u32_dec(&mut out, self.last_start_active_value);
        out.append(",\"last_start_active_value_hex\":");
        push_opt_hex32(&mut out, self.last_start_active_value);
        out.append(",\"last_coin_active_value\":");
        push_opt_u32_dec(&mut out, self.last_coin_active_value);
        out.append(",\"last_coin_active_value_hex\":");
        push_opt_hex32(&mut out, self.last_coin_active_value);
        out.append(",\"last_service_active_value\":");
        push_opt_u32_dec(&mut out, self.last_service_active_value);
        out.append(",\"last_service_active_value_hex\":");
        push_opt_hex32(&mut out, self.last_service_active_value);
        out.append(",\"last_pc\":");
        push_opt_u32_dec(&mut out, self.last_pc);
        out.append(",\"last_pc_hex\":");
        push_opt_hex32(&mut out, self.last_pc);
        out.append("}");
        out
    }

}

pub fn u64_from_bool(value: bool) -> (r: u64)
    ensures
        r == (if value {
            1u64
        } else {
            0u64
        }),
{
    if value {
        1
    } else {
        0
    }
}

/// Per-port poll counters, in the order of `spec_input_ports`.
#[derive(Clone, Debug)]
pub struct ZnBoardInputReadStats {
    pub ports: Vec<ZnBoardInputPortReadStats>,
}

impl ZnBoardInputReadStats {
    pub open spec fn wf(self) -> bool {
        self.ports@.len() == ZN_BOARD_INPUT_READ_PORT_COUNT
    }

    pub fn new() -> (r: Self)
        ensures
            r.wf(),
            forall|i: int|
                0 <= i < ZN_BOARD_INPUT_READ_PORT_COUNT ==> r.ports@[i]
                    == ZnBoardInputPortReadStats::spec_initial(),
    {
        ZnBoardInputReadStats {
            ports: vec![
                ZnBoardInputPortReadStats::new(),
                ZnBoardInputPortReadStats::new(),
                ZnBoardInputPortReadStats::new(),
                ZnBoardInputPortReadStats::new(),
                ZnBoardInputPortReadStats::new(),
            ],
        }
    }

    pub open spec fn spec_after_record(self, event: ZnBoardInputReadEvent) -> Seq<ZnBoardInputPortReadStats> {
        match spec_port_index(event.address) {
            Some(i) => self.ports@.update(i as int, self.ports@[i as int].spec_after_record(event)),
            None => self.ports@,
        }
    }

    /// Counts a poll on the port it belongs to; other addresses are ignored.
    pub fn record(&mut self, event: ZnBoardInputReadEvent)
        requires
            old(self).wf(),
        ensures
            final(self).wf(),
            final(self).ports@ == old(self).spec_after_record(event),
    {
        match zn_input_port_index(event.address) {
            Some(index) => {
                let mut stats = self.ports[index];
                stats.record(event);
                self.ports.set(index, stats);
            },
            None => {},
        }
    }

    pub open spec fn spec_ports_json(self) -> Seq<char> {
        join_commas(
            Seq::new(
                self.ports@.len(),
                |i: int| self.ports@[i].spec_json(spec_input_ports()[i]),
            ),
        )
    }

    pub open spec fn spec_json(self) -> Seq<char> {
        "{\"ports\":["@ + self.spec_ports_json() + "]}"@
    }

    /// The per-port counters as a JSON object.
    pub fn json(&self) -> (r: String)
        requires
            self.wf(),
        ensures
            r@ == self.spec_json(),
    {
        let addresses: [u32; 5] = [0x1fa0_0000, 0x1fa0_0200, 0x1fa0_0300, 0x1fa1_0000, 0x1fa2_0000];
        assert(addresses@ == spec_input_ports());
        let ghost all = Seq::new(
            self.ports@.len(),
            |i: int| self.ports@[i].spec_json(spec_input_ports()[i]),
        );
        let mut body = String::new();
        let mut i: usize = 0;
        while i < self.ports.len()
            invariant
                self.wf(),
                addresses@ == spec_input_ports(),
                all == Seq::new(
                    self.ports@.len(),
                    |i: int| self.ports@[i].spec_json(spec_input_ports()[i]),
                ),
                i <= self.ports@.len(),
                body@ == join_commas(all.take(i as int)),
            decreases self.ports@.len() - i,
        {
            let part = self.ports[i].json(addresses[i]);
            proof {
                lemma_join_commas_push(all.take(i as int), part@);
                assert(all.take(i + 1) =~= all.take(i as int).push(part@));
            }
            push_joined(&mut body, i, part.as_str());
            i = i + 1;
        }
        proof {
            assert(all.take(self.ports@.len() as int) =~= all);
        }
        let mut out = String::from_str("{\"ports\":[");
        out.append(body.as_str());
        out.append("]}");
        out
    }
}

/// The log after appending `event`, keeping the newest `limit` entries.
pub open spec fn spec_pushed_recent(
    events: Seq<ZnBoardInputReadEvent>,
    event: ZnBoardInputReadEvent,
    limit: usize,
) -> Seq<ZnBoardInputReadEvent> {
    let pushed = events.push(event);
    if limit == 0 {
        events
    } else if pushed.len() > limit {
        pushed.subrange(pushed.len() - limit, pushed.len() as int)
    } else {
        pushed
    }
}

/// Appends `event`, dropping the oldest entries beyond `limit`.
pub fn push_recent_zn_input_event(
    events: &mut Vec<ZnBoardInputReadEvent>,
    event: ZnBoardInputReadEvent,
    limit: usize,
)
    requires
        old(events)@.len() <= limit || limit == 0,
    ensures
        final(events)@ == spec_pushed_recent(old(events)@, event, limit),
        final(events)@.len() <= limit || limit == 0,
{
    if limit == 0 {
        return;
    }
    events.push(event);
    if events.len() > limit {
        events.remove(0);
        proof {
            let ghost pushed = old(events)@.push(event);
            assert(events@ =~= pushed.subrange(pushed.len() - limit, pushed.len() as int));
        }
    }
}

pub open spec fn spec_events_json(events: Seq<ZnBoardInputReadEvent>) -> Seq<char> {
    join_commas(events.map_values(|e: ZnBoardInputReadEvent| e.spec_json()))
}

/// The polls from index `start` on as comma-separated JSON objects.
pub fn zn_input_events_json_from(events: &Vec<ZnBoardInputReadEvent>, start: usize) -> (r: String)
    requires
        start <= events@.len(),
    ensures
        r@ == spec_events_json(events@.subrange(start as int, events@.len() as int)),
{
    let ghost tail = events@.subrange(start as int, events@.len() as int);
    let mut out = String::new();
    let mut i: usize = start;
    while i < events.len()
        invariant
            start <= i <= events@.len(),
            tail == events@.subrange(start as int, events@.len() as int),
            out@ == spec_events_json(tail.take(i - start)),
        decreases events@.len() - i,
    {
        let part = events[i].json();
        proof {
            let done = tail.take(i - start).map_values(|e: ZnBoardInputReadEvent| e.spec_json());
            lemma_join_commas_push(done, part@);
            assert(tail.take(i + 1 - start).map_values(|e: ZnBoardInputReadEvent| e.spec_json())
                =~= done.push(part@));
        }
        push_joined(&mut out, i - start, part.as_str());
        i = i + 1;
    }
    proof {
        assert(tail.take(events@.len() - start) =~= tail);
    }
    out
}

/// All polls as comma-separated JSON objects.
pub fn zn_input_events_json(events: &Vec<ZnBoardInputReadEvent>) -> (r: String)
    ensures
        r@ == spec_events_json(events@),
{
    proof {
        assert(events@.subrange(0, events@.len() as int) =~= events@);
    }
    zn_input_events_json_from(events, 0)
}

/// The newest `limit` polls as comma-separated JSON objects.
pub fn zn_input_tail_events_json(events: &Vec<ZnBoardInputReadEvent>, limit: usize) -> (r: String)
    ensures
        r@ == spec_events_json(
            events@.subrange(
                if events@.len() > limit {
                    events@.len() - limit
                } else {
                    0
                },
                events@.len() as int,
            ),
        ),
{
    let start = events.len().saturating_sub(limit);
    zn_input_events_json_from(events, start)
}

} // verus!
