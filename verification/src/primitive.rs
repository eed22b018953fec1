//! Word stores into the game's primitive RAM: how many there were, which
//! look like packet headers (a word count and a plausible next pointer) and
//! which look like GP0 commands, per opcode and per vertical blank, when
//! each address last received one, and the most recent of each kind.
//!
//! The addresses seen are kept in two tables indexed by the offset into
//! primitive RAM; an entry holds the vertical blank of the last such store.
use vstd::prelude::*;
use crate::gp0::{
    looks_like_gp0_command_opcode, primitive_packet_next_plausible,
    spec_looks_like_gp0_command_opcode, spec_primitive_packet_next_plausible,
    PRIMITIVE_PACKET_MAX_WORDS,
};
use crate::json::{
    dec, hex, join_commas, lemma_join_commas_push, opt_hex32, opt_u32_dec, push_dec, push_hex,
    push_joined, push_opt_hex32, push_opt_u32_dec,
};

verus! {

/// First physical address of primitive RAM.
pub const PRIMITIVE_RAM_FIRST: u32 = 0x0038_0000;
/// Physical address after primitive RAM.
pub const PRIMITIVE_RAM_AFTER: u32 = 0x003c_0000;
/// Bytes of primitive RAM.
pub const PRIMITIVE_RAM_BYTES: usize = 0x0004_0000;
/// Recent stores kept of each kind.
pub const PRIMITIVE_RAM_RECENT_LIMIT: usize = 4096;

/// One store, as kept in the recent lists.
#[derive(Clone, Copy, Debug, PartialEq, Eq, Structural)]
pub struct PrimitiveRamWriteSample {
    pub address: u32,
    pub value: u32,
    pub pc: Option<u32>,
    pub vblank: u64,
    pub cycles: u64,
}

/// What a store looked like.
#[derive(Clone, Copy, Debug, PartialEq, Eq, Structural)]
pub struct PrimitiveRamWriteRecord {
    pub header_like: bool,
    pub command_like: bool,
}

pub open spec fn spec_header_like(value: u32) -> bool {
    1 <= (value >> 24u32) <= PRIMITIVE_PACKET_MAX_WORDS && spec_primitive_packet_next_plausible(
        value & 0x00ff_ffffu32,
    )
}

pub open spec fn spec_command_like(value: u32) -> bool {
    spec_looks_like_gp0_command_opcode((value >> 24u32) as u8)
}

/// `a + 1`, or `a` at the top of the range.
pub open spec fn bump(a: u64) -> u64 {
    if a == u64::MAX {
        a
    } else {
        (a + 1) as u64
    }
}

/// `s` with `x` appended, the oldest entry dropped beyond `limit`.
pub open spec fn spec_recent(s: Seq<PrimitiveRamWriteSample>, x: PrimitiveRamWriteSample) -> Seq<
    PrimitiveRamWriteSample,
> {
    if s.len() + 1 > PRIMITIVE_RAM_RECENT_LIMIT {
        s.push(x).drop_first()
    } else {
        s.push(x)
    }
}

/// The number of addresses a table holds a vertical blank for, among its
/// first `n` entries.
pub open spec fn count_some(t: Seq<Option<u64>>, n: int) -> nat
    decreases n,
{
    if n <= 0 {
        0
    } else {
        count_some(t, n - 1) + if t[n - 1] is Some {
            1nat
        } else {
            0nat
        }
    }
}

pub proof fn lemma_count_some_bound(t: Seq<Option<u64>>, n: int)
    ensures
        n >= 0 ==> count_some(t, n) <= n,
    decreases n,
{
    if n > 0 {
        lemma_count_some_bound(t, n - 1);
    }
}

pub proof fn lemma_count_some_update(t: Seq<Option<u64>>, i: int, v: Option<u64>, n: int)
    requires
        0 <= i < t.len(),
        0 <= n <= t.len(),
    ensures
        count_some(t.update(i, v), n) == count_some(t, n) + (if i < n && v is Some
            && t[i] is None {
            1int
        } else if i < n && v is None && t[i] is Some {
            -1int
        } else {
            0int
        }),
    decreases n,
{
    if n > 0 {
        lemma_count_some_update(t, i, v, n - 1);
    }
}

#[derive(Clone, Debug)]
pub struct PrimitiveRamWriteStats {
    pub writes: u64,
    pub command_like_writes: u64,
    pub header_like_writes: u64,
    pub current_vblank_writes: u64,
    pub current_vblank_command_like_writes: u64,
    pub current_vblank_header_like_writes: u64,
    pub last_vblank_writes: u64,
    pub last_vblank_command_like_writes: u64,
    pub last_vblank_header_like_writes: u64,
    /// Command-like stores by opcode: in all, this vertical blank and the
    /// last one.
    pub opcode_counts: Vec<u64>,
    pub current_vblank_opcode_counts: Vec<u64>,
    pub last_vblank_opcode_counts: Vec<u64>,
    /// By offset into primitive RAM: the vertical blank of the last
    /// header-like, and command-like, store there.
    pub header_write_vblank: Vec<Option<u64>>,
    pub command_write_vblank: Vec<Option<u64>>,
    /// The number of addresses in each table.
    pub tracked_header_addresses: usize,
    pub tracked_command_addresses: usize,
    pub last_address: Option<u32>,
    pub last_value: u32,
    pub last_pc: Option<u32>,
    pub recent_command_like_writes: Vec<PrimitiveRamWriteSample>,
    pub recent_header_like_writes: Vec<PrimitiveRamWriteSample>,
}

impl PrimitiveRamWriteStats {
    /// The per-opcode counts cover every opcode, the tables cover primitive
    /// RAM, the address counts match the tables and the recent lists stay
    /// within their limit.
    pub closed spec fn wf(self) -> bool {
        &&& self.opcode_counts@.len() == 256
        &&& self.current_vblank_opcode_counts@.len() == 256
        &&& self.last_vblank_opcode_counts@.len() == 256
        &&& self.header_write_vblank@.len() == PRIMITIVE_RAM_BYTES
        &&& self.command_write_vblank@.len() == PRIMITIVE_RAM_BYTES
        &&& self.tracked_header_addresses == count_some(
            self.header_write_vblank@,
            PRIMITIVE_RAM_BYTES as int,
        )
        &&& self.tracked_command_addresses == count_some(
            self.command_write_vblank@,
            PRIMITIVE_RAM_BYTES as int,
        )
        &&& self.recent_command_like_writes@.len() <= PRIMITIVE_RAM_RECENT_LIMIT
        &&& self.recent_header_like_writes@.len() <= PRIMITIVE_RAM_RECENT_LIMIT
    }

    /// Well-formed statistics have a count for every opcode and an entry
    /// for every byte of primitive RAM.
    pub proof fn lemma_tables_sized(self)
        requires
            self.wf(),
        ensures
            self.opcode_counts@.len() == 256,
            self.current_vblank_opcode_counts@.len() == 256,
            self.last_vblank_opcode_counts@.len() == 256,
            self.header_write_vblank@.len() == PRIMITIVE_RAM_BYTES,
            self.command_write_vblank@.len() == PRIMITIVE_RAM_BYTES,
    {
    }

    pub open spec fn spec_empty(self) -> bool {
        &&& self.wf()
        &&& self.writes == 0 && self.command_like_writes == 0 && self.header_like_writes == 0
        &&& self.current_vblank_writes == 0 && self.current_vblank_command_like_writes == 0
        &&& self.current_vblank_header_like_writes == 0
        &&& self.last_vblank_writes == 0 && self.last_vblank_command_like_writes == 0
        &&& self.last_vblank_header_like_writes == 0
        &&& forall|i: int| 0 <= i < 256 ==> self.opcode_counts@[i] == 0
        &&& forall|i: int| 0 <= i < 256 ==> self.current_vblank_opcode_counts@[i] == 0
        &&& forall|i: int| 0 <= i < 256 ==> self.last_vblank_opcode_counts@[i] == 0
        &&& forall|i: int| 0 <= i < PRIMITIVE_RAM_BYTES ==> self.header_write_vblank@[i] is None
        &&& forall|i: int| 0 <= i < PRIMITIVE_RAM_BYTES ==> self.command_write_vblank@[i] is None
        &&& self.last_address is None && self.last_value == 0 && self.last_pc is None
        &&& self.recent_command_like_writes@.len() == 0
        &&& self.recent_header_like_writes@.len() == 0
    }

    /// No stores seen yet.
    pub fn new() -> (r: Self)
        ensures
            r.spec_empty(),
    {
        let opcode_counts = zero_counts();
        let current_vblank_opcode_counts = zero_counts();
        let last_vblank_opcode_counts = zero_counts();
        let header_write_vblank = empty_table();
        let command_write_vblank = empty_table();
        PrimitiveRamWriteStats {
            writes: 0,
            command_like_writes: 0,
            header_like_writes: 0,
            current_vblank_writes: 0,
            current_vblank_command_like_writes: 0,
            current_vblank_header_like_writes: 0,
            last_vblank_writes: 0,
            last_vblank_command_like_writes: 0,
            last_vblank_header_like_writes: 0,
            opcode_counts,
            current_vblank_opcode_counts,
            last_vblank_opcode_counts,
            header_write_vblank,
            command_write_vblank,
            tracked_header_addresses: 0,
            tracked_command_addresses: 0,
            last_address: None,
            last_value: 0,
            last_pc: None,
            recent_command_like_writes: Vec::new(),
            recent_header_like_writes: Vec::new(),
        }
    }
}

pub(crate) fn zero_counts() -> (r: Vec<u64>)
    ensures
        r@.len() == 256,
        forall|i: int| 0 <= i < 256 ==> r@[i] == 0,
{
    let mut v: Vec<u64> = Vec::new();
    while v.len() < 256
        invariant
            v.len() <= 256,
            forall|i: int| 0 <= i < v.len() ==> v@[i] == 0,
        decreases 256 - v.len(),
    {
        v.push(0);
    }
    v
}

proof fn lemma_count_none(t: Seq<Option<u64>>, n: int)
    requires
        0 <= n <= t.len(),
        forall|i: int| 0 <= i < n ==> t[i] is None,
    ensures
        count_some(t, n) == 0,
    decreases n,
{
    if n > 0 {
        lemma_count_none(t, n - 1);
    }
}

fn empty_table() -> (r: Vec<Option<u64>>)
    ensures
        r@.len() == PRIMITIVE_RAM_BYTES,
        forall|i: int| 0 <= i < PRIMITIVE_RAM_BYTES ==> r@[i] is None,
        count_some(r@, PRIMITIVE_RAM_BYTES as int) == 0,
{
    let mut v: Vec<Option<u64>> = Vec::new();
    while v.len() < PRIMITIVE_RAM_BYTES
        invariant
            v.len() <= PRIMITIVE_RAM_BYTES,
            forall|i: int| 0 <= i < v.len() ==> v@[i] is None,
        decreases PRIMITIVE_RAM_BYTES - v.len(),
    {
        v.push(None);
    }
    proof {
        lemma_count_none(v@, PRIMITIVE_RAM_BYTES as int);
    }
    v
}

fn push_recent(list: &mut Vec<PrimitiveRamWriteSample>, sample: PrimitiveRamWriteSample)
    requires
        old(list)@.len() <= PRIMITIVE_RAM_RECENT_LIMIT,
    ensures
        final(list)@ == spec_recent(old(list)@, sample),
        final(list)@.len() <= PRIMITIVE_RAM_RECENT_LIMIT,
{
    list.push(sample);
    if list.len() > PRIMITIVE_RAM_RECENT_LIMIT {
        list.remove(0);
        assert(list@ =~= spec_recent(old(list)@, sample));
    }
}

/// Records the vertical blank of a store at table offset `offset`.
fn note_address(table: &mut Vec<Option<u64>>, count: &mut usize, offset: usize, vblank: u64)
    requires
        old(table)@.len() == PRIMITIVE_RAM_BYTES,
        offset < PRIMITIVE_RAM_BYTES,
        *old(count) == count_some(old(table)@, PRIMITIVE_RAM_BYTES as int),
    ensures
        final(table)@ == old(table)@.update(offset as int, Some(vblank)),
        *final(count) == count_some(final(table)@, PRIMITIVE_RAM_BYTES as int),
{
    proof {
        lemma_count_some_update(old(table)@, offset as int, Some(vblank), PRIMITIVE_RAM_BYTES as int);
        lemma_count_some_bound(old(table)@.update(offset as int, Some(vblank)), PRIMITIVE_RAM_BYTES as int);
    }
    if table[offset].is_none() {
        *count = *count + 1;
    }
    table.set(offset, Some(vblank));
}

fn bump_count(counts: &mut Vec<u64>, index: usize)
    requires
        index < old(counts)@.len(),
    ensures
        final(counts)@ == old(counts)@.update(index as int, bump(old(counts)@[index as int])),
{
    let c = counts[index];
    counts.set(index, c.saturating_add(1));
}

impl PrimitiveRamWriteStats {
    /// The statistics after a store of `value` at `address`, which lies in
    /// primitive RAM, with the given context.
    pub open spec fn spec_record_effect(
        self,
        address: u32,
        value: u32,
        pc: Option<u32>,
        vblank: u64,
        cycles: u64,
        result: Self,
    ) -> bool {
        let sample = PrimitiveRamWriteSample { address, value, pc, vblank, cycles };
        let offset = (address - PRIMITIVE_RAM_FIRST) as int;
        let header = spec_header_like(value);
        let command = spec_command_like(value);
        let op = (value >> 24u32) as int;
        &&& result.wf()
        &&& result.writes == bump(self.writes)
        &&& result.current_vblank_writes == bump(self.current_vblank_writes)
        &&& result.last_address == Some(address)
        &&& result.last_value == value
        &&& result.last_pc == pc
        &&& result.last_vblank_writes == self.last_vblank_writes
        &&& result.last_vblank_command_like_writes == self.last_vblank_command_like_writes
        &&& result.last_vblank_header_like_writes == self.last_vblank_header_like_writes
        &&& result.last_vblank_opcode_counts@ == self.last_vblank_opcode_counts@
        &&& if header {
            &&& result.header_like_writes == bump(self.header_like_writes)
            &&& result.current_vblank_header_like_writes == bump(
                self.current_vblank_header_like_writes,
            )
            &&& result.recent_header_like_writes@ == spec_recent(
                self.recent_header_like_writes@,
                sample,
            )
            &&& result.header_write_vblank@ == self.header_write_vblank@.update(
                offset,
                Some(vblank),
            )
        } else {
            &&& result.header_like_writes == self.header_like_writes
            &&& result.current_vblank_header_like_writes == self.current_vblank_header_like_writes
            &&& result.recent_header_like_writes@ == self.recent_header_like_writes@
            &&& result.header_write_vblank@ == self.header_write_vblank@
        }
        &&& if command {
            &&& result.command_like_writes == bump(self.command_like_writes)
            &&& result.current_vblank_command_like_writes == bump(
                self.current_vblank_command_like_writes,
            )
            &&& result.opcode_counts@ == self.opcode_counts@.update(
                op,
                bump(self.opcode_counts@[op]),
            )
            &&& result.current_vblank_opcode_counts@ == self.current_vblank_opcode_counts@.update(
                op,
                bump(self.current_vblank_opcode_counts@[op]),
            )
            &&& result.command_write_vblank@ == self.command_write_vblank@.update(
                offset,
                Some(vblank),
            )
            &&& result.recent_command_like_writes@ == spec_recent(
                self.recent_command_like_writes@,
                sample,
            )
        } else {
            &&& result.command_like_writes == self.command_like_writes
            &&& result.current_vblank_command_like_writes == self.current_vblank_command_like_writes
            &&& result.opcode_counts@ == self.opcode_counts@
            &&& result.current_vblank_opcode_counts@ == self.current_vblank_opcode_counts@
            &&& result.command_write_vblank@ == self.command_write_vblank@
            &&& result.recent_command_like_writes@ == self.recent_command_like_writes@
        }
    }

    /// Counts a word store of `value` at `address` in primitive RAM: a
    /// header-like word (a word count of 1 to 64 and a plausible next
    /// pointer) and a command-like word (a GP0 command opcode in the top
    /// byte) are counted, logged and noted against their address.
    pub fn record(
        &mut self,
        address: u32,
        value: u32,
        pc: Option<u32>,
        vblank: u64,
        cycles: u64,
    ) -> (r: PrimitiveRamWriteRecord)
        requires
            old(self).wf(),
            PRIMITIVE_RAM_FIRST <= address < PRIMITIVE_RAM_AFTER,
        ensures
            old(self).spec_record_effect(address, value, pc, vblank, cycles, *final(self)),
            r == (PrimitiveRamWriteRecord {
                header_like: spec_header_like(value),
                command_like: spec_command_like(value),
            }),
    {
        proof {
            crate::gp0::lemma_opcode_range(value);
        }
        self.writes = self.writes.saturating_add(1);
        self.current_vblank_writes = self.current_vblank_writes.saturating_add(1);
        self.last_address = Some(address);
        self.last_value = value;
        self.last_pc = pc;
        let offset = (address - PRIMITIVE_RAM_FIRST) as usize;
        let sample = PrimitiveRamWriteSample { address, value, pc, vblank, cycles };
        let words = value >> 24;
        let header_like = 1 <= words && words <= PRIMITIVE_PACKET_MAX_WORDS
            && primitive_packet_next_plausible(value & 0x00ff_ffff);
        if header_like {
            self.header_like_writes = self.header_like_writes.saturating_add(1);
            self.current_vblank_header_like_writes =
            self.current_vblank_header_like_writes.saturating_add(1);
            push_recent(&mut self.recent_header_like_writes, sample);
            note_address(
                &mut self.header_write_vblank,
                &mut self.tracked_header_addresses,
                offset,
                vblank,
            );
        }
        let opcode = (value >> 24) as u8;
        if !looks_like_gp0_command_opcode(opcode) {
            return PrimitiveRamWriteRecord { header_like, command_like: false };
        }
        let index = opcode as usize;
        self.command_like_writes = self.command_like_writes.saturating_add(1);
        self.current_vblank_command_like_writes =
        self.current_vblank_command_like_writes.saturating_add(1);
        bump_count(&mut self.opcode_counts, index);
        bump_count(&mut self.current_vblank_opcode_counts, index);
        note_address(
            &mut self.command_write_vblank,
            &mut self.tracked_command_addresses,
            offset,
            vblank,
        );
        push_recent(&mut self.recent_command_like_writes, sample);
        PrimitiveRamWriteRecord { header_like, command_like: true }
    }

    pub open spec fn spec_advanced(self) -> Self {
        PrimitiveRamWriteStats {
            last_vblank_writes: self.current_vblank_writes,
            last_vblank_command_like_writes: self.current_vblank_command_like_writes,
            last_vblank_header_like_writes: self.current_vblank_header_like_writes,
            current_vblank_writes: 0,
            current_vblank_command_like_writes: 0,
            current_vblank_header_like_writes: 0,
            ..self
        }
    }

    /// Starts a new vertical blank: this one's counts become the last one's.
    pub fn advance_vblank(&mut self)
        requires
            old(self).wf(),
        ensures
            old(self).spec_advanced_to(*final(self)),
    {
        self.last_vblank_writes = self.current_vblank_writes;
        self.last_vblank_command_like_writes = self.current_vblank_command_like_writes;
        self.last_vblank_header_like_writes = self.current_vblank_header_like_writes;
        self.current_vblank_writes = 0;
        self.current_vblank_command_like_writes = 0;
        self.current_vblank_header_like_writes = 0;
        let mut fresh = zero_counts();
        std::mem::swap(&mut self.current_vblank_opcode_counts, &mut fresh);
        self.last_vblank_opcode_counts = fresh;
    }

    /// The vertical blank of the last header-like store at `address`.
    pub fn header_write_vblank(&self, address: u32) -> (r: Option<u64>)
        requires
            self.wf(),
        ensures
            r == if PRIMITIVE_RAM_FIRST <= address < PRIMITIVE_RAM_AFTER {
                self.header_write_vblank@[address - PRIMITIVE_RAM_FIRST]
            } else {
                None
            },
    {
        if address < PRIMITIVE_RAM_FIRST || address >= PRIMITIVE_RAM_AFTER {
            return None;
        }
        self.header_write_vblank[(address - PRIMITIVE_RAM_FIRST) as usize]
    }

    /// The vertical blank of the last command-like store at `address`.
    pub fn command_write_vblank(&self, address: u32) -> (r: Option<u64>)
        requires
            self.wf(),
        ensures
            r == if PRIMITIVE_RAM_FIRST <= address < PRIMITIVE_RAM_AFTER {
                self.command_write_vblank@[address - PRIMITIVE_RAM_FIRST]
            } else {
                None
            },
    {
        if address < PRIMITIVE_RAM_FIRST || address >= PRIMITIVE_RAM_AFTER {
            return None;
        }
        self.command_write_vblank[(address - PRIMITIVE_RAM_FIRST) as usize]
    }
}

impl PrimitiveRamWriteStats {
    /// `result` is these statistics after a vertical blank: this one's
    /// counts become the last one's and restart from zero.
    pub open spec fn spec_advanced_to(self, result: Self) -> bool {
        &&& result.wf()
        &&& (PrimitiveRamWriteStats {
            last_vblank_opcode_counts: self.last_vblank_opcode_counts,
            current_vblank_opcode_counts: self.current_vblank_opcode_counts,
            ..result
        }) == self.spec_advanced()
        &&& result.last_vblank_opcode_counts@ == self.current_vblank_opcode_counts@
        &&& forall|i: int| 0 <= i < 256 ==> result.current_vblank_opcode_counts@[i] == 0
    }
}

impl PrimitiveRamWriteStats {
    /// `result` is these statistics after two or more vertical blanks: the
    /// per-vertical-blank counts are all zero.
    pub open spec fn spec_quiet_from(self, result: Self) -> bool {
        &&& result.wf()
        &&& (PrimitiveRamWriteStats {
            last_vblank_opcode_counts: self.last_vblank_opcode_counts,
            current_vblank_opcode_counts: self.current_vblank_opcode_counts,
            ..result
        }) == (PrimitiveRamWriteStats {
            last_vblank_writes: 0,
            last_vblank_command_like_writes: 0,
            last_vblank_header_like_writes: 0,
            current_vblank_writes: 0,
            current_vblank_command_like_writes: 0,
            current_vblank_header_like_writes: 0,
            ..self
        })
        &&& forall|i: int| 0 <= i < 256 ==> result.last_vblank_opcode_counts@[i] == 0
        &&& forall|i: int| 0 <= i < 256 ==> result.current_vblank_opcode_counts@[i] == 0
    }

    /// `result` is these statistics after `n` vertical blanks without stores.
    pub open spec fn spec_after_vblanks(self, n: int, result: Self) -> bool {
        if n <= 0 {
            result == self
        } else if n == 1 {
            self.spec_advanced_to(result)
        } else {
            self.spec_quiet_from(result)
        }
    }
}

pub proof fn lemma_after_one_more_vblank(
    s: PrimitiveRamWriteStats,
    n: int,
    mid: PrimitiveRamWriteStats,
    result: PrimitiveRamWriteStats,
)
    requires
        n >= 0,
        s.wf(),
        s.spec_after_vblanks(n, mid),
        mid.spec_advanced_to(result),
    ensures
        s.spec_after_vblanks(n + 1, result),
{
    if n == 1 {
        assert(result.last_vblank_opcode_counts@ =~= mid.current_vblank_opcode_counts@);
    }
}

/// The addresses among the first `n` table entries last written at or
/// after `min_vblank`.
pub open spec fn count_since(t: Seq<Option<u64>>, min_vblank: u64, n: int) -> nat
    decreases n,
{
    if n <= 0 {
        0
    } else {
        count_since(t, min_vblank, n - 1) + if t[n - 1] matches Some(v) && v >= min_vblank {
            1nat
        } else {
            0nat
        }
    }
}

proof fn lemma_count_since_bound(t: Seq<Option<u64>>, min_vblank: u64, n: int)
    ensures
        n >= 0 ==> count_since(t, min_vblank, n) <= n,
    decreases n,
{
    if n > 0 {
        lemma_count_since_bound(t, min_vblank, n - 1);
    }
}

/// A table entry at or after `min_vblank` among the first `n` makes the
/// count positive.
proof fn lemma_count_since_positive(t: Seq<Option<u64>>, min_vblank: u64, n: int, i: int)
    requires
        0 <= i < n,
        t[i] matches Some(v) && v >= min_vblank,
    ensures
        count_since(t, min_vblank, n) >= 1,
    decreases n,
{
    if i < n - 1 {
        lemma_count_since_positive(t, min_vblank, n - 1, i);
    }
}

/// A header-like store is found again: its address holds the store's
/// vertical blank, and counts among the recent headers for every window
/// that starts at or before that vertical blank.
pub proof fn law_header_store_is_found_again(
    s0: PrimitiveRamWriteStats,
    address: u32,
    value: u32,
    pc: Option<u32>,
    vblank: u64,
    cycles: u64,
    s1: PrimitiveRamWriteStats,
    min_vblank: u64,
)
    requires
        s0.wf(),
        PRIMITIVE_RAM_FIRST <= address < PRIMITIVE_RAM_AFTER,
        s0.spec_record_effect(address, value, pc, vblank, cycles, s1),
        spec_header_like(value),
    ensures
        s1.header_write_vblank@[address - PRIMITIVE_RAM_FIRST] == Some(vblank),
        min_vblank <= vblank ==> s1.spec_recent_header_count(min_vblank) >= 1,
{
    let i = (address - PRIMITIVE_RAM_FIRST) as int;
    if min_vblank <= vblank {
        lemma_count_since_positive(
            s1.header_write_vblank@,
            min_vblank,
            PRIMITIVE_RAM_BYTES as int,
            i,
        );
    }
}

/// A vertical blank keeps what was stored where: both address tables and
/// the totals stay as they were.
pub proof fn law_vblank_keeps_address_tables(s0: PrimitiveRamWriteStats, s1: PrimitiveRamWriteStats)
    requires
        s0.wf(),
        s0.spec_advanced_to(s1),
    ensures
        s1.header_write_vblank@ == s0.header_write_vblank@,
        s1.command_write_vblank@ == s0.command_write_vblank@,
        s1.writes == s0.writes,
        s1.header_like_writes == s0.header_like_writes,
        s1.command_like_writes == s0.command_like_writes,
        s1.opcode_counts@ == s0.opcode_counts@,
{
}

/// Saturating sum, over the draw opcodes below `n` from 0x20 on, of this
/// and the last vertical blank's command-like stores.
pub open spec fn draw_writes_below(current: Seq<u64>, last: Seq<u64>, n: int) -> u64
    decreases n,
{
    if n <= 0x20 {
        0
    } else {
        let rest = draw_writes_below(current, last, n - 1);
        let here = if current[n - 1] + last[n - 1] > u64::MAX {
            u64::MAX as int
        } else {
            current[n - 1] + last[n - 1]
        };
        if rest + here > u64::MAX {
            u64::MAX
        } else {
            (rest + here) as u64
        }
    }
}

pub open spec fn sample_json(s: PrimitiveRamWriteSample) -> Seq<char> {
    "{\"address\":"@ + dec(s.address as nat) + ",\"address_hex\":\"0x"@ + hex(s.address as nat, 8)
        + "\",\"value\":"@ + dec(s.value as nat) + ",\"value_hex\":\"0x"@ + hex(s.value as nat, 8)
        + "\",\"opcode\":"@ + dec((s.value >> 24u32) as nat) + ",\"opcode_hex\":\"0x"@ + hex(
        (s.value >> 24u32) as nat,
        2,
    ) + "\",\"pc\":"@ + opt_u32_dec(s.pc) + ",\"pc_hex\":"@ + opt_hex32(s.pc) + ",\"vblank\":"@
        + dec(s.vblank as nat) + ",\"cycles\":"@ + dec(s.cycles as nat) + "}"@
}

pub open spec fn samples_json(list: Seq<PrimitiveRamWriteSample>) -> Seq<char> {
    join_commas(list.map_values(|s: PrimitiveRamWriteSample| sample_json(s)))
}

pub open spec fn opcode_entry_json(op: int, count: u64) -> Seq<char> {
    "{\"opcode\":"@ + dec(op as nat) + ",\"opcode_hex\":\"0x"@ + hex(op as nat, 2) + "\",\"count\":"@
        + dec(count as nat) + "}"@
}

/// The entries of the non-zero counts among the first `n` opcodes.
pub open spec fn opcode_parts(counts: Seq<u64>, n: int) -> Seq<Seq<char>>
    decreases n,
{
    if n <= 0 {
        Seq::empty()
    } else if counts[n - 1] != 0 {
        opcode_parts(counts, n - 1).push(opcode_entry_json(n - 1, counts[n - 1]))
    } else {
        opcode_parts(counts, n - 1)
    }
}

pub open spec fn opcode_counts_json(counts: Seq<u64>) -> Seq<char> {
    join_commas(opcode_parts(counts, 256))
}

proof fn lemma_opcode_parts_len(counts: Seq<u64>, n: int)
    ensures
        n >= 0 ==> opcode_parts(counts, n).len() <= n,
    decreases n,
{
    if n > 0 {
        lemma_opcode_parts_len(counts, n - 1);
    }
}

fn sample_entry_json(s: &PrimitiveRamWriteSample) -> (r: String)
    ensures
        r@ == sample_json(*s),
{
    let mut out = String::from_str("{\"address\":");
    push_dec(&mut out, s.address as u64);
    out.append(",\"address_hex\":\"0x");
    push_hex(&mut out, s.address as u64, 8);
    out.append("\",\"value\":");
    push_dec(&mut out, s.value as u64);
    out.append(",\"value_hex\":\"0x");
    push_hex(&mut out, s.value as u64, 8);
    out.append("\",\"opcode\":");
    push_dec(&mut out, (s.value >> 24) as u64);
    out.append(",\"opcode_hex\":\"0x");
    push_hex(&mut out, (s.value >> 24) as u64, 2);
    out.append("\",\"pc\":");
    push_opt_u32_dec(&mut out, s.pc);
    out.append(",\"pc_hex\":");
    push_opt_hex32(&mut out, s.pc);
    out.append(",\"vblank\":");
    push_dec(&mut out, s.vblank);
    out.append(",\"cycles\":");
    push_dec(&mut out, s.cycles);
    out.append("}");
    out
}

fn push_samples_json(out: &mut String, list: &Vec<PrimitiveRamWriteSample>)
    ensures
        final(out)@ == old(out)@ + samples_json(list@),
{
    let ghost start = out@;
    let mut i: usize = 0;
    while i < list.len()
        invariant
            i <= list@.len(),
            out@ == start + samples_json(list@.take(i as int)),
        decreases list@.len() - i,
    {
        let part = sample_entry_json(&list[i]);
        proof {
            let done = list@.take(i as int).map_values(|s: PrimitiveRamWriteSample| sample_json(s));
            lemma_join_commas_push(done, part@);
            assert(list@.take(i + 1).map_values(|s: PrimitiveRamWriteSample| sample_json(s))
                =~= done.push(part@));
        }
        push_joined(out, i, part.as_str());
        proof {
            assert(out@ =~= start + samples_json(list@.take(i + 1)));
        }
        i = i + 1;
    }
    proof {
        assert(list@.take(list@.len() as int) =~= list@);
    }
}

pub(crate) fn push_opcode_counts_json(out: &mut String, counts: &Vec<u64>)
    requires
        counts@.len() == 256,
    ensures
        final(out)@ == old(out)@ + opcode_counts_json(counts@),
{
    let ghost start = out@;
    let mut parts: usize = 0;
    let mut i: usize = 0;
    while i < 256
        invariant
            i <= 256,
            counts@.len() == 256,
            parts == opcode_parts(counts@, i as int).len(),
            out@ == start + join_commas(opcode_parts(counts@, i as int)),
        decreases 256 - i,
    {
        proof {
            lemma_opcode_parts_len(counts@, i as int);
        }
        let count = counts[i];
        if count != 0 {
            let mut part = String::from_str("{\"opcode\":");
            push_dec(&mut part, i as u64);
            part.append(",\"opcode_hex\":\"0x");
            push_hex(&mut part, i as u64, 2);
            part.append("\",\"count\":");
            push_dec(&mut part, count);
            part.append("}");
            proof {
                lemma_join_commas_push(opcode_parts(counts@, i as int), part@);
            }
            push_joined(out, parts, part.as_str());
            parts = parts + 1;
        }
        i = i + 1;
    }
}

impl PrimitiveRamWriteStats {
    pub open spec fn spec_recent_header_count(self, min_vblank: u64) -> nat {
        count_since(self.header_write_vblank@, min_vblank, PRIMITIVE_RAM_BYTES as int)
    }

    /// The number of addresses last given a header-like store at or after
    /// `min_vblank`.
    pub fn recent_header_count(&self, min_vblank: u64) -> (r: usize)
        requires
            self.wf(),
        ensures
            r == self.spec_recent_header_count(min_vblank),
    {
        let mut count: usize = 0;
        let mut i: usize = 0;
        while i < PRIMITIVE_RAM_BYTES
            invariant
                self.wf(),
                i <= PRIMITIVE_RAM_BYTES,
                count == count_since(self.header_write_vblank@, min_vblank, i as int),
            decreases PRIMITIVE_RAM_BYTES - i,
        {
            proof {
                lemma_count_since_bound(self.header_write_vblank@, min_vblank, i as int);
            }
            match self.header_write_vblank[i] {
                Some(v) => {
                    if v >= min_vblank {
                        count = count + 1;
                    }
                },
                None => {},
            }
            i = i + 1;
        }
        count
    }

    pub open spec fn spec_recent_draw_writes(self) -> u64 {
        draw_writes_below(
            self.current_vblank_opcode_counts@,
            self.last_vblank_opcode_counts@,
            0x80,
        )
    }

    /// Command-like stores of draw opcodes (0x20 to 0x7f) in this and the
    /// last vertical blank, with saturation.
    pub fn recent_draw_writes(&self) -> (r: u64)
        requires
            self.wf(),
        ensures
            r == self.spec_recent_draw_writes(),
    {
        let mut total: u64 = 0;
        let mut op: usize = 0x20;
        while op < 0x80
            invariant
                self.wf(),
                0x20 <= op <= 0x80,
                total == draw_writes_below(
                    self.current_vblank_opcode_counts@,
                    self.last_vblank_opcode_counts@,
                    op as int,
                ),
            decreases 0x80 - op,
        {
            let here = self.current_vblank_opcode_counts[op].saturating_add(
                self.last_vblank_opcode_counts[op],
            );
            total = total.saturating_add(here);
            op = op + 1;
        }
        total
    }

    pub open spec fn spec_json(self) -> Seq<char> {
        "{\"range_start\":\"0x00380000\",\"range_end\":\"0x003c0000\",\"writes\":"@ + dec(
            self.writes as nat,
        ) + ",\"command_like_writes\":"@ + dec(self.command_like_writes as nat)
            + ",\"header_like_writes\":"@ + dec(self.header_like_writes as nat)
            + ",\"tracked_header_addresses\":"@ + dec(self.tracked_header_addresses as nat)
            + ",\"tracked_command_addresses\":"@ + dec(self.tracked_command_addresses as nat)
            + ",\"current_vblank_writes\":"@ + dec(self.current_vblank_writes as nat)
            + ",\"current_vblank_command_like_writes\":"@ + dec(
            self.current_vblank_command_like_writes as nat,
        ) + ",\"current_vblank_header_like_writes\":"@ + dec(
            self.current_vblank_header_like_writes as nat,
        ) + ",\"last_vblank_writes\":"@ + dec(self.last_vblank_writes as nat)
            + ",\"last_vblank_command_like_writes\":"@ + dec(
            self.last_vblank_command_like_writes as nat,
        ) + ",\"last_vblank_header_like_writes\":"@ + dec(
            self.last_vblank_header_like_writes as nat,
        ) + ",\"opcode_counts\":["@ + opcode_counts_json(self.opcode_counts@)
            + "],\"current_vblank_opcode_counts\":["@ + opcode_counts_json(
            self.current_vblank_opcode_counts@,
        ) + "],\"last_vblank_opcode_counts\":["@ + opcode_counts_json(
            self.last_vblank_opcode_counts@,
        ) + "],\"last_address\":"@ + opt_u32_dec(self.last_address) + ",\"last_address_hex\":"@
            + opt_hex32(self.last_address) + ",\"last_value\":"@ + dec(self.last_value as nat)
            + ",\"last_value_hex\":\"0x"@ + hex(self.last_value as nat, 8) + "\",\"last_pc\":"@
            + opt_u32_dec(self.last_pc) + ",\"last_pc_hex\":"@ + opt_hex32(self.last_pc)
            + ",\"recent_command_like_writes\":["@ + samples_json(self.recent_command_like_writes@)
            + "],\"recent_header_like_writes\":["@ + samples_json(self.recent_header_like_writes@)
            + "]}"@
    }

    /// Every counter, the per-opcode counts that are not zero, the last
    /// store and the recent stores of each kind, as JSON.
    pub fn json(&self) -> (r: String)
        requires
            self.wf(),
        ensures
            r@ == self.spec_json(),
    {
        let mut out = String::from_str(
            "{\"range_start\":\"0x00380000\",\"range_end\":\"0x003c0000\",\"writes\":",
        );
        push_dec(&mut out, self.writes);
        out.append(",\"command_like_writes\":");
        push_dec(&mut out, self.command_like_writes);
        out.append(",\"header_like_writes\":");
        push_dec(&mut out, self.header_like_writes);
        out.append(",\"tracked_header_addresses\":");
        push_dec(&mut out, self.tracked_header_addresses as u64);
        out.append(",\"tracked_command_addresses\":");
        push_dec(&mut out, self.tracked_command_addresses as u64);
        out.append(",\"current_vblank_writes\":");
        push_dec(&mut out, self.current_vblank_writes);
        out.append(",\"current_vblank_command_like_writes\":");
        push_dec(&mut out, self.current_vblank_command_like_writes);
        out.append(",\"current_vblank_header_like_writes\":");
        push_dec(&mut out, self.current_vblank_header_like_writes);
        out.append(",\"last_vblank_writes\":");
        push_dec(&mut out, self.last_vblank_writes);
        out.append(",\"last_vblank_command_like_writes\":");
        push_dec(&mut out, self.last_vblank_command_like_writes);
        out.append(",\"last_vblank_header_like_writes\":");
        push_dec(&mut out, self.last_vblank_header_like_writes);
        out.append(",\"opcode_counts\":[");
        push_opcode_counts_json(&mut out, &self.opcode_counts);
        out.append("],\"current_vblank_opcode_counts\":[");
        push_opcode_counts_json(&mut out, &self.current_vblank_opcode_counts);
        out.append("],\"last_vblank_opcode_counts\":[");
        push_opcode_counts_json(&mut out, &self.last_vblank_opcode_counts);
        out.append("],\"last_address\":");
        push_opt_u32_dec(&mut out, self.last_address);
        out.append(",\"last_address_hex\":");
        push_opt_hex32(&mut out, self.last_address);
        out.append(",\"last_value\":");
        push_dec(&mut out, self.last_value as u64);
        out.append(",\"last_value_hex\":\"0x");
        push_hex(&mut out, self.last_value as u64, 8);
        out.append("\",\"last_pc\":");
        push_opt_u32_dec(&mut out, self.last_pc);
        out.append(",\"last_pc_hex\":");
        push_opt_hex32(&mut out, self.last_pc);
        out.append(",\"recent_command_like_writes\":[");
        push_samples_json(&mut out, &self.recent_command_like_writes);
        out.append("],\"recent_header_like_writes\":[");
        push_samples_json(&mut out, &self.recent_header_like_writes);
        out.append("]}");
        out
    }
}

} // verus!
