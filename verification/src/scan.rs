//! The scan of primitive RAM for packets: every word that reads as a
//! packet header followed by a well-formed run of GP0 commands is a
//! candidate, linked when the GPU's last linked list visited it.
use vstd::prelude::*;
use crate::bus::Bus;
use crate::gp0::{
    gp0_command_word_count, looks_like_gp0_command_opcode, primitive_packet_next_plausible,
    gp0_command_is_replay_safe_draw, spec_gp0_command_word_count, spec_is_replay_safe_draw,
    spec_looks_like_gp0_command_opcode,
    spec_primitive_packet_next_plausible, PRIMITIVE_PACKET_MAX_WORDS, PRIMITIVE_RAM_END,
    PRIMITIVE_RAM_START,
};
use crate::json::{
    bool_text, dec, hex, join_commas, lemma_join_commas_push, opt_dec, push_bool, push_dec, push_hex,
    push_joined, push_opt_dec,
};
use crate::primitive::{
    opcode_counts_json, push_opcode_counts_json, PRIMITIVE_RAM_AFTER, PRIMITIVE_RAM_FIRST,
};

verus! {

/// A candidate packet as the scan reports it.
#[derive(Clone, Copy, Debug, PartialEq, Eq, Structural)]
pub struct PrimitivePacketCandidateSample {
    pub address: u32,
    pub header: u32,
    pub word_count: u32,
    pub next: u32,
    pub linked: bool,
    pub first_command: u32,
    pub header_write_vblank: Option<u64>,
    pub command_write_vblank: Option<u64>,
}

/// The entry of a per-address table for `address`, or none outside
/// primitive RAM.
pub open spec fn spec_table_at(t: Seq<Option<u64>>, address: u32) -> Option<u64> {
    if PRIMITIVE_RAM_FIRST <= address < PRIMITIVE_RAM_AFTER {
        t[address - PRIMITIVE_RAM_FIRST]
    } else {
        None
    }
}

/// The physical address of word `i` of the packet at `address`.
pub open spec fn packet_word_address(address: u32, i: int) -> u32 {
    (address + 4 + 4 * i) as u32
}

/// The first `n` command words of the packet at `address`, if RAM holds
/// them all.
pub open spec fn spec_packet_words(bus: Bus, address: u32, n: int) -> Option<Seq<u32>>
    decreases n,
{
    if n <= 0 {
        Some(Seq::empty())
    } else {
        match spec_packet_words(bus, address, n - 1) {
            None => None,
            Some(ws) => match bus.spec_ram_word(packet_word_address(address, n - 1)) {
                None => None,
                Some(w) => Some(ws.push(w)),
            },
        }
    }
}

/// The commands from `offset` on split cleanly into whole GP0 commands.
pub open spec fn spec_commands_split_from(ws: Seq<u32>, offset: int) -> bool
    decreases ws.len() - offset,
{
    if offset < 0 || offset >= ws.len() {
        true
    } else {
        match spec_gp0_command_word_count(ws.subrange(offset, ws.len() as int)) {
            None => false,
            Some(c) => c != 0 && offset + c <= ws.len() && spec_commands_split_from(ws, offset + c),
        }
    }
}

/// The packet's `word_count` words can be read and split into whole GP0
/// commands.
pub open spec fn spec_packet_words_plausible(bus: Bus, address: u32, word_count: u32) -> bool {
    match spec_packet_words(bus, address, word_count as int) {
        None => false,
        Some(ws) => spec_commands_split_from(ws, 0),
    }
}

/// The latest vertical blank of a command-like store among the first `n`
/// command words of the packet.
pub open spec fn spec_latest_command_vblank(bus: Bus, address: u32, n: int) -> Option<u64>
    decreases n,
{
    if n <= 0 {
        None
    } else {
        let prev = spec_latest_command_vblank(bus, address, n - 1);
        match spec_table_at(
            bus.primitive_ram_writes.command_write_vblank@,
            packet_word_address(address, n - 1),
        ) {
            None => prev,
            Some(v) => Some(
                match prev {
                    Some(p) => if p >= v {
                        p
                    } else {
                        v
                    },
                    None => v,
                },
            ),
        }
    }
}

pub open spec fn mask_node(a: u32) -> u32 {
    a & 0x00ff_fffcu32
}

/// Some visited node lies at `address`, ignoring the two low bits.
pub open spec fn spec_linked(nodes: Seq<u32>, address: u32) -> bool {
    exists|i: int| 0 <= i < nodes.len() && mask_node(#[trigger] nodes[i]) == mask_node(address)
}

/// The packet at `address`, if it is a candidate.
pub open spec fn spec_candidate(bus: Bus, nodes: Seq<u32>, address: u32) -> Option<
    PrimitivePacketCandidateSample,
> {
    match bus.spec_ram_word(address) {
        None => None,
        Some(header) => {
            let word_count = header >> 24u32;
            let next = header & 0x00ff_ffffu32;
            if !(1 <= word_count <= PRIMITIVE_PACKET_MAX_WORDS) {
                None
            } else if address + 4 + word_count * 4 > PRIMITIVE_RAM_END {
                None
            } else if !spec_primitive_packet_next_plausible(next) {
                None
            } else {
                match bus.spec_ram_word((address + 4) as u32) {
                    None => None,
                    Some(first_command) => {
                        if !spec_looks_like_gp0_command_opcode((first_command >> 24u32) as u8) {
                            None
                        } else if !spec_packet_words_plausible(bus, address, word_count) {
                            None
                        } else {
                            Some(
                                PrimitivePacketCandidateSample {
                                    address,
                                    header,
                                    word_count,
                                    next,
                                    linked: spec_linked(nodes, address),
                                    first_command,
                                    header_write_vblank: spec_table_at(
                                        bus.primitive_ram_writes.header_write_vblank@,
                                        address,
                                    ),
                                    command_write_vblank: spec_latest_command_vblank(
                                        bus,
                                        address,
                                        word_count as int,
                                    ),
                                },
                            )
                        }
                    },
                }
            }
        },
    }
}

/// Reads the packet's first `word_count` command words.
fn read_packet_words(bus: &Bus, address: u32, word_count: u32) -> (r: Option<Vec<u32>>)
    requires
        address + 4 + 4 * word_count <= u32::MAX,
    ensures
        match r {
            Some(v) => spec_packet_words(*bus, address, word_count as int) == Some(v@),
            None => spec_packet_words(*bus, address, word_count as int) is None,
        },
{
    let mut commands: Vec<u32> = Vec::new();
    let mut index: u32 = 0;
    while index < word_count
        invariant
            index <= word_count,
            address + 4 + 4 * word_count <= u32::MAX,
            spec_packet_words(*bus, address, index as int) == Some(commands@),
        decreases word_count - index,
    {
        match bus.read_ram_u32_physical(address + 4 + index * 4) {
            Some(command) => {
                commands.push(command);
            },
            None => {
                proof {
                    lemma_packet_words_none_after(*bus, address, index as int + 1, word_count as int);
                }
                return None;
            },
        }
        index = index + 1;
    }
    Some(commands)
}

proof fn lemma_packet_words_none_after(bus: Bus, address: u32, k: int, n: int)
    requires
        1 <= k <= n,
        spec_packet_words(bus, address, k) is None,
    ensures
        spec_packet_words(bus, address, n) is None,
    decreases n - k,
{
    if k < n {
        lemma_packet_words_none_after(bus, address, k + 1, n);
    }
}

/// Whether the words split cleanly into whole GP0 commands.
fn commands_split(commands: &Vec<u32>) -> (r: bool)
    ensures
        r == spec_commands_split_from(commands@, 0),
{
    let mut offset: usize = 0;
    while offset < commands.len()
        invariant
            offset <= commands.len(),
            spec_commands_split_from(commands@, offset as int) == spec_commands_split_from(
                commands@,
                0,
            ),
        decreases commands.len() - offset,
    {
        let rest = vstd::slice::slice_subrange(commands.as_slice(), offset, commands.len());
        proof {
            assert(rest@ == commands@.subrange(offset as int, commands@.len() as int));
        }
        let command_words = match gp0_command_word_count(rest) {
            Some(c) => c,
            None => {
                return false;
            },
        };
        if command_words == 0 || command_words > commands.len() - offset {
            return false;
        }
        offset = offset + command_words;
    }
    true
}

/// Whether the packet's words can be read and split into whole commands.
pub fn primitive_packet_words_plausible(bus: &Bus, address: u32, word_count: u32) -> (r: bool)
    requires
        address + 4 + 4 * word_count <= u32::MAX,
    ensures
        r == spec_packet_words_plausible(*bus, address, word_count),
{
    match read_packet_words(bus, address, word_count) {
        Some(commands) => commands_split(&commands),
        None => false,
    }
}

fn table_at(t: &Vec<Option<u64>>, address: u32) -> (r: Option<u64>)
    requires
        t@.len() == PRIMITIVE_RAM_AFTER - PRIMITIVE_RAM_FIRST,
    ensures
        r == spec_table_at(t@, address),
{
    if address < PRIMITIVE_RAM_FIRST || address >= PRIMITIVE_RAM_AFTER {
        return None;
    }
    t[(address - PRIMITIVE_RAM_FIRST) as usize]
}

/// The latest vertical blank of a command-like store to the packet's
/// command words.
pub fn packet_command_write_vblank(bus: &Bus, address: u32, word_count: u32) -> (r: Option<u64>)
    requires
        bus.wf(),
        address + 4 + 4 * word_count <= u32::MAX,
    ensures
        r == spec_latest_command_vblank(*bus, address, word_count as int),
{
    proof {
        bus.primitive_ram_writes.lemma_tables_sized();
    }
    let mut latest: Option<u64> = None;
    let mut index: u32 = 0;
    while index < word_count
        invariant
            index <= word_count,
            address + 4 + 4 * word_count <= u32::MAX,
            bus.primitive_ram_writes.command_write_vblank@.len() == PRIMITIVE_RAM_AFTER
                - PRIMITIVE_RAM_FIRST,
            latest == spec_latest_command_vblank(*bus, address, index as int),
        decreases word_count - index,
    {
        let here = table_at(&bus.primitive_ram_writes.command_write_vblank, address + 4 + index * 4);
        match here {
            Some(v) => {
                latest = Some(
                    match latest {
                        Some(p) => if p >= v {
                            p
                        } else {
                            v
                        },
                        None => v,
                    },
                );
            },
            None => {},
        }
        index = index + 1;
    }
    latest
}

/// Whether some visited node lies at `address`.
pub fn node_is_linked(nodes: &Vec<u32>, address: u32) -> (r: bool)
    ensures
        r == spec_linked(nodes@, address),
{
    let target = address & 0x00ff_fffc;
    let mut i: usize = 0;
    while i < nodes.len()
        invariant
            i <= nodes.len(),
            target == mask_node(address),
            forall|j: int| 0 <= j < i ==> mask_node(#[trigger] nodes@[j]) != mask_node(address),
        decreases nodes.len() - i,
    {
        if nodes[i] & 0x00ff_fffc == target {
            return true;
        }
        i = i + 1;
    }
    false
}

/// The packet at `address`, if it is a candidate: a header with a word
/// count of 1 to 64 whose packet fits in primitive RAM, a plausible next
/// pointer, a GP0 command first, and words that split into whole commands.
pub fn primitive_packet_candidate_sample(bus: &Bus, nodes: &Vec<u32>, address: u32) -> (r: Option<
    PrimitivePacketCandidateSample,
>)
    requires
        bus.wf(),
        address <= PRIMITIVE_RAM_END,
    ensures
        r == spec_candidate(*bus, nodes@, address),
{
    proof {
        bus.primitive_ram_writes.lemma_tables_sized();
    }
    let header = match bus.read_ram_u32_physical(address) {
        Some(h) => h,
        None => {
            return None;
        },
    };
    let word_count = header >> 24;
    proof {
        crate::gp0::lemma_opcode_range(header);
    }
    if !(1 <= word_count && word_count <= PRIMITIVE_PACKET_MAX_WORDS) {
        return None;
    }
    let packet_end = address + 4 + word_count * 4;
    if packet_end > PRIMITIVE_RAM_END {
        return None;
    }
    let next = header & 0x00ff_ffff;
    if !primitive_packet_next_plausible(next) {
        return None;
    }
    let first_command = match bus.read_ram_u32_physical(address + 4) {
        Some(c) => c,
        None => {
            return None;
        },
    };
    proof {
        crate::gp0::lemma_opcode_range(first_command);
    }
    let opcode = (first_command >> 24) as u8;
    if !looks_like_gp0_command_opcode(opcode) {
        return None;
    }
    if !primitive_packet_words_plausible(bus, address, word_count) {
        return None;
    }
    Some(
        PrimitivePacketCandidateSample {
            address,
            header,
            word_count,
            next,
            linked: node_is_linked(nodes, address),
            first_command,
            header_write_vblank: table_at(&bus.primitive_ram_writes.header_write_vblank, address),
            command_write_vblank: packet_command_write_vblank(bus, address, word_count),
        },
    )
}

/// Samples kept of each kind.
pub const PRIMITIVE_PACKET_SCAN_SAMPLE_LIMIT: usize = 24;

/// Addresses scanned: from the start of primitive RAM in word steps, while
/// a header and a first command fit.
pub const PRIMITIVE_PACKET_SCAN_POSITIONS: u32 = 65535;

/// What a scan of primitive RAM found.
#[derive(Clone, Debug)]
pub struct PrimitivePacketScan {
    pub current_vblank: u64,
    pub previous_vblank: u64,
    pub last_dma_visited_nodes: u64,
    pub candidates: u64,
    pub linked_candidates: u64,
    pub unlinked_candidates: u64,
    pub current_vblank_candidates: u64,
    pub current_vblank_command_candidates: u64,
    pub current_vblank_linked_candidates: u64,
    pub previous_vblank_candidates: u64,
    pub previous_vblank_command_candidates: u64,
    pub previous_vblank_linked_candidates: u64,
    pub candidate_words: u64,
    pub linked_words: u64,
    pub unlinked_words: u64,
    pub opcode_counts: Vec<u64>,
    pub linked_opcode_counts: Vec<u64>,
    pub unlinked_opcode_counts: Vec<u64>,
    pub linked_samples: Vec<PrimitivePacketCandidateSample>,
    pub unlinked_samples: Vec<PrimitivePacketCandidateSample>,
}

/// The scan's findings as plain values.
pub struct PrimitivePacketScanView {
    pub current_vblank: u64,
    pub previous_vblank: u64,
    pub last_dma_visited_nodes: u64,
    pub candidates: u64,
    pub linked_candidates: u64,
    pub unlinked_candidates: u64,
    pub current_vblank_candidates: u64,
    pub current_vblank_command_candidates: u64,
    pub current_vblank_linked_candidates: u64,
    pub previous_vblank_candidates: u64,
    pub previous_vblank_command_candidates: u64,
    pub previous_vblank_linked_candidates: u64,
    pub candidate_words: u64,
    pub linked_words: u64,
    pub unlinked_words: u64,
    pub opcode_counts: Seq<u64>,
    pub linked_opcode_counts: Seq<u64>,
    pub unlinked_opcode_counts: Seq<u64>,
    pub linked_samples: Seq<PrimitivePacketCandidateSample>,
    pub unlinked_samples: Seq<PrimitivePacketCandidateSample>,
}

impl View for PrimitivePacketScan {
    type V = PrimitivePacketScanView;

    open spec fn view(&self) -> PrimitivePacketScanView {
        PrimitivePacketScanView {
            current_vblank: self.current_vblank,
            previous_vblank: self.previous_vblank,
            last_dma_visited_nodes: self.last_dma_visited_nodes,
            candidates: self.candidates,
            linked_candidates: self.linked_candidates,
            unlinked_candidates: self.unlinked_candidates,
            current_vblank_candidates: self.current_vblank_candidates,
            current_vblank_command_candidates: self.current_vblank_command_candidates,
            current_vblank_linked_candidates: self.current_vblank_linked_candidates,
            previous_vblank_candidates: self.previous_vblank_candidates,
            previous_vblank_command_candidates: self.previous_vblank_command_candidates,
            previous_vblank_linked_candidates: self.previous_vblank_linked_candidates,
            candidate_words: self.candidate_words,
            linked_words: self.linked_words,
            unlinked_words: self.unlinked_words,
            opcode_counts: self.opcode_counts@,
            linked_opcode_counts: self.linked_opcode_counts@,
            unlinked_opcode_counts: self.unlinked_opcode_counts@,
            linked_samples: self.linked_samples@,
            unlinked_samples: self.unlinked_samples@,
        }
    }
}

/// `a + b`, saturating.
pub open spec fn sat_add64(a: u64, b: u64) -> u64 {
    if a + b > u64::MAX {
        u64::MAX
    } else {
        (a + b) as u64
    }
}

/// `a + 1` if `cond`, saturating.
pub open spec fn count_if(a: u64, cond: bool) -> u64 {
    if cond {
        sat_add64(a, 1)
    } else {
        a
    }
}

pub open spec fn bump_at(counts: Seq<u64>, i: int) -> Seq<u64> {
    counts.update(i, sat_add64(counts[i], 1))
}

pub open spec fn push_sample(
    samples: Seq<PrimitivePacketCandidateSample>,
    sample: PrimitivePacketCandidateSample,
) -> Seq<PrimitivePacketCandidateSample> {
    if samples.len() < PRIMITIVE_PACKET_SCAN_SAMPLE_LIMIT {
        samples.push(sample)
    } else {
        samples
    }
}

/// The findings after one more candidate.
pub open spec fn spec_scan_add(
    s: PrimitivePacketScanView,
    c: PrimitivePacketCandidateSample,
) -> PrimitivePacketScanView {
    let op = (c.first_command >> 24u32) as int;
    let words = c.word_count as u64;
    let in_current = c.header_write_vblank == Some(s.current_vblank);
    let in_previous = c.header_write_vblank == Some(s.previous_vblank);
    PrimitivePacketScanView {
        candidates: sat_add64(s.candidates, 1),
        candidate_words: sat_add64(s.candidate_words, words),
        opcode_counts: bump_at(s.opcode_counts, op),
        current_vblank_candidates: count_if(s.current_vblank_candidates, in_current),
        current_vblank_linked_candidates: count_if(
            s.current_vblank_linked_candidates,
            in_current && c.linked,
        ),
        previous_vblank_candidates: count_if(s.previous_vblank_candidates, in_previous),
        previous_vblank_linked_candidates: count_if(
            s.previous_vblank_linked_candidates,
            in_previous && c.linked,
        ),
        current_vblank_command_candidates: count_if(
            s.current_vblank_command_candidates,
            c.command_write_vblank == Some(s.current_vblank),
        ),
        previous_vblank_command_candidates: count_if(
            s.previous_vblank_command_candidates,
            c.command_write_vblank == Some(s.previous_vblank),
        ),
        linked_candidates: count_if(s.linked_candidates, c.linked),
        linked_words: if c.linked {
            sat_add64(s.linked_words, words)
        } else {
            s.linked_words
        },
        linked_opcode_counts: if c.linked {
            bump_at(s.linked_opcode_counts, op)
        } else {
            s.linked_opcode_counts
        },
        linked_samples: if c.linked {
            push_sample(s.linked_samples, c)
        } else {
            s.linked_samples
        },
        unlinked_candidates: count_if(s.unlinked_candidates, !c.linked),
        unlinked_words: if !c.linked {
            sat_add64(s.unlinked_words, words)
        } else {
            s.unlinked_words
        },
        unlinked_opcode_counts: if !c.linked {
            bump_at(s.unlinked_opcode_counts, op)
        } else {
            s.unlinked_opcode_counts
        },
        unlinked_samples: if !c.linked {
            push_sample(s.unlinked_samples, c)
        } else {
            s.unlinked_samples
        },
        ..s
    }
}

/// The number of distinct node addresses, ignoring the two low bits, among
/// the first `n` nodes.
pub open spec fn distinct_nodes(nodes: Seq<u32>, n: int) -> nat
    decreases n,
{
    if n <= 0 {
        0
    } else {
        distinct_nodes(nodes, n - 1) + if spec_linked(nodes.take(n - 1), nodes[n - 1]) {
            0nat
        } else {
            1nat
        }
    }
}

/// Nothing found yet.
pub open spec fn spec_scan_start(bus: Bus, nodes: Seq<u32>) -> PrimitivePacketScanView {
    PrimitivePacketScanView {
        current_vblank: bus.vblank_count,
        previous_vblank: if bus.vblank_count > 0 {
            (bus.vblank_count - 1) as u64
        } else {
            0
        },
        last_dma_visited_nodes: distinct_nodes(nodes, nodes.len() as int) as u64,
        candidates: 0,
        linked_candidates: 0,
        unlinked_candidates: 0,
        current_vblank_candidates: 0,
        current_vblank_command_candidates: 0,
        current_vblank_linked_candidates: 0,
        previous_vblank_candidates: 0,
        previous_vblank_command_candidates: 0,
        previous_vblank_linked_candidates: 0,
        candidate_words: 0,
        linked_words: 0,
        unlinked_words: 0,
        opcode_counts: Seq::new(256, |i: int| 0u64),
        linked_opcode_counts: Seq::new(256, |i: int| 0u64),
        unlinked_opcode_counts: Seq::new(256, |i: int| 0u64),
        linked_samples: Seq::empty(),
        unlinked_samples: Seq::empty(),
    }
}

pub open spec fn scan_address(k: int) -> u32 {
    (PRIMITIVE_RAM_START + 4 * k) as u32
}

/// The findings over the first `k` scanned addresses.
pub open spec fn spec_scan_upto(bus: Bus, nodes: Seq<u32>, k: int) -> PrimitivePacketScanView
    decreases k,
{
    if k <= 0 {
        spec_scan_start(bus, nodes)
    } else {
        let s = spec_scan_upto(bus, nodes, k - 1);
        match spec_candidate(bus, nodes, scan_address(k - 1)) {
            Some(c) => spec_scan_add(s, c),
            None => s,
        }
    }
}

/// The findings over all of primitive RAM.
pub open spec fn spec_primitive_packet_scan(bus: Bus, nodes: Seq<u32>) -> PrimitivePacketScanView {
    spec_scan_upto(bus, nodes, PRIMITIVE_PACKET_SCAN_POSITIONS as int)
}

fn saturating_bump(counts: &mut Vec<u64>, i: usize)
    requires
        i < old(counts)@.len(),
    ensures
        final(counts)@ == bump_at(old(counts)@, i as int),
{
    let v = counts[i].saturating_add(1);
    counts.set(i, v);
}

fn push_limited(samples: &mut Vec<PrimitivePacketCandidateSample>, c: PrimitivePacketCandidateSample)
    ensures
        final(samples)@ == push_sample(old(samples)@, c),
{
    if samples.len() < PRIMITIVE_PACKET_SCAN_SAMPLE_LIMIT {
        samples.push(c);
    }
}

/// Counts one candidate.
fn scan_add(scan: &mut PrimitivePacketScan, c: PrimitivePacketCandidateSample)
    requires
        old(scan).opcode_counts@.len() == 256,
        old(scan).linked_opcode_counts@.len() == 256,
        old(scan).unlinked_opcode_counts@.len() == 256,
    ensures
        final(scan)@ == spec_scan_add(old(scan)@, c),
        final(scan).opcode_counts@.len() == 256,
        final(scan).linked_opcode_counts@.len() == 256,
        final(scan).unlinked_opcode_counts@.len() == 256,
{
    let first = c.first_command;
    proof {
        crate::gp0::lemma_opcode_range(first);
    }
    let op = (first >> 24) as usize;
    let words = c.word_count as u64;
    let in_current = c.header_write_vblank == Some(scan.current_vblank);
    let in_previous = c.header_write_vblank == Some(scan.previous_vblank);
    scan.candidates = scan.candidates.saturating_add(1);
    scan.candidate_words = scan.candidate_words.saturating_add(words);
    saturating_bump(&mut scan.opcode_counts, op);
    if in_current {
        scan.current_vblank_candidates = scan.current_vblank_candidates.saturating_add(1);
        if c.linked {
            scan.current_vblank_linked_candidates =
            scan.current_vblank_linked_candidates.saturating_add(1);
        }
    }
    if in_previous {
        scan.previous_vblank_candidates = scan.previous_vblank_candidates.saturating_add(1);
        if c.linked {
            scan.previous_vblank_linked_candidates =
            scan.previous_vblank_linked_candidates.saturating_add(1);
        }
    }
    if c.command_write_vblank == Some(scan.current_vblank) {
        scan.current_vblank_command_candidates =
        scan.current_vblank_command_candidates.saturating_add(1);
    }
    if c.command_write_vblank == Some(scan.previous_vblank) {
        scan.previous_vblank_command_candidates =
        scan.previous_vblank_command_candidates.saturating_add(1);
    }
    if c.linked {
        scan.linked_candidates = scan.linked_candidates.saturating_add(1);
        scan.linked_words = scan.linked_words.saturating_add(words);
        saturating_bump(&mut scan.linked_opcode_counts, op);
        push_limited(&mut scan.linked_samples, c);
    } else {
        scan.unlinked_candidates = scan.unlinked_candidates.saturating_add(1);
        scan.unlinked_words = scan.unlinked_words.saturating_add(words);
        saturating_bump(&mut scan.unlinked_opcode_counts, op);
        push_limited(&mut scan.unlinked_samples, c);
    }
}

/// The number of distinct visited nodes, ignoring the two low bits.
fn count_distinct_nodes(nodes: &Vec<u32>) -> (r: u64)
    ensures
        r == distinct_nodes(nodes@, nodes@.len() as int),
{
    let mut count: u64 = 0;
    let mut i: usize = 0;
    while i < nodes.len()
        invariant
            i <= nodes.len(),
            count == distinct_nodes(nodes@, i as int),
            count <= i,
        decreases nodes.len() - i,
    {
        let target = nodes[i] & 0x00ff_fffc;
        let mut seen = false;
        let mut j: usize = 0;
        while j < i
            invariant
                j <= i < nodes.len(),
                target == mask_node(nodes@[i as int]),
                seen == exists|m: int| 0 <= m < j && mask_node(#[trigger] nodes@[m]) == target,
            decreases i - j,
        {
            if nodes[j] & 0x00ff_fffc == target {
                seen = true;
            }
            j = j + 1;
        }
        proof {
            let prefix = nodes@.take(i as int);
            if seen {
                let m = choose|m: int| 0 <= m < i && mask_node(#[trigger] nodes@[m]) == target;
                assert(prefix[m] == nodes@[m]);
            } else {
                assert forall|m: int| 0 <= m < prefix.len() implies mask_node(#[trigger] prefix[m])
                    != mask_node(nodes@[i as int]) by {
                    assert(prefix[m] == nodes@[m]);
                }
            }
        }
        if !seen {
            count = count + 1;
        }
        i = i + 1;
    }
    count
}

/// Scans primitive RAM for packet candidates; `linked_nodes` are the nodes
/// the GPU's last linked list visited.
pub fn primitive_packet_scan(bus: &Bus, linked_nodes: &Vec<u32>) -> (r: PrimitivePacketScan)
    requires
        bus.wf(),
    ensures
        r@ == spec_primitive_packet_scan(*bus, linked_nodes@),
        r.opcode_counts@.len() == 256,
        r.linked_opcode_counts@.len() == 256,
        r.unlinked_opcode_counts@.len() == 256,
{
    let current_vblank = bus.vblank_count;
    let previous_vblank = bus.vblank_count.saturating_sub(1);
    let mut scan = PrimitivePacketScan {
        current_vblank,
        previous_vblank,
        last_dma_visited_nodes: count_distinct_nodes(linked_nodes),
        candidates: 0,
        linked_candidates: 0,
        unlinked_candidates: 0,
        current_vblank_candidates: 0,
        current_vblank_command_candidates: 0,
        current_vblank_linked_candidates: 0,
        previous_vblank_candidates: 0,
        previous_vblank_command_candidates: 0,
        previous_vblank_linked_candidates: 0,
        candidate_words: 0,
        linked_words: 0,
        unlinked_words: 0,
        opcode_counts: crate::primitive::zero_counts(),
        linked_opcode_counts: crate::primitive::zero_counts(),
        unlinked_opcode_counts: crate::primitive::zero_counts(),
        linked_samples: Vec::new(),
        unlinked_samples: Vec::new(),
    };
    proof {
        assert(scan@.opcode_counts =~= Seq::new(256, |i: int| 0u64));
        assert(scan@.linked_opcode_counts =~= Seq::new(256, |i: int| 0u64));
        assert(scan@.unlinked_opcode_counts =~= Seq::new(256, |i: int| 0u64));
        assert(scan@ == spec_scan_upto(*bus, linked_nodes@, 0));
    }
    let mut k: u32 = 0;
    while k < PRIMITIVE_PACKET_SCAN_POSITIONS
        invariant
            bus.wf(),
            k <= PRIMITIVE_PACKET_SCAN_POSITIONS,
            scan@ == spec_scan_upto(*bus, linked_nodes@, k as int),
            scan.opcode_counts@.len() == 256,
            scan.linked_opcode_counts@.len() == 256,
            scan.unlinked_opcode_counts@.len() == 256,
        decreases PRIMITIVE_PACKET_SCAN_POSITIONS - k,
    {
        let address = PRIMITIVE_RAM_START + 4 * k;
        match primitive_packet_candidate_sample(bus, linked_nodes, address) {
            Some(c) => scan_add(&mut scan, c),
            None => {},
        }
        k = k + 1;
    }
    scan
}

/// A candidate as JSON.
pub open spec fn candidate_json(c: PrimitivePacketCandidateSample) -> Seq<char> {
    "{\"address\":"@ + dec(c.address as nat) + ",\"address_hex\":\"0x"@ + hex(c.address as nat, 8)
        + "\",\"header\":"@ + dec(c.header as nat) + ",\"header_hex\":\"0x"@ + hex(
        c.header as nat,
        8,
    ) + "\",\"word_count\":"@ + dec(c.word_count as nat) + ",\"next\":"@ + dec(c.next as nat)
        + ",\"next_hex\":\"0x"@ + hex(c.next as nat, 6) + "\",\"linked\":"@ + bool_text(c.linked)
        + ",\"first_command\":"@ + dec(c.first_command as nat) + ",\"first_command_hex\":\"0x"@
        + hex(c.first_command as nat, 8) + "\",\"opcode\":"@ + dec((c.first_command >> 24u32) as nat)
        + ",\"opcode_hex\":\"0x"@ + hex((c.first_command >> 24u32) as nat, 2)
        + "\",\"header_write_vblank\":"@ + opt_dec(c.header_write_vblank)
        + ",\"command_write_vblank\":"@ + opt_dec(c.command_write_vblank) + "}"@
}

pub open spec fn candidates_json(list: Seq<PrimitivePacketCandidateSample>) -> Seq<char> {
    join_commas(list.map_values(|c: PrimitivePacketCandidateSample| candidate_json(c)))
}

/// The scan's findings as JSON.
pub open spec fn spec_scan_json(s: PrimitivePacketScanView) -> Seq<char> {
    "{\"range_start\":\"0x00380000\",\"range_end\":\"0x003c0000\",\"max_packet_words\":64,\"current_vblank\":"@
        + dec(s.current_vblank as nat) + ",\"previous_vblank\":"@ + dec(s.previous_vblank as nat)
        + ",\"last_dma_visited_nodes\":"@ + dec(s.last_dma_visited_nodes as nat)
        + ",\"candidates\":"@ + dec(s.candidates as nat) + ",\"linked_candidates\":"@ + dec(
        s.linked_candidates as nat,
    ) + ",\"unlinked_candidates\":"@ + dec(s.unlinked_candidates as nat)
        + ",\"current_vblank_candidates\":"@ + dec(s.current_vblank_candidates as nat)
        + ",\"current_vblank_command_candidates\":"@ + dec(
        s.current_vblank_command_candidates as nat,
    ) + ",\"current_vblank_linked_candidates\":"@ + dec(
        s.current_vblank_linked_candidates as nat,
    ) + ",\"previous_vblank_candidates\":"@ + dec(s.previous_vblank_candidates as nat)
        + ",\"previous_vblank_command_candidates\":"@ + dec(
        s.previous_vblank_command_candidates as nat,
    ) + ",\"previous_vblank_linked_candidates\":"@ + dec(
        s.previous_vblank_linked_candidates as nat,
    ) + ",\"candidate_words\":"@ + dec(s.candidate_words as nat) + ",\"linked_words\":"@ + dec(
        s.linked_words as nat,
    ) + ",\"unlinked_words\":"@ + dec(s.unlinked_words as nat) + ",\"opcode_counts\":["@
        + opcode_counts_json(s.opcode_counts) + "],\"linked_opcode_counts\":["@
        + opcode_counts_json(s.linked_opcode_counts) + "],\"unlinked_opcode_counts\":["@
        + opcode_counts_json(s.unlinked_opcode_counts) + "],\"linked_samples\":["@
        + candidates_json(s.linked_samples) + "],\"unlinked_samples\":["@ + candidates_json(
        s.unlinked_samples,
    ) + "]}"@
}

fn candidate_entry_json(c: &PrimitivePacketCandidateSample) -> (r: String)
    ensures
        r@ == candidate_json(*c),
{
    let mut out = String::from_str("{\"address\":");
    push_dec(&mut out, c.address as u64);
    out.append(",\"address_hex\":\"0x");
    push_hex(&mut out, c.address as u64, 8);
    out.append("\",\"header\":");
    push_dec(&mut out, c.header as u64);
    out.append(",\"header_hex\":\"0x");
    push_hex(&mut out, c.header as u64, 8);
    out.append("\",\"word_count\":");
    push_dec(&mut out, c.word_count as u64);
    out.append(",\"next\":");
    push_dec(&mut out, c.next as u64);
    out.append(",\"next_hex\":\"0x");
    push_hex(&mut out, c.next as u64, 6);
    out.append("\",\"linked\":");
    push_bool(&mut out, c.linked);
    out.append(",\"first_command\":");
    push_dec(&mut out, c.first_command as u64);
    out.append(",\"first_command_hex\":\"0x");
    push_hex(&mut out, c.first_command as u64, 8);
    out.append("\",\"opcode\":");
    push_dec(&mut out, (c.first_command >> 24) as u64);
    out.append(",\"opcode_hex\":\"0x");
    push_hex(&mut out, (c.first_command >> 24) as u64, 2);
    out.append("\",\"header_write_vblank\":");
    push_opt_dec(&mut out, c.header_write_vblank);
    out.append(",\"command_write_vblank\":");
    push_opt_dec(&mut out, c.command_write_vblank);
    out.append("}");
    out
}

fn push_candidates_json(out: &mut String, list: &Vec<PrimitivePacketCandidateSample>)
    ensures
        final(out)@ == old(out)@ + candidates_json(list@),
{
    let ghost start = out@;
    let mut i: usize = 0;
    while i < list.len()
        invariant
            i <= list@.len(),
            out@ == start + candidates_json(list@.take(i as int)),
        decreases list@.len() - i,
    {
        let part = candidate_entry_json(&list[i]);
        proof {
            let done = list@.take(i as int).map_values(
                |c: PrimitivePacketCandidateSample| candidate_json(c),
            );
            lemma_join_commas_push(done, part@);
            assert(list@.take(i + 1).map_values(
                |c: PrimitivePacketCandidateSample| candidate_json(c),
            ) =~= done.push(part@));
        }
        push_joined(out, i, part.as_str());
        proof {
            assert(out@ =~= start + candidates_json(list@.take(i + 1)));
        }
        i = i + 1;
    }
    proof {
        assert(list@.take(list@.len() as int) =~= list@);
    }
}

impl PrimitivePacketScan {
    /// The findings as JSON: the counts, the per-opcode counts that are not
    /// zero and the samples of each kind.
    pub fn json(&self) -> (r: String)
        requires
            self.opcode_counts@.len() == 256,
            self.linked_opcode_counts@.len() == 256,
            self.unlinked_opcode_counts@.len() == 256,
        ensures
            r@ == spec_scan_json(self@),
    {
        let mut out = String::from_str(
            "{\"range_start\":\"0x00380000\",\"range_end\":\"0x003c0000\",\"max_packet_words\":64,\"current_vblank\":",
        );
        push_dec(&mut out, self.current_vblank);
        out.append(",\"previous_vblank\":");
        push_dec(&mut out, self.previous_vblank);
        out.append(",\"last_dma_visited_nodes\":");
        push_dec(&mut out, self.last_dma_visited_nodes);
        out.append(",\"candidates\":");
        push_dec(&mut out, self.candidates);
        out.append(",\"linked_candidates\":");
        push_dec(&mut out, self.linked_candidates);
        out.append(",\"unlinked_candidates\":");
        push_dec(&mut out, self.unlinked_candidates);
        out.append(",\"current_vblank_candidates\":");
        push_dec(&mut out, self.current_vblank_candidates);
        out.append(",\"current_vblank_command_candidates\":");
        push_dec(&mut out, self.current_vblank_command_candidates);
        out.append(",\"current_vblank_linked_candidates\":");
        push_dec(&mut out, self.current_vblank_linked_candidates);
        out.append(",\"previous_vblank_candidates\":");
        push_dec(&mut out, self.previous_vblank_candidates);
        out.append(",\"previous_vblank_command_candidates\":");
        push_dec(&mut out, self.previous_vblank_command_candidates);
        out.append(",\"previous_vblank_linked_candidates\":");
        push_dec(&mut out, self.previous_vblank_linked_candidates);
        out.append(",\"candidate_words\":");
        push_dec(&mut out, self.candidate_words);
        out.append(",\"linked_words\":");
        push_dec(&mut out, self.linked_words);
        out.append(",\"unlinked_words\":");
        push_dec(&mut out, self.unlinked_words);
        out.append(",\"opcode_counts\":[");
        push_opcode_counts_json(&mut out, &self.opcode_counts);
        out.append("],\"linked_opcode_counts\":[");
        push_opcode_counts_json(&mut out, &self.linked_opcode_counts);
        out.append("],\"unlinked_opcode_counts\":[");
        push_opcode_counts_json(&mut out, &self.unlinked_opcode_counts);
        out.append("],\"linked_samples\":[");
        push_candidates_json(&mut out, &self.linked_samples);
        out.append("],\"unlinked_samples\":[");
        push_candidates_json(&mut out, &self.unlinked_samples);
        out.append("]}");
        proof {
            reveal_strlit(
                "{\"range_start\":\"0x00380000\",\"range_end\":\"0x003c0000\",\"max_packet_words\":64,\"current_vblank\":",
            );
        }
        assert(out@ =~= spec_scan_json(self@));
        out
    }
}

/// The scan of primitive RAM as JSON.
pub fn primitive_packet_scan_json(bus: &Bus, linked_nodes: &Vec<u32>) -> (r: String)
    requires
        bus.wf(),
    ensures
        r@ == spec_scan_json(spec_primitive_packet_scan(*bus, linked_nodes@)),
{
    let scan = primitive_packet_scan(bus, linked_nodes);
    scan.json()
}

proof fn lemma_scan_upto_counts(bus: Bus, nodes: Seq<u32>, k: int)
    requires
        0 <= k <= PRIMITIVE_PACKET_SCAN_POSITIONS,
    ensures
        spec_scan_upto(bus, nodes, k).candidates <= k,
        spec_scan_upto(bus, nodes, k).candidates == spec_scan_upto(bus, nodes, k).linked_candidates
            + spec_scan_upto(bus, nodes, k).unlinked_candidates,
        spec_scan_upto(bus, nodes, k).linked_samples.len() <= PRIMITIVE_PACKET_SCAN_SAMPLE_LIMIT,
        spec_scan_upto(bus, nodes, k).unlinked_samples.len() <= PRIMITIVE_PACKET_SCAN_SAMPLE_LIMIT,
        forall|j: int|
            0 <= j < spec_scan_upto(bus, nodes, k).linked_samples.len() ==> (#[trigger] spec_scan_upto(
                bus,
                nodes,
                k,
            ).linked_samples[j]).linked,
        forall|j: int|
            0 <= j < spec_scan_upto(bus, nodes, k).unlinked_samples.len() ==> !(
            #[trigger] spec_scan_upto(bus, nodes, k).unlinked_samples[j]).linked,
    decreases k,
{
    if k > 0 {
        lemma_scan_upto_counts(bus, nodes, k - 1);
    }
}

/// Every candidate the scan counts is either linked or unlinked, the
/// counts cannot exceed the addresses scanned, and each list of samples
/// holds at most 24 packets, all of its own kind.
pub proof fn law_scan_partitions_candidates(bus: Bus, nodes: Seq<u32>)
    ensures
        spec_primitive_packet_scan(bus, nodes).candidates == spec_primitive_packet_scan(
            bus,
            nodes,
        ).linked_candidates + spec_primitive_packet_scan(bus, nodes).unlinked_candidates,
        spec_primitive_packet_scan(bus, nodes).candidates <= PRIMITIVE_PACKET_SCAN_POSITIONS,
        spec_primitive_packet_scan(bus, nodes).linked_samples.len()
            <= PRIMITIVE_PACKET_SCAN_SAMPLE_LIMIT,
        spec_primitive_packet_scan(bus, nodes).unlinked_samples.len()
            <= PRIMITIVE_PACKET_SCAN_SAMPLE_LIMIT,
        forall|j: int|
            0 <= j < spec_primitive_packet_scan(bus, nodes).linked_samples.len() ==> (
            #[trigger] spec_primitive_packet_scan(bus, nodes).linked_samples[j]).linked,
        forall|j: int|
            0 <= j < spec_primitive_packet_scan(bus, nodes).unlinked_samples.len() ==> !(
            #[trigger] spec_primitive_packet_scan(bus, nodes).unlinked_samples[j]).linked,
{
    lemma_scan_upto_counts(bus, nodes, PRIMITIVE_PACKET_SCAN_POSITIONS as int);
}

/// Some whole GP0 command from `offset` on, before the stream stops
/// splitting cleanly, is a replayable draw.
pub open spec fn spec_has_safe_draw_from(ws: Seq<u32>, offset: int) -> bool
    decreases ws.len() - offset,
{
    if offset < 0 || offset >= ws.len() {
        false
    } else {
        match spec_gp0_command_word_count(ws.subrange(offset, ws.len() as int)) {
            None => false,
            Some(c) => c != 0 && offset + c <= ws.len() && (spec_is_replay_safe_draw(
                ws.subrange(offset, offset + c),
            ) || spec_has_safe_draw_from(ws, offset + c)),
        }
    }
}

/// The packet's words can be read and hold a replayable draw with
/// playfield bounds.
pub open spec fn spec_packet_has_playfield_draw(bus: Bus, address: u32, word_count: u32) -> bool {
    match spec_packet_words(bus, address, word_count as int) {
        None => false,
        Some(ws) => spec_has_safe_draw_from(ws, 0),
    }
}

fn has_safe_draw(commands: &Vec<u32>) -> (r: bool)
    ensures
        r == spec_has_safe_draw_from(commands@, 0),
{
    let mut offset: usize = 0;
    while offset < commands.len()
        invariant
            offset <= commands.len(),
            spec_has_safe_draw_from(commands@, offset as int) == spec_has_safe_draw_from(
                commands@,
                0,
            ),
        decreases commands.len() - offset,
    {
        let rest = vstd::slice::slice_subrange(commands.as_slice(), offset, commands.len());
        proof {
            assert(rest@ == commands@.subrange(offset as int, commands@.len() as int));
        }
        let command_words = match gp0_command_word_count(rest) {
            Some(c) => c,
            None => {
                return false;
            },
        };
        if command_words == 0 || command_words > commands.len() - offset {
            return false;
        }
        let command = vstd::slice::slice_subrange(commands.as_slice(), offset, offset + command_words);
        if gp0_command_is_replay_safe_draw(command) {
            return true;
        }
        offset = offset + command_words;
    }
    false
}

/// Whether the packet's words hold a replayable draw with playfield bounds.
pub fn primitive_packet_has_playfield_draw_bounds(bus: &Bus, address: u32, word_count: u32) -> (r:
    bool)
    requires
        address + 4 + 4 * word_count <= u32::MAX,
    ensures
        r == spec_packet_has_playfield_draw(*bus, address, word_count),
{
    match read_packet_words(bus, address, word_count) {
        Some(commands) => has_safe_draw(&commands),
        None => false,
    }
}

} // verus!
