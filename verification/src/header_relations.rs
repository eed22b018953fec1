//! The recent primitive header stores, each with what RAM now holds there:
//! whether it is a packet candidate, linked, a draw with playfield bounds,
//! and where it lies relative to the last linked list and ordering tables.
use vstd::prelude::*;
use crate::bus::Bus;
use crate::gp0::{looks_like_draw_primitive_opcode, spec_looks_like_draw_primitive_opcode};
use crate::json::{
    bool_text, dec, hex, join_commas, lemma_join_commas_push, opt_dec, opt_hex32, opt_u32_dec,
    push_bool, push_dec, push_hex, push_joined, push_opt_dec, push_opt_hex32, push_opt_u32_dec,
};
use crate::primitive::PrimitiveRamWriteSample;
use crate::relation::{
    primitive_address_dma_relation, spec_primitive_dma_relation, spec_relation_json, OtcClearRange,
    PrimitiveDmaRelation,
};
use crate::scan::{
    node_is_linked, primitive_packet_candidate_sample, primitive_packet_has_playfield_draw_bounds,
    spec_candidate, spec_linked, spec_packet_has_playfield_draw,
};

verus! {

/// What the GPU's last linked list left for the relations: the nodes it
/// visited, where it started and its first node, and the ordering-table
/// clears, oldest first.
#[derive(Clone, Debug)]
pub struct LinkedListContext {
    pub visited_nodes: Vec<u32>,
    pub last_start: u32,
    pub last_first_node: u32,
    pub otc_clears: Vec<OtcClearRange>,
}

/// One recent header store and what RAM holds there now.
#[derive(Clone, Copy, Debug, PartialEq, Eq, Structural)]
pub struct PrimitiveHeaderRelation {
    pub write: PrimitiveRamWriteSample,
    pub first_command: u32,
    pub candidate: bool,
    pub linked: bool,
    pub playfield_bounds: bool,
    pub command_write_vblank: Option<u64>,
    pub dma: PrimitiveDmaRelation,
}

/// The address of the word after `a`, wrapping.
pub open spec fn spec_next_word_address(a: u32) -> u32 {
    if a <= u32::MAX - 4 {
        (a + 4) as u32
    } else {
        (a + 4 - 0x1_0000_0000int) as u32
    }
}

/// The relation of one header store, or none when the word after it cannot
/// be read.
pub open spec fn spec_header_relation(
    bus: Bus,
    nodes: Seq<u32>,
    last_start: u32,
    last_first_node: u32,
    clears: Seq<OtcClearRange>,
    w: PrimitiveRamWriteSample,
) -> Option<PrimitiveHeaderRelation> {
    match bus.spec_ram_word(spec_next_word_address(w.address)) {
        None => None,
        Some(first_command) => {
            let sample = spec_candidate(bus, nodes, w.address);
            Some(
                PrimitiveHeaderRelation {
                    write: w,
                    first_command,
                    candidate: sample is Some,
                    linked: (sample matches Some(c) && c.linked) || spec_linked(nodes, w.address),
                    playfield_bounds: sample matches Some(c) && spec_packet_has_playfield_draw(
                        bus,
                        c.address,
                        c.word_count,
                    ),
                    command_write_vblank: match sample {
                        Some(c) => c.command_write_vblank,
                        None => None,
                    },
                    dma: spec_primitive_dma_relation(w.address, last_start, last_first_node, clears),
                },
            )
        },
    }
}

/// The relations of the `k` newest header stores, newest first, skipping
/// those whose next word cannot be read.
pub open spec fn spec_header_relations(
    bus: Bus,
    nodes: Seq<u32>,
    last_start: u32,
    last_first_node: u32,
    clears: Seq<OtcClearRange>,
    writes: Seq<PrimitiveRamWriteSample>,
    k: int,
) -> Seq<PrimitiveHeaderRelation>
    decreases k,
{
    if k <= 0 || k > writes.len() {
        Seq::empty()
    } else {
        let rest = spec_header_relations(bus, nodes, last_start, last_first_node, clears, writes, k - 1);
        match spec_header_relation(
            bus,
            nodes,
            last_start,
            last_first_node,
            clears,
            writes[writes.len() - k],
        ) {
            Some(r) => rest.push(r),
            None => rest,
        }
    }
}

/// The relations of the newest `limit` header stores the bus recorded.
pub open spec fn spec_recent_relations_of(
    bus: Bus,
    nodes: Seq<u32>,
    last_start: u32,
    last_first_node: u32,
    clears: Seq<OtcClearRange>,
    limit: usize,
) -> Seq<PrimitiveHeaderRelation> {
    let writes = bus.primitive_ram_writes.recent_header_like_writes@;
    spec_header_relations(
        bus,
        nodes,
        last_start,
        last_first_node,
        clears,
        writes,
        if writes.len() < limit {
            writes.len() as int
        } else {
            limit as int
        },
    )
}

pub open spec fn spec_recent_header_relations(bus: Bus, ctx: LinkedListContext, limit: usize) -> Seq<
    PrimitiveHeaderRelation,
> {
    spec_recent_relations_of(
        bus,
        ctx.visited_nodes@,
        ctx.last_start,
        ctx.last_first_node,
        ctx.otc_clears@,
        limit,
    )
}

fn header_relation(bus: &Bus, ctx: &LinkedListContext, w: PrimitiveRamWriteSample) -> (r: Option<
    PrimitiveHeaderRelation,
>)
    requires
        bus.wf(),
    ensures
        r == spec_header_relation(
            *bus,
            ctx.visited_nodes@,
            ctx.last_start,
            ctx.last_first_node,
            ctx.otc_clears@,
            w,
        ),
{
    let next_address = if w.address <= u32::MAX - 4 {
        w.address + 4
    } else {
        w.address - (u32::MAX - 3)
    };
    let first_command = match bus.read_ram_u32_physical(next_address) {
        Some(c) => c,
        None => {
            return None;
        },
    };
    let sample = if w.address <= crate::gp0::PRIMITIVE_RAM_END {
        primitive_packet_candidate_sample(bus, &ctx.visited_nodes, w.address)
    } else {
        proof {
            assert(spec_candidate(*bus, ctx.visited_nodes@, w.address) is None);
        }
        None
    };
    let linked = match sample {
        Some(c) => c.linked,
        None => false,
    } || node_is_linked(&ctx.visited_nodes, w.address);
    let playfield_bounds = match sample {
        Some(c) => primitive_packet_has_playfield_draw_bounds(bus, c.address, c.word_count),
        None => false,
    };
    let command_write_vblank = match sample {
        Some(c) => c.command_write_vblank,
        None => None,
    };
    Some(
        PrimitiveHeaderRelation {
            write: w,
            first_command,
            candidate: sample.is_some(),
            linked,
            playfield_bounds,
            command_write_vblank,
            dma: primitive_address_dma_relation(
                w.address,
                ctx.last_start,
                ctx.last_first_node,
                &ctx.otc_clears,
            ),
        },
    )
}

/// The relations of the newest `limit` primitive header stores, newest
/// first; `ctx` is what the GPU's last linked list left.
pub fn recent_primitive_header_relations(bus: &Bus, ctx: &LinkedListContext, limit: usize) -> (r: Vec<
    PrimitiveHeaderRelation,
>)
    requires
        bus.wf(),
    ensures
        r@ == spec_recent_header_relations(*bus, *ctx, limit),
{
    let writes = &bus.primitive_ram_writes.recent_header_like_writes;
    let n = writes.len();
    let count = if n < limit {
        n
    } else {
        limit
    };
    let mut out: Vec<PrimitiveHeaderRelation> = Vec::new();
    let mut k: usize = 0;
    while k < count
        invariant
            bus.wf(),
            k <= count <= n,
            n == writes@.len(),
            writes == &bus.primitive_ram_writes.recent_header_like_writes,
            out@ == spec_header_relations(
                *bus,
                ctx.visited_nodes@,
                ctx.last_start,
                ctx.last_first_node,
                ctx.otc_clears@,
                writes@,
                k as int,
            ),
        decreases count - k,
    {
        match header_relation(bus, ctx, writes[n - 1 - k]) {
            Some(r) => out.push(r),
            None => {},
        }
        k = k + 1;
    }
    out
}

/// The first half of a relation's JSON: the store and the words at it.
pub open spec fn relation_head_json(r: PrimitiveHeaderRelation) -> Seq<char> {
    let w = r.write;
    "{\"address\":"@ + dec(w.address as nat) + ",\"address_hex\":\"0x"@ + hex(w.address as nat, 8)
        + "\",\"value\":"@ + dec(w.value as nat) + ",\"value_hex\":\"0x"@ + hex(w.value as nat, 8)
        + "\",\"word_count\":"@ + dec((w.value >> 24u32) as nat) + ",\"next\":"@ + dec(
        (w.value & 0x00ff_ffffu32) as nat,
    ) + ",\"next_hex\":\"0x"@ + hex((w.value & 0x00ff_ffffu32) as nat, 6)
        + "\",\"first_command\":"@ + dec(r.first_command as nat) + ",\"first_command_hex\":\"0x"@
        + hex(r.first_command as nat, 8) + "\",\"opcode\":"@ + dec((r.first_command >> 24u32) as nat)
        + ",\"opcode_hex\":\"0x"@ + hex((r.first_command >> 24u32) as nat, 2) + "\""@
}

/// What the packet is.
pub open spec fn relation_kind_json(r: PrimitiveHeaderRelation) -> Seq<char> {
    ",\"candidate\":"@ + bool_text(r.candidate) + ",\"linked\":"@ + bool_text(r.linked)
        + ",\"draw_opcode\":"@ + bool_text(
        spec_looks_like_draw_primitive_opcode((r.first_command >> 24u32) as u8),
    ) + ",\"playfield_bounds\":"@ + bool_text(r.playfield_bounds)
}

/// When and where it was stored.
pub open spec fn relation_when_json(r: PrimitiveHeaderRelation) -> Seq<char> {
    let w = r.write;
    ",\"header_write_vblank\":"@ + dec(w.vblank as nat) + ",\"command_write_vblank\":"@ + opt_dec(
        r.command_write_vblank,
    ) + ",\"pc\":"@ + opt_u32_dec(w.pc) + ",\"pc_hex\":"@ + opt_hex32(w.pc) + ",\"cycles\":"@
        + dec(w.cycles as nat) + ",\"dma_relation\":"@
}

pub open spec fn relation_json(r: PrimitiveHeaderRelation) -> Seq<char> {
    relation_head_json(r) + relation_kind_json(r) + relation_when_json(r) + spec_relation_json(r.dma) + "}"@
}

pub open spec fn relations_json(list: Seq<PrimitiveHeaderRelation>) -> Seq<char> {
    join_commas(list.map_values(|r: PrimitiveHeaderRelation| relation_json(r)))
}

fn push_relation_head(out: &mut String, r: &PrimitiveHeaderRelation)
    ensures
        final(out)@ == old(out)@ + relation_head_json(*r),
{
    let ghost start = out@;
    let w = r.write;
    out.append("{\"address\":");
    push_dec(out, w.address as u64);
    out.append(",\"address_hex\":\"0x");
    push_hex(out, w.address as u64, 8);
    out.append("\",\"value\":");
    push_dec(out, w.value as u64);
    out.append(",\"value_hex\":\"0x");
    push_hex(out, w.value as u64, 8);
    out.append("\",\"word_count\":");
    push_dec(out, (w.value >> 24) as u64);
    out.append(",\"next\":");
    push_dec(out, (w.value & 0x00ff_ffff) as u64);
    out.append(",\"next_hex\":\"0x");
    push_hex(out, (w.value & 0x00ff_ffff) as u64, 6);
    out.append("\",\"first_command\":");
    push_dec(out, r.first_command as u64);
    out.append(",\"first_command_hex\":\"0x");
    push_hex(out, r.first_command as u64, 8);
    out.append("\",\"opcode\":");
    push_dec(out, (r.first_command >> 24) as u64);
    out.append(",\"opcode_hex\":\"0x");
    push_hex(out, (r.first_command >> 24) as u64, 2);
    out.append("\"");
    assert(out@ =~= start + relation_head_json(*r));
}

fn push_relation_kind(out: &mut String, r: &PrimitiveHeaderRelation)
    ensures
        final(out)@ == old(out)@ + relation_kind_json(*r),
{
    let ghost start = out@;
    let first = r.first_command;
    proof {
        crate::gp0::lemma_opcode_range(first);
    }
    let draw = looks_like_draw_primitive_opcode((first >> 24) as u8);
    out.append(",\"candidate\":");
    push_bool(out, r.candidate);
    out.append(",\"linked\":");
    push_bool(out, r.linked);
    out.append(",\"draw_opcode\":");
    push_bool(out, draw);
    out.append(",\"playfield_bounds\":");
    push_bool(out, r.playfield_bounds);
    assert(out@ =~= start + relation_kind_json(*r));
}

fn push_relation_when(out: &mut String, r: &PrimitiveHeaderRelation)
    ensures
        final(out)@ == old(out)@ + relation_when_json(*r),
{
    let ghost start = out@;
    let w = r.write;
    out.append(",\"header_write_vblank\":");
    push_dec(out, w.vblank);
    out.append(",\"command_write_vblank\":");
    push_opt_dec(out, r.command_write_vblank);
    out.append(",\"pc\":");
    push_opt_u32_dec(out, w.pc);
    out.append(",\"pc_hex\":");
    push_opt_hex32(out, w.pc);
    out.append(",\"cycles\":");
    push_dec(out, w.cycles);
    out.append(",\"dma_relation\":");
    assert(out@ =~= start + relation_when_json(*r));
}

/// The relations as comma-separated JSON objects.
pub fn relations_json_text(list: &Vec<PrimitiveHeaderRelation>) -> (r: String)
    ensures
        r@ == relations_json(list@),
{
    let mut out = String::new();
    let ghost start = out@;
    let mut i: usize = 0;
    while i < list.len()
        invariant
            i <= list@.len(),
            start == Seq::<char>::empty(),
            out@ == start + relations_json(list@.take(i as int)),
        decreases list@.len() - i,
    {
        let mut part = String::new();
        push_relation_head(&mut part, &list[i]);
        push_relation_kind(&mut part, &list[i]);
        push_relation_when(&mut part, &list[i]);
        let dma = list[i].dma.json();
        part.append(dma.as_str());
        part.append("}");
        proof {
            assert(part@ =~= relation_json(list@[i as int]));
            let done = list@.take(i as int).map_values(|r: PrimitiveHeaderRelation| relation_json(r));
            lemma_join_commas_push(done, part@);
            assert(list@.take(i + 1).map_values(|r: PrimitiveHeaderRelation| relation_json(r))
                =~= done.push(part@));
        }
        push_joined(&mut out, i, part.as_str());
        proof {
            assert(out@ =~= start + relations_json(list@.take(i + 1)));
        }
        i = i + 1;
    }
    proof {
        assert(list@.take(list@.len() as int) =~= list@);
        assert(out@ =~= relations_json(list@));
    }
    out
}

/// The recent header relations as JSON, against what the bus's DMA
/// channels left.
pub fn recent_primitive_header_relations_json(bus: &Bus, limit: usize) -> (r: String)
    requires
        bus.wf(),
    ensures
        r@ == relations_json(spec_recent_header_relations(*bus, bus.dma_context, limit)),
{
    let list = recent_primitive_header_relations(bus, &bus.dma_context, limit);
    relations_json_text(&list)
}

} // verus!
