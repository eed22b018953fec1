//! The walk of a GPU linked list through RAM, as the GPU channel's DMA
//! performs it: from the start node, each node's header gives its word
//! count and the next node, until a next pointer with bit 23 set or the
//! node limit. The walk reports the nodes and their command words; what
//! the GPU does with the words is not part of this library.
use vstd::prelude::*;
use crate::address::{ram_offset, spec_physical, spec_ram_offset};
use crate::bus::{Bus, BusRegion};

verus! {

/// Nodes a walk visits at most.
pub const GPU_LINKED_LIST_NODE_LIMIT: u32 = 65_536;
/// Command words read from one node at most.
pub const GPU_LINKED_LIST_NODE_WORD_LIMIT: u32 = 1024;

/// Node addresses are word-aligned physical addresses below 16 MiB.
pub open spec fn node_address(a: u32) -> u32 {
    a & 0x00ff_fffcu32
}

/// The address of a node's command word `i`.
pub open spec fn command_address(node: u32, i: int) -> u32 {
    (node + 4 + 4 * i) as u32
}

/// The word count a node header gives, capped at 1024.
pub open spec fn node_words(header: u32) -> u32 {
    if (header >> 24u32) <= GPU_LINKED_LIST_NODE_WORD_LIMIT {
        header >> 24u32
    } else {
        GPU_LINKED_LIST_NODE_WORD_LIMIT
    }
}

/// A next pointer with bit 23 set ends the list.
pub open spec fn is_terminator(next: u32) -> bool {
    next & 0x0080_0000u32 != 0
}

/// The word a read of `address` gives.
pub open spec fn word_at(bus: Bus, address: u32) -> u32 {
    bus.spec_read_value(address, 4)
}

/// The command words of the node at `node` with header `header`.
pub open spec fn node_commands(bus: Bus, node: u32, header: u32) -> Seq<(u32, u32)> {
    Seq::new(
        node_words(header) as nat,
        |i: int| (command_address(node, i), word_at(bus, command_address(node, i))),
    )
}

/// The walk after `k` steps: the nodes visited (address and header), their
/// command words in order, the next node to visit, and whether the list
/// ended.
pub open spec fn spec_walk_state(bus: Bus, start: u32, k: int) -> (
    Seq<(u32, u32)>,
    Seq<(u32, u32)>,
    u32,
    bool,
)
    decreases k,
{
    if k <= 0 {
        (Seq::empty(), Seq::empty(), node_address(start), false)
    } else {
        let (nodes, commands, address, done) = spec_walk_state(bus, start, k - 1);
        if done {
            (nodes, commands, address, done)
        } else {
            let header = word_at(bus, address);
            let next = header & 0x00ff_ffffu32;
            (
                nodes.push((address, header)),
                commands + node_commands(bus, address, header),
                if is_terminator(next) {
                    address
                } else {
                    node_address(next)
                },
                is_terminator(next),
            )
        }
    }
}

/// A walk of a linked list.
pub struct GpuLinkedListWalk {
    /// The nodes visited, in order: address and header.
    pub nodes: Vec<(u32, u32)>,
    /// Every node's command words, in order: address and word.
    pub commands: Vec<(u32, u32)>,
    /// The list ended on a terminator; otherwise the node limit was hit.
    pub terminated: bool,
}

/// The walk from `start`, over at most the node limit.
pub open spec fn spec_walk(bus: Bus, start: u32) -> (Seq<(u32, u32)>, Seq<(u32, u32)>, bool) {
    let (nodes, commands, _, done) = spec_walk_state(bus, start, GPU_LINKED_LIST_NODE_LIMIT as int);
    (nodes, commands, done)
}

proof fn lemma_walk_stays_done(bus: Bus, start: u32, k: int, m: int)
    requires
        0 <= k <= m,
        spec_walk_state(bus, start, k).3,
    ensures
        spec_walk_state(bus, start, m) == spec_walk_state(bus, start, k),
    decreases m - k,
{
    if k < m {
        lemma_walk_stays_done(bus, start, k, m - 1);
    }
}

proof fn lemma_walk_addresses(bus: Bus, start: u32, k: int)
    requires
        0 <= k,
    ensures
        spec_walk_state(bus, start, k).2 <= 0x00ff_fffc,
    decreases k,
{
    if k > 0 {
        lemma_walk_addresses(bus, start, k - 1);
        let a = spec_walk_state(bus, start, k - 1).2;
        let h = word_at(bus, a);
        lemma_mask_facts(h & 0x00ff_ffffu32);
    }
    lemma_mask_facts(start);
}

pub(crate) proof fn lemma_mask_facts(a: u32)
    ensures
        node_address(a) <= 0x00ff_fffc,
        spec_physical(0xfffe_0130u32) == 0x1ffe_0130,
{
    assert(a & 0x00ff_fffcu32 <= 0x00ff_fffc && 0xfffe_0130u32 & 0x1fff_ffffu32 == 0x1ffe_0130)
        by (bit_vector);
}

impl Bus {
    /// What a word read at `address` gives, with no effect on the bus: the
    /// address lies below the BIOS and I/O windows, so it is RAM or unmapped.
    pub fn peek_low_u32(&self, address: u32) -> (r: u32)
        requires
            self.wf(),
            spec_physical(address) < 0x0200_0000,
        ensures
            r == self.spec_read_value(address, 4),
    {
        proof {
            lemma_mask_facts(address);
        }
        match ram_offset(address, self.ram.len(), 4) {
            Some(_) => {
                let offset = ram_offset(address, self.ram.len(), 4).unwrap();
                match self.snapshots.runtime_read_value(address, 4, self.trace.pc) {
                    Some(value) => value,
                    None => match self.snapshots.patch_read_value(address, 4) {
                        Some(value) => value,
                        None => {
                            let ram_value = crate::address::le_u32_at(&self.ram, offset, 4);
                            self.snapshots.boot_global_fallback_value(address, 4, ram_value)
                        },
                    },
                }
            },
            None => 0,
        }
    }
}

/// Walks the linked list that starts at `start`.
pub fn gpu_linked_list_walk(bus: &Bus, start: u32) -> (r: GpuLinkedListWalk)
    requires
        bus.wf(),
    ensures
        (r.nodes@, r.commands@, r.terminated) == spec_walk(*bus, start),
{
    let mut nodes: Vec<(u32, u32)> = Vec::new();
    let mut commands: Vec<(u32, u32)> = Vec::new();
    let mut address = start & 0x00ff_fffc;
    let mut terminated = false;
    let mut k: u32 = 0;
    proof {
        assert(spec_walk_state(*bus, start, 0) == (Seq::<(u32, u32)>::empty(), Seq::<(u32, u32)>::empty(), node_address(start), false));
        assert(nodes@ =~= Seq::<(u32, u32)>::empty());
        assert(commands@ =~= Seq::<(u32, u32)>::empty());
    }
    while k < GPU_LINKED_LIST_NODE_LIMIT
        invariant_except_break
            !terminated,
        invariant
            bus.wf(),
            k <= GPU_LINKED_LIST_NODE_LIMIT,
            (nodes@, commands@, address, terminated) == spec_walk_state(*bus, start, k as int),
        ensures
            (nodes@, commands@, address, terminated) == spec_walk_state(*bus, start, k as int),
            terminated || k == GPU_LINKED_LIST_NODE_LIMIT,
        decreases GPU_LINKED_LIST_NODE_LIMIT - k,
    {
        proof {
            lemma_walk_addresses(*bus, start, k as int);
            lemma_mask_facts(address);
            lemma_low_physical(address);
        }
        let header = bus.peek_low_u32(address);
        let words = if (header >> 24) <= GPU_LINKED_LIST_NODE_WORD_LIMIT {
            header >> 24
        } else {
            GPU_LINKED_LIST_NODE_WORD_LIMIT
        };
        nodes.push((address, header));
        let ghost before = commands@;
        let mut index: u32 = 0;
        while index < words
            invariant
                bus.wf(),
                address <= 0x00ff_fffc,
                words == node_words(header),
                index <= words,
                words <= GPU_LINKED_LIST_NODE_WORD_LIMIT,
                commands@ == before + node_commands(*bus, address, header).take(index as int),
            decreases words - index,
        {
            let command_address = address + 4 + index * 4;
            proof {
                assert(spec_physical(command_address) < 0x0200_0000) by {
                    lemma_low_physical(command_address);
                }
            }
            let command = bus.peek_low_u32(command_address);
            commands.push((command_address, command));
            index = index + 1;
            proof {
                assert(commands@ =~= before + node_commands(*bus, address, header).take(index as int));
            }
        }
        proof {
            assert(node_commands(*bus, address, header).take(words as int) =~= node_commands(*bus, address, header));
        }
        let next = header & 0x00ff_ffff;
        k = k + 1;
        if next & 0x0080_0000 != 0 {
            terminated = true;
            break;
        }
        address = next & 0x00ff_fffc;
    }
    proof {
        if terminated {
            lemma_walk_stays_done(*bus, start, k as int, GPU_LINKED_LIST_NODE_LIMIT as int);
        }
    }
    GpuLinkedListWalk { nodes, commands, terminated }
}

/// An address below 32 MiB is its own physical address.
proof fn lemma_low_physical(a: u32)
    requires
        a < 0x0200_0000,
    ensures
        spec_physical(a) == a,
{
    assert(a < 0x0200_0000 ==> a & 0x1fff_ffffu32 == a) by (bit_vector);
}

impl GpuLinkedListWalk {
    /// The addresses of the nodes visited, in order.
    pub fn visited_nodes(&self) -> (r: Vec<u32>)
        ensures
            r@ == self.nodes@.map_values(|n: (u32, u32)| n.0),
    {
        let mut out: Vec<u32> = Vec::new();
        let mut i: usize = 0;
        while i < self.nodes.len()
            invariant
                i <= self.nodes@.len(),
                out@ == self.nodes@.take(i as int).map_values(|n: (u32, u32)| n.0),
            decreases self.nodes@.len() - i,
        {
            out.push(self.nodes[i].0);
            i = i + 1;
            proof {
                assert(out@ =~= self.nodes@.take(i as int).map_values(|n: (u32, u32)| n.0));
            }
        }
        proof {
            assert(self.nodes@.take(self.nodes@.len() as int) =~= self.nodes@);
        }
        out
    }
}

} // verus!
