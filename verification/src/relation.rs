//! Where a primitive RAM address lies relative to the GPU's last linked
//! list and the ordering tables the OTC channel cleared recently.
use vstd::prelude::*;
use crate::json::{bool_text, dec, hex, opt_dec, opt_hex32, opt_u32_dec, push_bool, push_dec, push_hex,
    push_opt_dec, push_opt_hex32, push_opt_u32_dec};

verus! {

/// Ordering-table clears considered for the nearest one.
pub const DMA_OTC_RECENT_RANGE_LIMIT: usize = 8;

/// One ordering-table clear of the OTC channel: its vertical blank and, when
/// known, the first and last addresses it wrote.
#[derive(Clone, Copy, Debug, PartialEq, Eq, Structural)]
pub struct OtcClearRange {
    pub vblank: u64,
    pub start: Option<u32>,
    pub end: Option<u32>,
}

/// An address against one ordering-table range.
#[derive(Clone, Copy, Debug, PartialEq, Eq, Structural)]
pub struct OtcRangeRelation {
    pub vblank: u64,
    pub low: u32,
    pub high: u32,
    pub inside: bool,
    pub distance: u32,
}

/// An address against the last linked list and the recent ordering tables.
#[derive(Clone, Copy, Debug, PartialEq, Eq, Structural)]
pub struct PrimitiveDmaRelation {
    pub gpu_start: u32,
    pub gpu_start_distance: u32,
    pub gpu_first_node: u32,
    pub gpu_first_node_distance: u32,
    /// The most recent clear.
    pub latest_otc: Option<OtcRangeRelation>,
    /// Among the most recent clears, the one holding the address, else the
    /// closest; the more recent one on a tie.
    pub nearest_otc: Option<OtcRangeRelation>,
}

pub open spec fn abs_diff(a: u32, b: u32) -> u32 {
    if a >= b {
        (a - b) as u32
    } else {
        (b - a) as u32
    }
}

pub open spec fn min_u32(a: u32, b: u32) -> u32 {
    if a <= b {
        a
    } else {
        b
    }
}

/// The address against a clear whose bounds are known.
pub open spec fn spec_range_relation(address: u32, r: OtcClearRange) -> Option<OtcRangeRelation> {
    match (r.start, r.end) {
        (Some(start), Some(end)) => {
            let low = min_u32(start, end);
            let high = if start >= end {
                start
            } else {
                end
            };
            let inside = low <= address <= high;
            Some(
                OtcRangeRelation {
                    vblank: r.vblank,
                    low,
                    high,
                    inside,
                    distance: if inside {
                        0
                    } else {
                        min_u32(abs_diff(address, low), abs_diff(address, high))
                    },
                },
            )
        },
        _ => None,
    }
}

/// `a` ranks before `b`: inside where `b` is not, or as much inside and
/// closer.
pub open spec fn ranks_before(a: OtcRangeRelation, b: OtcRangeRelation) -> bool {
    (a.inside && !b.inside) || (a.inside == b.inside && a.distance < b.distance)
}

/// The best of the `k` most recent clears, newest first; a later one
/// replaces the best only when it ranks strictly before it.
pub open spec fn spec_nearest(address: u32, clears: Seq<OtcClearRange>, k: int) -> Option<
    OtcRangeRelation,
>
    decreases k,
{
    if k <= 0 || k > clears.len() {
        None
    } else {
        let best = spec_nearest(address, clears, k - 1);
        match spec_range_relation(address, clears[clears.len() - k]) {
            None => best,
            Some(c) => match best {
                None => Some(c),
                Some(b) => if ranks_before(c, b) {
                    Some(c)
                } else {
                    Some(b)
                },
            },
        }
    }
}

/// The relation of `address` to the last linked list, which started at
/// `last_start` with first node `last_first_node`, and to the ordering
/// table clears `clears`, oldest first.
pub open spec fn spec_primitive_dma_relation(
    address: u32,
    last_start: u32,
    last_first_node: u32,
    clears: Seq<OtcClearRange>,
) -> PrimitiveDmaRelation {
    let gpu_start = last_start & 0x00ff_fffcu32;
    let gpu_first_node = last_first_node & 0x00ff_fffcu32;
    PrimitiveDmaRelation {
        gpu_start,
        gpu_start_distance: abs_diff(address, gpu_start),
        gpu_first_node,
        gpu_first_node_distance: abs_diff(address, gpu_first_node),
        latest_otc: if clears.len() == 0 {
            None
        } else {
            spec_range_relation(address, clears.last())
        },
        nearest_otc: spec_nearest(
            address,
            clears,
            if clears.len() < DMA_OTC_RECENT_RANGE_LIMIT {
                clears.len() as int
            } else {
                DMA_OTC_RECENT_RANGE_LIMIT as int
            },
        ),
    }
}

fn abs_diff_u32(a: u32, b: u32) -> (r: u32)
    ensures
        r == abs_diff(a, b),
{
    if a >= b {
        a - b
    } else {
        b - a
    }
}

fn range_relation(address: u32, r: &OtcClearRange) -> (o: Option<OtcRangeRelation>)
    ensures
        o == spec_range_relation(address, *r),
{
    match (r.start, r.end) {
        (Some(start), Some(end)) => {
            let low = if start <= end {
                start
            } else {
                end
            };
            let high = if start >= end {
                start
            } else {
                end
            };
            let inside = low <= address && address <= high;
            let distance = if inside {
                0
            } else {
                let a = abs_diff_u32(address, low);
                let b = abs_diff_u32(address, high);
                if a <= b {
                    a
                } else {
                    b
                }
            };
            Some(OtcRangeRelation { vblank: r.vblank, low, high, inside, distance })
        },
        _ => None,
    }
}

/// Relates a primitive RAM address to the last linked list and the recent
/// ordering-table clears (`clears`, oldest first).
pub fn primitive_address_dma_relation(
    address: u32,
    last_start: u32,
    last_first_node: u32,
    clears: &Vec<OtcClearRange>,
) -> (r: PrimitiveDmaRelation)
    ensures
        r == spec_primitive_dma_relation(address, last_start, last_first_node, clears@),
{
    let gpu_start = last_start & 0x00ff_fffc;
    let gpu_first_node = last_first_node & 0x00ff_fffc;
    let n = clears.len();
    let latest_otc = if n == 0 {
        None
    } else {
        range_relation(address, &clears[n - 1])
    };
    let limit = if n < DMA_OTC_RECENT_RANGE_LIMIT {
        n
    } else {
        DMA_OTC_RECENT_RANGE_LIMIT
    };
    let mut nearest: Option<OtcRangeRelation> = None;
    let mut k: usize = 0;
    while k < limit
        invariant
            k <= limit <= n,
            n == clears@.len(),
            nearest == spec_nearest(address, clears@, k as int),
        decreases limit - k,
    {
        let candidate = range_relation(address, &clears[n - 1 - k]);
        match candidate {
            Some(c) => {
                nearest = match nearest {
                    None => Some(c),
                    Some(b) => if (c.inside && !b.inside) || (c.inside == b.inside && c.distance
                        < b.distance) {
                        Some(c)
                    } else {
                        Some(b)
                    },
                };
            },
            None => {},
        }
        k = k + 1;
    }
    PrimitiveDmaRelation {
        gpu_start,
        gpu_start_distance: abs_diff_u32(address, gpu_start),
        gpu_first_node,
        gpu_first_node_distance: abs_diff_u32(address, gpu_first_node),
        latest_otc,
        nearest_otc: nearest,
    }
}

pub open spec fn opt_vblank(r: Option<OtcRangeRelation>) -> Option<u64> {
    match r {
        Some(x) => Some(x.vblank),
        None => None,
    }
}

pub open spec fn opt_low(r: Option<OtcRangeRelation>) -> Option<u32> {
    match r {
        Some(x) => Some(x.low),
        None => None,
    }
}

pub open spec fn opt_high(r: Option<OtcRangeRelation>) -> Option<u32> {
    match r {
        Some(x) => Some(x.high),
        None => None,
    }
}

pub open spec fn opt_distance(r: Option<OtcRangeRelation>) -> Option<u32> {
    match r {
        Some(x) => Some(x.distance),
        None => None,
    }
}

pub open spec fn is_inside(r: Option<OtcRangeRelation>) -> bool {
    match r {
        Some(x) => x.inside,
        None => false,
    }
}

/// `"lead name tail"`: a key built around the relation's name.
pub open spec fn key(lead: Seq<char>, name: Seq<char>, tail: Seq<char>) -> Seq<char> {
    lead + name + tail
}

/// The fields of one ordering-table relation, under the given name.
pub open spec fn otc_fields_json(name: Seq<char>, r: Option<OtcRangeRelation>) -> Seq<char> {
    key("\""@, name, "_otc_vblank\":"@) + opt_dec(opt_vblank(r)) + key(",\""@, name, "_otc_low\":"@)
        + opt_u32_dec(opt_low(r)) + key(",\""@, name, "_otc_low_hex\":"@) + opt_hex32(opt_low(r))
        + key(",\""@, name, "_otc_high\":"@) + opt_u32_dec(opt_high(r)) + key(
        ",\""@,
        name,
        "_otc_high_hex\":"@,
    ) + opt_hex32(opt_high(r)) + key(",\"inside_"@, name, "_otc\":"@) + bool_text(is_inside(r))
        + key(",\"distance_to_"@, name, "_otc\":"@) + opt_u32_dec(opt_distance(r))
}

/// The relation as JSON.
pub open spec fn spec_relation_json(r: PrimitiveDmaRelation) -> Seq<char> {
    "{\"last_gpu_start\":"@ + dec(r.gpu_start as nat) + ",\"last_gpu_start_hex\":\"0x"@ + hex(
        r.gpu_start as nat,
        8,
    ) + "\",\"distance_to_last_gpu_start\":"@ + dec(r.gpu_start_distance as nat)
        + ",\"last_gpu_first_node\":"@ + dec(r.gpu_first_node as nat)
        + ",\"last_gpu_first_node_hex\":\"0x"@ + hex(r.gpu_first_node as nat, 8)
        + "\",\"distance_to_last_gpu_first_node\":"@ + dec(r.gpu_first_node_distance as nat) + ","@
        + otc_fields_json("latest"@, r.latest_otc) + ","@ + otc_fields_json("nearest"@, r.nearest_otc)
        + "}"@
}

fn push_key(out: &mut String, lead: &str, name: &str, tail: &str)
    ensures
        final(out)@ == old(out)@ + key(lead@, name@, tail@),
{
    let ghost start = out@;
    out.append(lead);
    out.append(name);
    out.append(tail);
    assert(out@ =~= start + key(lead@, name@, tail@));
}

fn push_otc_fields(out: &mut String, name: &str, r: Option<OtcRangeRelation>)
    ensures
        final(out)@ == old(out)@ + otc_fields_json(name@, r),
{
    let ghost start = out@;
    let (vblank, low, high, inside, distance) = match r {
        Some(x) => (Some(x.vblank), Some(x.low), Some(x.high), x.inside, Some(x.distance)),
        None => (None, None, None, false, None),
    };
    push_key(out, "\"", name, "_otc_vblank\":");
    push_opt_dec(out, vblank);
    let ghost a = out@;
    push_key(out, ",\"", name, "_otc_low\":");
    push_opt_u32_dec(out, low);
    push_key(out, ",\"", name, "_otc_low_hex\":");
    push_opt_hex32(out, low);
    let ghost b = out@;
    push_key(out, ",\"", name, "_otc_high\":");
    push_opt_u32_dec(out, high);
    push_key(out, ",\"", name, "_otc_high_hex\":");
    push_opt_hex32(out, high);
    let ghost c = out@;
    push_key(out, ",\"inside_", name, "_otc\":");
    push_bool(out, inside);
    push_key(out, ",\"distance_to_", name, "_otc\":");
    push_opt_u32_dec(out, distance);
    proof {
        reveal_strlit("\"");
        reveal_strlit(",\"");
        reveal_strlit("_otc_vblank\":");
        reveal_strlit("_otc_low\":");
        reveal_strlit("_otc_low_hex\":");
        reveal_strlit("_otc_high\":");
        reveal_strlit("_otc_high_hex\":");
        reveal_strlit(",\"inside_");
        reveal_strlit("_otc\":");
        reveal_strlit(",\"distance_to_");
    }
    assert(out@ =~= start + otc_fields_json(name@, r));
}

impl PrimitiveDmaRelation {
    /// The relation as JSON.
    pub fn json(&self) -> (r: String)
        ensures
            r@ == spec_relation_json(*self),
    {
        let mut out = String::from_str("{\"last_gpu_start\":");
        push_dec(&mut out, self.gpu_start as u64);
        out.append(",\"last_gpu_start_hex\":\"0x");
        push_hex(&mut out, self.gpu_start as u64, 8);
        out.append("\",\"distance_to_last_gpu_start\":");
        push_dec(&mut out, self.gpu_start_distance as u64);
        out.append(",\"last_gpu_first_node\":");
        push_dec(&mut out, self.gpu_first_node as u64);
        out.append(",\"last_gpu_first_node_hex\":\"0x");
        push_hex(&mut out, self.gpu_first_node as u64, 8);
        out.append("\",\"distance_to_last_gpu_first_node\":");
        push_dec(&mut out, self.gpu_first_node_distance as u64);
        out.append(",");
        push_otc_fields(&mut out, "latest", self.latest_otc);
        out.append(",");
        push_otc_fields(&mut out, "nearest", self.nearest_otc);
        out.append("}");
        proof {
            reveal_strlit("latest");
            reveal_strlit("nearest");
        }
        assert(out@ =~= spec_relation_json(*self));
        out
    }
}

/// The address lies inside the clear's range, when the range is known.
pub open spec fn holds(address: u32, r: OtcClearRange) -> bool {
    spec_range_relation(address, r) matches Some(x) && x.inside
}

proof fn lemma_nearest_inside(address: u32, clears: Seq<OtcClearRange>, k: int, j: int)
    requires
        0 < k <= clears.len(),
        clears.len() - k <= j < clears.len(),
        holds(address, clears[j]),
    ensures
        spec_nearest(address, clears, k) matches Some(x) && x.inside,
    decreases k,
{
    if j > clears.len() - k {
        lemma_nearest_inside(address, clears, k - 1, j);
    }
}

/// When one of the recent clears holds the address, the nearest clear
/// reported holds it; in particular when the latest clear does.
pub proof fn law_nearest_clear_holds_when_any_does(address: u32, last_start: u32, last_first_node: u32, clears: Seq<OtcClearRange>, j: int)
    requires
        0 <= j < clears.len(),
        clears.len() - DMA_OTC_RECENT_RANGE_LIMIT <= j,
        holds(address, clears[j]),
    ensures
        spec_primitive_dma_relation(address, last_start, last_first_node, clears).nearest_otc matches Some(x)
            && x.inside,
{
    let k = if clears.len() < DMA_OTC_RECENT_RANGE_LIMIT {
        clears.len() as int
    } else {
        DMA_OTC_RECENT_RANGE_LIMIT as int
    };
    lemma_nearest_inside(address, clears, k, j);
}

proof fn lemma_nearest_best(address: u32, clears: Seq<OtcClearRange>, k: int)
    requires
        0 <= k <= clears.len(),
    ensures
        forall|i: int|
            clears.len() - k <= i < clears.len() && (#[trigger] spec_range_relation(
                address,
                clears[i],
            )) is Some ==> spec_nearest(address, clears, k) is Some && !ranks_before(
                spec_range_relation(address, clears[i])->0,
                spec_nearest(address, clears, k)->0,
            ),
        spec_nearest(address, clears, k) is Some ==> exists|i: int|
            clears.len() - k <= i < clears.len() && #[trigger] spec_range_relation(
                address,
                clears[i],
            ) == spec_nearest(address, clears, k),
    decreases k,
{
    if k > 0 {
        lemma_nearest_best(address, clears, k - 1);
        let i0 = clears.len() - k;
        assert(spec_range_relation(address, clears[i0]) == spec_range_relation(
            address,
            clears[clears.len() - k],
        ));
        if spec_nearest(address, clears, k - 1) is Some {
            let w = choose|i: int|
                clears.len() - (k - 1) <= i < clears.len() && #[trigger] spec_range_relation(
                    address,
                    clears[i],
                ) == spec_nearest(address, clears, k - 1);
            assert(spec_range_relation(address, clears[w]) == spec_nearest(address, clears, k - 1));
        }
    }
}

/// The nearest clear reported is the best of the recent clears (the last
/// eight at most) whose bounds are known: it is one of them, and none of
/// them ranks before it (a range holding the address before one that does
/// not, then a smaller distance). When any of them has known bounds, a
/// nearest clear is reported.
pub proof fn law_nearest_clear_is_best(
    address: u32,
    last_start: u32,
    last_first_node: u32,
    clears: Seq<OtcClearRange>,
    j: int,
)
    requires
        0 <= j < clears.len(),
        clears.len() - DMA_OTC_RECENT_RANGE_LIMIT <= j,
    ensures
        ({
            let nearest = spec_primitive_dma_relation(
                address,
                last_start,
                last_first_node,
                clears,
            ).nearest_otc;
            &&& spec_range_relation(address, clears[j]) is Some ==> nearest is Some && !ranks_before(
                spec_range_relation(address, clears[j])->0,
                nearest->0,
            )
            &&& nearest is Some ==> exists|i: int|
                clears.len() - DMA_OTC_RECENT_RANGE_LIMIT <= i < clears.len() && 0 <= i
                    && #[trigger] spec_range_relation(address, clears[i]) == nearest
        }),
{
    let k = if clears.len() < DMA_OTC_RECENT_RANGE_LIMIT {
        clears.len() as int
    } else {
        DMA_OTC_RECENT_RANGE_LIMIT as int
    };
    lemma_nearest_best(address, clears, k);
    assert(spec_range_relation(address, clears[j]) == spec_range_relation(address, clears[j]));
}

} // verus!
