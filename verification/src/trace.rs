//! The bus access trace: a bounded log of accesses, optionally restricted to
//! watched physical ranges, with the CPU context of each access.
use vstd::prelude::*;
use crate::address::{physical_address, ranges_overlap, spec_physical, spec_ranges_overlap};
use crate::json::{
    dec, hex, join_commas, lemma_join_commas_push, opt_hex32, opt_u32_dec, push_dec, push_hex,
    push_joined, push_opt_hex32, push_opt_u32_dec,
};

verus! {

broadcast use vstd::string::group_string_axioms;

/// A watched physical range `[start, end)`.
#[derive(Clone, Copy, Debug, PartialEq, Eq, Structural)]
pub struct BusTraceWatchRange {
    pub start: u32,
    pub end: u32,
}

/// `u32` addition that sticks at the top.
pub open spec fn sat_add_u32(a: u32, b: u32) -> u32 {
    if a + b > u32::MAX {
        u32::MAX
    } else {
        (a + b) as u32
    }
}

impl BusTraceWatchRange {
    pub open spec fn spec_new(address: u32, len: u32) -> Option<Self> {
        let start = spec_physical(address);
        let end = sat_add_u32(start, len);
        if len == 0 || start >= end {
            None
        } else {
            Some(BusTraceWatchRange { start, end })
        }
    }

    /// The physical range of `len` bytes at `address`; `None` when empty.
    pub fn new(address: u32, len: u32) -> (r: Option<Self>)
        ensures
            r == Self::spec_new(address, len),
    {
        if len == 0 {
            return None;
        }
        let start = physical_address(address);
        let end = start.saturating_add(len);
        if start < end {
            Some(BusTraceWatchRange { start, end })
        } else {
            None
        }
    }
}

/// One traced access.
#[derive(Clone, Copy, Debug, PartialEq, Eq)]
pub struct BusAccessTraceEvent {
    pub operation: &'static str,
    pub region: &'static str,
    pub address: u32,
    pub physical_address: u32,
    pub width: u8,
    pub value: u32,
    pub pc: Option<u32>,
    pub cycles: u64,
}

impl BusAccessTraceEvent {
    pub open spec fn spec_json(self) -> Seq<char> {
        "{\"operation\":\""@
            + (self.operation@)
            + "\",\"region\":\""@
            + (self.region@)
            + "\",\"address\":"@
            + dec((self.address) as nat)
            + ",\"address_hex\":\"0x"@
            + hex((self.address) as nat, 8)
            + "\",\"physical_address\":"@
            + dec((self.physical_address) as nat)
            + ",\"physical_address_hex\":\"0x"@
            + hex((self.physical_address) as nat, 8)
            + "\",\"width\":"@
            + dec((self.width) as nat)
            + ",\"value\":"@
            + dec((self.value) as nat)
            + ",\"value_hex\":\"0x"@
            + hex((self.value) as nat, 8)
            + "\",\"pc\":"@
            + opt_u32_dec(self.pc)
            + ",\"pc_hex\":"@
            + opt_hex32(self.pc)
            + ",\"cycles\":"@
            + dec((self.cycles) as nat)
            + "}"@
    }

    /// The access as a JSON object.
    pub fn json(&self) -> (r: String)
        ensures
            r@ == self.spec_json(),
    {
        let mut out = String::from_str("{\"operation\":\"");
        out.append(self.operation);
        out.append("\",\"region\":\"");
        out.append(self.region);
        out.append("\",\"address\":");
        push_dec(&mut out, (self.address) as u64);
        out.append(",\"address_hex\":\"0x");
        push_hex(&mut out, (self.address) as u64, 8);
        out.append("\",\"physical_address\":");
        push_dec(&mut out, (self.physical_address) as u64);
        out.append(",\"physical_address_hex\":\"0x");
        push_hex(&mut out, (self.physical_address) as u64, 8);
        out.append("\",\"width\":");
        push_dec(&mut out, (self.width) as u64);
        out.append(",\"value\":");
        push_dec(&mut out, (self.value) as u64);
        out.append(",\"value_hex\":\"0x");
        push_hex(&mut out, (self.value) as u64, 8);
        out.append("\",\"pc\":");
        push_opt_u32_dec(&mut out, self.pc);
        out.append(",\"pc_hex\":");
        push_opt_hex32(&mut out, self.pc);
        out.append(",\"cycles\":");
        push_dec(&mut out, (self.cycles) as u64);
        out.append("}");
        out
    }
}

/// The access log and its settings: how many events are kept, which physical
/// ranges are watched, whether only watched accesses are logged, which kinds
/// of watch hits were seen, and the CPU context stamped on each event.
#[derive(Clone, Debug)]
pub struct AccessTrace {
    pub limit: usize,
    pub watch_only: bool,
    pub watch_ranges: Vec<BusTraceWatchRange>,
    pub watch_access_hit: bool,
    pub watch_data_hit: bool,
    pub watch_write_hit: bool,
    pub pc: Option<u32>,
    pub cycles: u64,
    pub events: Vec<BusAccessTraceEvent>,
}

/// The operation name of a read or a write.
pub open spec fn spec_operation(write: bool) -> Seq<char> {
    if write {
        "write"@
    } else {
        "read"@
    }
}

impl AccessTrace {
    /// Tracing off, nothing watched, no context.
    pub fn new() -> (r: Self)
        ensures
            r.limit == 0,
            !r.watch_only,
            r.watch_ranges@.len() == 0,
            !r.watch_access_hit && !r.watch_data_hit && !r.watch_write_hit,
            r.pc is None,
            r.cycles == 0,
            r.events@.len() == 0,
    {
        AccessTrace {
            limit: 0,
            watch_only: false,
            watch_ranges: Vec::new(),
            watch_access_hit: false,
            watch_data_hit: false,
            watch_write_hit: false,
            pc: None,
            cycles: 0,
            events: Vec::new(),
        }
    }

    /// Whether `len` bytes at `address` touch a watched range.
    pub open spec fn spec_watch_matches(self, address: u32, len: usize) -> bool {
        let start = spec_physical(address);
        let end = sat_add_u32(start, #[verifier::truncate] (len as u32));
        &&& len > 0
        &&& exists|i: int|
            0 <= i < self.watch_ranges@.len() && spec_ranges_overlap(
                start,
                end,
                #[trigger] self.watch_ranges@[i].start,
                self.watch_ranges@[i].end,
            )
    }

    pub fn watch_matches(&self, address: u32, len: usize) -> (r: bool)
        ensures
            r == self.spec_watch_matches(address, len),
    {
        if self.watch_ranges.len() == 0 || len == 0 {
            return false;
        }
        let start = physical_address(address);
        let end = start.saturating_add(#[verifier::truncate] (len as u32));
        let mut i: usize = 0;
        while i < self.watch_ranges.len()
            invariant
                len > 0,
                i <= self.watch_ranges@.len(),
                start == spec_physical(address),
                end == sat_add_u32(start, #[verifier::truncate] (len as u32)),
                forall|j: int|
                    0 <= j < i ==> !spec_ranges_overlap(
                        start,
                        end,
                        #[trigger] self.watch_ranges@[j].start,
                        self.watch_ranges@[j].end,
                    ),
            decreases self.watch_ranges@.len() - i,
        {
            let range = self.watch_ranges[i];
            if ranges_overlap(start, end, range.start, range.end) {
                assert(spec_ranges_overlap(
                    start,
                    end,
                    self.watch_ranges@[i as int].start,
                    self.watch_ranges@[i as int].end,
                ));
                return true;
            }
            i = i + 1;
        }
        false
    }

    /// The hit flags after an access that touched a watched range.
    pub open spec fn spec_note_hit(self, write: bool, address: u32) -> Self {
        AccessTrace {
            watch_access_hit: true,
            watch_data_hit: self.watch_data_hit || self.pc != Some(address),
            watch_write_hit: self.watch_write_hit || write,
            ..self
        }
    }

    /// The event an access appends.
    pub open spec fn spec_event(
        self,
        write: bool,
        region: &'static str,
        address: u32,
        width: u8,
        value: u32,
    ) -> BusAccessTraceEvent {
        BusAccessTraceEvent {
            operation: if write {
                "write"
            } else {
                "read"
            },
            region,
            address,
            physical_address: spec_physical(address),
            width,
            value,
            pc: self.pc,
            cycles: self.cycles,
        }
    }

    /// The log after appending `event`: the oldest entry leaves once the log
    /// holds more than `limit` events.
    pub open spec fn spec_appended(self, event: BusAccessTraceEvent) -> Seq<BusAccessTraceEvent> {
        let pushed = self.events@.push(event);
        if pushed.len() > self.limit {
            pushed.drop_first()
        } else {
            pushed
        }
    }

    /// Whether an access is logged: tracing is on and, in watch-only mode,
    /// the access touches a watched range.
    pub open spec fn spec_logs(self, address: u32, width: u8) -> bool {
        self.limit != 0 && (!self.watch_only || self.spec_watch_matches(address, width as usize))
    }

    /// `result` is this trace after logging an access (reads and writes of
    /// I/O, board and unmapped space): logged when tracing is on and, in
    /// watch-only mode, the access touches a watched range; hits are noted
    /// for accesses that touch one.
    pub open spec fn spec_access_effect(
        self,
        write: bool,
        region: &'static str,
        address: u32,
        width: u8,
        value: u32,
        result: Self,
    ) -> bool {
        &&& result.events@ == (if self.spec_logs(address, width) {
            self.spec_appended(self.spec_event(write, region, address, width, value))
        } else {
            self.events@
        })
        &&& result == (AccessTrace {
            events: result.events,
            ..(if self.spec_logs(address, width) && self.spec_watch_matches(address, width as usize) {
                self.spec_note_hit(write, address)
            } else {
                self
            })
        })
    }

    /// `result` is this trace after an access to memory (RAM, scratchpad,
    /// banked ROM): only accesses touching a watched range count; they are
    /// noted as hits and logged as above.
    pub open spec fn spec_watch_effect(
        self,
        write: bool,
        region: &'static str,
        address: u32,
        width: usize,
        value: u32,
        result: Self,
    ) -> bool {
        if self.spec_watch_matches(address, width) {
            self.spec_note_hit(write, address).spec_access_effect(
                write,
                region,
                address,
                width as u8,
                value,
                result,
            )
        } else {
            result == self
        }
    }

    /// Logs an access (reads and writes of I/O, board and unmapped space).
    pub fn record_access(
        &mut self,
        write: bool,
        region: &'static str,
        address: u32,
        width: u8,
        value: u32,
    )
        ensures
            old(self).spec_access_effect(write, region, address, width, value, *final(self)),
    {
        if self.limit == 0 {
            return;
        }
        let matches = self.watch_matches(address, width as usize);
        if self.watch_only && !matches {
            return;
        }
        if matches {
            self.watch_access_hit = true;
            if self.pc != Some(address) {
                self.watch_data_hit = true;
            }
            if write {
                self.watch_write_hit = true;
            }
        }
        let event = BusAccessTraceEvent {
            operation: if write {
                "write"
            } else {
                "read"
            },
            region,
            address,
            physical_address: physical_address(address),
            width,
            value,
            pc: self.pc,
            cycles: self.cycles,
        };
        self.events.push(event);
        if self.events.len() > self.limit {
            self.events.remove(0);
        }
    }

    /// Logs an access to memory (RAM, scratchpad, banked ROM) when it touches
    /// a watched range; such an access always counts as a hit.
    pub fn record_watch(
        &mut self,
        write: bool,
        region: &'static str,
        address: u32,
        width: usize,
        value: u32,
    )
        ensures
            old(self).spec_watch_effect(write, region, address, width, value, *final(self)),
    {
        if self.watch_matches(address, width) {
            self.watch_access_hit = true;
            if self.pc != Some(address) {
                self.watch_data_hit = true;
            }
            if write {
                self.watch_write_hit = true;
            }
            self.record_access(write, region, address, width as u8, value);
        }
    }

    /// Sets how many events are kept; clears the log and the hit flags.
    pub fn set_limit(&mut self, limit: usize)
        ensures
            *final(self) == (AccessTrace {
                limit,
                events: final(self).events,
                watch_access_hit: false,
                watch_data_hit: false,
                watch_write_hit: false,
                ..*old(self)
            }),
            final(self).events@.len() == 0,
    {
        self.limit = limit;
        self.events = Vec::new();
        self.clear_hits();
    }

    pub open spec fn spec_ranges(ranges: Seq<(u32, u32)>) -> Seq<BusTraceWatchRange>
        decreases ranges.len(),
    {
        if ranges.len() == 0 {
            Seq::empty()
        } else {
            let rest = Self::spec_ranges(ranges.drop_last());
            match BusTraceWatchRange::spec_new(ranges.last().0, ranges.last().1) {
                Some(r) => rest.push(r),
                None => rest,
            }
        }
    }

    /// Watches the given `(address, length)` ranges, dropping empty ones;
    /// clears the log and the hit flags.
    pub fn set_watch_ranges(&mut self, ranges: Vec<(u32, u32)>)
        ensures
            final(self).watch_ranges@ == Self::spec_ranges(ranges@),
            final(self).events@.len() == 0,
            *final(self) == (AccessTrace {
                watch_ranges: final(self).watch_ranges,
                events: final(self).events,
                watch_access_hit: false,
                watch_data_hit: false,
                watch_write_hit: false,
                ..*old(self)
            }),
    {
        let mut kept: Vec<BusTraceWatchRange> = Vec::new();
        let mut i: usize = 0;
        while i < ranges.len()
            invariant
                i <= ranges@.len(),
                kept@ == Self::spec_ranges(ranges@.take(i as int)),
            decreases ranges@.len() - i,
        {
            let (address, len) = ranges[i];
            proof {
                assert(ranges@.take(i + 1).drop_last() =~= ranges@.take(i as int));
            }
            match BusTraceWatchRange::new(address, len) {
                Some(range) => kept.push(range),
                None => {},
            }
            i = i + 1;
        }
        proof {
            assert(ranges@.take(ranges@.len() as int) =~= ranges@);
        }
        self.watch_ranges = kept;
        self.events = Vec::new();
        self.clear_hits();
    }

    /// Logs only watched accesses, or all; clears the log and the hit flags.
    pub fn set_watch_only(&mut self, watch_only: bool)
        ensures
            final(self).events@.len() == 0,
            *final(self) == (AccessTrace {
                watch_only,
                events: final(self).events,
                watch_access_hit: false,
                watch_data_hit: false,
                watch_write_hit: false,
                ..*old(self)
            }),
    {
        self.watch_only = watch_only;
        self.events = Vec::new();
        self.clear_hits();
    }

    pub fn clear_hits(&mut self)
        ensures
            *final(self) == (AccessTrace {
                watch_access_hit: false,
                watch_data_hit: false,
                watch_write_hit: false,
                ..*old(self)
            }),
    {
        self.watch_access_hit = false;
        self.watch_data_hit = false;
        self.watch_write_hit = false;
    }

    pub open spec fn spec_json(self) -> Seq<char> {
        join_commas(self.events@.map_values(|e: BusAccessTraceEvent| e.spec_json()))
    }

    /// The logged events as comma-separated JSON objects, oldest first.
    pub fn json(&self) -> (r: String)
        ensures
            r@ == self.spec_json(),
    {
        let events = &self.events;
        let mut out = String::new();
        let mut i: usize = 0;
        while i < events.len()
            invariant
                events@ == self.events@,
                i <= events@.len(),
                out@ == join_commas(
                    events@.take(i as int).map_values(|e: BusAccessTraceEvent| e.spec_json()),
                ),
            decreases events@.len() - i,
        {
            let part = events[i].json();
            proof {
                let done = events@.take(i as int).map_values(
                    |e: BusAccessTraceEvent| e.spec_json(),
                );
                lemma_join_commas_push(done, part@);
                assert(events@.take(i + 1).map_values(|e: BusAccessTraceEvent| e.spec_json())
                    =~= done.push(part@));
            }
            push_joined(&mut out, i, part.as_str());
            i = i + 1;
        }
        proof {
            assert(events@.take(events@.len() as int) =~= events@);
        }
        out
    }
}

/// An access of at least one byte touches a watched range whenever the
/// physical address of its first byte lies in that range, from any segment;
/// an empty access never matches.
pub proof fn law_watch_catches_accesses(t: AccessTrace, address: u32, len: usize, j: int)
    requires
        0 <= j < t.watch_ranges@.len(),
    ensures
        len > 0 && len <= u32::MAX && t.watch_ranges@[j].start <= spec_physical(address)
            < t.watch_ranges@[j].end ==> t.spec_watch_matches(address, len),
        len == 0 ==> !t.spec_watch_matches(address, len),
{
    if len > 0 && len <= u32::MAX && t.watch_ranges@[j].start <= spec_physical(address)
        < t.watch_ranges@[j].end {
        let start = spec_physical(address);
        let end = sat_add_u32(start, #[verifier::truncate] (len as u32));
        assert((len as u32) as int == len as int);
        assert(spec_ranges_overlap(
            start,
            end,
            t.watch_ranges@[j].start,
            t.watch_ranges@[j].end,
        ));
    }
}

} // verus!
