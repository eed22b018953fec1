//! The bookkeeping of a traced run, one executed instruction at a time:
//! the counts by address and by unsupported instruction, the ring of recent
//! steps, the passes of watched writes to skip, and when the run stops.
//! The CPU and the bus report each step; this module decides.
use vstd::prelude::*;
use crate::buttons::ActionButtons;
use crate::emulator::NativeTraceConfig;

verus! {

/// `a + b`, saturating.
pub open spec fn sat_add(a: u64, b: u64) -> u64 {
    if a + b > u64::MAX {
        u64::MAX
    } else {
        (a + b) as u64
    }
}

/// `a * b`, saturating.
pub open spec fn sat_mul(a: u64, b: u64) -> u64 {
    if a * b > u64::MAX {
        u64::MAX
    } else {
        (a * b) as u64
    }
}

/// The steps a script asks for: each segment's frames times the
/// instructions per frame (at least one), summed, all saturating.
pub open spec fn spec_requested_steps(segments: Seq<(ActionButtons, u64)>, per_frame: u64, n: int) -> u64
    decreases n,
{
    if n <= 0 {
        0
    } else {
        sat_add(
            spec_requested_steps(segments, per_frame, n - 1),
            sat_mul(segments[n - 1].1, if per_frame >= 1 { per_frame } else { 1 }),
        )
    }
}

pub fn scripted_requested_steps(segments: &Vec<(ActionButtons, u64)>, instructions_per_frame: u64) -> (r:
    u64)
    ensures
        r == spec_requested_steps(segments@, instructions_per_frame, segments@.len() as int),
{
    let per_frame = if instructions_per_frame >= 1 {
        instructions_per_frame
    } else {
        1
    };
    let mut total: u64 = 0;
    let mut i: usize = 0;
    while i < segments.len()
        invariant
            i <= segments@.len(),
            per_frame == if instructions_per_frame >= 1 {
                instructions_per_frame
            } else {
                1
            },
            total == spec_requested_steps(segments@, instructions_per_frame, i as int),
        decreases segments@.len() - i,
    {
        let frames = segments[i].1;
        let product = match frames.checked_mul(per_frame) {
            Some(p) => p,
            None => u64::MAX,
        };
        total = total.saturating_add(product);
        i = i + 1;
    }
    total
}

/// Watch ranges are armed once the watch's starting vertical blank, if
/// any, is reached.
pub open spec fn spec_watch_armed(watch_after_vblank: Option<u64>, vblank: u64) -> bool {
    match watch_after_vblank {
        None => true,
        Some(threshold) => vblank >= threshold,
    }
}

pub fn trace_watch_armed(watch_after_vblank: Option<u64>, vblank: u64) -> (r: bool)
    ensures
        r == spec_watch_armed(watch_after_vblank, vblank),
{
    match watch_after_vblank {
        None => true,
        Some(threshold) => vblank >= threshold,
    }
}

/// `counts` with one more occurrence of `key`: its entry counts up
/// (saturating), or a new entry of one is appended.
pub open spec fn spec_count_key(counts: Seq<(u32, u64)>, key: u32) -> Seq<(u32, u64)> {
    if exists|i: int| 0 <= i < counts.len() && (#[trigger] counts[i]).0 == key {
        let i = choose|i: int| 0 <= i < counts.len() && (#[trigger] counts[i]).0 == key;
        counts.update(i, (key, sat_add(counts[i].1, 1)))
    } else {
        counts.push((key, 1))
    }
}

/// No key occurs twice.
pub open spec fn keys_distinct(counts: Seq<(u32, u64)>) -> bool {
    forall|i: int, j: int| 0 <= i < j < counts.len() ==> (#[trigger] counts[i]).0 != (#[trigger] counts[j]).0
}

fn count_key(counts: &mut Vec<(u32, u64)>, key: u32)
    requires
        keys_distinct(old(counts)@),
    ensures
        final(counts)@ == spec_count_key(old(counts)@, key),
        keys_distinct(final(counts)@),
{
    let ghost c0 = counts@;
    let mut i: usize = 0;
    let mut found: Option<usize> = None;
    while i < counts.len()
        invariant_except_break
            found is None,
            forall|j: int| 0 <= j < i ==> (#[trigger] counts@[j]).0 != key,
        invariant
            i <= counts@.len(),
            counts@ == c0,
        ensures
            match found {
                Some(k) => k < c0.len() && c0[k as int].0 == key,
                None => forall|j: int| 0 <= j < c0.len() ==> (#[trigger] c0[j]).0 != key,
            },
        decreases counts@.len() - i,
    {
        if counts[i].0 == key {
            found = Some(i);
            break;
        }
        i = i + 1;
    }
    match found {
        Some(i) => {
            let c = counts[i].1.saturating_add(1);
            proof {
                assert(c0[i as int].0 == key);
                assert(exists|m: int| 0 <= m < c0.len() && (#[trigger] c0[m]).0 == key);
                let w = choose|m: int| 0 <= m < c0.len() && (#[trigger] c0[m]).0 == key;
                if w != i {
                    if w < i {
                        assert(c0[w].0 != key);
                    } else {
                        assert(c0[i as int].0 != c0[w].0);
                    }
                }
            }
            counts.set(i, (key, c));
            proof {
                assert forall|a: int, b: int| 0 <= a < b < counts@.len() implies (
                #[trigger] counts@[a]).0 != (#[trigger] counts@[b]).0 by {
                    assert(c0[a].0 != c0[b].0);
                }
            }
        },
        None => {
            counts.push((key, 1));
            proof {
                assert forall|a: int, b: int| 0 <= a < b < counts@.len() implies (
                #[trigger] counts@[a]).0 != (#[trigger] counts@[b]).0 by {
                    if b == c0.len() {
                        assert(c0[a].0 != key);
                    } else {
                        assert(c0[a].0 != c0[b].0);
                    }
                }
            }
        },
    }
}

/// `steps` with `step` appended, the oldest dropped beyond `limit`; kept
/// empty when the limit is 0.
pub open spec fn spec_recent_steps(steps: Seq<Seq<char>>, step: Seq<char>, limit: usize) -> Seq<Seq<char>> {
    if limit == 0 {
        steps
    } else if steps.len() + 1 > limit {
        steps.push(step).drop_first()
    } else {
        steps.push(step)
    }
}

pub open spec fn strings_view(v: Seq<String>) -> Seq<Seq<char>> {
    v.map_values(|s: String| s@)
}

/// The running state of a traced run.
pub struct NativeTraceState {
    /// Each executed address with its count, one entry per address.
    pub pc_counts: Vec<(u32, u64)>,
    /// Each unsupported instruction word with its count.
    pub unsupported: Vec<(u32, u64)>,
    /// The last steps, each as JSON.
    pub recent_steps: Vec<String>,
    pub stop_pc_hits_to_skip: u64,
    pub stop_watch_write_hits_to_skip: u64,
}

/// What the CPU and the bus report of one executed instruction.
#[derive(Clone, Copy, Debug)]
pub struct NativeTraceStep {
    pub start_pc: u32,
    /// The instruction word, when it was not supported.
    pub unsupported: Option<u32>,
    /// The step ended normally.
    pub continued: bool,
    pub pc_mapped_for_execution: bool,
    pub watch_access_hit: bool,
    pub watch_data_hit: bool,
    pub watch_write_hit: bool,
    pub cycles_elapsed: u64,
    pub cause_excode: u32,
    /// The packed vertex helper's acceptances before and after the step.
    pub helper_accepted_before: u64,
    pub helper_accepted_after: u64,
}

/// What the run does after a step.
#[derive(Clone, Copy, Debug, PartialEq, Eq, Structural)]
pub struct NativeTraceStepResult {
    /// Clear the bus's watch hits: a watched write was skipped.
    pub clear_watch_hits: bool,
    /// Stop the run.
    pub stop: bool,
}

impl NativeTraceState {
    pub open spec fn wf(&self) -> bool {
        keys_distinct(self.pc_counts@) && keys_distinct(self.unsupported@)
    }

    /// The state at the start of a run.
    pub fn new(config: &NativeTraceConfig) -> (r: Self)
        ensures
            r.wf(),
            r.pc_counts@.len() == 0,
            r.unsupported@.len() == 0,
            r.recent_steps@.len() == 0,
            r.stop_pc_hits_to_skip == config.stop_pc_skip,
            r.stop_watch_write_hits_to_skip == config.stop_watch_write_skip,
    {
        NativeTraceState {
            pc_counts: Vec::new(),
            unsupported: Vec::new(),
            recent_steps: Vec::new(),
            stop_pc_hits_to_skip: config.stop_pc_skip,
            stop_watch_write_hits_to_skip: config.stop_watch_write_skip,
        }
    }
}

/// Whether a watched write is skipped: stops on watched writes are asked
/// for, one happened and passes remain to skip.
pub open spec fn spec_skips_watch_write(config: NativeTraceConfig, skip: u64, hit: bool) -> bool {
    config.stop_watch_write && hit && skip > 0
}

/// Whether the run stops after a step.
pub open spec fn spec_step_stops(
    config: NativeTraceConfig,
    pc_skip: u64,
    write_skip: u64,
    s: NativeTraceStep,
) -> bool {
    let write_hit = s.watch_write_hit && !spec_skips_watch_write(config, write_skip, s.watch_write_hit);
    ||| !s.continued
    ||| config.spec_reached(
        s.start_pc,
        pc_skip,
        s.pc_mapped_for_execution,
        s.watch_access_hit,
        s.watch_data_hit,
        write_hit,
    )
    ||| (config.stop_cycles_elapsed matches Some(limit) && s.cycles_elapsed >= limit)
    ||| (config.stop_excode == Some(s.cause_excode) || config.stop_excodes@.contains(s.cause_excode))
    ||| (config.stop_br2_packed_helper_accept && s.helper_accepted_after > s.helper_accepted_before)
}

fn contains_u32(v: &Vec<u32>, x: u32) -> (r: bool)
    ensures
        r == v@.contains(x),
{
    let mut i: usize = 0;
    while i < v.len()
        invariant
            i <= v@.len(),
            forall|j: int| 0 <= j < i ==> v@[j] != x,
        decreases v@.len() - i,
    {
        if v[i] == x {
            return true;
        }
        i = i + 1;
    }
    false
}

/// Records one executed instruction and decides whether the run stops.
pub fn trace_step(
    state: &mut NativeTraceState,
    config: &NativeTraceConfig,
    recent_limit: usize,
    step: &NativeTraceStep,
    step_json: String,
) -> (r: NativeTraceStepResult)
    requires
        old(state).wf(),
    ensures
        final(state).wf(),
        final(state).pc_counts@ == spec_count_key(old(state).pc_counts@, step.start_pc),
        final(state).unsupported@ == match step.unsupported {
            Some(word) => spec_count_key(old(state).unsupported@, word),
            None => old(state).unsupported@,
        },
        strings_view(final(state).recent_steps@) == spec_recent_steps(
            strings_view(old(state).recent_steps@),
            step_json@,
            recent_limit,
        ),
        r.clear_watch_hits == spec_skips_watch_write(
            *config,
            old(state).stop_watch_write_hits_to_skip,
            step.watch_write_hit,
        ),
        final(state).stop_watch_write_hits_to_skip == if r.clear_watch_hits {
            (old(state).stop_watch_write_hits_to_skip - 1) as u64
        } else {
            old(state).stop_watch_write_hits_to_skip
        },
        final(state).stop_pc_hits_to_skip == if config.stop_pc == Some(step.start_pc)
            && old(state).stop_pc_hits_to_skip > 0 {
            (old(state).stop_pc_hits_to_skip - 1) as u64
        } else {
            old(state).stop_pc_hits_to_skip
        },
        r.stop == spec_step_stops(
            *config,
            old(state).stop_pc_hits_to_skip,
            old(state).stop_watch_write_hits_to_skip,
            *step,
        ),
{
    count_key(&mut state.pc_counts, step.start_pc);
    match step.unsupported {
        Some(word) => count_key(&mut state.unsupported, word),
        None => {},
    }
    let mut watch_write_hit = step.watch_write_hit;
    let clear_watch_hits = config.stop_watch_write && watch_write_hit
        && state.stop_watch_write_hits_to_skip > 0;
    if clear_watch_hits {
        state.stop_watch_write_hits_to_skip = state.stop_watch_write_hits_to_skip - 1;
        watch_write_hit = false;
    }
    let reached_stop = config.reached_stop_condition(
        step.start_pc,
        &mut state.stop_pc_hits_to_skip,
        step.pc_mapped_for_execution,
        step.watch_access_hit,
        step.watch_data_hit,
        watch_write_hit,
    );
    let reached_slow_step = match config.stop_cycles_elapsed {
        Some(limit) => step.cycles_elapsed >= limit,
        None => false,
    };
    let reached_stop_excode = config.stop_excode == Some(step.cause_excode) || contains_u32(
        &config.stop_excodes,
        step.cause_excode,
    );
    let reached_helper = config.stop_br2_packed_helper_accept && step.helper_accepted_after
        > step.helper_accepted_before;
    if recent_limit > 0 {
        let ghost before = strings_view(state.recent_steps@);
        state.recent_steps.push(step_json);
        if state.recent_steps.len() > recent_limit {
            state.recent_steps.remove(0);
        }
        proof {
            let pushed = before.push(step_json@);
            assert(strings_view(state.recent_steps@) =~= if before.len() + 1 > recent_limit {
                pushed.drop_first()
            } else {
                pushed
            });
        }
    }
    NativeTraceStepResult {
        clear_watch_hits,
        stop: !step.continued || reached_stop || reached_slow_step || reached_stop_excode
            || reached_helper,
    }
}

} // verus!
