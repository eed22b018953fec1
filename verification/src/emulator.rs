//! The emulator's face towards its users: the bus with its step counter,
//! the board asset override read at start-up, and the state queries the
//! front ends ask for. The CPU core, the GPU and the ROM-set loader are not
//! part of this library; what is here works on the bus alone.
use vstd::prelude::*;
use crate::activity::NativeInputActivity;
use crate::board::NativeBoardAssets;
use crate::bus::Bus;
use crate::buttons::ActionButtons;
use crate::config::{native_at28c16_mode_is_blank, spec_at28c16_mode_is_blank};
use crate::frame::{FrameView, NativeDisplayFrame};
use crate::json::{dec, hex, join_commas, lemma_join_commas_push, push_dec, push_hex, push_joined};
use crate::window::{
    native_display_frame_or_window_supports_playable_candidate_with_render_context,
    spec_frame_or_window_supports_playable,
};

verus! {

/// Size of the settings EEPROM image that a blank override installs.
pub const AT28C16_IMAGE_LEN: usize = 2048;

/// An EEPROM image of `n` bytes, all erased.
pub open spec fn spec_erased_image(n: nat) -> Seq<u8> {
    Seq::new(n, |i: int| 0xffu8)
}

/// The assets after the start-up EEPROM override `mode`.
pub open spec fn spec_at28c16_override(assets: NativeBoardAssets, mode: Seq<char>) -> (
    Option<Seq<u8>>,
    bool,
    bool,
) {
    if spec_at28c16_mode_is_blank(mode) {
        (Some(spec_erased_image(AT28C16_IMAGE_LEN as nat)), true, false)
    } else {
        (
            match assets.at28c16 {
                Some(v) => Some(v@),
                None => None,
            },
            assets.at28c16_blank_default,
            assets.legacy_zinc_input_compat,
        )
    }
}

/// Applies the EEPROM override named by `mode`: a blank mode installs an
/// erased image, marks it as the blank default and turns the legacy input
/// compatibility off; any other mode leaves the assets as they are.
pub fn apply_at28c16_mode_override(assets: NativeBoardAssets, mode: &str) -> (r: NativeBoardAssets)
    ensures
        r.cat702_1 == assets.cat702_1,
        r.cat702_2 == assets.cat702_2,
        spec_at28c16_override(assets, mode@) == (
            match r.at28c16 {
                Some(v) => Some(v@),
                None => None,
            },
            r.at28c16_blank_default,
            r.legacy_zinc_input_compat,
        ),
{
    let mut assets = assets;
    if native_at28c16_mode_is_blank(mode) {
        let mut image: Vec<u8> = Vec::new();
        while image.len() < AT28C16_IMAGE_LEN
            invariant
                image.len() <= AT28C16_IMAGE_LEN,
                forall|i: int| 0 <= i < image.len() ==> image@[i] == 0xffu8,
            decreases AT28C16_IMAGE_LEN - image.len(),
        {
            image.push(0xff);
        }
        assert(image@ =~= spec_erased_image(AT28C16_IMAGE_LEN as nat));
        assets.at28c16 = Some(image);
        assets.at28c16_blank_default = true;
        assets.legacy_zinc_input_compat = false;
    }
    assets
}

/// The emulator state this library holds: the bus and the number of
/// instructions executed so far.
pub struct NativeEmulator {
    pub bus: Bus,
    pub executed_steps: u64,
}

impl NativeEmulator {
    pub open spec fn wf(self) -> bool {
        self.bus.wf()
    }

    /// An emulator over `bus` that has executed nothing yet.
    pub fn with_bus(bus: Bus) -> (r: Self)
        ensures
            r.bus == bus,
            r.executed_steps == 0,
    {
        NativeEmulator { bus, executed_steps: 0 }
    }

    pub fn vblank_count(&self) -> (r: u64)
        ensures
            r == self.bus.vblank_count,
    {
        self.bus.vblank_count()
    }

    pub fn vblank_presentation_capture_interval(&self) -> (r: Option<u64>)
        ensures
            r == self.bus.vblank_presentation_capture_interval,
    {
        self.bus.vblank_presentation_capture_interval()
    }

    /// Sets the capture interval of the bus; zero turns captures off.
    pub fn set_vblank_presentation_capture_interval(&mut self, interval: Option<u64>)
        ensures
            final(self).executed_steps == old(self).executed_steps,
            final(self).bus == (Bus {
                vblank_presentation_capture_interval: crate::bus::spec_positive(interval),
                ..old(self).bus
            }),
    {
        self.bus.set_vblank_presentation_capture_interval(interval);
    }

    pub fn unlinked_primitive_replay_interval(&self) -> (r: Option<u64>)
        ensures
            r == self.bus.unlinked_primitive_replay_interval,
    {
        self.bus.unlinked_primitive_replay_interval()
    }

    /// Sets the replay interval of the bus; zero turns replays off.
    pub fn set_unlinked_primitive_replay_interval(&mut self, interval: Option<u64>)
        ensures
            final(self).executed_steps == old(self).executed_steps,
            final(self).bus == (Bus {
                unlinked_primitive_replay_interval: crate::bus::spec_positive(interval),
                ..old(self).bus
            }),
    {
        self.bus.set_unlinked_primitive_replay_interval(interval);
    }

    /// Selects a coin wiring by name; false, and nothing changes, for an
    /// unknown name.
    pub fn set_coin_input_mapping_name(&mut self, value: &str) -> (r: bool)
        ensures
            final(self).executed_steps == old(self).executed_steps,
            r == crate::mapping::NativeCoinInputMapping::spec_parse(value@) is Some,
            final(self).bus == (Bus {
                zn_board: match crate::mapping::NativeCoinInputMapping::spec_parse(value@) {
                    Some(m) => crate::board::ZnBoard {
                        coin_input_mapping: m,
                        ..old(self).bus.zn_board
                    },
                    None => old(self).bus.zn_board,
                },
                ..old(self).bus
            }),
    {
        self.bus.set_coin_input_mapping_name(value)
    }

    /// Sets the input bit the credit adapter projects a coin onto; false,
    /// and nothing changes, for zero.
    pub fn set_native_credit_adapter_input_bit(&mut self, value: u32) -> (r: bool)
        ensures
            final(self).executed_steps == old(self).executed_steps,
            r == (value != 0),
            final(self).bus == (Bus {
                zn_board: if value != 0 {
                    crate::board::ZnBoard {
                        native_credit_adapter_input_bit: value,
                        ..old(self).bus.zn_board
                    }
                } else {
                    old(self).bus.zn_board
                },
                ..old(self).bus
            }),
    {
        self.bus.set_native_credit_adapter_input_bit(value)
    }

    /// Replaces the credit projection rules by those `value` names; false,
    /// and nothing changes, when it names none.
    pub fn set_native_credit_projection_name(&mut self, value: &str) -> (r: bool)
        requires
            old(self).wf(),
        ensures
            final(self).wf(),
            final(self).executed_steps == old(self).executed_steps,
            r == crate::projection::spec_parse_projection_rules(value@) is Some,
            match crate::projection::spec_parse_projection_rules(value@) {
                Some(rules) => final(self).bus.zn_board.native_credit_projection_rules@ == rules
                    && final(self).bus.zn_board == (crate::board::ZnBoard {
                    native_credit_projection_rules: final(self).bus.zn_board.native_credit_projection_rules,
                    ..old(self).bus.zn_board
                }),
                None => final(self).bus.zn_board == old(self).bus.zn_board,
            },
            final(self).bus == (Bus { zn_board: final(self).bus.zn_board, ..old(self).bus }),
    {
        self.bus.set_native_credit_projection_name(value)
    }

    /// Hands new buttons to the board; pending coin edges then become
    /// credits.
    pub fn set_input(&mut self, buttons: ActionButtons)
        requires
            old(self).wf(),
        ensures
            final(self).wf(),
            final(self).executed_steps == old(self).executed_steps,
            (Bus {
                zn_board: old(self).bus.zn_board.spec_after_set_input(buttons),
                ..old(self).bus
            }).spec_credit_injected(final(self).bus),
    {
        self.bus.set_input(buttons);
    }

    pub fn executed_steps(&self) -> (r: u64)
        ensures
            r == self.executed_steps,
    {
        self.executed_steps
    }

    /// The board's poll counters as JSON.
    pub fn input_activity_json(&self) -> (r: String)
        ensures
            r@ == self.bus.zn_board.spec_input_activity().spec_json(),
    {
        self.bus.input_activity().json()
    }

    pub fn input_activity(&self) -> (r: NativeInputActivity)
        ensures
            r == self.bus.zn_board.spec_input_activity(),
    {
        self.bus.input_activity()
    }

    pub fn br2_native_credit_hle_accepted_seen(&self) -> (r: bool)
        ensures
            r == (self.bus.br2_native_credit_hle.accepted > 0),
    {
        self.bus.br2_native_credit_hle_accepted_seen()
    }

    pub fn br2_native_credit_hle_json(&self) -> (r: String)
        ensures
            r@ == self.bus.br2_native_credit_hle.spec_json(),
    {
        self.bus.br2_native_credit_hle_json()
    }

    pub fn ram_snapshot(&self) -> (r: Vec<u8>)
        ensures
            r@ == self.bus.ram@,
    {
        self.bus.ram_snapshot()
    }

    pub fn scratchpad_snapshot(&self) -> (r: Vec<u8>)
        ensures
            r@ == self.bus.scratchpad@,
    {
        self.bus.scratchpad_snapshot()
    }

    /// Reads a word as the CPU would, with the side effects such a read
    /// has on the bus.
    pub fn debug_read_u32(&mut self, address: u32) -> (r: u32)
        requires
            old(self).wf(),
        ensures
            final(self).wf(),
            final(self).executed_steps == old(self).executed_steps,
            r == old(self).bus.spec_read_value(address, 4),
            old(self).bus.spec_read_effect(address, 4, final(self).bus),
    {
        self.bus.read_u32(address)
    }

    pub fn has_play_control_activity(&self) -> (r: bool)
        ensures
            r == self.bus.zn_board.spec_input_activity().spec_play_control(),
    {
        self.bus.input_activity().has_play_control_activity()
    }

    pub fn has_full_control_activity(&self) -> (r: bool)
        ensures
            r == self.bus.zn_board.spec_input_activity().spec_full_control(),
    {
        self.bus.input_activity().has_full_control_activity()
    }

    pub fn native_sync_compact_json(&self) -> (r: String)
        requires
            self.wf(),
        ensures
            r@ == self.bus.spec_native_sync_compact_json(),
    {
        self.bus.native_sync_compact_json()
    }
}

// ---------------------------------------------------------------------------
// Playability from the presented frames

/// Periodic ghosting may pass when the GPU reports a playable scene, or a
/// rendered scene while the geometry engine shows 3D gameplay.
pub open spec fn spec_render_context_allows_periodic(
    gpu_playable_candidate: bool,
    gpu_rendered_scene_candidate: bool,
    gte_gameplay_signal: bool,
) -> bool {
    gpu_playable_candidate || (gpu_rendered_scene_candidate && gte_gameplay_signal)
}

/// The stable or the actual display frame, or its window frame, passes
/// the playability heuristics in the given render context.
pub open spec fn spec_display_frame_guard(
    stable: FrameView,
    actual: FrameView,
    gpu_playable_candidate: bool,
    gpu_rendered_scene_candidate: bool,
    gte_gameplay_signal: bool,
) -> bool {
    let allows = spec_render_context_allows_periodic(
        gpu_playable_candidate,
        gpu_rendered_scene_candidate,
        gte_gameplay_signal,
    );
    spec_frame_or_window_supports_playable(stable, allows) || spec_frame_or_window_supports_playable(
        actual,
        allows,
    )
}

/// Whether the stable display frame, or failing that the actual one,
/// supports a playable candidate in the given render context.
pub fn native_display_frames_support_playable_candidate(
    stable: &NativeDisplayFrame,
    actual: &NativeDisplayFrame,
    gpu_playable_candidate: bool,
    gpu_rendered_scene_candidate: bool,
    gte_gameplay_signal: bool,
) -> (r: bool)
    ensures
        r == spec_display_frame_guard(
            stable@,
            actual@,
            gpu_playable_candidate,
            gpu_rendered_scene_candidate,
            gte_gameplay_signal,
        ),
{
    let allows = gpu_playable_candidate || (gpu_rendered_scene_candidate && gte_gameplay_signal);
    if native_display_frame_or_window_supports_playable_candidate_with_render_context(
        stable,
        allows,
    ) {
        return true;
    }
    native_display_frame_or_window_supports_playable_candidate_with_render_context(actual, allows)
}

/// A playable candidate: the display frames pass, and the GPU reports a
/// playable scene or a rendered 3D gameplay scene.
pub fn native_playable_candidate_from_frames(
    stable: &NativeDisplayFrame,
    actual: &NativeDisplayFrame,
    gpu_playable_candidate: bool,
    gpu_rendered_scene_candidate: bool,
    gte_gameplay_signal: bool,
) -> (r: bool)
    ensures
        r == (spec_display_frame_guard(
            stable@,
            actual@,
            gpu_playable_candidate,
            gpu_rendered_scene_candidate,
            gte_gameplay_signal,
        ) && (gpu_playable_candidate || (gpu_rendered_scene_candidate && gte_gameplay_signal))),
{
    let display_frame_guard = native_display_frames_support_playable_candidate(
        stable,
        actual,
        gpu_playable_candidate,
        gpu_rendered_scene_candidate,
        gte_gameplay_signal,
    );
    let native_3d_gameplay_candidate = display_frame_guard && gpu_rendered_scene_candidate
        && gte_gameplay_signal;
    display_frame_guard && (gpu_playable_candidate || native_3d_gameplay_candidate)
}

/// Whether the actual display frame, or its window frame, alone supports a
/// playable candidate in the given render context.
pub fn actual_display_frame_supports_playable_candidate(
    actual: &NativeDisplayFrame,
    gpu_playable_candidate: bool,
    gpu_rendered_scene_candidate: bool,
    gte_gameplay_signal: bool,
) -> (r: bool)
    ensures
        r == spec_frame_or_window_supports_playable(
            actual@,
            spec_render_context_allows_periodic(
                gpu_playable_candidate,
                gpu_rendered_scene_candidate,
                gte_gameplay_signal,
            ),
        ),
{
    let allows = gpu_playable_candidate || (gpu_rendered_scene_candidate && gte_gameplay_signal);
    native_display_frame_or_window_supports_playable_candidate_with_render_context(actual, allows)
}

// ---------------------------------------------------------------------------
// Instruction traces

/// When a traced run stops.
#[derive(Clone, Debug, Default)]
pub struct NativeTraceConfig {
    pub stop_pc: Option<u32>,
    pub stop_below_pc: Option<u32>,
    pub stop_above_pc: Option<u32>,
    pub stop_unmapped_pc: bool,
    pub stop_unaligned_pc: bool,
    pub stop_watch_access: bool,
    pub stop_watch_data: bool,
    pub stop_watch_write: bool,
    pub stop_br2_packed_helper_accept: bool,
    pub stop_pc_skip: u64,
    pub stop_watch_write_skip: u64,
    pub stop_cycles_elapsed: Option<u64>,
    pub stop_excode: Option<u32>,
    pub stop_excodes: Vec<u32>,
    pub watch_ranges: Vec<(u32, u32)>,
    pub watch_only: bool,
    pub watch_after_vblank: Option<u64>,
}

impl NativeTraceConfig {
    /// Whether the stop address is reached with no passes left to skip.
    pub open spec fn spec_stop_pc_reached(self, pc: u32, skip: u64) -> bool {
        self.stop_pc == Some(pc) && skip == 0
    }

    pub open spec fn spec_reached(
        self,
        pc: u32,
        skip: u64,
        pc_mapped_for_execution: bool,
        watch_access_hit: bool,
        watch_data_hit: bool,
        watch_write_hit: bool,
    ) -> bool {
        ||| self.spec_stop_pc_reached(pc, skip)
        ||| (self.stop_below_pc matches Some(limit) && pc < limit)
        ||| (self.stop_above_pc matches Some(limit) && pc > limit)
        ||| self.stop_unmapped_pc && !pc_mapped_for_execution
        ||| self.stop_unaligned_pc && pc & 3 != 0
        ||| self.stop_watch_access && watch_access_hit
        ||| self.stop_watch_data && watch_data_hit
        ||| self.stop_watch_write && watch_write_hit
    }

    /// Whether the run stops at `pc`: at the stop address once the passes
    /// to skip are used up (each pass over it before then uses one), below
    /// or above the bounds, at an unmapped or unaligned address, or on a
    /// watch hit of a kind that is asked to stop.
    pub fn reached_stop_condition(
        &self,
        pc: u32,
        stop_pc_hits_to_skip: &mut u64,
        pc_mapped_for_execution: bool,
        watch_access_hit: bool,
        watch_data_hit: bool,
        watch_write_hit: bool,
    ) -> (r: bool)
        ensures
            r == self.spec_reached(
                pc,
                *old(stop_pc_hits_to_skip),
                pc_mapped_for_execution,
                watch_access_hit,
                watch_data_hit,
                watch_write_hit,
            ),
            *final(stop_pc_hits_to_skip) == if self.stop_pc == Some(pc) && *old(
                stop_pc_hits_to_skip,
            ) > 0 {
                (*old(stop_pc_hits_to_skip) - 1) as u64
            } else {
                *old(stop_pc_hits_to_skip)
            },
    {
        let at_stop_pc = match self.stop_pc {
            Some(stop_pc) => pc == stop_pc,
            None => false,
        };
        let reached_stop_pc = if at_stop_pc {
            if *stop_pc_hits_to_skip > 0 {
                *stop_pc_hits_to_skip = *stop_pc_hits_to_skip - 1;
                false
            } else {
                true
            }
        } else {
            false
        };
        let reached_low_pc = match self.stop_below_pc {
            Some(limit) => pc < limit,
            None => false,
        };
        let reached_high_pc = match self.stop_above_pc {
            Some(limit) => pc > limit,
            None => false,
        };
        let reached_unmapped_pc = self.stop_unmapped_pc && !pc_mapped_for_execution;
        let reached_unaligned_pc = self.stop_unaligned_pc && pc & 0x03 != 0;
        let reached_watch_access = self.stop_watch_access && watch_access_hit;
        let reached_watch_data = self.stop_watch_data && watch_data_hit;
        let reached_watch_write = self.stop_watch_write && watch_write_hit;
        reached_stop_pc || reached_low_pc || reached_high_pc || reached_unmapped_pc
            || reached_unaligned_pc || reached_watch_access || reached_watch_data
            || reached_watch_write
    }
}

/// Each stop condition stops a run on its own: the stop address once no
/// passes are left to skip, an address below the lower bound or above the
/// upper bound, an unaligned address when asked. With only an upper bound
/// set (no stop address, no lower bound, no flag), the run stops exactly at
/// the addresses above it; with only a lower bound, exactly at those below.
pub proof fn law_stop_conditions(
    c: NativeTraceConfig,
    pc: u32,
    skip: u64,
    mapped: bool,
    access_hit: bool,
    data_hit: bool,
    write_hit: bool,
)
    ensures
        c.stop_pc == Some(pc) && skip == 0 ==> c.spec_reached(
            pc,
            skip,
            mapped,
            access_hit,
            data_hit,
            write_hit,
        ),
        c.stop_below_pc is Some && pc < c.stop_below_pc->0 ==> c.spec_reached(
            pc,
            skip,
            mapped,
            access_hit,
            data_hit,
            write_hit,
        ),
        c.stop_above_pc is Some && pc > c.stop_above_pc->0 ==> c.spec_reached(
            pc,
            skip,
            mapped,
            access_hit,
            data_hit,
            write_hit,
        ),
        c.stop_unaligned_pc && pc % 4 != 0 ==> c.spec_reached(
            pc,
            skip,
            mapped,
            access_hit,
            data_hit,
            write_hit,
        ),
        c.stop_pc is None && !c.stop_unmapped_pc && !c.stop_unaligned_pc && !c.stop_watch_access
            && !c.stop_watch_data && !c.stop_watch_write ==> {
            &&& c.stop_below_pc is None && c.stop_above_pc is Some ==> (c.spec_reached(
                pc,
                skip,
                mapped,
                access_hit,
                data_hit,
                write_hit,
            ) <==> pc > c.stop_above_pc->0)
            &&& c.stop_above_pc is None && c.stop_below_pc is Some ==> (c.spec_reached(
                pc,
                skip,
                mapped,
                access_hit,
                data_hit,
                write_hit,
            ) <==> pc < c.stop_below_pc->0)
        },
{
    assert(pc % 4 != 0 ==> pc & 3 != 0) by (bit_vector);
}

/// `a` comes before `b`: seen more often, or as often with a key no larger.
pub open spec fn ranks_before(a: (u32, u64), b: (u32, u64)) -> bool {
    a.1 > b.1 || (a.1 == b.1 && a.0 <= b.0)
}

pub open spec fn ranked(s: Seq<(u32, u64)>) -> bool {
    forall|i: int, j: int| 0 <= i < j < s.len() ==> ranks_before(#[trigger] s[i], #[trigger] s[j])
}

/// The counts, most frequent first and ties by key.
pub fn rank_by_count(items: &Vec<(u32, u64)>) -> (r: Vec<(u32, u64)>)
    ensures
        ranked(r@),
        r@.to_multiset() == items@.to_multiset(),
{
    broadcast use vstd::seq_lib::to_multiset_insert, vstd::seq_lib::to_multiset_build;

    let mut out: Vec<(u32, u64)> = Vec::new();
    let mut k: usize = 0;
    proof {
        assert(out@ =~= items@.take(0));
    }
    while k < items.len()
        invariant
            k <= items.len(),
            ranked(out@),
            out@.to_multiset() == items@.take(k as int).to_multiset(),
        decreases items.len() - k,
    {
        let item = items[k];
        let mut p: usize = 0;
        while p < out.len()
            invariant
                p <= out.len(),
                forall|i: int| 0 <= i < p ==> ranks_before(#[trigger] out@[i], item),
            ensures
                p <= out.len(),
                forall|i: int| 0 <= i < p ==> ranks_before(#[trigger] out@[i], item),
                p < out.len() ==> !ranks_before(out@[p as int], item),
            decreases out.len() - p,
        {
            let o = out[p];
            if !(o.1 > item.1 || (o.1 == item.1 && o.0 <= item.0)) {
                break;
            }
            p = p + 1;
        }
        let ghost before = out@;
        out.insert(p, item);
        proof {
            assert forall|i: int, j: int| 0 <= i < j < out@.len() implies ranks_before(
                #[trigger] out@[i],
                #[trigger] out@[j],
            ) by {
                if j < p {
                    assert(out@[i] == before[i] && out@[j] == before[j]);
                } else if j == p {
                    assert(out@[i] == before[i] && out@[j] == item);
                } else if i < p {
                    assert(out@[i] == before[i] && out@[j] == before[j - 1]);
                } else if i == p {
                    assert(out@[i] == item && out@[j] == before[j - 1]);
                    assert(!ranks_before(before[p as int], item));
                    if j - 1 > p {
                        assert(ranks_before(before[p as int], before[j - 1]));
                    }
                } else {
                    assert(out@[i] == before[i - 1] && out@[j] == before[j - 1]);
                }
            }
            assert(items@.take(k + 1) =~= items@.take(k as int).push(item));
            vstd::seq_lib::to_multiset_insert(before, p as int, item);
            vstd::seq_lib::to_multiset_build(items@.take(k as int), item);
        }
        k = k + 1;
    }
    proof {
        assert(items@.take(items.len() as int) =~= items@);
    }
    out
}

/// The JSON object of a count: under `pc` for addresses, under
/// `instruction` for instruction words.
pub open spec fn count_json(entry: (u32, u64), is_pc: bool) -> Seq<char> {
    let label = if is_pc {
        "pc"@
    } else {
        "instruction"@
    };
    "{\""@ + label + "\":"@ + dec(entry.0 as nat) + ",\""@ + label + "_hex\":\"0x"@ + hex(
        entry.0 as nat,
        8,
    ) + "\",\"count\":"@ + dec(entry.1 as nat) + "}"@
}

pub open spec fn counts_json(items: Seq<(u32, u64)>, is_pc: bool) -> Seq<char> {
    join_commas(items.map_values(|e: (u32, u64)| count_json(e, is_pc)))
}

pub open spec fn strings_json(items: Seq<String>) -> Seq<char> {
    join_commas(items.map_values(|s: String| s@))
}

fn count_entry_json(entry: (u32, u64), is_pc: bool) -> (r: String)
    ensures
        r@ == count_json(entry, is_pc),
{
    let mut out = String::from_str("{\"");
    let label = if is_pc {
        "pc"
    } else {
        "instruction"
    };
    out.append(label);
    out.append("\":");
    push_dec(&mut out, entry.0 as u64);
    out.append(",\"");
    out.append(label);
    out.append("_hex\":\"0x");
    push_hex(&mut out, entry.0 as u64, 8);
    out.append("\",\"count\":");
    push_dec(&mut out, entry.1);
    out.append("}");
    out
}

fn push_counts_json(out: &mut String, items: &Vec<(u32, u64)>, is_pc: bool)
    ensures
        final(out)@ == old(out)@ + counts_json(items@, is_pc),
{
    let ghost start = out@;
    let mut i: usize = 0;
    while i < items.len()
        invariant
            i <= items@.len(),
            out@ == start + counts_json(items@.take(i as int), is_pc),
        decreases items@.len() - i,
    {
        let part = count_entry_json(items[i], is_pc);
        proof {
            let done = items@.take(i as int).map_values(|e: (u32, u64)| count_json(e, is_pc));
            lemma_join_commas_push(done, part@);
            assert(items@.take(i + 1).map_values(|e: (u32, u64)| count_json(e, is_pc))
                =~= done.push(part@));
        }
        push_joined(out, i, part.as_str());
        proof {
            assert(out@ =~= start + counts_json(items@.take(i + 1), is_pc));
        }
        i = i + 1;
    }
    proof {
        assert(items@.take(items@.len() as int) =~= items@);
    }
}

fn push_strings_json(out: &mut String, items: &Vec<String>)
    ensures
        final(out)@ == old(out)@ + strings_json(items@),
{
    let ghost start = out@;
    let mut i: usize = 0;
    while i < items.len()
        invariant
            i <= items@.len(),
            out@ == start + strings_json(items@.take(i as int)),
        decreases items@.len() - i,
    {
        proof {
            let done = items@.take(i as int).map_values(|s: String| s@);
            lemma_join_commas_push(done, items@[i as int]@);
            assert(items@.take(i + 1).map_values(|s: String| s@) =~= done.push(items@[i as int]@));
        }
        push_joined(out, i, items[i].as_str());
        proof {
            assert(out@ =~= start + strings_json(items@.take(i + 1)));
        }
        i = i + 1;
    }
    proof {
        assert(items@.take(items@.len() as int) =~= items@);
    }
}

/// What a traced run gathered, before ranking.
pub struct NativeTraceParts {
    pub requested_steps: u64,
    pub executed_steps: u64,
    /// Each executed address with its count, one entry per address.
    pub pc_counts: Vec<(u32, u64)>,
    /// Each unsupported instruction word with its count.
    pub unsupported: Vec<(u32, u64)>,
    /// The last steps, each already as JSON.
    pub recent_steps: Vec<String>,
    pub hot_limit: usize,
    pub watch_write_count: u64,
    pub bus_access_trace_json: String,
    pub state_json: String,
}

/// The result of a traced run.
pub struct NativeTrace {
    pub requested_steps: u64,
    pub executed_steps: u64,
    pub unique_pcs: usize,
    pub hot_pcs: Vec<(u32, u64)>,
    pub unsupported_instructions: Vec<(u32, u64)>,
    pub recent_steps: Vec<String>,
    pub watch_write_count: u64,
    pub bus_access_trace_json: String,
    pub state_json: String,
}

impl NativeTrace {
    /// The trace of a run: its hottest `hot_limit` addresses, most executed
    /// first, and all unsupported instructions, most frequent first.
    pub fn new(parts: NativeTraceParts) -> (r: Self)
        ensures
            r.requested_steps == parts.requested_steps,
            r.executed_steps == parts.executed_steps,
            r.unique_pcs == parts.pc_counts.len(),
            exists|s: Seq<(u32, u64)>|
                ranked(s) && s.to_multiset() == parts.pc_counts@.to_multiset() && r.hot_pcs@
                    == s.take(
                    if parts.hot_limit < s.len() {
                        parts.hot_limit as int
                    } else {
                        s.len() as int
                    },
                ),
            ranked(r.unsupported_instructions@),
            r.unsupported_instructions@.to_multiset() == parts.unsupported@.to_multiset(),
            r.recent_steps@ == parts.recent_steps@,
            r.watch_write_count == parts.watch_write_count,
            r.bus_access_trace_json@ == parts.bus_access_trace_json@,
            r.state_json@ == parts.state_json@,
    {
        broadcast use vstd::seq_lib::to_multiset_len;

        let unique_pcs = parts.pc_counts.len();
        let mut hot_pcs = rank_by_count(&parts.pc_counts);
        let ghost ranking = hot_pcs@;
        proof {
            assert(ranking.len() == parts.pc_counts@.len()) by {
                assert(ranking.to_multiset().len() == parts.pc_counts@.to_multiset().len());
            }
        }
        hot_pcs.truncate(parts.hot_limit);
        let unsupported_instructions = rank_by_count(&parts.unsupported);
        NativeTrace {
            requested_steps: parts.requested_steps,
            executed_steps: parts.executed_steps,
            unique_pcs,
            hot_pcs,
            unsupported_instructions,
            recent_steps: parts.recent_steps,
            watch_write_count: parts.watch_write_count,
            bus_access_trace_json: parts.bus_access_trace_json,
            state_json: parts.state_json,
        }
    }

    pub open spec fn spec_compact_json(self) -> Seq<char> {
        "{\"requested_steps\":"@ + dec(self.requested_steps as nat) + ",\"executed_steps\":"@ + dec(
            self.executed_steps as nat,
        ) + ",\"unique_pcs\":"@ + dec(self.unique_pcs as nat) + ",\"hot_pcs\":["@ + counts_json(
            self.hot_pcs@,
            true,
        ) + "],\"unsupported_instructions\":["@ + counts_json(self.unsupported_instructions@, false)
            + "],\"recent_steps\":["@ + strings_json(self.recent_steps@) + "]"@
    }

    pub open spec fn spec_json(self) -> Seq<char> {
        self.spec_compact_json() + ",\"watch_write_count\":"@ + dec(self.watch_write_count as nat)
            + ",\"bus_access_trace\":["@ + self.bus_access_trace_json@ + "],\"state\":"@
            + self.state_json@ + "}"@
    }

    fn push_compact_fields(&self, out: &mut String)
        ensures
            final(out)@ == old(out)@ + self.spec_compact_json(),
    {
        out.append("{\"requested_steps\":");
        push_dec(out, self.requested_steps);
        out.append(",\"executed_steps\":");
        push_dec(out, self.executed_steps);
        out.append(",\"unique_pcs\":");
        push_dec(out, self.unique_pcs as u64);
        out.append(",\"hot_pcs\":[");
        push_counts_json(out, &self.hot_pcs, true);
        out.append("],\"unsupported_instructions\":[");
        push_counts_json(out, &self.unsupported_instructions, false);
        out.append("],\"recent_steps\":[");
        push_strings_json(out, &self.recent_steps);
        out.append("]");
    }

    /// The whole trace as JSON, bus access trace and machine state included.
    pub fn json(&self) -> (r: String)
        ensures
            r@ == self.spec_json(),
    {
        let mut out = String::new();
        self.push_compact_fields(&mut out);
        out.append(",\"watch_write_count\":");
        push_dec(&mut out, self.watch_write_count);
        out.append(",\"bus_access_trace\":[");
        out.append(self.bus_access_trace_json.as_str());
        out.append("],\"state\":");
        out.append(self.state_json.as_str());
        out.append("}");
        out
    }

    /// The counts and recent steps only, as JSON.
    pub fn compact_json(&self) -> (r: String)
        ensures
            r@ == self.spec_compact_json() + "}"@,
    {
        let mut out = String::new();
        self.push_compact_fields(&mut out);
        out.append("}");
        out
    }

    pub fn bus_access_trace_json(&self) -> (r: &str)
        ensures
            r@ == self.bus_access_trace_json@,
    {
        self.bus_access_trace_json.as_str()
    }

    pub fn watch_write_count(&self) -> (r: u64)
        ensures
            r == self.watch_write_count,
    {
        self.watch_write_count
    }
}

} // verus!
