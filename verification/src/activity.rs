use vstd::prelude::*;
use crate::json::{bool_text, dec, hex, push_bool, push_dec, push_hex};

verus! {

broadcast use vstd::string::group_string_axioms;

/// Counters of how often the game polled each input while it was held.
#[derive(Clone, Copy, Debug, Default, PartialEq, Eq, Structural)]
pub struct NativeInputActivity {
    pub p1_input_reads: u64,
    pub p1_up_active_reads: u64,
    pub p1_down_active_reads: u64,
    pub p1_left_active_reads: u64,
    pub p1_right_active_reads: u64,
    pub p1_start_active_reads: u64,
    pub p1_punch_active_reads: u64,
    pub p1_kick_active_reads: u64,
    pub p1_beast_active_reads: u64,
    pub p3_input_reads: u64,
    pub p3_guard_active_reads: u64,
    pub system_input_reads: u64,
    pub system_coin_active_reads: u64,
    pub system_service_active_reads: u64,
    pub system_start_active_reads: u64,
    pub coin_register_reads: u64,
    pub coin_register_active_reads: u64,
    pub coin_register_writes: u64,
    pub coin_insert_edges: u64,
    pub coin_counter_0_edges: u64,
    pub coin_counter_1_edges: u64,
    pub legacy_system_coin_latch_edges: u64,
    pub legacy_system_start_latch_edges: u64,
    pub native_credit_adapter_writes: u64,
    pub native_credit_adapter_edges: u64,
    pub last_system_input: u32,
    pub last_coin_register: u32,
}

/// `a + b`, clamped to `u64::MAX`.
pub open spec fn sat_add(a: u64, b: u64) -> u64 {
    if a + b > u64::MAX { u64::MAX } else { (a + b) as u64 }
}

/// `a - b`, clamped to zero.
pub open spec fn sat_sub(a: u64, b: u64) -> u64 {
    if a < b { 0 } else { (a - b) as u64 }
}

impl NativeInputActivity {
    pub open spec fn all_zero(self) -> bool {
        &&& self.p1_input_reads == 0
        &&& self.p1_up_active_reads == 0
        &&& self.p1_down_active_reads == 0
        &&& self.p1_left_active_reads == 0
        &&& self.p1_right_active_reads == 0
        &&& self.p1_start_active_reads == 0
        &&& self.p1_punch_active_reads == 0
        &&& self.p1_kick_active_reads == 0
        &&& self.p1_beast_active_reads == 0
        &&& self.p3_input_reads == 0
        &&& self.p3_guard_active_reads == 0
        &&& self.system_input_reads == 0
        &&& self.system_coin_active_reads == 0
        &&& self.system_service_active_reads == 0
        &&& self.system_start_active_reads == 0
        &&& self.coin_register_reads == 0
        &&& self.coin_register_active_reads == 0
        &&& self.coin_register_writes == 0
        &&& self.coin_insert_edges == 0
        &&& self.coin_counter_0_edges == 0
        &&& self.coin_counter_1_edges == 0
        &&& self.legacy_system_coin_latch_edges == 0
        &&& self.legacy_system_start_latch_edges == 0
        &&& self.native_credit_adapter_writes == 0
        &&& self.native_credit_adapter_edges == 0
        &&& self.last_system_input == 0
        &&& self.last_coin_register == 0
    }

    pub open spec fn spec_play_control(self) -> bool {
        &&& self.p1_punch_active_reads > 0
        &&& self.p1_kick_active_reads > 0
        &&& self.p1_beast_active_reads > 0
        &&& self.p3_guard_active_reads > 0
        &&& self.system_coin_active_reads > 0
        &&& self.system_start_active_reads > 0
    }

    pub open spec fn spec_direction(self) -> bool {
        &&& self.p1_up_active_reads > 0
        &&& self.p1_down_active_reads > 0
        &&& self.p1_left_active_reads > 0
        &&& self.p1_right_active_reads > 0
    }

    pub open spec fn spec_any_direction(self) -> bool {
        ||| self.p1_up_active_reads > 0
        ||| self.p1_down_active_reads > 0
        ||| self.p1_left_active_reads > 0
        ||| self.p1_right_active_reads > 0
    }

    pub open spec fn spec_any_attack(self) -> bool {
        ||| self.p1_punch_active_reads > 0
        ||| self.p1_kick_active_reads > 0
        ||| self.p1_beast_active_reads > 0
        ||| self.p3_guard_active_reads > 0
    }

    pub open spec fn spec_any_play_control(self) -> bool {
        ||| self.spec_any_attack()
        ||| self.system_coin_active_reads > 0
        ||| self.system_start_active_reads > 0
        ||| self.p1_start_active_reads > 0
    }

    pub open spec fn spec_service(self) -> bool {
        self.system_service_active_reads > 0
    }

    pub open spec fn spec_any_control(self) -> bool {
        self.spec_any_direction() || self.spec_any_play_control() || self.spec_service()
    }

    pub open spec fn spec_full_control(self) -> bool {
        self.spec_direction() && self.spec_play_control()
    }

    pub open spec fn spec_coin_edge(self) -> bool {
        self.coin_insert_edges > 0 || self.legacy_system_coin_latch_edges > 0
    }

    pub open spec fn spec_start_edge(self) -> bool {
        ||| self.legacy_system_start_latch_edges > 0
        ||| self.system_start_active_reads > 0
        ||| self.p1_start_active_reads > 0
    }

    pub open spec fn spec_coin_probe(self) -> bool {
        self.spec_coin_edge() && self.system_coin_active_reads > 0
    }

    pub open spec fn spec_start_probe(self) -> bool {
        self.spec_start_edge() && (self.system_start_active_reads > 0
            || self.p1_start_active_reads > 0)
    }

    pub open spec fn spec_credit_probe(self) -> bool {
        self.spec_coin_probe() && self.spec_start_probe()
    }

    pub open spec fn spec_coin_register_active(self) -> bool {
        self.coin_register_reads > 0 && self.coin_register_active_reads > 0
    }

    pub open spec fn spec_native_credit_adapter(self) -> bool {
        self.native_credit_adapter_writes > 0 || self.native_credit_adapter_edges > 0
    }

    /// Field-wise saturating sum; the `last_*` values come from `other` when it
    /// observed at least one read of that port.
    pub open spec fn spec_added(self, other: Self) -> Self {
        NativeInputActivity {
            p1_input_reads: sat_add(self.p1_input_reads, other.p1_input_reads),
            p1_up_active_reads: sat_add(self.p1_up_active_reads, other.p1_up_active_reads),
            p1_down_active_reads: sat_add(self.p1_down_active_reads, other.p1_down_active_reads),
            p1_left_active_reads: sat_add(self.p1_left_active_reads, other.p1_left_active_reads),
            p1_right_active_reads: sat_add(self.p1_right_active_reads, other.p1_right_active_reads),
            p1_start_active_reads: sat_add(self.p1_start_active_reads, other.p1_start_active_reads),
            p1_punch_active_reads: sat_add(self.p1_punch_active_reads, other.p1_punch_active_reads),
            p1_kick_active_reads: sat_add(self.p1_kick_active_reads, other.p1_kick_active_reads),
            p1_beast_active_reads: sat_add(self.p1_beast_active_reads, other.p1_beast_active_reads),
            p3_input_reads: sat_add(self.p3_input_reads, other.p3_input_reads),
            p3_guard_active_reads: sat_add(self.p3_guard_active_reads, other.p3_guard_active_reads),
            system_input_reads: sat_add(self.system_input_reads, other.system_input_reads),
            system_coin_active_reads: sat_add(
                self.system_coin_active_reads,
                other.system_coin_active_reads,
            ),
            system_service_active_reads: sat_add(
                self.system_service_active_reads,
                other.system_service_active_reads,
            ),
            system_start_active_reads: sat_add(
                self.system_start_active_reads,
                other.system_start_active_reads,
            ),
            coin_register_reads: sat_add(self.coin_register_reads, other.coin_register_reads),
            coin_register_active_reads: sat_add(
                self.coin_register_active_reads,
                other.coin_register_active_reads,
            ),
            coin_register_writes: sat_add(self.coin_register_writes, other.coin_register_writes),
            coin_insert_edges: sat_add(self.coin_insert_edges, other.coin_insert_edges),
            coin_counter_0_edges: sat_add(self.coin_counter_0_edges, other.coin_counter_0_edges),
            coin_counter_1_edges: sat_add(self.coin_counter_1_edges, other.coin_counter_1_edges),
            legacy_system_coin_latch_edges: sat_add(
                self.legacy_system_coin_latch_edges,
                other.legacy_system_coin_latch_edges,
            ),
            legacy_system_start_latch_edges: sat_add(
                self.legacy_system_start_latch_edges,
                other.legacy_system_start_latch_edges,
            ),
            native_credit_adapter_writes: sat_add(
                self.native_credit_adapter_writes,
                other.native_credit_adapter_writes,
            ),
            native_credit_adapter_edges: sat_add(
                self.native_credit_adapter_edges,
                other.native_credit_adapter_edges,
            ),
            last_system_input: if other.system_input_reads > 0 {
                other.last_system_input
            } else {
                self.last_system_input
            },
            last_coin_register: if other.coin_register_reads > 0 {
                other.last_coin_register
            } else {
                self.last_coin_register
            },
        }
    }

    /// Field-wise saturating difference against a baseline; the `last_*`
    /// values are kept from `self`.
    pub open spec fn spec_subtracted(self, baseline: Self) -> Self {
        NativeInputActivity {
            p1_input_reads: sat_sub(self.p1_input_reads, baseline.p1_input_reads),
            p1_up_active_reads: sat_sub(self.p1_up_active_reads, baseline.p1_up_active_reads),
            p1_down_active_reads: sat_sub(self.p1_down_active_reads, baseline.p1_down_active_reads),
            p1_left_active_reads: sat_sub(self.p1_left_active_reads, baseline.p1_left_active_reads),
            p1_right_active_reads: sat_sub(
                self.p1_right_active_reads,
                baseline.p1_right_active_reads,
            ),
            p1_start_active_reads: sat_sub(
                self.p1_start_active_reads,
                baseline.p1_start_active_reads,
            ),
            p1_punch_active_reads: sat_sub(
                self.p1_punch_active_reads,
                baseline.p1_punch_active_reads,
            ),
            p1_kick_active_reads: sat_sub(self.p1_kick_active_reads, baseline.p1_kick_active_reads),
            p1_beast_active_reads: sat_sub(
                self.p1_beast_active_reads,
                baseline.p1_beast_active_reads,
            ),
            p3_input_reads: sat_sub(self.p3_input_reads, baseline.p3_input_reads),
            p3_guard_active_reads: sat_sub(
                self.p3_guard_active_reads,
                baseline.p3_guard_active_reads,
            ),
            system_input_reads: sat_sub(self.system_input_reads, baseline.system_input_reads),
            system_coin_active_reads: sat_sub(
                self.system_coin_active_reads,
                baseline.system_coin_active_reads,
            ),
            system_service_active_reads: sat_sub(
                self.system_service_active_reads,
                baseline.system_service_active_reads,
            ),
            system_start_active_reads: sat_sub(
                self.system_start_active_reads,
                baseline.system_start_active_reads,
            ),
            coin_register_reads: sat_sub(self.coin_register_reads, baseline.coin_register_reads),
            coin_register_active_reads: sat_sub(
                self.coin_register_active_reads,
                baseline.coin_register_active_reads,
            ),
            coin_register_writes: sat_sub(self.coin_register_writes, baseline.coin_register_writes),
            coin_insert_edges: sat_sub(self.coin_insert_edges, baseline.coin_insert_edges),
            coin_counter_0_edges: sat_sub(self.coin_counter_0_edges, baseline.coin_counter_0_edges),
            coin_counter_1_edges: sat_sub(self.coin_counter_1_edges, baseline.coin_counter_1_edges),
            legacy_system_coin_latch_edges: sat_sub(
                self.legacy_system_coin_latch_edges,
                baseline.legacy_system_coin_latch_edges,
            ),
            legacy_system_start_latch_edges: sat_sub(
                self.legacy_system_start_latch_edges,
                baseline.legacy_system_start_latch_edges,
            ),
            native_credit_adapter_writes: sat_sub(
                self.native_credit_adapter_writes,
                baseline.native_credit_adapter_writes,
            ),
            native_credit_adapter_edges: sat_sub(
                self.native_credit_adapter_edges,
                baseline.native_credit_adapter_edges,
            ),
            last_system_input: self.last_system_input,
            last_coin_register: self.last_coin_register,
        }
    }

    pub open spec fn spec_json(self) -> Seq<char> {
        "{\"p1_input_reads\":"@
            + dec((self.p1_input_reads) as nat)
            + ",\"p1_up_active_reads\":"@
            + dec((self.p1_up_active_reads) as nat)
            + ",\"p1_down_active_reads\":"@
            + dec((self.p1_down_active_reads) as nat)
            + ",\"p1_left_active_reads\":"@
            + dec((self.p1_left_active_reads) as nat)
            + ",\"p1_right_active_reads\":"@
            + dec((self.p1_right_active_reads) as nat)
            + ",\"p1_start_active_reads\":"@
            + dec((self.p1_start_active_reads) as nat)
            + ",\"p1_punch_active_reads\":"@
            + dec((self.p1_punch_active_reads) as nat)
            + ",\"p1_kick_active_reads\":"@
            + dec((self.p1_kick_active_reads) as nat)
            + ",\"p1_beast_active_reads\":"@
            + dec((self.p1_beast_active_reads) as nat)
            + ",\"p3_input_reads\":"@
            + dec((self.p3_input_reads) as nat)
            + ",\"p3_guard_active_reads\":"@
            + dec((self.p3_guard_active_reads) as nat)
            + ",\"system_input_reads\":"@
            + dec((self.system_input_reads) as nat)
            + ",\"system_coin_active_reads\":"@
            + dec((self.system_coin_active_reads) as nat)
            + ",\"system_service_active_reads\":"@
            + dec((self.system_service_active_reads) as nat)
            + ",\"system_start_active_reads\":"@
            + dec((self.system_start_active_reads) as nat)
            + ",\"coin_register_reads\":"@
            + dec((self.coin_register_reads) as nat)
            + ",\"coin_register_active_reads\":"@
            + dec((self.coin_register_active_reads) as nat)
            + ",\"coin_register_writes\":"@
            + dec((self.coin_register_writes) as nat)
            + ",\"coin_insert_edges\":"@
            + dec((self.coin_insert_edges) as nat)
            + ",\"coin_counter_0_edges\":"@
            + dec((self.coin_counter_0_edges) as nat)
            + ",\"coin_counter_1_edges\":"@
            + dec((self.coin_counter_1_edges) as nat)
            + ",\"legacy_system_coin_latch_edges\":"@
            + dec((self.legacy_system_coin_latch_edges) as nat)
            + ",\"legacy_system_start_latch_edges\":"@
            + dec((self.legacy_system_start_latch_edges) as nat)
            + ",\"native_credit_adapter_writes\":"@
            + dec((self.native_credit_adapter_writes) as nat)
            + ",\"native_credit_adapter_edges\":"@
            + dec((self.native_credit_adapter_edges) as nat)
            + ",\"last_system_input\":"@
            + dec((self.last_system_input) as nat)
            + ",\"last_system_input_hex\":\"0x"@
            + hex((self.last_system_input) as nat, 8)
            + "\",\"last_coin_register\":"@
            + dec((self.last_coin_register) as nat)
            + ",\"last_coin_register_hex\":\"0x"@
            + hex((self.last_coin_register) as nat, 8)
            + "\",\"has_direction_activity\":"@
            + bool_text(self.spec_direction())
            + ",\"has_play_control_activity\":"@
            + bool_text(self.spec_play_control())
            + ",\"has_full_control_activity\":"@
            + bool_text(self.spec_full_control())
            + ",\"has_any_direction_activity\":"@
            + bool_text(self.spec_any_direction())
            + ",\"has_any_attack_activity\":"@
            + bool_text(self.spec_any_attack())
            + ",\"has_any_play_control_activity\":"@
            + bool_text(self.spec_any_play_control())
            + ",\"has_service_activity\":"@
            + bool_text(self.spec_service())
            + ",\"has_any_control_activity\":"@
            + bool_text(self.spec_any_control())
            + ",\"has_coin_edge_activity\":"@
            + bool_text(self.spec_coin_edge())
            + ",\"has_start_edge_activity\":"@
            + bool_text(self.spec_start_edge())
            + ",\"has_coin_probe_activity\":"@
            + bool_text(self.spec_coin_probe())
            + ",\"has_start_probe_activity\":"@
            + bool_text(self.spec_start_probe())
            + ",\"has_credit_probe_activity\":"@
            + bool_text(self.spec_credit_probe())
            + ",\"has_coin_register_active_activity\":"@
            + bool_text(self.spec_coin_register_active())
            + ",\"has_native_credit_adapter_activity\":"@
            + bool_text(self.spec_native_credit_adapter())
            + "}"@
    }

    /// All counters, the last port values and every derived status, as JSON.
    pub fn json(self) -> (r: String)
        ensures
            r@ == self.spec_json(),
    {
        let mut out = String::from_str("{\"p1_input_reads\":");
        push_dec(&mut out, (self.p1_input_reads) as u64);
        out.append(",\"p1_up_active_reads\":");
        push_dec(&mut out, (self.p1_up_active_reads) as u64);
        out.append(",\"p1_down_active_reads\":");
        push_dec(&mut out, (self.p1_down_active_reads) as u64);
        out.append(",\"p1_left_active_reads\":");
        push_dec(&mut out, (self.p1_left_active_reads) as u64);
        out.append(",\"p1_right_active_reads\":");
        push_dec(&mut out, (self.p1_right_active_reads) as u64);
        out.append(",\"p1_start_active_reads\":");
        push_dec(&mut out, (self.p1_start_active_reads) as u64);
        out.append(",\"p1_punch_active_reads\":");
        push_dec(&mut out, (self.p1_punch_active_reads) as u64);
        out.append(",\"p1_kick_active_reads\":");
        push_dec(&mut out, (self.p1_kick_active_reads) as u64);
        out.append(",\"p1_beast_active_reads\":");
        push_dec(&mut out, (self.p1_beast_active_reads) as u64);
        out.append(",\"p3_input_reads\":");
        push_dec(&mut out, (self.p3_input_reads) as u64);
        out.append(",\"p3_guard_active_reads\":");
        push_dec(&mut out, (self.p3_guard_active_reads) as u64);
        out.append(",\"system_input_reads\":");
        push_dec(&mut out, (self.system_input_reads) as u64);
        out.append(",\"system_coin_active_reads\":");
        push_dec(&mut out, (self.system_coin_active_reads) as u64);
        out.append(",\"system_service_active_reads\":");
        push_dec(&mut out, (self.system_service_active_reads) as u64);
        out.append(",\"system_start_active_reads\":");
        push_dec(&mut out, (self.system_start_active_reads) as u64);
        out.append(",\"coin_register_reads\":");
        push_dec(&mut out, (self.coin_register_reads) as u64);
        out.append(",\"coin_register_active_reads\":");
        push_dec(&mut out, (self.coin_register_active_reads) as u64);
        out.append(",\"coin_register_writes\":");
        push_dec(&mut out, (self.coin_register_writes) as u64);
        out.append(",\"coin_insert_edges\":");
        push_dec(&mut out, (self.coin_insert_edges) as u64);
        out.append(",\"coin_counter_0_edges\":");
        push_dec(&mut out, (self.coin_counter_0_edges) as u64);
        out.append(",\"coin_counter_1_edges\":");
        push_dec(&mut out, (self.coin_counter_1_edges) as u64);
        out.append(",\"legacy_system_coin_latch_edges\":");
        push_dec(&mut out, (self.legacy_system_coin_latch_edges) as u64);
        out.append(",\"legacy_system_start_latch_edges\":");
        push_dec(&mut out, (self.legacy_system_start_latch_edges) as u64);
        out.append(",\"native_credit_adapter_writes\":");
        push_dec(&mut out, (self.native_credit_adapter_writes) as u64);
        out.append(",\"native_credit_adapter_edges\":");
        push_dec(&mut out, (self.native_credit_adapter_edges) as u64);
        out.append(",\"last_system_input\":");
        push_dec(&mut out, (self.last_system_input) as u64);
        out.append(",\"last_system_input_hex\":\"0x");
        push_hex(&mut out, (self.last_system_input) as u64, 8);
        out.append("\",\"last_coin_register\":");
        push_dec(&mut out, (self.last_coin_register) as u64);
        out.append(",\"last_coin_register_hex\":\"0x");
        push_hex(&mut out, (self.last_coin_register) as u64, 8);
        out.append("\",\"has_direction_activity\":");
        push_bool(&mut out, self.has_direction_activity());
        out.append(",\"has_play_control_activity\":");
        push_bool(&mut out, self.has_play_control_activity());
        out.append(",\"has_full_control_activity\":");
        push_bool(&mut out, self.has_full_control_activity());
        out.append(",\"has_any_direction_activity\":");
        push_bool(&mut out, self.has_any_direction_activity());
        out.append(",\"has_any_attack_activity\":");
        push_bool(&mut out, self.has_any_attack_activity());
        out.append(",\"has_any_play_control_activity\":");
        push_bool(&mut out, self.has_any_play_control_activity());
        out.append(",\"has_service_activity\":");
        push_bool(&mut out, self.has_service_activity());
        out.append(",\"has_any_control_activity\":");
        push_bool(&mut out, self.has_any_control_activity());
        out.append(",\"has_coin_edge_activity\":");
        push_bool(&mut out, self.has_coin_edge_activity());
        out.append(",\"has_start_edge_activity\":");
        push_bool(&mut out, self.has_start_edge_activity());
        out.append(",\"has_coin_probe_activity\":");
        push_bool(&mut out, self.has_coin_probe_activity());
        out.append(",\"has_start_probe_activity\":");
        push_bool(&mut out, self.has_start_probe_activity());
        out.append(",\"has_credit_probe_activity\":");
        push_bool(&mut out, self.has_credit_probe_activity());
        out.append(",\"has_coin_register_active_activity\":");
        push_bool(&mut out, self.has_coin_register_active_activity());
        out.append(",\"has_native_credit_adapter_activity\":");
        push_bool(&mut out, self.has_native_credit_adapter_activity());
        out.append("}");
        out
    }

    pub fn has_play_control_activity(self) -> (r: bool)
        ensures
            r == self.spec_play_control(),
    {
        self.p1_punch_active_reads > 0 && self.p1_kick_active_reads > 0
            && self.p1_beast_active_reads > 0 && self.p3_guard_active_reads > 0
            && self.system_coin_active_reads > 0 && self.system_start_active_reads > 0
    }

    pub fn has_direction_activity(self) -> (r: bool)
        ensures
            r == self.spec_direction(),
    {
        self.p1_up_active_reads > 0 && self.p1_down_active_reads > 0 && self.p1_left_active_reads
            > 0 && self.p1_right_active_reads > 0
    }

    pub fn has_any_direction_activity(self) -> (r: bool)
        ensures
            r == self.spec_any_direction(),
    {
        self.p1_up_active_reads > 0 || self.p1_down_active_reads > 0 || self.p1_left_active_reads
            > 0 || self.p1_right_active_reads > 0
    }

    pub fn has_any_attack_activity(self) -> (r: bool)
        ensures
            r == self.spec_any_attack(),
    {
        self.p1_punch_active_reads > 0 || self.p1_kick_active_reads > 0
            || self.p1_beast_active_reads > 0 || self.p3_guard_active_reads > 0
    }

    pub fn has_any_play_control_activity(self) -> (r: bool)
        ensures
            r == self.spec_any_play_control(),
    {
        self.has_any_attack_activity() || self.system_coin_active_reads > 0
            || self.system_start_active_reads > 0 || self.p1_start_active_reads > 0
    }

    pub fn has_service_activity(self) -> (r: bool)
        ensures
            r == self.spec_service(),
    {
        self.system_service_active_reads > 0
    }

    pub fn has_any_control_activity(self) -> (r: bool)
        ensures
            r == self.spec_any_control(),
    {
        self.has_any_direction_activity() || self.has_any_play_control_activity()
            || self.has_service_activity()
    }

    pub fn has_full_control_activity(self) -> (r: bool)
        ensures
            r == self.spec_full_control(),
    {
        self.has_direction_activity() && self.has_play_control_activity()
    }

    pub fn has_coin_edge_activity(self) -> (r: bool)
        ensures
            r == self.spec_coin_edge(),
    {
        self.coin_insert_edges > 0 || self.legacy_system_coin_latch_edges > 0
    }

    pub fn has_start_edge_activity(self) -> (r: bool)
        ensures
            r == self.spec_start_edge(),
    {
        self.legacy_system_start_latch_edges > 0 || self.system_start_active_reads > 0
            || self.p1_start_active_reads > 0
    }

    pub fn has_coin_probe_activity(self) -> (r: bool)
        ensures
            r == self.spec_coin_probe(),
    {
        self.has_coin_edge_activity() && self.system_coin_active_reads > 0
    }

    pub fn has_start_probe_activity(self) -> (r: bool)
        ensures
            r == self.spec_start_probe(),
    {
        self.has_start_edge_activity() && (self.system_start_active_reads > 0
            || self.p1_start_active_reads > 0)
    }

    pub fn has_credit_probe_activity(self) -> (r: bool)
        ensures
            r == self.spec_credit_probe(),
    {
        self.has_coin_probe_activity() && self.has_start_probe_activity()
    }

    pub fn has_coin_register_active_activity(self) -> (r: bool)
        ensures
            r == self.spec_coin_register_active(),
    {
        self.coin_register_reads > 0 && self.coin_register_active_reads > 0
    }

    pub fn has_native_credit_adapter_activity(self) -> (r: bool)
        ensures
            r == self.spec_native_credit_adapter(),
    {
        self.native_credit_adapter_writes > 0 || self.native_credit_adapter_edges > 0
    }

    pub fn saturating_added(self, other: Self) -> (r: Self)
        ensures
            r == self.spec_added(other),
    {
        NativeInputActivity {
            p1_input_reads: self.p1_input_reads.saturating_add(other.p1_input_reads),
            p1_up_active_reads: self.p1_up_active_reads.saturating_add(other.p1_up_active_reads),
            p1_down_active_reads: self.p1_down_active_reads.saturating_add(
                other.p1_down_active_reads,
            ),
            p1_left_active_reads: self.p1_left_active_reads.saturating_add(
                other.p1_left_active_reads,
            ),
            p1_right_active_reads: self.p1_right_active_reads.saturating_add(
                other.p1_right_active_reads,
            ),
            p1_start_active_reads: self.p1_start_active_reads.saturating_add(
                other.p1_start_active_reads,
            ),
            p1_punch_active_reads: self.p1_punch_active_reads.saturating_add(
                other.p1_punch_active_reads,
            ),
            p1_kick_active_reads: self.p1_kick_active_reads.saturating_add(
                other.p1_kick_active_reads,
            ),
            p1_beast_active_reads: self.p1_beast_active_reads.saturating_add(
                other.p1_beast_active_reads,
            ),
            p3_input_reads: self.p3_input_reads.saturating_add(other.p3_input_reads),
            p3_guard_active_reads: self.p3_guard_active_reads.saturating_add(
                other.p3_guard_active_reads,
            ),
            system_input_reads: self.system_input_reads.saturating_add(other.system_input_reads),
            system_coin_active_reads: self.system_coin_active_reads.saturating_add(
                other.system_coin_active_reads,
            ),
            system_service_active_reads: self.system_service_active_reads.saturating_add(
                other.system_service_active_reads,
            ),
            system_start_active_reads: self.system_start_active_reads.saturating_add(
                other.system_start_active_reads,
            ),
            coin_register_reads: self.coin_register_reads.saturating_add(
                other.coin_register_reads,
            ),
            coin_register_active_reads: self.coin_register_active_reads.saturating_add(
                other.coin_register_active_reads,
            ),
            coin_register_writes: self.coin_register_writes.saturating_add(
                other.coin_register_writes,
            ),
            coin_insert_edges: self.coin_insert_edges.saturating_add(other.coin_insert_edges),
            coin_counter_0_edges: self.coin_counter_0_edges.saturating_add(
                other.coin_counter_0_edges,
            ),
            coin_counter_1_edges: self.coin_counter_1_edges.saturating_add(
                other.coin_counter_1_edges,
            ),
            legacy_system_coin_latch_edges: self.legacy_system_coin_latch_edges.saturating_add(
                other.legacy_system_coin_latch_edges,
            ),
            legacy_system_start_latch_edges: self.legacy_system_start_latch_edges.saturating_add(
                other.legacy_system_start_latch_edges,
            ),
            native_credit_adapter_writes: self.native_credit_adapter_writes.saturating_add(
                other.native_credit_adapter_writes,
            ),
            native_credit_adapter_edges: self.native_credit_adapter_edges.saturating_add(
                other.native_credit_adapter_edges,
            ),
            last_system_input: if other.system_input_reads > 0 {
                other.last_system_input
            } else {
                self.last_system_input
            },
            last_coin_register: if other.coin_register_reads > 0 {
                other.last_coin_register
            } else {
                self.last_coin_register
            },
        }
    }

    pub fn saturating_subtracted(self, baseline: Self) -> (r: Self)
        ensures
            r == self.spec_subtracted(baseline),
    {
        NativeInputActivity {
            p1_input_reads: self.p1_input_reads.saturating_sub(baseline.p1_input_reads),
            p1_up_active_reads: self.p1_up_active_reads.saturating_sub(
                baseline.p1_up_active_reads,
            ),
            p1_down_active_reads: self.p1_down_active_reads.saturating_sub(
                baseline.p1_down_active_reads,
            ),
            p1_left_active_reads: self.p1_left_active_reads.saturating_sub(
                baseline.p1_left_active_reads,
            ),
            p1_right_active_reads: self.p1_right_active_reads.saturating_sub(
                baseline.p1_right_active_reads,
            ),
            p1_start_active_reads: self.p1_start_active_reads.saturating_sub(
                baseline.p1_start_active_reads,
            ),
            p1_punch_active_reads: self.p1_punch_active_reads.saturating_sub(
                baseline.p1_punch_active_reads,
            ),
            p1_kick_active_reads: self.p1_kick_active_reads.saturating_sub(
                baseline.p1_kick_active_reads,
            ),
            p1_beast_active_reads: self.p1_beast_active_reads.saturating_sub(
                baseline.p1_beast_active_reads,
            ),
            p3_input_reads: self.p3_input_reads.saturating_sub(baseline.p3_input_reads),
            p3_guard_active_reads: self.p3_guard_active_reads.saturating_sub(
                baseline.p3_guard_active_reads,
            ),
            system_input_reads: self.system_input_reads.saturating_sub(
                baseline.system_input_reads,
            ),
            system_coin_active_reads: self.system_coin_active_reads.saturating_sub(
                baseline.system_coin_active_reads,
            ),
            system_service_active_reads: self.system_service_active_reads.saturating_sub(
                baseline.system_service_active_reads,
            ),
            system_start_active_reads: self.system_start_active_reads.saturating_sub(
                baseline.system_start_active_reads,
            ),
            coin_register_reads: self.coin_register_reads.saturating_sub(
                baseline.coin_register_reads,
            ),
            coin_register_active_reads: self.coin_register_active_reads.saturating_sub(
                baseline.coin_register_active_reads,
            ),
            coin_register_writes: self.coin_register_writes.saturating_sub(
                baseline.coin_register_writes,
            ),
            coin_insert_edges: self.coin_insert_edges.saturating_sub(baseline.coin_insert_edges),
            coin_counter_0_edges: self.coin_counter_0_edges.saturating_sub(
                baseline.coin_counter_0_edges,
            ),
            coin_counter_1_edges: self.coin_counter_1_edges.saturating_sub(
                baseline.coin_counter_1_edges,
            ),
            legacy_system_coin_latch_edges: self.legacy_system_coin_latch_edges.saturating_sub(
                baseline.legacy_system_coin_latch_edges,
            ),
            legacy_system_start_latch_edges: self.legacy_system_start_latch_edges.saturating_sub(
                baseline.legacy_system_start_latch_edges,
            ),
            native_credit_adapter_writes: self.native_credit_adapter_writes.saturating_sub(
                baseline.native_credit_adapter_writes,
            ),
            native_credit_adapter_edges: self.native_credit_adapter_edges.saturating_sub(
                baseline.native_credit_adapter_edges,
            ),
            last_system_input: self.last_system_input,
            last_coin_register: self.last_coin_register,
        }
    }
}


/// Relates every read/edge counter of `r` to the same counter of `a` and `b`
/// through `f`.
pub open spec fn counters_combine(
    r: NativeInputActivity,
    a: NativeInputActivity,
    b: NativeInputActivity,
    f: spec_fn(u64, u64) -> u64,
) -> bool {
        &&& r.p1_input_reads == f(a.p1_input_reads, b.p1_input_reads)
        &&& r.p1_up_active_reads == f(a.p1_up_active_reads, b.p1_up_active_reads)
        &&& r.p1_down_active_reads == f(a.p1_down_active_reads, b.p1_down_active_reads)
        &&& r.p1_left_active_reads == f(a.p1_left_active_reads, b.p1_left_active_reads)
        &&& r.p1_right_active_reads == f(a.p1_right_active_reads, b.p1_right_active_reads)
        &&& r.p1_start_active_reads == f(a.p1_start_active_reads, b.p1_start_active_reads)
        &&& r.p1_punch_active_reads == f(a.p1_punch_active_reads, b.p1_punch_active_reads)
        &&& r.p1_kick_active_reads == f(a.p1_kick_active_reads, b.p1_kick_active_reads)
        &&& r.p1_beast_active_reads == f(a.p1_beast_active_reads, b.p1_beast_active_reads)
        &&& r.p3_input_reads == f(a.p3_input_reads, b.p3_input_reads)
        &&& r.p3_guard_active_reads == f(a.p3_guard_active_reads, b.p3_guard_active_reads)
        &&& r.system_input_reads == f(a.system_input_reads, b.system_input_reads)
        &&& r.system_coin_active_reads == f(a.system_coin_active_reads, b.system_coin_active_reads)
        &&& r.system_service_active_reads == f(a.system_service_active_reads, b.system_service_active_reads)
        &&& r.system_start_active_reads == f(a.system_start_active_reads, b.system_start_active_reads)
        &&& r.coin_register_reads == f(a.coin_register_reads, b.coin_register_reads)
        &&& r.coin_register_active_reads == f(a.coin_register_active_reads, b.coin_register_active_reads)
        &&& r.coin_register_writes == f(a.coin_register_writes, b.coin_register_writes)
        &&& r.coin_insert_edges == f(a.coin_insert_edges, b.coin_insert_edges)
        &&& r.coin_counter_0_edges == f(a.coin_counter_0_edges, b.coin_counter_0_edges)
        &&& r.coin_counter_1_edges == f(a.coin_counter_1_edges, b.coin_counter_1_edges)
        &&& r.legacy_system_coin_latch_edges == f(a.legacy_system_coin_latch_edges, b.legacy_system_coin_latch_edges)
        &&& r.legacy_system_start_latch_edges == f(a.legacy_system_start_latch_edges, b.legacy_system_start_latch_edges)
        &&& r.native_credit_adapter_writes == f(a.native_credit_adapter_writes, b.native_credit_adapter_writes)
        &&& r.native_credit_adapter_edges == f(a.native_credit_adapter_edges, b.native_credit_adapter_edges)
}

pub open spec fn max_u64(a: u64, b: u64) -> u64 {
    if a >= b { a } else { b }
}

/// Merging the delta of a branch back onto its baseline gives, counter by
/// counter, the larger of the branch and the baseline: exactly the branch
/// whenever the branch did not fall behind its baseline.
pub proof fn law_merge_of_delta_restores_branch(
    baseline: NativeInputActivity,
    branch: NativeInputActivity,
)
    ensures
        counters_combine(
            baseline.spec_added(branch.spec_subtracted(baseline)),
            branch,
            baseline,
            |x: u64, y: u64| max_u64(x, y),
        ),
{
}

/// Subtracting an activity from itself leaves every counter at zero.
pub proof fn law_delta_against_itself_is_zero(a: NativeInputActivity)
    ensures
        counters_combine(a.spec_subtracted(a), a, a, |x: u64, y: u64| 0u64),
        a.spec_subtracted(a).last_system_input == a.last_system_input,
        a.spec_subtracted(a).last_coin_register == a.last_coin_register,
{
}

/// Adding an activity with no reads and no edges changes nothing.
pub proof fn law_adding_nothing_is_identity(a: NativeInputActivity, zero: NativeInputActivity)
    requires
        zero.all_zero(),
    ensures
        a.spec_added(zero) == a,
{
}

/// Merging is commutative on every counter.
pub proof fn law_merge_counters_commute(a: NativeInputActivity, b: NativeInputActivity)
    ensures
        counters_combine(a.spec_added(b), b.spec_added(a), a, |x: u64, y: u64| x),
{
}

/// Attack activity is a non-zero punch, kick, beast or guard counter: any
/// one of them alone is enough (guard counts as an attack control), and no
/// other counter counts. Play-control activity adds coin and start reads to
/// it; direction activity is any of the four directions.
pub proof fn law_activity_statuses(a: NativeInputActivity)
    ensures
        a.p1_punch_active_reads > 0 ==> a.spec_any_attack(),
        a.p1_kick_active_reads > 0 ==> a.spec_any_attack(),
        a.p1_beast_active_reads > 0 ==> a.spec_any_attack(),
        a.p3_guard_active_reads > 0 ==> a.spec_any_attack(),
        a.p1_punch_active_reads == 0 && a.p1_kick_active_reads == 0 && a.p1_beast_active_reads
            == 0 && a.p3_guard_active_reads == 0 ==> !a.spec_any_attack(),
        a.spec_any_play_control() <==> (a.spec_any_attack() || a.system_coin_active_reads > 0
            || a.system_start_active_reads > 0 || a.p1_start_active_reads > 0),
        a.spec_any_direction() <==> (a.p1_up_active_reads > 0 || a.p1_down_active_reads > 0
            || a.p1_left_active_reads > 0 || a.p1_right_active_reads > 0),
{
}

/// The full statuses ask for every control of their kind: full play control
/// is punch, kick, beast, guard, coin and system start all seen active;
/// full direction control is all four directions; full control is both.
/// Service activity is a non-zero service counter. A coin edge is a coin
/// insertion or a legacy coin latch edge; a start edge is a legacy start
/// latch edge or an active start read on either port; a credit probe is a
/// coin edge with an active coin read together with a start edge with an
/// active start read.
pub proof fn law_full_and_probe_statuses(a: NativeInputActivity)
    ensures
        a.spec_play_control() <==> (a.p1_punch_active_reads > 0 && a.p1_kick_active_reads > 0
            && a.p1_beast_active_reads > 0 && a.p3_guard_active_reads > 0
            && a.system_coin_active_reads > 0 && a.system_start_active_reads > 0),
        a.spec_direction() <==> (a.p1_up_active_reads > 0 && a.p1_down_active_reads > 0
            && a.p1_left_active_reads > 0 && a.p1_right_active_reads > 0),
        a.spec_full_control() <==> (a.spec_play_control() && a.spec_direction()),
        a.spec_play_control() ==> a.spec_any_attack() && a.spec_any_play_control(),
        a.spec_direction() ==> a.spec_any_direction(),
        a.spec_service() <==> a.system_service_active_reads > 0,
        a.spec_any_control() <==> (a.spec_any_direction() || a.spec_any_play_control()
            || a.system_service_active_reads > 0),
        a.spec_coin_edge() <==> (a.coin_insert_edges > 0 || a.legacy_system_coin_latch_edges > 0),
        a.spec_start_edge() <==> (a.legacy_system_start_latch_edges > 0
            || a.system_start_active_reads > 0 || a.p1_start_active_reads > 0),
        a.spec_coin_probe() <==> (a.spec_coin_edge() && a.system_coin_active_reads > 0),
        a.spec_start_probe() <==> (a.spec_start_edge() && (a.system_start_active_reads > 0
            || a.p1_start_active_reads > 0)),
        a.spec_credit_probe() <==> (a.spec_coin_edge() && a.system_coin_active_reads > 0
            && a.spec_start_edge() && (a.system_start_active_reads > 0
            || a.p1_start_active_reads > 0)),
        a.spec_coin_register_active() <==> (a.coin_register_reads > 0
            && a.coin_register_active_reads > 0),
        a.spec_native_credit_adapter() <==> (a.native_credit_adapter_writes > 0
            || a.native_credit_adapter_edges > 0),
{
}

/// Every "has ... activity" status that holds before a merge still holds
/// after it: merging never loses observed activity.
pub proof fn law_merge_keeps_activity(a: NativeInputActivity, b: NativeInputActivity)
    ensures
        a.spec_play_control() ==> a.spec_added(b).spec_play_control(),
        a.spec_direction() ==> a.spec_added(b).spec_direction(),
        a.spec_full_control() ==> a.spec_added(b).spec_full_control(),
        a.spec_any_control() ==> a.spec_added(b).spec_any_control(),
        a.spec_credit_probe() ==> a.spec_added(b).spec_credit_probe(),
        a.spec_coin_register_active() ==> a.spec_added(b).spec_coin_register_active(),
        a.spec_native_credit_adapter() ==> a.spec_added(b).spec_native_credit_adapter(),
        b.spec_full_control() ==> a.spec_added(b).spec_full_control(),
{
}

} // verus!
