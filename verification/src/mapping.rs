//! Which board input bits the coin button drives.
use vstd::prelude::*;
use crate::text::{chars_of, eq_lit, normalized_chars, spec_normalized, spec_trim_start, spec_trim_end, spec_ascii_lowercase, spec_drop_separators};

verus! {

broadcast use vstd::string::group_string_axioms;

/// Wiring of the coin button onto the board's input ports.
#[derive(Clone, Copy, Debug, PartialEq, Eq, Structural)]
pub enum NativeCoinInputMapping {
    Mame,
    LegacyZinc,
    System20,
    System10System20,
    Service01,
    Service02,
    Service10,
    Service02Service10,
    CoinRegisterBit0,
    All,
}

/// Option spellings, after trimming, lower-casing and dropping `-`, `_`, `+`.
pub open spec fn spec_mapping_from_normalized(n: Seq<char>) -> Option<NativeCoinInputMapping> {
    if n == "mame"@ || n == "system10"@ || n == "sys10"@ || n == "coin1"@ {
        Some(NativeCoinInputMapping::Mame)
    } else if n == "legacy"@ || n == "zinc"@ || n == "legacyzinc"@ || n == "zinclegacy"@ {
        Some(NativeCoinInputMapping::LegacyZinc)
    } else if n == "system20"@ || n == "sys20"@ || n == "coin2"@ {
        Some(NativeCoinInputMapping::System20)
    } else if n == "system1020"@ || n == "sys1020"@ || n == "system10system20"@ || n == "coin12"@ {
        Some(NativeCoinInputMapping::System10System20)
    } else if n == "service01"@ || n == "svc01"@ {
        Some(NativeCoinInputMapping::Service01)
    } else if n == "service02"@ || n == "svc02"@ || n == "service"@ {
        Some(NativeCoinInputMapping::Service02)
    } else if n == "service10"@ || n == "svc10"@ {
        Some(NativeCoinInputMapping::Service10)
    } else if n == "service0210"@ || n == "svc0210"@ || n == "service02service10"@ {
        Some(NativeCoinInputMapping::Service02Service10)
    } else if n == "coinregisterbit0"@ || n == "coinregister"@ || n == "registerbit0"@ || n
        == "regbit0"@ {
        Some(NativeCoinInputMapping::CoinRegisterBit0)
    } else if n == "all"@ || n == "wide"@ {
        Some(NativeCoinInputMapping::All)
    } else {
        None
    }
}

impl NativeCoinInputMapping {
    pub open spec fn spec_parse(value: Seq<char>) -> Option<Self> {
        spec_mapping_from_normalized(spec_normalized(value, true))
    }

    /// The wiring named by `value`; `None` for `auto`, empty or unknown names.
    pub fn parse(value: &str) -> (r: Option<Self>)
        ensures
            r == Self::spec_parse(value@),
    {
        let chars = chars_of(value);
        let n = normalized_chars(&chars, true);
        if eq_lit(&n, "mame") || eq_lit(&n, "system10") || eq_lit(&n, "sys10") || eq_lit(
            &n,
            "coin1",
        ) {
            Some(Self::Mame)
        } else if eq_lit(&n, "legacy") || eq_lit(&n, "zinc") || eq_lit(&n, "legacyzinc") || eq_lit(
            &n,
            "zinclegacy",
        ) {
            Some(Self::LegacyZinc)
        } else if eq_lit(&n, "system20") || eq_lit(&n, "sys20") || eq_lit(&n, "coin2") {
            Some(Self::System20)
        } else if eq_lit(&n, "system1020") || eq_lit(&n, "sys1020") || eq_lit(
            &n,
            "system10system20",
        ) || eq_lit(&n, "coin12") {
            Some(Self::System10System20)
        } else if eq_lit(&n, "service01") || eq_lit(&n, "svc01") {
            Some(Self::Service01)
        } else if eq_lit(&n, "service02") || eq_lit(&n, "svc02") || eq_lit(&n, "service") {
            Some(Self::Service02)
        } else if eq_lit(&n, "service10") || eq_lit(&n, "svc10") {
            Some(Self::Service10)
        } else if eq_lit(&n, "service0210") || eq_lit(&n, "svc0210") || eq_lit(
            &n,
            "service02service10",
        ) {
            Some(Self::Service02Service10)
        } else if eq_lit(&n, "coinregisterbit0") || eq_lit(&n, "coinregister") || eq_lit(
            &n,
            "registerbit0",
        ) || eq_lit(&n, "regbit0") {
            Some(Self::CoinRegisterBit0)
        } else if eq_lit(&n, "all") || eq_lit(&n, "wide") {
            Some(Self::All)
        } else {
            None
        }
    }

    /// The wiring used when no option is given.
    pub fn default_for_compat(legacy_zinc_input_compat: bool) -> (r: Self)
        ensures
            r == (if legacy_zinc_input_compat {
                NativeCoinInputMapping::LegacyZinc
            } else {
                NativeCoinInputMapping::Mame
            }),
    {
        if legacy_zinc_input_compat {
            Self::LegacyZinc
        } else {
            Self::Mame
        }
    }

    pub open spec fn spec_name(self) -> Seq<char> {
        match self {
            NativeCoinInputMapping::Mame => "mame"@,
            NativeCoinInputMapping::LegacyZinc => "legacy-zinc"@,
            NativeCoinInputMapping::System20 => "system20"@,
            NativeCoinInputMapping::System10System20 => "system10-system20"@,
            NativeCoinInputMapping::Service01 => "service01"@,
            NativeCoinInputMapping::Service02 => "service02"@,
            NativeCoinInputMapping::Service10 => "service10"@,
            NativeCoinInputMapping::Service02Service10 => "service02-service10"@,
            NativeCoinInputMapping::CoinRegisterBit0 => "coin-register-bit0"@,
            NativeCoinInputMapping::All => "all"@,
        }
    }

    /// The canonical option spelling of this wiring.
    pub fn name(self) -> (r: &'static str)
        ensures
            r@ == self.spec_name(),
    {
        match self {
            Self::Mame => "mame",
            Self::LegacyZinc => "legacy-zinc",
            Self::System20 => "system20",
            Self::System10System20 => "system10-system20",
            Self::Service01 => "service01",
            Self::Service02 => "service02",
            Self::Service10 => "service10",
            Self::Service02Service10 => "service02-service10",
            Self::CoinRegisterBit0 => "coin-register-bit0",
            Self::All => "all",
        }
    }

    pub open spec fn spec_clears_system_10(self) -> bool {
        self is Mame || self is LegacyZinc || self is System10System20 || self is All
    }

    pub open spec fn spec_clears_system_20(self) -> bool {
        self is LegacyZinc || self is System20 || self is System10System20 || self is All
    }

    pub open spec fn spec_clears_service_01(self) -> bool {
        self is Service01 || self is All
    }

    pub open spec fn spec_clears_service_02(self) -> bool {
        self is LegacyZinc || self is Service02 || self is Service02Service10 || self is All
    }

    pub open spec fn spec_clears_service_10(self) -> bool {
        self is LegacyZinc || self is Service10 || self is Service02Service10 || self is All
    }

    pub open spec fn spec_mirrors_coin_register_bit0(self) -> bool {
        self is LegacyZinc || self is CoinRegisterBit0 || self is All
    }

    pub open spec fn spec_enables_legacy_start_compat(self) -> bool {
        self is LegacyZinc || self is All
    }

    /// Coin pulls SYSTEM bit `0x10` (coin 1) low.
    pub fn clears_system_10(self) -> (r: bool)
        ensures
            r == self.spec_clears_system_10(),
    {
        match self {
            Self::Mame | Self::LegacyZinc | Self::System10System20 | Self::All => true,
            _ => false,
        }
    }

    /// Coin pulls SYSTEM bit `0x20` (coin 2) low.
    pub fn clears_system_20(self) -> (r: bool)
        ensures
            r == self.spec_clears_system_20(),
    {
        match self {
            Self::LegacyZinc | Self::System20 | Self::System10System20 | Self::All => true,
            _ => false,
        }
    }

    /// Coin pulls SERVICE bit `0x01` low.
    pub fn clears_service_01(self) -> (r: bool)
        ensures
            r == self.spec_clears_service_01(),
    {
        match self {
            Self::Service01 | Self::All => true,
            _ => false,
        }
    }

    /// Coin pulls SERVICE bit `0x02` low.
    pub fn clears_service_02(self) -> (r: bool)
        ensures
            r == self.spec_clears_service_02(),
    {
        match self {
            Self::LegacyZinc | Self::Service02 | Self::Service02Service10 | Self::All => true,
            _ => false,
        }
    }

    /// Coin pulls SERVICE bit `0x10` low.
    pub fn clears_service_10(self) -> (r: bool)
        ensures
            r == self.spec_clears_service_10(),
    {
        match self {
            Self::LegacyZinc | Self::Service10 | Self::Service02Service10 | Self::All => true,
            _ => false,
        }
    }

    /// Coin also shows up as bit 0 of the coin register.
    pub fn mirrors_coin_register_bit0(self) -> (r: bool)
        ensures
            r == self.spec_mirrors_coin_register_bit0(),
    {
        match self {
            Self::LegacyZinc | Self::CoinRegisterBit0 | Self::All => true,
            _ => false,
        }
    }

    /// Start is mirrored onto P1 button 5 and SYSTEM start 2.
    pub fn enables_legacy_start_compat(self) -> (r: bool)
        ensures
            r == self.spec_enables_legacy_start_compat(),
    {
        match self {
            Self::LegacyZinc | Self::All => true,
            _ => false,
        }
    }
}

/// `s` normalizes to `n` when it has no white space at its ends, no upper
/// case letter, and dropping its separators leaves `n`.
proof fn lemma_normalized_plain(s: Seq<char>, n: Seq<char>)
    requires
        s.len() > 0,
        !crate::text::spec_is_whitespace(s[0]),
        !crate::text::spec_is_whitespace(s.last()),
        spec_ascii_lowercase(s) =~= s,
        spec_drop_separators(s, true) =~= n,
    ensures
        spec_normalized(s, true) == n,
{
    assert(spec_trim_start(s) == s);
    assert(spec_trim_end(s) == s);
}

/// The lengths of the spellings the parser knows, and how the canonical
/// names differ from the spellings of the same length before them.
proof fn lemma_spelling_facts()
    ensures
        "mame"@.len() == 4,
        "system10"@.len() == 8,
        "sys10"@.len() == 5,
        "coin1"@.len() == 5,
        "legacy"@.len() == 6,
        "zinc"@.len() == 4,
        "legacyzinc"@.len() == 10,
        "zinclegacy"@.len() == 10,
        "system20"@.len() == 8,
        "sys20"@.len() == 5,
        "coin2"@.len() == 5,
        "system1020"@.len() == 10,
        "sys1020"@.len() == 7,
        "system10system20"@.len() == 16,
        "coin12"@.len() == 6,
        "service01"@.len() == 9,
        "svc01"@.len() == 5,
        "service02"@.len() == 9,
        "svc02"@.len() == 5,
        "service"@.len() == 7,
        "service10"@.len() == 9,
        "svc10"@.len() == 5,
        "service0210"@.len() == 11,
        "svc0210"@.len() == 7,
        "service02service10"@.len() == 18,
        "coinregisterbit0"@.len() == 16,
        "coinregister"@.len() == 12,
        "registerbit0"@.len() == 12,
        "regbit0"@.len() == 7,
        "all"@.len() == 3,
        "wide"@.len() == 4,
        "system20"@ != "system10"@,
        "service02"@ != "service01"@,
        "service10"@ != "service01"@,
        "service10"@ != "service02"@,
        "coinregisterbit0"@ != "system10system20"@,
{
    reveal_strlit("mame");
    reveal_strlit("system10");
    reveal_strlit("sys10");
    reveal_strlit("coin1");
    reveal_strlit("legacy");
    reveal_strlit("zinc");
    reveal_strlit("legacyzinc");
    reveal_strlit("zinclegacy");
    reveal_strlit("system20");
    reveal_strlit("sys20");
    reveal_strlit("coin2");
    reveal_strlit("system1020");
    reveal_strlit("sys1020");
    reveal_strlit("system10system20");
    reveal_strlit("coin12");
    reveal_strlit("service01");
    reveal_strlit("svc01");
    reveal_strlit("service02");
    reveal_strlit("svc02");
    reveal_strlit("service");
    reveal_strlit("service10");
    reveal_strlit("svc10");
    reveal_strlit("service0210");
    reveal_strlit("svc0210");
    reveal_strlit("service02service10");
    reveal_strlit("coinregisterbit0");
    reveal_strlit("coinregister");
    reveal_strlit("registerbit0");
    reveal_strlit("regbit0");
    reveal_strlit("all");
    reveal_strlit("wide");
    assert("system20"@[6] != "system10"@[6]);
    assert("service02"@[8] != "service01"@[8]);
    assert("service10"@[7] != "service01"@[7]);
    assert("service10"@[7] != "service02"@[7]);
    assert("coinregisterbit0"@[0] != "system10system20"@[0]);
}

proof fn lemma_mame_round_trip()
    ensures
        NativeCoinInputMapping::spec_parse("mame"@) == Some(NativeCoinInputMapping::Mame),
{
    lemma_spelling_facts();
    reveal_strlit("mame");
    reveal_strlit("mame");
    reveal_with_fuel(spec_drop_separators, 20);
    lemma_normalized_plain("mame"@, "mame"@);
}

proof fn lemma_legacy_zinc_round_trip()
    ensures
        NativeCoinInputMapping::spec_parse("legacy-zinc"@) == Some(NativeCoinInputMapping::LegacyZinc),
{
    lemma_spelling_facts();
    reveal_strlit("legacy-zinc");
    reveal_strlit("legacyzinc");
    reveal_with_fuel(spec_drop_separators, 20);
    lemma_normalized_plain("legacy-zinc"@, "legacyzinc"@);
}

proof fn lemma_system20_round_trip()
    ensures
        NativeCoinInputMapping::spec_parse("system20"@) == Some(NativeCoinInputMapping::System20),
{
    lemma_spelling_facts();
    reveal_strlit("system20");
    reveal_strlit("system20");
    reveal_with_fuel(spec_drop_separators, 20);
    lemma_normalized_plain("system20"@, "system20"@);
}

proof fn lemma_system10_system20_round_trip()
    ensures
        NativeCoinInputMapping::spec_parse("system10-system20"@) == Some(NativeCoinInputMapping::System10System20),
{
    lemma_spelling_facts();
    reveal_strlit("system10-system20");
    reveal_strlit("system10system20");
    reveal_with_fuel(spec_drop_separators, 20);
    lemma_normalized_plain("system10-system20"@, "system10system20"@);
}

proof fn lemma_service01_round_trip()
    ensures
        NativeCoinInputMapping::spec_parse("service01"@) == Some(NativeCoinInputMapping::Service01),
{
    lemma_spelling_facts();
    reveal_strlit("service01");
    reveal_strlit("service01");
    reveal_with_fuel(spec_drop_separators, 20);
    lemma_normalized_plain("service01"@, "service01"@);
}

proof fn lemma_service02_round_trip()
    ensures
        NativeCoinInputMapping::spec_parse("service02"@) == Some(NativeCoinInputMapping::Service02),
{
    lemma_spelling_facts();
    reveal_strlit("service02");
    reveal_strlit("service02");
    reveal_with_fuel(spec_drop_separators, 20);
    lemma_normalized_plain("service02"@, "service02"@);
}

proof fn lemma_service10_round_trip()
    ensures
        NativeCoinInputMapping::spec_parse("service10"@) == Some(NativeCoinInputMapping::Service10),
{
    lemma_spelling_facts();
    reveal_strlit("service10");
    reveal_strlit("service10");
    reveal_with_fuel(spec_drop_separators, 20);
    lemma_normalized_plain("service10"@, "service10"@);
}

proof fn lemma_service02_service10_round_trip()
    ensures
        NativeCoinInputMapping::spec_parse("service02-service10"@) == Some(NativeCoinInputMapping::Service02Service10),
{
    lemma_spelling_facts();
    reveal_strlit("service02-service10");
    reveal_strlit("service02service10");
    reveal_with_fuel(spec_drop_separators, 20);
    lemma_normalized_plain("service02-service10"@, "service02service10"@);
}

proof fn lemma_coin_register_bit0_round_trip()
    ensures
        NativeCoinInputMapping::spec_parse("coin-register-bit0"@) == Some(NativeCoinInputMapping::CoinRegisterBit0),
{
    lemma_spelling_facts();
    reveal_strlit("coin-register-bit0");
    reveal_strlit("coinregisterbit0");
    reveal_with_fuel(spec_drop_separators, 20);
    lemma_normalized_plain("coin-register-bit0"@, "coinregisterbit0"@);
}

proof fn lemma_all_round_trip()
    ensures
        NativeCoinInputMapping::spec_parse("all"@) == Some(NativeCoinInputMapping::All),
{
    lemma_spelling_facts();
    reveal_strlit("all");
    reveal_strlit("all");
    reveal_with_fuel(spec_drop_separators, 20);
    lemma_normalized_plain("all"@, "all"@);
}

/// The canonical name of every wiring parses back to it.
pub proof fn law_coin_mapping_name_round_trip(m: NativeCoinInputMapping)
    ensures
        NativeCoinInputMapping::spec_parse(m.spec_name()) == Some(m),
{
    match m {
        NativeCoinInputMapping::Mame => lemma_mame_round_trip(),
        NativeCoinInputMapping::LegacyZinc => lemma_legacy_zinc_round_trip(),
        NativeCoinInputMapping::System20 => lemma_system20_round_trip(),
        NativeCoinInputMapping::System10System20 => lemma_system10_system20_round_trip(),
        NativeCoinInputMapping::Service01 => lemma_service01_round_trip(),
        NativeCoinInputMapping::Service02 => lemma_service02_round_trip(),
        NativeCoinInputMapping::Service10 => lemma_service10_round_trip(),
        NativeCoinInputMapping::Service02Service10 => lemma_service02_service10_round_trip(),
        NativeCoinInputMapping::CoinRegisterBit0 => lemma_coin_register_bit0_round_trip(),
        NativeCoinInputMapping::All => lemma_all_round_trip(),
    }
}

/// The lines each wiring drives, as (system `0x10`, system `0x20`,
/// service `0x01`, service `0x02`, service `0x10`, coin register bit 0,
/// legacy start).
pub open spec fn wiring_lines(m: NativeCoinInputMapping) -> (bool, bool, bool, bool, bool, bool, bool) {
    (
        m.spec_clears_system_10(),
        m.spec_clears_system_20(),
        m.spec_clears_service_01(),
        m.spec_clears_service_02(),
        m.spec_clears_service_10(),
        m.spec_mirrors_coin_register_bit0(),
        m.spec_enables_legacy_start_compat(),
    )
}

/// Each wiring drives the lines its name says: MAME coin 1 alone, system
/// 20 coin 2 alone, both with system 10/20, each named service line alone
/// (service 02 and 10 together for their pair), coin register bit 0 alone;
/// legacy ZiNc drives both coin lines, service 02 and 10, the register bit
/// and the legacy start; `all` drives every line.
pub proof fn law_coin_wiring_lines(m: NativeCoinInputMapping)
    ensures
        m == NativeCoinInputMapping::Mame ==> wiring_lines(m) == (true, false, false, false, false, false, false),
        m == NativeCoinInputMapping::System20 ==> wiring_lines(m) == (false, true, false, false, false, false, false),
        m == NativeCoinInputMapping::System10System20 ==> wiring_lines(m) == (true, true, false, false, false, false, false),
        m == NativeCoinInputMapping::Service01 ==> wiring_lines(m) == (false, false, true, false, false, false, false),
        m == NativeCoinInputMapping::Service02 ==> wiring_lines(m) == (false, false, false, true, false, false, false),
        m == NativeCoinInputMapping::Service10 ==> wiring_lines(m) == (false, false, false, false, true, false, false),
        m == NativeCoinInputMapping::Service02Service10 ==> wiring_lines(m) == (false, false, false, true, true, false, false),
        m == NativeCoinInputMapping::CoinRegisterBit0 ==> wiring_lines(m) == (false, false, false, false, false, true, false),
        m == NativeCoinInputMapping::LegacyZinc ==> wiring_lines(m) == (true, true, false, true, true, true, true),
        m == NativeCoinInputMapping::All ==> wiring_lines(m) == (true, true, true, true, true, true, true),
{
}

} // verus!
