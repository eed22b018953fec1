//! Rules that project the coin input onto the game's own input words.
use vstd::prelude::*;
use crate::address::{physical_address, spec_physical};
use crate::config::{lowercase_chars, parse_u32_value_chars, spec_parse_u32_value};
use crate::json::{
    dec, hex, opt_hex32, opt_u32_dec, push_dec, push_hex, push_opt_hex32, push_opt_u32_dec,
};
use crate::text::{
    chars_of, eq_lit, is_whitespace, normalized_chars, parse_unsigned, spec_ascii_lowercase,
    spec_is_whitespace, spec_normalized, spec_parse_unsigned, spec_trim, trim_chars,
};

verus! {

broadcast use vstd::string::group_string_axioms;

/// Scratchpad word the game fills with the current input state.
pub const BR2_INPUT_SCRATCHPAD_WORD: u32 = 0x1f80_006c;
pub const BR2_INPUT_SCRATCHPAD_WRITE_PC_PHYSICAL: u32 = 0x002c_ff84;
/// Scratchpad word the game fills with newly pressed inputs, and its mirror.
pub const BR2_INPUT_SCRATCHPAD_EDGE_WORD: u32 = 0x1f80_0068;
pub const BR2_INPUT_SCRATCHPAD_EDGE_MIRROR_WORD: u32 = 0x1f80_0074;
pub const BR2_INPUT_SCRATCHPAD_EDGE_WRITE_PC_PHYSICAL: u32 = 0x002c_ff94;
pub const BR2_INPUT_SCRATCHPAD_EDGE_MIRROR_WRITE_PC_PHYSICAL: u32 = 0x002c_ff98;
/// Scratchpad word holding the previous frame's input state.
pub const BR2_INPUT_SCRATCHPAD_PREVIOUS_WORD: u32 = 0x1f80_0070;

/// Which pending-write budget a rule draws from.
#[derive(Clone, Copy, Debug, PartialEq, Eq, Structural)]
pub enum NativeCreditProjectionBucket {
    Current,
    Edge,
}

impl NativeCreditProjectionBucket {
    pub open spec fn spec_name(self) -> Seq<char> {
        match self {
            NativeCreditProjectionBucket::Current => "current"@,
            NativeCreditProjectionBucket::Edge => "edge"@,
        }
    }

    pub fn name(self) -> (r: &'static str)
        ensures
            r@ == self.spec_name(),
    {
        match self {
            Self::Current => "current",
            Self::Edge => "edge",
        }
    }
}

/// A scratchpad store (address, width, and optionally the storing PC) whose
/// value gets the coin bit OR-ed in.
#[derive(Clone, Copy, Debug, PartialEq, Eq, Structural)]
pub struct NativeCreditProjectionRule {
    pub address: u32,
    pub access_len: usize,
    pub pc: Option<u32>,
    pub mask: Option<u32>,
    pub bucket: NativeCreditProjectionBucket,
}

pub open spec fn opt_physical(pc: Option<u32>) -> Option<u32> {
    match pc {
        Some(p) => Some(spec_physical(p)),
        None => None,
    }
}

pub fn opt_physical_address(pc: Option<u32>) -> (r: Option<u32>)
    ensures
        r == opt_physical(pc),
{
    match pc {
        Some(p) => Some(physical_address(p)),
        None => None,
    }
}

/// A rule with its address and PC reduced to physical addresses.
pub open spec fn spec_rule(
    address: u32,
    access_len: usize,
    pc: Option<u32>,
    mask: Option<u32>,
    bucket: NativeCreditProjectionBucket,
) -> NativeCreditProjectionRule {
    NativeCreditProjectionRule {
        address: spec_physical(address),
        access_len,
        pc: opt_physical(pc),
        mask,
        bucket,
    }
}

impl NativeCreditProjectionRule {
    pub fn new(
        address: u32,
        access_len: usize,
        pc: Option<u32>,
        mask: Option<u32>,
        bucket: NativeCreditProjectionBucket,
    ) -> (r: Self)
        ensures
            r == spec_rule(address, access_len, pc, mask, bucket),
    {
        NativeCreditProjectionRule {
            address: physical_address(address),
            access_len,
            pc: opt_physical_address(pc),
            mask,
            bucket,
        }
    }

    pub open spec fn spec_matches(self, address: u32, access_len: usize, pc: Option<u32>) -> bool {
        &&& self.address == spec_physical(address)
        &&& self.access_len == access_len
        &&& match self.pc {
            Some(expected) => Some(expected) == opt_physical(pc),
            None => true,
        }
    }

    /// Whether a store of `access_len` bytes at `address` by `pc` is covered.
    pub fn matches(self, address: u32, access_len: usize, pc: Option<u32>) -> (r: bool)
        ensures
            r == self.spec_matches(address, access_len, pc),
    {
        self.address == physical_address(address) && self.access_len == access_len && match
            self.pc {
            Some(expected) => match opt_physical_address(pc) {
                Some(p) => p == expected,
                None => false,
            },
            None => true,
        }
    }

    /// The rule's own mask, else the default coin bit.
    pub fn effective_mask(self, default_mask: u32) -> (r: u32)
        ensures
            r == (match self.mask {
                Some(m) => m,
                None => default_mask,
            }),
    {
        match self.mask {
            Some(m) => m,
            None => default_mask,
        }
    }

    pub open spec fn spec_json(self) -> Seq<char> {
        "{\"address\":"@
            + dec((self.address) as nat)
            + ",\"address_hex\":\"0x"@
            + hex((self.address) as nat, 8)
            + "\",\"access_len\":"@
            + dec((self.access_len) as nat)
            + ",\"pc\":"@
            + opt_u32_dec(self.pc)
            + ",\"pc_hex\":"@
            + opt_hex32(self.pc)
            + ",\"mask\":"@
            + opt_u32_dec(self.mask)
            + ",\"mask_hex\":"@
            + opt_hex32(self.mask)
            + ",\"bucket\":\""@
            + (self.bucket.spec_name())
            + "\"}"@
    }

    /// The rule as a JSON object.
    pub fn json(self) -> (r: String)
        ensures
            r@ == self.spec_json(),
    {
        let mut out = String::from_str("{\"address\":");
        push_dec(&mut out, (self.address) as u64);
        out.append(",\"address_hex\":\"0x");
        push_hex(&mut out, (self.address) as u64, 8);
        out.append("\",\"access_len\":");
        push_dec(&mut out, (self.access_len) as u64);
        out.append(",\"pc\":");
        push_opt_u32_dec(&mut out, self.pc);
        out.append(",\"pc_hex\":");
        push_opt_hex32(&mut out, self.pc);
        out.append(",\"mask\":");
        push_opt_u32_dec(&mut out, self.mask);
        out.append(",\"mask_hex\":");
        push_opt_hex32(&mut out, self.mask);
        out.append(",\"bucket\":\"");
        out.append(self.bucket.name());
        out.append("\"}");
        out
    }


}

pub open spec fn spec_default_rules() -> Seq<NativeCreditProjectionRule> {
    seq![
        spec_rule(
            BR2_INPUT_SCRATCHPAD_WORD,
            4,
            Some(BR2_INPUT_SCRATCHPAD_WRITE_PC_PHYSICAL),
            None,
            NativeCreditProjectionBucket::Current,
        ),
        spec_rule(
            BR2_INPUT_SCRATCHPAD_EDGE_WORD,
            4,
            Some(BR2_INPUT_SCRATCHPAD_EDGE_WRITE_PC_PHYSICAL),
            None,
            NativeCreditProjectionBucket::Edge,
        ),
        spec_rule(
            BR2_INPUT_SCRATCHPAD_EDGE_MIRROR_WORD,
            4,
            Some(BR2_INPUT_SCRATCHPAD_EDGE_MIRROR_WRITE_PC_PHYSICAL),
            None,
            NativeCreditProjectionBucket::Edge,
        ),
    ]
}

/// The current input word and both edge words, each at its writing PC.
pub fn native_credit_default_projection_rules() -> (r: Vec<NativeCreditProjectionRule>)
    ensures
        r@ == spec_default_rules(),
{
    let mut r = Vec::new();
    r.push(
        NativeCreditProjectionRule::new(
            BR2_INPUT_SCRATCHPAD_WORD,
            4,
            Some(BR2_INPUT_SCRATCHPAD_WRITE_PC_PHYSICAL),
            None,
            NativeCreditProjectionBucket::Current,
        ),
    );
    r.push(
        NativeCreditProjectionRule::new(
            BR2_INPUT_SCRATCHPAD_EDGE_WORD,
            4,
            Some(BR2_INPUT_SCRATCHPAD_EDGE_WRITE_PC_PHYSICAL),
            None,
            NativeCreditProjectionBucket::Edge,
        ),
    );
    r.push(
        NativeCreditProjectionRule::new(
            BR2_INPUT_SCRATCHPAD_EDGE_MIRROR_WORD,
            4,
            Some(BR2_INPUT_SCRATCHPAD_EDGE_MIRROR_WRITE_PC_PHYSICAL),
            None,
            NativeCreditProjectionBucket::Edge,
        ),
    );
    r
}

pub open spec fn with_mask(rules: Seq<NativeCreditProjectionRule>, mask: Option<u32>) -> Seq<
    NativeCreditProjectionRule,
> {
    rules.map_values(|rule: NativeCreditProjectionRule| NativeCreditProjectionRule { mask, ..rule })
}

pub open spec fn spec_current_rule(address: u32, access_len: usize, mask: Option<u32>) -> NativeCreditProjectionRule {
    spec_rule(address, access_len, None, mask, NativeCreditProjectionBucket::Current)
}

/// A rule covers the stores it was made for, from any segment: a rule made
/// for an address, a width and a writer matches a store of that width to
/// any address with the same physical address, by any writer with the same
/// physical address; a rule made with no writer matches every writer, and
/// none with no writer given when it names one. A store of another width,
/// or to another physical address, is never covered.
pub proof fn law_rule_matches_its_stores(
    address: u32,
    access_len: usize,
    pc: Option<u32>,
    mask: Option<u32>,
    bucket: NativeCreditProjectionBucket,
    store_address: u32,
    store_len: usize,
    store_pc: Option<u32>,
)
    ensures
        ({
            let rule = spec_rule(address, access_len, pc, mask, bucket);
            &&& spec_physical(store_address) == spec_physical(address) && store_len == access_len
                && (pc is None || (store_pc is Some && spec_physical(store_pc->0) == spec_physical(
                pc->0))) ==> rule.spec_matches(store_address, store_len, store_pc)
            &&& pc is Some && store_pc is None ==> !rule.spec_matches(
                store_address,
                store_len,
                store_pc,
            )
            &&& store_len != access_len ==> !rule.spec_matches(store_address, store_len, store_pc)
            &&& spec_physical(store_address) != spec_physical(address) ==> !rule.spec_matches(
                store_address,
                store_len,
                store_pc,
            )
        }),
{
}

/// Copies of the input word the game keeps in the scratchpad.
pub open spec fn spec_copy_rules(mask: Option<u32>) -> Seq<NativeCreditProjectionRule> {
    seq![
        spec_current_rule(0x1f80_007c, 4, mask),
        spec_current_rule(0x1f80_007c, 2, mask),
        spec_current_rule(0x1f80_007e, 2, mask),
        spec_current_rule(0x1f80_0080, 4, mask),
    ]
}

/// Further scratchpad words the game reads its input from.
pub open spec fn spec_watch_rules(mask: Option<u32>) -> Seq<NativeCreditProjectionRule> {
    seq![
        spec_current_rule(0x1f80_0078, 4, mask),
        spec_current_rule(0x1f80_0078, 1, mask),
        spec_current_rule(0x1f80_0079, 1, mask),
        spec_current_rule(0x1f80_009e, 2, mask),
        spec_current_rule(0x1f80_00b8, 4, mask),
        spec_current_rule(0x1f80_00ce, 2, mask),
    ]
}

pub fn append_native_credit_copy_projection_rules(
    rules: &mut Vec<NativeCreditProjectionRule>,
    mask: Option<u32>,
)
    ensures
        final(rules)@ == old(rules)@ + spec_copy_rules(mask),
{
    let ghost before = rules@;
    let bucket = NativeCreditProjectionBucket::Current;
    rules.push(NativeCreditProjectionRule::new(0x1f80_007c, 4, None, mask, bucket));
    rules.push(NativeCreditProjectionRule::new(0x1f80_007c, 2, None, mask, bucket));
    rules.push(NativeCreditProjectionRule::new(0x1f80_007e, 2, None, mask, bucket));
    rules.push(NativeCreditProjectionRule::new(0x1f80_0080, 4, None, mask, bucket));
    assert(rules@ =~= before + spec_copy_rules(mask));
}

pub fn append_native_credit_watch_projection_rules(
    rules: &mut Vec<NativeCreditProjectionRule>,
    mask: Option<u32>,
)
    ensures
        final(rules)@ == old(rules)@ + spec_watch_rules(mask),
{
    let ghost before = rules@;
    let bucket = NativeCreditProjectionBucket::Current;
    rules.push(NativeCreditProjectionRule::new(0x1f80_0078, 4, None, mask, bucket));
    rules.push(NativeCreditProjectionRule::new(0x1f80_0078, 1, None, mask, bucket));
    rules.push(NativeCreditProjectionRule::new(0x1f80_0079, 1, None, mask, bucket));
    rules.push(NativeCreditProjectionRule::new(0x1f80_009e, 2, None, mask, bucket));
    rules.push(NativeCreditProjectionRule::new(0x1f80_00b8, 4, None, mask, bucket));
    rules.push(NativeCreditProjectionRule::new(0x1f80_00ce, 2, None, mask, bucket));
    assert(rules@ =~= before + spec_watch_rules(mask));
}

/// Position of the first `c` in `s[from..]`.
pub open spec fn spec_find_char(s: Seq<char>, c: char, from: int) -> Option<int>
    decreases s.len() - from,
{
    if from < 0 || from >= s.len() {
        None
    } else if s[from] == c {
        Some(from)
    } else {
        spec_find_char(s, c, from + 1)
    }
}

/// `str::split_once` on a character.
pub open spec fn spec_split_once(s: Seq<char>, c: char) -> Option<(Seq<char>, Seq<char>)> {
    match spec_find_char(s, c, 0) {
        Some(i) => Some((s.take(i), s.skip(i + 1))),
        None => None,
    }
}

proof fn lemma_find_char_bounds(s: Seq<char>, c: char, from: int)
    ensures
        spec_find_char(s, c, from) matches Some(i) ==> from <= i < s.len() && s[i] == c,
    decreases s.len() - from,
{
    if 0 <= from < s.len() && s[from] != c {
        lemma_find_char_bounds(s, c, from + 1);
    }
}

pub fn find_char(s: &Vec<char>, c: char) -> (r: Option<usize>)
    ensures
        r matches Some(i) ==> spec_find_char(s@, c, 0) == Some(i as int) && i < s.len(),
        r is None ==> spec_find_char(s@, c, 0) is None,
{
    let mut i: usize = 0;
    while i < s.len()
        invariant
            i <= s.len(),
            spec_find_char(s@, c, 0) == spec_find_char(s@, c, i as int),
        decreases s.len() - i,
    {
        if s[i] == c {
            return Some(i);
        }
        i = i + 1;
    }
    None
}

pub fn take_chars(s: &Vec<char>, n: usize) -> (r: Vec<char>)
    requires
        n <= s.len(),
    ensures
        r@ == s@.take(n as int),
{
    let mut r = Vec::new();
    let mut i: usize = 0;
    while i < n
        invariant
            i <= n <= s.len(),
            r@ == s@.take(i as int),
        decreases n - i,
    {
        r.push(s[i]);
        i = i + 1;
    }
    r
}

pub fn skip_chars(s: &Vec<char>, n: usize) -> (r: Vec<char>)
    requires
        n <= s.len(),
    ensures
        r@ == s@.skip(n as int),
{
    let mut r = Vec::new();
    let mut i: usize = n;
    while i < s.len()
        invariant
            n <= i <= s.len(),
            r@ == s@.subrange(n as int, i as int),
        decreases s.len() - i,
    {
        r.push(s[i]);
        i = i + 1;
    }
    r
}

/// `token` split at its first `=`: the target and its nonzero mask.
pub open spec fn spec_token_mask(token: Seq<char>) -> Option<(Seq<char>, Option<u32>)> {
    match spec_split_once(token, '=') {
        None => Some((token, None)),
        Some((target, mask)) => match spec_parse_u32_value(mask) {
            None => None,
            Some(m) => if m == 0 { None } else { Some((target, Some(m))) },
        },
    }
}

/// `address[/len]` with a width of 1, 2 or 4 bytes (4 when omitted).
pub open spec fn spec_address_target(target: Seq<char>) -> Option<(u32, usize)> {
    let (address, len) = match spec_split_once(target, '/') {
        Some(pair) => pair,
        None => (target, "4"@),
    };
    match (spec_parse_u32_value(address), spec_parse_unsigned(len, 10, usize::MAX as nat)) {
        (Some(a), Some(l)) => if l == 1 || l == 2 || l == 4 {
            Some((a, l as usize))
        } else {
            None
        },
        _ => None,
    }
}

/// The rules one projection target adds.
pub open spec fn spec_target_rules(target: Seq<char>, mask: Option<u32>) -> Option<
    Seq<NativeCreditProjectionRule>,
> {
    let n = spec_normalized(target, false);
    if n == ""@ || n == "auto"@ || n == "default"@ || n == "inputedge"@ {
        Some(with_mask(spec_default_rules(), mask))
    } else if n == "current"@ || n == "input"@ || n == "word"@ || n == "inputword"@ {
        Some(
            seq![
                spec_rule(
                    BR2_INPUT_SCRATCHPAD_WORD,
                    4,
                    Some(BR2_INPUT_SCRATCHPAD_WRITE_PC_PHYSICAL),
                    mask,
                    NativeCreditProjectionBucket::Current,
                ),
            ],
        )
    } else if n == "previous"@ || n == "prev"@ || n == "last"@ {
        Some(seq![spec_current_rule(BR2_INPUT_SCRATCHPAD_PREVIOUS_WORD, 4, mask)])
    } else if n == "edge"@ {
        Some(
            seq![
                spec_rule(
                    BR2_INPUT_SCRATCHPAD_EDGE_WORD,
                    4,
                    Some(BR2_INPUT_SCRATCHPAD_EDGE_WRITE_PC_PHYSICAL),
                    mask,
                    NativeCreditProjectionBucket::Edge,
                ),
            ],
        )
    } else if n == "edgemirror"@ || n == "mirror"@ {
        Some(
            seq![
                spec_rule(
                    BR2_INPUT_SCRATCHPAD_EDGE_MIRROR_WORD,
                    4,
                    Some(BR2_INPUT_SCRATCHPAD_EDGE_MIRROR_WRITE_PC_PHYSICAL),
                    mask,
                    NativeCreditProjectionBucket::Edge,
                ),
            ],
        )
    } else if n == "copies"@ || n == "copy"@ || n == "mirrors"@ {
        Some(spec_copy_rules(mask))
    } else if n == "wide"@ || n == "all"@ {
        Some(
            with_mask(spec_default_rules(), mask) + seq![
                spec_current_rule(BR2_INPUT_SCRATCHPAD_PREVIOUS_WORD, 4, mask),
            ] + spec_copy_rules(mask) + spec_watch_rules(mask),
        )
    } else {
        match spec_address_target(target) {
            Some((address, access_len)) => Some(seq![spec_current_rule(address, access_len, mask)]),
            None => None,
        }
    }
}

/// Rules added by one separator-free token.
pub open spec fn spec_token_rules(token: Seq<char>) -> Option<Seq<NativeCreditProjectionRule>> {
    match spec_token_mask(spec_trim(token)) {
        None => None,
        Some((target, mask)) => spec_target_rules(target, mask),
    }
}

pub open spec fn spec_is_separator(c: char) -> bool {
    c == ',' || c == ';' || spec_is_whitespace(c)
}

/// Tokens completed so far, and the token being read.
pub open spec fn spec_split_state(s: Seq<char>) -> (Seq<Seq<char>>, Seq<char>)
    decreases s.len(),
{
    if s.len() == 0 {
        (seq![], seq![])
    } else {
        let (done, cur) = spec_split_state(s.drop_last());
        let c = s.last();
        if spec_is_separator(c) {
            if cur.len() > 0 {
                (done.push(cur), seq![])
            } else {
                (done, seq![])
            }
        } else {
            (done, cur.push(c))
        }
    }
}

/// The nonempty pieces between separators.
pub open spec fn spec_tokens(s: Seq<char>) -> Seq<Seq<char>> {
    let (done, cur) = spec_split_state(s);
    if cur.len() > 0 {
        done.push(cur)
    } else {
        done
    }
}

/// All rules of a token list, or `None` when a token is not understood.
pub open spec fn spec_rules_from_tokens(tokens: Seq<Seq<char>>) -> Option<
    Seq<NativeCreditProjectionRule>,
>
    decreases tokens.len(),
{
    if tokens.len() == 0 {
        Some(seq![])
    } else {
        match (spec_rules_from_tokens(tokens.drop_last()), spec_token_rules(tokens.last())) {
            (Some(a), Some(b)) => Some(a + b),
            _ => None,
        }
    }
}

/// The rule list selected by an option value.
pub open spec fn spec_parse_projection_rules(value: Seq<char>) -> Option<
    Seq<NativeCreditProjectionRule>,
> {
    let t = spec_trim(value);
    if t.len() == 0 || spec_ascii_lowercase(t) == "auto"@ {
        Some(spec_default_rules())
    } else if spec_ascii_lowercase(t) == "none"@ || spec_ascii_lowercase(t) == "off"@ {
        Some(seq![])
    } else {
        spec_rules_from_tokens(spec_tokens(t))
    }
}

pub fn parse_native_credit_projection_token_mask(token: &Vec<char>) -> (r: Option<
    (Vec<char>, Option<u32>),
>)
    ensures
        r matches Some((t, m)) ==> spec_token_mask(token@) == Some((t@, m)),
        r is None ==> spec_token_mask(token@) is None,
{
    let split = find_char(token, '=');
    match split {
        None => Some((token.clone(), None)),
        Some(i) => {
            let target = take_chars(token, i);
            let mask_chars = skip_chars(token, i + 1);
            match parse_u32_value_chars(&mask_chars) {
                None => None,
                Some(m) => if m == 0 {
                    None
                } else {
                    Some((target, Some(m)))
                },
            }
        },
    }
}

pub fn parse_native_credit_projection_address_target(target: &Vec<char>) -> (r: Option<
    (u32, usize),
>)
    ensures
        r == spec_address_target(target@),
{
    let (address, len) = match find_char(target, '/') {
        Some(i) => (take_chars(target, i), skip_chars(target, i + 1)),
        None => (target.clone(), chars_of("4")),
    };
    let parsed_address = parse_u32_value_chars(&address);
    let parsed_len = parse_unsigned(len.as_slice(), 10, usize::MAX as u64);
    match (parsed_address, parsed_len) {
        (Some(a), Some(l)) => if l == 1 || l == 2 || l == 4 {
            Some((a, l as usize))
        } else {
            None
        },
        _ => None,
    }
}


pub open spec fn is_prefix<T>(a: Seq<T>, b: Seq<T>) -> bool {
    a.len() <= b.len() && forall|i: int| 0 <= i < a.len() ==> a[i] == b[i]
}

proof fn lemma_split_state_prefix(s: Seq<char>, k: int, j: int)
    requires
        0 <= k <= j <= s.len(),
    ensures
        is_prefix(spec_split_state(s.take(k)).0, spec_split_state(s.take(j)).0),
    decreases j - k,
{
    if k < j {
        lemma_split_state_prefix(s, k, j - 1);
        assert(s.take(j).drop_last() == s.take(j - 1));
        let a = spec_split_state(s.take(k)).0;
        let b = spec_split_state(s.take(j - 1)).0;
        let c = spec_split_state(s.take(j)).0;
        assert(is_prefix(b, c));
        assert forall|i: int| 0 <= i < a.len() implies a[i] == c[i] by {
            assert(a[i] == b[i]);
            assert(b[i] == c[i]);
        }
    }
}

proof fn lemma_rules_none_prefix(a: Seq<Seq<char>>, b: Seq<Seq<char>>)
    requires
        is_prefix(a, b),
        spec_rules_from_tokens(a) is None,
    ensures
        spec_rules_from_tokens(b) is None,
    decreases b.len(),
{
    if b.len() > a.len() {
        let c = b.drop_last();
        assert(is_prefix(a, c));
        lemma_rules_none_prefix(a, c);
    } else {
        assert(a =~= b);
    }
}

proof fn lemma_rules_from_tokens_none_extends(done: Seq<Seq<char>>, ts: Seq<char>, j: int)
    requires
        0 <= j <= ts.len(),
        done == spec_split_state(ts.take(j)).0,
        spec_rules_from_tokens(done) is None,
    ensures
        spec_rules_from_tokens(spec_tokens(ts)) is None,
{
    lemma_split_state_prefix(ts, j, ts.len() as int);
    assert(ts.take(ts.len() as int) == ts);
    let full = spec_split_state(ts).0;
    let toks = spec_tokens(ts);
    assert(is_prefix(full, toks));
    assert(is_prefix(done, toks)) by {
        assert forall|i: int| 0 <= i < done.len() implies done[i] == toks[i] by {
            assert(done[i] == full[i]);
        }
    }
    lemma_rules_none_prefix(done, toks);
}

/// Appends the rules of one projection target; on `None` nothing is added.
pub fn append_native_credit_projection_target_rules(
    rules: &mut Vec<NativeCreditProjectionRule>,
    target: &Vec<char>,
    mask: Option<u32>,
) -> (r: Option<()>)
    ensures
        match spec_target_rules(target@, mask) {
            Some(added) => r is Some && final(rules)@ == old(rules)@ + added,
            None => r is None && final(rules)@ == old(rules)@,
        },
{
    let ghost before = rules@;
    let n = normalized_chars(target, false);
    if eq_lit(&n, "") || eq_lit(&n, "auto") || eq_lit(&n, "default") || eq_lit(&n, "inputedge") {
        rules.push(
            NativeCreditProjectionRule::new(
                BR2_INPUT_SCRATCHPAD_WORD,
                4,
                Some(BR2_INPUT_SCRATCHPAD_WRITE_PC_PHYSICAL),
                mask,
                NativeCreditProjectionBucket::Current,
            ),
        );
        rules.push(
            NativeCreditProjectionRule::new(
                BR2_INPUT_SCRATCHPAD_EDGE_WORD,
                4,
                Some(BR2_INPUT_SCRATCHPAD_EDGE_WRITE_PC_PHYSICAL),
                mask,
                NativeCreditProjectionBucket::Edge,
            ),
        );
        rules.push(
            NativeCreditProjectionRule::new(
                BR2_INPUT_SCRATCHPAD_EDGE_MIRROR_WORD,
                4,
                Some(BR2_INPUT_SCRATCHPAD_EDGE_MIRROR_WRITE_PC_PHYSICAL),
                mask,
                NativeCreditProjectionBucket::Edge,
            ),
        );
        assert(rules@ =~= before + with_mask(spec_default_rules(), mask));
    } else if eq_lit(&n, "current") || eq_lit(&n, "input") || eq_lit(&n, "word") || eq_lit(
        &n,
        "inputword",
    ) {
        rules.push(
            NativeCreditProjectionRule::new(
                BR2_INPUT_SCRATCHPAD_WORD,
                4,
                Some(BR2_INPUT_SCRATCHPAD_WRITE_PC_PHYSICAL),
                mask,
                NativeCreditProjectionBucket::Current,
            ),
        );
        assert(rules@ =~= before + seq![
            spec_rule(
                BR2_INPUT_SCRATCHPAD_WORD,
                4,
                Some(BR2_INPUT_SCRATCHPAD_WRITE_PC_PHYSICAL),
                mask,
                NativeCreditProjectionBucket::Current,
            ),
        ]);
    } else if eq_lit(&n, "previous") || eq_lit(&n, "prev") || eq_lit(&n, "last") {
        rules.push(
            NativeCreditProjectionRule::new(
                BR2_INPUT_SCRATCHPAD_PREVIOUS_WORD,
                4,
                None,
                mask,
                NativeCreditProjectionBucket::Current,
            ),
        );
        assert(rules@ =~= before + seq![
            spec_current_rule(BR2_INPUT_SCRATCHPAD_PREVIOUS_WORD, 4, mask),
        ]);
    } else if eq_lit(&n, "edge") {
        rules.push(
            NativeCreditProjectionRule::new(
                BR2_INPUT_SCRATCHPAD_EDGE_WORD,
                4,
                Some(BR2_INPUT_SCRATCHPAD_EDGE_WRITE_PC_PHYSICAL),
                mask,
                NativeCreditProjectionBucket::Edge,
            ),
        );
        assert(rules@ =~= before + seq![
            spec_rule(
                BR2_INPUT_SCRATCHPAD_EDGE_WORD,
                4,
                Some(BR2_INPUT_SCRATCHPAD_EDGE_WRITE_PC_PHYSICAL),
                mask,
                NativeCreditProjectionBucket::Edge,
            ),
        ]);
    } else if eq_lit(&n, "edgemirror") || eq_lit(&n, "mirror") {
        rules.push(
            NativeCreditProjectionRule::new(
                BR2_INPUT_SCRATCHPAD_EDGE_MIRROR_WORD,
                4,
                Some(BR2_INPUT_SCRATCHPAD_EDGE_MIRROR_WRITE_PC_PHYSICAL),
                mask,
                NativeCreditProjectionBucket::Edge,
            ),
        );
        assert(rules@ =~= before + seq![
            spec_rule(
                BR2_INPUT_SCRATCHPAD_EDGE_MIRROR_WORD,
                4,
                Some(BR2_INPUT_SCRATCHPAD_EDGE_MIRROR_WRITE_PC_PHYSICAL),
                mask,
                NativeCreditProjectionBucket::Edge,
            ),
        ]);
    } else if eq_lit(&n, "copies") || eq_lit(&n, "copy") || eq_lit(&n, "mirrors") {
        append_native_credit_copy_projection_rules(rules, mask);
    } else if eq_lit(&n, "wide") || eq_lit(&n, "all") {
        rules.push(
            NativeCreditProjectionRule::new(
                BR2_INPUT_SCRATCHPAD_WORD,
                4,
                Some(BR2_INPUT_SCRATCHPAD_WRITE_PC_PHYSICAL),
                mask,
                NativeCreditProjectionBucket::Current,
            ),
        );
        rules.push(
            NativeCreditProjectionRule::new(
                BR2_INPUT_SCRATCHPAD_EDGE_WORD,
                4,
                Some(BR2_INPUT_SCRATCHPAD_EDGE_WRITE_PC_PHYSICAL),
                mask,
                NativeCreditProjectionBucket::Edge,
            ),
        );
        rules.push(
            NativeCreditProjectionRule::new(
                BR2_INPUT_SCRATCHPAD_EDGE_MIRROR_WORD,
                4,
                Some(BR2_INPUT_SCRATCHPAD_EDGE_MIRROR_WRITE_PC_PHYSICAL),
                mask,
                NativeCreditProjectionBucket::Edge,
            ),
        );
        rules.push(
            NativeCreditProjectionRule::new(
                BR2_INPUT_SCRATCHPAD_PREVIOUS_WORD,
                4,
                None,
                mask,
                NativeCreditProjectionBucket::Current,
            ),
        );
        let ghost mid = rules@;
        assert(mid =~= before + with_mask(spec_default_rules(), mask) + seq![
            spec_current_rule(BR2_INPUT_SCRATCHPAD_PREVIOUS_WORD, 4, mask),
        ]);
        append_native_credit_copy_projection_rules(rules, mask);
        append_native_credit_watch_projection_rules(rules, mask);
        assert(rules@ =~= before + (with_mask(spec_default_rules(), mask) + seq![
            spec_current_rule(BR2_INPUT_SCRATCHPAD_PREVIOUS_WORD, 4, mask),
        ] + spec_copy_rules(mask) + spec_watch_rules(mask)));
    } else {
        let (address, access_len) = match parse_native_credit_projection_address_target(target) {
            Some(t) => t,
            None => return None,
        };
        rules.push(
            NativeCreditProjectionRule::new(
                address,
                access_len,
                None,
                mask,
                NativeCreditProjectionBucket::Current,
            ),
        );
        assert(rules@ =~= before + seq![spec_current_rule(address, access_len, mask)]);
    }
    Some(())
}

/// Whether `c` separates projection tokens.
pub fn is_projection_separator(c: char) -> (r: bool)
    ensures
        r == spec_is_separator(c),
{
    c == ',' || c == ';' || is_whitespace(c)
}

/// Appends the rules of one token; `None` when the token is not understood.
pub fn append_token_rules(rules: &mut Vec<NativeCreditProjectionRule>, token: &Vec<char>) -> (r:
    Option<()>)
    ensures
        match spec_token_rules(token@) {
            Some(added) => r is Some && final(rules)@ == old(rules)@ + added,
            None => r is None,
        },
{
    let trimmed = trim_chars(token);
    match parse_native_credit_projection_token_mask(&trimmed) {
        None => None,
        Some((target, mask)) => append_native_credit_projection_target_rules(rules, &target, mask),
    }
}

/// The rule list selected by an option value: `auto` or empty for the
/// defaults, `none`/`off` for no rules, otherwise tokens separated by `,`,
/// `;` or white space, each a target with an optional `=mask`.
pub fn parse_native_credit_projection_rules(value: &str) -> (r: Option<
    Vec<NativeCreditProjectionRule>,
>)
    ensures
        r matches Some(v) ==> spec_parse_projection_rules(value@) == Some(v@),
        r is None ==> spec_parse_projection_rules(value@) is None,
{
    let all = chars_of(value);
    let t = trim_chars(&all);
    let l = lowercase_chars(&t);
    if t.len() == 0 || eq_lit(&l, "auto") {
        return Some(native_credit_default_projection_rules());
    }
    if eq_lit(&l, "none") || eq_lit(&l, "off") {
        return Some(Vec::new());
    }
    let ghost ts = t@;
    let mut rules: Vec<NativeCreditProjectionRule> = Vec::new();
    let mut cur: Vec<char> = Vec::new();
    let ghost mut done: Seq<Seq<char>> = seq![];
    let mut i: usize = 0;
    while i < t.len()
        invariant
            i <= t.len(),
            ts == t@,
            ts == spec_trim(value@),
            ts.len() > 0,
            spec_ascii_lowercase(ts) != "auto"@,
            spec_ascii_lowercase(ts) != "none"@,
            spec_ascii_lowercase(ts) != "off"@,
            spec_split_state(ts.take(i as int)) == (done, cur@),
            spec_rules_from_tokens(done) == Some(rules@),
        decreases t.len() - i,
    {
        let c = t[i];
        assert(ts.take(i as int + 1).drop_last() == ts.take(i as int));
        assert(ts.take(i as int + 1).last() == c);
        if is_projection_separator(c) {
            if cur.len() > 0 {
                let ghost prior = rules@;
                match append_token_rules(&mut rules, &cur) {
                    Some(()) => {},
                    None => {
                        proof {
                            assert(done.push(cur@).drop_last() == done);
                            assert(spec_split_state(ts.take(i as int + 1)).0 == done.push(cur@));
                            lemma_rules_from_tokens_none_extends(done.push(cur@), ts, i as int + 1);
                        }
                        return None;
                    },
                }
                proof {
                    assert(done.push(cur@).drop_last() == done);
                    done = done.push(cur@);
                }
                cur = Vec::new();
            }
        } else {
            cur.push(c);
        }
        i = i + 1;
    }
    assert(ts.take(t.len() as int) == ts);
    if cur.len() > 0 {
        match append_token_rules(&mut rules, &cur) {
            Some(()) => {},
            None => {
                assert(done.push(cur@).drop_last() == done);
                return None;
            },
        }
        assert(done.push(cur@).drop_last() == done);
    }
    Some(rules)
}

} // verus!
