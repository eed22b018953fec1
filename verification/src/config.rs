//! Option values read from the environment: numbers, switches and modes.
use vstd::prelude::*;
use crate::text::{
    chars_of, eq_lit, ascii_lower, parse_unsigned, spec_ascii_lower, spec_ascii_lowercase,
    spec_parse_unsigned, spec_trim, trim_chars,
};

verus! {

broadcast use vstd::string::group_string_axioms;

/// A decimal or `0x`/`0X`-prefixed hexadecimal `u32`, surrounded by any
/// white space.
pub open spec fn spec_parse_u32_value(s: Seq<char>) -> Option<u32> {
    let t = spec_trim(s);
    if t.len() == 0 {
        None
    } else {
        let parsed = if t.len() >= 2 && t[0] == '0' && (t[1] == 'x' || t[1] == 'X') {
            spec_parse_unsigned(t.skip(2), 16, u32::MAX as nat)
        } else {
            spec_parse_unsigned(t, 10, u32::MAX as nat)
        };
        match parsed {
            Some(v) => Some(v as u32),
            None => None,
        }
    }
}

pub fn parse_u32_value_chars(all: &Vec<char>) -> (r: Option<u32>)
    ensures
        r == spec_parse_u32_value(all@),
{
    let t = trim_chars(all);
    if t.len() == 0 {
        return None;
    }
    let parsed = if t.len() >= 2 && t[0] == '0' && (t[1] == 'x' || t[1] == 'X') {
        let hex = vstd::slice::slice_subrange(t.as_slice(), 2, t.len());
        assert(hex@ == t@.skip(2));
        parse_unsigned(hex, 16, u32::MAX as u64)
    } else {
        parse_unsigned(t.as_slice(), 10, u32::MAX as u64)
    };
    match parsed {
        Some(v) => Some(v as u32),
        None => None,
    }
}

pub fn parse_native_u32_env_value(value: &str) -> (r: Option<u32>)
    ensures
        r == spec_parse_u32_value(value@),
{
    let all = chars_of(value);
    parse_u32_value_chars(&all)
}

/// Case-insensitive spellings that switch a periodic feature off.
pub open spec fn spec_is_off_word(t: Seq<char>) -> bool {
    let l = spec_ascii_lowercase(t);
    l == "off"@ || l == "false"@ || l == "disable"@ || l == "disabled"@ || l == "none"@ || t
        == "0"@
}

/// The replay interval override: `Some(None)` switches replay off,
/// `Some(Some(n))` replays every `n` vblanks, `None` is not a value.
pub open spec fn spec_replay_interval_override(s: Seq<char>) -> Option<Option<u64>> {
    let t = spec_trim(s);
    if spec_is_off_word(t) {
        Some(None)
    } else {
        match spec_parse_unsigned(t, 10, u64::MAX as nat) {
            Some(n) => if n == 0 { Some(None) } else { Some(Some(n as u64)) },
            None => None,
        }
    }
}

pub fn lowercase_chars(v: &Vec<char>) -> (r: Vec<char>)
    ensures
        r@ == spec_ascii_lowercase(v@),
{
    let mut r: Vec<char> = Vec::new();
    let mut i: usize = 0;
    while i < v.len()
        invariant
            i <= v.len(),
            r@ == spec_ascii_lowercase(v@.take(i as int)),
        decreases v.len() - i,
    {
        r.push(ascii_lower(v[i]));
        i = i + 1;
        assert(spec_ascii_lowercase(v@.take(i as int)) == spec_ascii_lowercase(
            v@.take(i as int - 1),
        ).push(spec_ascii_lower(v@[i as int - 1])));
    }
    assert(v@.take(v.len() as int) == v@);
    r
}

pub fn parse_native_unlinked_primitive_replay_interval_override(value: &str) -> (r: Option<
    Option<u64>,
>)
    ensures
        r == spec_replay_interval_override(value@),
{
    let all = chars_of(value);
    let t = trim_chars(&all);
    let l = lowercase_chars(&t);
    if eq_lit(&l, "off") || eq_lit(&l, "false") || eq_lit(&l, "disable") || eq_lit(&l, "disabled")
        || eq_lit(&l, "none") || eq_lit(&t, "0") {
        return Some(None);
    }
    match parse_unsigned(t.as_slice(), 10, u64::MAX) {
        Some(n) => if n == 0 { Some(None) } else { Some(Some(n)) },
        None => None,
    }
}

/// Spellings that select a blank (all `0xff`) AT28C16 EEPROM.
pub open spec fn spec_at28c16_mode_is_blank(s: Seq<char>) -> bool {
    let l = spec_ascii_lowercase(spec_trim(s));
    ||| l == "blank"@
    ||| l == "default"@
    ||| l == "empty"@
    ||| l == "erase"@
    ||| l == "erased"@
    ||| l == "ff"@
    ||| l == "ignore"@
    ||| l == "none"@
}

pub fn native_at28c16_mode_is_blank(value: &str) -> (r: bool)
    ensures
        r == spec_at28c16_mode_is_blank(value@),
{
    let all = chars_of(value);
    let t = trim_chars(&all);
    let l = lowercase_chars(&t);
    eq_lit(&l, "blank") || eq_lit(&l, "default") || eq_lit(&l, "empty") || eq_lit(&l, "erase")
        || eq_lit(&l, "erased") || eq_lit(&l, "ff") || eq_lit(&l, "ignore") || eq_lit(&l, "none")
}

} // verus!
