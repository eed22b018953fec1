//! Building blocks for the diagnostic JSON documents.
use vstd::prelude::*;

verus! {

broadcast use vstd::string::group_string_axioms;

/// The lower-case hexadecimal digit for `d < 16`.
pub open spec fn digit_char(d: nat) -> char {
    if d < 10 {
        (('0' as u32) + d) as char
    } else {
        (('a' as u32) + d - 10) as char
    }
}

/// Decimal representation without leading zeros.
pub open spec fn dec(n: nat) -> Seq<char>
    decreases n,
{
    if n < 10 {
        seq![digit_char(n)]
    } else {
        dec(n / 10).push(digit_char(n % 10))
    }
}

/// Lower-case hexadecimal representation, zero-padded to `width` digits.
pub open spec fn hex(n: nat, width: nat) -> Seq<char>
    decreases n, width,
{
    if n < 16 && width <= 1 {
        seq![digit_char(n)]
    } else {
        hex(n / 16, if width > 0 { (width - 1) as nat } else { 0 }).push(digit_char(n % 16))
    }
}

/// Appends one digit (`d < 16`).
pub fn push_digit(out: &mut String, d: u64)
    requires
        d < 16,
    ensures
        final(out)@ == old(out)@.push(digit_char(d as nat)),
{
    let s: &str = if d == 0 {
        "0"
    } else if d == 1 {
        "1"
    } else if d == 2 {
        "2"
    } else if d == 3 {
        "3"
    } else if d == 4 {
        "4"
    } else if d == 5 {
        "5"
    } else if d == 6 {
        "6"
    } else if d == 7 {
        "7"
    } else if d == 8 {
        "8"
    } else if d == 9 {
        "9"
    } else if d == 10 {
        "a"
    } else if d == 11 {
        "b"
    } else if d == 12 {
        "c"
    } else if d == 13 {
        "d"
    } else if d == 14 {
        "e"
    } else {
        "f"
    };
    proof {
        reveal_strlit("0");
        reveal_strlit("1");
        reveal_strlit("2");
        reveal_strlit("3");
        reveal_strlit("4");
        reveal_strlit("5");
        reveal_strlit("6");
        reveal_strlit("7");
        reveal_strlit("8");
        reveal_strlit("9");
        reveal_strlit("a");
        reveal_strlit("b");
        reveal_strlit("c");
        reveal_strlit("d");
        reveal_strlit("e");
        reveal_strlit("f");
        assert(s@ == seq![digit_char(d as nat)]);
    }
    out.append(s);
}

/// Appends the decimal representation of `n`.
pub fn push_dec(out: &mut String, n: u64)
    ensures
        final(out)@ == old(out)@ + dec(n as nat),
    decreases n,
{
    if n >= 10 {
        push_dec(out, n / 10);
    }
    push_digit(out, n % 10);
}

/// Appends the zero-padded hexadecimal representation of `n`.
pub fn push_hex(out: &mut String, n: u64, width: u64)
    ensures
        final(out)@ == old(out)@ + hex(n as nat, width as nat),
    decreases n, width,
{
    if !(n < 16 && width <= 1) {
        push_hex(out, n / 16, if width > 0 { width - 1 } else { 0 });
    }
    push_digit(out, n % 16);
}

pub open spec fn bool_text(b: bool) -> Seq<char> {
    if b { "true"@ } else { "false"@ }
}

pub fn push_bool(out: &mut String, b: bool)
    ensures
        final(out)@ == old(out)@ + bool_text(b),
{
    if b {
        out.append("true");
    } else {
        out.append("false");
    }
}

/// `null`, or the decimal value.
pub open spec fn opt_dec(v: Option<u64>) -> Seq<char> {
    match v {
        Some(n) => dec(n as nat),
        None => "null"@,
    }
}

pub fn push_opt_dec(out: &mut String, v: Option<u64>)
    ensures
        final(out)@ == old(out)@ + opt_dec(v),
{
    match v {
        Some(n) => push_dec(out, n),
        None => out.append("null"),
    }
}

/// `null`, or the value as a quoted `0x`-prefixed 8-digit hex string.
pub open spec fn opt_hex32(v: Option<u32>) -> Seq<char> {
    match v {
        Some(n) => "\"0x"@ + hex(n as nat, 8) + "\""@,
        None => "null"@,
    }
}

pub fn push_opt_hex32(out: &mut String, v: Option<u32>)
    ensures
        final(out)@ == old(out)@ + opt_hex32(v),
{
    match v {
        Some(n) => {
            out.append("\"0x");
            push_hex(out, n as u64, 8);
            out.append("\"");
        },
        None => out.append("null"),
    }
}

pub open spec fn opt_u32_dec(v: Option<u32>) -> Seq<char> {
    match v {
        Some(n) => dec(n as nat),
        None => "null"@,
    }
}

pub fn push_opt_u32_dec(out: &mut String, v: Option<u32>)
    ensures
        final(out)@ == old(out)@ + opt_u32_dec(v),
{
    match v {
        Some(n) => push_dec(out, n as u64),
        None => out.append("null"),
    }
}

/// `null`, or the value as a quoted `0x`-prefixed hex string of at least
/// eight digits.
pub open spec fn opt_hex64(v: Option<u64>) -> Seq<char> {
    match v {
        Some(n) => "\"0x"@ + hex(n as nat, 8) + "\""@,
        None => "null"@,
    }
}

pub fn push_opt_hex64(out: &mut String, v: Option<u64>)
    ensures
        final(out)@ == old(out)@ + opt_hex64(v),
{
    match v {
        Some(n) => {
            out.append("\"0x");
            push_hex(out, n, 8);
            out.append("\"");
        },
        None => out.append("null"),
    }
}

pub open spec fn widen_u16(v: Option<u16>) -> Option<u32> {
    match v {
        Some(x) => Some(x as u32),
        None => None,
    }
}

pub fn opt_u16_to_u32(v: Option<u16>) -> (r: Option<u32>)
    ensures
        r == widen_u16(v),
{
    match v {
        Some(x) => Some(x as u32),
        None => None,
    }
}

pub open spec fn widen_u8(v: Option<u8>) -> Option<u32> {
    match v {
        Some(x) => Some(x as u32),
        None => None,
    }
}

pub fn opt_u8_to_u32(v: Option<u8>) -> (r: Option<u32>)
    ensures
        r == widen_u8(v),
{
    match v {
        Some(x) => Some(x as u32),
        None => None,
    }
}

pub open spec fn widen_usize(v: Option<usize>) -> Option<u64> {
    match v {
        Some(x) => Some(x as u64),
        None => None,
    }
}

pub fn opt_usize_to_u64(v: Option<usize>) -> (r: Option<u64>)
    ensures
        r == widen_usize(v),
{
    match v {
        Some(x) => Some(x as u64),
        None => None,
    }
}

/// The parts separated by commas.
pub open spec fn join_commas(parts: Seq<Seq<char>>) -> Seq<char>
    decreases parts.len(),
{
    if parts.len() == 0 {
        Seq::empty()
    } else if parts.len() == 1 {
        parts[0]
    } else {
        join_commas(parts.drop_last()) + ","@ + parts.last()
    }
}

/// Joining one more part appends a comma (unless it is the first) and the part.
pub proof fn lemma_join_commas_push(parts: Seq<Seq<char>>, part: Seq<char>)
    ensures
        join_commas(parts.push(part)) == join_commas(parts) + (if parts.len() == 0 {
            Seq::<char>::empty()
        } else {
            ","@
        }) + part,
{
    assert(parts.push(part).drop_last() =~= parts);
    if parts.len() == 0 {
        assert(join_commas(parts) + Seq::<char>::empty() + part =~= part);
    }
}

/// Appends `part` to a comma-joined list of `count` parts so far.
pub fn push_joined(out: &mut String, count: usize, part: &str)
    ensures
        final(out)@ == old(out)@ + (if count == 0 {
            Seq::<char>::empty()
        } else {
            ","@
        }) + part@,
{
    if count > 0 {
        out.append(",");
    }
    out.append(part);
    proof {
        if count == 0 {
            assert(old(out)@ + Seq::<char>::empty() + part@ =~= old(out)@ + part@);
        }
    }
}

} // verus!
