//! Character-level helpers for the option strings the board accepts.
use vstd::prelude::*;

verus! {

broadcast use vstd::string::group_string_axioms;

/// Collects the characters of a string slice.
pub fn chars_of(s: &str) -> (v: Vec<char>)
    ensures
        v@ == s@,
{
    let mut v: Vec<char> = Vec::new();
    for c in it: s.chars()
        invariant
            v@ == it.seq().take(it.index() as int),
    {
        v.push(c);
    }
    v
}

/// Unicode `White_Space`, as `char::is_whitespace` defines it.
pub open spec fn spec_is_whitespace(c: char) -> bool {
    let u = c as u32;
    ||| 0x09 <= u <= 0x0d
    ||| u == 0x20
    ||| u == 0x85
    ||| u == 0xa0
    ||| u == 0x1680
    ||| 0x2000 <= u <= 0x200a
    ||| u == 0x2028
    ||| u == 0x2029
    ||| u == 0x202f
    ||| u == 0x205f
    ||| u == 0x3000
}

pub fn is_whitespace(c: char) -> (r: bool)
    ensures
        r == spec_is_whitespace(c),
{
    let u = c as u32;
    (0x09 <= u && u <= 0x0d) || u == 0x20 || u == 0x85 || u == 0xa0 || u == 0x1680 || (0x2000
        <= u && u <= 0x200a) || u == 0x2028 || u == 0x2029 || u == 0x202f || u == 0x205f || u
        == 0x3000
}

pub open spec fn spec_trim_start(s: Seq<char>) -> Seq<char>
    decreases s.len(),
{
    if s.len() > 0 && spec_is_whitespace(s[0]) {
        spec_trim_start(s.drop_first())
    } else {
        s
    }
}

pub open spec fn spec_trim_end(s: Seq<char>) -> Seq<char>
    decreases s.len(),
{
    if s.len() > 0 && spec_is_whitespace(s.last()) {
        spec_trim_end(s.drop_last())
    } else {
        s
    }
}

/// `str::trim`: leading and trailing white space removed.
pub open spec fn spec_trim(s: Seq<char>) -> Seq<char> {
    spec_trim_end(spec_trim_start(s))
}

proof fn lemma_trim_start_skip(s: Seq<char>, i: int)
    requires
        0 <= i <= s.len(),
        forall|k: int| 0 <= k < i ==> spec_is_whitespace(#[trigger] s[k]),
        i == s.len() || !spec_is_whitespace(s[i]),
    ensures
        spec_trim_start(s) == s.skip(i),
    decreases i,
{
    if i > 0 {
        let t = s.drop_first();
        assert forall|k: int| 0 <= k < i - 1 implies spec_is_whitespace(#[trigger] t[k]) by {
            assert(t[k] == s[k + 1]);
        }
        if i < s.len() {
            assert(t[i - 1] == s[i]);
        }
        lemma_trim_start_skip(t, i - 1);
        assert(t.skip(i - 1) == s.skip(i));
    } else {
        assert(s.skip(0) == s);
    }
}

proof fn lemma_trim_end_take(s: Seq<char>, j: int)
    requires
        0 <= j <= s.len(),
        forall|k: int| j <= k < s.len() ==> spec_is_whitespace(#[trigger] s[k]),
        j == 0 || !spec_is_whitespace(s[j - 1]),
    ensures
        spec_trim_end(s) == s.take(j),
    decreases s.len() - j,
{
    if j < s.len() {
        let t = s.drop_last();
        assert forall|k: int| j <= k < t.len() implies spec_is_whitespace(#[trigger] t[k]) by {
            assert(t[k] == s[k]);
        }
        if j > 0 {
            assert(t[j - 1] == s[j - 1]);
        }
        lemma_trim_end_take(t, j);
        assert(t.take(j) == s.take(j));
    } else {
        assert(s.take(j) == s);
    }
}

/// `str::trim` on a character vector.
pub fn trim_chars(v: &Vec<char>) -> (r: Vec<char>)
    ensures
        r@ == spec_trim(v@),
{
    let mut start: usize = 0;
    while start < v.len() && is_whitespace(v[start])
        invariant
            start <= v.len(),
            forall|k: int| 0 <= k < start ==> spec_is_whitespace(#[trigger] v@[k]),
        decreases v.len() - start,
    {
        start = start + 1;
    }
    proof {
        lemma_trim_start_skip(v@, start as int);
    }
    let ghost rest = v@.skip(start as int);
    let mut end: usize = v.len();
    while end > start && is_whitespace(v[end - 1])
        invariant
            start <= end <= v.len(),
            forall|k: int| end <= k < v.len() ==> spec_is_whitespace(#[trigger] v@[k]),
        decreases end,
    {
        end = end - 1;
    }
    proof {
        assert forall|k: int| end - start <= k < rest.len() implies spec_is_whitespace(
            #[trigger] rest[k],
        ) by {
            assert(rest[k] == v@[k + start]);
        }
        if end > start {
            assert(rest[end - start - 1] == v@[end - 1]);
        }
        lemma_trim_end_take(rest, end - start);
        assert(rest.take(end - start) == v@.subrange(start as int, end as int));
    }
    let mut r: Vec<char> = Vec::new();
    let mut i = start;
    while i < end
        invariant
            start <= i <= end <= v.len(),
            r@ == v@.subrange(start as int, i as int),
        decreases end - i,
    {
        r.push(v[i]);
        i = i + 1;
    }
    r
}

/// ASCII lower-case of one character.
pub open spec fn spec_ascii_lower(c: char) -> char {
    if 'A' <= c <= 'Z' {
        ((c as u32) + 32) as char
    } else {
        c
    }
}

pub open spec fn spec_ascii_lowercase(s: Seq<char>) -> Seq<char> {
    s.map_values(|c: char| spec_ascii_lower(c))
}

pub fn ascii_lower(c: char) -> (r: char)
    ensures
        r == spec_ascii_lower(c),
{
    if 'A' <= c && c <= 'Z' {
        ((c as u8) + 32) as char
    } else {
        c
    }
}

/// The characters of `s` that are not in the separator set `'-'`, `'_'`
/// and, when `plus` is set, `'+'`.
pub open spec fn spec_drop_separators(s: Seq<char>, plus: bool) -> Seq<char>
    decreases s.len(),
{
    if s.len() == 0 {
        s
    } else {
        let rest = spec_drop_separators(s.drop_last(), plus);
        let c = s.last();
        if c == '-' || c == '_' || (plus && c == '+') {
            rest
        } else {
            rest.push(c)
        }
    }
}

/// `trim`, then ASCII lower-case, then separators removed.
pub open spec fn spec_normalized(s: Seq<char>, plus: bool) -> Seq<char> {
    spec_drop_separators(spec_ascii_lowercase(spec_trim(s)), plus)
}

/// Normalizes an option value: trimmed, lower-cased, without `-`/`_` (and
/// `+` when `plus`).
pub fn normalized_chars(s: &Vec<char>, plus: bool) -> (r: Vec<char>)
    ensures
        r@ == spec_normalized(s@, plus),
{
    let t = trim_chars(s);
    let ghost lower = spec_ascii_lowercase(t@);
    let mut r: Vec<char> = Vec::new();
    let mut i: usize = 0;
    while i < t.len()
        invariant
            i <= t.len(),
            lower == spec_ascii_lowercase(t@),
            lower.len() == t@.len(),
            r@ == spec_drop_separators(lower.take(i as int), plus),
        decreases t.len() - i,
    {
        assert(lower.take(i as int + 1).drop_last() == lower.take(i as int));
        let c = ascii_lower(t[i]);
        assert(lower.take(i as int + 1).last() == c);
        if !(c == '-' || c == '_' || (plus && c == '+')) {
            r.push(c);
        }
        i = i + 1;
    }
    assert(lower.take(t.len() as int) == lower);
    r
}

/// Whether a character vector spells a string literal.
pub fn eq_lit(v: &Vec<char>, lit: &str) -> (r: bool)
    ensures
        r == (v@ == lit@),
{
    let l = chars_of(lit);
    if v.len() != l.len() {
        return false;
    }
    let mut i: usize = 0;
    while i < v.len()
        invariant
            i <= v.len(),
            v.len() == l.len(),
            l@ == lit@,
            forall|k: int| 0 <= k < i ==> v@[k] == l@[k],
        decreases v.len() - i,
    {
        if v[i] != l[i] {
            assert(v@[i as int] != l@[i as int]);
            assert(v@ != l@);
            return false;
        }
        i = i + 1;
    }
    assert(v@ == l@);
    true
}

/// Value of one digit in the given radix (10 or 16).
pub open spec fn spec_digit_value(c: char, radix: nat) -> Option<nat> {
    if '0' <= c <= '9' {
        if (c as u32) - ('0' as u32) < radix { Some(((c as u32) - ('0' as u32)) as nat) } else { None }
    } else if radix == 16 && 'a' <= c <= 'f' {
        Some(((c as u32) - ('a' as u32) + 10) as nat)
    } else if radix == 16 && 'A' <= c <= 'F' {
        Some(((c as u32) - ('A' as u32) + 10) as nat)
    } else {
        None
    }
}

pub fn digit_value(c: char, radix: u32) -> (r: Option<u32>)
    requires
        radix == 10 || radix == 16,
    ensures
        r matches Some(d) ==> d < radix,
        r matches Some(d) ==> spec_digit_value(c, radix as nat) == Some(d as nat),
        r is None ==> spec_digit_value(c, radix as nat) is None,
{
    let u = c as u32;
    if '0' <= c && c <= '9' {
        let d = u - ('0' as u32);
        if d < radix { Some(d) } else { None }
    } else if radix == 16 && 'a' <= c && c <= 'f' {
        Some(u - ('a' as u32) + 10)
    } else if radix == 16 && 'A' <= c && c <= 'F' {
        Some(u - ('A' as u32) + 10)
    } else {
        None
    }
}

/// Value of a string of digits (the empty string has value zero).
pub open spec fn spec_digits_value(s: Seq<char>, radix: nat) -> Option<nat>
    decreases s.len(),
{
    if s.len() == 0 {
        Some(0)
    } else {
        match (spec_digits_value(s.drop_last(), radix), spec_digit_value(s.last(), radix)) {
            (Some(v), Some(d)) => Some(v * radix + d),
            _ => None,
        }
    }
}

/// The unsigned integer parser of the standard library: an optional `+`,
/// then at least one digit, with a value not above `max`.
pub open spec fn spec_parse_unsigned(s: Seq<char>, radix: nat, max: nat) -> Option<nat> {
    let body = if s.len() > 0 && s[0] == '+' { s.drop_first() } else { s };
    if body.len() == 0 {
        None
    } else {
        match spec_digits_value(body, radix) {
            Some(v) => if v <= max { Some(v) } else { None },
            None => None,
        }
    }
}

proof fn lemma_digits_prefix_le(s: Seq<char>, radix: nat, i: int)
    requires
        0 <= i <= s.len(),
        radix >= 1,
        spec_digits_value(s, radix) is Some,
    ensures
        spec_digits_value(s.take(i), radix) is Some,
        spec_digits_value(s.take(i), radix)->0 <= spec_digits_value(s, radix)->0,
    decreases s.len(),
{
    if i < s.len() {
        let t = s.drop_last();
        lemma_digits_prefix_le(t, radix, i);
        assert(t.take(i) == s.take(i));
        let v = spec_digits_value(t, radix)->0;
        let d = spec_digit_value(s.last(), radix)->0;
        assert(v <= v * radix + d) by (nonlinear_arith)
            requires
                radix >= 1,
        ;
    } else {
        assert(s.take(i) == s);
    }
}

/// Parses an unsigned integer no larger than `max` in radix 10 or 16.
pub fn parse_unsigned(s: &[char], radix: u32, max: u64) -> (r: Option<u64>)
    requires
        radix == 10 || radix == 16,
    ensures
        r matches Some(v) ==> spec_parse_unsigned(s@, radix as nat, max as nat) == Some(v as nat),
        r is None ==> spec_parse_unsigned(s@, radix as nat, max as nat) is None,
{
    let start: usize = if s.len() > 0 && s[0] == '+' { 1 } else { 0 };
    let ghost body = if s@.len() > 0 && s@[0] == '+' { s@.drop_first() } else { s@ };
    assert(body == s@.skip(start as int));
    if start >= s.len() {
        return None;
    }
    let mut value: u64 = 0;
    let mut i: usize = start;
    while i < s.len()
        invariant
            start <= i <= s.len(),
            body == s@.skip(start as int),
            body == (if s@.len() > 0 && s@[0] == '+' { s@.drop_first() } else { s@ }),
            body.len() > 0,
            radix == 10 || radix == 16,
            spec_digits_value(body.take(i - start), radix as nat) == Some(value as nat),
            value <= max,
        decreases s.len() - i,
    {
        assert(body.take(i - start + 1).drop_last() == body.take(i - start));
        assert(body.take(i - start + 1).last() == s@[i as int]);
        let d = match digit_value(s[i], radix) {
            Some(d) => d,
            None => {
                proof {
                    assert(spec_digits_value(body.take(i - start + 1), radix as nat) is None);
                    if spec_digits_value(body, radix as nat) is Some {
                        lemma_digits_prefix_le(body, radix as nat, i - start + 1);
                    }
                }
                return None;
            },
        };
        let next = match value.checked_mul(radix as u64) {
            Some(m) => m.checked_add(d as u64),
            None => None,
        };
        match next {
            Some(n) if n <= max => {
                value = n;
            },
            _ => {
                proof {
                    let p = body.take(i - start + 1);
                    assert(spec_digits_value(p, radix as nat) == Some(
                        (value as nat) * (radix as nat) + (d as nat),
                    ));
                    if spec_digits_value(body, radix as nat) is Some {
                        lemma_digits_prefix_le(body, radix as nat, i - start + 1);
                    }
                }
                return None;
            },
        }
        i = i + 1;
    }
    assert(body.take(s.len() - start) == body);
    Some(value)
}

} // verus!
