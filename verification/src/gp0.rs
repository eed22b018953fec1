//! Classification of GP0 drawing commands found in primitive RAM.
use vstd::prelude::*;
use crate::address::{spec_physical, physical_address};

verus! {

/// Primitive packets of the game live in this physical RAM window.
pub const PRIMITIVE_RAM_START: u32 = 0x0038_0000;
pub const PRIMITIVE_RAM_END: u32 = 0x003c_0000;
/// Largest packet (in words) accepted as a primitive packet header.
pub const PRIMITIVE_PACKET_MAX_WORDS: u32 = 64;

pub open spec fn opcode_of(word: u32) -> u8 {
    (word >> 24u32) as u8
}

pub proof fn lemma_opcode_range(word: u32)
    ensures
        (word >> 24u32) <= 0xff,
        (word >> 24u32) as u8 == word >> 24u32,
{
    assert((word >> 24u32) <= 0xff) by (bit_vector);
}

pub fn command_opcode(word: u32) -> (r: u8)
    ensures
        r == opcode_of(word),
        r as u32 == word >> 24u32,
{
    proof {
        lemma_opcode_range(word);
    }
    (word >> 24u32) as u8
}

pub open spec fn spec_looks_like_gp0_command_opcode(op: u8) -> bool {
    ||| op <= 0x02
    ||| 0x20 <= op <= 0x7f
    ||| op == 0x80
    ||| op == 0xa0
    ||| op == 0xc0
    ||| 0xe1 <= op <= 0xe6
}

pub fn looks_like_gp0_command_opcode(op: u8) -> (r: bool)
    ensures
        r == spec_looks_like_gp0_command_opcode(op),
{
    op <= 0x02 || (0x20 <= op && op <= 0x7f) || op == 0x80 || op == 0xa0 || op == 0xc0 || (0xe1
        <= op && op <= 0xe6)
}

pub open spec fn spec_looks_like_draw_primitive_opcode(op: u8) -> bool {
    0x20 <= op <= 0x7f
}

pub fn looks_like_draw_primitive_opcode(op: u8) -> (r: bool)
    ensures
        r == spec_looks_like_draw_primitive_opcode(op),
{
    0x20 <= op && op <= 0x7f
}

pub open spec fn spec_looks_like_textured_primitive_opcode(op: u8) -> bool {
    ||| 0x24 <= op <= 0x27
    ||| 0x2c <= op <= 0x2f
    ||| 0x34 <= op <= 0x37
    ||| 0x3c <= op <= 0x3f
    ||| 0x64 <= op <= 0x67
    ||| 0x74 <= op <= 0x77
    ||| 0x7c <= op <= 0x7f
}

pub fn looks_like_textured_primitive_opcode(op: u8) -> (r: bool)
    ensures
        r == spec_looks_like_textured_primitive_opcode(op),
{
    (0x24 <= op && op <= 0x27) || (0x2c <= op && op <= 0x2f) || (0x34 <= op && op <= 0x37) || (
    0x3c <= op && op <= 0x3f) || (0x64 <= op && op <= 0x67) || (0x74 <= op && op <= 0x77) || (
    0x7c <= op && op <= 0x7f)
}

/// The `next` field of a packet header: the end marker, or a word-aligned
/// pointer into primitive RAM.
pub open spec fn spec_primitive_packet_next_plausible(next: u32) -> bool {
    ||| next == 0x00ff_ffff
    ||| next == 0x0080_0000
    ||| (next & 0x03 == 0 && PRIMITIVE_RAM_START <= (next & 0x00ff_fffc) < PRIMITIVE_RAM_END)
}

pub fn primitive_packet_next_plausible(next: u32) -> (r: bool)
    ensures
        r == spec_primitive_packet_next_plausible(next),
{
    if next == 0x00ff_ffff || next == 0x0080_0000 {
        return true;
    }
    let physical = next & 0x00ff_fffc;
    next & 0x03 == 0 && PRIMITIVE_RAM_START <= physical && physical < PRIMITIVE_RAM_END
}

/// A KSEG0/KSEG1 pointer into primitive RAM.
pub open spec fn spec_looks_like_primitive_ram_pointer_word(value: u32) -> bool {
    &&& (value & 0xe000_0000 == 0x8000_0000 || value & 0xe000_0000 == 0xa000_0000)
    &&& PRIMITIVE_RAM_START <= spec_physical(value) < PRIMITIVE_RAM_END
}

pub fn looks_like_primitive_ram_pointer_word(value: u32) -> (r: bool)
    ensures
        r == spec_looks_like_primitive_ram_pointer_word(value),
{
    let segment = value & 0xe000_0000;
    let physical = physical_address(value);
    (segment == 0x8000_0000 || segment == 0xa000_0000) && PRIMITIVE_RAM_START <= physical
        && physical < PRIMITIVE_RAM_END
}

/// Two's complement value of an 11-bit field.
pub open spec fn spec_sign_extend_11(value: u32) -> int {
    if value & 0x0400 != 0 {
        value - 2048
    } else {
        value as int
    }
}

pub fn sign_extend_11_bits(value: u32) -> (r: i32)
    requires
        value <= 0x07ff,
    ensures
        r == spec_sign_extend_11(value),
        -1024 <= r <= 1023,
{
    proof {
        assert(value <= 0x07ff ==> (value & 0x0400 != 0 <==> value >= 0x400)) by (bit_vector);
    }
    if value & 0x0400 != 0 {
        value as i32 - 2048
    } else {
        value as i32
    }
}

pub open spec fn spec_x(value: u32) -> int {
    spec_sign_extend_11(value & 0x07ff)
}

pub open spec fn spec_y(value: u32) -> int {
    spec_sign_extend_11((value >> 16u32) & 0x07ff)
}

pub proof fn lemma_xy_range(value: u32)
    ensures
        -1024 <= spec_x(value) <= 1023,
        -1024 <= spec_y(value) <= 1023,
        value & 0x07ff <= 0x07ff,
        (value >> 16u32) & 0x07ff <= 0x07ff,
        (value >> 11u32) & 0x07ff <= 0x07ff,
{
    assert(value & 0x07ff <= 0x07ff) by (bit_vector);
    assert((value >> 16u32) & 0x07ff <= 0x07ff) by (bit_vector);
    assert((value >> 11u32) & 0x07ff <= 0x07ff) by (bit_vector);
    let a = value & 0x07ff;
    let b = (value >> 16u32) & 0x07ff;
    assert(a <= 0x07ff ==> (a & 0x0400 != 0 <==> a >= 0x400)) by (bit_vector);
    assert(b <= 0x07ff ==> (b & 0x0400 != 0 <==> b >= 0x400)) by (bit_vector);
}

/// An 11-bit field read as signed is the one number in -1024 to 1023 that
/// agrees with the field modulo 2048: the field itself up to `0x3ff`, the
/// field less 2048 from `0x400` up.
pub proof fn law_sign_extend_11(value: u32)
    requires
        value <= 0x07ff,
    ensures
        -1024 <= spec_sign_extend_11(value) <= 1023,
        (spec_sign_extend_11(value) - value) % 2048 == 0,
        value < 0x400 ==> spec_sign_extend_11(value) == value,
        value >= 0x400 ==> spec_sign_extend_11(value) == value - 2048,
{
    assert(value <= 0x07ff ==> (value & 0x0400 != 0 <==> value >= 0x400)) by (bit_vector);
}

/// Vertex coordinates packed as two signed 11-bit fields (x low, y high).
pub fn gp0_signed_xy(value: u32) -> (r: (i32, i32))
    ensures
        r.0 == spec_x(value),
        r.1 == spec_y(value),
{
    proof {
        lemma_xy_range(value);
    }
    (sign_extend_11_bits(value & 0x07ff), sign_extend_11_bits((value >> 16u32) & 0x07ff))
}

pub open spec fn spec_offset_y(value: u32) -> int {
    spec_sign_extend_11((value >> 11u32) & 0x07ff)
}

/// Drawing offset of a GP0(E5h) command: two signed 11-bit fields.
pub fn gp0_drawing_offset_xy(value: u32) -> (r: (i32, i32))
    ensures
        r.0 == spec_x(value),
        r.1 == spec_offset_y(value),
{
    proof {
        lemma_xy_range(value);
    }
    (sign_extend_11_bits(value & 0x07ff), sign_extend_11_bits((value >> 11u32) & 0x07ff))
}

/// The vertex words of a draw command, in order.
pub open spec fn spec_vertex_words(w: Seq<u32>) -> Seq<u32>
    recommends
        w.len() >= 1,
{
    let op = opcode_of(w[0]);
    if 0x20 <= op <= 0x23 && w.len() >= 4 {
        seq![w[1], w[2], w[3]]
    } else if 0x24 <= op <= 0x27 && w.len() >= 7 {
        seq![w[1], w[3], w[5]]
    } else if 0x28 <= op <= 0x2b && w.len() >= 5 {
        seq![w[1], w[2], w[3], w[4]]
    } else if 0x2c <= op <= 0x2f && w.len() >= 9 {
        seq![w[1], w[3], w[5], w[7]]
    } else if 0x30 <= op <= 0x33 && w.len() >= 6 {
        seq![w[1], w[3], w[5]]
    } else if 0x34 <= op <= 0x37 && w.len() >= 9 {
        seq![w[1], w[4], w[7]]
    } else if 0x38 <= op <= 0x3b && w.len() >= 8 {
        seq![w[1], w[3], w[5], w[7]]
    } else if 0x3c <= op <= 0x3f && w.len() >= 12 {
        seq![w[1], w[4], w[7], w[10]]
    } else if 0x40 <= op <= 0x47 && w.len() >= 3 {
        seq![w[1], w[2]]
    } else if 0x50 <= op <= 0x57 && w.len() >= 4 {
        seq![w[1], w[3]]
    } else if 0x60 <= op <= 0x7f && w.len() >= 2 {
        seq![w[1]]
    } else {
        seq![]
    }
}

pub fn gp0_command_vertex_words(words: &[u32]) -> (r: Option<Vec<u32>>)
    ensures
        words@.len() == 0 ==> r is None,
        words@.len() > 0 ==> (r matches Some(v) && v@ == spec_vertex_words(words@)),
{
    if words.len() == 0 {
        return None;
    }
    let op = command_opcode(words[0]);
    let n = words.len();
    let v = if 0x20 <= op && op <= 0x23 && n >= 4 {
        vec![words[1], words[2], words[3]]
    } else if 0x24 <= op && op <= 0x27 && n >= 7 {
        vec![words[1], words[3], words[5]]
    } else if 0x28 <= op && op <= 0x2b && n >= 5 {
        vec![words[1], words[2], words[3], words[4]]
    } else if 0x2c <= op && op <= 0x2f && n >= 9 {
        vec![words[1], words[3], words[5], words[7]]
    } else if 0x30 <= op && op <= 0x33 && n >= 6 {
        vec![words[1], words[3], words[5]]
    } else if 0x34 <= op && op <= 0x37 && n >= 9 {
        vec![words[1], words[4], words[7]]
    } else if 0x38 <= op && op <= 0x3b && n >= 8 {
        vec![words[1], words[3], words[5], words[7]]
    } else if 0x3c <= op && op <= 0x3f && n >= 12 {
        vec![words[1], words[4], words[7], words[10]]
    } else if 0x40 <= op && op <= 0x47 && n >= 3 {
        vec![words[1], words[2]]
    } else if 0x50 <= op && op <= 0x57 && n >= 4 {
        vec![words[1], words[3]]
    } else if 0x60 <= op && op <= 0x7f && n >= 2 {
        vec![words[1]]
    } else {
        Vec::new()
    };
    proof {
        assert(v@ == spec_vertex_words(words@));
    }
    Some(v)
}

/// The texture coordinate words (UV, with CLUT and page in the high half).
pub open spec fn spec_texture_words(w: Seq<u32>) -> Seq<u32>
    recommends
        w.len() >= 1,
{
    let op = opcode_of(w[0]);
    if 0x24 <= op <= 0x27 && w.len() >= 7 {
        seq![w[2], w[4], w[6]]
    } else if 0x2c <= op <= 0x2f && w.len() >= 9 {
        seq![w[2], w[4], w[6], w[8]]
    } else if 0x34 <= op <= 0x37 && w.len() >= 9 {
        seq![w[2], w[5], w[8]]
    } else if 0x3c <= op <= 0x3f && w.len() >= 12 {
        seq![w[2], w[5], w[8], w[11]]
    } else {
        seq![]
    }
}

pub fn gp0_command_texture_words(words: &[u32]) -> (r: Option<Vec<u32>>)
    ensures
        words@.len() == 0 ==> r is None,
        words@.len() > 0 ==> (r matches Some(v) && v@ == spec_texture_words(words@)),
{
    if words.len() == 0 {
        return None;
    }
    let op = command_opcode(words[0]);
    let n = words.len();
    let v = if 0x24 <= op && op <= 0x27 && n >= 7 {
        vec![words[2], words[4], words[6]]
    } else if 0x2c <= op && op <= 0x2f && n >= 9 {
        vec![words[2], words[4], words[6], words[8]]
    } else if 0x34 <= op && op <= 0x37 && n >= 9 {
        vec![words[2], words[5], words[8]]
    } else if 0x3c <= op && op <= 0x3f && n >= 12 {
        vec![words[2], words[5], words[8], words[11]]
    } else {
        Vec::new()
    };
    proof {
        assert(v@ == spec_texture_words(words@));
    }
    Some(v)
}

/// `(texture_page, clut)` taken from the second and first texture words.
pub open spec fn spec_texture_descriptor(w: Seq<u32>) -> Option<(u16, u16)> {
    if w.len() == 0 || spec_texture_words(w).len() < 2 {
        None
    } else {
        let t = spec_texture_words(w);
        Some(((t[1] >> 16u32) as u16, (t[0] >> 16u32) as u16))
    }
}

pub fn gp0_command_texture_descriptor(words: &[u32]) -> (r: Option<(u16, u16)>)
    ensures
        r == spec_texture_descriptor(words@),
{
    let texture_words = match gp0_command_texture_words(words) {
        Some(t) => t,
        None => return None,
    };
    if texture_words.len() < 2 {
        return None;
    }
    let clut = (texture_words[0] >> 16u32) as u16;
    let texture_page = (texture_words[1] >> 16u32) as u16;
    Some((texture_page, clut))
}


/// `x` clamped into the `i32` range.
pub open spec fn clamp_i32(x: int) -> i32 {
    if x > i32::MAX {
        i32::MAX
    } else if x < i32::MIN {
        i32::MIN
    } else {
        x as i32
    }
}

pub fn saturating_sub_i32(a: i32, b: i32) -> (r: i32)
    ensures
        r == clamp_i32(a - b),
{
    let d = a as i64 - b as i64;
    if d > i32::MAX as i64 {
        i32::MAX
    } else if d < i32::MIN as i64 {
        i32::MIN
    } else {
        d as i32
    }
}

pub fn saturating_add_i32(a: i32, b: i32) -> (r: i32)
    ensures
        r == clamp_i32(a + b),
{
    let d = a as i64 + b as i64;
    if d > i32::MAX as i64 {
        i32::MAX
    } else if d < i32::MIN as i64 {
        i32::MIN
    } else {
        d as i32
    }
}

pub fn saturating_mul_i32(a: i32, b: i32) -> (r: i32)
    ensures
        r == clamp_i32(a * b),
{
    proof {
        assert(-0x8000_0000 * 0x8000_0000 <= a * b <= 0x8000_0000 * 0x8000_0000) by (
        nonlinear_arith)
            requires
                -0x8000_0000 <= a <= 0x7fff_ffff,
                -0x8000_0000 <= b <= 0x7fff_ffff,
        ;
    }
    let d = a as i64 * b as i64;
    if d > i32::MAX as i64 {
        i32::MAX
    } else if d < i32::MIN as i64 {
        i32::MIN
    } else {
        d as i32
    }
}

/// Screen-space extent of a draw command, with counts of suspicious words.
#[derive(Clone, Copy, Debug, PartialEq, Eq, Structural)]
pub struct Gp0DrawBounds {
    pub min_x: i32,
    pub max_x: i32,
    pub min_y: i32,
    pub max_y: i32,
    pub has_visible_x: bool,
    pub zero_vertices: usize,
    pub zero_texture_words: usize,
    pub command_like_texture_words: usize,
    pub primitive_pointer_words: usize,
}

impl Gp0DrawBounds {
    pub open spec fn spec_width(self) -> i32 {
        clamp_i32(clamp_i32(self.max_x - self.min_x) + 1)
    }

    pub open spec fn spec_height(self) -> i32 {
        clamp_i32(clamp_i32(self.max_y - self.min_y) + 1)
    }

    pub open spec fn spec_area(self) -> i32 {
        clamp_i32(self.spec_width() * self.spec_height())
    }

    pub fn width(self) -> (r: i32)
        ensures
            r == self.spec_width(),
    {
        saturating_add_i32(saturating_sub_i32(self.max_x, self.min_x), 1)
    }

    pub fn height(self) -> (r: i32)
        ensures
            r == self.spec_height(),
    {
        saturating_add_i32(saturating_sub_i32(self.max_y, self.min_y), 1)
    }

    pub fn area(self) -> (r: i32)
        ensures
            r == self.spec_area(),
    {
        saturating_mul_i32(self.width(), self.height())
    }
}

/// Running min/max over a list of vertices: `(min_x, max_x, min_y, max_y,
/// some x visible, vertices at the origin)`.
pub open spec fn spec_fold_points(pts: Seq<u32>) -> (int, int, int, int, bool, nat)
    decreases pts.len(),
{
    if pts.len() == 0 {
        (i32::MAX as int, i32::MIN as int, i32::MAX as int, i32::MIN as int, false, 0)
    } else {
        let (a, b, c, d, v, z) = spec_fold_points(pts.drop_last());
        let x = spec_x(pts.last());
        let y = spec_y(pts.last());
        (
            if x < a { x } else { a },
            if x > b { x } else { b },
            if y < c { y } else { c },
            if y > d { y } else { d },
            v || (-64 <= x <= 576),
            z + if x == 0 && y == 0 { 1nat } else { 0nat },
        )
    }
}

pub proof fn lemma_fold_points_range(pts: Seq<u32>)
    ensures
        i32::MIN <= spec_fold_points(pts).0 <= i32::MAX,
        i32::MIN <= spec_fold_points(pts).1 <= i32::MAX,
        i32::MIN <= spec_fold_points(pts).2 <= i32::MAX,
        i32::MIN <= spec_fold_points(pts).3 <= i32::MAX,
        spec_fold_points(pts).5 <= pts.len(),
    decreases pts.len(),
{
    if pts.len() > 0 {
        lemma_fold_points_range(pts.drop_last());
        lemma_xy_range(pts.last());
    }
}

/// Size of a rectangle command: variable from its size word, or fixed.
pub open spec fn spec_variable_rect_dimensions(word: u32) -> Option<(i32, i32)> {
    let width = word & 0xffff;
    let height = word >> 16u32;
    if width > 0 && height > 0 {
        Some((width as i32, height as i32))
    } else {
        None
    }
}

pub fn gp0_variable_rect_dimensions(word: u32) -> (r: Option<(i32, i32)>)
    ensures
        r == spec_variable_rect_dimensions(word),
        r matches Some((w, h)) ==> 1 <= w <= 0xffff && 1 <= h <= 0xffff,
{
    proof {
        assert(word & 0xffff <= 0xffff) by (bit_vector);
        assert(word >> 16u32 <= 0xffff) by (bit_vector);
    }
    let width = (word & 0xffff) as i32;
    let height = (word >> 16u32) as i32;
    if width > 0 && height > 0 {
        Some((width, height))
    } else {
        None
    }
}

pub open spec fn spec_rect_dimensions(op: u8, w: Seq<u32>) -> Option<(i32, i32)> {
    if 0x60 <= op <= 0x63 && w.len() >= 3 {
        spec_variable_rect_dimensions(w[2])
    } else if 0x64 <= op <= 0x67 && w.len() >= 4 {
        spec_variable_rect_dimensions(w[3])
    } else if 0x68 <= op <= 0x6f {
        Some((1, 1))
    } else if 0x70 <= op <= 0x77 {
        Some((8, 8))
    } else if 0x78 <= op <= 0x7f {
        Some((16, 16))
    } else {
        None
    }
}

pub fn gp0_command_rect_dimensions(op: u8, words: &[u32]) -> (r: Option<(i32, i32)>)
    ensures
        r == spec_rect_dimensions(op, words@),
        r matches Some((w, h)) ==> 1 <= w <= 0xffff && 1 <= h <= 0xffff,
{
    if 0x60 <= op && op <= 0x63 && words.len() >= 3 {
        gp0_variable_rect_dimensions(words[2])
    } else if 0x64 <= op && op <= 0x67 && words.len() >= 4 {
        gp0_variable_rect_dimensions(words[3])
    } else if 0x68 <= op && op <= 0x6f {
        Some((1, 1))
    } else if 0x70 <= op && op <= 0x77 {
        Some((8, 8))
    } else if 0x78 <= op && op <= 0x7f {
        Some((16, 16))
    } else {
        None
    }
}

/// Number of words of `s` equal to zero.
pub open spec fn spec_count_zero(s: Seq<u32>) -> nat
    decreases s.len(),
{
    if s.len() == 0 {
        0
    } else {
        spec_count_zero(s.drop_last()) + if s.last() == 0 { 1nat } else { 0nat }
    }
}

/// Number of words of `s` whose top byte looks like a GP0 opcode.
pub open spec fn spec_count_command_like(s: Seq<u32>) -> nat
    decreases s.len(),
{
    if s.len() == 0 {
        0
    } else {
        spec_count_command_like(s.drop_last()) + if spec_looks_like_gp0_command_opcode(
            opcode_of(s.last()),
        ) {
            1nat
        } else {
            0nat
        }
    }
}

/// Number of words of `s` that look like pointers into primitive RAM.
pub open spec fn spec_count_pointers(s: Seq<u32>) -> nat
    decreases s.len(),
{
    if s.len() == 0 {
        0
    } else {
        spec_count_pointers(s.drop_last()) + if spec_looks_like_primitive_ram_pointer_word(
            s.last(),
        ) {
            1nat
        } else {
            0nat
        }
    }
}

pub fn count_zero_words(s: &Vec<u32>) -> (r: usize)
    ensures
        r == spec_count_zero(s@),
{
    let mut count: usize = 0;
    let mut i: usize = 0;
    while i < s.len()
        invariant
            i <= s.len(),
            count == spec_count_zero(s@.take(i as int)),
            count <= i,
        decreases s.len() - i,
    {
        assert(s@.take(i as int + 1).drop_last() == s@.take(i as int));
        if s[i] == 0 {
            count = count + 1;
        }
        i = i + 1;
    }
    assert(s@.take(s.len() as int) == s@);
    count
}

pub fn count_command_like_words(s: &Vec<u32>) -> (r: usize)
    ensures
        r == spec_count_command_like(s@),
{
    let mut count: usize = 0;
    let mut i: usize = 0;
    while i < s.len()
        invariant
            i <= s.len(),
            count == spec_count_command_like(s@.take(i as int)),
            count <= i,
        decreases s.len() - i,
    {
        assert(s@.take(i as int + 1).drop_last() == s@.take(i as int));
        if looks_like_gp0_command_opcode(command_opcode(s[i])) {
            count = count + 1;
        }
        i = i + 1;
    }
    assert(s@.take(s.len() as int) == s@);
    count
}

pub fn count_pointer_words(s: &[u32], from: usize) -> (r: usize)
    requires
        from <= s@.len(),
    ensures
        r == spec_count_pointers(s@.skip(from as int)),
{
    let mut count: usize = 0;
    let mut i: usize = from;
    while i < s.len()
        invariant
            from <= i <= s.len(),
            count == spec_count_pointers(s@.subrange(from as int, i as int)),
            count <= i - from,
        decreases s.len() - i,
    {
        assert(s@.subrange(from as int, i as int + 1).drop_last() == s@.subrange(
            from as int,
            i as int,
        ));
        if looks_like_primitive_ram_pointer_word(s[i]) {
            count = count + 1;
        }
        i = i + 1;
    }
    assert(s@.subrange(from as int, s.len() as int) == s@.skip(from as int));
    count
}

/// Bounds of a draw command, or `None` when it has no vertices (or a
/// variable rectangle of zero size).
pub open spec fn spec_draw_bounds(w: Seq<u32>) -> Option<Gp0DrawBounds> {
    if w.len() == 0 || spec_vertex_words(w).len() == 0 {
        None
    } else {
        let op = opcode_of(w[0]);
        let pts = spec_vertex_words(w);
        let tex = spec_texture_words(w);
        let zero_texture_words = spec_count_zero(tex) as usize;
        let command_like_texture_words = spec_count_command_like(tex) as usize;
        let primitive_pointer_words = spec_count_pointers(w.skip(1)) as usize;
        if 0x60 <= op <= 0x7f {
            match spec_rect_dimensions(op, w) {
                None => None,
                Some((width, height)) => {
                    let x = spec_x(pts[0]);
                    let y = spec_y(pts[0]);
                    let max_rect_x = x + width - 1;
                    let max_rect_y = y + height - 1;
                    Some(
                        Gp0DrawBounds {
                            min_x: x as i32,
                            max_x: max_rect_x as i32,
                            min_y: y as i32,
                            max_y: max_rect_y as i32,
                            has_visible_x: (-64 <= x <= 576) || (x <= 576 && max_rect_x >= -64),
                            zero_vertices: if x == 0 && y == 0 { 1 } else { 0 },
                            zero_texture_words,
                            command_like_texture_words,
                            primitive_pointer_words,
                        },
                    )
                },
            }
        } else {
            let (a, b, c, d, v, z) = spec_fold_points(pts);
            Some(
                Gp0DrawBounds {
                    min_x: a as i32,
                    max_x: b as i32,
                    min_y: c as i32,
                    max_y: d as i32,
                    has_visible_x: v,
                    zero_vertices: z as usize,
                    zero_texture_words,
                    command_like_texture_words,
                    primitive_pointer_words,
                },
            )
        }
    }
}

pub fn gp0_command_draw_bounds(words: &[u32]) -> (r: Option<Gp0DrawBounds>)
    ensures
        r == spec_draw_bounds(words@),
{
    if words.len() == 0 {
        return None;
    }
    let op = command_opcode(words[0]);
    let points = match gp0_command_vertex_words(words) {
        Some(p) => p,
        None => return None,
    };
    if points.len() == 0 {
        return None;
    }
    let texture_words = match gp0_command_texture_words(words) {
        Some(t) => t,
        None => return None,
    };
    let zero_texture_words = count_zero_words(&texture_words);
    let command_like_texture_words = count_command_like_words(&texture_words);
    let primitive_pointer_words = count_pointer_words(words, 1);
    if 0x60 <= op && op <= 0x7f {
        let (width, height) = match gp0_command_rect_dimensions(op, words) {
            Some(d) => d,
            None => return None,
        };
        let (x, y) = gp0_signed_xy(points[0]);
        proof {
            lemma_xy_range(points@[0]);
        }
        let max_rect_x = x + (width - 1);
        let max_rect_y = y + (height - 1);
        let has_visible_x = (-64 <= x && x <= 576) || (x <= 576 && max_rect_x >= -64);
        return Some(
            Gp0DrawBounds {
                min_x: x,
                max_x: max_rect_x,
                min_y: y,
                max_y: max_rect_y,
                has_visible_x,
                zero_vertices: if x == 0 && y == 0 { 1 } else { 0 },
                zero_texture_words,
                command_like_texture_words,
                primitive_pointer_words,
            },
        );
    }
    let mut min_x = i32::MAX;
    let mut max_x = i32::MIN;
    let mut min_y = i32::MAX;
    let mut max_y = i32::MIN;
    let mut has_visible_x = false;
    let mut zero_vertices: usize = 0;
    let mut i: usize = 0;
    while i < points.len()
        invariant
            i <= points.len(),
            points.len() <= 4,
            (min_x as int, max_x as int, min_y as int, max_y as int, has_visible_x,
                zero_vertices as nat) == spec_fold_points(points@.take(i as int)),
            zero_vertices <= i,
        decreases points.len() - i,
    {
        assert(points@.take(i as int + 1).drop_last() == points@.take(i as int));
        let (x, y) = gp0_signed_xy(points[i]);
        if x < min_x {
            min_x = x;
        }
        if x > max_x {
            max_x = x;
        }
        if y < min_y {
            min_y = y;
        }
        if y > max_y {
            max_y = y;
        }
        has_visible_x = has_visible_x || (-64 <= x && x <= 576);
        if x == 0 && y == 0 {
            zero_vertices = zero_vertices + 1;
        }
        i = i + 1;
    }
    assert(points@.take(points.len() as int) == points@);
    Some(
        Gp0DrawBounds {
            min_x,
            max_x,
            min_y,
            max_y,
            has_visible_x,
            zero_vertices,
            zero_texture_words,
            command_like_texture_words,
            primitive_pointer_words,
        },
    )
}


pub open spec fn spec_has_playfield_draw_bounds(w: Seq<u32>) -> bool {
    match spec_draw_bounds(w) {
        None => false,
        Some(b) => b.has_visible_x && b.max_y >= 96 && b.min_y <= 430 && b.min_y < 420,
    }
}

/// Whether the command's bounds overlap the part of the screen where the
/// fight is drawn.
pub fn gp0_command_has_playfield_draw_bounds(words: &[u32]) -> (r: bool)
    ensures
        r == spec_has_playfield_draw_bounds(words@),
{
    match gp0_command_draw_bounds(words) {
        None => false,
        Some(b) => b.has_visible_x && b.max_y >= 96 && b.min_y <= 430 && b.min_y < 420,
    }
}

/// Why a draw command found outside the ordering table is not replayed.
#[derive(Clone, Copy, Debug, PartialEq, Eq, Structural)]
pub enum Gp0ReplayDrawRejectReason {
    NoBounds,
    NonPlayfieldBounds,
    UnsafeBounds,
    ZeroTextureOversize,
    CommandTextureContamination,
    PrimitivePointerContamination,
    LinkedListArtifact,
    TitleOverlayAtlas,
}

/// Some vertex sits on the left edge of the screen, in the title band.
pub open spec fn spec_has_left_edge_anchor(w: Seq<u32>) -> bool {
    exists|i: int|
        0 <= i < spec_vertex_words(w).len() && spec_x(#[trigger] spec_vertex_words(w)[i]) == 0
            && 224 <= spec_y(spec_vertex_words(w)[i]) <= 360
}

/// The command stream captured the `0x0900_0000` marker and a texture word
/// that is the header of another textured quad.
pub open spec fn spec_has_captured_stream_contamination(w: Seq<u32>) -> bool {
    &&& w.contains(0x0900_0000)
    &&& exists|i: int|
        0 <= i < spec_texture_words(w).len() && #[trigger] spec_texture_words(w)[i] & 0xffff_0000
            == 0x2e80_0000
}

pub open spec fn spec_is_high_page_title_stripe_artifact(w: Seq<u32>, b: Gp0DrawBounds) -> bool {
    if w.len() == 0 {
        false
    } else if !spec_looks_like_textured_primitive_opcode(opcode_of(w[0]))
        || b.command_like_texture_words == 0 {
        false
    } else {
        match spec_texture_descriptor(w) {
            None => false,
            Some((texture_page, clut)) => {
                let zn_high_8bpp_page = texture_page & 0x2000 != 0 && ((texture_page >> 7u16)
                    & 0x03) == 1;
                let title_clut_band = 0x7800 <= clut <= 0x7fff;
                &&& zn_high_8bpp_page
                &&& title_clut_band
                &&& spec_has_left_edge_anchor(w)
                &&& spec_has_captured_stream_contamination(w)
                &&& b.min_x <= 16
                &&& b.max_x >= 384
                &&& 72 <= b.min_y <= 260
                &&& 224 <= b.max_y <= 360
                &&& b.spec_width() >= 384
                &&& b.spec_height() >= 60
                &&& b.spec_area() > 25_000
            },
        }
    }
}

pub fn contains_word(words: &[u32], needle: u32) -> (r: bool)
    ensures
        r == words@.contains(needle),
{
    let mut i: usize = 0;
    while i < words.len()
        invariant
            i <= words.len(),
            forall|j: int| 0 <= j < i ==> words@[j] != needle,
        decreases words.len() - i,
    {
        if words[i] == needle {
            assert(words@[i as int] == needle);
            return true;
        }
        i = i + 1;
    }
    false
}

/// A textured quad stretched across the title stripe by a corrupt capture.
pub fn gp0_command_is_high_page_title_stripe_artifact(words: &[u32], bounds: Gp0DrawBounds) -> (r:
    bool)
    ensures
        r == spec_is_high_page_title_stripe_artifact(words@, bounds),
{
    if words.len() == 0 {
        return false;
    }
    let op = command_opcode(words[0]);
    if !looks_like_textured_primitive_opcode(op) || bounds.command_like_texture_words == 0 {
        return false;
    }
    let (texture_page, clut) = match gp0_command_texture_descriptor(words) {
        Some(d) => d,
        None => return false,
    };
    let zn_high_8bpp_page = texture_page & 0x2000 != 0 && ((texture_page >> 7u16) & 0x03) == 1;
    let title_clut_band = 0x7800 <= clut && clut <= 0x7fff;
    if !zn_high_8bpp_page || !title_clut_band {
        return false;
    }
    let vertices = match gp0_command_vertex_words(words) {
        Some(v) => v,
        None => Vec::new(),
    };
    let mut has_left_edge_anchor = false;
    let mut i: usize = 0;
    while i < vertices.len()
        invariant
            i <= vertices.len(),
            vertices@ == spec_vertex_words(words@),
            has_left_edge_anchor == exists|j: int|
                0 <= j < i && spec_x(#[trigger] vertices@[j]) == 0 && 224 <= spec_y(vertices@[j])
                    <= 360,
        decreases vertices.len() - i,
    {
        let (x, y) = gp0_signed_xy(vertices[i]);
        if x == 0 && 224 <= y && y <= 360 {
            has_left_edge_anchor = true;
        }
        i = i + 1;
    }
    let texture_words = match gp0_command_texture_words(words) {
        Some(t) => t,
        None => Vec::new(),
    };
    let mut has_header_texture_word = false;
    let mut k: usize = 0;
    while k < texture_words.len()
        invariant
            k <= texture_words.len(),
            texture_words@ == spec_texture_words(words@),
            has_header_texture_word == exists|j: int|
                0 <= j < k && #[trigger] texture_words@[j] & 0xffff_0000 == 0x2e80_0000,
        decreases texture_words.len() - k,
    {
        if texture_words[k] & 0xffff_0000 == 0x2e80_0000 {
            has_header_texture_word = true;
        }
        k = k + 1;
    }
    let has_captured_stream_contamination = contains_word(words, 0x0900_0000)
        && has_header_texture_word;
    has_left_edge_anchor && has_captured_stream_contamination && bounds.min_x <= 16
        && bounds.max_x >= 384 && 72 <= bounds.min_y && bounds.min_y <= 260 && 224
        <= bounds.max_y && bounds.max_y <= 360 && bounds.width() >= 384 && bounds.height() >= 60
        && bounds.area() > 25_000
}

pub open spec fn spec_is_linked_list_artifact_draw(w: Seq<u32>) -> bool {
    if w.len() == 0 {
        false
    } else {
        match spec_draw_bounds(w) {
            None => false,
            Some(b) => {
                let op = opcode_of(w[0]);
                let left_edge_tall = b.spec_width() <= 160 && b.min_x <= 0 && b.min_y <= 0
                    && b.max_x <= 128 && b.max_y >= 420 && b.spec_height() > 300;
                (left_edge_tall && ((!spec_looks_like_textured_primitive_opcode(op)
                    && b.zero_vertices > 0) || (spec_looks_like_textured_primitive_opcode(op) && (
                b.zero_texture_words > 0 || b.command_like_texture_words > 0))))
                    || spec_is_high_page_title_stripe_artifact(w, b)
            },
        }
    }
}

/// Tall slivers on the left edge and title stripes left behind in primitive
/// RAM by the title screen.
pub fn gp0_command_is_linked_list_artifact_draw(words: &[u32]) -> (r: bool)
    ensures
        r == spec_is_linked_list_artifact_draw(words@),
{
    if words.len() == 0 {
        return false;
    }
    let op = command_opcode(words[0]);
    let b = match gp0_command_draw_bounds(words) {
        Some(b) => b,
        None => return false,
    };
    let left_edge_tall = b.width() <= 160 && b.min_x <= 0 && b.min_y <= 0 && b.max_x <= 128
        && b.max_y >= 420 && b.height() > 300;
    let textured = looks_like_textured_primitive_opcode(op);
    (left_edge_tall && ((!textured && b.zero_vertices > 0) || (textured && (b.zero_texture_words
        > 0 || b.command_like_texture_words > 0))))
        || gp0_command_is_high_page_title_stripe_artifact(words, b)
}

pub open spec fn spec_is_title_overlay_atlas_replay_artifact(w: Seq<u32>, b: Gp0DrawBounds) -> bool {
    match spec_texture_descriptor(w) {
        None => false,
        Some((texture_page, clut)) => {
            let page = texture_page & 0x003f;
            let high_texture_page = page == 0x0039 || page == 0x003f;
            let title_overlay_clut = 0x7800 <= clut <= 0x7fff;
            let centered_overlay_region = 180 <= b.min_x <= 330 && 180 <= b.max_x <= 340 && 200
                <= b.min_y <= 340 && 220 <= b.max_y <= 360;
            let compact_overlay = b.spec_area() <= 12_000;
            let upper_right_sparkle_region = 340 <= b.min_x <= 430 && 348 <= b.max_x <= 448 && 96
                <= b.min_y <= 180 && 104 <= b.max_y <= 188;
            let tiny_sparkle = b.spec_width() <= 16 && b.spec_height() <= 16 && b.spec_area()
                <= 256;
            (high_texture_page && title_overlay_clut && centered_overlay_region && compact_overlay)
                || (page == 0x003f && clut == 0x7818 && upper_right_sparkle_region
                && tiny_sparkle)
        },
    }
}

/// Title-screen overlay and sparkle quads textured from the title atlas.
pub fn gp0_command_is_title_overlay_atlas_replay_artifact(words: &[u32], b: Gp0DrawBounds) -> (r:
    bool)
    ensures
        r == spec_is_title_overlay_atlas_replay_artifact(words@, b),
{
    let (texture_page, clut) = match gp0_command_texture_descriptor(words) {
        Some(d) => d,
        None => return false,
    };
    let page = texture_page & 0x003f;
    let high_texture_page = page == 0x0039 || page == 0x003f;
    let title_overlay_clut = 0x7800 <= clut && clut <= 0x7fff;
    let centered_overlay_region = 180 <= b.min_x && b.min_x <= 330 && 180 <= b.max_x && b.max_x
        <= 340 && 200 <= b.min_y && b.min_y <= 340 && 220 <= b.max_y && b.max_y <= 360;
    let compact_overlay = b.area() <= 12_000;
    let upper_right_sparkle_region = 340 <= b.min_x && b.min_x <= 430 && 348 <= b.max_x
        && b.max_x <= 448 && 96 <= b.min_y && b.min_y <= 180 && 104 <= b.max_y && b.max_y <= 188;
    let tiny_sparkle = b.width() <= 16 && b.height() <= 16 && b.area() <= 256;
    (high_texture_page && title_overlay_clut && centered_overlay_region && compact_overlay) || (
    page == 0x003f && clut == 0x7818 && upper_right_sparkle_region && tiny_sparkle)
}

pub open spec fn spec_replay_draw_reject_reason(w: Seq<u32>) -> Option<Gp0ReplayDrawRejectReason> {
    if w.len() == 0 {
        Some(Gp0ReplayDrawRejectReason::NoBounds)
    } else if !spec_looks_like_draw_primitive_opcode(opcode_of(w[0])) {
        None
    } else {
        let op = opcode_of(w[0]);
        match spec_draw_bounds(w) {
            None => Some(Gp0ReplayDrawRejectReason::NoBounds),
            Some(b) => {
                if !spec_has_playfield_draw_bounds(w) {
                    Some(Gp0ReplayDrawRejectReason::NonPlayfieldBounds)
                } else if b.min_x < -256 || b.max_x > 896 || b.min_y < -96 || b.max_y > 640 {
                    Some(Gp0ReplayDrawRejectReason::UnsafeBounds)
                } else if b.spec_width() > 768 || b.spec_height() > 576 || b.spec_area() > 360_000 {
                    Some(Gp0ReplayDrawRejectReason::UnsafeBounds)
                } else if 0x64 <= op <= 0x67 && (b.spec_width() > 256 || b.spec_height() > 256
                    || b.spec_area() > 65_536) {
                    Some(Gp0ReplayDrawRejectReason::UnsafeBounds)
                } else if b.zero_vertices > 0 && b.spec_area() > 40_000 {
                    Some(Gp0ReplayDrawRejectReason::UnsafeBounds)
                } else if spec_looks_like_textured_primitive_opcode(op) && b.zero_texture_words > 0
                    && b.min_y <= 0 && b.min_x <= 0 && (b.spec_width() > 320 || b.spec_height()
                    > 240 || b.spec_area() > 40_000) {
                    Some(Gp0ReplayDrawRejectReason::ZeroTextureOversize)
                } else if b.command_like_texture_words > 0 && b.zero_vertices > 0 && b.spec_area()
                    > 32_000 {
                    Some(Gp0ReplayDrawRejectReason::CommandTextureContamination)
                } else if spec_looks_like_textured_primitive_opcode(op) && b.primitive_pointer_words
                    > 0 {
                    Some(Gp0ReplayDrawRejectReason::PrimitivePointerContamination)
                } else if spec_is_linked_list_artifact_draw(w) {
                    Some(Gp0ReplayDrawRejectReason::LinkedListArtifact)
                } else if spec_is_title_overlay_atlas_replay_artifact(w, b) {
                    Some(Gp0ReplayDrawRejectReason::TitleOverlayAtlas)
                } else {
                    None
                }
            },
        }
    }
}

/// The first rule that forbids replaying this draw command, if any.
pub fn gp0_command_replay_draw_reject_reason(words: &[u32]) -> (r: Option<
    Gp0ReplayDrawRejectReason,
>)
    ensures
        r == spec_replay_draw_reject_reason(words@),
{
    if words.len() == 0 {
        return Some(Gp0ReplayDrawRejectReason::NoBounds);
    }
    let op = command_opcode(words[0]);
    if !looks_like_draw_primitive_opcode(op) {
        return None;
    }
    let b = match gp0_command_draw_bounds(words) {
        Some(b) => b,
        None => return Some(Gp0ReplayDrawRejectReason::NoBounds),
    };
    if !gp0_command_has_playfield_draw_bounds(words) {
        return Some(Gp0ReplayDrawRejectReason::NonPlayfieldBounds);
    }
    if b.min_x < -256 || b.max_x > 896 || b.min_y < -96 || b.max_y > 640 {
        return Some(Gp0ReplayDrawRejectReason::UnsafeBounds);
    }
    if b.width() > 768 || b.height() > 576 || b.area() > 360_000 {
        return Some(Gp0ReplayDrawRejectReason::UnsafeBounds);
    }
    if 0x64 <= op && op <= 0x67 && (b.width() > 256 || b.height() > 256 || b.area() > 65_536) {
        return Some(Gp0ReplayDrawRejectReason::UnsafeBounds);
    }
    if b.zero_vertices > 0 && b.area() > 40_000 {
        return Some(Gp0ReplayDrawRejectReason::UnsafeBounds);
    }
    let textured = looks_like_textured_primitive_opcode(op);
    if textured && b.zero_texture_words > 0 && b.min_y <= 0 && b.min_x <= 0 && (b.width() > 320
        || b.height() > 240 || b.area() > 40_000) {
        return Some(Gp0ReplayDrawRejectReason::ZeroTextureOversize);
    }
    if b.command_like_texture_words > 0 && b.zero_vertices > 0 && b.area() > 32_000 {
        return Some(Gp0ReplayDrawRejectReason::CommandTextureContamination);
    }
    if textured && b.primitive_pointer_words > 0 {
        return Some(Gp0ReplayDrawRejectReason::PrimitivePointerContamination);
    }
    if gp0_command_is_linked_list_artifact_draw(words) {
        return Some(Gp0ReplayDrawRejectReason::LinkedListArtifact);
    }
    if gp0_command_is_title_overlay_atlas_replay_artifact(words, b) {
        return Some(Gp0ReplayDrawRejectReason::TitleOverlayAtlas);
    }
    None
}

pub open spec fn spec_has_replay_safe_draw_bounds(w: Seq<u32>) -> bool {
    spec_replay_draw_reject_reason(w) is None
}

pub fn gp0_command_has_replay_safe_draw_bounds(words: &[u32]) -> (r: bool)
    ensures
        r == spec_has_replay_safe_draw_bounds(words@),
{
    gp0_command_replay_draw_reject_reason(words).is_none()
}

pub open spec fn spec_is_replay_safe_draw(w: Seq<u32>) -> bool {
    w.len() > 0 && spec_looks_like_draw_primitive_opcode(opcode_of(w[0]))
        && spec_has_replay_safe_draw_bounds(w)
}

/// A draw command that may be replayed from primitive RAM.
pub fn gp0_command_is_replay_safe_draw(words: &[u32]) -> (r: bool)
    ensures
        r == spec_is_replay_safe_draw(words@),
{
    if words.len() == 0 {
        return false;
    }
    looks_like_draw_primitive_opcode(command_opcode(words[0]))
        && gp0_command_has_replay_safe_draw_bounds(words)
}

pub open spec fn spec_is_replay_safe_state(w: Seq<u32>) -> bool {
    if w.len() != 1 {
        false
    } else {
        let command = w[0];
        let op = command >> 24u32;
        if op == 0xe1 || op == 0xe2 || op == 0xe3 || op == 0xe4 || op == 0xe6 {
            true
        } else if op == 0xe5 {
            -512 <= spec_x(command) <= 512 && -512 <= spec_offset_y(command) <= 512
        } else {
            false
        }
    }
}

/// A single-word drawing-environment command that may be replayed; drawing
/// offsets must stay within half a screen.
pub fn gp0_command_is_replay_safe_state(words: &[u32]) -> (r: bool)
    ensures
        r == spec_is_replay_safe_state(words@),
{
    if words.len() != 1 {
        return false;
    }
    let command = words[0];
    let op = command >> 24u32;
    if op == 0xe1 || op == 0xe2 || op == 0xe3 || op == 0xe4 || op == 0xe6 {
        true
    } else if op == 0xe5 {
        let (x, y) = gp0_drawing_offset_xy(command);
        -512 <= x && x <= 512 && -512 <= y && y <= 512
    } else {
        false
    }
}


/// A polyline ends with a word whose both halves start with nibble 5.
pub open spec fn spec_polyline_terminator(word: u32) -> bool {
    word & 0xf000_f000 == 0x5000_5000
}

pub open spec fn spec_find_terminator(w: Seq<u32>, j: int) -> Option<int>
    decreases w.len() - j,
{
    if j < 0 || j >= w.len() {
        None
    } else if spec_polyline_terminator(w[j]) {
        Some(j)
    } else {
        spec_find_terminator(w, j + 1)
    }
}

pub proof fn lemma_find_terminator_bounds(w: Seq<u32>, j: int)
    ensures
        spec_find_terminator(w, j) matches Some(k) ==> j <= k < w.len() && 0 <= k,
    decreases w.len() - j,
{
    if 0 <= j < w.len() && !spec_polyline_terminator(w[j]) {
        lemma_find_terminator_bounds(w, j + 1);
    }
}

/// Length in words of the GP0 command at the start of `w`, per the GP0
/// command table; `None` for an empty stream or an unterminated polyline.
/// Image transfers count their three header words only.
pub open spec fn spec_gp0_command_word_count(w: Seq<u32>) -> Option<usize> {
    if w.len() == 0 {
        None
    } else {
        let op = opcode_of(w[0]);
        if op == 0x02 {
            Some(3)
        } else if 0x20 <= op <= 0x3f {
            let vertices: usize = if op & 0x08u8 != 0 { 4 } else { 3 };
            let textured: usize = if op & 0x04u8 != 0 { vertices } else { 0 };
            let shaded: usize = if op & 0x10u8 != 0 { (vertices - 1) as usize } else { 0 };
            Some((1 + vertices + textured + shaded) as usize)
        } else if 0x40 <= op <= 0x5f {
            let shaded = op & 0x10u8 != 0;
            if op & 0x08u8 == 0 {
                Some(if shaded { 4 } else { 3 })
            } else {
                match spec_find_terminator(w, if shaded { 4 } else { 3 }) {
                    Some(j) => Some((j + 1) as usize),
                    None => None,
                }
            }
        } else if 0x60 <= op <= 0x7f {
            let textured: usize = if op & 0x04u8 != 0 { 1 } else { 0 };
            if (op >> 3u8) & 0x03u8 == 0 {
                Some((3 + textured) as usize)
            } else {
                Some((2 + textured) as usize)
            }
        } else if 0x80 <= op <= 0x9f {
            Some(4)
        } else if 0xa0 <= op <= 0xdf {
            Some(3)
        } else {
            Some(1)
        }
    }
}

pub fn gp0_command_word_count(words: &[u32]) -> (r: Option<usize>)
    ensures
        r == spec_gp0_command_word_count(words@),
        r matches Some(c) ==> 1 <= c,
{
    if words.len() == 0 {
        return None;
    }
    let op = command_opcode(words[0]);
    if op == 0x02 {
        Some(3)
    } else if 0x20 <= op && op <= 0x3f {
        let vertices: usize = if op & 0x08u8 != 0 { 4 } else { 3 };
        let textured: usize = if op & 0x04u8 != 0 { vertices } else { 0 };
        let shaded: usize = if op & 0x10u8 != 0 { vertices - 1 } else { 0 };
        Some(1 + vertices + textured + shaded)
    } else if 0x40 <= op && op <= 0x5f {
        let shaded = op & 0x10u8 != 0;
        if op & 0x08u8 == 0 {
            Some(if shaded { 4 } else { 3 })
        } else {
            let start: usize = if shaded { 4 } else { 3 };
            if start >= words.len() {
                return None;
            }
            let mut j = start;
            while j < words.len()
                invariant
                    start <= j <= words.len(),
                    start == (if shaded { 4int } else { 3int }),
                    words@.len() > 0,
                    op == opcode_of(words@[0]),
                    0x40 <= op <= 0x5f,
                    op & 0x08u8 != 0,
                    shaded == (op & 0x10u8 != 0),
                    spec_find_terminator(words@, start as int) == spec_find_terminator(
                        words@,
                        j as int,
                    ),
                decreases words.len() - j,
            {
                if words[j] & 0xf000_f000 == 0x5000_5000 {
                    assert(spec_find_terminator(words@, j as int) == Some(j as int));
                    assert(opcode_of(words@[0]) == op);
                    assert(spec_find_terminator(words@, if shaded { 4int } else { 3int }) == Some(
                        j as int,
                    ));
                    return Some(j + 1);
                }
                assert(spec_find_terminator(words@, j as int) == spec_find_terminator(
                    words@,
                    j as int + 1,
                ));
                j = j + 1;
            }
            None
        }
    } else if 0x60 <= op && op <= 0x7f {
        let textured: usize = if op & 0x04u8 != 0 { 1 } else { 0 };
        if (op >> 3u8) & 0x03u8 == 0 {
            Some(3 + textured)
        } else {
            Some(2 + textured)
        }
    } else if 0x80 <= op && op <= 0x9f {
        Some(4)
    } else if 0xa0 <= op && op <= 0xdf {
        Some(3)
    } else {
        Some(1)
    }
}

/// Ranges `(start, end)` of replayable draw commands in `w[offset..]`; a
/// replayable draw command starts its range at the first of the replayable
/// state commands right before it.
pub open spec fn spec_safe_draw_ranges_from(w: Seq<u32>, offset: int, pending: Option<int>) -> Seq<
    (int, int),
>
    decreases w.len() - offset,
{
    if offset < 0 || offset >= w.len() {
        seq![]
    } else {
        match spec_gp0_command_word_count(w.subrange(offset, w.len() as int)) {
            None => seq![],
            Some(c) => {
                if c == 0 || offset + c > w.len() {
                    seq![]
                } else {
                    let end = offset + c;
                    let command = w.subrange(offset, end);
                    if spec_is_replay_safe_state(command) {
                        spec_safe_draw_ranges_from(
                            w,
                            end,
                            if pending is Some { pending } else { Some(offset) },
                        )
                    } else if spec_is_replay_safe_draw(command) {
                        let start = match pending {
                            Some(p) => p,
                            None => offset,
                        };
                        seq![(start, end)] + spec_safe_draw_ranges_from(w, end, None)
                    } else {
                        spec_safe_draw_ranges_from(w, end, None)
                    }
                }
            },
        }
    }
}

pub open spec fn range_pairs(v: Seq<std::ops::Range<usize>>) -> Seq<(int, int)> {
    v.map_values(|r: std::ops::Range<usize>| (r.start as int, r.end as int))
}

/// The replayable draw commands of a command stream, each with its leading
/// state commands.
pub fn gp0_replay_safe_draw_command_ranges(words: &[u32]) -> (r: Vec<std::ops::Range<usize>>)
    ensures
        range_pairs(r@) == spec_safe_draw_ranges_from(words@, 0, None),
{
    let mut ranges: Vec<std::ops::Range<usize>> = Vec::new();
    let mut offset: usize = 0;
    let mut pending_state_start: Option<usize> = None;
    while offset < words.len()
        invariant
            offset <= words.len(),
            pending_state_start matches Some(p) ==> p <= offset,
            range_pairs(ranges@) + spec_safe_draw_ranges_from(
                words@,
                offset as int,
                match pending_state_start {
                    Some(p) => Some(p as int),
                    None => None,
                },
            ) == spec_safe_draw_ranges_from(words@, 0, None),
        ensures
            range_pairs(ranges@) == spec_safe_draw_ranges_from(words@, 0, None),
        decreases words.len() - offset,
    {
        let ghost pend = match pending_state_start {
            Some(p) => Some(p as int),
            None => None,
        };
        let rest = vstd::slice::slice_subrange(words, offset, words.len());
        let command_words = match gp0_command_word_count(rest) {
            Some(c) => c,
            None => {
                assert(spec_safe_draw_ranges_from(words@, offset as int, pend) =~= seq![]);
                assert(range_pairs(ranges@) + seq![] =~= range_pairs(ranges@));
                break;
            },
        };
        if command_words == 0 || command_words > words.len() - offset {
            assert(spec_safe_draw_ranges_from(words@, offset as int, pend) =~= seq![]);
            assert(range_pairs(ranges@) + seq![] =~= range_pairs(ranges@));
            break;
        }
        let end = offset + command_words;
        let command = vstd::slice::slice_subrange(words, offset, end);
        if gp0_command_is_replay_safe_state(command) {
            if pending_state_start.is_none() {
                pending_state_start = Some(offset);
            }
            offset = end;
            continue;
        }
        if gp0_command_is_replay_safe_draw(command) {
            let start = match pending_state_start {
                Some(p) => p,
                None => offset,
            };
            pending_state_start = None;
            let ghost before = range_pairs(ranges@);
            ranges.push(start..end);
            proof {
                assert(range_pairs(ranges@) == before.push((start as int, end as int)));
                assert(before.push((start as int, end as int)) + spec_safe_draw_ranges_from(
                    words@,
                    end as int,
                    None,
                ) == before + (seq![(start as int, end as int)] + spec_safe_draw_ranges_from(
                    words@,
                    end as int,
                    None,
                )));
            }
        } else {
            pending_state_start = None;
        }
        offset = end;
    }
    ranges
}


/// Ranges of the replayable state commands in `w[offset..]`.
pub open spec fn spec_safe_state_ranges_from(w: Seq<u32>, offset: int) -> Seq<(int, int)>
    decreases w.len() - offset,
{
    if offset < 0 || offset >= w.len() {
        seq![]
    } else {
        match spec_gp0_command_word_count(w.subrange(offset, w.len() as int)) {
            None => seq![],
            Some(c) => {
                if c == 0 || offset + c > w.len() {
                    seq![]
                } else {
                    let end = offset + c;
                    if spec_is_replay_safe_state(w.subrange(offset, end)) {
                        seq![(offset, end)] + spec_safe_state_ranges_from(w, end)
                    } else {
                        spec_safe_state_ranges_from(w, end)
                    }
                }
            },
        }
    }
}

/// The replayable state commands of a command stream.
pub fn gp0_replay_safe_state_command_ranges(words: &[u32]) -> (r: Vec<std::ops::Range<usize>>)
    ensures
        range_pairs(r@) == spec_safe_state_ranges_from(words@, 0),
{
    let mut ranges: Vec<std::ops::Range<usize>> = Vec::new();
    let mut offset: usize = 0;
    while offset < words.len()
        invariant
            offset <= words.len(),
            range_pairs(ranges@) + spec_safe_state_ranges_from(words@, offset as int)
                == spec_safe_state_ranges_from(words@, 0),
        ensures
            range_pairs(ranges@) == spec_safe_state_ranges_from(words@, 0),
        decreases words.len() - offset,
    {
        let rest = vstd::slice::slice_subrange(words, offset, words.len());
        let command_words = match gp0_command_word_count(rest) {
            Some(c) => c,
            None => {
                assert(spec_safe_state_ranges_from(words@, offset as int) =~= seq![]);
                assert(range_pairs(ranges@) + seq![] =~= range_pairs(ranges@));
                break;
            },
        };
        if command_words == 0 || command_words > words.len() - offset {
            assert(spec_safe_state_ranges_from(words@, offset as int) =~= seq![]);
            assert(range_pairs(ranges@) + seq![] =~= range_pairs(ranges@));
            break;
        }
        let end = offset + command_words;
        let command = vstd::slice::slice_subrange(words, offset, end);
        if gp0_command_is_replay_safe_state(command) {
            let ghost before = range_pairs(ranges@);
            ranges.push(offset..end);
            proof {
                assert(range_pairs(ranges@) == before.push((offset as int, end as int)));
                assert(before.push((offset as int, end as int)) + spec_safe_state_ranges_from(
                    words@,
                    end as int,
                ) == before + (seq![(offset as int, end as int)] + spec_safe_state_ranges_from(
                    words@,
                    end as int,
                )));
            }
        }
        offset = end;
    }
    ranges
}

/// Splits the commands gathered from an ordering-table node into GP0
/// commands: each range covers one command, or one word when the length is
/// unknown, cut short at the end of the node.
pub open spec fn spec_linked_list_ranges_from(w: Seq<u32>, offset: int) -> Seq<(int, int)>
    decreases w.len() - offset,
{
    if offset < 0 || offset >= w.len() {
        seq![]
    } else {
        let counted = match spec_gp0_command_word_count(w.subrange(offset, w.len() as int)) {
            Some(c) => c as int,
            None => 1,
        };
        let at_least_one = if counted < 1 { 1 } else { counted };
        let c = if at_least_one > w.len() - offset { w.len() - offset } else { at_least_one };
        seq![(offset, offset + c)] + spec_linked_list_ranges_from(w, offset + c)
    }
}

pub open spec fn command_words_of(commands: Seq<(u32, u32)>) -> Seq<u32> {
    commands.map_values(|c: (u32, u32)| c.1)
}

/// Command ranges of `(address, word)` pairs gathered from the ordering table.
pub fn gpu_linked_list_command_ranges(commands: &[(u32, u32)]) -> (r: Vec<std::ops::Range<usize>>)
    ensures
        range_pairs(r@) == spec_linked_list_ranges_from(command_words_of(commands@), 0),
{
    let mut words: Vec<u32> = Vec::new();
    let mut i: usize = 0;
    while i < commands.len()
        invariant
            i <= commands.len(),
            words@ == command_words_of(commands@).take(i as int),
        decreases commands.len() - i,
    {
        words.push(commands[i].1);
        i = i + 1;
    }
    assert(words@ == command_words_of(commands@));
    let ghost w = words@;
    let mut ranges: Vec<std::ops::Range<usize>> = Vec::new();
    let mut offset: usize = 0;
    while offset < words.len()
        invariant
            offset <= words.len(),
            words@ == w,
            range_pairs(ranges@) + spec_linked_list_ranges_from(w, offset as int)
                == spec_linked_list_ranges_from(w, 0),
        decreases words.len() - offset,
    {
        let rest = vstd::slice::slice_subrange(words.as_slice(), offset, words.len());
        let counted = match gp0_command_word_count(rest) {
            Some(c) => c,
            None => 1,
        };
        let at_least_one = if counted < 1 { 1 } else { counted };
        let remaining = words.len() - offset;
        let command_words = if at_least_one > remaining { remaining } else { at_least_one };
        let ghost before = range_pairs(ranges@);
        ranges.push(offset..offset + command_words);
        proof {
            assert(range_pairs(ranges@) == before.push(
                (offset as int, offset as int + command_words as int),
            ));
            assert(before.push((offset as int, offset as int + command_words as int))
                + spec_linked_list_ranges_from(w, offset as int + command_words as int) == before
                + (seq![(offset as int, offset as int + command_words as int)]
                + spec_linked_list_ranges_from(w, offset as int + command_words as int)));
        }
        offset = offset + command_words;
    }
    assert(range_pairs(ranges@) + seq![] =~= range_pairs(ranges@));
    ranges
}

/// Saturating sum of `counts[op]` over the draw opcodes `op` in `lo..hi`.
pub open spec fn spec_draw_count_below(counts: Seq<u32>, hi: int) -> u32
    decreases hi,
{
    if hi <= 0 {
        0
    } else {
        let rest = spec_draw_count_below(counts, hi - 1);
        if spec_looks_like_draw_primitive_opcode((hi - 1) as u8) {
            if rest + counts[hi - 1] > u32::MAX {
                u32::MAX
            } else {
                (rest + counts[hi - 1]) as u32
            }
        } else {
            rest
        }
    }
}

/// Saturating total of the draw-primitive opcode counters.
pub fn draw_primitive_count(counts: &[u32; 256]) -> (r: u32)
    ensures
        r == spec_draw_count_below(counts@, 256),
{
    let mut total: u32 = 0;
    let mut i: usize = 0;
    while i < 256
        invariant
            i <= 256,
            counts@.len() == 256,
            total == spec_draw_count_below(counts@, i as int),
        decreases 256 - i,
    {
        if looks_like_draw_primitive_opcode(i as u8) {
            total = total.saturating_add(counts[i]);
        }
        i = i + 1;
    }
    total
}


/// Ranges that lie inside `0..len`, each nonempty and starting at or after
/// `lo`, in increasing order without overlap.
pub open spec fn ranges_well_formed(r: Seq<(int, int)>, lo: int, len: int) -> bool {
    &&& forall|i: int| 0 <= i < r.len() ==> lo <= #[trigger] r[i].0 < r[i].1 <= len
    &&& forall|i: int, j: int| 0 <= i < j < r.len() ==> #[trigger] r[i].1 <= #[trigger] r[j].0
}

proof fn lemma_safe_draw_ranges_well_formed(w: Seq<u32>, offset: int, pending: Option<int>)
    requires
        0 <= offset,
        pending matches Some(p) ==> 0 <= p <= offset,
    ensures
        ranges_well_formed(
            spec_safe_draw_ranges_from(w, offset, pending),
            match pending {
                Some(p) => p,
                None => offset,
            },
            w.len() as int,
        ),
    decreases w.len() - offset,
{
    if offset < w.len() {
        match spec_gp0_command_word_count(w.subrange(offset, w.len() as int)) {
            None => {},
            Some(c) => {
                if !(c == 0 || offset + c > w.len()) {
                    let end = offset + c;
                    let command = w.subrange(offset, end);
                    if spec_is_replay_safe_state(command) {
                        lemma_safe_draw_ranges_well_formed(
                            w,
                            end,
                            if pending is Some { pending } else { Some(offset) },
                        );
                    } else if spec_is_replay_safe_draw(command) {
                        lemma_safe_draw_ranges_well_formed(w, end, None);
                        let start = match pending {
                            Some(p) => p,
                            None => offset,
                        };
                        let rest = spec_safe_draw_ranges_from(w, end, None);
                        let all = seq![(start, end)] + rest;
                        assert(all == spec_safe_draw_ranges_from(w, offset, pending));
                        assert forall|i: int, j: int| 0 <= i < j < all.len() implies #[trigger] all[i].1
                            <= #[trigger] all[j].0 by {
                            if i == 0 {
                                assert(all[j] == rest[j - 1]);
                            } else {
                                assert(all[i] == rest[i - 1]);
                                assert(all[j] == rest[j - 1]);
                            }
                        }
                        assert forall|i: int| 0 <= i < all.len() implies start <= #[trigger] all[i].0
                            < all[i].1 <= w.len() by {
                            if i > 0 {
                                assert(all[i] == rest[i - 1]);
                            }
                        }
                    } else {
                        lemma_safe_draw_ranges_well_formed(w, end, None);
                    }
                }
            },
        }
    }
}

/// Every range the replay scan reports lies inside the scanned stream, is
/// nonempty, and the ranges come in stream order without overlapping.
pub proof fn law_replay_draw_ranges_are_ordered_and_disjoint(words: Seq<u32>)
    ensures
        ranges_well_formed(spec_safe_draw_ranges_from(words, 0, None), 0, words.len() as int),
{
    lemma_safe_draw_ranges_well_formed(words, 0, None);
}

/// A command that may be replayed always has playfield bounds.
pub proof fn law_replay_safe_draw_has_playfield_bounds(words: Seq<u32>)
    ensures
        spec_is_replay_safe_draw(words) ==> spec_has_playfield_draw_bounds(words),
{
}

/// A draw command that may be replayed has bounds, and they are safe: x
/// within -256 to 896, y within -96 to 640, at most 768 by 576 pixels and
/// 360,000 pixels in all, reaching row 96 and starting above row 420; a
/// variable-size textured rectangle is at most 256 by 256; a draw with a
/// vertex at the origin covers at most 40,000 pixels; and a textured draw
/// holds no pointer into primitive RAM.
pub proof fn law_replayed_draws_are_bounded(words: Seq<u32>)
    ensures
        spec_is_replay_safe_draw(words) ==> spec_draw_bounds(words) is Some && ({
            let b = spec_draw_bounds(words)->0;
            let op = opcode_of(words[0]);
            &&& -256 <= b.min_x && b.max_x <= 896 && -96 <= b.min_y && b.max_y <= 640
            &&& b.spec_width() <= 768 && b.spec_height() <= 576 && b.spec_area() <= 360_000
            &&& b.max_y >= 96 && b.min_y < 420 && b.has_visible_x
            &&& 0x64 <= op <= 0x67 ==> b.spec_width() <= 256 && b.spec_height() <= 256
            &&& b.zero_vertices > 0 ==> b.spec_area() <= 40_000
            &&& spec_looks_like_textured_primitive_opcode(op) ==> b.primitive_pointer_words == 0
        }),
{
}

/// Title-screen artifacts are never replayed.
pub proof fn law_artifacts_are_never_replayed(words: Seq<u32>)
    ensures
        spec_is_linked_list_artifact_draw(words) ==> !spec_is_replay_safe_draw(words),
        forall|b: Gp0DrawBounds|
            spec_draw_bounds(words) == Some(b) && spec_is_title_overlay_atlas_replay_artifact(
                words,
                b,
            ) ==> !spec_is_replay_safe_draw(words),
{
}

} // verus!
