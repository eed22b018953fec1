//! Decoding of CPU addresses into the regions of the board's memory map.
use vstd::prelude::*;

verus! {

/// First byte of main RAM's 8 MiB mirror window (physical).
pub const RAM_WINDOW_END: u32 = 0x0080_0000;
/// First byte of the scratchpad (physical).
pub const SCRATCHPAD_BASE: u32 = 0x1f80_0000;
/// First byte of the I/O register window (physical).
pub const IO_REGION_START: u32 = 0x1f80_1000;
/// Last byte of the I/O register window (physical).
pub const IO_REGION_END: u32 = 0x1f80_2fff;
/// First byte of the banked ROM window (physical).
pub const BANKED_ROM_BASE: u32 = 0x1f00_0000;
/// Size of one bank of the banked ROM window.
pub const BANKED_ROM_WINDOW_LEN: u32 = 0x0080_0000;
/// First byte of the BIOS ROM (physical).
pub const ROM_BASE: u32 = 0x1fc0_0000;

/// Strips the KUSEG/KSEG0/KSEG1 segment bits off a CPU address.
pub open spec fn spec_physical(address: u32) -> u32 {
    address & 0x1fff_ffff
}

pub proof fn lemma_physical(address: u32)
    ensures
        spec_physical(address) == address % 0x2000_0000,
        spec_physical(address) <= 0x1fff_ffff,
{
    assert(address & 0x1fff_ffff == address % 0x2000_0000) by (bit_vector);
}

pub fn physical_address(address: u32) -> (r: u32)
    ensures
        r == spec_physical(address),
        r == address % 0x2000_0000,
        r <= 0x1fff_ffff,
{
    proof {
        lemma_physical(address);
    }
    address & 0x1fff_ffff
}

/// Offset into main RAM: the lower 8 MiB mirror main RAM modulo its size.
pub open spec fn spec_ram_offset(address: u32, ram_len: usize, access_len: usize) -> Option<usize> {
    let physical = spec_physical(address);
    if physical >= RAM_WINDOW_END || ram_len == 0 {
        None
    } else if (physical as int) % (ram_len as int) + access_len <= ram_len {
        Some(((physical as int) % (ram_len as int)) as usize)
    } else {
        None
    }
}

pub fn ram_offset(address: u32, ram_len: usize, access_len: usize) -> (r: Option<usize>)
    ensures
        r == spec_ram_offset(address, ram_len, access_len),
        r matches Some(offset) ==> offset + access_len <= ram_len,
{
    let physical = physical_address(address);
    if physical >= RAM_WINDOW_END || ram_len == 0 {
        return None;
    }
    let offset = physical as usize % ram_len;
    match offset.checked_add(access_len) {
        Some(end) if end <= ram_len => Some(offset),
        _ => None,
    }
}

/// Offset into the scratchpad, which starts at physical `0x1f80_0000`.
pub open spec fn spec_scratchpad_offset(
    address: u32,
    scratchpad_len: usize,
    access_len: usize,
) -> Option<usize> {
    let physical = spec_physical(address);
    if physical < SCRATCHPAD_BASE {
        None
    } else if (physical - SCRATCHPAD_BASE) + access_len <= scratchpad_len {
        Some((physical - SCRATCHPAD_BASE) as usize)
    } else {
        None
    }
}

pub fn scratchpad_offset(address: u32, scratchpad_len: usize, access_len: usize) -> (r: Option<
    usize,
>)
    ensures
        r == spec_scratchpad_offset(address, scratchpad_len, access_len),
        r matches Some(offset) ==> offset + access_len <= scratchpad_len,
{
    let physical = physical_address(address);
    if physical < SCRATCHPAD_BASE {
        return None;
    }
    let offset = (physical - SCRATCHPAD_BASE) as usize;
    match offset.checked_add(access_len) {
        Some(end) if end <= scratchpad_len => Some(offset),
        _ => None,
    }
}

/// Offset into the banked ROMs: the selected bank is mapped at physical
/// `0x1f00_0000` in windows of 8 MiB.
pub open spec fn spec_banked_rom_offset(
    address: u32,
    banked_rom_len: usize,
    access_len: usize,
    rom_bank: u8,
) -> Option<usize> {
    let physical = spec_physical(address);
    let offset = rom_bank * BANKED_ROM_WINDOW_LEN + (physical - BANKED_ROM_BASE);
    if !(BANKED_ROM_BASE <= physical < BANKED_ROM_BASE + BANKED_ROM_WINDOW_LEN) {
        None
    } else if offset + access_len <= banked_rom_len {
        Some(offset as usize)
    } else {
        None
    }
}

pub fn banked_rom_offset(
    address: u32,
    banked_rom_len: usize,
    access_len: usize,
    rom_bank: u8,
) -> (r: Option<usize>)
    ensures
        r == spec_banked_rom_offset(address, banked_rom_len, access_len, rom_bank),
        r matches Some(offset) ==> offset + access_len <= banked_rom_len,
{
    let physical = physical_address(address);
    if !(BANKED_ROM_BASE <= physical && physical < BANKED_ROM_BASE + BANKED_ROM_WINDOW_LEN) {
        return None;
    }
    let offset = rom_bank as usize * BANKED_ROM_WINDOW_LEN as usize + (physical
        - BANKED_ROM_BASE) as usize;
    match offset.checked_add(access_len) {
        Some(end) if end <= banked_rom_len => Some(offset),
        _ => None,
    }
}

/// Offset into the BIOS ROM at physical `0x1fc0_0000`.
pub open spec fn spec_rom_offset(address: u32, rom_len: usize, access_len: usize) -> Option<usize> {
    let physical = spec_physical(address);
    if physical < ROM_BASE {
        None
    } else if (physical - ROM_BASE) + access_len <= rom_len {
        Some((physical - ROM_BASE) as usize)
    } else {
        None
    }
}

pub fn rom_offset(address: u32, rom_len: usize, access_len: usize) -> (r: Option<usize>)
    ensures
        r == spec_rom_offset(address, rom_len, access_len),
        r matches Some(offset) ==> offset + access_len <= rom_len,
{
    let physical = physical_address(address);
    if physical < ROM_BASE {
        return None;
    }
    let offset = (physical - ROM_BASE) as usize;
    match offset.checked_add(access_len) {
        Some(end) if end <= rom_len => Some(offset),
        _ => None,
    }
}

/// The physical addresses decoded by the ZN board's own registers.
pub open spec fn spec_zn_board_address(p: u32) -> bool {
    ||| 0x1fa0_0000 <= p <= 0x1fa0_0003
    ||| 0x1fa0_0100 <= p <= 0x1fa0_0103
    ||| 0x1fa0_0200 <= p <= 0x1fa0_0203
    ||| 0x1fa0_0300 <= p <= 0x1fa0_0303
    ||| 0x1fa1_0000 <= p <= 0x1fa1_0003
    ||| 0x1fa1_0100 <= p <= 0x1fa1_0103
    ||| p == 0x1fa1_0200
    ||| p == 0x1fa1_0300
    ||| 0x1fa2_0000 <= p <= 0x1fa2_0003
    ||| 0x1fa3_0000 <= p <= 0x1fa3_0003
    ||| 0x1fa4_0000 <= p <= 0x1fa4_0003
    ||| 0x1fa6_0000 <= p <= 0x1fa6_0001
    ||| 0x1faf_0000 <= p <= 0x1faf_07ff
    ||| p == 0x1fb0_0004
    ||| 0x1fb2_0000 <= p <= 0x1fb2_0007
}

pub fn zn_board_address(p: u32) -> (r: bool)
    ensures
        r == spec_zn_board_address(p),
{
    (0x1fa0_0000 <= p && p <= 0x1fa0_0003) || (0x1fa0_0100 <= p && p <= 0x1fa0_0103) || (
    0x1fa0_0200 <= p && p <= 0x1fa0_0203) || (0x1fa0_0300 <= p && p <= 0x1fa0_0303) || (
    0x1fa1_0000 <= p && p <= 0x1fa1_0003) || (0x1fa1_0100 <= p && p <= 0x1fa1_0103) || p
        == 0x1fa1_0200 || p == 0x1fa1_0300 || (0x1fa2_0000 <= p && p <= 0x1fa2_0003) || (
    0x1fa3_0000 <= p && p <= 0x1fa3_0003) || (0x1fa4_0000 <= p && p <= 0x1fa4_0003) || (
    0x1fa6_0000 <= p && p <= 0x1fa6_0001) || (0x1faf_0000 <= p && p <= 0x1faf_07ff) || p
        == 0x1fb0_0004 || (0x1fb2_0000 <= p && p <= 0x1fb2_0007)
}

pub fn mapped_zn_board_address(address: u32) -> (r: Option<u32>)
    ensures
        r == (if spec_zn_board_address(spec_physical(address)) {
            Some(spec_physical(address))
        } else {
            None
        }),
{
    let physical = physical_address(address);
    if zn_board_address(physical) {
        Some(physical)
    } else {
        None
    }
}

/// The 32-bit register a board access falls into: the AT28C16 EEPROM is
/// byte-addressed, every other register is a word.
pub open spec fn spec_board_register_base(address: u32) -> u32 {
    let p = spec_physical(address);
    if 0x1faf_0000 <= p <= 0x1faf_07ff {
        p
    } else {
        p & !0x03u32
    }
}

pub fn board_register_base(address: u32) -> (r: u32)
    ensures
        r == spec_board_register_base(address),
        r <= spec_physical(address) <= r + 3,
        spec_physical(r) == r,
{
    let physical = physical_address(address);
    proof {
        assert(physical & !0x03u32 <= physical <= (physical & !0x03u32) + 3) by (bit_vector);
        assert(physical <= 0x1fff_ffff ==> (physical & !0x03u32) & 0x1fff_ffff == physical
            & !0x03u32) by (bit_vector);
        assert(physical <= 0x1fff_ffff ==> physical & 0x1fff_ffff == physical) by (bit_vector);
    }
    if 0x1faf_0000 <= physical && physical <= 0x1faf_07ff {
        physical
    } else {
        physical & !0x03
    }
}

/// Mask of the bytes touched by an access of `access_len` bytes.
pub open spec fn spec_lane_mask(access_len: usize) -> u32 {
    if access_len == 1 {
        0xff
    } else if access_len == 2 {
        0xffff
    } else {
        u32::MAX
    }
}

/// Extracts the bytes of a register seen by an access at `address`.
pub open spec fn spec_board_read_lane(value: u32, base: u32, address: u32, access_len: usize) -> u32 {
    let shift = ((spec_physical(address) - spec_physical(base)) * 8) as u32;
    (value >> shift) & spec_lane_mask(access_len)
}

pub fn board_read_lane(value: u32, base: u32, address: u32, access_len: usize) -> (r: u32)
    requires
        spec_physical(base) <= spec_physical(address) <= spec_physical(base) + 3,
    ensures
        r == spec_board_read_lane(value, base, address, access_len),
{
    let physical_base = physical_address(base);
    let physical = physical_address(address);
    let shifted = value >> ((physical - physical_base) * 8);
    proof {
        assert(shifted & u32::MAX == shifted) by (bit_vector);
    }
    if access_len == 1 {
        shifted & 0xff
    } else if access_len == 2 {
        shifted & 0xffff
    } else {
        shifted
    }
}

/// Replaces the bytes of a register written by an access at `address`.
pub open spec fn spec_board_write_lane(
    current: u32,
    base: u32,
    address: u32,
    value: u32,
    access_len: usize,
) -> u32 {
    let shift = ((spec_physical(address) - spec_physical(base)) * 8) as u32;
    let mask = spec_lane_mask(access_len) << shift;
    (current & !mask) | ((value << shift) & mask)
}

pub fn board_write_lane(current: u32, base: u32, address: u32, value: u32, access_len: usize) -> (r:
    u32)
    requires
        spec_physical(base) <= spec_physical(address) <= spec_physical(base) + 3,
    ensures
        r == spec_board_write_lane(current, base, address, value, access_len),
{
    let physical_base = physical_address(base);
    let physical = physical_address(address);
    let shift = (physical - physical_base) * 8;
    let lane: u32 = if access_len == 1 {
        0xff
    } else if access_len == 2 {
        0xffff
    } else {
        u32::MAX
    };
    let mask = lane << shift;
    (current & !mask) | ((value << shift) & mask)
}

/// Byte `k` (from the low end) of a register value.
pub open spec fn register_byte(value: u32, k: int) -> u32 {
    (value >> ((8 * k) as u32)) & 0xff
}

proof fn lemma_lane_bits(current: u32, value: u32, s: u32, m: u32, w: u32, t: u32)
    by (bit_vector)
    requires
        (m == 0xff && w == 8 && (s == 0 || s == 8 || s == 16 || s == 24)) || (m == 0xffff && w
            == 16 && (s == 0 || s == 8 || s == 16)) || (m == 0xffff_ffff && w == 32 && s == 0),
        t == 0 || t == 8 || t == 16 || t == 24,
    ensures
        (((current & !(m << s)) | ((value << s) & (m << s))) >> s) & m == value & m,
        t < s || t >= s + w ==> (((current & !(m << s)) | ((value << s) & (m << s))) >> t) & 0xff
            == (current >> t) & 0xff,
{
}

/// Writing a lane into a register and reading the same lane back gives the
/// value written, cut to the access width; every byte of the register
/// outside the lane keeps what it held. This holds for each access that
/// fits in the register: a byte at any offset, a halfword at offsets 0 to
/// 2, a word at offset 0.
pub proof fn law_lane_write_then_read(
    current: u32,
    base: u32,
    address: u32,
    value: u32,
    access_len: usize,
)
    requires
        access_len == 1 || access_len == 2 || access_len == 4,
        spec_physical(base) <= spec_physical(address),
        spec_physical(address) + access_len <= spec_physical(base) + 4,
    ensures
        spec_board_read_lane(
            spec_board_write_lane(current, base, address, value, access_len),
            base,
            address,
            access_len,
        ) == value & spec_lane_mask(access_len),
        forall|k: int|
            0 <= k < 4 && (k < spec_physical(address) - spec_physical(base) || k >= spec_physical(
                address,
            ) - spec_physical(base) + access_len) ==> #[trigger] register_byte(
                spec_board_write_lane(current, base, address, value, access_len),
                k,
            ) == register_byte(current, k),
{
    let off = spec_physical(address) - spec_physical(base);
    let s = (off * 8) as u32;
    let m = spec_lane_mask(access_len);
    let w = (access_len * 8) as u32;
    lemma_lane_bits(current, value, s, m, w, 0);
    assert forall|k: int|
        0 <= k < 4 && (k < off || k >= off + access_len) implies #[trigger] register_byte(
        spec_board_write_lane(current, base, address, value, access_len),
        k,
    ) == register_byte(current, k) by {
        lemma_lane_bits(current, value, s, m, w, (8 * k) as u32);
    }
}

/// Whether the physical address lies in the I/O register window.
pub open spec fn spec_io_address(address: u32) -> Option<u32> {
    let p = spec_physical(address);
    if IO_REGION_START <= p <= IO_REGION_END {
        Some(p)
    } else {
        None
    }
}

pub fn io_address(address: u32) -> (r: Option<u32>)
    ensures
        r == spec_io_address(address),
{
    let physical = physical_address(address);
    if IO_REGION_START <= physical && physical <= IO_REGION_END {
        Some(physical)
    } else {
        None
    }
}

/// An I/O access of 1, 2 or 4 bytes that stays inside the I/O window.
pub open spec fn spec_mapped_io_address(address: u32, access_len: usize) -> Option<u32> {
    match spec_io_address(address) {
        Some(p) => if (access_len == 1 || access_len == 2 || access_len == 4) && p + access_len
            <= IO_REGION_END + 1 {
            Some(p)
        } else {
            None
        },
        None => None,
    }
}

pub fn mapped_io_address(address: u32, access_len: usize) -> (r: Option<u32>)
    ensures
        r == spec_mapped_io_address(address, access_len),
{
    match io_address(address) {
        Some(p) => {
            if (access_len == 1 || access_len == 2 || access_len == 4) && (p as usize)
                + access_len <= IO_REGION_END as usize + 1 {
                Some(p)
            } else {
                None
            }
        },
        None => None,
    }
}

/// The CPU cache control register, seen at `0xfffe_0130`.
pub open spec fn spec_cache_control_address(address: u32) -> bool {
    address == 0xfffe_0130 || spec_physical(address) == 0x1ffe_0130
}

pub fn cache_control_address(address: u32) -> (r: bool)
    ensures
        r == spec_cache_control_address(address),
{
    address == 0xfffe_0130 || physical_address(address) == 0x1ffe_0130
}

/// KUSEG and KSEG0 accesses go through the cache; KSEG1 does not.
pub open spec fn spec_cacheable_address(address: u32) -> bool {
    address < 0xa000_0000
}

pub fn cacheable_address(address: u32) -> (r: bool)
    ensures
        r == spec_cacheable_address(address),
{
    address < 0xa000_0000
}

/// Whether two half-open ranges share at least one address.
pub open spec fn spec_ranges_overlap(ls: u32, le: u32, rs: u32, re: u32) -> bool {
    ls < re && rs < le
}

pub fn ranges_overlap(left_start: u32, left_end: u32, right_start: u32, right_end: u32) -> (r:
    bool)
    ensures
        r == spec_ranges_overlap(left_start, left_end, right_start, right_end),
{
    left_start < right_end && right_start < left_end
}

/// Distance from an address to the closed range `low..=high` (zero inside).
pub open spec fn spec_distance_to_range(address: u32, low: u32, high: u32) -> u32 {
    if low <= address <= high {
        0
    } else {
        let to_low = if address >= low { address - low } else { low - address };
        let to_high = if address >= high { address - high } else { high - address };
        (if to_low <= to_high { to_low } else { to_high }) as u32
    }
}

pub fn distance_to_range(address: u32, low: u32, high: u32) -> (r: u32)
    ensures
        r == spec_distance_to_range(address, low, high),
{
    if low <= address && address <= high {
        0
    } else {
        let to_low = if address >= low { address - low } else { low - address };
        let to_high = if address >= high { address - high } else { high - address };
        if to_low <= to_high { to_low } else { to_high }
    }
}

/// `x` lies in the half-open range `start..end`.
pub open spec fn in_half_open(x: u32, start: u32, end: u32) -> bool {
    start <= x < end
}

/// Two non-empty half-open ranges overlap exactly when some address lies
/// in both.
pub proof fn law_ranges_overlap_share_an_address(ls: u32, le: u32, rs: u32, re: u32)
    requires
        ls < le,
        rs < re,
    ensures
        spec_ranges_overlap(ls, le, rs, re) <==> exists|x: u32| #[trigger]
            in_half_open(x, ls, le) && in_half_open(x, rs, re),
{
    if spec_ranges_overlap(ls, le, rs, re) {
        let x = if ls >= rs { ls } else { rs };
        assert(in_half_open(x, ls, le) && in_half_open(x, rs, re));
    }
}

/// For a well-formed range `low..=high`, the distance is zero inside it,
/// the gap to `low` below it, and the gap to `high` above it.
pub proof fn law_distance_to_range(address: u32, low: u32, high: u32)
    requires
        low <= high,
    ensures
        low <= address <= high ==> spec_distance_to_range(address, low, high) == 0,
        address < low ==> spec_distance_to_range(address, low, high) == low - address,
        address > high ==> spec_distance_to_range(address, low, high) == address - high,
{
}

/// Little-endian value of the first (at most four) bytes.
pub open spec fn spec_le_u32(s: Seq<u8>) -> u32 {
    if s.len() == 0 {
        0
    } else if s.len() == 1 {
        s[0] as u32
    } else if s.len() == 2 {
        (s[0] as u32) | ((s[1] as u32) << 8u32)
    } else if s.len() == 3 {
        (s[0] as u32) | ((s[1] as u32) << 8u32) | ((s[2] as u32) << 16u32)
    } else {
        (s[0] as u32) | ((s[1] as u32) << 8u32) | ((s[2] as u32) << 16u32) | ((s[3] as u32)
            << 24u32)
    }
}

/// The value of one or two bytes fits in one or two bytes.
pub proof fn lemma_le_fits(s: Seq<u8>)
    ensures
        s.len() == 1 ==> spec_le_u32(s) <= 0xff,
        s.len() == 2 ==> spec_le_u32(s) <= 0xffff,
{
    if s.len() == 2 {
        let a = s[0];
        let b = s[1];
        assert((a as u32) | ((b as u32) << 8u32) <= 0xffff) by (bit_vector);
    }
}

pub fn bytes_to_le_u32(bytes: &[u8]) -> (r: u32)
    ensures
        r == spec_le_u32(bytes@),
{
    let len = bytes.len();
    if len == 0 {
        0
    } else if len == 1 {
        bytes[0] as u32
    } else if len == 2 {
        (bytes[0] as u32) | ((bytes[1] as u32) << 8u32)
    } else if len == 3 {
        (bytes[0] as u32) | ((bytes[1] as u32) << 8u32) | ((bytes[2] as u32) << 16u32)
    } else {
        (bytes[0] as u32) | ((bytes[1] as u32) << 8u32) | ((bytes[2] as u32) << 16u32) | ((
        bytes[3] as u32) << 24u32)
    }
}

/// Little-endian value of the `len` (at most four) bytes of `v` at `offset`.
pub fn le_u32_at(v: &Vec<u8>, offset: usize, len: usize) -> (r: u32)
    requires
        len <= 4,
        offset + len <= v@.len(),
    ensures
        r == spec_le_u32(v@.subrange(offset as int, offset + len)),
{
    let _n = v.len();
    if len == 0 {
        0
    } else if len == 1 {
        v[offset] as u32
    } else if len == 2 {
        (v[offset] as u32) | ((v[offset + 1] as u32) << 8u32)
    } else if len == 3 {
        (v[offset] as u32) | ((v[offset + 1] as u32) << 8u32) | ((v[offset + 2] as u32) << 16u32)
    } else {
        (v[offset] as u32) | ((v[offset + 1] as u32) << 8u32) | ((v[offset + 2] as u32) << 16u32)
            | ((v[offset + 3] as u32) << 24u32)
    }
}

/// A copy of the `len` bytes of `v` at `offset`.
pub fn copy_bytes(v: &Vec<u8>, offset: usize, len: usize) -> (r: Vec<u8>)
    requires
        offset + len <= v@.len(),
    ensures
        r@ == v@.subrange(offset as int, offset + len),
{
    let n = v.len();
    let mut out: Vec<u8> = Vec::new();
    let mut i: usize = 0;
    while i < len
        invariant
            i <= len,
            offset + len <= v@.len(),
            n == v@.len(),
            out@ == v@.subrange(offset as int, offset + i),
        decreases len - i,
    {
        out.push(v[offset + i]);
        i = i + 1;
        proof {
            assert(out@ =~= v@.subrange(offset as int, offset + i));
        }
    }
    out
}

/// A copy of a byte slice.
pub fn copy_bytes_slice(bytes: &[u8]) -> (r: Vec<u8>)
    ensures
        r@ == bytes@,
{
    let mut out: Vec<u8> = Vec::new();
    let mut i: usize = 0;
    while i < bytes.len()
        invariant
            i <= bytes@.len(),
            out@ == bytes@.take(i as int),
        decreases bytes@.len() - i,
    {
        out.push(bytes[i]);
        i = i + 1;
        proof {
            assert(out@ =~= bytes@.take(i as int));
        }
    }
    proof {
        assert(bytes@.take(bytes@.len() as int) =~= bytes@);
    }
    out
}

/// `v` with `bytes` stored at `offset`.
pub open spec fn spec_spliced(v: Seq<u8>, offset: int, bytes: Seq<u8>) -> Seq<u8> {
    v.subrange(0, offset) + bytes + v.subrange(offset + bytes.len(), v.len() as int)
}

/// Stores `bytes` into `v` at `offset`.
pub fn store_bytes(v: &mut Vec<u8>, offset: usize, bytes: &[u8])
    requires
        offset + bytes@.len() <= old(v)@.len(),
    ensures
        final(v)@ == spec_spliced(old(v)@, offset as int, bytes@),
{
    let n = v.len();
    let mut i: usize = 0;
    while i < bytes.len()
        invariant
            i <= bytes@.len(),
            offset + bytes@.len() <= old(v)@.len(),
            n == old(v)@.len(),
            v@ == spec_spliced(old(v)@, offset as int, bytes@.take(i as int)),
        decreases bytes@.len() - i,
    {
        v.set(offset + i, bytes[i]);
        i = i + 1;
        proof {
            assert(v@ =~= spec_spliced(old(v)@, offset as int, bytes@.take(i as int)));
        }
    }
    proof {
        assert(bytes@.take(bytes@.len() as int) =~= bytes@);
    }
}

/// The four little-endian bytes of a word.
pub open spec fn spec_le_bytes(value: u32) -> Seq<u8> {
    seq![
        (value & 0xff) as u8,
        ((value >> 8u32) & 0xff) as u8,
        ((value >> 16u32) & 0xff) as u8,
        ((value >> 24u32) & 0xff) as u8,
    ]
}

/// Reading back the four little-endian bytes of a word gives the word.
pub proof fn lemma_le_roundtrip(value: u32)
    ensures
        spec_le_u32(spec_le_bytes(value)) == value,
        spec_le_bytes(value).len() == 4,
{
    assert((((value & 0xff) as u8) as u32) | (((((value >> 8u32) & 0xff) as u8) as u32)
        << 8u32) | (((((value >> 16u32) & 0xff) as u8) as u32) << 16u32) | (((((value
        >> 24u32) & 0xff) as u8) as u32) << 24u32) == value) by (bit_vector);
}

pub fn le_bytes(value: u32) -> (r: Vec<u8>)
    ensures
        r@ == spec_le_bytes(value),
        spec_le_u32(r@) == value,
{
    let b0 = (value & 0xff) as u8;
    let b1 = ((value >> 8u32) & 0xff) as u8;
    let b2 = ((value >> 16u32) & 0xff) as u8;
    let b3 = ((value >> 24u32) & 0xff) as u8;
    proof {
        assert((((value & 0xff) as u8) as u32) | (((((value >> 8u32) & 0xff) as u8) as u32)
            << 8u32) | (((((value >> 16u32) & 0xff) as u8) as u32) << 16u32) | (((((value
            >> 24u32) & 0xff) as u8) as u32) << 24u32) == value) by (bit_vector);
    }
    let mut r = Vec::new();
    r.push(b0);
    r.push(b1);
    r.push(b2);
    r.push(b3);
    r
}

/// Repeats the low byte of a port value on all four byte lanes.
pub open spec fn spec_mirrored_input_port(value: u32) -> u32 {
    let byte = value & 0xff;
    byte | (byte << 8u32) | (byte << 16u32) | (byte << 24u32)
}

pub fn mirrored_input_port(value: u32) -> (r: u32)
    ensures
        r == spec_mirrored_input_port(value),
{
    let byte = value & 0xff;
    byte | (byte << 8u32) | (byte << 16u32) | (byte << 24u32)
}

proof fn lemma_mirrored_byte(value: u32, t: u32)
    by (bit_vector)
    requires
        t == 0 || t == 8 || t == 16 || t == 24,
    ensures
        (((value & 0xff) | ((value & 0xff) << 8u32) | ((value & 0xff) << 16u32) | ((value & 0xff)
            << 24u32)) >> t) & 0xff == value & 0xff,
{
}

/// A mirrored input port repeats the port's low byte in each of the four
/// bytes of the word.
pub proof fn law_mirrored_input_port(value: u32)
    ensures
        forall|k: int| 0 <= k < 4 ==> #[trigger] register_byte(spec_mirrored_input_port(value), k)
            == value & 0xff,
{
    assert forall|k: int| 0 <= k < 4 implies #[trigger] register_byte(
        spec_mirrored_input_port(value),
        k,
    ) == value & 0xff by {
        lemma_mirrored_byte(value, (8 * k) as u32);
    }
}

} // verus!
