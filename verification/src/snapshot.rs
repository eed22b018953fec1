//! Copies of code the game's boot loader writes to RAM, served in place of
//! RAM once the game has corrupted its own copy.
//!
//! Two copies are kept. The runtime code copy records whatever the boot word
//! copy loop stores in `0x002c_0000..0x0037_0000`; it is served to
//! instruction fetches of the very address being executed, and to reads of a
//! few boot globals that RAM has lost (zeroed). The code patch copy records
//! the first write to every byte of `0x002c_c100..0x002c_c220`; once every
//! byte has been written it is frozen and served to all reads of that range.
use vstd::prelude::*;
use crate::address::{copy_bytes, le_u32_at, physical_address, spec_le_u32, spec_physical};

verus! {

pub const BR2_RUNTIME_CODE_SNAPSHOT_START: u32 = 0x002c_0000;
pub const BR2_RUNTIME_CODE_SNAPSHOT_END: u32 = 0x0037_0000;
pub const BR2_RUNTIME_CODE_SNAPSHOT_LEN: usize = 0x000b_0000;
pub const BR2_CODE_PATCH_SNAPSHOT_START: u32 = 0x002c_c100;
pub const BR2_CODE_PATCH_SNAPSHOT_END: u32 = 0x002c_c220;
pub const BR2_CODE_PATCH_SNAPSHOT_LEN: usize = 0x120;
/// Physical PC of the boot loader's word copy loop.
pub const BR2_BOOT_WORD_COPY_LOOP_PHYSICAL: u32 = 0x0001_011c;

/// Boot globals whose lost (zero) values are restored from the runtime copy:
/// the dispatch table pointer block and the GPU status pointer.
pub open spec fn spec_in_boot_global_fallback_range(start: int, end: int) -> bool {
    ||| (0x0036_643c <= start && end <= 0x0036_6480)
    ||| (0x0036_658c <= start && end <= 0x0036_6590)
}

/// Physical address of the `i`-th byte of an access at `address`.
pub open spec fn spec_byte_physical(address: u32, i: int) -> u32 {
    let k = #[verifier::truncate] (i as u32);
    let a = if address + k > u32::MAX {
        (address + k - 0x1_0000_0000) as u32
    } else {
        (address + k) as u32
    };
    spec_physical(a)
}

/// Stores `byte` at `physical` into a copy of `[start, start + len)`,
/// marking it valid; bytes outside the range are dropped.
pub open spec fn spec_put(
    copy: (Seq<u8>, Seq<bool>),
    start: u32,
    physical: u32,
    byte: u8,
) -> (Seq<u8>, Seq<bool>) {
    let k = physical - start;
    if 0 <= k < copy.0.len() {
        (copy.0.update(k, byte), copy.1.update(k, true))
    } else {
        copy
    }
}

/// The copy after storing the first `n` bytes of an access at `address`,
/// in order.
pub open spec fn spec_put_bytes(
    copy: (Seq<u8>, Seq<bool>),
    start: u32,
    address: u32,
    bytes: Seq<u8>,
    n: nat,
) -> (Seq<u8>, Seq<bool>)
    decreases n,
{
    if n == 0 {
        copy
    } else {
        let before = spec_put_bytes(copy, start, address, bytes, (n - 1) as nat);
        spec_put(before, start, spec_byte_physical(address, n - 1), bytes[n - 1])
    }
}

/// Bytes of an access to a low physical address stay at consecutive
/// physical addresses.
pub proof fn lemma_low_byte_physical(address: u32, i: int)
    requires
        0 <= i,
        address + i <= 0x1fff_ffff,
    ensures
        spec_byte_physical(address, i) == address + i,
{
    let a = (address + i) as u32;
    assert(a <= 0x1fff_ffff ==> a & 0x1fff_ffff == a) by (bit_vector);
}

/// Storing bytes that all fall outside the copied range changes nothing.
pub proof fn lemma_put_bytes_outside(
    copy: (Seq<u8>, Seq<bool>),
    start: u32,
    address: u32,
    bytes: Seq<u8>,
    n: nat,
)
    requires
        forall|i: int|
            0 <= i < n ==> !(0 <= #[trigger] spec_byte_physical(address, i) - start < copy.0.len()),
    ensures
        spec_put_bytes(copy, start, address, bytes, n) == copy,
    decreases n,
{
    if n > 0 {
        lemma_put_bytes_outside(copy, start, address, bytes, (n - 1) as nat);
        assert(!(0 <= spec_byte_physical(address, n - 1) - start < copy.0.len()));
    }
}

/// Whether `pc` is executing at `address` (both taken physically).
pub open spec fn spec_executing(pc: Option<u32>, address: u32) -> bool {
    match pc {
        Some(p) => spec_physical(p) == spec_physical(address),
        None => false,
    }
}

pub open spec fn opt_view(v: Option<Vec<u8>>) -> Option<Seq<u8>> {
    match v {
        Some(v) => Some(v@),
        None => None,
    }
}

/// Whether every byte of `valid[offset..offset + len]` is set.
pub open spec fn spec_all_valid(valid: Seq<bool>, offset: int, len: int) -> bool {
    forall|k: int| offset <= k < offset + len ==> #[trigger] valid[k]
}

#[derive(Clone, Debug)]
pub struct CodeSnapshots {
    pub runtime: Vec<u8>,
    pub runtime_valid: Vec<bool>,
    pub patch: Vec<u8>,
    pub patch_valid: Vec<bool>,
    pub patch_frozen: bool,
}

impl CodeSnapshots {
    pub open spec fn wf(self) -> bool {
        &&& self.runtime@.len() == BR2_RUNTIME_CODE_SNAPSHOT_LEN
        &&& self.runtime_valid@.len() == BR2_RUNTIME_CODE_SNAPSHOT_LEN
        &&& self.patch@.len() == BR2_CODE_PATCH_SNAPSHOT_LEN
        &&& self.patch_valid@.len() == BR2_CODE_PATCH_SNAPSHOT_LEN
        &&& self.patch_frozen == spec_all_valid(self.patch_valid@, 0, BR2_CODE_PATCH_SNAPSHOT_LEN as int)
    }

    /// Nothing recorded yet.
    pub fn new() -> (r: Self)
        ensures
            r.wf(),
            forall|k: int| 0 <= k < BR2_RUNTIME_CODE_SNAPSHOT_LEN ==> !r.runtime_valid@[k],
            forall|k: int| 0 <= k < BR2_CODE_PATCH_SNAPSHOT_LEN ==> !r.patch_valid@[k],
            !r.patch_frozen,
    {
        let r = CodeSnapshots {
            runtime: vec![0u8; BR2_RUNTIME_CODE_SNAPSHOT_LEN],
            runtime_valid: vec![false; BR2_RUNTIME_CODE_SNAPSHOT_LEN],
            patch: vec![0u8; BR2_CODE_PATCH_SNAPSHOT_LEN],
            patch_valid: vec![false; BR2_CODE_PATCH_SNAPSHOT_LEN],
            patch_frozen: false,
        };
        assert(!r.patch_valid@[0]);
        r
    }

    /// Stores one byte into the copy of `[start, start + len)`.
    fn put(data: &mut Vec<u8>, valid: &mut Vec<bool>, start: u32, physical: u32, byte: u8)
        requires
            old(data)@.len() == old(valid)@.len(),
        ensures
            (final(data)@, final(valid)@) == spec_put((old(data)@, old(valid)@), start, physical, byte),
    {
        if physical >= start && ((physical - start) as usize) < data.len() {
            let k = (physical - start) as usize;
            data.set(k, byte);
            valid.set(k, true);
        }
    }

    pub open spec fn spec_runtime_copy(self) -> (Seq<u8>, Seq<bool>) {
        (self.runtime@, self.runtime_valid@)
    }

    pub open spec fn spec_patch_copy(self) -> (Seq<u8>, Seq<bool>) {
        (self.patch@, self.patch_valid@)
    }

    /// Whether a write is made by the boot word copy loop.
    pub open spec fn spec_boot_copy_write(pc: Option<u32>) -> bool {
        match pc {
            Some(p) => spec_physical(p) == BR2_BOOT_WORD_COPY_LOOP_PHYSICAL,
            None => false,
        }
    }

    /// Records the bytes the boot copy loop stores in the runtime code range.
    pub fn record_runtime_write(&mut self, address: u32, bytes: &[u8], pc: Option<u32>)
        requires
            old(self).wf(),
        ensures
            final(self).wf(),
            final(self).spec_runtime_copy() == (if bytes@.len() > 0
                && Self::spec_boot_copy_write(pc) {
                spec_put_bytes(
                    old(self).spec_runtime_copy(),
                    BR2_RUNTIME_CODE_SNAPSHOT_START,
                    address,
                    bytes@,
                    bytes@.len(),
                )
            } else {
                old(self).spec_runtime_copy()
            }),
            final(self).patch == old(self).patch,
            final(self).patch_valid == old(self).patch_valid,
            final(self).patch_frozen == old(self).patch_frozen,
    {
        let boot = match pc {
            Some(p) => physical_address(p) == BR2_BOOT_WORD_COPY_LOOP_PHYSICAL,
            None => false,
        };
        if bytes.len() == 0 || !boot {
            return;
        }
        let mut i: usize = 0;
        while i < bytes.len()
            invariant
                self.wf(),
                i <= bytes@.len(),
                self.spec_runtime_copy() == spec_put_bytes(
                    old(self).spec_runtime_copy(),
                    BR2_RUNTIME_CODE_SNAPSHOT_START,
                    address,
                    bytes@,
                    i as nat,
                ),
                self.patch == old(self).patch,
                self.patch_valid == old(self).patch_valid,
                self.patch_frozen == old(self).patch_frozen,
            decreases bytes@.len() - i,
        {
            let physical = physical_address(address.wrapping_add(#[verifier::truncate] (i as u32)));
            Self::put(
                &mut self.runtime,
                &mut self.runtime_valid,
                BR2_RUNTIME_CODE_SNAPSHOT_START,
                physical,
                bytes[i],
            );
            i = i + 1;
        }
    }

    /// Whether every byte of the patch copy has been recorded.
    pub fn all_patch_bytes_valid(&self) -> (r: bool)
        requires
            self.patch_valid@.len() == BR2_CODE_PATCH_SNAPSHOT_LEN,
        ensures
            r == spec_all_valid(self.patch_valid@, 0, BR2_CODE_PATCH_SNAPSHOT_LEN as int),
    {
        let mut i: usize = 0;
        while i < self.patch_valid.len()
            invariant
                self.patch_valid@.len() == BR2_CODE_PATCH_SNAPSHOT_LEN,
                i <= self.patch_valid@.len(),
                spec_all_valid(self.patch_valid@, 0, i as int),
            decreases self.patch_valid@.len() - i,
        {
            if !self.patch_valid[i] {
                return false;
            }
            i = i + 1;
        }
        true
    }

    /// Records writes to the patch range until every byte of it has been
    /// written; the copy is then frozen.
    pub fn record_patch_write(&mut self, address: u32, bytes: &[u8])
        requires
            old(self).wf(),
        ensures
            final(self).wf(),
            final(self).runtime == old(self).runtime,
            final(self).runtime_valid == old(self).runtime_valid,
            if old(self).patch_frozen || bytes@.len() == 0 {
                &&& final(self).spec_patch_copy() == old(self).spec_patch_copy()
                &&& final(self).patch_frozen == old(self).patch_frozen
            } else {
                &&& final(self).spec_patch_copy() == spec_put_bytes(
                    old(self).spec_patch_copy(),
                    BR2_CODE_PATCH_SNAPSHOT_START,
                    address,
                    bytes@,
                    bytes@.len(),
                )
                &&& final(self).patch_frozen == spec_all_valid(
                    final(self).patch_valid@,
                    0,
                    BR2_CODE_PATCH_SNAPSHOT_LEN as int,
                )
            },
    {
        if self.patch_frozen || bytes.len() == 0 {
            return;
        }
        let mut i: usize = 0;
        while i < bytes.len()
            invariant
                self.runtime@.len() == BR2_RUNTIME_CODE_SNAPSHOT_LEN,
                self.runtime_valid@.len() == BR2_RUNTIME_CODE_SNAPSHOT_LEN,
                self.patch@.len() == BR2_CODE_PATCH_SNAPSHOT_LEN,
                self.patch_valid@.len() == BR2_CODE_PATCH_SNAPSHOT_LEN,
                i <= bytes@.len(),
                self.spec_patch_copy() == spec_put_bytes(
                    old(self).spec_patch_copy(),
                    BR2_CODE_PATCH_SNAPSHOT_START,
                    address,
                    bytes@,
                    i as nat,
                ),
                self.runtime == old(self).runtime,
                self.runtime_valid == old(self).runtime_valid,
            decreases bytes@.len() - i,
        {
            let physical = physical_address(address.wrapping_add(#[verifier::truncate] (i as u32)));
            Self::put(
                &mut self.patch,
                &mut self.patch_valid,
                BR2_CODE_PATCH_SNAPSHOT_START,
                physical,
                bytes[i],
            );
            i = i + 1;
        }
        self.patch_frozen = self.all_patch_bytes_valid();
    }

    /// The runtime copy of `len` bytes at `address`, when `len` is 1 to 4
    /// and every byte lies in the copied range and has been recorded.
    pub open spec fn spec_runtime_value(self, address: u32, len: usize) -> Option<u32> {
        let start = spec_physical(address) as int;
        let end = start + len;
        let offset = start - BR2_RUNTIME_CODE_SNAPSHOT_START;
        if len == 0 || len > 4 || end > u32::MAX || start < BR2_RUNTIME_CODE_SNAPSHOT_START || end
            > BR2_RUNTIME_CODE_SNAPSHOT_END || !spec_all_valid(
            self.runtime_valid@,
            offset,
            len as int,
        ) {
            None
        } else {
            Some(spec_le_u32(self.runtime@.subrange(offset, offset + len)))
        }
    }

    #[verifier::loop_isolation(false)]
    pub fn runtime_read_value_unchecked(&self, address: u32, len: usize) -> (r: Option<u32>)
        requires
            self.wf(),
        ensures
            r == self.spec_runtime_value(address, len),
    {
        if len == 0 || len > 4 {
            return None;
        }
        let start = physical_address(address);
        let end = match start.checked_add(len as u32) {
            Some(end) => end,
            None => return None,
        };
        if start < BR2_RUNTIME_CODE_SNAPSHOT_START || end > BR2_RUNTIME_CODE_SNAPSHOT_END {
            return None;
        }
        let offset = (start - BR2_RUNTIME_CODE_SNAPSHOT_START) as usize;
        let end_offset = offset + len;
        let mut k = offset;
        while k < end_offset
            invariant
                self.wf(),
                offset <= k <= end_offset,
                end_offset == offset + len,
                end_offset <= BR2_RUNTIME_CODE_SNAPSHOT_LEN,
                spec_all_valid(self.runtime_valid@, offset as int, k - offset),
            decreases end_offset - k,
        {
            if !self.runtime_valid[k] {
                return None;
            }
            k = k + 1;
        }
        Some(le_u32_at(&self.runtime, offset, len))
    }

    /// The runtime copy served to an instruction fetch: only at the address
    /// being executed.
    pub open spec fn spec_fetch_value(self, address: u32, len: usize, pc: Option<u32>) -> Option<
        u32,
    > {
        if len == 0 || len > 4 || !spec_executing(pc, address) {
            None
        } else {
            self.spec_runtime_value(address, len)
        }
    }

    pub fn runtime_read_value(&self, address: u32, len: usize, pc: Option<u32>) -> (r: Option<u32>)
        requires
            self.wf(),
        ensures
            r == self.spec_fetch_value(address, len, pc),
    {
        if len == 0 || len > 4 {
            return None;
        }
        let start = physical_address(address);
        match pc {
            Some(p) => {
                if physical_address(p) != start {
                    return None;
                }
            },
            None => return None,
        }
        self.runtime_read_value_unchecked(address, len)
    }

    /// A zero read of a boot global is answered from the runtime copy when
    /// that holds a non-zero value.
    pub open spec fn spec_fallback_value(self, address: u32, len: usize, ram_value: u32) -> u32 {
        let start = spec_physical(address) as int;
        let end = start + len;
        if ram_value != 0 || len == 0 || len > 4 || end > u32::MAX
            || !spec_in_boot_global_fallback_range(start, end) {
            ram_value
        } else {
            match self.spec_runtime_value(address, len) {
                Some(v) => if v != 0 {
                    v
                } else {
                    ram_value
                },
                None => ram_value,
            }
        }
    }

    pub fn boot_global_fallback_value(&self, address: u32, len: usize, ram_value: u32) -> (r: u32)
        requires
            self.wf(),
        ensures
            r == self.spec_fallback_value(address, len, ram_value),
    {
        if ram_value != 0 || len == 0 || len > 4 {
            return ram_value;
        }
        let start = physical_address(address);
        let end = match start.checked_add(len as u32) {
            Some(end) => end,
            None => return ram_value,
        };
        if !((start >= 0x0036_643c && end <= 0x0036_6480) || (start >= 0x0036_658c && end
            <= 0x0036_6590)) {
            return ram_value;
        }
        match self.runtime_read_value_unchecked(address, len) {
            Some(value) => if value != 0 {
                value
            } else {
                ram_value
            },
            None => ram_value,
        }
    }

    /// The frozen patch copy of `len` bytes (1 to 4) inside the patch range.
    pub open spec fn spec_patch_value(self, address: u32, len: usize) -> Option<u32> {
        let start = spec_physical(address) as int;
        let end = start + len;
        let offset = start - BR2_CODE_PATCH_SNAPSHOT_START;
        if !self.patch_frozen || len == 0 || len > 4 || end > u32::MAX || start
            < BR2_CODE_PATCH_SNAPSHOT_START || end > BR2_CODE_PATCH_SNAPSHOT_END {
            None
        } else {
            Some(spec_le_u32(self.patch@.subrange(offset, offset + len)))
        }
    }

    pub fn patch_read_value(&self, address: u32, len: usize) -> (r: Option<u32>)
        requires
            self.wf(),
        ensures
            r == self.spec_patch_value(address, len),
    {
        if !self.patch_frozen || len == 0 || len > 4 {
            return None;
        }
        let start = physical_address(address);
        let end = match start.checked_add(len as u32) {
            Some(end) => end,
            None => return None,
        };
        if start < BR2_CODE_PATCH_SNAPSHOT_START || end > BR2_CODE_PATCH_SNAPSHOT_END {
            return None;
        }
        let offset = (start - BR2_CODE_PATCH_SNAPSHOT_START) as usize;
        Some(le_u32_at(&self.patch, offset, len))
    }

    /// The runtime copy of `len` bytes fetched at the address being executed.
    pub open spec fn spec_runtime_bytes(self, address: u32, len: usize, pc: Option<u32>) -> Option<
        Seq<u8>,
    > {
        let start = spec_physical(address) as int;
        let end = start + len;
        let offset = start - BR2_RUNTIME_CODE_SNAPSHOT_START;
        if len == 0 || !spec_executing(pc, address) || end
            > u32::MAX || start < BR2_RUNTIME_CODE_SNAPSHOT_START || end
            > BR2_RUNTIME_CODE_SNAPSHOT_END || !spec_all_valid(
            self.runtime_valid@,
            offset,
            len as int,
        ) {
            None
        } else {
            Some(self.runtime@.subrange(offset, offset + len))
        }
    }

    #[verifier::loop_isolation(false)]
    pub fn runtime_read(&self, address: u32, len: usize, pc: Option<u32>) -> (r: Option<Vec<u8>>)
        requires
            self.wf(),
        ensures
            opt_view(r) == self.spec_runtime_bytes(address, len, pc),
    {
        if len == 0 {
            return None;
        }
        let start = physical_address(address);
        match pc {
            Some(p) => {
                if physical_address(p) != start {
                    return None;
                }
            },
            None => return None,
        }
        if len > u32::MAX as usize {
            return None;
        }
        let end = match start.checked_add(len as u32) {
            Some(end) => end,
            None => return None,
        };
        if start < BR2_RUNTIME_CODE_SNAPSHOT_START || end > BR2_RUNTIME_CODE_SNAPSHOT_END {
            return None;
        }
        let offset = (start - BR2_RUNTIME_CODE_SNAPSHOT_START) as usize;
        let end_offset = offset + len;
        let mut k = offset;
        while k < end_offset
            invariant
                self.wf(),
                offset <= k <= end_offset,
                end_offset == offset + len,
                end_offset <= BR2_RUNTIME_CODE_SNAPSHOT_LEN,
                spec_all_valid(self.runtime_valid@, offset as int, k - offset),
            decreases end_offset - k,
        {
            if !self.runtime_valid[k] {
                return None;
            }
            k = k + 1;
        }
        Some(copy_bytes(&self.runtime, offset, len))
    }

    /// The frozen patch copy of `len` bytes inside the patch range.
    pub open spec fn spec_patch_bytes(self, address: u32, len: usize) -> Option<Seq<u8>> {
        let start = spec_physical(address) as int;
        let end = start + len;
        let offset = start - BR2_CODE_PATCH_SNAPSHOT_START;
        if !self.patch_frozen || len == 0 || end > u32::MAX || start < BR2_CODE_PATCH_SNAPSHOT_START
            || end > BR2_CODE_PATCH_SNAPSHOT_END {
            None
        } else {
            Some(self.patch@.subrange(offset, offset + len))
        }
    }

    pub fn patch_read(&self, address: u32, len: usize) -> (r: Option<Vec<u8>>)
        requires
            self.wf(),
        ensures
            opt_view(r) == self.spec_patch_bytes(address, len),
    {
        if !self.patch_frozen || len == 0 || len > u32::MAX as usize {
            return None;
        }
        let start = physical_address(address);
        let end = match start.checked_add(len as u32) {
            Some(end) => end,
            None => return None,
        };
        if start < BR2_CODE_PATCH_SNAPSHOT_START || end > BR2_CODE_PATCH_SNAPSHOT_END {
            return None;
        }
        let offset = (start - BR2_CODE_PATCH_SNAPSHOT_START) as usize;
        Some(copy_bytes(&self.patch, offset, len))
    }
}

} // verus!
