//! The interrupt controller's status register as the I/O window holds it:
//! vertical blank raises its bit 0, and a store acknowledges bits by ANDing.
use vstd::prelude::*;

verus! {

/// The interrupt status register (`I_STAT`) and mask register (`I_MASK`).
pub const IRQ_STATUS: u32 = 0x1f80_1070;
pub const IRQ_MASK: u32 = 0x1f80_1074;
/// Offset of the interrupt status register in the I/O window.
pub const IRQ_STATUS_OFFSET: usize = 0x70;
/// The vertical blank interrupt: bit 0 of the status register.
pub const IRQ_VBLANK: u8 = 0x01;

/// The bytes a store of `bytes` at `off` in the I/O window leaves: the
/// interrupt status register is acknowledged (each stored byte is ANDed
/// into it), every other register takes the stored byte.
pub open spec fn spec_io_stored(regs: Seq<u8>, off: int, bytes: Seq<u8>) -> Seq<u8> {
    Seq::new(
        bytes.len(),
        |i: int|
            if IRQ_STATUS_OFFSET <= off + i < IRQ_STATUS_OFFSET + 4 {
                regs[off + i] & bytes[i]
            } else {
                bytes[i]
            },
    )
}

/// The I/O window with the vertical blank interrupt raised.
pub open spec fn spec_vblank_irq_raised(regs: Seq<u8>) -> Seq<u8> {
    regs.update(IRQ_STATUS_OFFSET as int, regs[IRQ_STATUS_OFFSET as int] | IRQ_VBLANK)
}
/// The bytes a store of `bytes` at `offset` leaves in the I/O window `regs`.
pub fn io_stored_bytes(regs: &Vec<u8>, offset: usize, bytes: &Vec<u8>) -> (r: Vec<u8>)
    requires
        offset + bytes@.len() <= regs@.len(),
    ensures
        r@ == spec_io_stored(regs@, offset as int, bytes@),
{
    let n = regs.len();
    let mut out: Vec<u8> = Vec::new();
    let mut i: usize = 0;
    while i < bytes.len()
        invariant
            i <= bytes@.len(),
            n == regs@.len(),
            offset + bytes@.len() <= regs@.len(),
            out@ == spec_io_stored(regs@, offset as int, bytes@.take(i as int)),
        decreases bytes@.len() - i,
    {
        let k = offset + i;
        let b = if IRQ_STATUS_OFFSET <= k && k < IRQ_STATUS_OFFSET + 4 {
            regs[k] & bytes[i]
        } else {
            bytes[i]
        };
        out.push(b);
        i = i + 1;
        proof {
            assert(out@ =~= spec_io_stored(regs@, offset as int, bytes@.take(i as int)));
        }
    }
    proof {
        assert(bytes@.take(bytes@.len() as int) =~= bytes@);
    }
    out
}

} // verus!
