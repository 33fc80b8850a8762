//! The two chained interrupt controllers: their vector offsets and the line
//! mask registers.

use vstd::prelude::*;

verus! {

/// First vector of the master controller's lines.
pub const PIC_1_OFFSET: u8 = 32;

/// First vector of the slave controller's lines.
pub const PIC_2_OFFSET: u8 = 40;

/// Number of hardware interrupt lines across both controllers.
pub const IRQ_LINES: u8 = 16;

/// Mask register port of the master controller.
pub const PIC1_DATA: u16 = 0x21;

/// Mask register port of the slave controller.
pub const PIC2_DATA: u16 = 0xA1;

/// The two mask registers; a set bit disables the line.
#[derive(Clone, Copy, Debug, PartialEq, Eq, Structural)]
pub struct PicMasks {
    pub master: u8,
    pub slave: u8,
}

impl PicMasks {
    /// Both registers as one word: bit `i` masks line `i`.
    pub open spec fn word(&self) -> u16 {
        ((self.slave as u16) << 8u16) | (self.master as u16)
    }

    /// Whether line `irq` is disabled.
    pub open spec fn is_masked(&self, irq: u8) -> bool {
        (self.word() >> (irq as u16)) & 1u16 == 1u16
    }
}

/// The mask register port that controls line `irq`.
pub fn mask_port(irq: u8) -> (r: u16)
    requires
        irq < IRQ_LINES,
    ensures
        r == (if irq < 8 {
            PIC1_DATA
        } else {
            PIC2_DATA
        }),
{
    if irq < 8 {
        PIC1_DATA
    } else {
        PIC2_DATA
    }
}

/// Disables line `irq`, leaving every other line as it was.
pub fn set_irq_mask(masks: &mut PicMasks, irq: u8)
    requires
        irq < IRQ_LINES,
    ensures
        final(masks).word() == old(masks).word() | (1u16 << (irq as u16)),
        final(masks).is_masked(irq),
{
    let m = masks.master;
    let s = masks.slave;
    if irq < 8 {
        masks.master = m | (1u8 << irq);
        assert((((s as u16) << 8u16) | ((m | (1u8 << irq)) as u16)) == ((((s as u16) << 8u16) | (
        m as u16)) | (1u16 << (irq as u16)))) by (bit_vector)
            requires
                irq < 8,
        ;
    } else {
        masks.slave = s | (1u8 << (irq - 8));
        assert(((((s | (1u8 << ((irq - 8) as u8))) as u16) << 8u16) | (m as u16)) == ((((s as u16)
            << 8u16) | (m as u16)) | (1u16 << (irq as u16)))) by (bit_vector)
            requires
                8 <= irq < 16,
        ;
    }
    let ghost w = old(masks).word();
    assert(((w | (1u16 << (irq as u16))) >> (irq as u16)) & 1u16 == 1u16) by (bit_vector)
        requires
            irq < 16,
    ;
}

/// Enables line `irq`, leaving every other line as it was.
pub fn clear_irq_mask(masks: &mut PicMasks, irq: u8)
    requires
        irq < IRQ_LINES,
    ensures
        final(masks).word() == old(masks).word() & !(1u16 << (irq as u16)),
        !final(masks).is_masked(irq),
{
    let m = masks.master;
    let s = masks.slave;
    if irq < 8 {
        masks.master = m & !(1u8 << irq);
        assert((((s as u16) << 8u16) | ((m & !(1u8 << irq)) as u16)) == ((((s as u16) << 8u16) | (
        m as u16)) & !(1u16 << (irq as u16)))) by (bit_vector)
            requires
                irq < 8,
        ;
    } else {
        masks.slave = s & !(1u8 << (irq - 8));
        assert(((((s & !(1u8 << ((irq - 8) as u8))) as u16) << 8u16) | (m as u16)) == ((((s as u16)
            << 8u16) | (m as u16)) & !(1u16 << (irq as u16)))) by (bit_vector)
            requires
                8 <= irq < 16,
        ;
    }
    let ghost w = old(masks).word();
    assert(((w & !(1u16 << (irq as u16))) >> (irq as u16)) & 1u16 == 0u16) by (bit_vector)
        requires
            irq < 16,
    ;
}

} // verus!
