//! Register addresses and bit fields of the PHY.

use vstd::prelude::*;
use vstd::arithmetic::power2::pow2;
use vstd::bits::lemma_u32_shl_is_mul;
use vstd::bits::lemma_u32_pow2_no_overflow;

verus! {

/// Control/status register: polarity control lives here.
pub const MII_INTERNAL_CTRL_STATUS: u16 = 17;

/// Test-control register: opens, closes and addresses the analog/DSP bank.
pub const SMI_ADDR_TSTCNTL: u16 = 20;

/// Test-write register: holds the data for a write into the analog/DSP bank.
pub const SMI_ADDR_TSTWRITE: u16 = 23;

/// Bit 7 of the control/status register: automatic MDI/MDI-X detection.
pub const MII_AUTO_MDIX_EN: u16 = 0x80;

/// Bit 6 of the control/status register: forced MDI-X.
pub const MII_MDIX_EN: u16 = 0x40;

/// Bits 14 and 10 of the test-control register: the write command.
pub const TSTCNTL_WR: u16 = 0x4400;

/// Test-control value that opens the analog/DSP bank.
pub const TSTMODE_ENABLE: u16 = 0x400;

/// Test-control value that closes the analog/DSP bank.
pub const TSTMODE_DISABLE: u16 = 0x0;

/// Address of the analog parameter inside the analog/DSP bank.
pub const WR_ADDR_A7CFG: u16 = 0x18;

/// Calibration word for the analog parameter. The vendor gives no meaning
/// for it; it is reproduced as is.
pub const A7CFG_CALIBRATION: u16 = 0xB;

/// Identifier that the transceiver reports.
pub const PHY_ID: u32 = 0x1234d400;

/// Bits of the identifier that take part in matching.
pub const PHY_ID_MASK: u32 = 0xfffffff0;

/// Link speed, in Mbps, at which the analog bank has to be set up again.
pub const SPEED_100: u32 = 100;

/// The number that has only bit `n` set.
pub open spec fn bit_mask(n: u32) -> u32 {
    1u32 << n
}

/// Returns a number that has only bit `n` set, counting from zero: two to
/// the power `n`.
pub fn bit(n: u32) -> (mask: u32)
    requires
        n < 32,
    ensures
        mask == bit_mask(n),
        mask == pow2(n as nat),
{
    proof {
        lemma_u32_pow2_no_overflow(n as nat);
        lemma_u32_shl_is_mul(1u32, n);
    }
    1u32 << n
}

/// A control/status value with automatic detection switched off and every
/// other bit as it was.
pub open spec fn auto_mdix_cleared(ctrl: u16) -> u16 {
    !MII_AUTO_MDIX_EN & ctrl
}

/// Switches automatic detection off in a control/status value.
pub fn clear_auto_mdix(ctrl: u16) -> (cleared: u16)
    ensures
        cleared == auto_mdix_cleared(ctrl),
        cleared & MII_AUTO_MDIX_EN == 0,
        cleared | MII_AUTO_MDIX_EN == ctrl | MII_AUTO_MDIX_EN,
{
    proof {
        lemma_auto_mdix_cleared(ctrl);
    }
    !MII_AUTO_MDIX_EN & ctrl
}

/// Clearing affects bit 7 and nothing else: the bit is off afterwards,
/// whatever it was, and the two values agree once it is set in both.
pub proof fn lemma_auto_mdix_cleared(ctrl: u16)
    ensures
        auto_mdix_cleared(ctrl) & MII_AUTO_MDIX_EN == 0,
        auto_mdix_cleared(ctrl) | MII_AUTO_MDIX_EN == ctrl | MII_AUTO_MDIX_EN,
        ctrl & MII_AUTO_MDIX_EN == 0 ==> auto_mdix_cleared(ctrl) == ctrl,
{
    assert((!0x80u16 & ctrl) & 0x80u16 == 0) by (bit_vector);
    assert((!0x80u16 & ctrl) | 0x80u16 == ctrl | 0x80u16) by (bit_vector);
    assert(ctrl & 0x80u16 == 0 ==> (!0x80u16 & ctrl) == ctrl) by (bit_vector);
}

/// The named bit fields are the single bits, and the union of bits, that
/// their descriptions give; the command that commits the calibration word is
/// the write command together with the address of the analog parameter.
pub proof fn lemma_bit_fields()
    ensures
        MII_AUTO_MDIX_EN == bit_mask(7),
        MII_MDIX_EN == bit_mask(6),
        TSTCNTL_WR == bit_mask(14) | bit_mask(10),
        TSTCNTL_WR | WR_ADDR_A7CFG == 0x4418,
{
    assert(0x80u32 == 1u32 << 7u32) by (bit_vector);
    assert(0x40u32 == 1u32 << 6u32) by (bit_vector);
    assert(0x4400u32 == (1u32 << 14u32) | (1u32 << 10u32)) by (bit_vector);
    assert(0x4400u16 | 0x18u16 == 0x4418) by (bit_vector);
}

} // verus!
