//! The fixed register address map of the device, the bit masks of the flag
//! fields, and the identities of the shadowed flag registers.

use vstd::prelude::*;

verus! {

/// Power on.
pub const ENABLE_PON: u8 = 0b0000_0001;

/// Proximity detection enable.
pub const ENABLE_PEN: u8 = 0b0000_0100;

/// Wait enable.
pub const ENABLE_WEN: u8 = 0b0000_1000;

/// Proximity interrupt enable.
pub const ENABLE_PIEN: u8 = 0b0010_0000;

/// Every field of the enable register at once.
pub const ENABLE_ALL: u8 = 0b0111_1111;

/// Long wait.
pub const CONFIG1_WLONG: u8 = 0b0000_0010;

/// Proximity saturation interrupt enable.
pub const CONFIG2_PSIEN: u8 = 0b1000_0000;

/// Proximity data valid: the readiness bit gating a proximity read.
pub const STATUS_PVALID: u8 = 0b0010_0000;

/// Proximity interrupt active.
pub const STATUS_PINT: u8 = 0b0010_0000;

/// Gesture data valid: the readiness bit gating a gesture FIFO read.
pub const GSTATUS_GVALID: u8 = 0b0000_0001;

/// Enable register address.
pub const ENABLE: u8 = 0x80;

/// Wait time register address.
pub const WTIME: u8 = 0x83;

/// Proximity interrupt low threshold register address.
pub const PILT: u8 = 0x89;

/// Proximity interrupt high threshold register address.
pub const PIHT: u8 = 0x8B;

/// Interrupt persistence filter register address.
pub const PERS: u8 = 0x8C;

/// First configuration register address.
pub const CONFIG1: u8 = 0x8D;

/// Second configuration register address.
pub const CONFIG2: u8 = 0x90;

/// Device identification register address.
pub const ID: u8 = 0x92;

/// Status register address (read-only readiness and interrupt bits).
pub const STATUS: u8 = 0x93;

/// Proximity data register address.
pub const PDATA: u8 = 0x9C;

/// Proximity up/right photodiode offset register address.
pub const POFFSET_UR: u8 = 0x9D;

/// Proximity down/left photodiode offset register address.
pub const POFFSET_DL: u8 = 0x9E;

/// Fourth gesture configuration register address.
pub const GCONFIG4: u8 = 0xAB;

/// Gesture FIFO level register address.
pub const GFLVL: u8 = 0xAE;

/// Gesture status register address.
pub const GSTATUS: u8 = 0xAF;

/// Force interrupt register address (write-triggered action).
pub const IFORCE: u8 = 0xE4;

/// Proximity interrupt clear register address (write-triggered action).
pub const PICLEAR: u8 = 0xE5;

/// Non-gesture interrupt clear register address (write-triggered action).
pub const AICLEAR: u8 = 0xE7;

/// First gesture FIFO data register address.
pub const GFIFO_U: u8 = 0xFC;

/// The flag registers whose values the driver shadows locally.
///
/// These registers are treated as write-only on the bus: updating a single
/// field requires read-modify-write against the driver's cached copy.
#[derive(Clone, Copy, Debug, PartialEq, Eq, Structural)]
pub enum ShadowRegister {
    /// The subsystem enable register.
    Enable,
    /// The first configuration register.
    Config1,
    /// The second configuration register.
    Config2,
    /// The fourth gesture configuration register.
    GConfig4,
}

/// The bus address of a shadowed flag register.
pub open spec fn spec_shadow_address(reg: ShadowRegister) -> u8 {
    match reg {
        ShadowRegister::Enable => ENABLE,
        ShadowRegister::Config1 => CONFIG1,
        ShadowRegister::Config2 => CONFIG2,
        ShadowRegister::GConfig4 => GCONFIG4,
    }
}

/// Look up the bus address of a shadowed flag register.
pub fn shadow_address(reg: ShadowRegister) -> (r: u8)
    ensures
        r == spec_shadow_address(reg),
{
    match reg {
        ShadowRegister::Enable => ENABLE,
        ShadowRegister::Config1 => CONFIG1,
        ShadowRegister::Config2 => CONFIG2,
        ShadowRegister::GConfig4 => GCONFIG4,
    }
}

} // verus!
