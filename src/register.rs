use vstd::prelude::*;

use crate::types::{AccelOutputDataRate, AccelScale, FifoMode, Interrupt, MagMode, MagOutputDataRate};

verus! {

/// Register addresses.
pub struct Register;

impl Register {
    pub const STATUS_REG_AUX_A: u8 = 0x07;
    pub const OUT_TEMP_L_A: u8 = 0x0C;
    pub const WHO_AM_I_A: u8 = 0x0F;
    pub const TEMP_CFG_REG_A: u8 = 0x1F;
    pub const CTRL_REG1_A: u8 = 0x20;
    pub const CTRL_REG3_A: u8 = 0x22;
    pub const CTRL_REG4_A: u8 = 0x23;
    pub const CTRL_REG5_A: u8 = 0x24;
    pub const STATUS_REG_A: u8 = 0x27;
    pub const OUT_X_L_A: u8 = 0x28;
    pub const FIFO_CTRL_REG_A: u8 = 0x2E;
    pub const WHO_AM_I_M: u8 = 0x4F;
    pub const CFG_REG_A_M: u8 = 0x60;
    pub const CFG_REG_B_M: u8 = 0x61;
    pub const CFG_REG_C_M: u8 = 0x62;
    pub const STATUS_REG_M: u8 = 0x67;
    pub const OUTX_L_REG_M: u8 = 0x68;
}

/// Bit masks used on the bus and in the control registers.
pub struct BitFlags;

impl BitFlags {
    /// SPI read bit (first byte of a transfer).
    pub const SPI_RW: u8 = 0x80;
    /// SPI address auto-increment bit (first byte of a transfer).
    pub const SPI_MS: u8 = 0x40;
    /// I²C address auto-increment bit (register address byte).
    pub const I2C_AUTO_INCREMENT: u8 = 0x80;
    /// Accelerometer low-power enable (CTRL_REG1_A).
    pub const LP_EN: u8 = 0x08;
    /// Accelerometer block data update (CTRL_REG4_A).
    pub const ACCEL_BDU: u8 = 0x80;
    /// Accelerometer high-resolution enable (CTRL_REG4_A).
    pub const HR: u8 = 0x08;
    /// Magnetometer block data update (CFG_REG_C_M).
    pub const MAG_BDU: u8 = 0x10;
    /// Magnetometer offset cancellation (CFG_REG_B_M).
    pub const MAG_OFF_CANC: u8 = 0x02;
    /// Magnetometer offset cancellation in single measurement mode (CFG_REG_B_M).
    pub const MAG_OFF_CANC_ONE_SHOT: u8 = 0x10;
    /// Temperature sensor enable, both bits (TEMP_CFG_REG_A).
    pub const TEMP_EN: u8 = 0xC0;
}

/// CTRL_REG1_A register (`0x20`): output data rate, low-power enable, axes enable.
#[derive(Debug, Clone, Copy, PartialEq, Eq, Structural)]
pub struct CtrlReg1A {
    pub bits: u8,
}

impl CtrlReg1A {
    pub const ODR: u8 = 0xF0;
    pub const LPEN: u8 = 0x08;
    pub const XYZEN: u8 = 0x07;

    /// Register value with the output data rate field set for `odr`, other bits kept; the
    /// low-power-only rates also set the low-power bit, 1.344 kHz clears it.
    #[verifier::allow_in_spec]
    pub fn with_odr(self, odr: AccelOutputDataRate) -> Self
        returns
            (match odr {
                AccelOutputDataRate::Hz1 => CtrlReg1A { bits: (self.bits & 0x0F) | 0x10 },
                AccelOutputDataRate::Hz10 => CtrlReg1A { bits: (self.bits & 0x0F) | 0x20 },
                AccelOutputDataRate::Hz25 => CtrlReg1A { bits: (self.bits & 0x0F) | 0x30 },
                AccelOutputDataRate::Hz50 => CtrlReg1A { bits: (self.bits & 0x0F) | 0x40 },
                AccelOutputDataRate::Hz100 => CtrlReg1A { bits: (self.bits & 0x0F) | 0x50 },
                AccelOutputDataRate::Hz200 => CtrlReg1A { bits: (self.bits & 0x0F) | 0x60 },
                AccelOutputDataRate::Hz400 => CtrlReg1A { bits: (self.bits & 0x0F) | 0x70 },
                AccelOutputDataRate::Khz1_344 => CtrlReg1A { bits: (self.bits & 0x07) | 0x90 },
                AccelOutputDataRate::Khz1_620LowPower => CtrlReg1A { bits: (self.bits & 0x0F) | 0x88 },
                AccelOutputDataRate::Khz5_376LowPower => CtrlReg1A { bits: (self.bits & 0x0F) | 0x98 },
            }),
    {
        let keep = self.bits & 0x0F;
        let bits = match odr {
            AccelOutputDataRate::Hz1 => keep | 0x10,
            AccelOutputDataRate::Hz10 => keep | 0x20,
            AccelOutputDataRate::Hz25 => keep | 0x30,
            AccelOutputDataRate::Hz50 => keep | 0x40,
            AccelOutputDataRate::Hz100 => keep | 0x50,
            AccelOutputDataRate::Hz200 => keep | 0x60,
            AccelOutputDataRate::Hz400 => keep | 0x70,
            AccelOutputDataRate::Khz1_344 => (self.bits & 0x07) | 0x90,
            AccelOutputDataRate::Khz1_620LowPower => keep | 0x88,
            AccelOutputDataRate::Khz5_376LowPower => keep | 0x98,
        };
        CtrlReg1A { bits }
    }

    /// Register value with the output data rate field cleared (power-down).
    #[verifier::allow_in_spec]
    pub fn without_odr(self) -> Self
        returns
            (CtrlReg1A { bits: self.bits & 0x0F }),
    {
        CtrlReg1A { bits: self.bits & 0x0F }
    }

    /// Register value with the low-power bit set or cleared.
    #[verifier::allow_in_spec]
    pub fn with_low_power(self, enabled: bool) -> Self
        returns
            (if enabled {
                CtrlReg1A { bits: self.bits | 0x08 }
            } else {
                CtrlReg1A { bits: self.bits & 0xF7 }
            }),
    {
        if enabled {
            CtrlReg1A { bits: self.bits | Self::LPEN }
        } else {
            CtrlReg1A { bits: self.bits & 0xF7 }
        }
    }

    /// Whether the output data rate field is zero (power-down).
    #[verifier::allow_in_spec]
    pub fn is_powered_down(self) -> bool
        returns
            self.bits & 0xF0 == 0,
    {
        self.bits & Self::ODR == 0
    }

    /// Whether the low-power bit is set.
    #[verifier::allow_in_spec]
    pub fn is_low_power(self) -> bool
        returns
            self.bits & 0x08 != 0,
    {
        self.bits & Self::LPEN != 0
    }

    /// The output data rate that the register selects, or `None` when powered down.
    #[verifier::allow_in_spec]
    pub fn odr(self) -> Option<AccelOutputDataRate>
        returns
            (match self.bits & 0xF0 {
                0x10 => Some(AccelOutputDataRate::Hz1),
                0x20 => Some(AccelOutputDataRate::Hz10),
                0x30 => Some(AccelOutputDataRate::Hz25),
                0x40 => Some(AccelOutputDataRate::Hz50),
                0x50 => Some(AccelOutputDataRate::Hz100),
                0x60 => Some(AccelOutputDataRate::Hz200),
                0x70 => Some(AccelOutputDataRate::Hz400),
                0x80 => Some(AccelOutputDataRate::Khz1_620LowPower),
                0x90 => if self.bits & 0x08 != 0 {
                    Some(AccelOutputDataRate::Khz5_376LowPower)
                } else {
                    Some(AccelOutputDataRate::Khz1_344)
                },
                _ => None,
            }),
    {
        match self.bits & 0xF0 {
            0x10 => Some(AccelOutputDataRate::Hz1),
            0x20 => Some(AccelOutputDataRate::Hz10),
            0x30 => Some(AccelOutputDataRate::Hz25),
            0x40 => Some(AccelOutputDataRate::Hz50),
            0x50 => Some(AccelOutputDataRate::Hz100),
            0x60 => Some(AccelOutputDataRate::Hz200),
            0x70 => Some(AccelOutputDataRate::Hz400),
            0x80 => Some(AccelOutputDataRate::Khz1_620LowPower),
            0x90 => if self.bits & 0x08 != 0 {
                Some(AccelOutputDataRate::Khz5_376LowPower)
            } else {
                Some(AccelOutputDataRate::Khz1_344)
            },
            _ => None,
        }
    }
}

/// Interrupt-enable bit of CTRL_REG3_A for an interrupt.
#[verifier::allow_in_spec]
pub fn interrupt_mask(interrupt: Interrupt) -> u8
    returns
        (match interrupt {
            Interrupt::Click => 0x80u8,
            Interrupt::Aoi1 => 0x40u8,
            Interrupt::Aoi2 => 0x20u8,
            Interrupt::DataReady1 => 0x10u8,
            Interrupt::DataReady2 => 0x08u8,
            Interrupt::FifoWatermark => 0x04u8,
            Interrupt::FifoOverrun => 0x02u8,
        }),
{
    match interrupt {
        Interrupt::Click => 0x80u8,
        Interrupt::Aoi1 => 0x40u8,
        Interrupt::Aoi2 => 0x20u8,
        Interrupt::DataReady1 => 0x10u8,
        Interrupt::DataReady2 => 0x08u8,
        Interrupt::FifoWatermark => 0x04u8,
        Interrupt::FifoOverrun => 0x02u8,
    }
}

/// CTRL_REG3_A register (`0x22`): interrupts routed to the INT1 pin.
#[derive(Debug, Clone, Copy, PartialEq, Eq, Structural)]
pub struct CtrlReg3A {
    pub bits: u8,
}

impl CtrlReg3A {
    /// Register value with the interrupt enabled.
    #[verifier::allow_in_spec]
    pub fn with_interrupt(self, interrupt: Interrupt) -> Self
        returns
            (CtrlReg3A { bits: self.bits | interrupt_mask(interrupt) }),
    {
        CtrlReg3A { bits: self.bits | interrupt_mask(interrupt) }
    }

    /// Register value with the interrupt disabled.
    #[verifier::allow_in_spec]
    pub fn without_interrupt(self, interrupt: Interrupt) -> Self
        returns
            (CtrlReg3A { bits: self.bits & !interrupt_mask(interrupt) }),
    {
        CtrlReg3A { bits: self.bits & !interrupt_mask(interrupt) }
    }
}

/// CTRL_REG4_A register (`0x23`): block data update, full scale, high resolution.
#[derive(Debug, Clone, Copy, PartialEq, Eq, Structural)]
pub struct CtrlReg4A {
    pub bits: u8,
}

impl CtrlReg4A {
    pub const BDU: u8 = 0x80;
    pub const FS: u8 = 0x30;
    pub const HR: u8 = 0x08;

    /// The full scale that the FS field selects.
    #[verifier::allow_in_spec]
    pub fn scale(&self) -> AccelScale
        returns
            (match self.bits & 0x30 {
                0x00 => AccelScale::G2,
                0x10 => AccelScale::G4,
                0x20 => AccelScale::G8,
                _ => AccelScale::G16,
            }),
    {
        match self.bits & Self::FS {
            0x00 => AccelScale::G2,
            0x10 => AccelScale::G4,
            0x20 => AccelScale::G8,
            _ => AccelScale::G16,
        }
    }

    /// Register value with the FS field set for `scale`, other bits kept.
    #[verifier::allow_in_spec]
    pub fn with_scale(self, scale: AccelScale) -> Self
        returns
            (match scale {
                AccelScale::G2 => CtrlReg4A { bits: self.bits & 0xCF },
                AccelScale::G4 => CtrlReg4A { bits: (self.bits & 0xCF) | 0x10 },
                AccelScale::G8 => CtrlReg4A { bits: (self.bits & 0xCF) | 0x20 },
                AccelScale::G16 => CtrlReg4A { bits: self.bits | 0x30 },
            }),
    {
        match scale {
            AccelScale::G2 => CtrlReg4A { bits: self.bits & 0xCF },
            AccelScale::G4 => CtrlReg4A { bits: (self.bits & 0xCF) | 0x10 },
            AccelScale::G8 => CtrlReg4A { bits: (self.bits & 0xCF) | 0x20 },
            AccelScale::G16 => CtrlReg4A { bits: self.bits | Self::FS },
        }
    }

    /// Register value with the high-resolution bit set or cleared.
    #[verifier::allow_in_spec]
    pub fn with_high_resolution(self, enabled: bool) -> Self
        returns
            (if enabled {
                CtrlReg4A { bits: self.bits | 0x08 }
            } else {
                CtrlReg4A { bits: self.bits & 0xF7 }
            }),
    {
        if enabled {
            CtrlReg4A { bits: self.bits | Self::HR }
        } else {
            CtrlReg4A { bits: self.bits & 0xF7 }
        }
    }

    /// Whether the high-resolution bit is set.
    #[verifier::allow_in_spec]
    pub fn is_high_resolution(self) -> bool
        returns
            self.bits & 0x08 != 0,
    {
        self.bits & Self::HR != 0
    }

    /// Register value with block data update enabled.
    #[verifier::allow_in_spec]
    pub fn with_block_data_update(self) -> Self
        returns
            (CtrlReg4A { bits: self.bits | 0x80 }),
    {
        CtrlReg4A { bits: self.bits | Self::BDU }
    }
}

/// CTRL_REG5_A register (`0x24`): FIFO enable among others.
#[derive(Debug, Clone, Copy, PartialEq, Eq, Structural)]
pub struct CtrlReg5A {
    pub bits: u8,
}

impl CtrlReg5A {
    pub const FIFO_EN: u8 = 0x40;

    /// Register value with the FIFO enabled or disabled.
    #[verifier::allow_in_spec]
    pub fn with_fifo_enabled(self, enabled: bool) -> Self
        returns
            (if enabled {
                CtrlReg5A { bits: self.bits | 0x40 }
            } else {
                CtrlReg5A { bits: self.bits & 0xBF }
            }),
    {
        if enabled {
            CtrlReg5A { bits: self.bits | Self::FIFO_EN }
        } else {
            CtrlReg5A { bits: self.bits & 0xBF }
        }
    }
}

/// FIFO_CTRL_REG_A register (`0x2E`): FIFO mode and full threshold.
#[derive(Debug, Clone, Copy, PartialEq, Eq, Structural)]
pub struct FifoCtrlRegA {
    pub bits: u8,
}

impl FifoCtrlRegA {
    /// Register value with the FM field set for `mode`, other bits kept.
    #[verifier::allow_in_spec]
    pub fn with_mode(self, mode: FifoMode) -> Self
        returns
            (match mode {
                FifoMode::Bypass => FifoCtrlRegA { bits: self.bits & 0x3F },
                FifoMode::Fifo => FifoCtrlRegA { bits: (self.bits & 0x3F) | 0x40 },
                FifoMode::Stream => FifoCtrlRegA { bits: (self.bits & 0x3F) | 0x80 },
                FifoMode::StreamToFifo => FifoCtrlRegA { bits: self.bits | 0xC0 },
            }),
    {
        match mode {
            FifoMode::Bypass => FifoCtrlRegA { bits: self.bits & 0x3F },
            FifoMode::Fifo => FifoCtrlRegA { bits: (self.bits & 0x3F) | 0x40 },
            FifoMode::Stream => FifoCtrlRegA { bits: (self.bits & 0x3F) | 0x80 },
            FifoMode::StreamToFifo => FifoCtrlRegA { bits: self.bits | 0xC0 },
        }
    }

    /// Register value with the full threshold field set to `fth`, clamped to 31.
    #[verifier::allow_in_spec]
    pub fn with_full_threshold(self, fth: u8) -> Self
        returns
            (FifoCtrlRegA { bits: (self.bits & 0xE0) | (if fth > 31 { 31u8 } else { fth }) }),
    {
        let fth = if fth > 31 { 31u8 } else { fth };
        FifoCtrlRegA { bits: (self.bits & 0xE0) | fth }
    }
}

/// TEMP_CFG_REG_A register (`0x1F`): temperature sensor enable.
#[derive(Debug, Clone, Copy, PartialEq, Eq, Structural)]
pub struct TempCfgRegA {
    pub bits: u8,
}

impl TempCfgRegA {
    /// Register value with the temperature sensor enabled.
    #[verifier::allow_in_spec]
    pub fn with_temperature_enabled(self) -> Self
        returns
            (TempCfgRegA { bits: self.bits | 0xC0 }),
    {
        TempCfgRegA { bits: self.bits | BitFlags::TEMP_EN }
    }
}

/// CFG_REG_A_M register (`0x60`): magnetometer power mode, output data rate, system mode.
#[derive(Debug, Clone, Copy, PartialEq, Eq, Structural)]
pub struct CfgRegAM {
    pub bits: u8,
}

impl CfgRegAM {
    pub const LP: u8 = 0x10;
    pub const ODR: u8 = 0x0C;
    pub const MD: u8 = 0x03;

    /// Register value with system mode `00` (continuous).
    #[verifier::allow_in_spec]
    pub fn continuous_mode(self) -> Self
        returns
            (CfgRegAM { bits: self.bits & 0xFC }),
    {
        CfgRegAM { bits: self.bits & 0xFC }
    }

    /// Whether the system mode is `01` (single measurement).
    #[verifier::allow_in_spec]
    pub fn is_single_mode(&self) -> bool
        returns
            self.bits & 0x03 == 0x01,
    {
        self.bits & Self::MD == 0x01
    }

    /// Register value with system mode `01` (single measurement).
    #[verifier::allow_in_spec]
    pub fn single_mode(self) -> Self
        returns
            (CfgRegAM { bits: (self.bits & 0xFC) | 0x01 }),
    {
        CfgRegAM { bits: (self.bits & 0xFC) | 0x01 }
    }

    /// Register value with system mode `11` (idle).
    #[verifier::allow_in_spec]
    pub fn idle_mode(self) -> Self
        returns
            (CfgRegAM { bits: self.bits | 0x03 }),
    {
        CfgRegAM { bits: self.bits | Self::MD }
    }

    /// Register value with the ODR field set for `odr`, other bits kept.
    #[verifier::allow_in_spec]
    pub fn with_odr(self, odr: MagOutputDataRate) -> Self
        returns
            (match odr {
                MagOutputDataRate::Hz10 => CfgRegAM { bits: self.bits & 0xF3 },
                MagOutputDataRate::Hz20 => CfgRegAM { bits: (self.bits & 0xF3) | 0x04 },
                MagOutputDataRate::Hz50 => CfgRegAM { bits: (self.bits & 0xF3) | 0x08 },
                MagOutputDataRate::Hz100 => CfgRegAM { bits: self.bits | 0x0C },
            }),
    {
        match odr {
            MagOutputDataRate::Hz10 => CfgRegAM { bits: self.bits & 0xF3 },
            MagOutputDataRate::Hz20 => CfgRegAM { bits: (self.bits & 0xF3) | 0x04 },
            MagOutputDataRate::Hz50 => CfgRegAM { bits: (self.bits & 0xF3) | 0x08 },
            MagOutputDataRate::Hz100 => CfgRegAM { bits: self.bits | Self::ODR },
        }
    }

    /// Register value with the LP bit set for `mode`, other bits kept.
    #[verifier::allow_in_spec]
    pub fn with_mode(self, mode: MagMode) -> Self
        returns
            (match mode {
                MagMode::LowPower => CfgRegAM { bits: self.bits | 0x10 },
                MagMode::HighResolution => CfgRegAM { bits: self.bits & 0xEF },
            }),
    {
        match mode {
            MagMode::LowPower => CfgRegAM { bits: self.bits | Self::LP },
            MagMode::HighResolution => CfgRegAM { bits: self.bits & 0xEF },
        }
    }

    /// The power mode that the LP bit selects.
    #[verifier::allow_in_spec]
    pub fn mode(&self) -> MagMode
        returns
            (if self.bits & 0x10 != 0 {
                MagMode::LowPower
            } else {
                MagMode::HighResolution
            }),
    {
        if self.bits & Self::LP != 0 {
            MagMode::LowPower
        } else {
            MagMode::HighResolution
        }
    }

    /// The output data rate that the ODR field selects.
    #[verifier::allow_in_spec]
    pub fn odr(&self) -> MagOutputDataRate
        returns
            (match self.bits & 0x0C {
                0x00 => MagOutputDataRate::Hz10,
                0x04 => MagOutputDataRate::Hz20,
                0x08 => MagOutputDataRate::Hz50,
                _ => MagOutputDataRate::Hz100,
            }),
    {
        match self.bits & Self::ODR {
            0x00 => MagOutputDataRate::Hz10,
            0x04 => MagOutputDataRate::Hz20,
            0x08 => MagOutputDataRate::Hz50,
            _ => MagOutputDataRate::Hz100,
        }
    }
}

/// CFG_REG_B_M register (`0x61`): offset cancellation and low-pass filter.
#[derive(Debug, Clone, Copy, PartialEq, Eq, Structural)]
pub struct CfgRegBM {
    pub bits: u8,
}

impl CfgRegBM {
    pub const OFF_CANC_ONE_SHOT: u8 = 0x10;
    pub const OFF_CANC: u8 = 0x02;
    pub const LPF: u8 = 0x01;

    /// Register value with the bits of `mask` set.
    #[verifier::allow_in_spec]
    pub fn union(self, mask: u8) -> Self
        returns
            (CfgRegBM { bits: self.bits | mask }),
    {
        CfgRegBM { bits: self.bits | mask }
    }

    /// Register value with the bits of `mask` cleared.
    #[verifier::allow_in_spec]
    pub fn difference(self, mask: u8) -> Self
        returns
            (CfgRegBM { bits: self.bits & !mask }),
    {
        CfgRegBM { bits: self.bits & !mask }
    }

    /// Whether offset cancellation is enabled.
    #[verifier::allow_in_spec]
    pub fn offset_cancellation(&self) -> bool
        returns
            self.bits & 0x02 != 0,
    {
        self.bits & Self::OFF_CANC != 0
    }
}

/// CFG_REG_C_M register (`0x62`): block data update and interrupt pin.
#[derive(Debug, Clone, Copy, PartialEq, Eq, Structural)]
pub struct CfgRegCM {
    pub bits: u8,
}

impl CfgRegCM {
    pub const BDU: u8 = 0x10;
    pub const INT_MAG: u8 = 0x01;

    /// Register value with the bits of `mask` set.
    #[verifier::allow_in_spec]
    pub fn union(self, mask: u8) -> Self
        returns
            (CfgRegCM { bits: self.bits | mask }),
    {
        CfgRegCM { bits: self.bits | mask }
    }
}


} // verus!
