//! Bus transactions: which bytes go on the I²C or SPI bus for a register access, and how
//! the bytes that come back are turned into register values.

use vstd::prelude::*;

use crate::register::{
    BitFlags, CfgRegAM, CfgRegBM, CfgRegCM, CtrlReg1A, CtrlReg3A, CtrlReg4A, CtrlReg5A,
    FifoCtrlRegA, Register, TempCfgRegA,
};

verus! {

/// 7-bit I²C address of the accelerometer (and temperature sensor).
pub const ACCEL_ADDR: u8 = 0b001_1001;

/// 7-bit I²C address of the magnetometer.
pub const MAG_ADDR: u8 = 0b001_1110;

/// Sub-device of the chip that a register belongs to.
#[derive(Debug, Clone, Copy, PartialEq, Eq, Structural)]
pub enum Block {
    /// Accelerometer and temperature sensor
    Accel,
    /// Magnetometer
    Mag,
}

/// I2C interface
#[derive(Debug)]
pub struct I2cInterface<I2C> {
    pub i2c: I2C,
}

/// SPI interface: one device (chip select) for each sub-device.
#[derive(Debug)]
pub struct SpiInterface<SPIXL, SPIMAG> {
    pub spi_xl: SPIXL,
    pub spi_mag: SPIMAG,
}

/// A write of one control register, with the value written.
#[derive(Debug, Clone, Copy, PartialEq, Eq, Structural)]
pub enum RegisterWrite {
    CtrlReg1A(CtrlReg1A),
    CtrlReg3A(CtrlReg3A),
    CtrlReg4A(CtrlReg4A),
    CtrlReg5A(CtrlReg5A),
    FifoCtrlRegA(FifoCtrlRegA),
    TempCfgRegA(TempCfgRegA),
    CfgRegAM(CfgRegAM),
    CfgRegBM(CfgRegBM),
    CfgRegCM(CfgRegCM),
}

impl RegisterWrite {
    /// Sub-device that holds the register.
    #[verifier::allow_in_spec]
    pub fn block(&self) -> Block
        returns
            (match self {
                RegisterWrite::CfgRegAM(_) => Block::Mag,
                RegisterWrite::CfgRegBM(_) => Block::Mag,
                RegisterWrite::CfgRegCM(_) => Block::Mag,
                _ => Block::Accel,
            }),
    {
        match self {
            RegisterWrite::CfgRegAM(_) => Block::Mag,
            RegisterWrite::CfgRegBM(_) => Block::Mag,
            RegisterWrite::CfgRegCM(_) => Block::Mag,
            _ => Block::Accel,
        }
    }

    /// Register address.
    #[verifier::allow_in_spec]
    pub fn address(&self) -> u8
        returns
            (match self {
                RegisterWrite::CtrlReg1A(_) => Register::CTRL_REG1_A,
                RegisterWrite::CtrlReg3A(_) => Register::CTRL_REG3_A,
                RegisterWrite::CtrlReg4A(_) => Register::CTRL_REG4_A,
                RegisterWrite::CtrlReg5A(_) => Register::CTRL_REG5_A,
                RegisterWrite::FifoCtrlRegA(_) => Register::FIFO_CTRL_REG_A,
                RegisterWrite::TempCfgRegA(_) => Register::TEMP_CFG_REG_A,
                RegisterWrite::CfgRegAM(_) => Register::CFG_REG_A_M,
                RegisterWrite::CfgRegBM(_) => Register::CFG_REG_B_M,
                RegisterWrite::CfgRegCM(_) => Register::CFG_REG_C_M,
            }),
    {
        match self {
            RegisterWrite::CtrlReg1A(_) => Register::CTRL_REG1_A,
            RegisterWrite::CtrlReg3A(_) => Register::CTRL_REG3_A,
            RegisterWrite::CtrlReg4A(_) => Register::CTRL_REG4_A,
            RegisterWrite::CtrlReg5A(_) => Register::CTRL_REG5_A,
            RegisterWrite::FifoCtrlRegA(_) => Register::FIFO_CTRL_REG_A,
            RegisterWrite::TempCfgRegA(_) => Register::TEMP_CFG_REG_A,
            RegisterWrite::CfgRegAM(_) => Register::CFG_REG_A_M,
            RegisterWrite::CfgRegBM(_) => Register::CFG_REG_B_M,
            RegisterWrite::CfgRegCM(_) => Register::CFG_REG_C_M,
        }
    }

    /// Value written.
    #[verifier::allow_in_spec]
    pub fn value(&self) -> u8
        returns
            (match self {
                RegisterWrite::CtrlReg1A(r) => r.bits,
                RegisterWrite::CtrlReg3A(r) => r.bits,
                RegisterWrite::CtrlReg4A(r) => r.bits,
                RegisterWrite::CtrlReg5A(r) => r.bits,
                RegisterWrite::FifoCtrlRegA(r) => r.bits,
                RegisterWrite::TempCfgRegA(r) => r.bits,
                RegisterWrite::CfgRegAM(r) => r.bits,
                RegisterWrite::CfgRegBM(r) => r.bits,
                RegisterWrite::CfgRegCM(r) => r.bits,
            }),
    {
        match self {
            RegisterWrite::CtrlReg1A(r) => r.bits,
            RegisterWrite::CtrlReg3A(r) => r.bits,
            RegisterWrite::CtrlReg4A(r) => r.bits,
            RegisterWrite::CtrlReg5A(r) => r.bits,
            RegisterWrite::FifoCtrlRegA(r) => r.bits,
            RegisterWrite::TempCfgRegA(r) => r.bits,
            RegisterWrite::CfgRegAM(r) => r.bits,
            RegisterWrite::CfgRegBM(r) => r.bits,
            RegisterWrite::CfgRegCM(r) => r.bits,
        }
    }
}

/// A read of one register or of a run of consecutive registers.
#[derive(Debug, Clone, Copy, PartialEq, Eq, Structural)]
pub enum RegisterRead {
    /// STATUS_REG_A, one byte
    AccelStatus,
    /// STATUS_REG_AUX_A, one byte
    TemperatureStatus,
    /// OUT_TEMP_L_A and OUT_TEMP_H_A, one little-endian word
    Temperature,
    /// WHO_AM_I_A, one byte
    AccelerometerId,
    /// OUT_X_L_A to OUT_Z_H_A, three little-endian words
    Acceleration,
    /// STATUS_REG_M, one byte
    MagStatus,
    /// WHO_AM_I_M, one byte
    MagnetometerId,
    /// CFG_REG_A_M, one byte
    MagConfig,
    /// OUTX_L_REG_M to OUTZ_H_REG_M, three little-endian words
    MagneticField,
}

impl RegisterRead {
    /// Sub-device that holds the registers.
    #[verifier::allow_in_spec]
    pub fn block(&self) -> Block
        returns
            (match self {
                RegisterRead::MagStatus => Block::Mag,
                RegisterRead::MagnetometerId => Block::Mag,
                RegisterRead::MagConfig => Block::Mag,
                RegisterRead::MagneticField => Block::Mag,
                _ => Block::Accel,
            }),
    {
        match self {
            RegisterRead::MagStatus => Block::Mag,
            RegisterRead::MagnetometerId => Block::Mag,
            RegisterRead::MagConfig => Block::Mag,
            RegisterRead::MagneticField => Block::Mag,
            _ => Block::Accel,
        }
    }

    /// Address of the first register read.
    #[verifier::allow_in_spec]
    pub fn address(&self) -> u8
        returns
            (match self {
                RegisterRead::AccelStatus => Register::STATUS_REG_A,
                RegisterRead::TemperatureStatus => Register::STATUS_REG_AUX_A,
                RegisterRead::Temperature => Register::OUT_TEMP_L_A,
                RegisterRead::AccelerometerId => Register::WHO_AM_I_A,
                RegisterRead::Acceleration => Register::OUT_X_L_A,
                RegisterRead::MagStatus => Register::STATUS_REG_M,
                RegisterRead::MagnetometerId => Register::WHO_AM_I_M,
                RegisterRead::MagConfig => Register::CFG_REG_A_M,
                RegisterRead::MagneticField => Register::OUTX_L_REG_M,
            }),
    {
        match self {
            RegisterRead::AccelStatus => Register::STATUS_REG_A,
            RegisterRead::TemperatureStatus => Register::STATUS_REG_AUX_A,
            RegisterRead::Temperature => Register::OUT_TEMP_L_A,
            RegisterRead::AccelerometerId => Register::WHO_AM_I_A,
            RegisterRead::Acceleration => Register::OUT_X_L_A,
            RegisterRead::MagStatus => Register::STATUS_REG_M,
            RegisterRead::MagnetometerId => Register::WHO_AM_I_M,
            RegisterRead::MagConfig => Register::CFG_REG_A_M,
            RegisterRead::MagneticField => Register::OUTX_L_REG_M,
        }
    }

    /// Number of bytes read.
    #[verifier::allow_in_spec]
    pub fn len(&self) -> usize
        returns
            (match self {
                RegisterRead::Temperature => 2usize,
                RegisterRead::Acceleration => 6usize,
                RegisterRead::MagneticField => 6usize,
                _ => 1usize,
            }),
    {
        match self {
            RegisterRead::Temperature => 2usize,
            RegisterRead::Acceleration => 6usize,
            RegisterRead::MagneticField => 6usize,
            _ => 1usize,
        }
    }
}

/// 7-bit I²C address of a sub-device.
#[verifier::allow_in_spec]
pub fn i2c_address(block: Block) -> u8
    returns
        (match block {
            Block::Accel => ACCEL_ADDR,
            Block::Mag => MAG_ADDR,
        }),
{
    match block {
        Block::Accel => ACCEL_ADDR,
        Block::Mag => MAG_ADDR,
    }
}

/// First byte of an I²C read: the register address, with the auto-increment bit set
/// when more than one register is read.
#[verifier::allow_in_spec]
pub fn i2c_read_command(read: RegisterRead) -> u8
    returns
        (if read.len() > 1 {
            read.address() | 0x80
        } else {
            read.address()
        }),
{
    if read.len() > 1 {
        read.address() | BitFlags::I2C_AUTO_INCREMENT
    } else {
        read.address()
    }
}

/// First byte of an SPI read: the read bit, the auto-increment bit when more than one
/// register is read, and the register address.
#[verifier::allow_in_spec]
pub fn spi_read_command(read: RegisterRead) -> u8
    returns
        (if read.len() > 1 {
            0x80u8 | 0x40u8 | read.address()
        } else {
            0x80u8 | read.address()
        }),
{
    if read.len() > 1 {
        BitFlags::SPI_RW | BitFlags::SPI_MS | read.address()
    } else {
        BitFlags::SPI_RW | read.address()
    }
}

/// Bytes written for a register write, on either bus: address, then value.
pub fn write_payload(write: RegisterWrite) -> (r: [u8; 2])
    ensures
        r@ == seq![write.address(), write.value()],
{
    let r = [write.address(), write.value()];
    assert(r@ =~= seq![write.address(), write.value()]);
    r
}

/// Buffer of an SPI read transfer: the command byte, then one dummy byte for each register.
pub fn spi_read_buffer(read: RegisterRead) -> (r: Vec<u8>)
    ensures
        r@.len() == read.len() + 1,
        r@[0] == spi_read_command(read),
        forall|i: int| 1 <= i < r@.len() ==> r@[i] == 0,
{
    let mut buf: Vec<u8> = Vec::new();
    buf.push(spi_read_command(read));
    let n = read.len();
    let mut i: usize = 0;
    while i < n
        invariant
            n == read.len(),
            i <= n,
            buf@.len() == i + 1,
            buf@[0] == spi_read_command(read),
            forall|j: int| 1 <= j < buf@.len() ==> buf@[j] == 0,
        decreases n - i,
    {
        buf.push(0);
        i += 1;
    }
    buf
}

/// The bytes read by an SPI transfer: everything after the command byte.
pub fn spi_read_data(buf: &[u8]) -> (r: Vec<u8>)
    requires
        buf@.len() >= 1,
    ensures
        r@ == buf@.subrange(1, buf@.len() as int),
{
    let mut data: Vec<u8> = Vec::new();
    let mut i: usize = 1;
    while i < buf.len()
        invariant
            1 <= i <= buf@.len(),
            data@ == buf@.subrange(1, i as int),
        decreases buf@.len() - i,
    {
        data.push(buf[i]);
        i += 1;
        assert(data@ =~= buf@.subrange(1, i as int));
    }
    data
}

/// Little-endian word of two bytes.
#[verifier::allow_in_spec]
pub fn le_word(lo: u8, hi: u8) -> u16
    returns
        (lo as u16 + hi as u16 * 256) as u16,
{
    lo as u16 + hi as u16 * 256
}

/// The three little-endian words of six consecutive bytes.
pub fn xyz_words(data: &[u8]) -> (r: (u16, u16, u16))
    requires
        data@.len() == 6,
    ensures
        r == (le_word(data@[0], data@[1]), le_word(data@[2], data@[3]), le_word(data@[4], data@[5])),
{
    (le_word(data[0], data[1]), le_word(data[2], data[3]), le_word(data[4], data[5]))
}

} // verus!
