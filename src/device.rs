//! The device handle and its mirror of the chip's writable control registers.
//!
//! Every operation that changes the chip's configuration is computed here as a [`Plan`]:
//! the register writes to issue in order and the settling time to wait once all of them
//! succeeded. The caller performs each write on the bus and hands the outcome to
//! [`Lsm303agr::record_write`], which records a successful write and leaves the mirror
//! unchanged on failure, so the mirror always equals what was last written successfully
//! to the chip.

use core::marker::PhantomData;
use vstd::prelude::*;

use crate::interface::{I2cInterface, RegisterWrite, SpiInterface};
use crate::mode::{MagContinuous, MagOneShot};
use crate::register::{
    CfgRegAM, CfgRegBM, CfgRegCM, CtrlReg1A, CtrlReg3A, CtrlReg4A, CtrlReg5A, FifoCtrlRegA,
    TempCfgRegA,
};
use crate::types::{AccelMode, AccelOutputDataRate, AccelScale, Error, MagMode, ModeChangeError};

verus! {

/// In-memory copy of every writable control register of the chip.
#[derive(Debug, Clone, Copy, PartialEq, Eq, Structural)]
pub struct Registers {
    pub ctrl_reg1_a: CtrlReg1A,
    pub ctrl_reg3_a: CtrlReg3A,
    pub ctrl_reg4_a: CtrlReg4A,
    pub ctrl_reg5_a: CtrlReg5A,
    pub fifo_ctrl_reg_a: FifoCtrlRegA,
    pub temp_cfg_reg_a: TempCfgRegA,
    pub cfg_reg_a_m: CfgRegAM,
    pub cfg_reg_b_m: CfgRegBM,
    pub cfg_reg_c_m: CfgRegCM,
}

/// Register writes to issue in order, and the time to wait once all of them succeeded.
#[derive(Debug)]
pub struct Plan {
    pub writes: Vec<RegisterWrite>,
    pub settle_us: Option<u32>,
}

impl Registers {
    /// The chip's register contents after power-on: accelerometer powered down with the
    /// three axes enabled, magnetometer idle.
    #[verifier::allow_in_spec]
    pub fn power_on() -> Registers
        returns
            (Registers {
                ctrl_reg1_a: CtrlReg1A { bits: 0x07 },
                ctrl_reg3_a: CtrlReg3A { bits: 0 },
                ctrl_reg4_a: CtrlReg4A { bits: 0 },
                ctrl_reg5_a: CtrlReg5A { bits: 0 },
                fifo_ctrl_reg_a: FifoCtrlRegA { bits: 0 },
                temp_cfg_reg_a: TempCfgRegA { bits: 0 },
                cfg_reg_a_m: CfgRegAM { bits: 0x03 },
                cfg_reg_b_m: CfgRegBM { bits: 0 },
                cfg_reg_c_m: CfgRegCM { bits: 0 },
            }),
    {
        Registers {
            ctrl_reg1_a: CtrlReg1A { bits: CtrlReg1A::XYZEN },
            ctrl_reg3_a: CtrlReg3A { bits: 0 },
            ctrl_reg4_a: CtrlReg4A { bits: 0 },
            ctrl_reg5_a: CtrlReg5A { bits: 0 },
            fifo_ctrl_reg_a: FifoCtrlRegA { bits: 0 },
            temp_cfg_reg_a: TempCfgRegA { bits: 0 },
            cfg_reg_a_m: CfgRegAM { bits: CfgRegAM::MD },
            cfg_reg_b_m: CfgRegBM { bits: 0 },
            cfg_reg_c_m: CfgRegCM { bits: 0 },
        }
    }

    /// The registers after `write` succeeded.
    #[verifier::allow_in_spec]
    pub fn committed(self, write: RegisterWrite) -> Registers
        returns
            (match write {
                RegisterWrite::CtrlReg1A(r) => Registers { ctrl_reg1_a: r, ..self },
                RegisterWrite::CtrlReg3A(r) => Registers { ctrl_reg3_a: r, ..self },
                RegisterWrite::CtrlReg4A(r) => Registers { ctrl_reg4_a: r, ..self },
                RegisterWrite::CtrlReg5A(r) => Registers { ctrl_reg5_a: r, ..self },
                RegisterWrite::FifoCtrlRegA(r) => Registers { fifo_ctrl_reg_a: r, ..self },
                RegisterWrite::TempCfgRegA(r) => Registers { temp_cfg_reg_a: r, ..self },
                RegisterWrite::CfgRegAM(r) => Registers { cfg_reg_a_m: r, ..self },
                RegisterWrite::CfgRegBM(r) => Registers { cfg_reg_b_m: r, ..self },
                RegisterWrite::CfgRegCM(r) => Registers { cfg_reg_c_m: r, ..self },
            }),
    {
        match write {
            RegisterWrite::CtrlReg1A(r) => Registers { ctrl_reg1_a: r, ..self },
            RegisterWrite::CtrlReg3A(r) => Registers { ctrl_reg3_a: r, ..self },
            RegisterWrite::CtrlReg4A(r) => Registers { ctrl_reg4_a: r, ..self },
            RegisterWrite::CtrlReg5A(r) => Registers { ctrl_reg5_a: r, ..self },
            RegisterWrite::FifoCtrlRegA(r) => Registers { fifo_ctrl_reg_a: r, ..self },
            RegisterWrite::TempCfgRegA(r) => Registers { temp_cfg_reg_a: r, ..self },
            RegisterWrite::CfgRegAM(r) => Registers { cfg_reg_a_m: r, ..self },
            RegisterWrite::CfgRegBM(r) => Registers { cfg_reg_b_m: r, ..self },
            RegisterWrite::CfgRegCM(r) => Registers { cfg_reg_c_m: r, ..self },
        }
    }

    /// The registers after all of `writes` succeeded, in order.
    pub open spec fn after(self, writes: Seq<RegisterWrite>) -> Registers
        decreases writes.len(),
    {
        if writes.len() == 0 {
            self
        } else {
            self.committed(writes[0]).after(writes.drop_first())
        }
    }

    /// Plan that initializes the chip: block data update for both sensors and the
    /// temperature sensor enabled.
    pub fn init_plan(&self) -> (r: Plan)
        ensures
            r.writes@ == seq![
                RegisterWrite::CtrlReg4A(self.ctrl_reg4_a.with_block_data_update()),
                RegisterWrite::TempCfgRegA(self.temp_cfg_reg_a.with_temperature_enabled()),
                RegisterWrite::CfgRegCM(self.cfg_reg_c_m.union(0x10)),
            ],
            r.settle_us is None,
    {
        let writes = vec![
            RegisterWrite::CtrlReg4A(self.ctrl_reg4_a.with_block_data_update()),
            RegisterWrite::TempCfgRegA(self.temp_cfg_reg_a.with_temperature_enabled()),
            RegisterWrite::CfgRegCM(self.cfg_reg_c_m.union(CfgRegCM::BDU)),
        ];
        Plan { writes, settle_us: None }
    }

    /// Accelerometer mode, derived from the rate field, the high-resolution bit and the
    /// low-power bit.
    #[verifier::allow_in_spec]
    pub fn accel_mode(&self) -> AccelMode
        returns
            (if self.ctrl_reg1_a.is_powered_down() {
                AccelMode::PowerDown
            } else if self.ctrl_reg4_a.is_high_resolution() {
                AccelMode::HighResolution
            } else if self.ctrl_reg1_a.is_low_power() {
                AccelMode::LowPower
            } else {
                AccelMode::Normal
            }),
    {
        if self.ctrl_reg1_a.is_powered_down() {
            AccelMode::PowerDown
        } else if self.ctrl_reg4_a.is_high_resolution() {
            AccelMode::HighResolution
        } else if self.ctrl_reg1_a.is_low_power() {
            AccelMode::LowPower
        } else {
            AccelMode::Normal
        }
    }
}

/// Whether an accelerometer output data rate (or none) can be used in a mode: 1.344 kHz
/// is not available in low-power mode, the low-power-only rates are not available in
/// normal and high-resolution mode, and only power-down goes without a rate.
pub open spec fn accel_compatible(odr: Option<AccelOutputDataRate>, mode: AccelMode) -> bool {
    match odr {
        None => mode == AccelMode::PowerDown,
        Some(odr) => !(
            (odr == AccelOutputDataRate::Khz1_344 && mode == AccelMode::LowPower)
            || ((odr == AccelOutputDataRate::Khz1_620LowPower
                || odr == AccelOutputDataRate::Khz5_376LowPower)
                && (mode == AccelMode::Normal || mode == AccelMode::HighResolution))
        ),
    }
}

/// Check that an accelerometer output data rate (or none) can be used in a mode.
pub fn check_accel_odr_is_compatible_with_mode<CommE>(
    odr: Option<AccelOutputDataRate>,
    mode: AccelMode,
) -> (r: Result<(), Error<CommE>>)
    ensures
        r is Ok <==> accel_compatible(odr, mode),
        r is Err ==> r->Err_0 is InvalidInputData,
{
    match (odr, mode) {
        (None, AccelMode::PowerDown) => Ok(()),
        (None, _) => Err(Error::InvalidInputData),
        (Some(odr), mode) => match (odr, mode) {
            (AccelOutputDataRate::Khz1_344, AccelMode::LowPower) => Err(Error::InvalidInputData),
            (AccelOutputDataRate::Khz1_620LowPower, AccelMode::Normal) => Err(Error::InvalidInputData),
            (AccelOutputDataRate::Khz1_620LowPower, AccelMode::HighResolution) => Err(Error::InvalidInputData),
            (AccelOutputDataRate::Khz5_376LowPower, AccelMode::Normal) => Err(Error::InvalidInputData),
            (AccelOutputDataRate::Khz5_376LowPower, AccelMode::HighResolution) => Err(Error::InvalidInputData),
            _ => Ok(()),
        },
    }
}

/// LSM303AGR device driver: the bus it owns, the mirror of the control registers, and the
/// magnetometer mode as a type-level marker.
#[derive(Debug)]
pub struct Lsm303agr<DI, MODE> {
    iface: DI,
    regs: Registers,
    _mag_mode: PhantomData<MODE>,
}

impl<DI, MODE> View for Lsm303agr<DI, MODE> {
    type V = Registers;

    closed spec fn view(&self) -> Registers {
        self.regs
    }
}

impl<I2C> Lsm303agr<I2cInterface<I2C>, MagOneShot> {
    /// Create new instance of the LSM303AGR device communicating through I2C.
    pub fn new_with_i2c(i2c: I2C) -> (r: Self)
        ensures
            r@ == Registers::power_on(),
            r.bus() == (I2cInterface { i2c }),
    {
        Lsm303agr { iface: I2cInterface { i2c }, regs: Registers::power_on(), _mag_mode: PhantomData }
    }
}

impl<I2C, MODE> Lsm303agr<I2cInterface<I2C>, MODE> {
    /// Destroy driver instance, return I2C bus.
    pub fn destroy(self) -> (r: I2C)
        ensures
            r == self.bus().i2c,
    {
        self.iface.i2c
    }
}

impl<SPIXL, SPIMAG> Lsm303agr<SpiInterface<SPIXL, SPIMAG>, MagOneShot> {
    /// Create new instance of the LSM303AGR device communicating through SPI.
    pub fn new_with_spi(spi_accel: SPIXL, spi_mag: SPIMAG) -> (r: Self)
        ensures
            r@ == Registers::power_on(),
            r.bus() == (SpiInterface { spi_xl: spi_accel, spi_mag }),
    {
        Lsm303agr {
            iface: SpiInterface { spi_xl: spi_accel, spi_mag },
            regs: Registers::power_on(),
            _mag_mode: PhantomData,
        }
    }
}

impl<SPIXL, SPIMAG, MODE> Lsm303agr<SpiInterface<SPIXL, SPIMAG>, MODE> {
    /// Destroy driver instance, return the SPI devices of the accelerometer and magnetometer.
    pub fn destroy(self) -> (r: (SPIXL, SPIMAG))
        ensures
            r == (self.bus().spi_xl, self.bus().spi_mag),
    {
        (self.iface.spi_xl, self.iface.spi_mag)
    }
}

impl<DI, MODE> Lsm303agr<DI, MODE> {
    /// The bus interface the device owns.
    pub closed spec fn bus(&self) -> DI {
        self.iface
    }

    /// The bus interface, to perform the transactions of a plan on.
    pub fn iface_mut(&mut self) -> (r: &mut DI)
        ensures
            *r == old(self).bus(),
            final(self).bus() == *final(r),
            final(self)@ == old(self)@,
    {
        &mut self.iface
    }

    /// Copy of the control registers as last written to the chip.
    pub fn registers(&self) -> (r: Registers)
        ensures
            r == self@,
    {
        self.regs
    }

    /// Record that `write` was performed successfully on the chip.
    pub fn commit(&mut self, write: RegisterWrite)
        ensures
            final(self)@ == old(self)@.committed(write),
            final(self).bus() == old(self).bus(),
    {
        self.regs = self.regs.committed(write);
    }

    /// Take the outcome of performing `write` on the bus: on success the write is recorded
    /// in the register copy; on failure the copy is left as it was and the bus error is
    /// passed on as a communication error.
    pub fn record_write<CommE>(&mut self, write: RegisterWrite, outcome: Result<(), CommE>) -> (r: Result<(), Error<CommE>>)
        ensures
            outcome is Ok ==> r is Ok && final(self)@ == old(self)@.committed(write),
            outcome is Err ==> r == Err::<(), Error<CommE>>(Error::Comm(outcome->Err_0)),
            outcome is Err ==> final(self)@ == old(self)@,
            final(self).bus() == old(self).bus(),
    {
        match outcome {
            Ok(()) => {
                self.commit(write);
                Ok(())
            },
            Err(e) => Err(Error::Comm(e)),
        }
    }

    /// Get the accelerometer mode, derived from the mirrored register bits.
    pub fn get_accel_mode(&self) -> (r: AccelMode)
        ensures
            r == self@.accel_mode(),
    {
        self.regs.accel_mode()
    }

    /// Get accelerometer scaling factor
    pub fn get_accel_scale(&self) -> (r: AccelScale)
        ensures
            r == self@.ctrl_reg4_a.scale(),
    {
        self.regs.ctrl_reg4_a.scale()
    }

    /// Get the accelerometer output data rate, or `None` when powered down.
    pub fn get_accel_odr(&self) -> (r: Option<AccelOutputDataRate>)
        ensures
            r == self@.ctrl_reg1_a.odr(),
    {
        self.regs.ctrl_reg1_a.odr()
    }

    /// Get magnetometer power/resolution mode.
    pub fn get_mag_mode(&self) -> (r: MagMode)
        ensures
            r == self@.cfg_reg_a_m.mode(),
    {
        self.regs.cfg_reg_a_m.mode()
    }
}

impl<DI> Lsm303agr<DI, MagOneShot> {
    /// The register write that switches the magnetometer to continuous mode.
    pub fn mag_continuous_write(&self) -> (r: RegisterWrite)
        ensures
            r == RegisterWrite::CfgRegAM(self@.cfg_reg_a_m.continuous_mode()),
    {
        RegisterWrite::CfgRegAM(self.regs.cfg_reg_a_m.continuous_mode())
    }

    /// Change the magnetometer to continuous measurement mode, given the outcome of the
    /// write of [`mag_continuous_write`](Self::mag_continuous_write). On failure the error
    /// carries back this handle, unchanged.
    pub fn into_mag_continuous<CommE>(self, written: Result<(), CommE>) -> (r: Result<Lsm303agr<DI, MagContinuous>, ModeChangeError<CommE, Self>>)
        ensures
            written is Ok ==> r is Ok,
            written is Ok ==> r->Ok_0@ == self@.committed(RegisterWrite::CfgRegAM(self@.cfg_reg_a_m.continuous_mode())),
            written is Ok ==> r->Ok_0.bus() == self.bus(),
            written is Err ==> r is Err,
            written is Err ==> r->Err_0.dev == self,
            written is Err ==> r->Err_0.error == Error::<CommE>::Comm(written->Err_0),
    {
        match written {
            Err(error) => Err(ModeChangeError { error: Error::Comm(error), dev: self }),
            Ok(()) => {
                let cfg = self.regs.cfg_reg_a_m.continuous_mode();
                Ok(Lsm303agr {
                    iface: self.iface,
                    regs: self.regs.committed(RegisterWrite::CfgRegAM(cfg)),
                    _mag_mode: PhantomData,
                })
            },
        }
    }
}

impl<DI> Lsm303agr<DI, MagContinuous> {
    /// The register write that puts the magnetometer in idle mode, ready for one-shot
    /// measurements.
    pub fn mag_one_shot_write(&self) -> (r: RegisterWrite)
        ensures
            r == RegisterWrite::CfgRegAM(self@.cfg_reg_a_m.idle_mode()),
    {
        RegisterWrite::CfgRegAM(self.regs.cfg_reg_a_m.idle_mode())
    }

    /// Change the magnetometer to one-shot mode, given the outcome of the write of
    /// [`mag_one_shot_write`](Self::mag_one_shot_write). After this the magnetometer is
    /// idle until a one-shot measurement is started. On failure the error carries back
    /// this handle, unchanged.
    pub fn into_mag_one_shot<CommE>(self, written: Result<(), CommE>) -> (r: Result<Lsm303agr<DI, MagOneShot>, ModeChangeError<CommE, Self>>)
        ensures
            written is Ok ==> r is Ok,
            written is Ok ==> r->Ok_0@ == self@.committed(RegisterWrite::CfgRegAM(self@.cfg_reg_a_m.idle_mode())),
            written is Ok ==> r->Ok_0.bus() == self.bus(),
            written is Err ==> r is Err,
            written is Err ==> r->Err_0.dev == self,
            written is Err ==> r->Err_0.error == Error::<CommE>::Comm(written->Err_0),
    {
        match written {
            Err(error) => Err(ModeChangeError { error: Error::Comm(error), dev: self }),
            Ok(()) => {
                let cfg = self.regs.cfg_reg_a_m.idle_mode();
                Ok(Lsm303agr {
                    iface: self.iface,
                    regs: self.regs.committed(RegisterWrite::CfgRegAM(cfg)),
                    _mag_mode: PhantomData,
                })
            },
        }
    }
}

} // verus!
