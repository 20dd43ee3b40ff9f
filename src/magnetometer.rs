//! Magnetometer power mode, output data rate, offset cancellation, and the one-shot
//! measurement protocol.

use vstd::prelude::*;

use crate::device::{Lsm303agr, Plan, Registers};
use crate::interface::{RegisterRead, RegisterWrite};
use crate::measurement::Status;
use crate::mode::{MagContinuous, MagOneShot};
use crate::register::{CfgRegAM, CfgRegBM, CfgRegCM};
use crate::types::{MagMode, MagOutputDataRate};

verus! {

impl Registers {
    /// Settling time after changing the magnetometer to `mode` at `odr`: the mode's
    /// turn-on time when the mode changes; one output period when only the rate changes;
    /// none otherwise.
    pub open spec fn mag_mode_and_odr_settle(self, mode: MagMode, odr: MagOutputDataRate) -> Option<u32> {
        if self.cfg_reg_a_m.mode() != mode {
            Some(mode.spec_turn_on_time_us())
        } else if self.cfg_reg_a_m.odr() != odr {
            Some(odr.spec_turn_on_time_us_frac_1())
        } else {
            None
        }
    }

    /// Plan that sets the magnetometer power mode and output data rate.
    pub fn set_mag_mode_and_odr_plan(&self, mode: MagMode, odr: MagOutputDataRate) -> (r: Plan)
        ensures
            r.writes@ == seq![RegisterWrite::CfgRegAM(self.cfg_reg_a_m.with_mode(mode).with_odr(odr))],
            r.settle_us == self.mag_mode_and_odr_settle(mode, odr),
            self.after(r.writes@).cfg_reg_a_m.mode() == mode,
            self.after(r.writes@).cfg_reg_a_m.odr() == odr,
    {
        proof {
            lemma_mag_mode_and_odr_sets_mode(*self, mode, odr);
        }
        let old_mode = self.cfg_reg_a_m.mode();
        let old_odr = self.cfg_reg_a_m.odr();
        let rega = self.cfg_reg_a_m.with_mode(mode).with_odr(odr);
        let settle_us = if old_mode != mode {
            Some(mode.turn_on_time_us())
        } else if old_odr != odr {
            Some(odr.turn_on_time_us_frac_1())
        } else {
            None
        };
        let writes = vec![RegisterWrite::CfgRegAM(rega)];
        assert(writes@ =~= seq![RegisterWrite::CfgRegAM(rega)]);
        Plan { writes, settle_us }
    }

    /// Plan that enables the magnetometer low-pass filter.
    pub fn mag_enable_low_pass_filter_plan(&self) -> (r: Plan)
        ensures
            r.writes@ == seq![RegisterWrite::CfgRegBM(self.cfg_reg_b_m.union(0x01))],
            r.settle_us is None,
    {
        Plan { writes: vec![RegisterWrite::CfgRegBM(self.cfg_reg_b_m.union(CfgRegBM::LPF))], settle_us: None }
    }

    /// Plan that disables the magnetometer low-pass filter.
    pub fn mag_disable_low_pass_filter_plan(&self) -> (r: Plan)
        ensures
            r.writes@ == seq![RegisterWrite::CfgRegBM(self.cfg_reg_b_m.difference(0x01))],
            r.settle_us is None,
    {
        Plan { writes: vec![RegisterWrite::CfgRegBM(self.cfg_reg_b_m.difference(CfgRegBM::LPF))], settle_us: None }
    }

    /// Plan that configures the magnetometer's DRDY pin as a digital output.
    pub fn mag_enable_int_plan(&self) -> (r: Plan)
        ensures
            r.writes@ == seq![RegisterWrite::CfgRegCM(self.cfg_reg_c_m.union(0x01))],
            r.settle_us is None,
    {
        Plan { writes: vec![RegisterWrite::CfgRegCM(self.cfg_reg_c_m.union(CfgRegCM::INT_MAG))], settle_us: None }
    }
}

proof fn lemma_mag_fields(b: u8)
    ensures
        ((b | 0x10) & 0xF3) & 0x10 != 0,
        (((b | 0x10) & 0xF3) | 0x04) & 0x10 != 0,
        (((b | 0x10) & 0xF3) | 0x08) & 0x10 != 0,
        ((b | 0x10) | 0x0C) & 0x10 != 0,
        ((b & 0xEF) & 0xF3) & 0x10 == 0,
        (((b & 0xEF) & 0xF3) | 0x04) & 0x10 == 0,
        (((b & 0xEF) & 0xF3) | 0x08) & 0x10 == 0,
        ((b & 0xEF) | 0x0C) & 0x10 == 0,
        (b & 0xF3) & 0x0C == 0x00,
        ((b & 0xF3) | 0x04) & 0x0C == 0x04,
        ((b & 0xF3) | 0x08) & 0x0C == 0x08,
        (b | 0x0C) & 0x0C == 0x0C,
{
    assert(((b | 0x10) & 0xF3) & 0x10 != 0 && (((b | 0x10) & 0xF3) | 0x04) & 0x10 != 0
        && (((b | 0x10) & 0xF3) | 0x08) & 0x10 != 0 && ((b | 0x10) | 0x0C) & 0x10 != 0
        && ((b & 0xEF) & 0xF3) & 0x10 == 0 && (((b & 0xEF) & 0xF3) | 0x04) & 0x10 == 0
        && (((b & 0xEF) & 0xF3) | 0x08) & 0x10 == 0 && ((b & 0xEF) | 0x0C) & 0x10 == 0)
        by (bit_vector);
    assert((b & 0xF3) & 0x0C == 0x00 && ((b & 0xF3) | 0x04) & 0x0C == 0x04
        && ((b & 0xF3) | 0x08) & 0x0C == 0x08 && (b | 0x0C) & 0x0C == 0x0C) by (bit_vector);
}

/// Setting the magnetometer mode and output data rate and committing the plan's write
/// leaves the magnetometer in the requested mode at the requested rate.
pub proof fn lemma_mag_mode_and_odr_sets_mode(regs: Registers, mode: MagMode, odr: MagOutputDataRate)
    ensures
        regs.after(seq![RegisterWrite::CfgRegAM(regs.cfg_reg_a_m.with_mode(mode).with_odr(odr))]).cfg_reg_a_m.mode() == mode,
        regs.after(seq![RegisterWrite::CfgRegAM(regs.cfg_reg_a_m.with_mode(mode).with_odr(odr))]).cfg_reg_a_m.odr() == odr,
{
    let writes = seq![RegisterWrite::CfgRegAM(regs.cfg_reg_a_m.with_mode(mode).with_odr(odr))];
    reveal_with_fuel(Registers::after, 2);
    assert(writes.drop_first() =~= Seq::<RegisterWrite>::empty());
    let b = regs.cfg_reg_a_m.bits;
    lemma_mag_fields(b);
    lemma_mag_fields(b | 0x10);
    lemma_mag_fields(b & 0xEF);
}

/// The value written to start a single measurement reads back as single-measurement mode,
/// so a later poll that finds it there starts no second measurement.
pub proof fn lemma_single_mode_reads_back(cfg: CfgRegAM)
    ensures
        cfg.single_mode().is_single_mode(),
{
    let b = cfg.bits;
    assert(((b & 0xFC) | 0x01) & 0x03 == 0x01) by (bit_vector);
}

impl<DI> Lsm303agr<DI, MagContinuous> {
    /// Plan that enables the magnetometer's built in offset cancellation, which the device
    /// manages automatically in continuous mode.
    pub fn enable_mag_offset_cancellation_plan(&self) -> (r: Plan)
        ensures
            r.writes@ == seq![RegisterWrite::CfgRegBM(self@.cfg_reg_b_m.union(0x02))],
            r.settle_us is None,
    {
        let regs = self.registers();
        Plan { writes: vec![RegisterWrite::CfgRegBM(regs.cfg_reg_b_m.union(CfgRegBM::OFF_CANC))], settle_us: None }
    }

    /// Plan that disables the magnetometer's built in offset cancellation.
    pub fn disable_mag_offset_cancellation_plan(&self) -> (r: Plan)
        ensures
            r.writes@ == seq![RegisterWrite::CfgRegBM(self@.cfg_reg_b_m.difference(0x02))],
            r.settle_us is None,
    {
        let regs = self.registers();
        Plan { writes: vec![RegisterWrite::CfgRegBM(regs.cfg_reg_b_m.difference(CfgRegBM::OFF_CANC))], settle_us: None }
    }
}

impl<DI> Lsm303agr<DI, MagOneShot> {
    /// Plan that enables the magnetometer's built in offset cancellation; in one-shot mode
    /// this also takes the one-shot offset cancellation bit.
    pub fn enable_mag_offset_cancellation_plan(&self) -> (r: Plan)
        ensures
            r.writes@ == seq![RegisterWrite::CfgRegBM(self@.cfg_reg_b_m.union(0x12))],
            r.settle_us is None,
    {
        let regs = self.registers();
        let mask = CfgRegBM::OFF_CANC | CfgRegBM::OFF_CANC_ONE_SHOT;
        assert(mask == 0x12) by (bit_vector)
            requires
                mask == 0x02u8 | 0x10u8,
        ;
        Plan { writes: vec![RegisterWrite::CfgRegBM(regs.cfg_reg_b_m.union(mask))], settle_us: None }
    }

    /// Plan that disables the magnetometer's built in offset cancellation, both bits.
    pub fn disable_mag_offset_cancellation_plan(&self) -> (r: Plan)
        ensures
            r.writes@ == seq![RegisterWrite::CfgRegBM(self@.cfg_reg_b_m.difference(0x12))],
            r.settle_us is None,
    {
        let regs = self.registers();
        let mask = CfgRegBM::OFF_CANC | CfgRegBM::OFF_CANC_ONE_SHOT;
        assert(mask == 0x12) by (bit_vector)
            requires
                mask == 0x02u8 | 0x10u8,
        ;
        Plan { writes: vec![RegisterWrite::CfgRegBM(regs.cfg_reg_b_m.difference(mask))], settle_us: None }
    }

    /// One-shot measurement, after reading the status register: read the field when new
    /// data for all three axes is there, else read the mode configuration.
    pub fn one_shot_next_read(&self, status: Status) -> (r: RegisterRead)
        ensures
            r == (if status.xyz_new_data() { RegisterRead::MagneticField } else { RegisterRead::MagConfig }),
    {
        if status.xyz_new_data() {
            RegisterRead::MagneticField
        } else {
            RegisterRead::MagConfig
        }
    }

    /// One-shot measurement, after reading the mode configuration while no data was ready:
    /// the write that starts a single measurement, or none when one is in progress. Either
    /// way the measurement is not ready yet.
    pub fn one_shot_trigger(&self, cfg: CfgRegAM) -> (r: Option<RegisterWrite>)
        ensures
            cfg.is_single_mode() ==> r is None,
            !cfg.is_single_mode() ==> r == Some(RegisterWrite::CfgRegAM(self@.cfg_reg_a_m.single_mode())),
    {
        if cfg.is_single_mode() {
            None
        } else {
            Some(RegisterWrite::CfgRegAM(self.registers().cfg_reg_a_m.single_mode()))
        }
    }
}

} // verus!
