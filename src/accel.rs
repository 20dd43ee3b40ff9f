//! Accelerometer power mode, output data rate and scale.

use vstd::prelude::*;

use crate::device::{accel_compatible, check_accel_odr_is_compatible_with_mode, Lsm303agr, Plan, Registers};
use crate::interface::{le_word, xyz_words, RegisterWrite};
use crate::measurement::Acceleration;
use crate::register::CtrlReg1A;
use crate::types::{AccelMode, AccelOutputDataRate, AccelScale, Error, FifoMode, Interrupt};

verus! {

impl Registers {
    /// CTRL_REG1_A after a change to `mode` at `odr`: the rate field cleared for
    /// power-down (or without a rate), else set for the rate; the low-power bit set exactly
    /// in low-power mode.
    pub open spec fn accel_rate_reg(self, mode: AccelMode, odr: Option<AccelOutputDataRate>) -> CtrlReg1A {
        let base = if mode == AccelMode::PowerDown || odr is None {
            self.ctrl_reg1_a.without_odr()
        } else {
            self.ctrl_reg1_a.with_odr(odr->Some_0)
        };
        base.with_low_power(mode == AccelMode::LowPower)
    }

    /// Writes that change the accelerometer to `mode` at `odr`. The high-resolution bit is
    /// cleared before the rate register is written, or set after it when entering
    /// high-resolution mode, so that no invalid combination is ever active.
    pub open spec fn accel_mode_and_odr_writes(self, mode: AccelMode, odr: Option<AccelOutputDataRate>) -> Seq<RegisterWrite> {
        let reg1 = self.accel_rate_reg(mode, odr);
        let reg4 = self.ctrl_reg4_a.with_high_resolution(false);
        if mode == AccelMode::HighResolution {
            seq![RegisterWrite::CtrlReg1A(reg1), RegisterWrite::CtrlReg4A(reg4.with_high_resolution(true))]
        } else {
            seq![RegisterWrite::CtrlReg4A(reg4), RegisterWrite::CtrlReg1A(reg1)]
        }
    }

    /// Settling time after changing the accelerometer to `mode` at `odr`: none when
    /// powering down, else the change time from the current mode.
    pub open spec fn accel_mode_and_odr_settle(self, mode: AccelMode, odr: Option<AccelOutputDataRate>) -> Option<u32> {
        if mode == AccelMode::PowerDown || odr is None {
            None
        } else {
            Some(self.accel_mode().spec_change_time_us(mode, odr->Some_0))
        }
    }

    /// Plan that sets the accelerometer power mode and output data rate, or
    /// `InvalidInputData` when the two are not compatible.
    pub fn set_accel_mode_and_odr_plan<CommE>(&self, mode: AccelMode, odr: Option<AccelOutputDataRate>) -> (r: Result<Plan, Error<CommE>>)
        ensures
            r is Ok <==> accel_compatible(odr, mode),
            r is Ok ==> r->Ok_0.writes@ == self.accel_mode_and_odr_writes(mode, odr),
            r is Ok ==> r->Ok_0.settle_us == self.accel_mode_and_odr_settle(mode, odr),
            r is Ok ==> self.after(r->Ok_0.writes@).accel_mode() == mode,
            r is Ok ==> self.after(r->Ok_0.writes@).ctrl_reg1_a.odr() == (if mode == AccelMode::PowerDown { None } else { odr }),
            r is Ok ==> self.after(r->Ok_0.writes@).ctrl_reg4_a.scale() == self.ctrl_reg4_a.scale(),
            r is Err ==> r->Err_0 is InvalidInputData,
    {
        match check_accel_odr_is_compatible_with_mode::<CommE>(odr, mode) {
            Err(e) => {
                return Err(e);
            },
            Ok(()) => {},
        }
        let old_mode = self.accel_mode();
        let base = if mode == AccelMode::PowerDown {
            self.ctrl_reg1_a.without_odr()
        } else {
            match odr {
                Some(rate) => self.ctrl_reg1_a.with_odr(rate),
                None => self.ctrl_reg1_a.without_odr(),
            }
        };
        let reg1 = base.with_low_power(mode == AccelMode::LowPower);
        let reg4 = self.ctrl_reg4_a.with_high_resolution(false);
        let writes = if mode == AccelMode::HighResolution {
            vec![RegisterWrite::CtrlReg1A(reg1), RegisterWrite::CtrlReg4A(reg4.with_high_resolution(true))]
        } else {
            vec![RegisterWrite::CtrlReg4A(reg4), RegisterWrite::CtrlReg1A(reg1)]
        };
        let settle_us = if mode == AccelMode::PowerDown {
            None
        } else {
            match odr {
                Some(rate) => Some(old_mode.change_time_us(mode, rate)),
                None => None,
            }
        };
        assert(writes@ =~= self.accel_mode_and_odr_writes(mode, odr));
        proof {
            lemma_accel_mode_and_odr_sets_mode(*self, mode, odr);
        }
        Ok(Plan { writes, settle_us })
    }
}

proof fn lemma_low_power_bit(b: u8, lp: bool)
    ensures
        (if lp { b | 0x08 } else { b & 0xF7 }) & 0xF0 == b & 0xF0,
        ((if lp { b | 0x08 } else { b & 0xF7 }) & 0x08 != 0) == lp,
{
    if lp {
        assert((b | 0x08) & 0xF0 == b & 0xF0 && (b | 0x08) & 0x08 != 0) by (bit_vector);
    } else {
        assert((b & 0xF7) & 0xF0 == b & 0xF0 && (b & 0xF7) & 0x08 == 0) by (bit_vector);
    }
}

proof fn lemma_rate_field(b: u8)
    ensures
        ((b & 0x0F) | 0x10) & 0xF0 == 0x10,
        ((b & 0x0F) | 0x20) & 0xF0 == 0x20,
        ((b & 0x0F) | 0x30) & 0xF0 == 0x30,
        ((b & 0x0F) | 0x40) & 0xF0 == 0x40,
        ((b & 0x0F) | 0x50) & 0xF0 == 0x50,
        ((b & 0x0F) | 0x60) & 0xF0 == 0x60,
        ((b & 0x0F) | 0x70) & 0xF0 == 0x70,
        ((b & 0x07) | 0x90) & 0xF0 == 0x90,
        ((b & 0x0F) | 0x88) & 0xF0 == 0x80,
        ((b & 0x0F) | 0x98) & 0xF0 == 0x90,
        (b & 0x0F) & 0xF0 == 0,
{
    assert(((b & 0x0F) | 0x10) & 0xF0 == 0x10 && ((b & 0x0F) | 0x20) & 0xF0 == 0x20
        && ((b & 0x0F) | 0x30) & 0xF0 == 0x30 && ((b & 0x0F) | 0x40) & 0xF0 == 0x40
        && ((b & 0x0F) | 0x50) & 0xF0 == 0x50 && ((b & 0x0F) | 0x60) & 0xF0 == 0x60
        && ((b & 0x0F) | 0x70) & 0xF0 == 0x70 && ((b & 0x07) | 0x90) & 0xF0 == 0x90
        && ((b & 0x0F) | 0x88) & 0xF0 == 0x80 && ((b & 0x0F) | 0x98) & 0xF0 == 0x90
        && (b & 0x0F) & 0xF0 == 0) by (bit_vector);
}

proof fn lemma_high_resolution_bit(b: u8)
    ensures
        (b & 0xF7) & 0x08 == 0,
        ((b & 0xF7) | 0x08) & 0x08 != 0,
        (b & 0xF7) & 0x30 == b & 0x30,
        ((b & 0xF7) | 0x08) & 0x30 == b & 0x30,
{
    assert((b & 0xF7) & 0x08 == 0) by (bit_vector);
    assert(((b & 0xF7) | 0x08) & 0x08 != 0) by (bit_vector);
    assert((b & 0xF7) & 0x30 == b & 0x30) by (bit_vector);
    assert(((b & 0xF7) | 0x08) & 0x30 == b & 0x30) by (bit_vector);
}

/// Setting the accelerometer mode and output data rate to a compatible pair and
/// committing the plan's writes leaves the accelerometer in the requested mode, at the
/// requested rate (none in power-down), with the scale unchanged.
pub proof fn lemma_accel_mode_and_odr_sets_mode(regs: Registers, mode: AccelMode, odr: Option<AccelOutputDataRate>)
    requires
        accel_compatible(odr, mode),
    ensures
        regs.after(regs.accel_mode_and_odr_writes(mode, odr)).accel_mode() == mode,
        regs.after(regs.accel_mode_and_odr_writes(mode, odr)).ctrl_reg1_a.odr() == (if mode == AccelMode::PowerDown { None } else { odr }),
        regs.after(regs.accel_mode_and_odr_writes(mode, odr)).ctrl_reg4_a.scale() == regs.ctrl_reg4_a.scale(),
{
    let writes = regs.accel_mode_and_odr_writes(mode, odr);
    let reg1 = regs.accel_rate_reg(mode, odr);
    let reg4 = regs.ctrl_reg4_a.with_high_resolution(false);
    let final_reg4 = if mode == AccelMode::HighResolution { reg4.with_high_resolution(true) } else { reg4 };
    reveal_with_fuel(Registers::after, 3);
    assert(writes.drop_first().drop_first() =~= Seq::<RegisterWrite>::empty());
    let after = regs.after(writes);
    assert(after.ctrl_reg1_a == reg1 && after.ctrl_reg4_a == final_reg4);
    let b = regs.ctrl_reg1_a.bits;
    let base = if mode == AccelMode::PowerDown || odr is None {
        regs.ctrl_reg1_a.without_odr()
    } else {
        regs.ctrl_reg1_a.with_odr(odr->Some_0)
    };
    lemma_low_power_bit(base.bits, mode == AccelMode::LowPower);
    lemma_high_resolution_bit(regs.ctrl_reg4_a.bits);
    lemma_rate_field(b);
}

impl Registers {
    /// Plan that sets the accelerometer full scale.
    pub fn set_accel_scale_plan(&self, scale: AccelScale) -> (r: Plan)
        ensures
            r.writes@ == seq![RegisterWrite::CtrlReg4A(self.ctrl_reg4_a.with_scale(scale))],
            r.settle_us is None,
            self.after(r.writes@).ctrl_reg4_a.scale() == scale,
    {
        proof {
            lemma_accel_scale_round_trip(*self, scale);
        }
        let writes = vec![RegisterWrite::CtrlReg4A(self.ctrl_reg4_a.with_scale(scale))];
        assert(writes@ =~= seq![RegisterWrite::CtrlReg4A(self.ctrl_reg4_a.with_scale(scale))]);
        Plan { writes, settle_us: None }
    }

    /// Plan that sets the FIFO mode and its full threshold (clamped to 31): the FIFO is
    /// enabled in every mode but bypass.
    pub fn acc_set_fifo_mode_plan(&self, mode: FifoMode, fth: u8) -> (r: Plan)
        ensures
            r.writes@ == seq![
                RegisterWrite::CtrlReg5A(self.ctrl_reg5_a.with_fifo_enabled(mode != FifoMode::Bypass)),
                RegisterWrite::FifoCtrlRegA(self.fifo_ctrl_reg_a.with_mode(mode).with_full_threshold(fth)),
            ],
            r.settle_us is None,
    {
        let reg5 = self.ctrl_reg5_a.with_fifo_enabled(mode != FifoMode::Bypass);
        let fifo_ctrl = self.fifo_ctrl_reg_a.with_mode(mode).with_full_threshold(fth);
        let writes = vec![RegisterWrite::CtrlReg5A(reg5), RegisterWrite::FifoCtrlRegA(fifo_ctrl)];
        Plan { writes, settle_us: None }
    }

    /// Plan that routes an interrupt to the INT1 pin.
    pub fn acc_enable_interrupt_plan(&self, interrupt: Interrupt) -> (r: Plan)
        ensures
            r.writes@ == seq![RegisterWrite::CtrlReg3A(self.ctrl_reg3_a.with_interrupt(interrupt))],
            r.settle_us is None,
    {
        let writes = vec![RegisterWrite::CtrlReg3A(self.ctrl_reg3_a.with_interrupt(interrupt))];
        Plan { writes, settle_us: None }
    }

    /// Plan that stops routing an interrupt to the INT1 pin.
    pub fn acc_disable_interrupt_plan(&self, interrupt: Interrupt) -> (r: Plan)
        ensures
            r.writes@ == seq![RegisterWrite::CtrlReg3A(self.ctrl_reg3_a.without_interrupt(interrupt))],
            r.settle_us is None,
    {
        let writes = vec![RegisterWrite::CtrlReg3A(self.ctrl_reg3_a.without_interrupt(interrupt))];
        Plan { writes, settle_us: None }
    }
}

proof fn lemma_scale_field(b: u8)
    ensures
        (b & 0xCF) & 0x30 == 0x00,
        ((b & 0xCF) | 0x10) & 0x30 == 0x10,
        ((b & 0xCF) | 0x20) & 0x30 == 0x20,
        (b | 0x30) & 0x30 == 0x30,
{
    assert((b & 0xCF) & 0x30 == 0x00 && ((b & 0xCF) | 0x10) & 0x30 == 0x10
        && ((b & 0xCF) | 0x20) & 0x30 == 0x20 && (b | 0x30) & 0x30 == 0x30) by (bit_vector);
}

/// Writing a scale and reading it back from the mirror gives the same scale, whatever the
/// registers held before.
pub proof fn lemma_accel_scale_round_trip(regs: Registers, scale: AccelScale)
    ensures
        regs.after(seq![RegisterWrite::CtrlReg4A(regs.ctrl_reg4_a.with_scale(scale))]).ctrl_reg4_a.scale() == scale,
{
    let writes = seq![RegisterWrite::CtrlReg4A(regs.ctrl_reg4_a.with_scale(scale))];
    reveal_with_fuel(Registers::after, 2);
    assert(writes.drop_first() =~= Seq::<RegisterWrite>::empty());
    lemma_scale_field(regs.ctrl_reg4_a.bits);
}

/// Whether a rate is available in low-power mode only.
pub open spec fn is_low_power_only(odr: AccelOutputDataRate) -> bool {
    odr == AccelOutputDataRate::Khz1_620LowPower || odr == AccelOutputDataRate::Khz5_376LowPower
}

impl Registers {
    /// Writes that change the accelerometer output data rate: the rate register, with the
    /// low-power bit cleared for 1.344 kHz and set for the low-power-only rates; before it,
    /// the high-resolution bit cleared when a low-power-only rate is chosen while it is set.
    pub open spec fn accel_odr_writes(self, odr: AccelOutputDataRate) -> Seq<RegisterWrite> {
        let reg1 = RegisterWrite::CtrlReg1A(self.ctrl_reg1_a.with_odr(odr));
        if is_low_power_only(odr) && self.ctrl_reg4_a.is_high_resolution() {
            seq![RegisterWrite::CtrlReg4A(self.ctrl_reg4_a.with_high_resolution(false)), reg1]
        } else {
            seq![reg1]
        }
    }

    /// Plan that sets the accelerometer output data rate, changing the mode only where the
    /// rate demands it; the settling time goes by the mode before and after, at the new rate.
    pub fn set_accel_odr_plan(&self, odr: AccelOutputDataRate) -> (r: Plan)
        ensures
            r.writes@ == self.accel_odr_writes(odr),
            r.settle_us == Some(self.accel_mode().spec_change_time_us(self.after(self.accel_odr_writes(odr)).accel_mode(), odr)),
            self.after(r.writes@).ctrl_reg1_a.odr() == Some(odr),
            accel_compatible(Some(odr), self.after(r.writes@).accel_mode()),
    {
        proof {
            lemma_accel_odr_sets_rate(*self, odr);
        }
        let old_mode = self.accel_mode();
        let reg1 = self.ctrl_reg1_a.with_odr(odr);
        let low_power_only = match odr {
            AccelOutputDataRate::Khz1_620LowPower => true,
            AccelOutputDataRate::Khz5_376LowPower => true,
            _ => false,
        };
        let writes = if low_power_only && self.ctrl_reg4_a.is_high_resolution() {
            vec![RegisterWrite::CtrlReg4A(self.ctrl_reg4_a.with_high_resolution(false)), RegisterWrite::CtrlReg1A(reg1)]
        } else {
            vec![RegisterWrite::CtrlReg1A(reg1)]
        };
        let after = if low_power_only && self.ctrl_reg4_a.is_high_resolution() {
            self.committed(RegisterWrite::CtrlReg4A(self.ctrl_reg4_a.with_high_resolution(false))).committed(RegisterWrite::CtrlReg1A(reg1))
        } else {
            self.committed(RegisterWrite::CtrlReg1A(reg1))
        };
        proof {
            reveal_with_fuel(Registers::after, 3);
            assert(writes@ =~= self.accel_odr_writes(odr));
            if writes@.len() == 2 {
                assert(writes@.drop_first() =~= seq![RegisterWrite::CtrlReg1A(reg1)]);
            }
            assert(seq![RegisterWrite::CtrlReg1A(reg1)].drop_first() =~= Seq::<RegisterWrite>::empty());
        }
        let settle = old_mode.change_time_us(after.accel_mode(), odr);
        Plan { writes, settle_us: Some(settle) }
    }

    /// Writes that change the accelerometer mode at the current rate. High resolution:
    /// clear low-power, then set high-resolution. Normal: clear low-power, then clear
    /// high-resolution if it is set. Low power: clear high-resolution, then set low-power.
    /// Power-down: clear the rate field.
    pub open spec fn accel_mode_writes(self, mode: AccelMode) -> Seq<RegisterWrite> {
        let reg1 = self.ctrl_reg1_a;
        let reg4 = self.ctrl_reg4_a;
        match mode {
            AccelMode::HighResolution => seq![
                RegisterWrite::CtrlReg1A(reg1.with_low_power(false)),
                RegisterWrite::CtrlReg4A(reg4.with_high_resolution(true)),
            ],
            AccelMode::Normal => if reg4.is_high_resolution() {
                seq![
                    RegisterWrite::CtrlReg1A(reg1.with_low_power(false)),
                    RegisterWrite::CtrlReg4A(reg4.with_high_resolution(false)),
                ]
            } else {
                seq![RegisterWrite::CtrlReg1A(reg1.with_low_power(false))]
            },
            AccelMode::LowPower => seq![
                RegisterWrite::CtrlReg4A(reg4.with_high_resolution(false)),
                RegisterWrite::CtrlReg1A(reg1.with_low_power(true)),
            ],
            AccelMode::PowerDown => seq![RegisterWrite::CtrlReg1A(reg1.without_odr())],
        }
    }

    /// Plan that sets the accelerometer mode at the current rate, or `InvalidInputData`,
    /// before any write, when the current rate is not available in that mode.
    pub fn set_accel_mode_plan<CommE>(&self, mode: AccelMode) -> (r: Result<Plan, Error<CommE>>)
        ensures
            r is Ok <==> accel_compatible(self.ctrl_reg1_a.odr(), mode),
            r is Ok ==> r->Ok_0.writes@ == self.accel_mode_writes(mode),
            r is Ok ==> r->Ok_0.settle_us == (match self.ctrl_reg1_a.odr() {
                Some(odr) => if mode == AccelMode::PowerDown {
                    None
                } else {
                    Some(self.accel_mode().spec_change_time_us(mode, odr))
                },
                None => None,
            }),
            r is Ok ==> self.after(r->Ok_0.writes@).accel_mode() == mode,
            r is Ok && mode != AccelMode::PowerDown ==> self.after(r->Ok_0.writes@).ctrl_reg1_a.odr() == self.ctrl_reg1_a.odr(),
            r is Err ==> r->Err_0 is InvalidInputData,
    {
        let odr = self.ctrl_reg1_a.odr();
        match check_accel_odr_is_compatible_with_mode::<CommE>(odr, mode) {
            Err(e) => {
                return Err(e);
            },
            Ok(()) => {},
        }
        let old_mode = self.accel_mode();
        let reg1 = self.ctrl_reg1_a;
        let reg4 = self.ctrl_reg4_a;
        let writes = match mode {
            AccelMode::HighResolution => vec![
                RegisterWrite::CtrlReg1A(reg1.with_low_power(false)),
                RegisterWrite::CtrlReg4A(reg4.with_high_resolution(true)),
            ],
            AccelMode::Normal => if reg4.is_high_resolution() {
                vec![
                    RegisterWrite::CtrlReg1A(reg1.with_low_power(false)),
                    RegisterWrite::CtrlReg4A(reg4.with_high_resolution(false)),
                ]
            } else {
                vec![RegisterWrite::CtrlReg1A(reg1.with_low_power(false))]
            },
            AccelMode::LowPower => vec![
                RegisterWrite::CtrlReg4A(reg4.with_high_resolution(false)),
                RegisterWrite::CtrlReg1A(reg1.with_low_power(true)),
            ],
            AccelMode::PowerDown => vec![RegisterWrite::CtrlReg1A(reg1.without_odr())],
        };
        assert(writes@ =~= self.accel_mode_writes(mode));
        proof {
            lemma_accel_mode_sets_mode(*self, mode);
        }
        let settle_us = match odr {
            Some(rate) => if mode == AccelMode::PowerDown {
                None
            } else {
                Some(old_mode.change_time_us(mode, rate))
            },
            None => None,
        };
        Ok(Plan { writes, settle_us })
    }
}

proof fn lemma_rate_low_power_bit(b: u8)
    ensures
        ((b & 0x07) | 0x90) & 0x08 == 0,
        ((b & 0x0F) | 0x88) & 0x08 != 0,
        ((b & 0x0F) | 0x98) & 0x08 != 0,
{
    assert(((b & 0x07) | 0x90) & 0x08 == 0 && ((b & 0x0F) | 0x88) & 0x08 != 0
        && ((b & 0x0F) | 0x98) & 0x08 != 0) by (bit_vector);
}

/// Setting the accelerometer output data rate and committing the plan's writes leaves
/// the accelerometer at that rate, in a mode where the rate is available.
pub proof fn lemma_accel_odr_sets_rate(regs: Registers, odr: AccelOutputDataRate)
    ensures
        regs.after(regs.accel_odr_writes(odr)).ctrl_reg1_a.odr() == Some(odr),
        accel_compatible(Some(odr), regs.after(regs.accel_odr_writes(odr)).accel_mode()),
{
    let writes = regs.accel_odr_writes(odr);
    reveal_with_fuel(Registers::after, 3);
    if writes.len() == 2 {
        assert(writes.drop_first().drop_first() =~= Seq::<RegisterWrite>::empty());
    } else {
        assert(writes.drop_first() =~= Seq::<RegisterWrite>::empty());
    }
    let after = regs.after(writes);
    assert(after.ctrl_reg1_a == regs.ctrl_reg1_a.with_odr(odr));
    let b = regs.ctrl_reg1_a.bits;
    lemma_rate_field(b);
    lemma_rate_low_power_bit(b);
    lemma_high_resolution_bit(regs.ctrl_reg4_a.bits);
}

/// Setting the accelerometer mode while the current rate is available in it, and
/// committing the plan's writes, leaves the accelerometer in that mode; out of power-down
/// the rate stays as it was.
pub proof fn lemma_accel_mode_sets_mode(regs: Registers, mode: AccelMode)
    requires
        accel_compatible(regs.ctrl_reg1_a.odr(), mode),
    ensures
        regs.after(regs.accel_mode_writes(mode)).accel_mode() == mode,
        mode != AccelMode::PowerDown ==> regs.after(regs.accel_mode_writes(mode)).ctrl_reg1_a.odr() == regs.ctrl_reg1_a.odr(),
{
    let writes = regs.accel_mode_writes(mode);
    reveal_with_fuel(Registers::after, 3);
    if writes.len() == 2 {
        assert(writes.drop_first().drop_first() =~= Seq::<RegisterWrite>::empty());
    } else {
        assert(writes.drop_first() =~= Seq::<RegisterWrite>::empty());
    }
    let b = regs.ctrl_reg1_a.bits;
    let after = regs.after(writes);
    lemma_low_power_bit(b, true);
    lemma_low_power_bit(b, false);
    lemma_rate_field(b);
    lemma_high_resolution_bit(regs.ctrl_reg4_a.bits);
    assert(regs.ctrl_reg1_a.odr() is Some ==> b & 0xF0 != 0);
    match mode {
        AccelMode::HighResolution => {
            assert(after.ctrl_reg1_a == regs.ctrl_reg1_a.with_low_power(false));
            let h = regs.ctrl_reg4_a.bits;
            assert((h | 0x08) & 0x08 != 0) by (bit_vector);
            assert(after.ctrl_reg4_a == regs.ctrl_reg4_a.with_high_resolution(true));
        },
        AccelMode::Normal => {
            assert(after.ctrl_reg1_a == regs.ctrl_reg1_a.with_low_power(false));
            assert(!after.ctrl_reg4_a.is_high_resolution());
        },
        AccelMode::LowPower => {
            assert(after.ctrl_reg1_a == regs.ctrl_reg1_a.with_low_power(true));
            assert(after.ctrl_reg4_a == regs.ctrl_reg4_a.with_high_resolution(false));
        },
        AccelMode::PowerDown => {
            assert(after.ctrl_reg1_a == regs.ctrl_reg1_a.without_odr());
        },
    }
}

impl<DI, MODE> Lsm303agr<DI, MODE> {
    /// The acceleration held in the six bytes read from OUT_X_L_A on, as measured in the
    /// mode and at the scale currently configured.
    pub fn acceleration_from_data(&self, data: &[u8]) -> (r: Acceleration)
        requires
            data@.len() == 6,
        ensures
            r.xyz_raw() == (le_word(data@[0], data@[1]), le_word(data@[2], data@[3]), le_word(data@[4], data@[5])),
            r.mode() == self@.accel_mode(),
            r.scale() == self@.ctrl_reg4_a.scale(),
    {
        let regs = self.registers();
        Acceleration::from_data(xyz_words(data), regs.accel_mode(), regs.ctrl_reg4_a.scale())
    }
}

} // verus!
