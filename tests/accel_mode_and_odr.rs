use lsm303agr::interface::{i2c_address, write_payload, ACCEL_ADDR};
use lsm303agr::register::{BitFlags as BF, Register};
use lsm303agr::{AccelMode as Mode, AccelOutputDataRate as ODR, Error, FifoMode, Interrupt, Lsm303agr, Plan};

const DEFAULT_CTRL_REG1_A: u8 = 0x7;

fn i2c_writes<DI, MODE>(sensor: &mut Lsm303agr<DI, MODE>, plan: Plan) -> Vec<(u8, Vec<u8>)> {
    let mut sent = Vec::new();
    for w in plan.writes {
        sent.push((i2c_address(w.block()), write_payload(w).to_vec()));
        sensor.commit(w);
    }
    sent
}

fn set_mode_and_odr<DI, MODE>(sensor: &mut Lsm303agr<DI, MODE>, mode: Mode, odr: Option<ODR>) -> Vec<(u8, Vec<u8>)> {
    let plan = sensor.registers().set_accel_mode_and_odr_plan::<()>(mode, odr).unwrap();
    i2c_writes(sensor, plan)
}

#[test]
fn incompatible_accel_mode() {
    let sensor = Lsm303agr::new_with_i2c(());
    let result = sensor
        .registers()
        .set_accel_mode_and_odr_plan::<()>(Mode::LowPower, Some(ODR::Khz1_344));
    assert!(matches!(result, Err(Error::InvalidInputData)), "should have returned error");
}

#[test]
fn change_mode_and_odr_normal_low_high() {
    let mut sensor = Lsm303agr::new_with_i2c(());
    let mut sent = set_mode_and_odr(&mut sensor, Mode::Normal, Some(ODR::Hz10));
    sent.extend(set_mode_and_odr(&mut sensor, Mode::LowPower, Some(ODR::Hz10)));
    sent.extend(set_mode_and_odr(&mut sensor, Mode::HighResolution, Some(ODR::Hz10)));
    assert_eq!(
        sent,
        vec![
            (ACCEL_ADDR, vec![Register::CTRL_REG4_A, 0]),
            (ACCEL_ADDR, vec![Register::CTRL_REG1_A, 2 << 4 | DEFAULT_CTRL_REG1_A]),
            (ACCEL_ADDR, vec![Register::CTRL_REG4_A, 0]),
            (ACCEL_ADDR, vec![Register::CTRL_REG1_A, BF::LP_EN | 2 << 4 | DEFAULT_CTRL_REG1_A]),
            (ACCEL_ADDR, vec![Register::CTRL_REG1_A, 2 << 4 | DEFAULT_CTRL_REG1_A]),
            (ACCEL_ADDR, vec![Register::CTRL_REG4_A, BF::HR]),
        ]
    );
}

#[test]
fn can_power_down() {
    let mut sensor = Lsm303agr::new_with_i2c(());
    assert_eq!(
        set_mode_and_odr(&mut sensor, Mode::PowerDown, None),
        vec![
            (ACCEL_ADDR, vec![Register::CTRL_REG4_A, 0]),
            (ACCEL_ADDR, vec![Register::CTRL_REG1_A, DEFAULT_CTRL_REG1_A]),
        ]
    );
}

#[test]
fn can_set_mode_normal() {
    let mut sensor = Lsm303agr::new_with_i2c(());
    assert_eq!(
        set_mode_and_odr(&mut sensor, Mode::Normal, Some(ODR::Hz100)),
        vec![
            (ACCEL_ADDR, vec![Register::CTRL_REG4_A, 0]),
            (ACCEL_ADDR, vec![Register::CTRL_REG1_A, 5 << 4 | DEFAULT_CTRL_REG1_A]),
        ]
    );
}

#[test]
fn can_set_mode_high_resolution() {
    let mut sensor = Lsm303agr::new_with_i2c(());
    assert_eq!(
        set_mode_and_odr(&mut sensor, Mode::HighResolution, Some(ODR::Khz1_344)),
        vec![
            (ACCEL_ADDR, vec![Register::CTRL_REG1_A, 9 << 4 | DEFAULT_CTRL_REG1_A]),
            (ACCEL_ADDR, vec![Register::CTRL_REG4_A, BF::HR]),
        ]
    );
}

#[test]
fn can_set_mode_low_power() {
    let mut sensor = Lsm303agr::new_with_i2c(());
    assert_eq!(
        set_mode_and_odr(&mut sensor, Mode::LowPower, Some(ODR::Khz5_376LowPower)),
        vec![
            (ACCEL_ADDR, vec![Register::CTRL_REG4_A, 0]),
            (ACCEL_ADDR, vec![Register::CTRL_REG1_A, BF::LP_EN | 9 << 4 | DEFAULT_CTRL_REG1_A]),
        ]
    );
}

#[test]
fn can_power_down_after_odr3() {
    let mut sensor = Lsm303agr::new_with_i2c(());
    let mut sent = set_mode_and_odr(&mut sensor, Mode::LowPower, Some(ODR::Khz1_620LowPower));
    sent.extend(set_mode_and_odr(&mut sensor, Mode::PowerDown, None));
    assert_eq!(
        sent,
        vec![
            (ACCEL_ADDR, vec![Register::CTRL_REG4_A, 0]),
            (ACCEL_ADDR, vec![Register::CTRL_REG1_A, DEFAULT_CTRL_REG1_A | BF::LP_EN | 8 << 4]),
            (ACCEL_ADDR, vec![Register::CTRL_REG4_A, 0]),
            (ACCEL_ADDR, vec![Register::CTRL_REG1_A, DEFAULT_CTRL_REG1_A]),
        ]
    );
}

#[test]
fn can_enable_disable_interrupts() {
    let mut sensor = Lsm303agr::new_with_i2c(());
    let plan = sensor.registers().acc_enable_interrupt_plan(Interrupt::FifoWatermark);
    let mut sent = i2c_writes(&mut sensor, plan);
    let plan = sensor.registers().acc_disable_interrupt_plan(Interrupt::FifoWatermark);
    sent.extend(i2c_writes(&mut sensor, plan));
    assert_eq!(
        sent,
        vec![
            (ACCEL_ADDR, vec![Register::CTRL_REG3_A, 0b100]),
            (ACCEL_ADDR, vec![Register::CTRL_REG3_A, 0b000]),
        ]
    );
}

#[test]
fn can_set_fifo_mode() {
    let mut sensor = Lsm303agr::new_with_i2c(());
    let mut sent = Vec::new();
    let plan = sensor.registers().acc_set_fifo_mode_plan(FifoMode::Stream, 31);
    sent.extend(i2c_writes(&mut sensor, plan));
    let plan = sensor.registers().acc_set_fifo_mode_plan(FifoMode::Fifo, 4);
    sent.extend(i2c_writes(&mut sensor, plan));
    let plan = sensor.registers().acc_set_fifo_mode_plan(FifoMode::Bypass, 0);
    sent.extend(i2c_writes(&mut sensor, plan));
    assert_eq!(
        sent,
        vec![
            // Enable FIFO
            (ACCEL_ADDR, vec![Register::CTRL_REG5_A, 0b01000000]),
            // Stream mode, 31
            (ACCEL_ADDR, vec![Register::FIFO_CTRL_REG_A, 0b10011111]),
            // Enable FIFO
            (ACCEL_ADDR, vec![Register::CTRL_REG5_A, 0b01000000]),
            // FIFO mode, 4
            (ACCEL_ADDR, vec![Register::FIFO_CTRL_REG_A, 0b01000100]),
            // Disable FIFO
            (ACCEL_ADDR, vec![Register::CTRL_REG5_A, 0b00000000]),
            // Bypass mode, 0
            (ACCEL_ADDR, vec![Register::FIFO_CTRL_REG_A, 0b00000000]),
        ]
    );
}

#[test]
fn fifo_threshold_is_clamped() {
    let sensor = Lsm303agr::new_with_i2c(());
    let plan = sensor.registers().acc_set_fifo_mode_plan(FifoMode::Stream, 200);
    assert_eq!(write_payload(plan.writes[1]), [Register::FIFO_CTRL_REG_A, 0b10011111]);
}

#[test]
fn low_power_rates_in_low_power_mode() {
    let rates = [
        (ODR::Hz1, 1u8),
        (ODR::Hz10, 2),
        (ODR::Hz25, 3),
        (ODR::Hz50, 4),
        (ODR::Hz100, 5),
        (ODR::Hz200, 6),
        (ODR::Hz400, 7),
        (ODR::Khz1_620LowPower, 8),
        (ODR::Khz5_376LowPower, 9),
    ];
    for (odr, code) in rates {
        let mut sensor = Lsm303agr::new_with_i2c(());
        assert_eq!(
            set_mode_and_odr(&mut sensor, Mode::LowPower, Some(odr)),
            vec![
                (ACCEL_ADDR, vec![Register::CTRL_REG4_A, 0]),
                (ACCEL_ADDR, vec![Register::CTRL_REG1_A, BF::LP_EN | code << 4 | DEFAULT_CTRL_REG1_A]),
            ]
        );
        assert_eq!(sensor.get_accel_mode(), Mode::LowPower);
        assert_eq!(sensor.get_accel_odr(), Some(odr));
    }
}

#[test]
fn normal_rates_in_normal_mode() {
    let rates = [
        (ODR::Hz1, 1u8),
        (ODR::Hz10, 2),
        (ODR::Hz25, 3),
        (ODR::Hz50, 4),
        (ODR::Hz100, 5),
        (ODR::Hz200, 6),
        (ODR::Hz400, 7),
        (ODR::Khz1_344, 9),
    ];
    for (odr, code) in rates {
        let mut sensor = Lsm303agr::new_with_i2c(());
        assert_eq!(
            set_mode_and_odr(&mut sensor, Mode::Normal, Some(odr)),
            vec![
                (ACCEL_ADDR, vec![Register::CTRL_REG4_A, 0]),
                (ACCEL_ADDR, vec![Register::CTRL_REG1_A, code << 4 | DEFAULT_CTRL_REG1_A]),
            ]
        );
        assert_eq!(sensor.get_accel_mode(), Mode::Normal);
        assert_eq!(sensor.get_accel_odr(), Some(odr));
    }
}

#[test]
fn every_valid_pair_reaches_its_mode_and_invalid_pairs_write_nothing() {
    let rates = [
        None,
        Some(ODR::Hz1),
        Some(ODR::Hz10),
        Some(ODR::Hz25),
        Some(ODR::Hz50),
        Some(ODR::Hz100),
        Some(ODR::Hz200),
        Some(ODR::Hz400),
        Some(ODR::Khz1_344),
        Some(ODR::Khz1_620LowPower),
        Some(ODR::Khz5_376LowPower),
    ];
    let modes = [Mode::PowerDown, Mode::LowPower, Mode::Normal, Mode::HighResolution];
    for start in modes {
        for mode in modes {
            for odr in rates {
                let mut sensor = Lsm303agr::new_with_i2c(());
                let start_rate = if start == Mode::PowerDown { None } else { Some(ODR::Hz10) };
                set_mode_and_odr(&mut sensor, start, start_rate);
                let valid = check_valid(odr, mode);
                match sensor.registers().set_accel_mode_and_odr_plan::<()>(mode, odr) {
                    Ok(plan) => {
                        assert!(valid);
                        i2c_writes(&mut sensor, plan);
                        assert_eq!(sensor.get_accel_mode(), mode);
                        let expected_rate = if mode == Mode::PowerDown { None } else { odr };
                        assert_eq!(sensor.get_accel_odr(), expected_rate);
                    }
                    Err(e) => {
                        assert!(!valid);
                        assert!(matches!(e, Error::InvalidInputData));
                    }
                }
            }
        }
    }
}

fn check_valid(odr: Option<ODR>, mode: Mode) -> bool {
    lsm303agr::check_accel_odr_is_compatible_with_mode::<()>(odr, mode).is_ok()
}

#[test]
fn settling_time_after_leaving_power_down() {
    let sensor = Lsm303agr::new_with_i2c(());
    let regs = sensor.registers();
    let plan = regs.set_accel_mode_and_odr_plan::<()>(Mode::Normal, Some(ODR::Hz50)).unwrap();
    assert_eq!(plan.settle_us, Some(1600));
    let plan = regs.set_accel_mode_and_odr_plan::<()>(Mode::LowPower, Some(ODR::Hz50)).unwrap();
    assert_eq!(plan.settle_us, Some(1000));
    let plan = regs.set_accel_mode_and_odr_plan::<()>(Mode::HighResolution, Some(ODR::Hz50)).unwrap();
    assert_eq!(plan.settle_us, Some(140));
    let plan = regs.set_accel_mode_and_odr_plan::<()>(Mode::PowerDown, None).unwrap();
    assert_eq!(plan.settle_us, None);
}

#[test]
fn settling_time_between_modes() {
    let mut sensor = Lsm303agr::new_with_i2c(());
    set_mode_and_odr(&mut sensor, Mode::Normal, Some(ODR::Hz10));
    let plan = sensor.registers().set_accel_mode_and_odr_plan::<()>(Mode::HighResolution, Some(ODR::Hz10)).unwrap();
    assert_eq!(plan.settle_us, Some(700));
    let plan = sensor.registers().set_accel_mode_and_odr_plan::<()>(Mode::LowPower, Some(ODR::Hz10)).unwrap();
    assert_eq!(plan.settle_us, Some(100));
    let plan = sensor.registers().set_accel_mode_and_odr_plan::<()>(Mode::Normal, Some(ODR::Hz100)).unwrap();
    assert_eq!(plan.settle_us, Some(0));
}

#[test]
fn failed_write_leaves_registers_unchanged() {
    let mut sensor = Lsm303agr::new_with_i2c(());
    let plan = sensor.registers().set_accel_mode_and_odr_plan::<()>(Mode::HighResolution, Some(ODR::Hz100)).unwrap();
    let before = sensor.registers();
    let first = plan.writes[0];
    assert!(matches!(sensor.record_write(first, Err("nack")), Err(Error::Comm("nack"))));
    assert_eq!(sensor.registers(), before);
    assert_eq!(sensor.get_accel_mode(), Mode::PowerDown);
    // Only the committed write is recorded when the second one fails.
    assert!(sensor.record_write::<&str>(first, Ok(())).is_ok());
    assert!(matches!(sensor.record_write(plan.writes[1], Err("nack")), Err(Error::Comm("nack"))));
    assert_eq!(sensor.get_accel_odr(), Some(ODR::Hz100));
    assert_eq!(sensor.get_accel_mode(), Mode::Normal);
}
