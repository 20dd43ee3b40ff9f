use lsm303agr::interface::{
    i2c_address, i2c_read_command, spi_read_buffer, spi_read_data, write_payload, xyz_words,
    Block, RegisterRead, MAG_ADDR,
};
use lsm303agr::register::{BitFlags as BF, CfgRegAM, Register};
use lsm303agr::{Lsm303agr, MagMode, MagOutputDataRate as ODR, MagneticField, Plan, Status};

const DEFAULT_CFG_REG_A_M: u8 = 0x3;

fn i2c_writes<DI, MODE>(sensor: &mut Lsm303agr<DI, MODE>, plan: Plan) -> Vec<(u8, Vec<u8>)> {
    let mut sent = Vec::new();
    for w in plan.writes {
        sent.push((i2c_address(w.block()), write_payload(w).to_vec()));
        sensor.commit(w);
    }
    sent
}

fn assert_field(data: MagneticField) {
    assert_eq!(data.xyz_nt(), (data.x_nt(), data.y_nt(), data.z_nt()));
    assert_eq!(data.xyz_unscaled(), (data.x_unscaled(), data.y_unscaled(), data.z_unscaled()));
    assert_eq!(data.xyz_raw(), (data.x_raw(), data.y_raw(), data.z_raw()));

    assert_eq!(data.x_raw(), 0x2010);
    assert_eq!(data.y_raw(), 0x4030);
    assert_eq!(data.z_raw(), 0x6050);

    assert_eq!(data.x_unscaled(), 0x2010);
    assert_eq!(data.y_unscaled(), 0x4030);
    assert_eq!(data.z_unscaled(), 0x6050);

    assert_eq!(data.x_nt(), 0x2010 * 150);
    assert_eq!(data.y_nt(), 0x4030 * 150);
    assert_eq!(data.z_nt(), 0x6050 * 150);
}

#[test]
fn set_mag_odr_hz10() {
    let mut sensor = Lsm303agr::new_with_i2c(());
    let plan = sensor.registers().set_mag_mode_and_odr_plan(MagMode::HighResolution, ODR::Hz10);
    assert_eq!(i2c_writes(&mut sensor, plan), vec![(MAG_ADDR, vec![Register::CFG_REG_A_M, DEFAULT_CFG_REG_A_M])]);
}

#[test]
fn set_mag_odr_hz100() {
    let mut sensor = Lsm303agr::new_with_i2c(());
    let plan = sensor.registers().set_mag_mode_and_odr_plan(MagMode::HighResolution, ODR::Hz100);
    assert_eq!(i2c_writes(&mut sensor, plan), vec![(MAG_ADDR, vec![Register::CFG_REG_A_M, 3 << 2 | DEFAULT_CFG_REG_A_M])]);
}

#[test]
fn can_change_mode() {
    let mut sensor = Lsm303agr::new_with_i2c(());
    assert_eq!(sensor.get_mag_mode(), MagMode::HighResolution);

    let plan = sensor.registers().set_mag_mode_and_odr_plan(MagMode::LowPower, ODR::Hz100);
    assert_eq!(plan.settle_us, Some(9400));
    assert_eq!(
        i2c_writes(&mut sensor, plan),
        vec![(MAG_ADDR, vec![Register::CFG_REG_A_M, DEFAULT_CFG_REG_A_M | 0b00011100])]
    );
    assert_eq!(sensor.get_mag_mode(), MagMode::LowPower);

    let plan = sensor.registers().set_mag_mode_and_odr_plan(MagMode::HighResolution, ODR::Hz10);
    assert_eq!(plan.settle_us, Some(6400));
    assert_eq!(
        i2c_writes(&mut sensor, plan),
        vec![(MAG_ADDR, vec![Register::CFG_REG_A_M, DEFAULT_CFG_REG_A_M])]
    );
    assert_eq!(sensor.get_mag_mode(), MagMode::HighResolution);
}

#[test]
fn rate_change_waits_one_period() {
    let mut sensor = Lsm303agr::new_with_i2c(());
    let plan = sensor.registers().set_mag_mode_and_odr_plan(MagMode::HighResolution, ODR::Hz20);
    assert_eq!(plan.settle_us, Some(50));
    let plan = sensor.enable_mag_offset_cancellation_plan();
    i2c_writes(&mut sensor, plan);
    let plan = sensor.registers().set_mag_mode_and_odr_plan(MagMode::HighResolution, ODR::Hz20);
    assert_eq!(plan.settle_us, Some(50));
    let plan = sensor.registers().set_mag_mode_and_odr_plan(MagMode::HighResolution, ODR::Hz10);
    assert_eq!(plan.settle_us, None);
}

#[test]
fn can_take_one_shot_measurement_i2c() {
    let mut sensor = Lsm303agr::new_with_i2c(());
    let mut sent = Vec::new();

    // First poll: no new data, magnetometer idle: start a measurement.
    assert_eq!(i2c_read_command(RegisterRead::MagStatus), Register::STATUS_REG_M);
    let next = sensor.one_shot_next_read(Status::new(0));
    assert_eq!(next, RegisterRead::MagConfig);
    assert_eq!((i2c_address(next.block()), i2c_read_command(next)), (MAG_ADDR, Register::CFG_REG_A_M));
    let trigger = sensor.one_shot_trigger(CfgRegAM { bits: 0 }).unwrap();
    sent.push((i2c_address(trigger.block()), write_payload(trigger).to_vec()));
    sensor.commit(trigger);

    // Second poll: no new data, measurement in progress: no write.
    assert_eq!(sensor.one_shot_next_read(Status::new(0)), RegisterRead::MagConfig);
    assert_eq!(sensor.one_shot_trigger(CfgRegAM { bits: 1 }), None);

    // Third poll: new data.
    let next = sensor.one_shot_next_read(Status::new(0xFF));
    assert_eq!(next, RegisterRead::MagneticField);
    assert_eq!((i2c_address(next.block()), i2c_read_command(next)), (MAG_ADDR, Register::OUTX_L_REG_M | 0x80));
    let data = MagneticField::from_data(xyz_words(&[0x10, 0x20, 0x30, 0x40, 0x50, 0x60]));

    assert_eq!(sent, vec![(MAG_ADDR, vec![Register::CFG_REG_A_M, 1])]);
    assert_field(data);
}

#[test]
fn can_take_continuous_measurement_i2c() {
    let sensor = Lsm303agr::new_with_i2c(());
    let w = sensor.mag_continuous_write();
    assert_eq!((i2c_address(w.block()), write_payload(w)), (MAG_ADDR, [Register::CFG_REG_A_M, 0]));
    let _sensor = sensor.into_mag_continuous::<()>(Ok(())).ok().unwrap();
    let read = RegisterRead::MagneticField;
    assert_eq!((i2c_address(read.block()), i2c_read_command(read)), (MAG_ADDR, Register::OUTX_L_REG_M | 0x80));
    assert_eq!(read.len(), 6);
    let data = MagneticField::from_data(xyz_words(&[0x10, 0x20, 0x30, 0x40, 0x50, 0x60]));
    assert_field(data);
}

#[test]
fn can_take_continuous_measurement_spi() {
    let sensor = Lsm303agr::new_with_spi((), ());
    let w = sensor.mag_continuous_write();
    assert_eq!((w.block(), write_payload(w)), (Block::Mag, [Register::CFG_REG_A_M, 0]));
    let _sensor = sensor.into_mag_continuous::<()>(Ok(())).ok().unwrap();
    let read = RegisterRead::MagneticField;
    assert_eq!(read.block(), Block::Mag);
    assert_eq!(
        spi_read_buffer(read),
        vec![Register::OUTX_L_REG_M | BF::SPI_MS | BF::SPI_RW, 0, 0, 0, 0, 0, 0]
    );
    let data = spi_read_data(&[0, 0x10, 0x20, 0x30, 0x40, 0x50, 0x60]);
    let data = MagneticField::from_data(xyz_words(&data));
    assert_field(data);
}

#[test]
fn can_enable_mag_offset_cancellation_continuous() {
    let sensor = Lsm303agr::new_with_i2c(());
    let mut sensor = sensor
        .into_mag_continuous::<()>(Ok(()))
        .expect("failed to set magnetometer into continuous mode");
    let plan = sensor.enable_mag_offset_cancellation_plan();
    assert_eq!(i2c_writes(&mut sensor, plan), vec![(MAG_ADDR, vec![Register::CFG_REG_B_M, BF::MAG_OFF_CANC])]);
}

#[test]
fn can_disable_mag_offset_cancellation_continuous() {
    let sensor = Lsm303agr::new_with_i2c(());
    let mut sensor = sensor
        .into_mag_continuous::<()>(Ok(()))
        .expect("failed to set magnetometer into continuous mode");
    let plan = sensor.disable_mag_offset_cancellation_plan();
    assert_eq!(i2c_writes(&mut sensor, plan), vec![(MAG_ADDR, vec![Register::CFG_REG_B_M, 0])]);
}

#[test]
fn can_enable_mag_offset_cancellation_one_shot() {
    let mut sensor = Lsm303agr::new_with_i2c(());
    let plan = sensor.enable_mag_offset_cancellation_plan();
    assert_eq!(
        i2c_writes(&mut sensor, plan),
        vec![(MAG_ADDR, vec![Register::CFG_REG_B_M, BF::MAG_OFF_CANC | BF::MAG_OFF_CANC_ONE_SHOT])]
    );
}

#[test]
fn can_disable_mag_offset_cancellation_one_shot() {
    let mut sensor = Lsm303agr::new_with_i2c(());
    let plan = sensor.enable_mag_offset_cancellation_plan();
    i2c_writes(&mut sensor, plan);
    let plan = sensor.disable_mag_offset_cancellation_plan();
    assert_eq!(i2c_writes(&mut sensor, plan), vec![(MAG_ADDR, vec![Register::CFG_REG_B_M, 0])]);
}

#[test]
fn can_enable_mag_low_pass_filter() {
    let mut sensor = Lsm303agr::new_with_i2c(());
    let plan = sensor.registers().mag_enable_low_pass_filter_plan();
    assert_eq!(i2c_writes(&mut sensor, plan), vec![(MAG_ADDR, vec![Register::CFG_REG_B_M, 0b1])]);
}

#[test]
fn can_disable_mag_low_pass_filter() {
    let mut sensor = Lsm303agr::new_with_i2c(());
    let plan = sensor.registers().mag_disable_low_pass_filter_plan();
    assert_eq!(i2c_writes(&mut sensor, plan), vec![(MAG_ADDR, vec![Register::CFG_REG_B_M, 0b0])]);
}

#[test]
fn can_enable_mag_int() {
    let mut sensor = Lsm303agr::new_with_i2c(());
    let plan = sensor.registers().mag_enable_int_plan();
    assert_eq!(i2c_writes(&mut sensor, plan), vec![(MAG_ADDR, vec![Register::CFG_REG_C_M, 0b1])]);
}
