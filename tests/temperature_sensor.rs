use lsm303agr::interface::{
    i2c_address, i2c_read_command, le_word, spi_read_buffer, spi_read_data, write_payload,
    RegisterRead, ACCEL_ADDR,
};
use lsm303agr::register::{BitFlags as BF, Register};
use lsm303agr::{AccelMode, AccelOutputDataRate, Lsm303agr, Plan, Temperature, TemperatureStatus};

const DEFAULT_CTRL_REG1_A: u8 = 0x7;
const HZ50: u8 = 4 << 4;
const TDA: u8 = 0b00000100;
const TOR: u8 = 0b01000000;

fn i2c_writes<DI, MODE>(sensor: &mut Lsm303agr<DI, MODE>, plan: Plan) -> Vec<(u8, Vec<u8>)> {
    let mut sent = Vec::new();
    for w in plan.writes {
        sent.push((i2c_address(w.block()), write_payload(w).to_vec()));
        sensor.commit(w);
    }
    sent
}

fn status_read() -> (u8, u8) {
    let read = RegisterRead::TemperatureStatus;
    (i2c_address(read.block()), i2c_read_command(read))
}

#[test]
fn can_read_temperature_has_new_data() {
    assert_eq!(status_read(), (ACCEL_ADDR, Register::STATUS_REG_AUX_A));
    assert!(TemperatureStatus::new(TDA).new_data());
}

#[test]
fn can_read_temperature_has_data_overrun() {
    assert_eq!(status_read(), (ACCEL_ADDR, Register::STATUS_REG_AUX_A));
    assert!(TemperatureStatus::new(TOR).overrun());
}

#[test]
fn can_read_temperature_has_no_new_data() {
    assert_eq!(status_read(), (ACCEL_ADDR, Register::STATUS_REG_AUX_A));
    assert!(!TemperatureStatus::new(0x00).new_data());
}

#[test]
fn can_read_temperature_i2c() {
    let mut sensor = Lsm303agr::new_with_i2c(());
    let plan = sensor
        .registers()
        .set_accel_mode_and_odr_plan::<()>(AccelMode::Normal, Some(AccelOutputDataRate::Hz50))
        .unwrap();
    assert_eq!(
        i2c_writes(&mut sensor, plan),
        vec![
            (ACCEL_ADDR, vec![Register::CTRL_REG4_A, 0]),
            (ACCEL_ADDR, vec![Register::CTRL_REG1_A, DEFAULT_CTRL_REG1_A | HZ50]),
        ]
    );
    let read = RegisterRead::Temperature;
    assert_eq!((i2c_address(read.block()), i2c_read_command(read)), (ACCEL_ADDR, Register::OUT_TEMP_L_A | 0x80));
    let data = Temperature::from_data(le_word(0xb3, 0xe2));

    assert_eq!(data.raw(), 0xe2b3);
    assert_eq!(data.unscaled(), -7501);
}

#[test]
fn can_read_temperature_spi() {
    let mut sensor = Lsm303agr::new_with_spi((), ());
    let plan = sensor
        .registers()
        .set_accel_mode_and_odr_plan::<()>(AccelMode::Normal, Some(AccelOutputDataRate::Hz50))
        .unwrap();
    let payloads: Vec<[u8; 2]> = plan.writes.iter().map(|w| write_payload(*w)).collect();
    assert_eq!(payloads, vec![[Register::CTRL_REG4_A, 0], [Register::CTRL_REG1_A, DEFAULT_CTRL_REG1_A | HZ50]]);
    for w in plan.writes {
        sensor.commit(w);
    }
    assert_eq!(
        spi_read_buffer(RegisterRead::Temperature),
        vec![Register::OUT_TEMP_L_A | BF::SPI_RW | BF::SPI_MS, 0, 0]
    );
    let bytes = spi_read_data(&[0, 0x10, 0x20]);
    let data = Temperature::from_data(le_word(bytes[0], bytes[1]));

    assert_eq!(data.raw(), 0x2010);
    assert_eq!(data.unscaled(), 8208);
}

#[test]
fn can_read_temp_has_new_data() {
    assert_eq!(status_read(), (ACCEL_ADDR, Register::STATUS_REG_AUX_A));
    assert!(TemperatureStatus::new(TDA).new_data());
}

#[test]
fn can_read_temp_has_no_new_data() {
    assert_eq!(status_read(), (ACCEL_ADDR, Register::STATUS_REG_AUX_A));
    assert!(!TemperatureStatus::new(0x00).new_data());
}

#[test]
fn can_read_raw_temp_data() {
    let mut sensor = Lsm303agr::new_with_i2c(());
    let plan = sensor.registers().set_accel_odr_plan(AccelOutputDataRate::Hz50);
    assert_eq!(
        i2c_writes(&mut sensor, plan),
        vec![(ACCEL_ADDR, vec![Register::CTRL_REG1_A, DEFAULT_CTRL_REG1_A | HZ50])]
    );
    let read = RegisterRead::Temperature;
    assert_eq!((i2c_address(read.block()), i2c_read_command(read)), (ACCEL_ADDR, Register::OUT_TEMP_L_A | 0x80));
    let data = Temperature::from_data(le_word(0x10, 0x20));
    assert_eq!(data.raw(), 0x2010);
}

#[test]
fn can_read_raw_temp_data_spi() {
    let mut sensor = Lsm303agr::new_with_spi((), ());
    let plan = sensor.registers().set_accel_odr_plan(AccelOutputDataRate::Hz50);
    assert_eq!(write_payload(plan.writes[0]), [Register::CTRL_REG1_A, DEFAULT_CTRL_REG1_A | HZ50]);
    for w in plan.writes {
        sensor.commit(w);
    }
    assert_eq!(
        spi_read_buffer(RegisterRead::Temperature),
        vec![Register::OUT_TEMP_L_A | BF::SPI_RW | BF::SPI_MS, 0, 0]
    );
    let bytes = spi_read_data(&[0, 0x10, 0x20]);
    let data = Temperature::from_data(le_word(bytes[0], bytes[1]));
    assert_eq!(data.raw(), 0x2010);
}
