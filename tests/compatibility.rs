use lsm303agr::{check_accel_odr_is_compatible_with_mode, AccelMode, AccelOutputDataRate as ODR};

fn compatible(odr: ODR, mode: AccelMode) {
    check_accel_odr_is_compatible_with_mode::<()>(Some(odr), mode).unwrap();
}

fn not_compatible(odr: ODR, mode: AccelMode) {
    check_accel_odr_is_compatible_with_mode::<()>(Some(odr), mode)
        .expect_err("Should have returned error");
}

#[test]
fn all_modes_are_compatible_with_powerdown() {
    compatible(ODR::Hz1, AccelMode::PowerDown);
    compatible(ODR::Hz10, AccelMode::PowerDown);
    compatible(ODR::Hz25, AccelMode::PowerDown);
    compatible(ODR::Hz50, AccelMode::PowerDown);
    compatible(ODR::Hz100, AccelMode::PowerDown);
    compatible(ODR::Hz200, AccelMode::PowerDown);
    compatible(ODR::Hz400, AccelMode::PowerDown);
    compatible(ODR::Khz1_620LowPower, AccelMode::PowerDown);
    compatible(ODR::Khz5_376LowPower, AccelMode::PowerDown);
    compatible(ODR::Khz1_344, AccelMode::PowerDown);
}

#[test]
fn normal_mode_compatibility() {
    compatible(ODR::Hz1, AccelMode::Normal);
    compatible(ODR::Hz10, AccelMode::Normal);
    compatible(ODR::Hz25, AccelMode::Normal);
    compatible(ODR::Hz50, AccelMode::Normal);
    compatible(ODR::Hz100, AccelMode::Normal);
    compatible(ODR::Hz200, AccelMode::Normal);
    compatible(ODR::Hz400, AccelMode::Normal);
    not_compatible(ODR::Khz1_620LowPower, AccelMode::Normal);
    not_compatible(ODR::Khz5_376LowPower, AccelMode::Normal);
    compatible(ODR::Khz1_344, AccelMode::Normal);
}

#[test]
fn high_resolution_mode_compatibility() {
    compatible(ODR::Hz1, AccelMode::HighResolution);
    compatible(ODR::Hz10, AccelMode::HighResolution);
    compatible(ODR::Hz25, AccelMode::HighResolution);
    compatible(ODR::Hz50, AccelMode::HighResolution);
    compatible(ODR::Hz100, AccelMode::HighResolution);
    compatible(ODR::Hz200, AccelMode::HighResolution);
    compatible(ODR::Hz400, AccelMode::HighResolution);
    not_compatible(ODR::Khz1_620LowPower, AccelMode::HighResolution);
    not_compatible(ODR::Khz5_376LowPower, AccelMode::HighResolution);
    compatible(ODR::Khz1_344, AccelMode::HighResolution);
}

#[test]
fn low_power_mode_compatibility() {
    compatible(ODR::Hz1, AccelMode::LowPower);
    compatible(ODR::Hz10, AccelMode::LowPower);
    compatible(ODR::Hz25, AccelMode::LowPower);
    compatible(ODR::Hz50, AccelMode::LowPower);
    compatible(ODR::Hz100, AccelMode::LowPower);
    compatible(ODR::Hz200, AccelMode::LowPower);
    compatible(ODR::Hz400, AccelMode::LowPower);
    compatible(ODR::Khz1_620LowPower, AccelMode::LowPower);
    compatible(ODR::Khz5_376LowPower, AccelMode::LowPower);
    not_compatible(ODR::Khz1_344, AccelMode::LowPower);
}

#[test]
fn none_odr_compatibility() {
    check_accel_odr_is_compatible_with_mode::<()>(None, AccelMode::LowPower)
        .expect_err("Shout not be compatible");
    check_accel_odr_is_compatible_with_mode::<()>(None, AccelMode::Normal)
        .expect_err("Shout not be compatible");
    check_accel_odr_is_compatible_with_mode::<()>(None, AccelMode::HighResolution)
        .expect_err("Shout not be compatible");
    check_accel_odr_is_compatible_with_mode::<()>(None, AccelMode::PowerDown).unwrap();
}
