//! Register-level driver for the LSM303AGR ultra-compact eCompass module: a 3D
//! accelerometer (with temperature sensor) and a 3D magnetometer, on I²C or SPI.
//!
//! The driver keeps a mirror of every writable control register. Each configuration
//! change is computed as a [`Plan`]: the register writes to issue in order and the settling
//! time to wait once they all succeeded. The bus user performs the writes (the bytes for
//! each bus come from [`interface`]) and hands the outcome of each to
//! [`Lsm303agr::record_write`]: a successful write is recorded, a failed one leaves the
//! mirror as it was, so the mirror always equals what the chip was last told.
//! Reads go the other way: [`interface::RegisterRead`] names the registers to read, and
//! the measurement types decode the bytes into milli-g, nanotesla and temperature.

pub mod accel;
pub mod device;
pub mod interface;
pub mod magnetometer;
pub mod measurement;
pub mod mode;
pub mod register;
pub mod sensor_data;
pub mod types;

pub use crate::device::{check_accel_odr_is_compatible_with_mode, Lsm303agr, Plan, Registers};
pub use crate::measurement::{
    Acceleration, AccelerometerId, MagneticField, MagnetometerId, Status, Temperature,
    TemperatureStatus,
};
pub use crate::types::{
    AccelMode, AccelOutputDataRate, AccelScale, Error, FifoMode, Interrupt, MagMode,
    MagOutputDataRate, ModeChangeError,
};
