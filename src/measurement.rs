use vstd::prelude::*;

use vstd::arithmetic::div_mod::{lemma_div_denominator, lemma_fundamental_div_mod, lemma_mod_pos_bound};

use crate::types::{div_toward_zero, AccelMode, AccelScale};

verus! {

/// Expected content of the accelerometer WHO_AM_I register.
pub const ACCEL_ID: u8 = 0x33;

/// Expected content of the magnetometer WHO_AM_I register.
pub const MAG_ID: u8 = 0x40;

/// Nanotesla per digit of a magnetometer reading.
pub const MAG_NT_PER_DIGIT: i32 = 150;

/// An Accelerometer ID.
#[derive(Debug, Clone, Copy, PartialEq, Eq, Structural)]
pub struct AccelerometerId {
    pub raw: u8,
}

impl AccelerometerId {
    /// The ID read from the WHO_AM_I register.
    pub fn from_bits_truncate(raw: u8) -> (r: Self)
        ensures
            r.raw() == raw,
    {
        Self { raw }
    }

    /// Raw accelerometer ID.
    #[verifier::allow_in_spec]
    pub fn raw(&self) -> u8
        returns
            self.raw,
    {
        self.raw
    }

    /// Check if the ID corresponds to the expected value.
    pub fn is_correct(&self) -> (r: bool)
        ensures
            r == (self.raw() == ACCEL_ID),
    {
        self.raw == ACCEL_ID
    }
}

/// A Magnetometer ID.
#[derive(Debug, Clone, Copy, PartialEq, Eq, Structural)]
pub struct MagnetometerId {
    pub raw: u8,
}

impl MagnetometerId {
    /// The ID read from the WHO_AM_I register.
    pub fn from_bits_truncate(raw: u8) -> (r: Self)
        ensures
            r.raw() == raw,
    {
        Self { raw }
    }

    /// Raw magnetometer ID.
    #[verifier::allow_in_spec]
    pub fn raw(&self) -> u8
        returns
            self.raw,
    {
        self.raw
    }

    /// Check if the ID corresponds to the expected value.
    pub fn is_correct(&self) -> (r: bool)
        ensures
            r == (self.raw() == MAG_ID),
    {
        self.raw == MAG_ID
    }
}

/// Reading of the mode's bit depth contained in a left-justified 16-bit sample.
pub open spec fn unscaled_accel(raw: u16, mode: AccelMode) -> int {
    div_toward_zero((raw as i16) as int, mode.spec_resolution_factor() as int)
}

/// Acceleration in milli-g of a left-justified 16-bit sample: first reduced to the mode's
/// bit depth (rounding toward zero), then multiplied by the milli-g per digit.
pub open spec fn accel_mg(raw: u16, mode: AccelMode, scale: AccelScale) -> int {
    unscaled_accel(raw, mode) * mode.spec_scaling_factor(scale)
}

proof fn lemma_mg_fits(u: int, f: int)
    requires
        -32768 <= u <= 32767,
        0 <= f <= 128,
    ensures
        -4194304 <= u * f <= 4194176,
{
    assert(-4194304 <= u * f <= 4194176) by (nonlinear_arith)
        requires
            -32768 <= u <= 32767,
            0 <= f <= 128,
    ;
}

proof fn lemma_nested_floor(w: int, c: int)
    requires
        0 <= w,
        0 < c,
    ensures
        0 <= w / 16 - c * (w / (16 * c)) < c,
{
    lemma_div_denominator(w, 16, c);
    lemma_fundamental_div_mod(w / 16, c);
    lemma_mod_pos_bound(w / 16, c);
}

/// Lower bit depths lose at most one of their digits: a sample decoded in low-power mode is
/// within 8 × (full scale in g) milli-g of the same sample decoded in high-resolution mode
/// (16 milli-g at ±2g), and in normal mode within 2 × (full scale in g) milli-g (4 at ±2g).
pub proof fn lemma_coarse_decode_tolerance(raw: u16, scale: AccelScale)
    ensures
        -8 * scale.spec_g() < accel_mg(raw, AccelMode::LowPower, scale) - accel_mg(raw, AccelMode::HighResolution, scale) < 8 * scale.spec_g(),
        -2 * scale.spec_g() < accel_mg(raw, AccelMode::Normal, scale) - accel_mg(raw, AccelMode::HighResolution, scale) < 2 * scale.spec_g(),
{
    let v = raw as i16 as int;
    let t16 = div_toward_zero(v, 16);
    let t64 = div_toward_zero(v, 64);
    let t256 = div_toward_zero(v, 256);
    if v >= 0 {
        lemma_nested_floor(v, 16);
        lemma_nested_floor(v, 4);
    } else {
        lemma_nested_floor(-v, 16);
        lemma_nested_floor(-v, 4);
    }
    assert(-16 < 16 * t256 - t16 < 16);
    assert(-4 < 4 * t64 - t16 < 4);
    assert(unscaled_accel(raw, AccelMode::HighResolution) == t16);
    assert(unscaled_accel(raw, AccelMode::Normal) == t64);
    assert(unscaled_accel(raw, AccelMode::LowPower) == t256);
    let h: int = scale.spec_g() / 2;
    assert(accel_mg(raw, AccelMode::HighResolution, scale) == t16 * h);
    assert(accel_mg(raw, AccelMode::Normal, scale) == t64 * (4 * h));
    assert(accel_mg(raw, AccelMode::LowPower, scale) == t256 * (16 * h));
    assert(1 <= h <= 8 && scale.spec_g() == 2 * h);
    assert(-16 * h < (16 * t256 - t16) * h < 16 * h) by (nonlinear_arith)
        requires
            -16 < 16 * t256 - t16 < 16,
            1 <= h,
    ;
    assert(-4 * h < (4 * t64 - t16) * h < 4 * h) by (nonlinear_arith)
        requires
            -4 < 4 * t64 - t16 < 4,
            1 <= h,
    ;
    assert(t256 * (16 * h) - t16 * h == (16 * t256 - t16) * h) by (nonlinear_arith);
    assert(t64 * (4 * h) - t16 * h == (4 * t64 - t16) * h) by (nonlinear_arith);
}

/// An acceleration measurement.
#[derive(Debug, Clone, Copy, PartialEq, Eq, Structural)]
pub struct Acceleration {
    pub x: u16,
    pub y: u16,
    pub z: u16,
    pub mode: AccelMode,
    pub scale: AccelScale,
}

impl Acceleration {
    /// A measurement of the raw words `data` taken in `mode` at `scale`.
    pub fn from_data(data: (u16, u16, u16), mode: AccelMode, scale: AccelScale) -> (r: Self)
        ensures
            r.xyz_raw() == data,
            r.mode() == mode,
            r.scale() == scale,
    {
        Self { x: data.0, y: data.1, z: data.2, mode, scale }
    }

    /// Mode in effect when the sample was taken.
    #[verifier::allow_in_spec]
    pub fn mode(&self) -> AccelMode
        returns
            self.mode,
    {
        self.mode
    }

    /// Scale in effect when the sample was taken.
    #[verifier::allow_in_spec]
    pub fn scale(&self) -> AccelScale
        returns
            self.scale,
    {
        self.scale
    }

    /// Raw acceleration in X-direction.
    #[verifier::allow_in_spec]
    pub fn x_raw(&self) -> u16
        returns
            self.x,
    {
        self.x
    }

    /// Raw acceleration in Y-direction.
    #[verifier::allow_in_spec]
    pub fn y_raw(&self) -> u16
        returns
            self.y,
    {
        self.y
    }

    /// Raw acceleration in Z-direction.
    #[verifier::allow_in_spec]
    pub fn z_raw(&self) -> u16
        returns
            self.z,
    {
        self.z
    }

    /// Raw acceleration in X-, Y- and Z-directions.
    #[verifier::allow_in_spec]
    pub fn xyz_raw(&self) -> (u16, u16, u16)
        returns
            (self.x, self.y, self.z),
    {
        (self.x, self.y, self.z)
    }

    fn unscaled(raw: u16, mode: AccelMode) -> (r: i16)
        ensures
            r == unscaled_accel(raw, mode),
    {
        let factor = mode.resolution_factor();
        (raw as i16) / factor
    }

    fn mg(raw: u16, mode: AccelMode, scale: AccelScale) -> (r: i32)
        ensures
            r == accel_mg(raw, mode, scale),
    {
        let unscaled = Self::unscaled(raw, mode);
        let factor = mode.scaling_factor(scale);
        proof {
            lemma_mg_fits(unscaled as int, factor as int);
        }
        (unscaled as i32) * factor
    }

    /// Unscaled acceleration in X-direction.
    pub fn x_unscaled(&self) -> (r: i16)
        ensures
            r == unscaled_accel(self.x, self.mode),
    {
        Self::unscaled(self.x, self.mode)
    }

    /// Unscaled acceleration in Y-direction.
    pub fn y_unscaled(&self) -> (r: i16)
        ensures
            r == unscaled_accel(self.y, self.mode),
    {
        Self::unscaled(self.y, self.mode)
    }

    /// Unscaled acceleration in Z-direction.
    pub fn z_unscaled(&self) -> (r: i16)
        ensures
            r == unscaled_accel(self.z, self.mode),
    {
        Self::unscaled(self.z, self.mode)
    }

    /// Unscaled acceleration in X-, Y- and Z-directions.
    pub fn xyz_unscaled(&self) -> (r: (i16, i16, i16))
        ensures
            r.0 == unscaled_accel(self.x, self.mode),
            r.1 == unscaled_accel(self.y, self.mode),
            r.2 == unscaled_accel(self.z, self.mode),
    {
        (
            Self::unscaled(self.x, self.mode),
            Self::unscaled(self.y, self.mode),
            Self::unscaled(self.z, self.mode),
        )
    }

    /// Acceleration in X-direction in m*g* (milli-*g*).
    pub fn x_mg(&self) -> (r: i32)
        ensures
            r == accel_mg(self.x, self.mode, self.scale),
    {
        Self::mg(self.x, self.mode, self.scale)
    }

    /// Acceleration in Y-direction in m*g* (milli-*g*).
    pub fn y_mg(&self) -> (r: i32)
        ensures
            r == accel_mg(self.y, self.mode, self.scale),
    {
        Self::mg(self.y, self.mode, self.scale)
    }

    /// Acceleration in Z-direction in m*g* (milli-*g*).
    pub fn z_mg(&self) -> (r: i32)
        ensures
            r == accel_mg(self.z, self.mode, self.scale),
    {
        Self::mg(self.z, self.mode, self.scale)
    }

    /// Acceleration in X-, Y- and Z-directions in m*g* (milli-*g*).
    pub fn xyz_mg(&self) -> (r: (i32, i32, i32))
        ensures
            r.0 == accel_mg(self.x, self.mode, self.scale),
            r.1 == accel_mg(self.y, self.mode, self.scale),
            r.2 == accel_mg(self.z, self.mode, self.scale),
    {
        (
            Self::mg(self.x, self.mode, self.scale),
            Self::mg(self.y, self.mode, self.scale),
            Self::mg(self.z, self.mode, self.scale),
        )
    }
}

/// Magnetic field in nanotesla of a raw magnetometer word.
pub open spec fn field_nt(raw: u16) -> int {
    (raw as i16) * 150
}

/// A magnetic field measurement.
#[derive(Debug, Clone, Copy, PartialEq, Eq, Structural)]
pub struct MagneticField {
    pub x: u16,
    pub y: u16,
    pub z: u16,
}

impl MagneticField {
    /// A measurement of the raw words `data`.
    pub fn from_data(data: (u16, u16, u16)) -> (r: Self)
        ensures
            r.xyz_raw() == data,
    {
        Self { x: data.0, y: data.1, z: data.2 }
    }

    /// Raw magnetic field in X-direction.
    #[verifier::allow_in_spec]
    pub fn x_raw(&self) -> u16
        returns
            self.x,
    {
        self.x
    }

    /// Raw magnetic field in Y-direction.
    #[verifier::allow_in_spec]
    pub fn y_raw(&self) -> u16
        returns
            self.y,
    {
        self.y
    }

    /// Raw magnetic field in Z-direction.
    #[verifier::allow_in_spec]
    pub fn z_raw(&self) -> u16
        returns
            self.z,
    {
        self.z
    }

    /// Raw magnetic field in X-, Y- and Z-directions.
    #[verifier::allow_in_spec]
    pub fn xyz_raw(&self) -> (u16, u16, u16)
        returns
            (self.x, self.y, self.z),
    {
        (self.x, self.y, self.z)
    }

    /// Unscaled magnetic field in X-direction.
    pub fn x_unscaled(&self) -> (r: i16)
        ensures
            r == self.x as i16,
    {
        self.x as i16
    }

    /// Unscaled magnetic field in Y-direction.
    pub fn y_unscaled(&self) -> (r: i16)
        ensures
            r == self.y as i16,
    {
        self.y as i16
    }

    /// Unscaled magnetic field in Z-direction.
    pub fn z_unscaled(&self) -> (r: i16)
        ensures
            r == self.z as i16,
    {
        self.z as i16
    }

    /// Unscaled magnetic field in X-, Y- and Z-directions.
    pub fn xyz_unscaled(&self) -> (r: (i16, i16, i16))
        ensures
            r == (self.x as i16, self.y as i16, self.z as i16),
    {
        (self.x as i16, self.y as i16, self.z as i16)
    }

    fn nt(raw: u16) -> (r: i32)
        ensures
            r == field_nt(raw),
    {
        (raw as i16 as i32) * MAG_NT_PER_DIGIT
    }

    /// Magnetic field in X-direction in nT (nano-Tesla).
    pub fn x_nt(&self) -> (r: i32)
        ensures
            r == field_nt(self.x),
    {
        Self::nt(self.x)
    }

    /// Magnetic field in Y-direction in nT (nano-Tesla).
    pub fn y_nt(&self) -> (r: i32)
        ensures
            r == field_nt(self.y),
    {
        Self::nt(self.y)
    }

    /// Magnetic field in Z-direction in nT (nano-Tesla).
    pub fn z_nt(&self) -> (r: i32)
        ensures
            r == field_nt(self.z),
    {
        Self::nt(self.z)
    }

    /// Magnetic field in X-, Y- and Z-directions in nT (nano-Tesla).
    pub fn xyz_nt(&self) -> (r: (i32, i32, i32))
        ensures
            r.0 == field_nt(self.x),
            r.1 == field_nt(self.y),
            r.2 == field_nt(self.z),
    {
        (self.x_nt(), self.y_nt(), self.z_nt())
    }
}

/// A temperature measurement.
#[derive(Debug, Clone, Copy, PartialEq, Eq, Structural)]
pub struct Temperature {
    pub raw: u16,
}

impl Temperature {
    /// Offset of the temperature sensor: the reading 0 means 25 °C.
    pub const DEFAULT_CELSIUS: i16 = 25;

    /// A measurement of the raw word `data`.
    pub fn from_data(data: u16) -> (r: Self)
        ensures
            r.raw() == data,
    {
        Temperature { raw: data }
    }

    /// Raw temperature.
    #[verifier::allow_in_spec]
    pub fn raw(&self) -> u16
        returns
            self.raw,
    {
        self.raw
    }

    /// Unscaled temperature: signed, 256 digits per degree Celsius, 0 at 25 °C.
    pub fn unscaled(&self) -> (r: i16)
        ensures
            r == self.raw as i16,
    {
        self.raw as i16
    }
}

/// Data status
#[derive(Debug, Clone, Copy, PartialEq, Eq, Structural)]
pub struct Status {
    pub flags: u8,
}

impl Status {
    /// The status held in a STATUS_REG_A or STATUS_REG_M value.
    pub fn new(flags: u8) -> (r: Self)
        ensures
            r.flags() == flags,
    {
        Self { flags }
    }

    /// Raw register value.
    #[verifier::allow_in_spec]
    pub fn flags(&self) -> u8
        returns
            self.flags,
    {
        self.flags
    }

    /// X-axis new data available.
    pub fn x_new_data(&self) -> (r: bool)
        ensures
            r == (self.flags & 0x01 != 0),
    {
        self.flags & 0x01 != 0
    }

    /// Y-axis new data available.
    pub fn y_new_data(&self) -> (r: bool)
        ensures
            r == (self.flags & 0x02 != 0),
    {
        self.flags & 0x02 != 0
    }

    /// Z-axis new data available.
    pub fn z_new_data(&self) -> (r: bool)
        ensures
            r == (self.flags & 0x04 != 0),
    {
        self.flags & 0x04 != 0
    }

    /// X-, Y- and Z-axis new data available.
    #[verifier::allow_in_spec]
    pub fn xyz_new_data(&self) -> bool
        returns
            self.flags & 0x08 != 0,
    {
        self.flags & 0x08 != 0
    }

    /// X-axis data overrun.
    pub fn x_overrun(&self) -> (r: bool)
        ensures
            r == (self.flags & 0x10 != 0),
    {
        self.flags & 0x10 != 0
    }

    /// Y-axis data overrun.
    pub fn y_overrun(&self) -> (r: bool)
        ensures
            r == (self.flags & 0x20 != 0),
    {
        self.flags & 0x20 != 0
    }

    /// Z-axis data overrun.
    pub fn z_overrun(&self) -> (r: bool)
        ensures
            r == (self.flags & 0x40 != 0),
    {
        self.flags & 0x40 != 0
    }

    /// X-, Y- and Z-axis data overrun.
    pub fn xyz_overrun(&self) -> (r: bool)
        ensures
            r == (self.flags & 0x80 != 0),
    {
        self.flags & 0x80 != 0
    }
}

/// Temperature sensor status
#[derive(Debug, Clone, Copy, PartialEq, Eq, Structural)]
pub struct TemperatureStatus {
    pub flags: u8,
}

impl TemperatureStatus {
    /// The status held in a STATUS_REG_AUX_A value.
    pub fn new(flags: u8) -> (r: Self)
        ensures
            r.flags() == flags,
    {
        Self { flags }
    }

    /// Raw register value.
    #[verifier::allow_in_spec]
    pub fn flags(&self) -> u8
        returns
            self.flags,
    {
        self.flags
    }

    /// Temperature data overrun.
    pub fn overrun(&self) -> (r: bool)
        ensures
            r == (self.flags & 0x40 != 0),
    {
        self.flags & 0x40 != 0
    }

    /// Temperature new data available.
    pub fn new_data(&self) -> (r: bool)
        ensures
            r == (self.flags & 0x04 != 0),
    {
        self.flags & 0x04 != 0
    }
}

} // verus!
