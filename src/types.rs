use vstd::prelude::*;

verus! {

/// Accelerometer output data rate
#[derive(Debug, Clone, Copy, PartialEq, Eq, Structural)]
pub enum AccelOutputDataRate {
    /// 1 Hz (all modes)
    Hz1,
    /// 10 Hz (all modes)
    Hz10,
    /// 25 Hz (all modes)
    Hz25,
    /// 50 Hz (all modes)
    Hz50,
    /// 100 Hz (all modes)
    Hz100,
    /// 200 Hz (all modes)
    Hz200,
    /// 400 Hz (all modes)
    Hz400,
    /// 1.344 kHz (only normal and high-resolution modes)
    Khz1_344,
    /// 1.620 kHz (only low-power mode)
    Khz1_620LowPower,
    /// 5.376 kHz (only low-power mode)
    Khz5_376LowPower,
}

impl AccelOutputDataRate {
    /// The rate whose frequency is `hz` Hertz, if there is one.
    pub open spec fn spec_from_hertz(hz: u16) -> Option<AccelOutputDataRate> {
        if hz == 1 {
            Some(AccelOutputDataRate::Hz1)
        } else if hz == 10 {
            Some(AccelOutputDataRate::Hz10)
        } else if hz == 25 {
            Some(AccelOutputDataRate::Hz25)
        } else if hz == 50 {
            Some(AccelOutputDataRate::Hz50)
        } else if hz == 100 {
            Some(AccelOutputDataRate::Hz100)
        } else if hz == 200 {
            Some(AccelOutputDataRate::Hz200)
        } else if hz == 400 {
            Some(AccelOutputDataRate::Hz400)
        } else if hz == 1344 {
            Some(AccelOutputDataRate::Khz1_344)
        } else if hz == 1620 {
            Some(AccelOutputDataRate::Khz1_620LowPower)
        } else if hz == 5376 {
            Some(AccelOutputDataRate::Khz5_376LowPower)
        } else {
            None
        }
    }

    /// Create an `AccelOutputDataRate` with the given frequency in Hertz.
    pub fn from_hertz(hz: u16) -> (r: Option<Self>)
        ensures
            r == Self::spec_from_hertz(hz),
    {
        match hz {
            1 => Some(Self::Hz1),
            10 => Some(Self::Hz10),
            25 => Some(Self::Hz25),
            50 => Some(Self::Hz50),
            100 => Some(Self::Hz100),
            200 => Some(Self::Hz200),
            400 => Some(Self::Hz400),
            1344 => Some(Self::Khz1_344),
            1620 => Some(Self::Khz1_620LowPower),
            5376 => Some(Self::Khz5_376LowPower),
            _ => None,
        }
    }

    /// One output period (1/ODR), in microseconds, rounded up.
    pub open spec fn spec_turn_on_time_us_frac_1(self) -> u32 {
        match self {
            AccelOutputDataRate::Hz1 => 1000,
            AccelOutputDataRate::Hz10 => 100,
            AccelOutputDataRate::Hz25 => 40,
            AccelOutputDataRate::Hz50 => 20,
            AccelOutputDataRate::Hz100 => 10,
            AccelOutputDataRate::Hz200 => 5,
            AccelOutputDataRate::Hz400 => 3,
            AccelOutputDataRate::Khz1_344 => 1,
            AccelOutputDataRate::Khz1_620LowPower => 1,
            AccelOutputDataRate::Khz5_376LowPower => 1,
        }
    }

    /// Seven output periods (7/ODR), in microseconds, rounded up.
    pub open spec fn spec_turn_on_time_us_frac_7(self) -> u32 {
        match self {
            AccelOutputDataRate::Hz1 => 7000,
            AccelOutputDataRate::Hz10 => 700,
            AccelOutputDataRate::Hz25 => 280,
            AccelOutputDataRate::Hz50 => 140,
            AccelOutputDataRate::Hz100 => 70,
            AccelOutputDataRate::Hz200 => 35,
            AccelOutputDataRate::Hz400 => 18,
            AccelOutputDataRate::Khz1_344 => 6,
            AccelOutputDataRate::Khz1_620LowPower => 5,
            AccelOutputDataRate::Khz5_376LowPower => 2,
        }
    }

    /// 1/ODR ms
    pub fn turn_on_time_us_frac_1(&self) -> (r: u32)
        ensures
            r == self.spec_turn_on_time_us_frac_1(),
    {
        match self {
            Self::Hz1 => 1000,
            Self::Hz10 => 100,
            Self::Hz25 => 40,
            Self::Hz50 => 20,
            Self::Hz100 => 10,
            Self::Hz200 => 5,
            Self::Hz400 => 3,
            Self::Khz1_344 => 1,
            Self::Khz1_620LowPower => 1,
            Self::Khz5_376LowPower => 1,
        }
    }

    /// 7/ODR ms
    pub fn turn_on_time_us_frac_7(&self) -> (r: u32)
        ensures
            r == self.spec_turn_on_time_us_frac_7(),
    {
        match self {
            Self::Hz1 => 7000,
            Self::Hz10 => 700,
            Self::Hz25 => 280,
            Self::Hz50 => 140,
            Self::Hz100 => 70,
            Self::Hz200 => 35,
            Self::Hz400 => 18,
            Self::Khz1_344 => 6,
            Self::Khz1_620LowPower => 5,
            Self::Khz5_376LowPower => 2,
        }
    }
}

/// Accelerometer mode
#[derive(Debug, Clone, Copy, PartialEq, Eq, Structural)]
pub enum AccelMode {
    /// Power down
    PowerDown,
    /// Low power (8-bit)
    LowPower,
    /// Normal mode (10-bit)
    Normal,
    /// High resolution (12-bit)
    HighResolution,
}

/// Accelerometer full scale
#[derive(Debug, Clone, Copy, PartialEq, Eq, Structural)]
pub enum AccelScale {
    /// Plus or minus 2g
    G2,
    /// Plus or minus 4g
    G4,
    /// Plus or minus 8g
    G8,
    /// Plus or minus 16g
    G16,
}

impl AccelScale {
    /// The full scale in g.
    pub open spec fn spec_g(self) -> i32 {
        match self {
            AccelScale::G2 => 2,
            AccelScale::G4 => 4,
            AccelScale::G8 => 8,
            AccelScale::G16 => 16,
        }
    }

    /// The full scale in g.
    pub fn g(&self) -> (r: i32)
        ensures
            r == self.spec_g(),
    {
        match self {
            Self::G2 => 2,
            Self::G4 => 4,
            Self::G8 => 8,
            Self::G16 => 16,
        }
    }
}

impl AccelMode {
    /// Time for the accelerometer to produce valid data after leaving power-down.
    pub open spec fn spec_turn_on_time_us(self, odr: AccelOutputDataRate) -> u32 {
        match self {
            AccelMode::PowerDown => 0,
            AccelMode::LowPower => 1000,
            AccelMode::Normal => 1600,
            AccelMode::HighResolution => odr.spec_turn_on_time_us_frac_7(),
        }
    }

    /// Settling time when changing from mode `self` to mode `other` at rate `odr`.
    pub open spec fn spec_change_time_us(self, other: AccelMode, odr: AccelOutputDataRate) -> u32 {
        match (self, other) {
            (AccelMode::HighResolution, AccelMode::LowPower) => odr.spec_turn_on_time_us_frac_1(),
            (AccelMode::HighResolution, AccelMode::Normal) => odr.spec_turn_on_time_us_frac_1(),
            (AccelMode::Normal, AccelMode::LowPower) => odr.spec_turn_on_time_us_frac_1(),
            (AccelMode::Normal, AccelMode::HighResolution) => odr.spec_turn_on_time_us_frac_7(),
            (AccelMode::LowPower, AccelMode::Normal) => odr.spec_turn_on_time_us_frac_1(),
            (AccelMode::LowPower, AccelMode::HighResolution) => odr.spec_turn_on_time_us_frac_7(),
            (AccelMode::PowerDown, new_mode) => new_mode.spec_turn_on_time_us(odr),
            _ => 0,
        }
    }

    /// Divisor that turns a left-justified 16-bit sample into a reading of the mode's bit depth.
    pub open spec fn spec_resolution_factor(self) -> i16 {
        match self {
            AccelMode::PowerDown => 1,
            AccelMode::HighResolution => 16,
            AccelMode::Normal => 64,
            AccelMode::LowPower => 256,
        }
    }

    /// Milli-g per digit of a reading of the mode's bit depth at the given scale.
    pub open spec fn spec_scaling_factor(self, scale: AccelScale) -> int {
        match self {
            AccelMode::PowerDown => 0,
            AccelMode::HighResolution => scale.spec_g() / 2,
            AccelMode::Normal => scale.spec_g() * 2,
            AccelMode::LowPower => scale.spec_g() * 8,
        }
    }

    /// Time for the accelerometer to produce valid data after leaving power-down.
    pub fn turn_on_time_us(&self, odr: AccelOutputDataRate) -> (r: u32)
        ensures
            r == self.spec_turn_on_time_us(odr),
    {
        match self {
            Self::PowerDown => 0,
            Self::LowPower => 1000,
            Self::Normal => 1600,
            Self::HighResolution => odr.turn_on_time_us_frac_7(),
        }
    }

    /// Settling time when changing from mode `self` to mode `other` at rate `odr`.
    pub fn change_time_us(&self, other: AccelMode, odr: AccelOutputDataRate) -> (r: u32)
        ensures
            r == self.spec_change_time_us(other, odr),
    {
        match (self, other) {
            (Self::HighResolution, Self::LowPower) => odr.turn_on_time_us_frac_1(),
            (Self::HighResolution, Self::Normal) => odr.turn_on_time_us_frac_1(),
            (Self::Normal, Self::LowPower) => odr.turn_on_time_us_frac_1(),
            (Self::Normal, Self::HighResolution) => odr.turn_on_time_us_frac_7(),
            (Self::LowPower, Self::Normal) => odr.turn_on_time_us_frac_1(),
            (Self::LowPower, Self::HighResolution) => odr.turn_on_time_us_frac_7(),
            (Self::PowerDown, new_mode) => new_mode.turn_on_time_us(odr),
            _ => 0,
        }
    }

    /// Divisor that turns a left-justified 16-bit sample into a reading of the mode's bit depth.
    pub fn resolution_factor(&self) -> (r: i16)
        ensures
            r == self.spec_resolution_factor(),
    {
        match self {
            Self::PowerDown => 1,
            Self::HighResolution => 16,
            Self::Normal => 64,
            Self::LowPower => 256,
        }
    }

    /// Milli-g per digit of a reading of the mode's bit depth at the given scale.
    pub fn scaling_factor(&self, scale: AccelScale) -> (r: i32)
        ensures
            r == self.spec_scaling_factor(scale),
    {
        match self {
            Self::PowerDown => 0,
            Self::HighResolution => scale.g() / 2,
            Self::Normal => scale.g() * 2,
            Self::LowPower => scale.g() * 8,
        }
    }
}

/// Magnetometer output data rate
#[derive(Debug, Clone, Copy, PartialEq, Eq, Structural)]
pub enum MagOutputDataRate {
    /// 10 Hz
    Hz10,
    /// 20 Hz
    Hz20,
    /// 50 Hz
    Hz50,
    /// 100 Hz
    Hz100,
}

impl MagOutputDataRate {
    /// The rate whose frequency is `hz` Hertz, if there is one.
    pub open spec fn spec_from_hertz(hz: u16) -> Option<MagOutputDataRate> {
        if hz == 10 {
            Some(MagOutputDataRate::Hz10)
        } else if hz == 20 {
            Some(MagOutputDataRate::Hz20)
        } else if hz == 50 {
            Some(MagOutputDataRate::Hz50)
        } else if hz == 100 {
            Some(MagOutputDataRate::Hz100)
        } else {
            None
        }
    }

    /// Create an `MagOutputDataRate` with the given frequency in Hertz.
    pub fn from_hertz(hz: u16) -> (r: Option<Self>)
        ensures
            r == Self::spec_from_hertz(hz),
    {
        match hz {
            10 => Some(Self::Hz10),
            20 => Some(Self::Hz20),
            50 => Some(Self::Hz50),
            100 => Some(Self::Hz100),
            _ => None,
        }
    }

    /// One output period (1/ODR), in microseconds.
    pub open spec fn spec_turn_on_time_us_frac_1(self) -> u32 {
        match self {
            MagOutputDataRate::Hz10 => 100,
            MagOutputDataRate::Hz20 => 50,
            MagOutputDataRate::Hz50 => 20,
            MagOutputDataRate::Hz100 => 10,
        }
    }

    /// 1/ODR ms
    pub fn turn_on_time_us_frac_1(&self) -> (r: u32)
        ensures
            r == self.spec_turn_on_time_us_frac_1(),
    {
        match self {
            Self::Hz10 => 100,
            Self::Hz20 => 50,
            Self::Hz50 => 20,
            Self::Hz100 => 10,
        }
    }
}

/// Magnetometer mode
#[derive(Debug, Clone, Copy, PartialEq, Eq, Structural)]
pub enum MagMode {
    /// Low-power mode
    LowPower,
    /// High resolution mode
    HighResolution,
}

impl MagMode {
    /// Time for the magnetometer to produce valid data after entering the mode.
    pub open spec fn spec_turn_on_time_us(self) -> u32 {
        match self {
            MagMode::LowPower => 9400,
            MagMode::HighResolution => 6400,
        }
    }

    /// Time for the magnetometer to produce valid data after entering the mode.
    pub fn turn_on_time_us(&self) -> (r: u32)
        ensures
            r == self.spec_turn_on_time_us(),
    {
        match self {
            Self::LowPower => 9400,
            Self::HighResolution => 6400,
        }
    }
}

impl Default for MagMode {
    fn default() -> (r: Self)
        ensures
            r == MagMode::HighResolution,
    {
        Self::HighResolution
    }
}

/// All possible errors in this crate
#[derive(Debug)]
pub enum Error<CommE> {
    /// I²C / SPI communication error
    Comm(CommE),
    /// Invalid input data provided
    InvalidInputData,
}

/// Failure of a magnetometer mode change, carrying back the device in its previous mode.
#[derive(Debug)]
pub struct ModeChangeError<CommE, DEV> {
    /// I²C / SPI communication error
    pub error: Error<CommE>,
    /// The device as it was before the attempted change
    pub dev: DEV,
}

/// A FIFO mode.
#[derive(Debug, Clone, Copy, PartialEq, Eq, Structural)]
pub enum FifoMode {
    /// Bypass mode
    Bypass,
    /// FIFO mode
    Fifo,
    /// Stream mode
    Stream,
    /// Stream-to-FIFO mode
    StreamToFifo,
}

/// An interrupt.
#[derive(Debug, Clone, Copy, PartialEq, Eq, Structural)]
pub enum Interrupt {
    /// AOI1 interrupt on INT1 pin.
    Aoi1,
    /// AOI2 interrupt on INT1 pin.
    Aoi2,
    /// CLICK interrupt on INT1 pin.
    Click,
    /// DRDY1 interrupt on INT1 pin.
    DataReady1,
    /// DRDY2 interrupt on INT1 pin.
    DataReady2,
    /// FIFO overrun interrupt on INT1 pin.
    FifoOverrun,
    /// FIFO watermark interrupt on INT1 pin.
    FifoWatermark,
}

/// Division rounding toward zero, as Rust's `/` on signed integers does.
pub open spec fn div_toward_zero(a: int, d: int) -> int {
    if a >= 0 {
        a / d
    } else {
        -((-a) / d)
    }
}

} // verus!
