//! Decoding of a combined data frame: a magnetometer block with its hall resistance, a
//! gyroscope block, an accelerometer block and a 24-bit sensor time, laid out one after
//! the other and read in one burst from the first selected block to the last.

use vstd::prelude::*;

use crate::device::Lsm303agr;
use crate::interface::le_word;

verus! {

/// Start addresses of the blocks of a combined data frame.
pub struct DataRegister;

impl DataRegister {
    /// Magnetometer axes (6 bytes) and hall resistance (2 bytes).
    pub const MAG: u8 = 0x04;
    /// Gyroscope axes (6 bytes).
    pub const GYR: u8 = 0x0C;
    /// Accelerometer axes (6 bytes).
    pub const ACC: u8 = 0x12;
    /// Sensor time (3 bytes).
    pub const SENSORTIME: u8 = 0x18;
}

/// Length of a whole frame, from the magnetometer block to the end of the sensor time.
pub const FRAME_LEN: usize = 23;

/// Which blocks of the frame to read.
#[derive(Debug, Clone, Copy, PartialEq, Eq, Structural)]
pub struct SensorSelector {
    pub accel: bool,
    pub gyro: bool,
    pub magnet: bool,
    pub time: bool,
}

impl SensorSelector {
    /// No block selected.
    pub fn new() -> (r: Self)
        ensures
            r == (SensorSelector { accel: false, gyro: false, magnet: false, time: false }),
    {
        SensorSelector { accel: false, gyro: false, magnet: false, time: false }
    }

    /// All blocks selected.
    pub fn all() -> (r: Self)
        ensures
            r == (SensorSelector { accel: true, gyro: true, magnet: true, time: true }),
    {
        SensorSelector { accel: true, gyro: true, magnet: true, time: true }
    }

    /// The selection with the accelerometer block added.
    pub fn accel(self) -> (r: Self)
        ensures
            r == (SensorSelector { accel: true, ..self }),
    {
        SensorSelector { accel: true, ..self }
    }

    /// The selection with the gyroscope block added.
    pub fn gyro(self) -> (r: Self)
        ensures
            r == (SensorSelector { gyro: true, ..self }),
    {
        SensorSelector { gyro: true, ..self }
    }

    /// The selection with the magnetometer block added.
    pub fn magnet(self) -> (r: Self)
        ensures
            r == (SensorSelector { magnet: true, ..self }),
    {
        SensorSelector { magnet: true, ..self }
    }

    /// The selection with the sensor time added.
    pub fn time(self) -> (r: Self)
        ensures
            r == (SensorSelector { time: true, ..self }),
    {
        SensorSelector { time: true, ..self }
    }

    /// Whether no block is selected.
    pub open spec fn is_empty(self) -> bool {
        !self.accel && !self.gyro && !self.magnet && !self.time
    }
}

/// Three signed axes.
#[derive(Debug, Clone, Copy, PartialEq, Eq, Structural)]
pub struct Sensor3DData {
    pub x: i16,
    pub y: i16,
    pub z: i16,
}

/// Magnetometer axes and hall resistance.
#[derive(Debug, Clone, Copy, PartialEq, Eq, Structural)]
pub struct MagnetometerData {
    pub axes: Sensor3DData,
    pub hall_resistence: u16,
}

/// The blocks of a frame that were selected.
#[derive(Debug, Clone, Copy, PartialEq, Eq, Structural)]
pub struct Data {
    pub accel: Option<Sensor3DData>,
    pub gyro: Option<Sensor3DData>,
    pub magnet: Option<MagnetometerData>,
    pub time: Option<u32>,
}

/// Addresses of the first and last-plus-one byte of the burst read for a selection: from
/// the first selected block to the end of the last one; `(0, 0)` when nothing is selected.
pub open spec fn data_addresses(selector: SensorSelector) -> (u8, u8) {
    let begin: u8 = if selector.magnet {
        DataRegister::MAG
    } else if selector.gyro {
        DataRegister::GYR
    } else if selector.accel {
        DataRegister::ACC
    } else if selector.time {
        DataRegister::SENSORTIME
    } else {
        0
    };
    let end: u8 = if selector.time {
        (DataRegister::SENSORTIME + 3) as u8
    } else if selector.accel {
        (DataRegister::ACC + 6) as u8
    } else if selector.gyro {
        (DataRegister::GYR + 6) as u8
    } else if selector.magnet {
        (DataRegister::MAG + 8) as u8
    } else {
        0
    };
    (begin, end)
}

/// Addresses of the first and last-plus-one byte of the burst read for a selection.
pub fn get_data_addresses(selector: SensorSelector) -> (r: (u8, u8))
    ensures
        r == data_addresses(selector),
{
    let begin = if selector.magnet {
        DataRegister::MAG
    } else if selector.gyro {
        DataRegister::GYR
    } else if selector.accel {
        DataRegister::ACC
    } else if selector.time {
        DataRegister::SENSORTIME
    } else {
        0
    };

    let end = if selector.time {
        DataRegister::SENSORTIME + 3
    } else if selector.accel {
        DataRegister::ACC + 6
    } else if selector.gyro {
        DataRegister::GYR + 6
    } else if selector.magnet {
        DataRegister::MAG + 8
    } else {
        0
    };

    (begin, end)
}

/// The three signed little-endian words of six bytes.
pub open spec fn sensor3d(d: Seq<u8>) -> Sensor3DData {
    Sensor3DData {
        x: le_word(d[0], d[1]) as i16,
        y: le_word(d[2], d[3]) as i16,
        z: le_word(d[4], d[5]) as i16,
    }
}

/// Decode three signed little-endian words.
pub fn get_sensor3d_data(data: &[u8]) -> (r: Sensor3DData)
    requires
        data@.len() >= 6,
    ensures
        r == sensor3d(data@),
{
    Sensor3DData {
        x: le_word(data[0], data[1]) as i16,
        y: le_word(data[2], data[3]) as i16,
        z: le_word(data[4], data[5]) as i16,
    }
}

/// The 24-bit little-endian value of three bytes.
pub open spec fn le_u24(a: u8, b: u8, c: u8) -> u32 {
    (a + 256 * b + 65536 * c) as u32
}

/// Offset in the frame of the first selected block.
pub open spec fn first_offset(selector: SensorSelector) -> int {
    data_addresses(selector).0 - DataRegister::MAG
}

/// The selected blocks of frame bytes `data`, which start `data_offset` bytes into the
/// frame.
pub open spec fn frame_data(selector: SensorSelector, data: Seq<u8>, data_offset: int) -> Data {
    Data {
        magnet: if selector.magnet {
            Some(MagnetometerData { axes: sensor3d(data), hall_resistence: le_word(data[6], data[7]) })
        } else {
            None
        },
        gyro: if selector.gyro {
            Some(sensor3d(data.subrange(8 - data_offset, 14 - data_offset)))
        } else {
            None
        },
        accel: if selector.accel {
            Some(sensor3d(data.subrange(14 - data_offset, 20 - data_offset)))
        } else {
            None
        },
        time: if selector.time {
            Some(le_u24(data[20 - data_offset], data[21 - data_offset], data[22 - data_offset]))
        } else {
            None
        },
    }
}

/// Decode the selected blocks of frame bytes `data`, which start `data_offset` bytes into
/// the frame, at the first selected block.
pub fn get_data(selector: SensorSelector, data: &[u8], data_offset: usize) -> (r: Data)
    requires
        selector.magnet ==> data_offset == 0,
        selector.gyro ==> data_offset <= 8,
        selector.accel ==> data_offset <= 14,
        selector.time ==> data_offset <= 20,
        data@.len() + data_offset >= FRAME_LEN,
    ensures
        r == frame_data(selector, data@, data_offset as int),
{
    let mut result = Data { accel: None, gyro: None, magnet: None, time: None };
    if selector.magnet {
        result.magnet = Some(
            MagnetometerData { axes: get_sensor3d_data(data), hall_resistence: le_word(data[6], data[7]) },
        );
    }
    if selector.gyro {
        let block = slice_from(data, 8 - data_offset, 6);
        result.gyro = Some(get_sensor3d_data(block.as_slice()));
    }
    if selector.accel {
        let block = slice_from(data, 14 - data_offset, 6);
        result.accel = Some(get_sensor3d_data(block.as_slice()));
    }
    if selector.time {
        let k = 20 - data_offset;
        result.time = Some(data[k] as u32 + (data[k + 1] as u32) * 256 + (data[k + 2] as u32) * 65536);
    }
    result
}

/// Copy of `len` bytes of `data` from `start` on.
fn slice_from(data: &[u8], start: usize, len: usize) -> (r: Vec<u8>)
    requires
        start + len <= data@.len(),
    ensures
        r@ == data@.subrange(start as int, start + len),
{
    let mut out: Vec<u8> = Vec::new();
    let n = data.len();
    let mut i: usize = 0;
    while i < len
        invariant
            n == data@.len(),
            start + len <= data@.len(),
            i <= len,
            out@ == data@.subrange(start as int, start + i),
        decreases len - i,
    {
        out.push(data[start + i]);
        i += 1;
        assert(out@ =~= data@.subrange(start as int, start + i));
    }
    out
}

impl<DI, MODE> Lsm303agr<DI, MODE> {
    /// Decode the selected blocks from the bytes of the burst read that
    /// [`get_data_addresses`] gives; every block is `None` when nothing is selected.
    pub fn data(&self, selector: SensorSelector, block: &[u8]) -> (r: Data)
        requires
            !selector.is_empty() ==> block@.len() == data_addresses(selector).1 - data_addresses(selector).0,
        ensures
            selector.is_empty() ==> r == (Data { accel: None, gyro: None, magnet: None, time: None }),
            !selector.is_empty() ==> r == frame_data(
                selector,
                block@ + Seq::new((FRAME_LEN - block@.len()) as nat, |i: int| 0u8),
                first_offset(selector),
            ),
    {
        if selector.accel || selector.gyro || selector.magnet || selector.time {
            let (begin, end) = get_data_addresses(selector);
            let mut frame: Vec<u8> = Vec::new();
            let mut i: usize = 0;
            while i < block.len()
                invariant
                    i <= block@.len(),
                    block@.len() <= FRAME_LEN,
                    frame@ == block@.subrange(0, i as int),
                decreases block@.len() - i,
            {
                frame.push(block[i]);
                i += 1;
                assert(frame@ =~= block@.subrange(0, i as int));
            }
            while frame.len() < FRAME_LEN
                invariant
                    block@.len() <= frame@.len() <= FRAME_LEN,
                    frame@.subrange(0, block@.len() as int) == block@,
                    forall|j: int| block@.len() <= j < frame@.len() ==> frame@[j] == 0u8,
                decreases FRAME_LEN - frame@.len(),
            {
                frame.push(0);
            }
            assert(frame@ =~= block@ + Seq::new((FRAME_LEN - block@.len()) as nat, |i: int| 0u8));
            get_data(selector, frame.as_slice(), (begin - DataRegister::MAG) as usize)
        } else {
            Data { accel: None, gyro: None, magnet: None, time: None }
        }
    }
}

} // verus!
