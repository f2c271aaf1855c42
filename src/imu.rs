//! The MPU6886 inertial unit: the driver's state and the decoding of its
//! big-endian measurement registers.

use vstd::prelude::*;

verus! {

/// Power management register; writing zero wakes the unit.
pub const MPU6886_PWR_MGMT_1: u8 = 0x6B;

/// Accelerometer range register.
pub const MPU6886_ACCEL_CONFIG: u8 = 0x1C;

/// Gyroscope range register.
pub const MPU6886_GYRO_CONFIG: u8 = 0x1B;

/// First of the six accelerometer output registers.
pub const MPU6886_ACCEL_OUT: u8 = 0x3B;

/// First of the two temperature output registers.
pub const MPU6886_TEMP_OUT: u8 = 0x41;

/// First of the six gyroscope output registers.
pub const MPU6886_GYRO_OUT: u8 = 0x43;

/// The inertial unit on the shared I2C bus.
#[derive(Clone, Copy, Debug, PartialEq, Eq, Structural)]
pub struct Imu {
    pub initialized: bool,
}

impl Imu {
    /// The unit after its configuration writes were issued.
    pub fn new() -> (r: Imu)
        ensures
            r.initialized,
    {
        Imu { initialized: true }
    }
}

/// The signed value of the big-endian pair `hi`, `lo` in two's complement.
pub open spec fn be_value(hi: u8, lo: u8) -> int {
    if hi < 128 {
        hi * 256 + lo
    } else {
        hi * 256 + lo - 65536
    }
}

/// Reads a big-endian two's-complement 16-bit value.
pub fn be_i16(hi: u8, lo: u8) -> (r: i16)
    ensures
        r == be_value(hi, lo),
{
    if hi < 128 {
        (hi as i16) * 256 + (lo as i16)
    } else {
        ((hi as i16) - 256) * 256 + (lo as i16)
    }
}

/// The three axes of a measurement from the six bytes of an output block.
pub fn decode_axes(data: [u8; 6]) -> (r: (i16, i16, i16))
    ensures
        r.0 == be_value(data[0], data[1]),
        r.1 == be_value(data[2], data[3]),
        r.2 == be_value(data[4], data[5]),
{
    (be_i16(data[0], data[1]), be_i16(data[2], data[3]), be_i16(data[4], data[5]))
}

} // verus!
