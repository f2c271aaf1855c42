//! Fixed board parameters.

use vstd::prelude::*;

verus! {

/// Width of the display in pixels.
pub const DISPLAY_WIDTH: u32 = 320;

/// Height of the display in pixels.
pub const DISPLAY_HEIGHT: u32 = 240;

/// SPI clock used for the display.
pub const SPI_BAUDRATE_HZ: u32 = 26_000_000;

/// I2C address of the AXP192 power-management chip.
pub const AXP192_ADDR: u8 = 0x34;

/// I2C address of the FT6336 touch controller.
pub const FT6336_ADDR: u8 = 0x38;

/// I2C address of the MPU6886 inertial unit.
pub const MPU6886_ADDR: u8 = 0x68;

/// I2C address of the NS4168 amplifier.
pub const NS4168_ADDR: u8 = 0x4C;

/// I2C clock shared by every device on the bus.
pub const I2C_BAUDRATE_HZ: u32 = 400_000;

/// Frames per second that the frame loop aims for.
pub const TARGET_FPS: u32 = 30;

/// Length of one frame of the frame loop, in milliseconds.
pub const FRAME_TIME_MS: u32 = 1000 / TARGET_FPS;

/// Number of pixels streamed to the display in one SPI data burst.
pub const TRANSFER_CHUNK_SIZE: usize = 4096;

} // verus!
