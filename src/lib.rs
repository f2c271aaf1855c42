//! Board logic for an M5Stack Core2 demo: touch handling, on-screen button
//! zones, LED and sensor register arithmetic, display framing and audio
//! sample generation. The peripheral I/O itself lives with the caller.

pub mod audio;
pub mod clock;
pub mod config;
pub mod controls;
pub mod display;
pub mod imu;
pub mod power;
pub mod touch;
pub mod zone;
