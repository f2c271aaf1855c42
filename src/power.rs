//! The AXP192 power-management chip: its start-up writes, the LED on its
//! GPIO1 pin, the speaker enable on GPIO2 and the battery voltage gauge.

use vstd::prelude::*;

verus! {

/// AXP192 register that holds the GPIO1/GPIO2 output levels.
pub const AXP192_GPIO12_SIGNAL: u8 = 0x94;

/// AXP192 register that selects the function of GPIO1.
pub const AXP192_GPIO1_CONTROL: u8 = 0x92;

/// AXP192 register that holds the high byte of the battery voltage.
pub const AXP192_BATTERY_VOLTAGE: u8 = 0x78;

/// Bit of `AXP192_GPIO12_SIGNAL` that drives the LED: low lights it.
pub const LED_BIT: u8 = 0x02;

/// AXP192 register that selects the function of GPIO2.
pub const AXP192_GPIO2_CONTROL: u8 = 0x93;

/// A write of `value` to register `reg` of a device on the I2C bus.
#[derive(Clone, Copy, Debug, PartialEq, Eq, Structural)]
pub struct RegisterWrite {
    pub reg: u8,
    pub value: u8,
}

/// The start-up writes that power the display and its backlight: DC-DC and
/// LDO voltages, then GPIO0 as the LDO that feeds the backlight.
pub fn init_power() -> (r: Vec<RegisterWrite>)
    ensures
        r@ == seq![
            RegisterWrite { reg: 0x28, value: 0xCC },
            RegisterWrite { reg: 0x27, value: 0xDC },
            RegisterWrite { reg: 0x91, value: 0xF0 },
            RegisterWrite { reg: 0x90, value: 0x02 },
            RegisterWrite { reg: 0x96, value: 0x02 },
        ],
{
    let mut r: Vec<RegisterWrite> = Vec::new();
    r.push(RegisterWrite { reg: 0x28, value: 0xCC });
    r.push(RegisterWrite { reg: 0x27, value: 0xDC });
    r.push(RegisterWrite { reg: 0x91, value: 0xF0 });
    r.push(RegisterWrite { reg: 0x90, value: 0x02 });
    r.push(RegisterWrite { reg: 0x96, value: 0x02 });
    assert(r@ =~= seq![
        RegisterWrite { reg: 0x28, value: 0xCC },
        RegisterWrite { reg: 0x27, value: 0xDC },
        RegisterWrite { reg: 0x91, value: 0xF0 },
        RegisterWrite { reg: 0x90, value: 0x02 },
        RegisterWrite { reg: 0x96, value: 0x02 },
    ]);
    r
}

/// The write that makes GPIO1, which drives the LED, an open-drain output.
pub fn init_led() -> (r: RegisterWrite)
    ensures
        r == (RegisterWrite { reg: AXP192_GPIO1_CONTROL, value: 0x00 }),
{
    RegisterWrite { reg: AXP192_GPIO1_CONTROL, value: 0x00 }
}

/// The write that lets GPIO2 float high, which enables the speaker amplifier.
pub fn speaker_enable() -> (r: RegisterWrite)
    ensures
        r == (RegisterWrite { reg: AXP192_GPIO2_CONTROL, value: 0x06 }),
{
    RegisterWrite { reg: AXP192_GPIO2_CONTROL, value: 0x06 }
}

/// Controls the LED: the value to write back to `AXP192_GPIO12_SIGNAL`,
/// given its `current` value, with the LED bit cleared to light the LED or
/// set to put it out, and every other bit kept.
pub fn set_led(current: u8, on: bool) -> (r: u8)
    ensures
        r & !LED_BIT == current & !LED_BIT,
        (r & LED_BIT == 0) == on,
        on ==> r == current & !LED_BIT,
        !on ==> r == current | LED_BIT,
{
    if on {
        let r = current & !LED_BIT;
        assert(r & !2u8 == current & !2u8 && r & 2u8 == 0) by (bit_vector)
            requires
                r == current & !2u8,
        ;
        r
    } else {
        let r = current | LED_BIT;
        assert(r & !2u8 == current & !2u8 && r & 2u8 != 0) by (bit_vector)
            requires
                r == current | 2u8,
        ;
        r
    }
}

/// The twelve-bit battery voltage reading from the two bytes read at
/// `AXP192_BATTERY_VOLTAGE`: all of `hi` above the upper four bits of `lo`.
pub fn battery_raw(hi: u8, lo: u8) -> (r: u16)
    ensures
        r == hi * 16 + lo / 16,
        r < 4096,
{
    let r = ((hi as u16) << 4) | ((lo as u16) >> 4);
    assert(r == hi * 16 + lo / 16) by (bit_vector)
        requires
            r == ((hi as u16) << 4) | ((lo as u16) >> 4),
    ;
    r
}

} // verus!
