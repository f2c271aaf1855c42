use m5core2::audio::{pcm_bytes, push_stereo_frame, sample_count, wave_sample};
use m5core2::clock::{frame_delay, init_start_time, time_ms};
use m5core2::config::FRAME_TIME_MS;
use m5core2::display::{address_window, chunk_ranges, encode_pixels, init_display, DisplayOp};
use m5core2::imu::{be_i16, decode_axes, Imu};
use m5core2::power::{battery_raw, init_led, init_power, set_led, speaker_enable, RegisterWrite};

#[test]
fn led_bit_low_means_on() {
    assert_eq!(set_led(0xFF, true), 0xFD);
    assert_eq!(set_led(0x00, false), 0x02);
    assert_eq!(set_led(0x02, false), 0x02);
    assert_eq!(set_led(0x41, true), 0x41);
}

#[test]
fn battery_reading_is_twelve_bits() {
    assert_eq!(battery_raw(0xC8, 0x30), 0xC83);
    assert_eq!(battery_raw(0xFF, 0xFF), 0xFFF);
    assert_eq!(battery_raw(0, 0x0F), 0);
}

#[test]
fn power_writes() {
    let w = init_power();
    assert_eq!(w.len(), 5);
    assert_eq!(w[0], RegisterWrite { reg: 0x28, value: 0xCC });
    assert_eq!(w[4], RegisterWrite { reg: 0x96, value: 0x02 });
    assert_eq!(init_led(), RegisterWrite { reg: 0x92, value: 0x00 });
    assert_eq!(speaker_enable(), RegisterWrite { reg: 0x93, value: 0x06 });
}

#[test]
fn full_screen_window() {
    let ops = address_window(320, 240);
    assert_eq!(
        ops,
        vec![
            DisplayOp::Command(0x2A),
            DisplayOp::Data(vec![0, 0, 0x01, 0x3F]),
            DisplayOp::Command(0x2B),
            DisplayOp::Data(vec![0, 0, 0x00, 0xEF]),
            DisplayOp::Command(0x2C),
        ]
    );
}

#[test]
fn display_init_order() {
    let ops = init_display();
    assert_eq!(ops.len(), 11);
    assert_eq!(ops[0], DisplayOp::Command(0x01));
    assert_eq!(ops[5], DisplayOp::Data(vec![0x08]));
    assert_eq!(ops[7], DisplayOp::Data(vec![0x55]));
    assert_eq!(ops[9], DisplayOp::Command(0x29));
}

#[test]
fn chunks_cover_buffer() {
    assert_eq!(chunk_ranges(10, 4), vec![(0, 4), (4, 8), (8, 10)]);
    assert_eq!(chunk_ranges(8, 4), vec![(0, 4), (4, 8)]);
    assert_eq!(chunk_ranges(0, 4), vec![]);
    let full = chunk_ranges(320 * 240, 4096);
    assert_eq!(full.len(), 19);
    assert_eq!(full[18], (73728, 76800));
}

#[test]
fn pixels_are_big_endian() {
    let buf = vec![0x1234u16, 0xABCD, 0x00FF];
    assert_eq!(encode_pixels(&buf, 0, 3), vec![0x12, 0x34, 0xAB, 0xCD, 0x00, 0xFF]);
    assert_eq!(encode_pixels(&buf, 1, 2), vec![0xAB, 0xCD]);
    assert_eq!(encode_pixels(&buf, 2, 2), vec![]);
}

#[test]
fn pcm_is_little_endian() {
    assert_eq!(pcm_bytes(&[0x1234, -1, -32768]), vec![0x34, 0x12, 0xFF, 0xFF, 0x00, 0x80]);
    let mut buf = vec![9u8];
    push_stereo_frame(&mut buf, -25600);
    assert_eq!(buf, vec![9, 0x00, 0x9C, 0x00, 0x9C]);
}

#[test]
fn tone_samples() {
    assert_eq!(sample_count(100), 4410);
    assert_eq!(sample_count(150), 6615);
    assert_eq!(sample_count(1), 44);
    assert_eq!(sample_count(u32::MAX), 189_408_057_709);
    assert_eq!(wave_sample(0), (177 - 128) * 200);
    assert_eq!(wave_sample(3), 25400);
    assert_eq!(wave_sample(11), -25400);
    assert_eq!(wave_sample(16 + 7), 0);
}

#[test]
fn imu_values_are_big_endian_signed() {
    assert_eq!(be_i16(0x10, 0x00), 4096);
    assert_eq!(be_i16(0xFF, 0xFF), -1);
    assert_eq!(be_i16(0x80, 0x00), i16::MIN);
    assert_eq!(decode_axes([0x00, 0x01, 0xF0, 0x00, 0x7F, 0xFF]), (1, -4096, i16::MAX));
    assert!(Imu::new().initialized);
}

#[test]
fn clock_and_frame_timing() {
    assert_eq!(time_ms(1_234_567), 1234);
    assert_eq!(time_ms(5_000_000_000_000), 705_032_704);
    let start = init_start_time(1000);
    assert_eq!(start.duration_since_start(1500), 500);
    assert_eq!(start.duration_since_start(500), u32::MAX - 499);
    assert_eq!(FRAME_TIME_MS, 33);
    assert_eq!(frame_delay(FRAME_TIME_MS, 10), 23);
    assert_eq!(frame_delay(FRAME_TIME_MS, 40), 0);
}
