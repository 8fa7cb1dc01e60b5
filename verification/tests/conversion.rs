use adxl343::conversion::{raw_axes, raw_axis};
use adxl343::registers::accel_configs::{AccelRange, Alignment, FullRes};
use adxl343::utils::settings::ADXL343Settings;

const RANGES: [AccelRange; 4] =
    [AccelRange::_2g, AccelRange::_4g, AccelRange::_8g, AccelRange::_16g];

/// The bytes in which the device reports `reading` at `bits` bits when
/// left-justified.
fn left_justified(reading: i16, bits: u8) -> [u8; 2] {
    ((reading as u16) << (16 - bits)).to_le_bytes()
}

/// The bytes in which the device reports `reading` when right-justified.
fn right_justified(reading: i16) -> [u8; 2] {
    (reading as u16).to_le_bytes()
}

#[test]
fn to_chunks_test() {
    let arr: [i16; 6] = [1, 2, 3, 4, 5, 6];
    let (binding, _) = arr.as_chunks::<2>();
    assert_eq!(binding, [[1, 2], [3, 4], [5, 6]]);
}

#[test]
fn nine_g_left_justified_full_resolution() {
    let settings = ADXL343Settings::default()
        .range(AccelRange::_16g)
        .justification(Alignment::left)
        .resolution(FullRes::full_res);
    let plus = raw_axis(&settings, ((9 * 256 as u16) << 3).to_le_bytes());
    let minus = raw_axis(&settings, ((0b1011100000000 as u16) << 3).to_le_bytes());
    assert_eq!(plus, 9 * 256);
    assert_eq!(minus, -9 * 256);
    assert_eq!((plus as f32) * (1.0 / settings.lsb_per_g() as f32), 9.0);
    assert_eq!((minus as f32) * (1.0 / settings.lsb_per_g() as f32), -9.0);
}

#[test]
fn raw_axis_follows_the_four_steps() {
    let right = ADXL343Settings::default();
    assert_eq!(raw_axis(&right, [0x01, 0x00]), 1);
    assert_eq!(raw_axis(&right, [0xFF, 0x01]), 511);
    assert_eq!(raw_axis(&right, [0x00, 0x02]), -512);
    assert_eq!(raw_axis(&right, [0xFF, 0x03]), -1);
    assert_eq!(raw_axis(&right, [0xFF, 0xFF]), -1);
    assert_eq!(raw_axis(&right, [0x00, 0xFC]), 0);
    let left = right.justification(Alignment::left);
    assert_eq!(raw_axis(&left, [0x40, 0x00]), 1);
    assert_eq!(raw_axis(&left, [0x3F, 0x00]), 0);
    assert_eq!(raw_axis(&left, [0xC0, 0x7F]), 511);
    assert_eq!(raw_axis(&left, [0x00, 0x80]), -512);
    assert_eq!(raw_axis(&left, [0xFF, 0xFF]), -1);
}

#[test]
fn raw_axis_is_a_function_of_settings_and_bytes() {
    let settings = ADXL343Settings::default().justification(Alignment::left);
    for high in [0x00u8, 0x12, 0x7F, 0x80, 0xFF] {
        for low in [0x00u8, 0x40, 0xC0, 0xFF] {
            let first = raw_axis(&settings, [low, high]);
            let second = raw_axis(&settings, [low, high]);
            assert_eq!(first, second);
            assert_eq!(first, i16::from_le_bytes([low, high]) >> 6);
        }
    }
}

#[test]
fn left_justified_words_decode_to_their_reading_at_every_resolution() {
    for resolution in [FullRes::_10bit_res, FullRes::full_res] {
        for range in RANGES {
            let settings = ADXL343Settings::default()
                .justification(Alignment::left)
                .resolution(resolution)
                .range(range);
            let bits = settings.resolution_to_bits();
            let half: i16 = 1 << (bits - 1);
            for reading in -half..half {
                assert_eq!(raw_axis(&settings, left_justified(reading, bits)), reading);
            }
        }
    }
}

#[test]
fn justification_does_not_change_a_ten_bit_reading() {
    for resolution in [FullRes::_10bit_res, FullRes::full_res] {
        for range in RANGES {
            let right = ADXL343Settings::default().resolution(resolution).range(range);
            if right.resolution_to_bits() != 10 {
                continue;
            }
            let left = right.justification(Alignment::left);
            for reading in -512i16..512 {
                let from_right = raw_axis(&right, right_justified(reading));
                let from_left = raw_axis(&left, left_justified(reading, 10));
                assert_eq!(from_right, reading);
                assert_eq!(from_left, reading);
            }
        }
    }
}

#[test]
fn zero_reads_the_same_under_either_justification() {
    for resolution in [FullRes::_10bit_res, FullRes::full_res] {
        for range in RANGES {
            let right = ADXL343Settings::default().resolution(resolution).range(range);
            let left = right.justification(Alignment::left);
            let bits = right.resolution_to_bits();
            assert_eq!(raw_axis(&right, right_justified(0)), 0);
            assert_eq!(raw_axis(&left, left_justified(0, bits)), 0);
        }
    }
}

#[test]
fn right_justified_readings_above_ten_bits_decode_to_another_count() {
    for range in [AccelRange::_4g, AccelRange::_8g, AccelRange::_16g] {
        let right = ADXL343Settings::default().resolution(FullRes::full_res).range(range);
        let bits = right.resolution_to_bits();
        let half: i16 = 1 << (bits - 1);
        for reading in -half..half {
            if reading != 0 {
                assert_ne!(raw_axis(&right, right_justified(reading)), reading);
            }
        }
    }
}

#[test]
fn right_justified_readings_above_ten_bits_are_shifted_six_places() {
    let right = ADXL343Settings::default().resolution(FullRes::full_res).range(AccelRange::_4g);
    assert_eq!(right.resolution_to_bits(), 11);
    assert_eq!(raw_axis(&right, right_justified(1)), 2);
    let left = right.justification(Alignment::left);
    assert_eq!(raw_axis(&left, left_justified(1, 11)), 1);
}

#[test]
fn raw_axes_decodes_x_y_z_in_order() {
    let settings = ADXL343Settings::default();
    assert_eq!(raw_axes(&settings, [0x01, 0x00, 0xFF, 0x03, 0x00, 0x02]), [1, -1, -512]);
    let left = ADXL343Settings::default()
        .justification(Alignment::left)
        .resolution(FullRes::full_res)
        .range(AccelRange::_16g);
    assert_eq!(raw_axes(&left, [0x00, 0x48, 0x00, 0xB8, 0x08, 0x00]), [2304, -2304, 1]);
}
