use adxl343::registers::accel_configs::{AccelRange, Alignment, FullRes, OutputDataRate};
use adxl343::utils::settings::ADXL343Settings;

const RANGES: [AccelRange; 4] =
    [AccelRange::_2g, AccelRange::_4g, AccelRange::_8g, AccelRange::_16g];

#[test]
fn default_settings_give_the_default_register_bytes() {
    let settings = ADXL343Settings::default();
    assert_eq!(settings.BW_RATE_reg_value(), 0b00001010);
    assert_eq!(settings.DATA_FORMAT_reg_value(), 0b00000000);
    assert!(!settings.in_measurement_mode());
    assert_eq!(settings.get_justification(), Alignment::right);
    assert_eq!(settings.resolution_to_bits(), 10);
    assert_eq!(settings.lsb_per_g(), 256);
}

#[test]
fn data_format_byte_packs_range_justification_resolution() {
    for range in RANGES {
        for justification in [Alignment::right, Alignment::left] {
            for resolution in [FullRes::_10bit_res, FullRes::full_res] {
                let settings = ADXL343Settings::default()
                    .range(range)
                    .justification(justification)
                    .resolution(resolution);
                let byte = settings.DATA_FORMAT_reg_value();
                assert_eq!(byte & 0x03, range.bits());
                assert_eq!((byte >> 2) & 1, justification.bits());
                assert_eq!((byte >> 3) & 1, resolution.bits());
                assert_eq!(byte & 0xF0, 0);
            }
        }
    }
    let settings = ADXL343Settings::default()
        .range(AccelRange::_16g)
        .justification(Alignment::left)
        .resolution(FullRes::full_res);
    assert_eq!(settings.DATA_FORMAT_reg_value(), 0b0000_1111);
}

#[test]
fn bw_rate_byte_packs_rate_and_low_power() {
    let settings = ADXL343Settings::default().odr(OutputDataRate::Hz3200);
    assert_eq!(settings.BW_RATE_reg_value(), 0b0000_1111);
    let settings = settings.low_power_mode(true);
    assert_eq!(settings.BW_RATE_reg_value(), 0b0001_1111);
    let settings = ADXL343Settings::default().odr(OutputDataRate::Hz12_5).low_power_mode(true);
    assert_eq!(settings.BW_RATE_reg_value(), 0b0001_0111);
    let settings = ADXL343Settings::default().odr(OutputDataRate::Hz0_10);
    assert_eq!(settings.BW_RATE_reg_value(), 0);
}

#[test]
fn register_bytes_ignore_the_measurement_flag() {
    let quiet = ADXL343Settings::default().odr(OutputDataRate::Hz400).range(AccelRange::_8g);
    let measuring = quiet.measurement_mode(true);
    assert_eq!(quiet.BW_RATE_reg_value(), measuring.BW_RATE_reg_value());
    assert_eq!(quiet.DATA_FORMAT_reg_value(), measuring.DATA_FORMAT_reg_value());
}

#[test]
fn resolution_bits_follow_the_range_under_full_resolution() {
    let full = ADXL343Settings::default().resolution(FullRes::full_res);
    assert_eq!(full.range(AccelRange::_2g).resolution_to_bits(), 10);
    assert_eq!(full.range(AccelRange::_4g).resolution_to_bits(), 11);
    assert_eq!(full.range(AccelRange::_8g).resolution_to_bits(), 12);
    assert_eq!(full.range(AccelRange::_16g).resolution_to_bits(), 13);
}

#[test]
fn resolution_bits_are_ten_under_fixed_resolution() {
    let fixed = ADXL343Settings::default().resolution(FullRes::_10bit_res);
    for range in RANGES {
        assert_eq!(fixed.range(range).resolution_to_bits(), 10);
    }
}

#[test]
fn counts_per_g_are_256_under_full_resolution() {
    let full = ADXL343Settings::default().resolution(FullRes::full_res);
    for range in RANGES {
        assert_eq!(full.range(range).lsb_per_g(), 256);
        assert_eq!(1.0 / (full.range(range).lsb_per_g() as f32), 1.0 / 256.0);
    }
}

#[test]
fn counts_per_g_halve_with_the_range_under_fixed_resolution() {
    let fixed = ADXL343Settings::default().resolution(FullRes::_10bit_res);
    assert_eq!(fixed.range(AccelRange::_2g).lsb_per_g(), 256);
    assert_eq!(fixed.range(AccelRange::_4g).lsb_per_g(), 128);
    assert_eq!(fixed.range(AccelRange::_8g).lsb_per_g(), 64);
    assert_eq!(fixed.range(AccelRange::_16g).lsb_per_g(), 32);
    assert_eq!(1.0 / (fixed.range(AccelRange::_16g).lsb_per_g() as f32), 1.0 / 32.0);
}

#[test]
fn toggling_flips_the_measurement_flag_only() {
    let mut settings = ADXL343Settings::default().odr(OutputDataRate::Hz50).range(AccelRange::_4g);
    let before = settings;
    settings.toggle_measurement_mode();
    assert!(settings.in_measurement_mode());
    assert_eq!(settings, before.measurement_mode(true));
    settings.toggle_measurement_mode();
    assert!(!settings.in_measurement_mode());
    assert_eq!(settings, before);
}

#[test]
fn setters_change_one_field() {
    let mut settings = ADXL343Settings::default();
    settings.set_justification(Alignment::left);
    assert_eq!(settings.get_justification(), Alignment::left);
    assert_eq!(settings, ADXL343Settings::default().justification(Alignment::left));
    settings.set_odr(OutputDataRate::Hz1600);
    assert_eq!(settings.BW_RATE_reg_value(), 0b0000_1110);
    assert_eq!(
        settings,
        ADXL343Settings::default().justification(Alignment::left).odr(OutputDataRate::Hz1600)
    );
}

#[test]
fn builders_return_a_new_value() {
    let base = ADXL343Settings::default();
    let changed = base.range(AccelRange::_16g);
    assert_eq!(base.DATA_FORMAT_reg_value(), 0);
    assert_eq!(changed.DATA_FORMAT_reg_value(), 0b11);
    assert_ne!(base, changed);
}
