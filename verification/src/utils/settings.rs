//! The configuration of the device as one value: what the driver writes to
//! BW_RATE and DATA_FORMAT, and the constants by which it decodes a sample.
use vstd::prelude::*;
use crate::registers::accel_configs::{
    AccelRange, Alignment, FullRes, OutputDataRate, BW_RATE, DATA_FORMAT,
};

verus! {

/// The configuration of the device. `measurement_mode` tells whether the
/// device has been asked to sample; a driver accepts only settings in which
/// it is off.
#[derive(Clone, Copy, Debug, PartialEq, Eq, Structural)]
pub struct ADXL343Settings {
    odr: OutputDataRate,
    range: AccelRange,
    justification: Alignment,
    resolution: FullRes,
    low_power_mode: bool,
    measurement_mode: bool,
}

/// The fields of a settings value, as contracts speak of them.
pub struct SettingsView {
    pub odr: OutputDataRate,
    pub range: AccelRange,
    pub justification: Alignment,
    pub resolution: FullRes,
    pub low_power_mode: bool,
    pub measurement_mode: bool,
}

impl View for ADXL343Settings {
    type V = SettingsView;

    closed spec fn view(&self) -> SettingsView {
        SettingsView {
            odr: self.odr,
            range: self.range,
            justification: self.justification,
            resolution: self.resolution,
            low_power_mode: self.low_power_mode,
            measurement_mode: self.measurement_mode,
        }
    }
}

impl SettingsView {
    /// 100 Hz, 2 g, right-justified, ten bits, normal power, not measuring.
    pub open spec fn initial() -> SettingsView {
        SettingsView {
            odr: OutputDataRate::Hz100,
            range: AccelRange::_2g,
            justification: Alignment::right,
            resolution: FullRes::_10bit_res,
            low_power_mode: false,
            measurement_mode: false,
        }
    }

    /// The DATA_FORMAT byte: the range code in bits 0 and 1, the justify bit
    /// in bit 2, the full-resolution bit in bit 3, zero above. The sum is
    /// below 16.
    pub open spec fn data_format_byte(self) -> u8 {
        (self.range.bits() + 4 * self.justification.bits() + 8 * self.resolution.bits()) as u8
    }

    /// The BW_RATE byte: the rate code in bits 0 to 3, the low-power flag in
    /// bit 4, zero above. The sum is below 32.
    pub open spec fn bw_rate_byte(self) -> u8 {
        (self.odr.bits() + 16 * (if self.low_power_mode { 1int } else { 0int })) as u8
    }

    /// Number of significant bits of a reading.
    pub open spec fn resolution_bits(self) -> int {
        match (self.resolution, self.range) {
            (FullRes::_10bit_res, _) => 10,
            (FullRes::full_res, AccelRange::_2g) => 10,
            (FullRes::full_res, AccelRange::_4g) => 11,
            (FullRes::full_res, AccelRange::_8g) => 12,
            (FullRes::full_res, AccelRange::_16g) => 13,
        }
    }

    /// Number of counts of a reading that make one g.
    pub open spec fn counts_per_g(self) -> int {
        match (self.resolution, self.range) {
            (FullRes::full_res, _) => 256,
            (FullRes::_10bit_res, AccelRange::_2g) => 256,
            (FullRes::_10bit_res, AccelRange::_4g) => 128,
            (FullRes::_10bit_res, AccelRange::_8g) => 64,
            (FullRes::_10bit_res, AccelRange::_16g) => 32,
        }
    }
}

impl Default for ADXL343Settings {
    fn default() -> (settings: Self)
        ensures
            settings@ == SettingsView::initial(),
    {
        ADXL343Settings {
            odr: OutputDataRate::default(),
            range: AccelRange::default(),
            justification: Alignment::default(),
            resolution: FullRes::default(),
            low_power_mode: false,
            measurement_mode: false,
        }
    }
}

impl ADXL343Settings {
    /// The byte to write to DATA_FORMAT for these settings: each field in
    /// its place, and every other bit zero.
    pub fn DATA_FORMAT_reg_value(&self) -> (byte: u8)
        ensures
            byte == self@.data_format_byte(),
            byte % 4 == self@.range.bits(),
            byte / 4 % 2 == self@.justification.bits(),
            byte / 8 % 2 == self@.resolution.bits(),
            byte / 16 == 0,
    {
        DATA_FORMAT::new()
            .with_range(self.range)
            .with_justisfy(self.justification)
            .with_full_res(self.resolution)
            .into_bytes()[0]
    }

    /// The byte to write to BW_RATE for these settings: each field in its
    /// place, and every other bit zero.
    pub fn BW_RATE_reg_value(&self) -> (byte: u8)
        ensures
            byte == self@.bw_rate_byte(),
            byte % 16 == self@.odr.bits(),
            byte / 16 % 2 == (if self@.low_power_mode { 1int } else { 0int }),
            byte / 32 == 0,
    {
        let low_power: u8 = if self.low_power_mode { 1 } else { 0 };
        BW_RATE::new().with_low_power(low_power).with_odr(self.odr).into_bytes()[0]
    }

    /// Number of significant bits of a reading: ten at the fixed resolution;
    /// at full resolution ten, eleven, twelve or thirteen, as the range
    /// grows.
    pub fn resolution_to_bits(&self) -> (bits: u8)
        ensures
            bits == self@.resolution_bits(),
            10 <= bits <= 13,
            self@.resolution == FullRes::_10bit_res ==> bits == 10,
    {
        match (self.resolution, self.range) {
            (FullRes::_10bit_res, _) => 10,
            (FullRes::full_res, AccelRange::_2g) => 10,
            (FullRes::full_res, AccelRange::_4g) => 11,
            (FullRes::full_res, AccelRange::_8g) => 12,
            (FullRes::full_res, AccelRange::_16g) => 13,
        }
    }

    /// Number of counts that make one g: 256 at full resolution, whatever
    /// the range; at the fixed resolution 256, 128, 64 or 32, as the range
    /// grows. One count weighs the reciprocal of it, in g's.
    pub fn lsb_per_g(&self) -> (counts: u16)
        ensures
            counts == self@.counts_per_g(),
            self@.resolution == FullRes::full_res ==> counts == 256,
    {
        match (self.resolution, self.range) {
            (FullRes::full_res, _) => 256,
            (FullRes::_10bit_res, AccelRange::_2g) => 256,
            (FullRes::_10bit_res, AccelRange::_4g) => 128,
            (FullRes::_10bit_res, AccelRange::_8g) => 64,
            (FullRes::_10bit_res, AccelRange::_16g) => 32,
        }
    }

    /// Replaces the justification.
    pub fn set_justification(&mut self, justification: Alignment)
        ensures
            final(self)@ == (SettingsView { justification, ..old(self)@ }),
    {
        self.justification = justification;
    }

    /// The justification.
    pub fn get_justification(&self) -> (justification: Alignment)
        ensures
            justification == self@.justification,
    {
        self.justification
    }

    /// Replaces the output data rate.
    pub fn set_odr(&mut self, odr: OutputDataRate)
        ensures
            final(self)@ == (SettingsView { odr, ..old(self)@ }),
    {
        self.odr = odr;
    }

    /// Whether the device has been asked to sample.
    pub fn in_measurement_mode(&self) -> (measuring: bool)
        ensures
            measuring == self@.measurement_mode,
    {
        self.measurement_mode
    }

    /// Flips the measurement flag. The flag mirrors what the driver last
    /// wrote to POWER_CTL, so only the driver should flip it.
    pub fn toggle_measurement_mode(&mut self)
        ensures
            final(self)@ == (SettingsView { measurement_mode: !old(self)@.measurement_mode, ..old(self)@ }),
    {
        self.measurement_mode = !self.measurement_mode;
    }

    /// These settings with the output data rate replaced.
    pub fn odr(self, odr: OutputDataRate) -> (settings: Self)
        ensures
            settings@ == (SettingsView { odr, ..self@ }),
    {
        ADXL343Settings { odr, ..self }
    }

    /// These settings with the range replaced.
    pub fn range(self, range: AccelRange) -> (settings: Self)
        ensures
            settings@ == (SettingsView { range, ..self@ }),
    {
        ADXL343Settings { range, ..self }
    }

    /// These settings with the justification replaced.
    pub fn justification(self, justification: Alignment) -> (settings: Self)
        ensures
            settings@ == (SettingsView { justification, ..self@ }),
    {
        ADXL343Settings { justification, ..self }
    }

    /// These settings with the resolution replaced.
    pub fn resolution(self, resolution: FullRes) -> (settings: Self)
        ensures
            settings@ == (SettingsView { resolution, ..self@ }),
    {
        ADXL343Settings { resolution, ..self }
    }

    /// These settings with the low-power flag replaced.
    pub fn low_power_mode(self, low_power_mode: bool) -> (settings: Self)
        ensures
            settings@ == (SettingsView { low_power_mode, ..self@ }),
    {
        ADXL343Settings { low_power_mode, ..self }
    }

    /// These settings with the measurement flag replaced.
    pub fn measurement_mode(self, measurement_mode: bool) -> (settings: Self)
        ensures
            settings@ == (SettingsView { measurement_mode, ..self@ }),
    {
        ADXL343Settings { measurement_mode, ..self }
    }
}

} // verus!
