//! Bit layouts of the registers that set the data rate, the power mode and
//! the format of the acceleration data.
use vstd::prelude::*;
use super::{BW_RATE_ADDR, DATA_FORMAT_ADDR, FIFO_CTL_ADDR, POWER_CTL_ADDR};

verus! {

/// Output data rate, in hertz; the code is the low nibble of BW_RATE.
#[derive(Clone, Copy, Debug, PartialEq, Eq, Structural)]
pub enum OutputDataRate {
    Hz3200,
    Hz1600,
    Hz800,
    Hz400,
    Hz200,
    Hz100,
    Hz50,
    Hz25,
    Hz12_5,
    Hz6_25,
    Hz3_13,
    Hz1_56,
    Hz0_78,
    Hz0_39,
    Hz0_20,
    Hz0_10,
}

impl OutputDataRate {
    /// The four-bit code that selects this rate.
    pub open spec fn spec_bits(self) -> u8 {
        match self {
            OutputDataRate::Hz3200 => 0b1111,
            OutputDataRate::Hz1600 => 0b1110,
            OutputDataRate::Hz800 => 0b1101,
            OutputDataRate::Hz400 => 0b1100,
            OutputDataRate::Hz200 => 0b1011,
            OutputDataRate::Hz100 => 0b1010,
            OutputDataRate::Hz50 => 0b1001,
            OutputDataRate::Hz25 => 0b1000,
            OutputDataRate::Hz12_5 => 0b0111,
            OutputDataRate::Hz6_25 => 0b0110,
            OutputDataRate::Hz3_13 => 0b0101,
            OutputDataRate::Hz1_56 => 0b0100,
            OutputDataRate::Hz0_78 => 0b0011,
            OutputDataRate::Hz0_39 => 0b0010,
            OutputDataRate::Hz0_20 => 0b0001,
            OutputDataRate::Hz0_10 => 0b0000,
        }
    }

    /// The code of this value in its register field.
    #[verifier::when_used_as_spec(spec_bits)]
    pub fn bits(self) -> (code: u8)
        ensures
            code == self.spec_bits(),
            code < 16,
    {
        match self {
            OutputDataRate::Hz3200 => 0b1111,
            OutputDataRate::Hz1600 => 0b1110,
            OutputDataRate::Hz800 => 0b1101,
            OutputDataRate::Hz400 => 0b1100,
            OutputDataRate::Hz200 => 0b1011,
            OutputDataRate::Hz100 => 0b1010,
            OutputDataRate::Hz50 => 0b1001,
            OutputDataRate::Hz25 => 0b1000,
            OutputDataRate::Hz12_5 => 0b0111,
            OutputDataRate::Hz6_25 => 0b0110,
            OutputDataRate::Hz3_13 => 0b0101,
            OutputDataRate::Hz1_56 => 0b0100,
            OutputDataRate::Hz0_78 => 0b0011,
            OutputDataRate::Hz0_39 => 0b0010,
            OutputDataRate::Hz0_20 => 0b0001,
            OutputDataRate::Hz0_10 => 0b0000,
        }
    }

    /// Decodes a rate code; every four-bit pattern names a rate.
    pub fn from_bits(code: u8) -> (rate: Option<Self>)
        ensures
            rate is Some <==> code < 16,
            rate matches Some(r) ==> r.bits() == code,
    {
        match code {
            0b1111 => Some(OutputDataRate::Hz3200),
            0b1110 => Some(OutputDataRate::Hz1600),
            0b1101 => Some(OutputDataRate::Hz800),
            0b1100 => Some(OutputDataRate::Hz400),
            0b1011 => Some(OutputDataRate::Hz200),
            0b1010 => Some(OutputDataRate::Hz100),
            0b1001 => Some(OutputDataRate::Hz50),
            0b1000 => Some(OutputDataRate::Hz25),
            0b0111 => Some(OutputDataRate::Hz12_5),
            0b0110 => Some(OutputDataRate::Hz6_25),
            0b0101 => Some(OutputDataRate::Hz3_13),
            0b0100 => Some(OutputDataRate::Hz1_56),
            0b0011 => Some(OutputDataRate::Hz0_78),
            0b0010 => Some(OutputDataRate::Hz0_39),
            0b0001 => Some(OutputDataRate::Hz0_20),
            0b0000 => Some(OutputDataRate::Hz0_10),
            _ => None,
        }
    }
}

impl Default for OutputDataRate {
    fn default() -> (rate: Self)
        ensures
            rate == OutputDataRate::Hz100,
    {
        OutputDataRate::Hz100
    }
}

/// BW_RATE: the output data rate in bits 0 to 3, the low-power flag in bit 4;
/// bits 5 to 7 are reserved and stay zero on write.
#[derive(Clone, Copy)]
pub struct BW_RATE {
    bytes: [u8; 1],
}

impl BW_RATE {
    /// The register byte.
    pub closed spec fn byte(self) -> u8 {
        self.bytes[0]
    }

    /// Code held in bits 0 to 3.
    pub open spec fn odr_field(self) -> u8 {
        self.byte() % 16
    }

    /// Value of bit 4.
    pub open spec fn low_power_field(self) -> u8 {
        self.byte() / 16 % 2
    }

    /// Value of the reserved bits 5 to 7.
    pub open spec fn reserved_field(self) -> u8 {
        self.byte() / 32
    }

    /// The register with every bit zero.
    pub fn new() -> (reg: Self)
        ensures
            reg.byte() == 0,
    {
        BW_RATE { bytes: [0u8] }
    }

    /// The register that holds the byte `bytes[0]`.
    pub fn from_bytes(bytes: [u8; 1]) -> (reg: Self)
        ensures
            reg.byte() == bytes[0],
    {
        BW_RATE { bytes }
    }

    /// The register byte, as the one-byte array that goes on the bus.
    pub fn into_bytes(self) -> (bytes: [u8; 1])
        ensures
            bytes[0] == self.byte(),
    {
        self.bytes
    }

    /// Address of the register in the device.
    pub fn address(&self) -> (addr: u8)
        ensures
            addr == BW_RATE_ADDR,
    {
        BW_RATE_ADDR
    }

    /// The output data rate that the register selects.
    pub fn odr(&self) -> (rate: OutputDataRate)
        ensures
            rate.bits() == self.odr_field(),
    {
        let b = self.bytes[0];
        assert(b & 0x0F == b % 16) by (bit_vector);
        OutputDataRate::from_bits(b & 0x0F).unwrap()
    }

    /// The register with the rate code replaced by that of `odr`; the other
    /// bits stay.
    pub fn with_odr(self, odr: OutputDataRate) -> (reg: Self)
        ensures
            reg.odr_field() == odr.bits(),
            reg.low_power_field() == self.low_power_field(),
            reg.reserved_field() == self.reserved_field(),
    {
        let b = self.bytes[0];
        let code = odr.bits();
        assert((b & 0xF0) | code == b - b % 16 + code) by (bit_vector)
            requires
                code < 16,
        ;
        BW_RATE { bytes: [(b & 0xF0) | code] }
    }

    /// The low-power flag, 0 or 1.
    pub fn low_power(&self) -> (flag: u8)
        ensures
            flag == self.low_power_field(),
    {
        let b = self.bytes[0];
        assert((b >> 4) & 1 == b / 16 % 2) by (bit_vector);
        (b >> 4) & 1
    }

    /// The register with the low-power flag replaced by `low_power`, which
    /// is 0 or 1; the other bits stay.
    pub fn with_low_power(self, low_power: u8) -> (reg: Self)
        requires
            low_power <= 1,
        ensures
            reg.low_power_field() == low_power,
            reg.odr_field() == self.odr_field(),
            reg.reserved_field() == self.reserved_field(),
    {
        let b = self.bytes[0];
        assert((b & 0xEF) | (low_power << 4) == b - 16 * (b / 16 % 2) + 16 * low_power) by (bit_vector)
            requires
                low_power <= 1,
        ;
        BW_RATE { bytes: [(b & 0xEF) | (low_power << 4)] }
    }
}

impl Default for BW_RATE {
    fn default() -> (reg: Self)
        ensures
            reg.byte() == 0x0A,
    {
        BW_RATE::new().with_odr(OutputDataRate::default())
    }
}

/// POWER_CTL: the wakeup rate in bits 0 and 1, sleep in bit 2, measure in
/// bit 3, autosleep in bit 4, link in bit 5; bits 6 and 7 are reserved. Only
/// the measure bit is exposed.
#[derive(Clone, Copy)]
pub struct POWER_CTL {
    bytes: [u8; 1],
}

impl POWER_CTL {
    /// The register byte.
    pub closed spec fn byte(self) -> u8 {
        self.bytes[0]
    }

    /// Value of bits 0 to 2, the wakeup and sleep fields.
    pub open spec fn lower_fields(self) -> u8 {
        self.byte() % 8
    }

    /// Value of bit 3.
    pub open spec fn measure_field(self) -> u8 {
        self.byte() / 8 % 2
    }

    /// Value of bits 4 to 7, the autosleep, link and reserved fields.
    pub open spec fn upper_fields(self) -> u8 {
        self.byte() / 16
    }

    /// The register with every bit zero: the device does not measure.
    pub fn new() -> (reg: Self)
        ensures
            reg.byte() == 0,
    {
        POWER_CTL { bytes: [0u8] }
    }

    /// The register that holds the byte `bytes[0]`.
    pub fn from_bytes(bytes: [u8; 1]) -> (reg: Self)
        ensures
            reg.byte() == bytes[0],
    {
        POWER_CTL { bytes }
    }

    /// The register byte, as the one-byte array that goes on the bus.
    pub fn into_bytes(self) -> (bytes: [u8; 1])
        ensures
            bytes[0] == self.byte(),
    {
        self.bytes
    }

    /// Address of the register in the device.
    pub fn address(&self) -> (addr: u8)
        ensures
            addr == POWER_CTL_ADDR,
    {
        POWER_CTL_ADDR
    }

    /// The measure flag, 0 or 1.
    pub fn measure(&self) -> (flag: u8)
        ensures
            flag == self.measure_field(),
    {
        let b = self.bytes[0];
        assert((b >> 3) & 1 == b / 8 % 2) by (bit_vector);
        (b >> 3) & 1
    }

    /// The register with the measure flag replaced by `measure`, which is 0
    /// or 1; the other bits stay.
    pub fn with_measure(self, measure: u8) -> (reg: Self)
        requires
            measure <= 1,
        ensures
            reg.measure_field() == measure,
            reg.lower_fields() == self.lower_fields(),
            reg.upper_fields() == self.upper_fields(),
    {
        let b = self.bytes[0];
        assert((b & 0xF7) | (measure << 3) == b - 8 * (b / 8 % 2) + 8 * measure) by (bit_vector)
            requires
                measure <= 1,
        ;
        POWER_CTL { bytes: [(b & 0xF7) | (measure << 3)] }
    }
}

impl Default for POWER_CTL {
    fn default() -> (reg: Self)
        ensures
            reg.byte() == 0,
    {
        POWER_CTL::new()
    }
}

/// Rate at which the device takes readings while it sleeps.
#[derive(Clone, Copy, Debug, PartialEq, Eq, Structural)]
pub enum SLEEP_MODE_ODR {
    _8Hz,
    _4Hz,
    _2Hz,
    _1Hz,
}

impl SLEEP_MODE_ODR {
    /// The two-bit wakeup code of POWER_CTL.
    pub open spec fn spec_bits(self) -> u8 {
        match self {
            SLEEP_MODE_ODR::_8Hz => 0b00,
            SLEEP_MODE_ODR::_4Hz => 0b01,
            SLEEP_MODE_ODR::_2Hz => 0b10,
            SLEEP_MODE_ODR::_1Hz => 0b11,
        }
    }

    /// The code of this value in its register field.
    #[verifier::when_used_as_spec(spec_bits)]
    pub fn bits(self) -> (code: u8)
        ensures
            code == self.spec_bits(),
            code < 4,
    {
        match self {
            SLEEP_MODE_ODR::_8Hz => 0b00,
            SLEEP_MODE_ODR::_4Hz => 0b01,
            SLEEP_MODE_ODR::_2Hz => 0b10,
            SLEEP_MODE_ODR::_1Hz => 0b11,
        }
    }

    /// Decodes a wakeup code; every two-bit pattern names a rate.
    pub fn from_bits(code: u8) -> (decoded: Option<Self>)
        ensures
            decoded is Some <==> code < 4,
            decoded matches Some(v) ==> v.bits() == code,
    {
        match code {
            0b00 => Some(SLEEP_MODE_ODR::_8Hz),
            0b01 => Some(SLEEP_MODE_ODR::_4Hz),
            0b10 => Some(SLEEP_MODE_ODR::_2Hz),
            0b11 => Some(SLEEP_MODE_ODR::_1Hz),
            _ => None,
        }
    }
}

impl Default for SLEEP_MODE_ODR {
    fn default() -> (v: Self)
        ensures
            v == SLEEP_MODE_ODR::_8Hz,
    {
        SLEEP_MODE_ODR::_8Hz
    }
}

/// FIFO_CTL: the sample count in bits 0 to 4, the trigger line in bit 5, the
/// buffer mode in bits 6 and 7. No field of it is exposed.
#[derive(Clone, Copy)]
pub struct FIFO_CTL {
    bytes: [u8; 1],
}

impl FIFO_CTL {
    /// The register byte.
    pub closed spec fn byte(self) -> u8 {
        self.bytes[0]
    }

    /// The register with every bit zero: the buffer is bypassed.
    pub fn new() -> (reg: Self)
        ensures
            reg.byte() == 0,
    {
        FIFO_CTL { bytes: [0u8] }
    }

    /// The register that holds the byte `bytes[0]`.
    pub fn from_bytes(bytes: [u8; 1]) -> (reg: Self)
        ensures
            reg.byte() == bytes[0],
    {
        FIFO_CTL { bytes }
    }

    /// The register byte, as the one-byte array that goes on the bus.
    pub fn into_bytes(self) -> (bytes: [u8; 1])
        ensures
            bytes[0] == self.byte(),
    {
        self.bytes
    }

    /// Address of the register in the device.
    pub fn address(&self) -> (addr: u8)
        ensures
            addr == FIFO_CTL_ADDR,
    {
        FIFO_CTL_ADDR
    }
}

impl Default for FIFO_CTL {
    fn default() -> (reg: Self)
        ensures
            reg.byte() == 0,
    {
        FIFO_CTL::new()
    }
}

/// How the sample buffer of the device collects data.
#[derive(Clone, Copy, Debug, PartialEq, Eq, Structural)]
pub enum FIFOMode {
    BYPASS,
    FIFO,
    STREAM,
}

impl FIFOMode {
    /// The two-bit mode code of FIFO_CTL.
    pub open spec fn spec_bits(self) -> u8 {
        match self {
            FIFOMode::BYPASS => 0b00,
            FIFOMode::FIFO => 0b01,
            FIFOMode::STREAM => 0b10,
        }
    }

    /// The code of this value in its register field.
    #[verifier::when_used_as_spec(spec_bits)]
    pub fn bits(self) -> (code: u8)
        ensures
            code == self.spec_bits(),
            code < 4,
    {
        match self {
            FIFOMode::BYPASS => 0b00,
            FIFOMode::FIFO => 0b01,
            FIFOMode::STREAM => 0b10,
        }
    }

    /// Decodes a mode code; the pattern `0b11` names no mode of this driver.
    pub fn from_bits(code: u8) -> (decoded: Option<Self>)
        ensures
            decoded is Some <==> code < 3,
            decoded matches Some(v) ==> v.bits() == code,
    {
        match code {
            0b00 => Some(FIFOMode::BYPASS),
            0b01 => Some(FIFOMode::FIFO),
            0b10 => Some(FIFOMode::STREAM),
            _ => None,
        }
    }
}

impl Default for FIFOMode {
    fn default() -> (v: Self)
        ensures
            v == FIFOMode::BYPASS,
    {
        FIFOMode::BYPASS
    }
}

/// DATA_FORMAT: the range in bits 0 and 1, the justify bit in bit 2, the
/// full-resolution bit in bit 3. Bits 4 to 7 (reserved, interrupt polarity,
/// SPI mode, self-test) are not exposed.
#[derive(Clone, Copy)]
pub struct DATA_FORMAT {
    bytes: [u8; 1],
}

impl DATA_FORMAT {
    /// The register byte.
    pub closed spec fn byte(self) -> u8 {
        self.bytes[0]
    }

    /// Code held in bits 0 and 1.
    pub open spec fn range_field(self) -> u8 {
        self.byte() % 4
    }

    /// Value of bit 2.
    pub open spec fn justisfy_field(self) -> u8 {
        self.byte() / 4 % 2
    }

    /// Value of bit 3.
    pub open spec fn full_res_field(self) -> u8 {
        self.byte() / 8 % 2
    }

    /// Value of bits 4 to 7.
    pub open spec fn upper_fields(self) -> u8 {
        self.byte() / 16
    }

    /// The register with every bit zero.
    pub fn new() -> (reg: Self)
        ensures
            reg.byte() == 0,
    {
        DATA_FORMAT { bytes: [0u8] }
    }

    /// The register that holds the byte `bytes[0]`.
    pub fn from_bytes(bytes: [u8; 1]) -> (reg: Self)
        ensures
            reg.byte() == bytes[0],
    {
        DATA_FORMAT { bytes }
    }

    /// The register byte, as the one-byte array that goes on the bus.
    pub fn into_bytes(self) -> (bytes: [u8; 1])
        ensures
            bytes[0] == self.byte(),
    {
        self.bytes
    }

    /// Address of the register in the device.
    pub fn address() -> (addr: u8)
        ensures
            addr == DATA_FORMAT_ADDR,
    {
        DATA_FORMAT_ADDR
    }

    /// The range that the register selects.
    pub fn range(&self) -> (range: AccelRange)
        ensures
            range.bits() == self.range_field(),
    {
        let b = self.bytes[0];
        assert(b & 0x03 == b % 4) by (bit_vector);
        AccelRange::from_bits(b & 0x03).unwrap()
    }

    /// The register with the range code replaced by that of `range`; the
    /// other bits stay.
    pub fn with_range(self, range: AccelRange) -> (reg: Self)
        ensures
            reg.range_field() == range.bits(),
            reg.justisfy_field() == self.justisfy_field(),
            reg.full_res_field() == self.full_res_field(),
            reg.upper_fields() == self.upper_fields(),
    {
        let b = self.bytes[0];
        let code = range.bits();
        assert((b & 0xFC) | code == b - b % 4 + code) by (bit_vector)
            requires
                code < 4,
        ;
        DATA_FORMAT { bytes: [(b & 0xFC) | code] }
    }

    /// The justification that the register selects.
    pub fn justisfy(&self) -> (justification: Alignment)
        ensures
            justification.bits() == self.justisfy_field(),
    {
        let b = self.bytes[0];
        assert((b >> 2) & 1 == b / 4 % 2) by (bit_vector);
        assert((b >> 2) & 1 < 2) by (bit_vector);
        Alignment::from_bits((b >> 2) & 1).unwrap()
    }

    /// The register with the justify bit replaced by that of
    /// `justification`; the other bits stay.
    pub fn with_justisfy(self, justification: Alignment) -> (reg: Self)
        ensures
            reg.justisfy_field() == justification.bits(),
            reg.range_field() == self.range_field(),
            reg.full_res_field() == self.full_res_field(),
            reg.upper_fields() == self.upper_fields(),
    {
        let b = self.bytes[0];
        let code = justification.bits();
        assert((b & 0xFB) | (code << 2) == b - 4 * (b / 4 % 2) + 4 * code) by (bit_vector)
            requires
                code < 2,
        ;
        DATA_FORMAT { bytes: [(b & 0xFB) | (code << 2)] }
    }

    /// The resolution that the register selects.
    pub fn full_res(&self) -> (resolution: FullRes)
        ensures
            resolution.bits() == self.full_res_field(),
    {
        let b = self.bytes[0];
        assert((b >> 3) & 1 == b / 8 % 2) by (bit_vector);
        assert((b >> 3) & 1 < 2) by (bit_vector);
        FullRes::from_bits((b >> 3) & 1).unwrap()
    }

    /// The register with the full-resolution bit replaced by that of
    /// `resolution`; the other bits stay.
    pub fn with_full_res(self, resolution: FullRes) -> (reg: Self)
        ensures
            reg.full_res_field() == resolution.bits(),
            reg.range_field() == self.range_field(),
            reg.justisfy_field() == self.justisfy_field(),
            reg.upper_fields() == self.upper_fields(),
    {
        let b = self.bytes[0];
        let code = resolution.bits();
        assert((b & 0xF7) | (code << 3) == b - 8 * (b / 8 % 2) + 8 * code) by (bit_vector)
            requires
                code < 2,
        ;
        DATA_FORMAT { bytes: [(b & 0xF7) | (code << 3)] }
    }
}

impl Default for DATA_FORMAT {
    fn default() -> (reg: Self)
        ensures
            reg.byte() == 0,
    {
        DATA_FORMAT::new()
    }
}

/// Measurement range, in g's to either side of zero.
#[derive(Clone, Copy, Debug, PartialEq, Eq, Structural)]
pub enum AccelRange {
    _2g,
    _4g,
    _8g,
    _16g,
}

impl AccelRange {
    /// The two-bit range code of DATA_FORMAT.
    pub open spec fn spec_bits(self) -> u8 {
        match self {
            AccelRange::_2g => 0b00,
            AccelRange::_4g => 0b01,
            AccelRange::_8g => 0b10,
            AccelRange::_16g => 0b11,
        }
    }

    /// The code of this value in its register field.
    #[verifier::when_used_as_spec(spec_bits)]
    pub fn bits(self) -> (code: u8)
        ensures
            code == self.spec_bits(),
            code < 4,
    {
        match self {
            AccelRange::_2g => 0b00,
            AccelRange::_4g => 0b01,
            AccelRange::_8g => 0b10,
            AccelRange::_16g => 0b11,
        }
    }

    /// Decodes a range code; every two-bit pattern names a range.
    pub fn from_bits(code: u8) -> (decoded: Option<Self>)
        ensures
            decoded is Some <==> code < 4,
            decoded matches Some(v) ==> v.bits() == code,
    {
        match code {
            0b00 => Some(AccelRange::_2g),
            0b01 => Some(AccelRange::_4g),
            0b10 => Some(AccelRange::_8g),
            0b11 => Some(AccelRange::_16g),
            _ => None,
        }
    }
}

impl Default for AccelRange {
    fn default() -> (v: Self)
        ensures
            v == AccelRange::_2g,
    {
        AccelRange::_2g
    }
}

/// Where a reading sits in its sixteen-bit container: `left` puts its most
/// significant bit at bit 15, `right` puts its least significant bit at bit 0.
#[derive(Clone, Copy, Debug, PartialEq, Eq, Structural)]
pub enum Alignment {
    right,
    left,
}

impl Alignment {
    /// The justify bit of DATA_FORMAT.
    pub open spec fn spec_bits(self) -> u8 {
        match self {
            Alignment::right => 0b0,
            Alignment::left => 0b1,
        }
    }

    /// The code of this value in its register field.
    #[verifier::when_used_as_spec(spec_bits)]
    pub fn bits(self) -> (code: u8)
        ensures
            code == self.spec_bits(),
            code < 2,
    {
        match self {
            Alignment::right => 0b0,
            Alignment::left => 0b1,
        }
    }

    /// Decodes the justify bit.
    pub fn from_bits(code: u8) -> (decoded: Option<Self>)
        ensures
            decoded is Some <==> code < 2,
            decoded matches Some(v) ==> v.bits() == code,
    {
        match code {
            0b0 => Some(Alignment::right),
            0b1 => Some(Alignment::left),
            _ => None,
        }
    }
}

impl Default for Alignment {
    fn default() -> (v: Self)
        ensures
            v == Alignment::right,
    {
        Alignment::right
    }
}

/// Resolution of a reading: ten bits at every range, or as many bits as the
/// range needs to keep the weight of one count constant (2 g: 10, 4 g: 11,
/// 8 g: 12, 16 g: 13).
#[derive(Clone, Copy, Debug, PartialEq, Eq, Structural)]
pub enum FullRes {
    _10bit_res,
    full_res,
}

impl FullRes {
    /// The full-resolution bit of DATA_FORMAT.
    pub open spec fn spec_bits(self) -> u8 {
        match self {
            FullRes::_10bit_res => 0b0,
            FullRes::full_res => 0b1,
        }
    }

    /// The code of this value in its register field.
    #[verifier::when_used_as_spec(spec_bits)]
    pub fn bits(self) -> (code: u8)
        ensures
            code == self.spec_bits(),
            code < 2,
    {
        match self {
            FullRes::_10bit_res => 0b0,
            FullRes::full_res => 0b1,
        }
    }

    /// Decodes the full-resolution bit.
    pub fn from_bits(code: u8) -> (decoded: Option<Self>)
        ensures
            decoded is Some <==> code < 2,
            decoded matches Some(v) ==> v.bits() == code,
    {
        match code {
            0b0 => Some(FullRes::_10bit_res),
            0b1 => Some(FullRes::full_res),
            _ => None,
        }
    }
}

impl Default for FullRes {
    fn default() -> (v: Self)
        ensures
            v == FullRes::_10bit_res,
    {
        FullRes::_10bit_res
    }
}

} // verus!
