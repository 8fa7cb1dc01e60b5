//! From the two data bytes of an axis to the signed count they hold.
//!
//! The device stores a reading of `n` significant bits (ten to thirteen) in
//! a sixteen-bit word, two's complement, either at the top of the word
//! (left-justified) or at the bottom with the sign repeated above it
//! (right-justified). Decoding moves a right-justified word six places up and
//! then shifts the word down, sign first, by `16 - n` places.
use vstd::prelude::*;
use crate::registers::accel_configs::Alignment;
use crate::registers::REGISTER_SIZE;
use crate::utils::settings::{ADXL343Settings, SettingsView};

verus! {

/// The sixteen-bit word that a low byte and a high byte form.
pub open spec fn axis_word(low: u8, high: u8) -> int {
    high * 256 + low
}

/// The value of a sixteen-bit word read as two's complement.
pub open spec fn as_signed(word: int) -> int {
    if word < 32768 {
        word
    } else {
        word - 65536
    }
}

/// The word as the decoding shifts it: unchanged when left-justified, six
/// places up within sixteen bits when right-justified.
pub open spec fn aligned_word(justification: Alignment, word: int) -> int {
    match justification {
        Alignment::left => word,
        Alignment::right => word * 64 % 65536,
    }
}

/// Two to the power `16 - bits`, for the resolutions of the device, ten to
/// thirteen bits: the weight that one count of a reading of `bits` bits has
/// at the top of a sixteen-bit word. For any other `bits` the value is that
/// of thirteen bits, and means nothing.
pub open spec fn padding_weight(bits: int) -> int
    recommends
        10 <= bits <= 13,
{
    if bits == 10 {
        64
    } else if bits == 11 {
        32
    } else if bits == 12 {
        16
    } else {
        8
    }
}

/// The signed count that a word decodes to under the given settings.
pub open spec fn raw_axis_value(settings: SettingsView, word: int) -> int {
    as_signed(aligned_word(settings.justification, word)) / padding_weight(
        settings.resolution_bits(),
    )
}

/// Whether `reading` is a two's-complement number of `bits` bits, for a
/// resolution of ten to thirteen bits.
pub open spec fn fits(reading: int, bits: int) -> bool
    recommends
        10 <= bits <= 13,
{
    -32768 <= reading * padding_weight(bits) < 32768
}

/// The word in which the device reports `reading` when left-justified at a
/// resolution of `bits` bits, ten to thirteen.
pub open spec fn left_justified_word(reading: int, bits: int) -> int
    recommends
        10 <= bits <= 13,
{
    reading * padding_weight(bits) % 65536
}

/// The word in which the device reports `reading` when right-justified: the
/// reading extended by its sign to sixteen bits.
pub open spec fn right_justified_word(reading: int) -> int {
    reading % 65536
}

proof fn lemma_signed_shift(word: u16, shift: u8)
    requires
        3 <= shift <= 6,
    ensures
        (word as i16) >> shift == as_signed(word as int) / padding_weight(16 - shift),
{
    if shift == 6 {
        assert((word as i16) >> 6u8 == (if word < 32768 { word as int } else { word - 65536 }) / 64)
            by (bit_vector);
    } else if shift == 5 {
        assert((word as i16) >> 5u8 == (if word < 32768 { word as int } else { word - 65536 }) / 32)
            by (bit_vector);
    } else if shift == 4 {
        assert((word as i16) >> 4u8 == (if word < 32768 { word as int } else { word - 65536 }) / 16)
            by (bit_vector);
    } else {
        assert((word as i16) >> 3u8 == (if word < 32768 { word as int } else { word - 65536 }) / 8)
            by (bit_vector);
    }
}

/// Decodes the two data bytes of one axis, low byte first, into the signed
/// count of the reading. The result depends on the justification and the
/// resolution of `settings` and on the two bytes, and on nothing else.
pub fn raw_axis(settings: &ADXL343Settings, accel_data: [u8; 2]) -> (raw: i16)
    ensures
        raw == raw_axis_value(settings@, axis_word(accel_data[0], accel_data[1])),
{
    let low = accel_data[0];
    let high = accel_data[1];
    let word: u16 = ((high as u16) << REGISTER_SIZE) | (low as u16);
    assert(((high as u16) << 8u8) | (low as u16) == high * 256 + low) by (bit_vector);
    let shift: u8 = 16 - settings.resolution_to_bits();
    let aligned: u16 = match settings.get_justification() {
        Alignment::right => {
            assert(word << 6u8 == word * 64 % 65536) by (bit_vector);
            word << 6u8
        },
        Alignment::left => word,
    };
    proof {
        lemma_signed_shift(aligned, shift);
    }
    (aligned as i16) >> shift
}

/// Decodes a full sample, `[x_low, x_high, y_low, y_high, z_low, z_high]`,
/// into the signed counts of the three axes, in the order x, y, z.
pub fn raw_axes(settings: &ADXL343Settings, sample: [u8; 6]) -> (raw: [i16; 3])
    ensures
        raw[0] == raw_axis_value(settings@, axis_word(sample[0], sample[1])),
        raw[1] == raw_axis_value(settings@, axis_word(sample[2], sample[3])),
        raw[2] == raw_axis_value(settings@, axis_word(sample[4], sample[5])),
{
    let x = raw_axis(settings, [sample[0], sample[1]]);
    let y = raw_axis(settings, [sample[2], sample[3]]);
    let z = raw_axis(settings, [sample[4], sample[5]]);
    [x, y, z]
}

/// A left-justified word decodes to the reading that the device put in it,
/// at every resolution.
pub proof fn lemma_left_justified_decodes(settings: SettingsView, reading: int)
    requires
        settings.justification == Alignment::left,
        fits(reading, settings.resolution_bits()),
    ensures
        raw_axis_value(settings, left_justified_word(reading, settings.resolution_bits()))
            == reading,
{
    let weight = padding_weight(settings.resolution_bits());
    let scaled = reading * weight;
    let word = left_justified_word(reading, settings.resolution_bits());
    assert(weight == 64 || weight == 32 || weight == 16 || weight == 8);
    assert(word == if scaled < 0 { scaled + 65536 } else { scaled });
    assert(as_signed(word) == scaled);
    assert(scaled / weight == reading);
}

/// A right-justified word decodes to the reading that the device put in it
/// when the resolution is ten bits, and at any resolution when the reading
/// is zero.
pub proof fn lemma_right_justified_decodes(settings: SettingsView, reading: int)
    requires
        settings.justification == Alignment::right,
        fits(reading, settings.resolution_bits()),
        settings.resolution_bits() == 10 || reading == 0,
    ensures
        raw_axis_value(settings, right_justified_word(reading)) == reading,
{
    let weight = padding_weight(settings.resolution_bits());
    let word = right_justified_word(reading);
    assert(weight == 64 || weight == 32 || weight == 16 || weight == 8);
    if reading == 0 {
        assert(word == 0);
        assert(aligned_word(settings.justification, word) == 0);
    } else {
        assert(word == if reading < 0 { reading + 65536 } else { reading });
        assert(aligned_word(settings.justification, word) == if reading < 0 {
            reading * 64 + 65536
        } else {
            reading * 64
        });
    }
}

/// Above ten bits a right-justified word decodes to its reading only when
/// the reading is zero: the six places by which the word is moved up suit a
/// reading of ten bits, and drop the top of a longer one.
pub proof fn lemma_right_justified_wide_differs(settings: SettingsView, reading: int)
    requires
        settings.justification == Alignment::right,
        fits(reading, settings.resolution_bits()),
        settings.resolution_bits() != 10,
        reading != 0,
    ensures
        raw_axis_value(settings, right_justified_word(reading)) != reading,
{
    let bits = settings.resolution_bits();
    let v = reading as i16;
    let word = v as u16;
    let moved = word << 6u8;
    assert(-4096 <= reading < 4096);
    assert(v == reading);
    assert(word == right_justified_word(reading)) by {
        assert(v as u16 == (if v < 0 { v + 65536 } else { v as int })) by (bit_vector);
    }
    assert(moved == word * 64 % 65536) by (bit_vector)
        requires
            moved == word << 6u8,
    ;
    lemma_signed_shift(moved, (16 - bits) as u8);
    if bits == 11 {
        assert(((((v as u16) << 6u8) as i16) >> 5u8) != v) by (bit_vector)
            requires
                -1024 <= v < 1024,
                v != 0,
        ;
    } else if bits == 12 {
        assert(((((v as u16) << 6u8) as i16) >> 4u8) != v) by (bit_vector)
            requires
                -2048 <= v < 2048,
                v != 0,
        ;
    } else {
        assert(((((v as u16) << 6u8) as i16) >> 3u8) != v) by (bit_vector)
            requires
                -4096 <= v < 4096,
                v != 0,
        ;
    }
}

/// Justification invariance: the two words in which the device can report
/// one reading at one resolution decode to the same count when the
/// resolution is ten bits, and at any resolution when the reading is zero.
pub proof fn lemma_justification_invariance(
    left: SettingsView,
    right: SettingsView,
    reading: int,
)
    requires
        left.justification == Alignment::left,
        right.justification == Alignment::right,
        left.resolution_bits() == right.resolution_bits(),
        fits(reading, left.resolution_bits()),
        left.resolution_bits() == 10 || reading == 0,
    ensures
        raw_axis_value(left, left_justified_word(reading, left.resolution_bits()))
            == raw_axis_value(right, right_justified_word(reading)),
{
    lemma_left_justified_decodes(left, reading);
    lemma_right_justified_decodes(right, reading);
}

} // verus!
