//! J1939 SPN decoder.
//!
//! Provides utilities for decoding SPN values from CAN frame data.
//!
//! A value is decoded in three steps: the field's reading is taken out of
//! the payload, the two highest values of the field ("error" and "not
//! available") are recognised, and the number that any other reading stands
//! for, negative for a signed field with the sign bit set, is scaled and
//! offset into an exact physical value.

use vstd::arithmetic::div_mod::{
    lemma_basic_div, lemma_div_is_ordered_by_denominator, lemma_div_pos_is_pos, lemma_mod_bound,
    lemma_mod_decreases, lemma_small_mod,
};
use vstd::arithmetic::power2::{
    lemma2_to64, lemma_pow2_pos, lemma_pow2_strictly_increases, lemma_pow2_unfold, pow2,
};
use vstd::bits::{
    lemma_u64_shl_is_mul, lemma_u8_low_bits_mask_is_mod, lemma_u8_shl_is_mul, lemma_u8_shr_is_div,
    low_bits_mask,
};
use vstd::prelude::*;

use crate::catalog::catalog;
use crate::database::{
    get_spn_def, get_spns_for_pgn, lemma_catalog_entry_is_found, spec_get_spn_def,
    spec_get_spns_for_pgn, spns_of_pgn, SpnDatabase,
};
use crate::frame::{extract_pgn, extract_source_address, pgn_of, source_address_of};
use crate::types::{DecodedSpn, Quantity, Ratio, SpnDataType, SpnDef};

verus! {

/// Two payload bytes from `start` on, read as a little-endian number.
pub open spec fn le_u16(data: Seq<u8>, start: int) -> int {
    data[start] as int + data[start + 1] as int * 0x100
}

/// Four payload bytes from `start` on, read as a little-endian number.
pub open spec fn le_u32(data: Seq<u8>, start: int) -> int {
    data[start] as int + data[start + 1] as int * 0x100 + data[start + 2] as int * 0x1_0000
        + data[start + 3] as int * 0x100_0000
}

/// All bytes of a data type from `start` on, read as an unsigned
/// little-endian number.
pub open spec fn unsigned_value(data: Seq<u8>, start: int, data_type: SpnDataType) -> int {
    match data_type {
        SpnDataType::Uint8 | SpnDataType::Int8 => data[start] as int,
        SpnDataType::Uint16 | SpnDataType::Int16 => le_u16(data, start),
        SpnDataType::Uint32 | SpnDataType::Int32 => le_u32(data, start),
    }
}

/// The number of values of a data type: 2 to the power of its bits.
pub open spec fn type_modulus(data_type: SpnDataType) -> int {
    match data_type {
        SpnDataType::Uint8 | SpnDataType::Int8 => 0x100,
        SpnDataType::Uint16 | SpnDataType::Int16 => 0x1_0000,
        SpnDataType::Uint32 | SpnDataType::Int32 => 0x1_0000_0000,
    }
}

/// The value of a bit field within one byte: the byte shifted right by
/// `start_bit` and cut to its low `bit_length` bits.
pub open spec fn bit_field(byte: u8, start_bit: u8, bit_length: u8) -> int {
    (byte as int / pow2(start_bit as nat) as int) % pow2(bit_length as nat) as int
}

/// Whether the definition's field starts on a byte boundary and is as long
/// as its data type.
pub open spec fn fills_data_type(spn_def: SpnDef) -> bool {
    spn_def.start_bit == 0 && spn_def.bit_length == 8 * spn_def.data_type.spec_byte_width()
}

/// Whether the payload is too short to hold the definition's data type at
/// its start byte.
pub open spec fn too_short(data: Seq<u8>, spn_def: SpnDef) -> bool {
    data.len() < spn_def.start_byte + spn_def.data_type.spec_byte_width()
}

/// Whether the definition's field is read as a two's complement number: its
/// data type is signed and the field fills it.
pub open spec fn reads_signed(spn_def: SpnDef) -> bool {
    fills_data_type(spn_def) && spn_def.data_type.spec_is_signed()
}

/// The field's own reading in a payload that holds it: the bits of the
/// field as an unsigned number. A field that fills its data type is all
/// bytes of the type, little-endian; any other field is a bit field of the
/// byte at `start_byte`.
pub open spec fn field_value(data: Seq<u8>, spn_def: SpnDef) -> int {
    if fills_data_type(spn_def) {
        unsigned_value(data, spn_def.start_byte as int, spn_def.data_type)
    } else {
        bit_field(data[spn_def.start_byte as int], spn_def.start_bit, spn_def.bit_length) as int
    }
}

/// The number that a reading stands for. A reading in the upper half of a
/// signed data type is negative: it stands for the reading less the number
/// of values of the type. Every other reading stands for itself.
pub open spec fn signed_value(reading: int, spn_def: SpnDef) -> int {
    if reads_signed(spn_def) && 2 * reading >= type_modulus(spn_def.data_type) {
        reading - type_modulus(spn_def.data_type)
    } else {
        reading
    }
}

/// A signed number widened to 64 bits of two's complement and read as
/// unsigned: a negative number comes out as `2^64` plus itself.
pub open spec fn widened(value: int) -> int {
    if value < 0 {
        0x1_0000_0000_0000_0000 + value
    } else {
        value
    }
}

/// The field's own reading in a payload, or none if the payload is too
/// short.
pub open spec fn spec_extract_field_value(data: Seq<u8>, spn_def: SpnDef) -> Option<u64> {
    if too_short(data, spn_def) {
        None
    } else {
        Some(field_value(data, spn_def) as u64)
    }
}

/// The raw value of a definition's field in a payload: none if the payload
/// is too short, and otherwise the number that the field's reading stands
/// for, widened to 64 bits (sign-extended, if it is negative).
pub open spec fn spec_extract_raw_value(data: Seq<u8>, spn_def: SpnDef) -> Option<u64> {
    if too_short(data, spn_def) {
        None
    } else {
        Some(widened(signed_value(field_value(data, spn_def), spn_def)) as u64)
    }
}

/// J1939 reserves the two highest values of an N-bit field: `2^N - 2` is the
/// error indicator and `2^N - 1` means "not available". Every reading above
/// `2^N - 3` therefore carries no measurement. The reading is the field's own
/// unsigned one, before any sign extension.
pub open spec fn spec_is_not_available(reading: u64, bit_length: u8) -> bool {
    reading as int > pow2(bit_length as nat) - 3
}

/// Numerator of `raw_value * scale + offset` over the common denominator.
pub open spec fn physical_numerator(raw_value: i64, scale: Ratio, offset: Ratio) -> int {
    raw_value as int * scale.num as int * offset.den as int + offset.num as int * scale.den as int
}

/// Common denominator of `raw_value * scale + offset`.
pub open spec fn physical_denominator(scale: Ratio, offset: Ratio) -> int {
    scale.den as int * offset.den as int
}

/// The physical value `raw_value * scale + offset` as one exact fraction.
pub open spec fn spec_physical_value(raw_value: i64, scale: Ratio, offset: Ratio) -> Quantity {
    Quantity {
        num: physical_numerator(raw_value, scale, offset) as i128,
        den: physical_denominator(scale, offset) as u64,
    }
}

/// What decoding one definition from a payload gives: nothing if the payload
/// is too short or the field's reading is reserved. Otherwise the number
/// that the reading stands for, negative or not, is scaled and offset into
/// the physical value; the record holds it with the raw value and the
/// definition's number, name and unit.
pub open spec fn spec_decode_spn_full(data: Seq<u8>, spn_def: SpnDef) -> Option<DecodedSpn> {
    if too_short(data, spn_def) {
        None
    } else if spec_is_not_available(field_value(data, spn_def) as u64, spn_def.bit_length) {
        None
    } else {
        let number = signed_value(field_value(data, spn_def), spn_def);
        Some(
            DecodedSpn {
                spn: spn_def.spn,
                name: spn_def.name,
                value: spec_physical_value(number as i64, spn_def.scale, spn_def.offset),
                unit: spn_def.unit,
                raw_value: widened(number) as u64,
            },
        )
    }
}

/// The physical value alone of what decoding one definition gives.
pub open spec fn spec_decode_spn(data: Seq<u8>, spn_def: SpnDef) -> Option<Quantity> {
    match spec_decode_spn_full(data, spn_def) {
        Some(decoded) => Some(decoded.value),
        None => None,
    }
}

/// What decoding a list of definitions from one payload gives: the decoded
/// values of those definitions that have one, in the order of the list.
pub open spec fn spec_decode_spns(data: Seq<u8>, spn_defs: Seq<SpnDef>) -> Seq<DecodedSpn> {
    spn_defs.filter_map(|spn_def: SpnDef| spec_decode_spn_full(data, spn_def))
}

/// The products and the sum that make up a physical value stay within 128
/// bits, and the common denominator within 64, whatever the raw value, scale
/// and offset.
proof fn lemma_physical_value_steps(raw: int, sn: int, sd: int, on: int, od: int)
    requires
        i64::MIN <= raw <= i64::MAX,
        i32::MIN <= sn <= i32::MAX,
        0 <= sd <= u32::MAX,
        i32::MIN <= on <= i32::MAX,
        0 <= od <= u32::MAX,
    ensures
        i128::MIN <= raw * sn <= i128::MAX,
        i128::MIN <= on * sd <= i128::MAX,
        i128::MIN <= raw * sn * od <= i128::MAX,
        i128::MIN <= raw * sn * od + on * sd <= i128::MAX,
        0 <= sd * od <= u64::MAX,
{
    assert(-0x8000_0000 * 0x8000_0000_0000_0000 <= raw * sn <= 0x8000_0000 * 0x8000_0000_0000_0000)
        by (nonlinear_arith)
        requires
            -0x8000_0000_0000_0000 <= raw <= 0x7FFF_FFFF_FFFF_FFFF,
            -0x8000_0000 <= sn <= 0x7FFF_FFFF,
    ;
    let scaled = raw * sn;
    assert(-0x8000_0000 * 0x8000_0000_0000_0000 * 0xFFFF_FFFF <= scaled * od <= 0x8000_0000
        * 0x8000_0000_0000_0000 * 0xFFFF_FFFF) by (nonlinear_arith)
        requires
            -0x8000_0000 * 0x8000_0000_0000_0000 <= scaled <= 0x8000_0000 * 0x8000_0000_0000_0000,
            0 <= od <= 0xFFFF_FFFF,
    ;
    assert(-0x8000_0000 * 0xFFFF_FFFF <= on * sd <= 0x7FFF_FFFF * 0xFFFF_FFFF) by (nonlinear_arith)
        requires
            -0x8000_0000 <= on <= 0x7FFF_FFFF,
            0 <= sd <= 0xFFFF_FFFF,
    ;
    assert(0 <= sd * od <= 0xFFFF_FFFF * 0xFFFF_FFFF) by (nonlinear_arith)
        requires
            0 <= sd <= 0xFFFF_FFFF,
            0 <= od <= 0xFFFF_FFFF,
    ;
}

/// The numerator and denominator of a physical value fit the fields of
/// `Quantity`, whatever the raw value, scale and offset.
pub proof fn lemma_physical_value_fits(raw_value: i64, scale: Ratio, offset: Ratio)
    ensures
        i128::MIN <= physical_numerator(raw_value, scale, offset) <= i128::MAX,
        0 <= physical_denominator(scale, offset) <= u64::MAX,
        spec_physical_value(raw_value, scale, offset).num == physical_numerator(
            raw_value,
            scale,
            offset,
        ),
        spec_physical_value(raw_value, scale, offset).den == physical_denominator(scale, offset),
{
    lemma_physical_value_steps(
        raw_value as int,
        scale.num as int,
        scale.den as int,
        offset.num as int,
        offset.den as int,
    );
}

/// A payload of 8 bytes or more holds the field of every well-formed
/// definition.
pub proof fn lemma_full_payload_holds_field(data: Seq<u8>, spn_def: SpnDef)
    requires
        spn_def.well_formed(),
        data.len() >= 8,
    ensures
        !too_short(data, spn_def),
        spec_extract_field_value(data, spn_def) is Some,
        spec_extract_raw_value(data, spn_def) is Some,
{
}

/// The reading of a field of N bits is below `2^N` and below `2^32`, and the
/// number it stands for lies within 32 bits of two's complement.
pub proof fn lemma_field_value_fits_field(data: Seq<u8>, spn_def: SpnDef)
    requires
        !too_short(data, spn_def),
    ensures
        0 <= field_value(data, spn_def) < pow2(spn_def.bit_length as nat),
        field_value(data, spn_def) < 0x1_0000_0000,
        -0x8000_0000 <= signed_value(field_value(data, spn_def), spn_def) < 0x1_0000_0000,
        spec_extract_field_value(data, spn_def) == Some(field_value(data, spn_def) as u64),
{
    lemma2_to64();
    if !fills_data_type(spn_def) {
        let byte = data[spn_def.start_byte as int];
        lemma_pow2_pos(spn_def.start_bit as nat);
        lemma_pow2_pos(spn_def.bit_length as nat);
        let shifted = byte as int / pow2(spn_def.start_bit as nat) as int;
        lemma_mod_bound(shifted, pow2(spn_def.bit_length as nat) as int);
        lemma_div_pos_is_pos(byte as int, pow2(spn_def.start_bit as nat) as int);
        lemma_div_is_ordered_by_denominator(byte as int, 1, pow2(spn_def.start_bit as nat) as int);
        lemma_mod_decreases(shifted as nat, pow2(spn_def.bit_length as nat));
    }
}

/// The raw value of a field that is not read as signed is its reading. The
/// raw value of a signed field is its reading too while the sign bit is
/// clear, and with the sign bit set it is the reading with all higher bits
/// of the 64 set as well.
pub proof fn lemma_raw_value_is_sign_extension(data: Seq<u8>, spn_def: SpnDef)
    requires
        !too_short(data, spn_def),
    ensures
        ({
            let reading = field_value(data, spn_def);
            let modulus = type_modulus(spn_def.data_type);
            spec_extract_raw_value(data, spn_def) == Some(
                (if reads_signed(spn_def) && 2 * reading >= modulus {
                    0x1_0000_0000_0000_0000 - modulus + reading
                } else {
                    reading
                }) as u64,
            )
        }),
{
    lemma_field_value_fits_field(data, spn_def);
}

/// The two reserved values of a field, `2^N - 2` and `2^N - 1` for a field of
/// N bits, decode to nothing, whatever the definition's scale, offset, data
/// type and position.
pub proof fn lemma_reserved_values_are_absent(data: Seq<u8>, spn_def: SpnDef)
    requires
        !too_short(data, spn_def),
        field_value(data, spn_def) == pow2(spn_def.bit_length as nat) - 1 || field_value(
            data,
            spn_def,
        ) == pow2(spn_def.bit_length as nat) - 2,
    ensures
        spec_decode_spn_full(data, spn_def) is None,
        spec_decode_spn(data, spn_def) is None,
{
    lemma_field_value_fits_field(data, spn_def);
}

/// A value is decoded exactly when the payload holds the field and the
/// field's reading is at most `2^N - 3`. The decoded record then carries the
/// raw value, the physical value of the number that the reading stands for,
/// and the definition's number, name and unit.
pub proof fn lemma_decoded_iff_below_reserved(data: Seq<u8>, spn_def: SpnDef)
    ensures
        spec_decode_spn_full(data, spn_def) is Some <==> !too_short(data, spn_def) && field_value(
            data,
            spn_def,
        ) + 3 <= pow2(spn_def.bit_length as nat),
        spec_decode_spn(data, spn_def) is Some <==> spec_decode_spn_full(data, spn_def) is Some,
        spec_decode_spn_full(data, spn_def) matches Some(decoded) ==> {
            &&& Some(decoded.raw_value) == spec_extract_raw_value(data, spn_def)
            &&& Some(decoded.value) == spec_decode_spn(data, spn_def)
            &&& decoded.value.num == signed_value(field_value(data, spn_def), spn_def)
                * spn_def.scale.num * spn_def.offset.den + spn_def.offset.num * spn_def.scale.den
            &&& decoded.value.den == spn_def.scale.den * spn_def.offset.den
            &&& decoded.spn == spn_def.spn
            &&& decoded.name == spn_def.name
            &&& decoded.unit == spn_def.unit
        },
{
    if !too_short(data, spn_def) {
        lemma_field_value_fits_field(data, spn_def);
        let number = signed_value(field_value(data, spn_def), spn_def);
        lemma_physical_value_fits(number as i64, spn_def.scale, spn_def.offset);
    }
}

/// A negative reading of a signed field is decoded like any other: of a
/// signed field of N bits that fills its data type, every reading with the
/// sign bit set, up to `2^N - 3`, gives the value of the reading less `2^N`.
pub proof fn lemma_negative_readings_are_decoded(data: Seq<u8>, spn_def: SpnDef)
    requires
        !too_short(data, spn_def),
        reads_signed(spn_def),
        2 * field_value(data, spn_def) >= type_modulus(spn_def.data_type),
        field_value(data, spn_def) + 3 <= type_modulus(spn_def.data_type),
    ensures
        spec_decode_spn_full(data, spn_def) matches Some(decoded) && decoded.value
            == spec_physical_value(
            (field_value(data, spn_def) - type_modulus(spn_def.data_type)) as i64,
            spn_def.scale,
            spn_def.offset,
        ) && decoded.raw_value == 0x1_0000_0000_0000_0000 - type_modulus(spn_def.data_type)
            + field_value(data, spn_def),
        field_value(data, spn_def) - type_modulus(spn_def.data_type) < 0,
{
    lemma2_to64();
    lemma_field_value_fits_field(data, spn_def);
}

/// Whether a value is present does not depend on scale and offset: a
/// definition with any other scale and offset has a value in the same
/// payloads, with the same raw value.
pub proof fn lemma_presence_ignores_scale_and_offset(
    data: Seq<u8>,
    spn_def: SpnDef,
    scale: Ratio,
    offset: Ratio,
)
    ensures
        ({
            let other = SpnDef { scale, offset, ..spn_def };
            &&& spec_extract_raw_value(data, other) == spec_extract_raw_value(data, spn_def)
            &&& spec_extract_field_value(data, other) == spec_extract_field_value(data, spn_def)
            &&& spec_decode_spn(data, other) is None <==> spec_decode_spn(data, spn_def) is None
            &&& spec_decode_spn_full(data, other) is None <==> spec_decode_spn_full(data, spn_def)
                is None
        }),
{
}

/// Read two bytes as a little-endian number.
fn read_le_u16(data: &[u8], start: usize) -> (value: u64)
    requires
        start + 2 <= data@.len(),
    ensures
        value == le_u16(data@, start as int),
        value < 0x1_0000,
{
    let b0 = data[start] as u64;
    let b1 = data[start + 1] as u64;
    b0 + b1 * 0x100
}

/// Read four bytes as a little-endian number.
fn read_le_u32(data: &[u8], start: usize) -> (value: u64)
    requires
        start + 4 <= data@.len(),
    ensures
        value == le_u32(data@, start as int),
        value < 0x1_0000_0000,
{
    let b0 = data[start] as u64;
    let b1 = data[start + 1] as u64;
    let b2 = data[start + 2] as u64;
    let b3 = data[start + 3] as u64;
    b0 + b1 * 0x100 + b2 * 0x1_0000 + b3 * 0x100_0000
}

/// Read all bytes of a data type as an unsigned little-endian number.
fn read_unsigned(data: &[u8], start: usize, data_type: SpnDataType) -> (value: u64)
    requires
        start + data_type.spec_byte_width() <= data@.len(),
    ensures
        value == unsigned_value(data@, start as int, data_type),
        value < type_modulus(data_type),
{
    match data_type {
        SpnDataType::Uint8 | SpnDataType::Int8 => data[start] as u64,
        SpnDataType::Uint16 | SpnDataType::Int16 => read_le_u16(data, start),
        SpnDataType::Uint32 | SpnDataType::Int32 => read_le_u32(data, start),
    }
}

/// Read a bit field out of one byte. A start bit past the byte leaves
/// nothing; a length of 8 or more keeps all that is left.
fn read_bit_field(byte: u8, start_bit: u8, bit_length: u8) -> (value: u8)
    ensures
        value == bit_field(byte, start_bit, bit_length),
{
    proof {
        lemma2_to64();
    }
    let shifted: u8 = if start_bit < 8 {
        proof {
            lemma_u8_shr_is_div(byte, start_bit);
        }
        byte >> start_bit
    } else {
        proof {
            if start_bit > 8 {
                lemma_pow2_strictly_increases(8, start_bit as nat);
            }
            lemma_basic_div(byte as int, pow2(start_bit as nat) as int);
        }
        0
    };
    assert(shifted == byte as int / pow2(start_bit as nat) as int);
    if bit_length < 8 {
        proof {
            lemma_pow2_strictly_increases(bit_length as nat, 8);
            lemma_u8_shl_is_mul(1, bit_length);
            lemma_u8_low_bits_mask_is_mod(shifted, bit_length as nat);
            assert(((1u8 << bit_length) - 1) as u8 == low_bits_mask(bit_length as nat) as u8);
        }
        shifted & ((1u8 << bit_length) - 1)
    } else {
        proof {
            if bit_length > 8 {
                lemma_pow2_strictly_increases(8, bit_length as nat);
            }
            lemma_small_mod(shifted as nat, pow2(bit_length as nat));
        }
        shifted
    }
}

/// Read the field's own unsigned reading from a payload that holds it.
fn read_field(data: &[u8], spn_def: &SpnDef) -> (reading: u64)
    requires
        !too_short(data@, *spn_def),
    ensures
        reading == field_value(data@, *spn_def),
        reading < 0x1_0000_0000,
{
    let start = spn_def.start_byte as usize;
    let width = spn_def.data_type.byte_width();
    if spn_def.start_bit == 0 && spn_def.bit_length as usize == 8 * width {
        read_unsigned(data, start, spn_def.data_type)
    } else {
        read_bit_field(data[start], spn_def.start_bit, spn_def.bit_length) as u64
    }
}

/// The number of values of a data type.
fn modulus_of(data_type: SpnDataType) -> (modulus: i64)
    ensures
        modulus == type_modulus(data_type),
{
    match data_type {
        SpnDataType::Uint8 | SpnDataType::Int8 => 0x100,
        SpnDataType::Uint16 | SpnDataType::Int16 => 0x1_0000,
        SpnDataType::Uint32 | SpnDataType::Int32 => 0x1_0000_0000,
    }
}

/// The number that a reading stands for: negative for a reading in the
/// upper half of a signed data type that the field fills.
fn to_signed(reading: u64, spn_def: &SpnDef) -> (number: i64)
    requires
        reading < 0x1_0000_0000,
    ensures
        number == signed_value(reading as int, *spn_def),
{
    let width = spn_def.data_type.byte_width();
    let fills = spn_def.start_bit == 0 && spn_def.bit_length as usize == 8 * width;
    let modulus = modulus_of(spn_def.data_type);
    let reading = reading as i64;
    if fills && spn_def.data_type.is_signed() && 2 * reading >= modulus {
        reading - modulus
    } else {
        reading
    }
}

/// Widen a number to 64 bits of two's complement.
fn widen(number: i64) -> (raw_value: u64)
    ensures
        raw_value == widened(number as int),
{
    if number < 0 {
        u64::MAX - ((-(number + 1)) as u64)
    } else {
        number as u64
    }
}

/// Extract the field's own reading from data bytes based on SPN definition.
///
/// Returns `None` if the data is shorter than `start_byte` plus the width of
/// the data type. A field that starts at bit 0 and is as long as its data
/// type is read whole, little-endian. Any other field is read from the
/// single byte at `start_byte`: shifted right by `start_bit` and cut to
/// `bit_length` bits. The reading is unsigned, whatever the data type; it is
/// what [`is_not_available`] tests.
pub fn extract_field_value(data: &[u8], spn_def: &SpnDef) -> (reading: Option<u64>)
    ensures
        reading == spec_extract_field_value(data@, *spn_def),
        reading is None <==> too_short(data@, *spn_def),
        reading matches Some(bits) ==> bits == field_value(data@, *spn_def) && bits
            < 0x1_0000_0000,
{
    let start = spn_def.start_byte as usize;
    let width = spn_def.data_type.byte_width();
    if data.len() < start + width {
        return None;
    }
    Some(read_field(data, spn_def))
}

/// Extract raw value from data bytes based on SPN definition.
///
/// Returns `None` if the data is shorter than `start_byte` plus the width of
/// the data type. Otherwise the raw value is the field's reading, widened to
/// 64 bits: the reading of a signed data type that the field fills is
/// sign-extended, every other reading is kept as it is.
pub fn extract_raw_value(data: &[u8], spn_def: &SpnDef) -> (raw_value: Option<u64>)
    ensures
        raw_value == spec_extract_raw_value(data@, *spn_def),
        raw_value is None <==> too_short(data@, *spn_def),
{
    match extract_field_value(data, spn_def) {
        Some(reading) => Some(widen(to_signed(reading, spn_def))),
        None => None,
    }
}

/// Check whether a field's reading is one of the two reserved values of a
/// `bit_length`-bit field, or lies beyond them. The reading is the unsigned
/// one that [`extract_field_value`] gives.
///
/// Fields of 0 or 1 bits have no other values, so everything is reserved
/// there; with more than 64 bits no `u64` reaches the reserved values.
pub fn is_not_available(reading: u64, bit_length: u8) -> (absent: bool)
    ensures
        absent == spec_is_not_available(reading, bit_length),
{
    proof {
        lemma2_to64();
    }
    if bit_length < 2 {
        assert(pow2(bit_length as nat) <= 2);
        true
    } else if bit_length < 64 {
        let shift = bit_length as u64;
        proof {
            lemma_pow2_strictly_increases(1, shift as nat);
            lemma_pow2_strictly_increases(shift as nat, 64);
            lemma_u64_shl_is_mul(1, shift);
        }
        reading > (1u64 << shift) - 3
    } else if bit_length == 64 {
        reading > u64::MAX - 2
    } else {
        proof {
            lemma_pow2_unfold(65);
            if bit_length > 65 {
                lemma_pow2_strictly_increases(65, bit_length as nat);
            }
        }
        false
    }
}

/// Apply scale and offset to a raw value.
///
/// The raw value is the number that a reading stands for, negative or not.
/// The result is the exact fraction `raw_value * scale + offset`, over the
/// product of the two denominators; it is not reduced.
pub fn physical_value(raw_value: i64, scale: Ratio, offset: Ratio) -> (value: Quantity)
    ensures
        value == spec_physical_value(raw_value, scale, offset),
        value.num == physical_numerator(raw_value, scale, offset),
        value.den == physical_denominator(scale, offset),
{
    proof {
        lemma_physical_value_steps(
            raw_value as int,
            scale.num as int,
            scale.den as int,
            offset.num as int,
            offset.den as int,
        );
    }
    let scaled: i128 = (raw_value as i128) * (scale.num as i128);
    let shifted: i128 = (offset.num as i128) * (scale.den as i128);
    let num: i128 = scaled * (offset.den as i128) + shifted;
    let den: u64 = (scale.den as u64) * (offset.den as u64);
    Quantity { num, den }
}

/// Decode a single SPN from CAN data bytes.
///
/// Returns `None` if the data is too short or the value indicates "not available".
pub fn decode_spn(data: &[u8], spn_def: &SpnDef) -> (value: Option<Quantity>)
    ensures
        value == spec_decode_spn(data@, *spn_def),
        too_short(data@, *spn_def) ==> value is None,
{
    match decode_spn_full(data, spn_def) {
        Some(decoded) => Some(decoded.value),
        None => None,
    }
}

/// Decode a single SPN and return full decoded information.
///
/// Returns `None` if the data is too short or the value indicates "not
/// available": the field's reading is one of its two highest values. A
/// negative reading of a signed field is a value like any other.
pub fn decode_spn_full(data: &[u8], spn_def: &SpnDef) -> (decoded: Option<DecodedSpn>)
    ensures
        decoded == spec_decode_spn_full(data@, *spn_def),
        too_short(data@, *spn_def) ==> decoded is None,
{
    let reading = match extract_field_value(data, spn_def) {
        Some(reading) => reading,
        None => {
            return None;
        },
    };

    // Check for "not available" values
    if is_not_available(reading, spn_def.bit_length) {
        return None;
    }
    let number = to_signed(reading, spn_def);
    let value = physical_value(number, spn_def.scale, spn_def.offset);

    Some(
        DecodedSpn {
            spn: spn_def.spn,
            name: spn_def.name,
            value,
            unit: spn_def.unit,
            raw_value: widen(number),
        },
    )
}

/// Decode every definition of a list from one payload.
///
/// Definitions whose value is absent are left out; the others keep the
/// order of the list.
pub fn decode_spns(data: &[u8], spn_defs: &[SpnDef]) -> (decoded: Vec<DecodedSpn>)
    ensures
        decoded@ == spec_decode_spns(data@, spn_defs@),
{
    let mut results: Vec<DecodedSpn> = Vec::with_capacity(spn_defs.len());
    let mut i: usize = 0;
    while i < spn_defs.len()
        invariant
            i <= spn_defs@.len(),
            results@ == spec_decode_spns(data@, spn_defs@.take(i as int)),
        decreases spn_defs@.len() - i,
    {
        proof {
            let next = spn_defs@.take(i + 1);
            assert(next.drop_last() =~= spn_defs@.take(i as int));
            assert(next.last() == spn_defs@[i as int]);
        }
        if let Some(decoded) = decode_spn_full(data, &spn_defs[i]) {
            results.push(decoded);
        }
        i += 1;
    }
    assert(spn_defs@.take(i as int) =~= spn_defs@);
    results
}

/// What decoding a frame gives: the decoded values of the catalog's SPNs for
/// the PGN that the identifier carries, in catalog order. A PGN that the
/// catalog does not know has no SPNs and gives the empty list.
pub open spec fn spec_decode_frame(can_id: u32, data: Seq<u8>) -> Seq<DecodedSpn> {
    spec_decode_spns(data, spns_of_pgn(catalog(), pgn_of(can_id) as u32))
}

/// What decoding an SPN by its number gives: the physical value under the
/// catalog's definition of the SPN, or nothing if the catalog has none.
pub open spec fn spec_decode_spn_by_number(spn: u32, data: Seq<u8>) -> Option<Quantity> {
    match spec_get_spn_def(spn) {
        Some(spn_def) => spec_decode_spn(data, spn_def),
        None => None,
    }
}

/// Every record in a decoded frame was decoded under the catalog's
/// definition of its SPN, which belongs to the frame's PGN; its value is the
/// value that decoding the SPN by number gives from the same payload.
pub proof fn lemma_frame_values_agree_with_lookup(can_id: u32, data: Seq<u8>, i: int)
    requires
        0 <= i < spec_decode_frame(can_id, data).len(),
    ensures
        ({
            let decoded = spec_decode_frame(can_id, data)[i];
            &&& spec_decode_spn_by_number(decoded.spn, data) == Some(decoded.value)
            &&& spec_get_spn_def(decoded.spn) matches Some(spn_def) && spn_def.pgn == pgn_of(can_id)
                && spec_decode_spn_full(data, spn_def) == Some(decoded)
        }),
{
    let pgn = pgn_of(can_id) as u32;
    let in_pgn = |spn_def: SpnDef| spn_def.pgn == pgn;
    let decode = |spn_def: SpnDef| spec_decode_spn_full(data, spn_def);
    let spn_defs = catalog().filter(in_pgn);
    let decoded = spn_defs.filter_map(decode)[i];
    assert(spn_defs.filter_map(decode).contains(decoded));
    spn_defs.lemma_filter_map_contains(decode, decoded);
    let spn_def = choose|spn_def: SpnDef| #[trigger]
        spn_defs.contains(spn_def) && decode(spn_def) == Some(decoded);
    catalog().lemma_filter_contains_rev(in_pgn, spn_def);
    let k = choose|k: int| 0 <= k < spn_defs.len() && spn_defs[k] == spn_def;
    catalog().lemma_filter_pred(in_pgn, k);
    let at = choose|at: int| 0 <= at < catalog().len() && catalog()[at] == spn_def;
    lemma_catalog_entry_is_found(at);
}

/// Decode all known SPNs from a CAN frame.
///
/// # Arguments
///
/// * `can_id` - The 29-bit extended CAN ID
/// * `data` - The CAN frame data (up to 8 bytes)
///
/// # Returns
///
/// A vector of decoded SPNs, in catalog order. SPNs whose value is absent
/// are left out. Empty if PGN is not recognized.
///
/// The SPNs of the PGN are found by walking the catalog. To decode many
/// frames, build an [`SpnDatabase`] once and call its `decode_frame`.
pub fn decode_frame(can_id: u32, data: &[u8]) -> (decoded: Vec<DecodedSpn>)
    ensures
        decoded@ == spec_decode_frame(can_id, data@),
        spec_get_spns_for_pgn(pgn_of(can_id) as u32) is None ==> decoded@.len() == 0,
{
    let pgn = extract_pgn(can_id);

    let spn_defs = match get_spns_for_pgn(pgn) {
        Some(spn_defs) => spn_defs,
        None => {
            return Vec::new();
        },
    };

    decode_spns(data, spn_defs.as_slice())
}

/// Decode a specific SPN by number from a CAN frame.
///
/// # Arguments
///
/// * `spn` - The SPN number to decode
/// * `data` - The CAN frame data
///
/// # Returns
///
/// The decoded value, or `None` if the SPN is not found, the data is too
/// short or the value indicates "not available".
pub fn decode_spn_by_number(spn: u32, data: &[u8]) -> (value: Option<Quantity>)
    ensures
        value == spec_decode_spn_by_number(spn, data@),
        spec_get_spn_def(spn) is None ==> value is None,
{
    match get_spn_def(spn) {
        Some(spn_def) => decode_spn(data, &spn_def),
        None => None,
    }
}

impl SpnDatabase {
    /// Decode all known SPNs from a CAN frame.
    ///
    /// Returns what [`decode_frame`] returns; the SPNs of the frame's PGN
    /// are found in the index.
    pub fn decode_frame(&self, can_id: u32, data: &[u8]) -> (decoded: Vec<DecodedSpn>)
        ensures
            decoded@ == spec_decode_frame(can_id, data@),
            spec_get_spns_for_pgn(pgn_of(can_id) as u32) is None ==> decoded@.len() == 0,
    {
        let pgn = extract_pgn(can_id);
        match self.get_spns_for_pgn(pgn) {
            Some(spn_defs) => decode_spns(data, spn_defs.as_slice()),
            None => Vec::new(),
        }
    }

    /// Decode a specific SPN by number from a CAN frame.
    ///
    /// Returns what [`decode_spn_by_number`] returns; the definition is
    /// found in the index.
    pub fn decode_spn_by_number(&self, spn: u32, data: &[u8]) -> (value: Option<Quantity>)
        ensures
            value == spec_decode_spn_by_number(spn, data@),
            spec_get_spn_def(spn) is None ==> value is None,
    {
        match self.get_spn_def(spn) {
            Some(spn_def) => decode_spn(data, spn_def),
            None => None,
        }
    }
}

/// Get the source address from a CAN ID.
pub fn get_source_address(can_id: u32) -> (source_address: u8)
    ensures
        source_address == source_address_of(can_id),
{
    extract_source_address(can_id)
}

} // verus!
