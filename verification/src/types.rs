use vstd::prelude::*;

verus! {

// Type codes of the q data model. A vector of type `t` holds atoms of type `-t`.

/// Boolean.
pub const KB: i8 = 1;
/// GUID.
pub const UU: i8 = 2;
/// Byte.
pub const KG: i8 = 4;
/// Short.
pub const KH: i8 = 5;
/// Int.
pub const KI: i8 = 6;
/// Long.
pub const KJ: i8 = 7;
/// Real.
pub const KE: i8 = 8;
/// Float.
pub const KF: i8 = 9;
/// Char.
pub const KC: i8 = 10;
/// Symbol.
pub const KS: i8 = 11;
/// Timestamp.
pub const KP: i8 = 12;
/// Month.
pub const KM: i8 = 13;
/// Date.
pub const KD: i8 = 14;
/// Datetime.
pub const KZ: i8 = 15;
/// Timespan.
pub const KN: i8 = 16;
/// Minute.
pub const KU: i8 = 17;
/// Second.
pub const KV: i8 = 18;
/// Time.
pub const KT: i8 = 19;
/// Table.
pub const XT: i8 = 98;
/// Dictionary.
pub const XD: i8 = 99;

// Null values.

/// Short null.
pub const NH: i16 = -32768i16;
/// Int null.
pub const NI: i32 = -2147483648i32;
/// Long null.
pub const NJ: i64 = -9223372036854775808i64;
/// Char null (a blank).
pub const NC: u8 = 32u8;
/// Bit pattern of the real null (the quiet NaN of `f32`).
pub const NE_BITS: u32 = 0x7fc0_0000u32;
/// Bit pattern of the float null (the quiet NaN of `f64`).
pub const NF_BITS: u64 = 0x7ff8_0000_0000_0000u64;

// Infinities.

/// Short infinity.
pub const WH: i16 = 32767i16;
/// Int infinity.
pub const WI: i32 = 2147483647i32;
/// Long infinity.
pub const WJ: i64 = 9223372036854775807i64;
/// Bit pattern of the real infinity (positive infinity of `f32`).
pub const WE_BITS: u32 = 0x7f80_0000u32;
/// Bit pattern of the float infinity (positive infinity of `f64`).
pub const WF_BITS: u64 = 0x7ff0_0000_0000_0000u64;

/// A GUID: sixteen bytes.
#[derive(Copy, Clone, Debug)]
pub struct U {
    pub g: [u8; 16],
}

/// The list part of an object header: the element count, followed in memory
/// by the elements themselves.
#[derive(Copy, Clone, Debug)]
pub struct k0_list {
    pub n: i64,
    pub G0: [u8; 0],
}

/// Width in bytes of the address of a symbol (an interned C string).
pub open spec fn spec_symbol_width() -> nat {
    (usize::BITS / 8) as nat
}

/// Width in bytes of one element of a simple vector of type `t`.
pub open spec fn spec_elem_size(t: i8) -> nat {
    if t == 1 || t == 4 || t == 10 {
        1
    } else if t == 2 {
        16
    } else if t == 5 {
        2
    } else if t == 6 || t == 8 || t == 13 || t == 14 || t == 17 || t == 18 || t == 19 {
        4
    } else if t == 7 || t == 9 || t == 12 || t == 15 || t == 16 {
        8
    } else if t == 11 {
        spec_symbol_width()
    } else {
        1
    }
}

/// Width in bytes of one element of a simple vector of type `t`; types without
/// a listed width count one byte per element.
pub fn elem_size(t: i8) -> (w: usize)
    ensures
        w == spec_elem_size(t),
        1 <= w <= 16,
{
    match t {
        1 | 4 | 10 => 1,
        2 => 16,
        5 => 2,
        6 | 8 | 13 | 14 | 17 | 18 | 19 => 4,
        7 | 9 | 12 | 15 | 16 => 8,
        11 => {
            assert(usize::BITS == 32 || usize::BITS == 64);
            (usize::BITS / 8) as usize
        },
        _ => 1,
    }
}

} // verus!
