//! Byte-order aware views of wire fields.
//!
//! Multi-byte fields are kept exactly as they travel: one `u8` per wire byte,
//! most significant first. Their numeric value is therefore the same on every
//! host, whatever its own byte order.

use vstd::prelude::*;

verus! {

/// The number whose two wire bytes are `hi` then `lo`.
pub open spec fn spec_u16_from_wire(hi: u8, lo: u8) -> u16 {
    (hi as u16 * 256 + lo as u16) as u16
}

/// The number whose four wire bytes are `b0`, `b1`, `b2`, `b3`.
pub open spec fn spec_u32_from_wire(b0: u8, b1: u8, b2: u8, b3: u8) -> u32 {
    (b0 as u32 * 16777216 + b1 as u32 * 65536 + b2 as u32 * 256 + b3 as u32) as u32
}

/// Joins two wire bytes into the number they encode.
pub fn u16_from_wire(hi: u8, lo: u8) -> (r: u16)
    ensures
        r == spec_u16_from_wire(hi, lo),
        r / 256 == hi,
        r % 256 == lo,
{
    let h: u16 = hi as u16;
    let l: u16 = lo as u16;
    h * 256 + l
}

/// Joins four wire bytes into the number they encode.
pub fn u32_from_wire(b0: u8, b1: u8, b2: u8, b3: u8) -> (r: u32)
    ensures
        r == spec_u32_from_wire(b0, b1, b2, b3),
        r / 16777216 == b0,
        (r / 65536) % 256 == b1,
        (r / 256) % 256 == b2,
        r % 256 == b3,
{
    proof {
        lemma_split_u32(b0 as int, b1 as int, b2 as int, b3 as int);
    }
    let x0: u32 = b0 as u32;
    let x1: u32 = b1 as u32;
    let x2: u32 = b2 as u32;
    let x3: u32 = b3 as u32;
    x0 * 16777216 + x1 * 65536 + x2 * 256 + x3
}

/// The four base-256 digits of a number are recovered by division.
pub proof fn lemma_split_u32(b0: int, b1: int, b2: int, b3: int)
    requires
        0 <= b0 < 256,
        0 <= b1 < 256,
        0 <= b2 < 256,
        0 <= b3 < 256,
    ensures
        0 <= b0 * 16777216 + b1 * 65536 + b2 * 256 + b3 < 4294967296,
        (b0 * 16777216 + b1 * 65536 + b2 * 256 + b3) / 16777216 == b0,
        ((b0 * 16777216 + b1 * 65536 + b2 * 256 + b3) / 65536) % 256 == b1,
        ((b0 * 16777216 + b1 * 65536 + b2 * 256 + b3) / 256) % 256 == b2,
        (b0 * 16777216 + b1 * 65536 + b2 * 256 + b3) % 256 == b3,
{
    let v = b0 * 16777216 + b1 * 65536 + b2 * 256 + b3;
    assert(v / 16777216 == b0);
    assert(v / 65536 == b0 * 256 + b1);
    assert(v / 256 == b0 * 65536 + b1 * 256 + b2);
}


/// Joins two 16-bit halves into one number, `hi` most significant.
pub fn u32_from_halves(hi: u16, lo: u16) -> (r: u32)
    ensures
        r == hi as int * 65536 + lo as int,
        r / 65536 == hi,
        r % 65536 == lo,
{
    let h: u32 = hi as u32;
    let l: u32 = lo as u32;
    h * 65536 + l
}

/// Splits a number into its 16-bit halves, most significant first.
pub fn u32_halves(v: u32) -> (r: (u16, u16))
    ensures
        r.0 == v / 65536,
        r.1 == v % 65536,
        v == r.0 as int * 65536 + r.1 as int,
{
    ((v / 65536) as u16, (v % 65536) as u16)
}

/// A single byte that prints as two hexadecimal digits.
#[derive(Clone, Copy, Debug, Default, PartialEq, Eq, Structural, Hash)]
pub struct Hex8(pub u8);

impl Hex8 {
    /// The digit, `0..16`, as a lower-case hexadecimal character.
    pub open spec fn spec_digit(d: u8) -> char
        recommends
            d < 16,
    {
        if d < 10 {
            ((48 + d) as u8) as char
        } else {
            ((87 + d) as u8) as char
        }
    }

    fn digit(d: u8) -> (c: char)
        requires
            d < 16,
        ensures
            c == Self::spec_digit(d),
    {
        if d < 10 {
            (48 + d) as char
        } else {
            (87 + d) as char
        }
    }

    /// The two lower-case hexadecimal digits of the byte, as bytes.
    pub open spec fn spec_hex_bytes(self) -> (u8, u8) {
        (Self::spec_digit(self.0 / 16) as u8, Self::spec_digit(self.0 % 16) as u8)
    }

    /// The two lower-case hexadecimal digits of the byte, as bytes.
    pub fn to_hex_bytes(&self) -> (r: (u8, u8))
        ensures
            r == self.spec_hex_bytes(),
            spec_hex_byte(r.0, r.1) == Some(self.0),
    {
        let hi: u8 = self.0 / 16;
        let lo: u8 = self.0 % 16;
        let a: u8 = if hi < 10 {
            48 + hi
        } else {
            87 + hi
        };
        let b: u8 = if lo < 10 {
            48 + lo
        } else {
            87 + lo
        };
        (a, b)
    }

    /// The two lower-case hexadecimal digits of the byte.
    pub fn to_hex(&self) -> (r: (char, char))
        ensures
            r.0 == Self::spec_digit(self.0 / 16),
            r.1 == Self::spec_digit(self.0 % 16),
    {
        (Self::digit(self.0 / 16), Self::digit(self.0 % 16))
    }
}

/// The value of the hexadecimal digit `c`, if it is one.
pub open spec fn spec_hex_val(c: u8) -> Option<u8> {
    if 48 <= c <= 57 {
        Some((c - 48) as u8)
    } else if 97 <= c <= 102 {
        Some((c - 87) as u8)
    } else if 65 <= c <= 70 {
        Some((c - 55) as u8)
    } else {
        None
    }
}

/// The byte that the two hexadecimal digits `hi` and `lo` spell, if both
/// are digits.
pub open spec fn spec_hex_byte(hi: u8, lo: u8) -> Option<u8> {
    match (spec_hex_val(hi), spec_hex_val(lo)) {
        (Some(h), Some(l)) => Some((h * 16 + l) as u8),
        _ => None,
    }
}

/// Reads one hexadecimal digit, in either case.
pub fn hex_val(c: u8) -> (r: Option<u8>)
    ensures
        r == spec_hex_val(c),
        r matches Some(v) ==> v < 16,
{
    if 48 <= c && c <= 57 {
        Some(c - 48)
    } else if 97 <= c && c <= 102 {
        Some(c - 87)
    } else if 65 <= c && c <= 70 {
        Some(c - 55)
    } else {
        None
    }
}

/// Reads the byte that two hexadecimal digits spell.
pub fn hex_byte(hi: u8, lo: u8) -> (r: Option<u8>)
    ensures
        r == spec_hex_byte(hi, lo),
{
    match (hex_val(hi), hex_val(lo)) {
        (Some(h), Some(l)) => Some(h * 16 + l),
        _ => None,
    }
}

/// A 16-bit quantity kept as its two wire bytes, most significant first.
#[derive(Clone, Copy, Debug, Default, PartialEq, Eq, Structural, Hash)]
pub struct U16N(pub u8, pub u8);

impl U16N {
    /// The number this field stands for.
    pub open spec fn value(self) -> u16 {
        spec_u16_from_wire(self.0, self.1)
    }

    /// Stores `v` most significant byte first.
    pub fn from_native(v: u16) -> (r: Self)
        ensures
            r.value() == v,
            r.0 == v / 256,
            r.1 == v % 256,
    {
        U16N((v / 256) as u8, (v % 256) as u8)
    }

    /// Reads the field back as a number.
    pub fn native(&self) -> (r: u16)
        ensures
            r == self.value(),
    {
        u16_from_wire(self.0, self.1)
    }
}

/// Encoding a number and reading it back gives the number; reading a field
/// and encoding the result gives the field.
pub proof fn lemma_u16n_round_trip(v: u16, f: U16N)
    ensures
        U16N((v / 256) as u8, (v % 256) as u8).value() == v,
        U16N((f.value() / 256) as u8, (f.value() % 256) as u8) == f,
{
}

} // verus!
