//! RGB colors for the host presentation layer, and parsing them from hex
//! notation.

use vstd::prelude::*;

verus! {

#[derive(Debug, Clone, Copy, PartialEq, Eq, Structural)]
pub struct Color {
    pub r: u8,
    pub g: u8,
    pub b: u8,
}

/// Whether an ASCII byte is a hexadecimal digit.
pub open spec fn spec_is_hex_digit(b: u8) -> bool {
    (0x30 <= b <= 0x39) || (0x41 <= b <= 0x46) || (0x61 <= b <= 0x66)
}

/// The value of a hexadecimal digit byte.
pub open spec fn spec_hex_digit_val(b: u8) -> u32 {
    if 0x30 <= b <= 0x39 {
        (b - 0x30) as u32
    } else if 0x41 <= b <= 0x46 {
        (b - 0x41 + 10) as u32
    } else if 0x61 <= b <= 0x66 {
        (b - 0x61 + 10) as u32
    } else {
        0
    }
}

/// The value of the first `n` characters of a hex string, most significant
/// digit first.
pub open spec fn spec_hex_value(s: Seq<char>, n: nat) -> u64
    decreases n,
{
    if n == 0 {
        0
    } else {
        ((spec_hex_value(s, (n - 1) as nat) * 16 + spec_hex_digit_val(s[n - 1] as u8))
            % 0x1_0000_0000_0000_0000) as u64
    }
}

/// Sixteen to the power `n`, for the digit counts a 32-bit value admits.
pub open spec fn spec_pow16(n: nat) -> u64 {
    if n == 0 {
        1
    } else if n == 1 {
        0x10
    } else if n == 2 {
        0x100
    } else if n == 3 {
        0x1000
    } else if n == 4 {
        0x1_0000
    } else if n == 5 {
        0x10_0000
    } else if n == 6 {
        0x100_0000
    } else if n == 7 {
        0x1000_0000
    } else {
        0x1_0000_0000
    }
}

impl Color {
    pub fn new(r: u8, g: u8, b: u8) -> (c: Color)
        ensures
            c == (Color { r, g, b }),
    {
        Color { r, g, b }
    }

    /// Splits a packed `$00RRGGBB` value into its channels.
    pub fn from_hex(hex: u32) -> (c: Color)
        ensures
            c.r == (hex >> 16) & 0xFF,
            c.g == (hex >> 8) & 0xFF,
            c.b == hex & 0xFF,
    {
        proof {
            let x = hex;
            assert(((x >> 16) & 0xFF) < 0x100 && ((x >> 8) & 0xFF) < 0x100 && (x & 0xFF) < 0x100)
                by (bit_vector);
        }
        Color { r: ((hex >> 16) & 0xFF) as u8, g: ((hex >> 8) & 0xFF) as u8, b: (hex & 0xFF) as u8 }
    }

    /// Parses an RGB color from hex notation: up to eight hex digits, most
    /// significant first, as `u32::from_str_radix` would read them.
    pub fn from_hex_string(hex: &str) -> (c: Color)
        requires
            hex.is_ascii(),
            1 <= hex@.len() <= 8,
            forall|i: int| 0 <= i < hex@.len() ==> spec_is_hex_digit(hex@[i] as u8),
        ensures
            ({
                let v = spec_hex_value(hex@, hex@.len()) as u32;
                c.r == (v >> 16) & 0xFF && c.g == (v >> 8) & 0xFF && c.b == v & 0xFF
            }),
    {
        let n = hex.unicode_len();
        let mut acc: u64 = 0;
        let mut i: usize = 0;
        while i < n
            invariant
                hex.is_ascii(),
                1 <= n <= 8,
                n == hex@.len(),
                i <= n,
                forall|j: int| 0 <= j < hex@.len() ==> spec_is_hex_digit(hex@[j] as u8),
                acc == spec_hex_value(hex@, i as nat),
                acc < spec_pow16(i as nat),
            decreases n - i,
        {
            let b = hex.get_ascii(i);
            let d: u64 = if b >= 0x61 {
                (b - 0x61 + 10) as u64
            } else if b >= 0x41 {
                (b - 0x41 + 10) as u64
            } else {
                (b - 0x30) as u64
            };
            acc = acc * 16 + d;
            i += 1;
        }
        proof {
            assert(acc < 0x1_0000_0000);
        }
        Color::from_hex(acc as u32)
    }
}

} // verus!
