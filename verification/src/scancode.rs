//! Scancodes of keyboard set 1, as far as the early console needs them.

use vstd::prelude::*;

verus! {

/// What a scancode stands for.
#[derive(Copy, Clone, Debug, PartialEq, Eq, Structural)]
pub enum DecodedKey {
    Ascii(u8),
    Enter,
    Backspace,
    /// A key release, or a key that is not handled.
    Nothing,
}

/// The ASCII code of the character on the key with make code `sc`,
/// without shift, or zero where the key has none: the digits 1 to 9 and 0,
/// minus and equals, the three rows of letters, space and the punctuation
/// keys.
pub open spec fn plain_char(sc: u8) -> u8 {
    if sc == 0x39 {
        0x20
    } else if 0x02 <= sc <= 0x0A {
        (0x31 + (sc - 0x02)) as u8
    } else if sc == 0x0B {
        0x30
    } else if sc == 0x0C {
        0x2D
    } else if sc == 0x0D {
        0x3D
    } else if 0x10 <= sc <= 0x19 {
        top_row(sc - 0x10)
    } else if 0x1E <= sc <= 0x26 {
        home_row(sc - 0x1E)
    } else if 0x2C <= sc <= 0x32 {
        bottom_row(sc - 0x2C)
    } else if sc == 0x1A {
        0x5B
    } else if sc == 0x1B {
        0x5D
    } else if sc == 0x27 {
        0x3B
    } else if sc == 0x28 {
        0x27
    } else if sc == 0x29 {
        0x60
    } else if sc == 0x2B {
        0x5C
    } else if sc == 0x33 {
        0x2C
    } else if sc == 0x34 {
        0x2E
    } else if sc == 0x35 {
        0x2F
    } else {
        0
    }
}

/// The letters of the top row, left to right.
pub open spec fn top_row(i: int) -> u8 {
    seq![0x71u8, 0x77u8, 0x65u8, 0x72u8, 0x74u8, 0x79u8, 0x75u8, 0x69u8, 0x6Fu8, 0x70u8][i]
}

/// The letters of the home row, left to right.
pub open spec fn home_row(i: int) -> u8 {
    seq![0x61u8, 0x73u8, 0x64u8, 0x66u8, 0x67u8, 0x68u8, 0x6Au8, 0x6Bu8, 0x6Cu8][i]
}

/// The letters of the bottom row, left to right.
pub open spec fn bottom_row(i: int) -> u8 {
    seq![0x7Au8, 0x78u8, 0x63u8, 0x76u8, 0x62u8, 0x6Eu8, 0x6Du8][i]
}

/// What scancode `sc` stands for: nothing for a release (bit 7 set),
/// Enter and Backspace for their keys, the character of the key where it
/// has one, and nothing otherwise.
pub open spec fn decoded(sc: u8) -> DecodedKey {
    if sc >= 0x80 {
        DecodedKey::Nothing
    } else if sc == 0x1C {
        DecodedKey::Enter
    } else if sc == 0x0E {
        DecodedKey::Backspace
    } else if plain_char(sc) != 0 {
        DecodedKey::Ascii(plain_char(sc))
    } else {
        DecodedKey::Nothing
    }
}

/// Translates a make code of set 1. Releases and modifiers are ignored.
pub fn decode_scancode(sc: u8) -> (r: DecodedKey)
    ensures
        r == decoded(sc),
{
    assert(sc & 0x80 != 0 <==> sc >= 0x80) by (bit_vector);
    if sc & 0x80 != 0 {
        return DecodedKey::Nothing;
    }
    match sc {
        0x1C => DecodedKey::Enter,
        0x0E => DecodedKey::Backspace,
        0x39 => DecodedKey::Ascii(0x20),
        0x02 => DecodedKey::Ascii(0x31),
        0x03 => DecodedKey::Ascii(0x32),
        0x04 => DecodedKey::Ascii(0x33),
        0x05 => DecodedKey::Ascii(0x34),
        0x06 => DecodedKey::Ascii(0x35),
        0x07 => DecodedKey::Ascii(0x36),
        0x08 => DecodedKey::Ascii(0x37),
        0x09 => DecodedKey::Ascii(0x38),
        0x0A => DecodedKey::Ascii(0x39),
        0x0B => DecodedKey::Ascii(0x30),
        0x0C => DecodedKey::Ascii(0x2D),
        0x0D => DecodedKey::Ascii(0x3D),
        0x10 => DecodedKey::Ascii(0x71),
        0x11 => DecodedKey::Ascii(0x77),
        0x12 => DecodedKey::Ascii(0x65),
        0x13 => DecodedKey::Ascii(0x72),
        0x14 => DecodedKey::Ascii(0x74),
        0x15 => DecodedKey::Ascii(0x79),
        0x16 => DecodedKey::Ascii(0x75),
        0x17 => DecodedKey::Ascii(0x69),
        0x18 => DecodedKey::Ascii(0x6F),
        0x19 => DecodedKey::Ascii(0x70),
        0x1E => DecodedKey::Ascii(0x61),
        0x1F => DecodedKey::Ascii(0x73),
        0x20 => DecodedKey::Ascii(0x64),
        0x21 => DecodedKey::Ascii(0x66),
        0x22 => DecodedKey::Ascii(0x67),
        0x23 => DecodedKey::Ascii(0x68),
        0x24 => DecodedKey::Ascii(0x6A),
        0x25 => DecodedKey::Ascii(0x6B),
        0x26 => DecodedKey::Ascii(0x6C),
        0x2C => DecodedKey::Ascii(0x7A),
        0x2D => DecodedKey::Ascii(0x78),
        0x2E => DecodedKey::Ascii(0x63),
        0x2F => DecodedKey::Ascii(0x76),
        0x30 => DecodedKey::Ascii(0x62),
        0x31 => DecodedKey::Ascii(0x6E),
        0x32 => DecodedKey::Ascii(0x6D),
        0x1A => DecodedKey::Ascii(0x5B),
        0x1B => DecodedKey::Ascii(0x5D),
        0x27 => DecodedKey::Ascii(0x3B),
        0x28 => DecodedKey::Ascii(0x27),
        0x29 => DecodedKey::Ascii(0x60),
        0x2B => DecodedKey::Ascii(0x5C),
        0x33 => DecodedKey::Ascii(0x2C),
        0x34 => DecodedKey::Ascii(0x2E),
        0x35 => DecodedKey::Ascii(0x2F),
        _ => DecodedKey::Nothing,
    }
}

} // verus!
