use vstd::prelude::*;

verus! {

/// Code reported for a physical key that has no place on the keypad.
pub const NO_KEY: u8 = 0x99;

/// A key of the hexadecimal keypad, 0x0 to 0xF.
#[derive(Debug, Clone, Copy, PartialEq, Eq, Structural)]
pub struct Key(pub u8);

/// The keypad code of a keyboard character: the block 1-4, q-r, a-f, z-v of a
/// QWERTY keyboard stands for the keypad rows 1 2 3 C, 4 5 6 D, 7 8 9 E, A 0 B F.
pub open spec fn key_code(c: char) -> u8 {
    if c == '1' {
        0x1
    } else if c == '2' {
        0x2
    } else if c == '3' {
        0x3
    } else if c == '4' {
        0xC
    } else if c == 'q' {
        0x4
    } else if c == 'w' {
        0x5
    } else if c == 'e' {
        0x6
    } else if c == 'r' {
        0xD
    } else if c == 'a' {
        0x7
    } else if c == 's' {
        0x8
    } else if c == 'd' {
        0x9
    } else if c == 'f' {
        0xE
    } else if c == 'z' {
        0xA
    } else if c == 'x' {
        0x0
    } else if c == 'c' {
        0xB
    } else if c == 'v' {
        0xF
    } else {
        NO_KEY
    }
}

impl From<char> for Key {
    fn from(c: char) -> (k: Key)
        ensures
            k.0 == key_code(c),
    {
        match c {
            '1' => Key(0x1),
            '2' => Key(0x2),
            '3' => Key(0x3),
            '4' => Key(0xC),
            'q' => Key(0x4),
            'w' => Key(0x5),
            'e' => Key(0x6),
            'r' => Key(0xD),
            'a' => Key(0x7),
            's' => Key(0x8),
            'd' => Key(0x9),
            'f' => Key(0xE),
            'z' => Key(0xA),
            'x' => Key(0x0),
            'c' => Key(0xB),
            'v' => Key(0xF),
            _ => Key(NO_KEY),
        }
    }
}

impl vstd::std_specs::convert::FromSpecImpl<char> for Key {
    open spec fn obeys_from_spec() -> bool {
        true
    }

    open spec fn from_spec(c: char) -> Key {
        Key(key_code(c))
    }
}

} // verus!
