use vstd::prelude::*;

verus! {

/// A decoded instruction. `x` and `y` name registers (0x0 to 0xF), `kk` is an
/// immediate byte, `nnn` a 12-bit address and `n` a 4-bit row count.
#[derive(Debug, Clone, Copy, PartialEq, Eq, Structural)]
pub enum Instr {
    /// 00E0: clear the display.
    Cls,
    /// 00EE: return from a subroutine.
    Ret,
    /// 0nnn: jump to a machine routine, treated as a jump.
    Sys(u16),
    /// 1nnn: jump.
    Jp(u16),
    /// 2nnn: call a subroutine.
    Call(u16),
    /// 3xkk: skip if Vx == kk.
    SeByte(u8, u8),
    /// 4xkk: skip if Vx != kk.
    SneByte(u8, u8),
    /// 5xy0: skip if Vx == Vy.
    SeReg(u8, u8),
    /// 6xkk: Vx = kk.
    LdByte(u8, u8),
    /// 7xkk: Vx = Vx + kk, wrapping, flags untouched.
    AddByte(u8, u8),
    /// 8xy0: Vx = Vy.
    LdReg(u8, u8),
    /// 8xy1: Vx = Vx | Vy.
    Or(u8, u8),
    /// 8xy2: Vx = Vx & Vy.
    And(u8, u8),
    /// 8xy3: Vx = Vx ^ Vy.
    Xor(u8, u8),
    /// 8xy4: Vx = Vx + Vy, VF = carry.
    AddReg(u8, u8),
    /// 8xy5: Vx = Vx - Vy, VF = not borrow.
    Sub(u8, u8),
    /// 8xy6: Vx = Vx >> 1, VF = the bit shifted out.
    Shr(u8, u8),
    /// 8xy7: Vx = Vy - Vx, VF = not borrow.
    Subn(u8, u8),
    /// 8xyE: Vx = Vx << 1, VF = the bit shifted out.
    Shl(u8, u8),
    /// 9xy0: skip if Vx != Vy.
    SneReg(u8, u8),
    /// Annn: I = nnn.
    LdI(u16),
    /// Bnnn: jump to nnn + V0.
    JpV0(u16),
    /// Cxkk: Vx = random byte & kk.
    Rnd(u8, u8),
    /// Dxyn: draw the n-byte sprite at I at (Vx, Vy), VF = collision.
    Drw(u8, u8, u8),
    /// Ex9E: skip if the pending key is Vx, consuming the key.
    Skp(u8),
    /// ExA1: skip unless the pending key is Vx; a matching key is consumed.
    Sknp(u8),
    /// Fx07: Vx = delay timer.
    LdVxDt(u8),
    /// Fx0A: wait for a key, consume it and store it in Vx. Without a key the instruction
    /// jumps to itself, so the wait costs one cycle per try and never blocks.
    LdVxK(u8),
    /// Fx15: delay timer = Vx.
    LdDtVx(u8),
    /// Fx18: sound timer = Vx; there is no sound, so nothing happens.
    LdStVx(u8),
    /// Fx1E: I = I + Vx.
    AddI(u8),
    /// Fx29: I = address of the font glyph for Vx.
    LdF(u8),
    /// Fx33: store the decimal digits of Vx at I, I+1, I+2.
    LdB(u8),
    /// Fx55: store V0..=Vx at I onward.
    LdIVx(u8),
    /// Fx65: load V0..=Vx from I onward.
    LdVxI(u8),
}

/// The 12-bit address made of three nibbles.
pub open spec fn addr_of(n1: u8, n2: u8, n3: u8) -> u16 {
    (n1 as int * 256 + n2 as int * 16 + n3 as int) as u16
}

/// The byte made of two nibbles.
pub open spec fn byte_of(k1: u8, k2: u8) -> u8 {
    (k1 as int * 16 + k2 as int) as u8
}

/// Address `nnn` from its three nibbles.
pub fn addr(n1: u8, n2: u8, n3: u8) -> (r: u16)
    requires
        n1 < 16,
        n2 < 16,
        n3 < 16,
    ensures
        r == addr_of(n1, n2, n3),
        r < 0x1000,
{
    let a: u16 = n1 as u16;
    let b: u16 = n2 as u16;
    let hi: u16 = a << 8;
    let mid: u16 = b << 4;
    assert(hi == a * 256 && mid == b * 16) by (bit_vector)
        requires
            a < 16,
            b < 16,
            hi == a << 8u16,
            mid == b << 4u16,
    ;
    hi + mid + n3 as u16
}

/// Immediate byte `kk` from its two nibbles.
pub fn var(k1: u8, k2: u8) -> (r: u8)
    requires
        k1 < 16,
        k2 < 16,
    ensures
        r == byte_of(k1, k2),
{
    let hi: u8 = k1 << 4;
    assert(hi == k1 * 16) by (bit_vector)
        requires
            k1 < 16,
            hi == k1 << 4u8,
    ;
    hi + k2
}

/// The instruction that the four nibbles `o1 o2 o3 o4` encode, if any.
pub open spec fn decode_nibbles(o1: u8, o2: u8, o3: u8, o4: u8) -> Option<Instr> {
    if o1 == 0x0 && o2 == 0x0 && o3 == 0xE && o4 == 0x0 {
        Some(Instr::Cls)
    } else if o1 == 0x0 && o2 == 0x0 && o3 == 0xE && o4 == 0xE {
        Some(Instr::Ret)
    } else if o1 == 0x0 {
        Some(Instr::Sys(addr_of(o2, o3, o4)))
    } else if o1 == 0x1 {
        Some(Instr::Jp(addr_of(o2, o3, o4)))
    } else if o1 == 0x2 {
        Some(Instr::Call(addr_of(o2, o3, o4)))
    } else if o1 == 0x3 {
        Some(Instr::SeByte(o2, byte_of(o3, o4)))
    } else if o1 == 0x4 {
        Some(Instr::SneByte(o2, byte_of(o3, o4)))
    } else if o1 == 0x5 && o4 == 0x0 {
        Some(Instr::SeReg(o2, o3))
    } else if o1 == 0x6 {
        Some(Instr::LdByte(o2, byte_of(o3, o4)))
    } else if o1 == 0x7 {
        Some(Instr::AddByte(o2, byte_of(o3, o4)))
    } else if o1 == 0x8 {
        if o4 == 0x0 {
            Some(Instr::LdReg(o2, o3))
        } else if o4 == 0x1 {
            Some(Instr::Or(o2, o3))
        } else if o4 == 0x2 {
            Some(Instr::And(o2, o3))
        } else if o4 == 0x3 {
            Some(Instr::Xor(o2, o3))
        } else if o4 == 0x4 {
            Some(Instr::AddReg(o2, o3))
        } else if o4 == 0x5 {
            Some(Instr::Sub(o2, o3))
        } else if o4 == 0x6 {
            Some(Instr::Shr(o2, o3))
        } else if o4 == 0x7 {
            Some(Instr::Subn(o2, o3))
        } else if o4 == 0xE {
            Some(Instr::Shl(o2, o3))
        } else {
            None
        }
    } else if o1 == 0x9 && o4 == 0x0 {
        Some(Instr::SneReg(o2, o3))
    } else if o1 == 0xA {
        Some(Instr::LdI(addr_of(o2, o3, o4)))
    } else if o1 == 0xB {
        Some(Instr::JpV0(addr_of(o2, o3, o4)))
    } else if o1 == 0xC {
        Some(Instr::Rnd(o2, byte_of(o3, o4)))
    } else if o1 == 0xD {
        Some(Instr::Drw(o2, o3, o4))
    } else if o1 == 0xE && o3 == 0x9 && o4 == 0xE {
        Some(Instr::Skp(o2))
    } else if o1 == 0xE && o3 == 0xA && o4 == 0x1 {
        Some(Instr::Sknp(o2))
    } else if o1 == 0xF && o3 == 0x0 && o4 == 0x7 {
        Some(Instr::LdVxDt(o2))
    } else if o1 == 0xF && o3 == 0x0 && o4 == 0xA {
        Some(Instr::LdVxK(o2))
    } else if o1 == 0xF && o3 == 0x1 && o4 == 0x5 {
        Some(Instr::LdDtVx(o2))
    } else if o1 == 0xF && o3 == 0x1 && o4 == 0x8 {
        Some(Instr::LdStVx(o2))
    } else if o1 == 0xF && o3 == 0x1 && o4 == 0xE {
        Some(Instr::AddI(o2))
    } else if o1 == 0xF && o3 == 0x2 && o4 == 0x9 {
        Some(Instr::LdF(o2))
    } else if o1 == 0xF && o3 == 0x3 && o4 == 0x3 {
        Some(Instr::LdB(o2))
    } else if o1 == 0xF && o3 == 0x5 && o4 == 0x5 {
        Some(Instr::LdIVx(o2))
    } else if o1 == 0xF && o3 == 0x6 && o4 == 0x5 {
        Some(Instr::LdVxI(o2))
    } else {
        None
    }
}

/// The instruction encoded by the bytes `hi`, `lo` (big-endian), if any.
pub open spec fn decode_spec(hi: u8, lo: u8) -> Option<Instr> {
    decode_nibbles(hi / 16, hi % 16, lo / 16, lo % 16)
}

/// Register and row-count fields of an instruction are nibbles.
pub open spec fn fields_ok(ins: Instr) -> bool {
    match ins {
        Instr::Sys(a) | Instr::Jp(a) | Instr::Call(a) | Instr::LdI(a) | Instr::JpV0(a) => a < 0x1000,
        Instr::SeByte(x, _) | Instr::SneByte(x, _) | Instr::LdByte(x, _) | Instr::AddByte(x, _)
        | Instr::Rnd(x, _) => x < 16,
        Instr::SeReg(x, y) | Instr::LdReg(x, y) | Instr::Or(x, y) | Instr::And(x, y)
        | Instr::Xor(x, y) | Instr::AddReg(x, y) | Instr::Sub(x, y) | Instr::Shr(x, y)
        | Instr::Subn(x, y) | Instr::Shl(x, y) | Instr::SneReg(x, y) => x < 16 && y < 16,
        Instr::Drw(x, y, n) => x < 16 && y < 16 && n < 16,
        Instr::Skp(x) | Instr::Sknp(x) | Instr::LdVxDt(x) | Instr::LdVxK(x) | Instr::LdDtVx(x)
        | Instr::LdStVx(x) | Instr::AddI(x) | Instr::LdF(x) | Instr::LdB(x) | Instr::LdIVx(x)
        | Instr::LdVxI(x) => x < 16,
        _ => true,
    }
}

/// Decodes the two bytes of an instruction word.
pub fn decode(hi: u8, lo: u8) -> (r: Option<Instr>)
    ensures
        r == decode_spec(hi, lo),
        r matches Some(ins) ==> fields_ok(ins),
{
    let o1: u8 = hi >> 4;
    let o2: u8 = hi & 0xf;
    let o3: u8 = lo >> 4;
    let o4: u8 = lo & 0xf;
    assert(o1 == hi / 16 && o2 == hi % 16 && o3 == lo / 16 && o4 == lo % 16) by (bit_vector)
        requires
            o1 == hi >> 4u8,
            o2 == hi & 0xfu8,
            o3 == lo >> 4u8,
            o4 == lo & 0xfu8,
    ;
    match (o1, o2, o3, o4) {
        (0x0, 0x0, 0xE, 0x0) => Some(Instr::Cls),
        (0x0, 0x0, 0xE, 0xE) => Some(Instr::Ret),
        (0x0, n1, n2, n3) => Some(Instr::Sys(addr(n1, n2, n3))),
        (0x1, n1, n2, n3) => Some(Instr::Jp(addr(n1, n2, n3))),
        (0x2, n1, n2, n3) => Some(Instr::Call(addr(n1, n2, n3))),
        (0x3, x, k1, k2) => Some(Instr::SeByte(x, var(k1, k2))),
        (0x4, x, k1, k2) => Some(Instr::SneByte(x, var(k1, k2))),
        (0x5, x, y, 0x0) => Some(Instr::SeReg(x, y)),
        (0x6, x, k1, k2) => Some(Instr::LdByte(x, var(k1, k2))),
        (0x7, x, k1, k2) => Some(Instr::AddByte(x, var(k1, k2))),
        (0x8, x, y, 0x0) => Some(Instr::LdReg(x, y)),
        (0x8, x, y, 0x1) => Some(Instr::Or(x, y)),
        (0x8, x, y, 0x2) => Some(Instr::And(x, y)),
        (0x8, x, y, 0x3) => Some(Instr::Xor(x, y)),
        (0x8, x, y, 0x4) => Some(Instr::AddReg(x, y)),
        (0x8, x, y, 0x5) => Some(Instr::Sub(x, y)),
        (0x8, x, y, 0x6) => Some(Instr::Shr(x, y)),
        (0x8, x, y, 0x7) => Some(Instr::Subn(x, y)),
        (0x8, x, y, 0xE) => Some(Instr::Shl(x, y)),
        (0x9, x, y, 0x0) => Some(Instr::SneReg(x, y)),
        (0xA, n1, n2, n3) => Some(Instr::LdI(addr(n1, n2, n3))),
        (0xB, n1, n2, n3) => Some(Instr::JpV0(addr(n1, n2, n3))),
        (0xC, x, k1, k2) => Some(Instr::Rnd(x, var(k1, k2))),
        (0xD, x, y, n) => Some(Instr::Drw(x, y, n)),
        (0xE, x, 0x9, 0xE) => Some(Instr::Skp(x)),
        (0xE, x, 0xA, 0x1) => Some(Instr::Sknp(x)),
        (0xF, x, 0x0, 0x7) => Some(Instr::LdVxDt(x)),
        (0xF, x, 0x0, 0xA) => Some(Instr::LdVxK(x)),
        (0xF, x, 0x1, 0x5) => Some(Instr::LdDtVx(x)),
        (0xF, x, 0x1, 0x8) => Some(Instr::LdStVx(x)),
        (0xF, x, 0x1, 0xE) => Some(Instr::AddI(x)),
        (0xF, x, 0x2, 0x9) => Some(Instr::LdF(x)),
        (0xF, x, 0x3, 0x3) => Some(Instr::LdB(x)),
        (0xF, x, 0x5, 0x5) => Some(Instr::LdIVx(x)),
        (0xF, x, 0x6, 0x5) => Some(Instr::LdVxI(x)),
        _ => None,
    }
}

} // verus!
