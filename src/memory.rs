use vstd::prelude::*;

use crate::error::Error;

verus! {

/// Number of bytes of emulated memory.
pub const MEM_SIZE: usize = 0xFFF;

/// Address at which programs are loaded.
pub const PROGRAM_START: usize = 0x200;

/// Number of bytes a program may occupy.
pub const PROGRAM_CAPACITY: usize = 0xDFF;

/// Number of bytes in one font glyph.
pub const GLYPH_SIZE: usize = 5;

/// Address of the glyph that draws the hexadecimal digit `d`.
pub open spec fn glyph_addr(d: int) -> int {
    d * 5
}

/// The built-in font: sixteen glyphs of five rows, digits 0 to F.
pub open spec fn font() -> Seq<u8> {
    seq![
        0xF0u8, 0x90, 0x90, 0x90, 0xF0,
        0x20, 0x60, 0x20, 0x20, 0x70,
        0xF0, 0x10, 0xF0, 0x80, 0xF0,
        0xF0, 0x10, 0xF0, 0x10, 0xF0,
        0x90, 0x90, 0xF0, 0x10, 0x10,
        0xF0, 0x80, 0xF0, 0x10, 0xF0,
        0xF0, 0x80, 0xF0, 0x90, 0xF0,
        0xF0, 0x10, 0x20, 0x40, 0x40,
        0xF0, 0x90, 0xF0, 0x90, 0xF0,
        0xF0, 0x90, 0xF0, 0x10, 0xF0,
        0xF0, 0x90, 0xF0, 0x90, 0x90,
        0xE0, 0x90, 0xE0, 0x90, 0xE0,
        0xF0, 0x80, 0x80, 0x80, 0xF0,
        0xE0, 0x90, 0x90, 0x90, 0xE0,
        0xF0, 0x80, 0xF0, 0x80, 0xF0,
        0xF0, 0x80, 0xF0, 0x80, 0x80,
    ]
}

/// Address of the font glyph for the value `n`.
pub fn fontaddr(n: u8) -> (r: u16)
    ensures
        r as int == glyph_addr(n as int),
{
    n as u16 * 5
}

/// The emulated memory: one flat array of bytes.
pub struct Ram {
    buf: Vec<u8>,
}

impl View for Ram {
    type V = Seq<u8>;

    closed spec fn view(&self) -> Seq<u8> {
        self.buf@
    }
}

impl Ram {
    pub open spec fn wf(&self) -> bool {
        self@.len() == MEM_SIZE
    }

    /// Memory with every byte zero.
    pub fn new() -> (r: Ram)
        ensures
            r.wf(),
            forall|a: int| 0 <= a < MEM_SIZE ==> r@[a] == 0,
    {
        let mut buf: Vec<u8> = Vec::new();
        let mut n: usize = 0;
        while n < MEM_SIZE
            invariant
                n <= MEM_SIZE,
                buf@.len() == n,
                forall|a: int| 0 <= a < n ==> buf@[a] == 0,
            decreases MEM_SIZE - n,
        {
            buf.push(0);
            n = n + 1;
        }
        Ram { buf }
    }

    /// The byte at `addr`.
    pub fn read(&self, addr: usize) -> (r: u8)
        requires
            self.wf(),
            addr < MEM_SIZE,
        ensures
            r == self@[addr as int],
    {
        self.buf[addr]
    }

    /// Overwrites the byte at `addr`.
    pub fn write(&mut self, addr: usize, b: u8)
        requires
            old(self).wf(),
            addr < MEM_SIZE,
        ensures
            final(self)@ == old(self)@.update(addr as int, b),
    {
        self.buf.set(addr, b);
    }

    /// The `len` bytes from `addr` on.
    pub fn read_block(&self, addr: usize, len: usize) -> (r: Vec<u8>)
        requires
            self.wf(),
            addr + len <= MEM_SIZE,
        ensures
            r@ == self@.subrange(addr as int, addr + len),
    {
        let mut out: Vec<u8> = Vec::new();
        let mut n: usize = 0;
        while n < len
            invariant
                self.wf(),
                addr + len <= MEM_SIZE,
                n <= len,
                out@ == self@.subrange(addr as int, addr + n),
            decreases len - n,
        {
            out.push(self.buf[addr + n]);
            n = n + 1;
            assert(out@ =~= self@.subrange(addr as int, addr + n));
        }
        out
    }

    /// Copies the built-in font to the bottom of memory.
    fn load_fontset(&mut self)
        requires
            old(self).wf(),
        ensures
            final(self).wf(),
            final(self)@.subrange(0, 80) == font(),
            forall|a: int| 80 <= a < MEM_SIZE ==> final(self)@[a] == old(self)@[a],
    {
        let fontset: [u8; 80] = [
            0xF0, 0x90, 0x90, 0x90, 0xF0,
            0x20, 0x60, 0x20, 0x20, 0x70,
            0xF0, 0x10, 0xF0, 0x80, 0xF0,
            0xF0, 0x10, 0xF0, 0x10, 0xF0,
            0x90, 0x90, 0xF0, 0x10, 0x10,
            0xF0, 0x80, 0xF0, 0x10, 0xF0,
            0xF0, 0x80, 0xF0, 0x90, 0xF0,
            0xF0, 0x10, 0x20, 0x40, 0x40,
            0xF0, 0x90, 0xF0, 0x90, 0xF0,
            0xF0, 0x90, 0xF0, 0x10, 0xF0,
            0xF0, 0x90, 0xF0, 0x90, 0x90,
            0xE0, 0x90, 0xE0, 0x90, 0xE0,
            0xF0, 0x80, 0x80, 0x80, 0xF0,
            0xE0, 0x90, 0x90, 0x90, 0xE0,
            0xF0, 0x80, 0xF0, 0x80, 0xF0,
            0xF0, 0x80, 0xF0, 0x80, 0x80,
        ];
        assert(fontset@ =~= font());
        let mut n: usize = 0;
        while n < 80
            invariant
                n <= 80,
                fontset@ == font(),
                self.wf(),
                forall|a: int| 0 <= a < n ==> self@[a] == font()[a],
                forall|a: int| n <= a < MEM_SIZE ==> self@[a] == old(self)@[a],
            decreases 80 - n,
        {
            self.buf.set(n, fontset[n]);
            n = n + 1;
        }
        assert(self@.subrange(0, 80) =~= font());
    }

    /// Puts the font in place and copies the program image to `PROGRAM_START`.
    /// An image longer than the program region is refused and memory is left as it was.
    pub fn load(&mut self, rom: &[u8]) -> (r: Result<(), Error>)
        requires
            old(self).wf(),
        ensures
            final(self).wf(),
            rom@.len() > PROGRAM_CAPACITY ==> r == Err::<(), Error>(Error::RomTooLarge(rom@.len() as usize))
                && final(self)@ == old(self)@,
            rom@.len() <= PROGRAM_CAPACITY ==> r is Ok && final(self)@ == loaded(old(self)@, rom@),
    {
        if rom.len() > PROGRAM_CAPACITY {
            return Err(Error::RomTooLarge(rom.len()));
        }
        self.load_fontset();
        let ghost fonted = self@;
        let mut n: usize = 0;
        while n < rom.len()
            invariant
                rom@.len() <= PROGRAM_CAPACITY,
                n <= rom@.len(),
                self.wf(),
                fonted.len() == MEM_SIZE,
                fonted.subrange(0, 80) == font(),
                forall|a: int| 80 <= a < MEM_SIZE ==> fonted[a] == old(self)@[a],
                forall|a: int| 0 <= a < n ==> self@[PROGRAM_START + a] == rom@[a],
                forall|a: int|
                    0 <= a < MEM_SIZE && !(PROGRAM_START <= a < PROGRAM_START + n) ==> self@[a]
                        == fonted[a],
            decreases rom@.len() - n,
        {
            self.buf.set(PROGRAM_START + n, rom[n]);
            n = n + 1;
        }
        proof {
            assert forall|a: int| 0 <= a < MEM_SIZE implies self@[a] == loaded(old(self)@, rom@)[a] by {
                if a < 80 {
                    assert(fonted[a] == fonted.subrange(0, 80)[a]);
                }
            }
            assert(self@ =~= loaded(old(self)@, rom@));
        }
        Ok(())
    }
}

/// Memory `m` after the font and the program image `rom` were put in place.
pub open spec fn loaded(m: Seq<u8>, rom: Seq<u8>) -> Seq<u8> {
    Seq::new(
        m.len(),
        |a: int|
            if a < 80 {
                font()[a]
            } else if PROGRAM_START <= a < PROGRAM_START + rom.len() {
                rom[a - PROGRAM_START]
            } else {
                m[a]
            },
    )
}

} // verus!
