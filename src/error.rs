use vstd::prelude::*;

verus! {

/// Faults that stop the interpreter, and the one failure of loading a program.
#[derive(Debug)]
pub enum Error {
    /// The program image could not be read.
    Io(String),
    /// The program image does not fit in the program region.
    RomTooLarge(usize),
    /// An instruction fetch or a memory block operation left the address space.
    Addressing(u16),
    /// The two bytes at the program counter match no instruction.
    UnknownOpcode(u16),
    /// A subroutine call with every stack slot in use.
    StackOverflow,
    /// A return with an empty stack.
    StackUnderflow,
}

} // verus!
