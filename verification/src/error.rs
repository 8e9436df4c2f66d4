use vstd::prelude::*;

verus! {

/// Everything that can stop the machine or refuse its configuration.
#[derive(Debug, Clone, Copy, PartialEq, Eq, Structural)]
pub enum Chip8Error {
    /// A program image does not fit between the load address and the end of memory.
    RomTooLarge { length: usize, capacity: usize },
    /// An input-mapping table does not have exactly sixteen entries.
    BadKeyLayout { length: usize },
    /// A return instruction found the call stack empty.
    StackUnderflow,
    /// A call instruction found the call stack full.
    StackOverflow,
    /// An instruction read or wrote outside the address space.
    AddressOutOfRange,
    /// A key instruction named a key that the input latch does not have.
    InvalidKey,
}

} // verus!
