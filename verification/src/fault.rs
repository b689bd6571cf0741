use vstd::prelude::*;

verus! {

/// Why the interpreter stopped.
///
/// An instruction that cannot be carried out raises the halt flag, records
/// one of these, and leaves the rest of the machine as it was.
#[derive(Clone, Copy, Debug, PartialEq, Eq, Structural)]
pub enum Fault {
    /// The fetched word matches no instruction.
    UnknownOpcode { opcode: u16 },
    /// A call was made with all sixteen stack slots in use.
    StackOverflow,
    /// A return was made with no saved address on the stack.
    StackUnderflow,
    /// An access reached past the last memory cell, or the index register
    /// could not hold the address.
    AddressOutOfRange { address: u32 },
    /// A key test named a key beyond `0xF`.
    KeyOutOfRange { key: u8 },
}

} // verus!
