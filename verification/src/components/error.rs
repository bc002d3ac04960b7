use vstd::prelude::*;

verus! {

/// The failures the register file and its helpers report. How a failure is
/// surfaced — message, abort — is the embedding program's business; the
/// library only returns these values.
#[derive(Debug, Clone, Copy, PartialEq, Eq, Structural)]
pub enum Error {
    /// A byte does not name any bytecode instruction.
    InvalidBytecode,
    /// A byte slice is shorter than the integer it is read as.
    SliceTooSmall,
    /// A byte slice is longer than the integer it is read as.
    SliceTooBig,
    /// A byte slice is not valid UTF-8.
    ByteToString,
    /// A register index is outside the register file.
    RegisterOutOfBounds,
    /// A value's type is wider than a 64-bit register slot.
    TypeSizeTooLarge,
    /// A register holds a value of a different type than the one read.
    TypesDontMatch,
}

} // verus!
