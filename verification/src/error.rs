use vstd::prelude::*;

verus! {

/// The failures the virtual machine's helpers report. How a failure is
/// surfaced — message, exit — is the embedding program's business; the
/// library only returns these values.
#[derive(Debug, Clone, Copy, PartialEq, Eq, Structural)]
pub enum Error {
    /// A byte does not name any bytecode instruction.
    InvalidBytecode,
    /// A byte slice is shorter than the integer it is read as.
    SliceTooSmall,
    /// A byte slice is longer than the integer it is read as.
    SliceTooBig,
    /// A byte slice is not valid UTF-8.
    ByteToStringError,
}

} // verus!
