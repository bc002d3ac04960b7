use vstd::prelude::*;

verus! {

/// The command-line front end's handle. Reading and printing the actual
/// arguments is I/O and stays with the embedding program.
#[derive(Debug, Clone, Copy, PartialEq, Eq, Structural)]
pub struct Cli;

} // verus!
