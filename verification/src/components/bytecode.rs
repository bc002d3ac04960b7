use crate::components::error::Error;
use vstd::prelude::*;

verus! {

/// The reduced instruction set of the component-based machine. Each
/// instruction is bound to a fixed byte given by `spec_bytecode_value`.
#[allow(non_camel_case_types)]
#[derive(Debug, Clone, Copy, PartialEq, Eq, Structural)]
pub enum Bytecode {
    /// Stop the machine (byte `0x00`).
    exit,
    /// Push a string onto the stack (byte `0x04`).
    pushs,
    /// Print the top of the stack (byte `0x05`).
    print,
    /// Do nothing (reserved byte `0xFE`).
    nop,
    /// Abort the machine (reserved byte `0xFF`).
    abort,
}

/// The byte that encodes each instruction.
pub open spec fn spec_bytecode_value(b: Bytecode) -> u8 {
    match b {
        Bytecode::exit => 0x00,
        Bytecode::pushs => 0x04,
        Bytecode::print => 0x05,
        Bytecode::nop => 0xFE,
        Bytecode::abort => 0xFF,
    }
}

/// The instruction a byte encodes, if any.
pub open spec fn spec_get_bytecode(hex: u8) -> Option<Bytecode> {
    if hex == 0x00 {
        Some(Bytecode::exit)
    } else if hex == 0x04 {
        Some(Bytecode::pushs)
    } else if hex == 0x05 {
        Some(Bytecode::print)
    } else if hex == 0xFE {
        Some(Bytecode::nop)
    } else if hex == 0xFF {
        Some(Bytecode::abort)
    } else {
        None
    }
}

/// Decodes one instruction byte; any byte outside the instruction set is
/// rejected with `Error::InvalidBytecode`.
pub fn get_bytecode(hex: u8) -> (r: Result<Bytecode, Error>)
    ensures
        match r {
            Ok(bc) => spec_get_bytecode(hex) == Some(bc) && spec_bytecode_value(bc) == hex,
            Err(e) => spec_get_bytecode(hex) is None && e == Error::InvalidBytecode,
        },
{
    match hex {
        0x00 => Ok(Bytecode::exit),
        0x04 => Ok(Bytecode::pushs),
        0x05 => Ok(Bytecode::print),
        0xFE => Ok(Bytecode::nop),
        0xFF => Ok(Bytecode::abort),
        _ => Err(Error::InvalidBytecode),
    }
}

} // verus!
