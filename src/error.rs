use vstd::prelude::*;

verus! {

/// Why a unit of instruction bytes could not be decoded.
#[derive(Clone, Copy, Debug, PartialEq, Eq, Structural)]
pub enum DecodeError {
    /// The opcode field matches no entry of the opcode table.
    UnsupportedOpcode { opcode: u8 },
    /// The opcode is known, but its `mode` field selects an addressing form
    /// that is not supported.
    UnsupportedAddressingMode { opcode: u8, mode: u8 },
    /// A field holds a value outside its documented domain.
    MalformedFieldValue { value: u8 },
    /// The input ended inside a unit: `available` bytes were left where a
    /// whole unit was needed.
    ShortRead { available: usize },
}

} // verus!
