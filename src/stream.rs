use vstd::prelude::*;

use crate::dispatch::decoded;
use crate::encoding::{fields_of, EncodedInstruction};
use crate::error::DecodeError;
use crate::instruction::{instruction_text, Instruction};

verus! {

/// Number of bytes in one instruction unit.
pub const UNIT_BYTES: usize = 2;

/// A fault met while decoding a byte stream, with the offset of the unit
/// at which it happened.
#[derive(Clone, Copy, Debug, PartialEq, Eq, Structural)]
pub struct StreamFault {
    pub offset: usize,
    pub error: DecodeError,
}

/// What a byte stream decodes to: the instructions before the first fault,
/// in input order, and that fault, if any.
#[derive(Debug)]
pub struct Listing {
    pub instructions: Vec<Instruction>,
    pub fault: Option<StreamFault>,
}

/// The big-endian 16-bit value of the bytes `hi`, `lo`.
pub open spec fn be_unit(hi: u8, lo: u8) -> u16 {
    (hi * 256 + lo) as u16
}

/// The `i`-th unit of `bytes`.
pub open spec fn unit_at(bytes: Seq<u8>, i: int) -> u16 {
    be_unit(bytes[2 * i], bytes[2 * i + 1])
}

/// What the `i`-th unit of `bytes` decodes to.
pub open spec fn decoded_unit(bytes: Seq<u8>, i: int) -> Result<Instruction, DecodeError> {
    decoded(fields_of(unit_at(bytes, i)))
}

/// Reads two bytes as a big-endian 16-bit unit.
pub fn unit_from_be_bytes(hi: u8, lo: u8) -> (r: u16)
    ensures
        r == hi * 256 + lo,
        r == be_unit(hi, lo),
{
    (hi as u16) * 256 + (lo as u16)
}

/// Decodes one unit given as its two bytes, most significant first.
pub fn decode_unit(hi: u8, lo: u8) -> (r: Result<Instruction, DecodeError>)
    ensures
        r == decoded(fields_of(be_unit(hi, lo))),
{
    let value = unit_from_be_bytes(hi, lo);
    EncodedInstruction::from_bytes(value).decode()
}

/// Decodes `bytes` unit by unit until the input ends or a unit fails.
///
/// An input that ends at a unit boundary ends the stream cleanly; one that
/// ends inside a unit is a truncated unit. Decoding stops at the first fault,
/// which is reported with the offset of its unit; the instructions decoded
/// before it are kept.
pub fn disassemble(bytes: &[u8]) -> (r: Listing)
    ensures
        2 * r.instructions@.len() <= bytes@.len(),
        forall|i: int|
            0 <= i < r.instructions@.len() ==> decoded_unit(bytes@, i) == Ok::<
                Instruction,
                DecodeError,
            >(#[trigger] r.instructions@[i]),
        r.fault is None <==> 2 * r.instructions@.len() == bytes@.len(),
        r.fault matches Some(f) ==> {
            let k = r.instructions@.len() as int;
            &&& f.offset == 2 * k
            &&& 2 * k + 2 <= bytes@.len() ==> decoded_unit(bytes@, k) == Err::<
                Instruction,
                DecodeError,
            >(f.error)
            &&& 2 * k + 2 > bytes@.len() ==> f.error == DecodeError::ShortRead {
                available: (bytes@.len() - 2 * k) as usize,
            }
        },
        bytes@.len() % 2 == 0 && (forall|i: int|
            0 <= i < bytes@.len() / 2 ==> #[trigger] decoded_unit(bytes@, i) is Ok) ==> {
            &&& r.fault is None
            &&& r.instructions@.len() == bytes@.len() / 2
        },
{
    let mut instructions: Vec<Instruction> = Vec::new();
    let mut pos: usize = 0;
    while pos < bytes.len()
        invariant
            pos <= bytes@.len(),
            pos == 2 * instructions@.len(),
            forall|i: int|
                0 <= i < instructions@.len() ==> decoded_unit(bytes@, i) == Ok::<
                    Instruction,
                    DecodeError,
                >(#[trigger] instructions@[i]),
        decreases bytes@.len() - pos,
    {
        if bytes.len() - pos < UNIT_BYTES {
            let available = bytes.len() - pos;
            let fault = StreamFault { offset: pos, error: DecodeError::ShortRead { available } };
            return Listing { instructions, fault: Some(fault) };
        }
        match decode_unit(bytes[pos], bytes[pos + 1]) {
            Ok(instruction) => {
                instructions.push(instruction);
            },
            Err(error) => {
                let fault = StreamFault { offset: pos, error };
                return Listing { instructions, fault: Some(fault) };
            },
        }
        pos = pos + UNIT_BYTES;
    }
    Listing { instructions, fault: None }
}

impl Listing {
    /// The text of each decoded instruction, one line each, in input order.
    pub fn lines(&self) -> (r: Vec<String>)
        ensures
            r@.len() == self.instructions@.len(),
            forall|i: int|
                0 <= i < r@.len() ==> (#[trigger] r@[i])@ == instruction_text(
                    self.instructions@[i],
                ),
    {
        let mut r: Vec<String> = Vec::new();
        let mut i: usize = 0;
        while i < self.instructions.len()
            invariant
                i <= self.instructions@.len(),
                r@.len() == i,
                forall|j: int|
                    0 <= j < i ==> (#[trigger] r@[j])@ == instruction_text(self.instructions@[j]),
            decreases self.instructions@.len() - i,
        {
            r.push(self.instructions[i].render());
            i = i + 1;
        }
        r
    }
}

} // verus!
