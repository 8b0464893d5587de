use vstd::prelude::*;
use vstd::string::StringExecFns;

use crate::register::Register;

verus! {

/// A move from one register to another of the same width.
#[derive(Clone, Copy, Debug, PartialEq, Eq, Structural)]
pub struct MovInstructionRegisterToRegister {
    pub source: Register,
    pub destination: Register,
}

/// A decoded instruction, with its operands resolved.
#[derive(Clone, Copy, Debug, PartialEq, Eq, Structural)]
pub enum Instruction {
    MovRegisterToRegister(MovInstructionRegisterToRegister),
}

/// The text of a register-to-register move: mnemonic, destination, source.
pub open spec fn mov_text(m: MovInstructionRegisterToRegister) -> Seq<char> {
    "MOV "@ + m.destination.spec_name() + ", "@ + m.source.spec_name()
}

/// The text of an instruction.
pub open spec fn instruction_text(i: Instruction) -> Seq<char> {
    match i {
        Instruction::MovRegisterToRegister(m) => mov_text(m),
    }
}

impl MovInstructionRegisterToRegister {
    /// Renders the move as `MOV <destination>, <source>`.
    pub fn render(&self) -> (r: String)
        ensures
            r@ == mov_text(*self),
    {
        let mut s = String::from_str("MOV ");
        s.append(self.destination.name());
        s.append(", ");
        s.append(self.source.name());
        s
    }
}

impl Instruction {
    /// Renders the instruction as one line of assembly text. The text depends
    /// on the instruction alone.
    pub fn render(&self) -> (r: String)
        ensures
            r@ == instruction_text(*self),
    {
        match self {
            Instruction::MovRegisterToRegister(m) => m.render(),
        }
    }
}

} // verus!
