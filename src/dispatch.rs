use vstd::prelude::*;

use crate::encoding::EncodedInstruction;
use crate::error::DecodeError;
use crate::instruction::{Instruction, MovInstructionRegisterToRegister};
use crate::register::{register_of, Register};

verus! {

/// The opcode of a register/memory to/from register move.
pub const MOV_REGISTER_MEMORY: u8 = 0b100010;

/// The `mode` value that makes `rm` name a register.
pub const MODE_REGISTER: u8 = 0b11;

/// The instruction shapes that the opcode table can select.
#[derive(Clone, Copy, Debug, PartialEq, Eq, Structural)]
pub enum Form {
    /// Move between a register and a register or memory operand.
    MovRegisterMemory,
}

/// One entry of the opcode table: an opcode matches when its bits under
/// `mask` equal `pattern`.
#[derive(Clone, Copy, Debug, PartialEq, Eq, Structural)]
pub struct OpcodePattern {
    pub mask: u8,
    pub pattern: u8,
    pub form: Form,
}

impl OpcodePattern {
    /// Whether `opcode` has this entry's pattern under its mask.
    pub open spec fn spec_matches(self, opcode: u8) -> bool {
        opcode & self.mask == self.pattern
    }

    /// Whether `opcode` matches this entry.
    pub fn matches(&self, opcode: u8) -> (r: bool)
        ensures
            r == self.spec_matches(opcode),
    {
        opcode & self.mask == self.pattern
    }
}

/// The known opcodes, in the order in which they are tried.
pub open spec fn known_opcodes() -> Seq<OpcodePattern> {
    seq![OpcodePattern { mask: 0b111111, pattern: MOV_REGISTER_MEMORY, form: Form::MovRegisterMemory }]
}

/// The form of the first entry of `table`, from index `i` on, that `opcode` matches.
pub open spec fn first_match(table: Seq<OpcodePattern>, opcode: u8, i: int) -> Option<Form>
    decreases table.len() - i,
{
    if i < 0 || i >= table.len() {
        None
    } else if table[i].spec_matches(opcode) {
        Some(table[i].form)
    } else {
        first_match(table, opcode, i + 1)
    }
}

/// The form that the opcode table selects for `opcode`, if any.
pub open spec fn form_of(opcode: u8) -> Option<Form> {
    first_match(known_opcodes(), opcode, 0)
}

/// The value of the first field of `e`, in layout order, that lies outside
/// its domain, if any.
pub open spec fn malformed_field(e: EncodedInstruction) -> Option<u8> {
    if e.opcode >= 64 {
        Some(e.opcode)
    } else if e.d >= 2 {
        Some(e.d)
    } else if e.w >= 2 {
        Some(e.w)
    } else if e.mode >= 4 {
        Some(e.mode)
    } else if e.reg >= 8 {
        Some(e.reg)
    } else if e.rm >= 8 {
        Some(e.rm)
    } else {
        None
    }
}

/// The move that the well-formed fields `e` encode, or the fault that stops it.
pub open spec fn decoded_mov(e: EncodedInstruction) -> Result<Instruction, DecodeError> {
    if e.mode != MODE_REGISTER {
        Err(DecodeError::UnsupportedAddressingMode { opcode: e.opcode, mode: e.mode })
    } else {
        let by_reg = register_of(e.reg as int, e.w == 1);
        let by_rm = register_of(e.rm as int, e.w == 1);
        Ok(
            Instruction::MovRegisterToRegister(
                if e.d == 0 {
                    MovInstructionRegisterToRegister { source: by_reg, destination: by_rm }
                } else {
                    MovInstructionRegisterToRegister { source: by_rm, destination: by_reg }
                },
            ),
        )
    }
}

/// The instruction that the fields `e` encode, or the fault that stops it.
pub open spec fn decoded(e: EncodedInstruction) -> Result<Instruction, DecodeError> {
    match malformed_field(e) {
        Some(value) => Err(DecodeError::MalformedFieldValue { value }),
        None => match form_of(e.opcode) {
            None => Err(DecodeError::UnsupportedOpcode { opcode: e.opcode }),
            Some(Form::MovRegisterMemory) => decoded_mov(e),
        },
    }
}

/// The opcode table.
pub fn opcode_table() -> (r: Vec<OpcodePattern>)
    ensures
        r@ == known_opcodes(),
{
    let r = vec![
        OpcodePattern { mask: 0b111111, pattern: MOV_REGISTER_MEMORY, form: Form::MovRegisterMemory },
    ];
    assert(r@ =~= known_opcodes());
    r
}

/// Looks `opcode` up in the opcode table.
pub fn lookup_form(opcode: u8) -> (r: Option<Form>)
    ensures
        r == form_of(opcode),
{
    let table = opcode_table();
    let mut i: usize = 0;
    while i < table.len()
        invariant
            table@ == known_opcodes(),
            i <= table.len(),
            first_match(table@, opcode, 0) == first_match(table@, opcode, i as int),
        decreases table.len() - i,
    {
        if table[i].matches(opcode) {
            return Some(table[i].form);
        }
        i = i + 1;
    }
    None
}

/// Checks that every field lies in its domain.
fn check_fields(e: &EncodedInstruction) -> (r: Result<(), DecodeError>)
    ensures
        malformed_field(*e) is None ==> r is Ok,
        malformed_field(*e) matches Some(value) ==> r == Err::<(), DecodeError>(
            DecodeError::MalformedFieldValue { value },
        ),
{
    let bad = if e.opcode >= 64 {
        e.opcode
    } else if e.d >= 2 {
        e.d
    } else if e.w >= 2 {
        e.w
    } else if e.mode >= 4 {
        e.mode
    } else if e.reg >= 8 {
        e.reg
    } else if e.rm >= 8 {
        e.rm
    } else {
        return Ok(());
    };
    Err(DecodeError::MalformedFieldValue { value: bad })
}

/// Resolves the operands of a move from its well-formed fields.
fn decode_mov(e: &EncodedInstruction) -> (r: Result<Instruction, DecodeError>)
    requires
        e.wf(),
    ensures
        r == decoded_mov(*e),
{
    if e.mode != MODE_REGISTER {
        return Err(DecodeError::UnsupportedAddressingMode { opcode: e.opcode, mode: e.mode });
    }
    let word = e.w == 1;
    let by_reg = match Register::from_bytes(e.reg, word) {
        Ok(r) => r,
        Err(err) => return Err(err),
    };
    let by_rm = match Register::from_bytes(e.rm, word) {
        Ok(r) => r,
        Err(err) => return Err(err),
    };
    let (source, destination) = if e.d == 0 {
        (by_reg, by_rm)
    } else {
        (by_rm, by_reg)
    };
    Ok(Instruction::MovRegisterToRegister(MovInstructionRegisterToRegister { source, destination }))
}

impl EncodedInstruction {
    /// Decodes the fields into an instruction.
    ///
    /// A field outside its domain is a malformed field; an opcode with no
    /// table entry is an unsupported opcode; a move whose `mode` is not
    /// register-direct is an unsupported addressing mode. No guess is made.
    pub fn decode(&self) -> (r: Result<Instruction, DecodeError>)
        ensures
            r == decoded(*self),
    {
        if let Err(err) = check_fields(self) {
            return Err(err);
        }
        match lookup_form(self.opcode) {
            None => Err(DecodeError::UnsupportedOpcode { opcode: self.opcode }),
            Some(Form::MovRegisterMemory) => decode_mov(self),
        }
    }
}

/// Of the 6-bit opcodes, the table knows the move opcode and no other.
pub proof fn lemma_known_opcodes(opcode: u8)
    requires
        opcode < 64,
    ensures
        opcode == MOV_REGISTER_MEMORY ==> form_of(opcode) == Some(Form::MovRegisterMemory),
        opcode != MOV_REGISTER_MEMORY ==> form_of(opcode) is None,
{
    assert(opcode < 64 ==> (opcode & 0b111111 == 0b100010 <==> opcode == 0b100010)) by (bit_vector);
    reveal_with_fuel(first_match, 2);
}

/// Well-formed fields whose opcode matches no table entry decode to an
/// unsupported-opcode fault naming that opcode, never to an instruction.
pub proof fn lemma_unknown_opcode_fails(e: EncodedInstruction)
    requires
        e.wf(),
        form_of(e.opcode) is None,
    ensures
        decoded(e) == Err::<Instruction, DecodeError>(DecodeError::UnsupportedOpcode { opcode: e.opcode }),
{
}

/// For a register-direct move, `d = 0` makes `reg` the source and `rm` the
/// destination, and flipping `d` to 1 swaps the two operands.
pub proof fn lemma_direction_swaps(e: EncodedInstruction)
    requires
        e.wf(),
        form_of(e.opcode) == Some(Form::MovRegisterMemory),
        e.mode == MODE_REGISTER,
        e.d == 0,
    ensures
        decoded(e) == Ok::<Instruction, DecodeError>(
            Instruction::MovRegisterToRegister(
                MovInstructionRegisterToRegister {
                    source: register_of(e.reg as int, e.w == 1),
                    destination: register_of(e.rm as int, e.w == 1),
                },
            ),
        ),
        decoded(EncodedInstruction { d: 1, ..e }) == Ok::<Instruction, DecodeError>(
            Instruction::MovRegisterToRegister(
                MovInstructionRegisterToRegister {
                    source: register_of(e.rm as int, e.w == 1),
                    destination: register_of(e.reg as int, e.w == 1),
                },
            ),
        ),
{
}

/// Both operands of a decoded move share the width that `w` selects: with
/// `w = 0` both are byte registers, whatever the `reg` and `rm` codes.
pub proof fn lemma_shared_width(e: EncodedInstruction)
    ensures
        decoded(e) matches Ok(Instruction::MovRegisterToRegister(m)) ==> {
            &&& m.source.spec_is_word() == (e.w == 1)
            &&& m.destination.spec_is_word() == (e.w == 1)
        },
        decoded(e) matches Ok(Instruction::MovRegisterToRegister(m)) ==> (e.w == 0 ==> {
            &&& !m.source.spec_is_word()
            &&& !m.destination.spec_is_word()
        }),
{
}

} // verus!
