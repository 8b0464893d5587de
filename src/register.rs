use vstd::prelude::*;

use crate::error::DecodeError;

verus! {

/// The general-purpose register operands of the 8086.
///
/// A register is named by a 3-bit field together with a width flag: the same
/// field value names a byte register when narrow and a word register when wide.
#[derive(Clone, Copy, Debug, PartialEq, Eq, Structural)]
pub enum Register {
    AL,
    CL,
    DL,
    BL,
    AH,
    CH,
    DH,
    BH,
    AX,
    CX,
    DX,
    BX,
    SP,
    BP,
    SI,
    DI,
}

/// The register that a 3-bit field names at the given width.
pub open spec fn register_of(field: int, wide: bool) -> Register
    recommends
        0 <= field < 8,
{
    if !wide {
        if field == 0 {
            Register::AL
        } else if field == 1 {
            Register::CL
        } else if field == 2 {
            Register::DL
        } else if field == 3 {
            Register::BL
        } else if field == 4 {
            Register::AH
        } else if field == 5 {
            Register::CH
        } else if field == 6 {
            Register::DH
        } else {
            Register::BH
        }
    } else {
        if field == 0 {
            Register::AX
        } else if field == 1 {
            Register::CX
        } else if field == 2 {
            Register::DX
        } else if field == 3 {
            Register::BX
        } else if field == 4 {
            Register::SP
        } else if field == 5 {
            Register::BP
        } else if field == 6 {
            Register::SI
        } else {
            Register::DI
        }
    }
}

impl Register {
    /// The 3-bit field value that encodes this register.
    pub open spec fn spec_field(self) -> u8 {
        match self {
            Register::AL | Register::AX => 0,
            Register::CL | Register::CX => 1,
            Register::DL | Register::DX => 2,
            Register::BL | Register::BX => 3,
            Register::AH | Register::SP => 4,
            Register::CH | Register::BP => 5,
            Register::DH | Register::SI => 6,
            Register::BH | Register::DI => 7,
        }
    }

    /// Whether this is a word-width (16-bit) register.
    pub open spec fn spec_is_word(self) -> bool {
        match self {
            Register::AL | Register::CL | Register::DL | Register::BL | Register::AH
            | Register::CH | Register::DH | Register::BH => false,
            _ => true,
        }
    }

    /// The canonical name of the register.
    pub open spec fn spec_name(self) -> Seq<char> {
        match self {
            Register::AL => "AL"@,
            Register::CL => "CL"@,
            Register::DL => "DL"@,
            Register::BL => "BL"@,
            Register::AH => "AH"@,
            Register::CH => "CH"@,
            Register::DH => "DH"@,
            Register::BH => "BH"@,
            Register::AX => "AX"@,
            Register::CX => "CX"@,
            Register::DX => "DX"@,
            Register::BX => "BX"@,
            Register::SP => "SP"@,
            Register::BP => "BP"@,
            Register::SI => "SI"@,
            Register::DI => "DI"@,
        }
    }

    /// Looks up the register that `value` names at the width `word`.
    ///
    /// A value outside the 3-bit range is a malformed field, not a register.
    pub fn from_bytes(value: u8, word: bool) -> (r: Result<Register, DecodeError>)
        ensures
            value < 8 ==> r == Ok::<Register, DecodeError>(register_of(value as int, word)),
            value >= 8 ==> r == Err::<Register, DecodeError>(
                DecodeError::MalformedFieldValue { value },
            ),
    {
        let r = match value {
            0 => if word { Register::AX } else { Register::AL },
            1 => if word { Register::CX } else { Register::CL },
            2 => if word { Register::DX } else { Register::DL },
            3 => if word { Register::BX } else { Register::BL },
            4 => if word { Register::SP } else { Register::AH },
            5 => if word { Register::BP } else { Register::CH },
            6 => if word { Register::SI } else { Register::DH },
            7 => if word { Register::DI } else { Register::BH },
            _ => return Err(DecodeError::MalformedFieldValue { value }),
        };
        Ok(r)
    }

    /// The 3-bit field value that encodes this register.
    pub fn field(&self) -> (r: u8)
        ensures
            r == self.spec_field(),
    {
        match self {
            Register::AL | Register::AX => 0,
            Register::CL | Register::CX => 1,
            Register::DL | Register::DX => 2,
            Register::BL | Register::BX => 3,
            Register::AH | Register::SP => 4,
            Register::CH | Register::BP => 5,
            Register::DH | Register::SI => 6,
            Register::BH | Register::DI => 7,
        }
    }

    /// Whether this is a word-width (16-bit) register.
    pub fn is_word(&self) -> (r: bool)
        ensures
            r == self.spec_is_word(),
    {
        match self {
            Register::AL | Register::CL | Register::DL | Register::BL | Register::AH
            | Register::CH | Register::DH | Register::BH => false,
            _ => true,
        }
    }

    /// The canonical name of the register, such as `AX` or `CL`.
    pub fn name(&self) -> (r: &'static str)
        ensures
            r@ == self.spec_name(),
    {
        match self {
            Register::AL => "AL",
            Register::CL => "CL",
            Register::DL => "DL",
            Register::BL => "BL",
            Register::AH => "AH",
            Register::CH => "CH",
            Register::DH => "DH",
            Register::BH => "BH",
            Register::AX => "AX",
            Register::CX => "CX",
            Register::DX => "DX",
            Register::BX => "BX",
            Register::SP => "SP",
            Register::BP => "BP",
            Register::SI => "SI",
            Register::DI => "DI",
        }
    }
}

/// Looking up a register by field and width, then reading back its field and
/// width, gives the field and width that were looked up.
pub proof fn lemma_register_round_trip(field: u8, wide: bool)
    requires
        field < 8,
    ensures
        register_of(field as int, wide).spec_field() == field,
        register_of(field as int, wide).spec_is_word() == wide,
{
}

/// Every register is the one that its own field and width name.
pub proof fn lemma_register_canonical(r: Register)
    ensures
        r.spec_field() < 8,
        register_of(r.spec_field() as int, r.spec_is_word()) == r,
{
}

} // verus!
