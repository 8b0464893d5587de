use decoder8086::dispatch::{lookup_form, opcode_table, Form, MOV_REGISTER_MEMORY};
use decoder8086::encoding::EncodedInstruction;
use decoder8086::error::DecodeError;
use decoder8086::instruction::{Instruction, MovInstructionRegisterToRegister};
use decoder8086::register::Register;
use decoder8086::stream::{decode_unit, disassemble, unit_from_be_bytes, StreamFault};

const NARROW: [Register; 8] = [
    Register::AL,
    Register::CL,
    Register::DL,
    Register::BL,
    Register::AH,
    Register::CH,
    Register::DH,
    Register::BH,
];

const WIDE: [Register; 8] = [
    Register::AX,
    Register::CX,
    Register::DX,
    Register::BX,
    Register::SP,
    Register::BP,
    Register::SI,
    Register::DI,
];

fn mov(source: Register, destination: Register) -> Instruction {
    Instruction::MovRegisterToRegister(MovInstructionRegisterToRegister { source, destination })
}

fn fields(opcode: u8, d: u8, w: u8, mode: u8, reg: u8, rm: u8) -> EncodedInstruction {
    EncodedInstruction { opcode, d, w, mode, reg, rm }
}

#[test]
fn register_round_trip_every_field_and_width() {
    for field in 0u8..8 {
        for word in [false, true] {
            let r = Register::from_bytes(field, word).unwrap();
            assert_eq!(r.field(), field);
            assert_eq!(r.is_word(), word);
            let expected = if word { WIDE[field as usize] } else { NARROW[field as usize] };
            assert_eq!(r, expected);
        }
    }
}

#[test]
fn register_field_outside_three_bits_is_malformed() {
    assert_eq!(
        Register::from_bytes(8, false),
        Err(DecodeError::MalformedFieldValue { value: 8 })
    );
    assert_eq!(
        Register::from_bytes(255, true),
        Err(DecodeError::MalformedFieldValue { value: 255 })
    );
}

#[test]
fn register_names() {
    let names = ["AL", "CL", "DL", "BL", "AH", "CH", "DH", "BH"];
    let wide_names = ["AX", "CX", "DX", "BX", "SP", "BP", "SI", "DI"];
    for i in 0..8 {
        assert_eq!(NARROW[i].name(), names[i]);
        assert_eq!(WIDE[i].name(), wide_names[i]);
    }
}

#[test]
fn fields_of_mov_cx_bx() {
    let e = EncodedInstruction::from_bytes(0x89D9);
    assert_eq!(e, fields(0b100010, 0, 1, 0b11, 0b011, 0b001));
}

#[test]
fn field_extraction_round_trip() {
    for value in [0x8D89u16, 0x89D9, 0x88E5, 0x8BD9, 0x0000, 0xFFFF, 0x1234, 0xA5C3] {
        let e = EncodedInstruction::from_bytes(value);
        assert_eq!(e.to_bytes(), value);
    }
    let e = EncodedInstruction::from_bytes(0x8D89);
    assert_eq!(e, fields(0b100011, 0, 1, 0b10, 0b001, 0b001));
}

#[test]
fn every_unit_splits_and_packs_back() {
    for value in 0u16..=u16::MAX {
        let e = EncodedInstruction::from_bytes(value);
        assert!(e.opcode < 64 && e.d < 2 && e.w < 2 && e.mode < 4 && e.reg < 8 && e.rm < 8);
        assert_eq!(e.to_bytes(), value);
    }
}

#[test]
fn direction_bit_selects_destination() {
    let e = fields(MOV_REGISTER_MEMORY, 0, 1, 0b11, 0b001, 0b010);
    assert_eq!(e.decode(), Ok(mov(Register::CX, Register::DX)));
    let flipped = fields(MOV_REGISTER_MEMORY, 1, 1, 0b11, 0b001, 0b010);
    assert_eq!(flipped.decode(), Ok(mov(Register::DX, Register::CX)));
}

#[test]
fn narrow_width_gives_byte_registers() {
    for reg in 0u8..8 {
        for rm in 0u8..8 {
            let e = fields(MOV_REGISTER_MEMORY, 0, 0, 0b11, reg, rm);
            let Ok(Instruction::MovRegisterToRegister(m)) = e.decode() else {
                panic!("a register-direct move must decode");
            };
            assert!(!m.source.is_word());
            assert!(!m.destination.is_word());
            assert_eq!(m.source, NARROW[reg as usize]);
            assert_eq!(m.destination, NARROW[rm as usize]);
        }
    }
    let e = fields(MOV_REGISTER_MEMORY, 0, 0, 0b11, 0b100, 0b111);
    assert_eq!(e.decode(), Ok(mov(Register::AH, Register::BH)));
}

#[test]
fn rendering_is_stable() {
    let i = mov(Register::CX, Register::DX);
    let first = i.render();
    let second = i.render();
    assert_eq!(first, "MOV DX, CX");
    assert_eq!(first, second);
    let m = MovInstructionRegisterToRegister { source: Register::AL, destination: Register::SI };
    assert_eq!(m.render(), "MOV SI, AL");
    assert_eq!(m.render(), m.render());
}

#[test]
fn unknown_opcode_fails() {
    for opcode in 0u8..64 {
        if opcode == MOV_REGISTER_MEMORY {
            continue;
        }
        let e = fields(opcode, 0, 1, 0b11, 0b011, 0b001);
        assert_eq!(e.decode(), Err(DecodeError::UnsupportedOpcode { opcode }));
    }
    assert_eq!(decode_unit(0x00, 0xD9), Err(DecodeError::UnsupportedOpcode { opcode: 0 }));
    assert_eq!(decode_unit(0xFF, 0xFF), Err(DecodeError::UnsupportedOpcode { opcode: 0b111111 }));
}

#[test]
fn memory_mode_is_unsupported() {
    for mode in 0u8..3 {
        let e = fields(MOV_REGISTER_MEMORY, 0, 1, mode, 0b011, 0b001);
        assert_eq!(
            e.decode(),
            Err(DecodeError::UnsupportedAddressingMode { opcode: MOV_REGISTER_MEMORY, mode })
        );
    }
    assert_eq!(
        decode_unit(0x8B, 0x00),
        Err(DecodeError::UnsupportedAddressingMode { opcode: MOV_REGISTER_MEMORY, mode: 0 })
    );
}

#[test]
fn out_of_domain_fields_are_malformed() {
    let e = fields(MOV_REGISTER_MEMORY, 0, 1, 0b11, 9, 0);
    assert_eq!(e.decode(), Err(DecodeError::MalformedFieldValue { value: 9 }));
    let e = fields(98, 0, 1, 0b11, 0, 0);
    assert_eq!(e.decode(), Err(DecodeError::MalformedFieldValue { value: 98 }));
    let e = fields(MOV_REGISTER_MEMORY, 2, 1, 0b11, 0, 0);
    assert_eq!(e.decode(), Err(DecodeError::MalformedFieldValue { value: 2 }));
    let e = fields(MOV_REGISTER_MEMORY, 0, 1, 0b11, 0, 8);
    assert_eq!(e.decode(), Err(DecodeError::MalformedFieldValue { value: 8 }));
}

#[test]
fn opcode_table_holds_the_move() {
    let table = opcode_table();
    assert_eq!(table.len(), 1);
    assert_eq!(table[0].form, Form::MovRegisterMemory);
    assert!(table[0].matches(MOV_REGISTER_MEMORY));
    assert!(!table[0].matches(0));
    assert_eq!(lookup_form(MOV_REGISTER_MEMORY), Some(Form::MovRegisterMemory));
    assert_eq!(lookup_form(0b100011), None);
}

#[test]
fn big_endian_unit() {
    assert_eq!(unit_from_be_bytes(0x89, 0xD9), 0x89D9);
    assert_eq!(unit_from_be_bytes(0x00, 0xFF), 0x00FF);
    assert_eq!(unit_from_be_bytes(0xFF, 0x00), 0xFF00);
}

#[test]
fn single_unit_end_to_end() {
    assert_eq!(decode_unit(0x89, 0xD9), Ok(mov(Register::BX, Register::CX)));
    let listing = disassemble(&[0x89, 0xD9]);
    assert_eq!(listing.fault, None);
    assert_eq!(listing.lines(), vec!["MOV CX, BX".to_string()]);
}

#[test]
fn two_units_in_input_order() {
    let listing = disassemble(&[0x89, 0xD9, 0x88, 0xE5]);
    assert_eq!(listing.fault, None);
    assert_eq!(listing.lines(), vec!["MOV CX, BX".to_string(), "MOV CH, AH".to_string()]);
    let swapped = disassemble(&[0x88, 0xE5, 0x89, 0xD9]);
    assert_eq!(swapped.lines(), vec!["MOV CH, AH".to_string(), "MOV CX, BX".to_string()]);
}

#[test]
fn direction_set_in_bytes() {
    let listing = disassemble(&[0x8B, 0xD9]);
    assert_eq!(listing.lines(), vec!["MOV BX, CX".to_string()]);
}

#[test]
fn many_register_moves() {
    let bytes = [
        0x89, 0xD9, 0x88, 0xE5, 0x89, 0xDA, 0x89, 0xDE, 0x89, 0xFB, 0x88, 0xC8, 0x88, 0xED, 0x89,
        0xC3, 0x89, 0xF3, 0x89, 0xFC, 0x89, 0xC5,
    ];
    let expected = [
        "MOV CX, BX", "MOV CH, AH", "MOV DX, BX", "MOV SI, BX", "MOV BX, DI", "MOV AL, CL",
        "MOV CH, CH", "MOV BX, AX", "MOV BX, SI", "MOV SP, DI", "MOV BP, AX",
    ];
    let listing = disassemble(&bytes);
    assert_eq!(listing.fault, None);
    assert_eq!(listing.lines(), expected.iter().map(|s| s.to_string()).collect::<Vec<_>>());
}

#[test]
fn empty_input_ends_cleanly() {
    let listing = disassemble(&[]);
    assert!(listing.instructions.is_empty());
    assert_eq!(listing.fault, None);
    assert!(listing.lines().is_empty());
}

#[test]
fn complete_units_end_cleanly() {
    for n in 1..5usize {
        let mut bytes = Vec::new();
        for _ in 0..n {
            bytes.push(0x89);
            bytes.push(0xD9);
        }
        let listing = disassemble(&bytes);
        assert_eq!(listing.instructions.len(), n);
        assert_eq!(listing.fault, None);
    }
}

#[test]
fn partial_unit_is_truncated() {
    let listing = disassemble(&[0x89, 0xD9, 0x88]);
    assert_eq!(listing.lines(), vec!["MOV CX, BX".to_string()]);
    assert_eq!(
        listing.fault,
        Some(StreamFault { offset: 2, error: DecodeError::ShortRead { available: 1 } })
    );
    let lone = disassemble(&[0x89]);
    assert!(lone.instructions.is_empty());
    assert_eq!(
        lone.fault,
        Some(StreamFault { offset: 0, error: DecodeError::ShortRead { available: 1 } })
    );
}

#[test]
fn fault_stops_stream_and_keeps_earlier_lines() {
    let listing = disassemble(&[0x89, 0xD9, 0x00, 0x00, 0x89, 0xD9]);
    assert_eq!(listing.lines(), vec!["MOV CX, BX".to_string()]);
    assert_eq!(
        listing.fault,
        Some(StreamFault { offset: 2, error: DecodeError::UnsupportedOpcode { opcode: 0 } })
    );
    let memory = disassemble(&[0x88, 0xE5, 0x89, 0x19]);
    assert_eq!(memory.instructions, vec![mov(Register::AH, Register::CH)]);
    assert_eq!(
        memory.fault,
        Some(StreamFault {
            offset: 2,
            error: DecodeError::UnsupportedAddressingMode { opcode: MOV_REGISTER_MEMORY, mode: 0 },
        })
    );
}

#[test]
fn describe_fields_in_binary() {
    let e = EncodedInstruction::from_bytes(0x89D9);
    assert_eq!(
        e.describe(),
        "Instruction [\n\topcode: 100010\n\td: 0\n\tw: 1\n\tmod: 11\n\treg: 011\n\tr/m: 001\n]"
    );
    let zero = EncodedInstruction::from_bytes(0);
    assert_eq!(
        zero.describe(),
        "Instruction [\n\topcode: 000000\n\td: 0\n\tw: 0\n\tmod: 00\n\treg: 000\n\tr/m: 000\n]"
    );
    let wide = fields(98, 0, 1, 0b11, 9, 5);
    assert_eq!(
        wide.describe(),
        "Instruction [\n\topcode: 1100010\n\td: 0\n\tw: 1\n\tmod: 11\n\treg: 1001\n\tr/m: 101\n]"
    );
}
