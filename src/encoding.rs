use vstd::prelude::*;
use vstd::string::StringExecFns;

verus! {

/// One 16-bit unit of instruction bytes split into its named fields.
///
/// Layout, from the most significant bit: `opcode` (6 bits), `d` (1), `w` (1),
/// `mode` (2), `reg` (3), `rm` (3).
#[derive(Clone, Copy, Debug, PartialEq, Eq, Structural)]
pub struct EncodedInstruction {
    /// Instruction-class selector.
    pub opcode: u8,
    /// Direction: 0 when `reg` names the source, 1 when it names the destination.
    pub d: u8,
    /// Width: 0 for byte operands, 1 for word operands.
    pub w: u8,
    /// Addressing-mode selector; 0b11 is register-direct.
    pub mode: u8,
    /// Register field.
    pub reg: u8,
    /// Register/memory field.
    pub rm: u8,
}

/// The fields of a 16-bit unit, as arithmetic on its value.
pub open spec fn fields_of(value: u16) -> EncodedInstruction {
    EncodedInstruction {
        opcode: (value / 1024) as u8,
        d: ((value / 512) % 2) as u8,
        w: ((value / 256) % 2) as u8,
        mode: ((value / 64) % 4) as u8,
        reg: ((value / 8) % 8) as u8,
        rm: (value % 8) as u8,
    }
}

/// The 16-bit unit whose fields are those of `e`.
pub open spec fn unit_of(e: EncodedInstruction) -> int {
    e.opcode * 1024 + e.d * 512 + e.w * 256 + e.mode * 64 + e.reg * 8 + e.rm
}

impl EncodedInstruction {
    /// Every field fits in its width.
    pub open spec fn wf(self) -> bool {
        &&& self.opcode < 64
        &&& self.d < 2
        &&& self.w < 2
        &&& self.mode < 4
        &&& self.reg < 8
        &&& self.rm < 8
    }

    /// Splits a 16-bit unit into its fields. Every unit has a field set.
    pub fn from_bytes(value: u16) -> (r: EncodedInstruction)
        ensures
            r == fields_of(value),
            r.wf(),
    {
        let opcode = (value >> 10u16) as u8;
        let d = ((value >> 9u16) & 0b1) as u8;
        let w = ((value >> 8u16) & 0b1) as u8;
        let mode = ((value >> 6u16) & 0b11) as u8;
        let reg = ((value >> 3u16) & 0b111) as u8;
        let rm = (value & 0b111) as u8;
        proof {
            assert(value >> 10u16 == value / 1024 && value / 1024 < 64) by (bit_vector);
            assert((value >> 9u16) & 0b1 == (value / 512) % 2) by (bit_vector);
            assert((value >> 8u16) & 0b1 == (value / 256) % 2) by (bit_vector);
            assert((value >> 6u16) & 0b11 == (value / 64) % 4) by (bit_vector);
            assert((value >> 3u16) & 0b111 == (value / 8) % 8) by (bit_vector);
            assert(value & 0b111 == value % 8) by (bit_vector);
        }
        EncodedInstruction { opcode, d, w, mode, reg, rm }
    }

    /// Packs the fields back into a 16-bit unit.
    pub fn to_bytes(&self) -> (r: u16)
        requires
            self.wf(),
        ensures
            r == unit_of(*self),
    {
        let opcode = self.opcode as u16;
        let d = self.d as u16;
        let w = self.w as u16;
        let mode = self.mode as u16;
        let reg = self.reg as u16;
        let rm = self.rm as u16;
        opcode * 1024 + d * 512 + w * 256 + mode * 64 + reg * 8 + rm
    }
}

/// The binary digit for a value below 2.
pub open spec fn bit_char(b: nat) -> char {
    if b == 0 {
        '0'
    } else {
        '1'
    }
}

/// The binary digits of `v`, most significant first, without leading zeros
/// (a single `0` for zero).
pub open spec fn binary(v: nat) -> Seq<char>
    decreases v,
{
    if v < 2 {
        seq![bit_char(v)]
    } else {
        binary(v / 2).push(bit_char(v % 2))
    }
}

/// The binary digits of `v`, padded on the left with zeros to at least `width` digits.
pub open spec fn padded_binary(v: nat, width: nat) -> Seq<char> {
    let digits = binary(v);
    if digits.len() >= width {
        digits
    } else {
        Seq::new((width - digits.len()) as nat, |i: int| '0') + digits
    }
}

/// The multi-line description of the fields of `e`, each in binary.
pub open spec fn description(e: EncodedInstruction) -> Seq<char> {
    "Instruction [\n\topcode: "@ + padded_binary(e.opcode as nat, 6) + "\n\td: "@
        + padded_binary(e.d as nat, 1) + "\n\tw: "@ + padded_binary(e.w as nat, 1)
        + "\n\tmod: "@ + padded_binary(e.mode as nat, 2) + "\n\treg: "@
        + padded_binary(e.reg as nat, 3) + "\n\tr/m: "@ + padded_binary(e.rm as nat, 3)
        + "\n]"@
}

/// Appends the binary digits of `v`.
fn append_binary(s: &mut String, v: u8)
    ensures
        final(s)@ == old(s)@ + binary(v as nat),
    decreases v,
{
    if v >= 2 {
        append_binary(s, v / 2);
    }
    if v % 2 == 0 {
        s.append("0");
    } else {
        s.append("1");
    }
    proof {
        reveal_strlit("0");
        reveal_strlit("1");
        assert(final(s)@ =~= old(s)@ + binary(v as nat));
    }
}

/// The number of binary digits of `v`.
fn binary_len(v: u8) -> (r: usize)
    ensures
        r == binary(v as nat).len(),
        1 <= r <= v as int + 1,
    decreases v,
{
    if v < 2 {
        1
    } else {
        binary_len(v / 2) + 1
    }
}

/// Appends the binary digits of `v`, padded with zeros to at least `width` digits.
fn append_padded_binary(s: &mut String, v: u8, width: usize)
    ensures
        final(s)@ == old(s)@ + padded_binary(v as nat, width as nat),
{
    let n = binary_len(v);
    let ghost start = s@;
    let mut i: usize = n;
    while i < width
        invariant
            n <= i,
            n < width ==> i <= width,
            n >= width ==> i == n,
            s@ == start + Seq::new((i - n) as nat, |j: int| '0'),
        decreases width - i,
    {
        s.append("0");
        proof {
            reveal_strlit("0");
        }
        i = i + 1;
        assert(s@ =~= start + Seq::new((i - n) as nat, |j: int| '0'));
    }
    let ghost zeros = s@.subrange(start.len() as int, s@.len() as int);
    assert(s@ == start + zeros);
    assert(zeros =~= Seq::new((i - n) as nat, |j: int| '0'));
    assert(n < width ==> i == width);
    append_binary(s, v);
    assert(s@ =~= start + (zeros + binary(v as nat)));
    assert(zeros + binary(v as nat) =~= padded_binary(v as nat, width as nat));
}

impl EncodedInstruction {
    /// Describes the fields, one per line, each in binary at the width of its field.
    pub fn describe(&self) -> (r: String)
        ensures
            r@ == description(*self),
    {
        let mut s = String::from_str("Instruction [\n\topcode: ");
        append_padded_binary(&mut s, self.opcode, 6);
        s.append("\n\td: ");
        append_padded_binary(&mut s, self.d, 1);
        s.append("\n\tw: ");
        append_padded_binary(&mut s, self.w, 1);
        s.append("\n\tmod: ");
        append_padded_binary(&mut s, self.mode, 2);
        s.append("\n\treg: ");
        append_padded_binary(&mut s, self.reg, 3);
        s.append("\n\tr/m: ");
        append_padded_binary(&mut s, self.rm, 3);
        s.append("\n]");
        s
    }
}

/// Splitting a unit into fields and packing them again gives the unit back.
pub proof fn lemma_split_then_pack(value: u16)
    ensures
        fields_of(value).wf(),
        unit_of(fields_of(value)) == value,
{
    assert(value / 1024 < 64) by (bit_vector);
    assert(value == (value / 1024) * 1024 + ((value / 512) % 2) * 512 + ((value / 256) % 2) * 256
        + ((value / 64) % 4) * 64 + ((value / 8) % 8) * 8 + value % 8) by (bit_vector);
}

/// Packing well-formed fields into a unit and splitting it again gives the
/// same fields back.
pub proof fn lemma_pack_then_split(e: EncodedInstruction)
    requires
        e.wf(),
    ensures
        0 <= unit_of(e) < 0x10000,
        fields_of(unit_of(e) as u16) == e,
{
    let (o, d, w, m, g, r) = (e.opcode, e.d, e.w, e.mode, e.reg, e.rm);
    assert({
        let v = (o * 1024 + d * 512 + w * 256 + m * 64 + g * 8 + r) as u16;
        &&& o * 1024 + d * 512 + w * 256 + m * 64 + g * 8 + r < 0x10000
        &&& v / 1024 == o
        &&& (v / 512) % 2 == d
        &&& (v / 256) % 2 == w
        &&& (v / 64) % 4 == m
        &&& (v / 8) % 8 == g
        &&& v % 8 == r
    }) by (bit_vector)
        requires
            o < 64,
            d < 2,
            w < 2,
            m < 4,
            g < 8,
            r < 8,
    ;
}

} // verus!
