//! The diagnostic disassembler: a pure, stateless formatter that turns a
//! byte stream into one human-readable mnemonic line per decodable
//! instruction. It is consumed only for offline inspection and never by the
//! execution engine; a stream that ends short of the next instruction's
//! required length simply ends the listing instead of being read out of
//! bounds.
use vstd::prelude::*;
use vstd::string::StringExecFns;

use crate::EmuError;
use crate::cpu::Instruction;
use crate::cpu::spec_decode;
use crate::cpu::spec_decode_extended;

verus! {

/// A jump condition, as printed.
#[derive(Clone, Copy, Debug, PartialEq, Eq, Structural)]
pub enum JmpCondition {
    NonZero,
}

/// A named 8-bit register, as printed.
#[derive(Clone, Copy, Debug, PartialEq, Eq, Structural)]
pub enum Reg8 {
    A,
    B,
    C,
    D,
    E,
    H,
    L,
}

/// A register pair or the stack pointer, as printed.
#[derive(Clone, Copy, Debug, PartialEq, Eq, Structural)]
pub enum Reg16 {
    BC,
    DE,
    HL,
    SP,
}

/// The printed symbol of a jump condition.
pub open spec fn spec_jmp_condition_name(c: JmpCondition) -> Seq<char> {
    "NZ"@
}

/// The printed symbol of an 8-bit register.
pub open spec fn spec_reg8_name(r: Reg8) -> Seq<char> {
    match r {
        Reg8::A => "A"@,
        Reg8::B => "B"@,
        Reg8::C => "C"@,
        Reg8::D => "D"@,
        Reg8::E => "E"@,
        Reg8::H => "H"@,
        Reg8::L => "L"@,
    }
}

/// The printed symbol of a 16-bit register.
pub open spec fn spec_reg16_name(r: Reg16) -> Seq<char> {
    match r {
        Reg16::BC => "BC"@,
        Reg16::DE => "DE"@,
        Reg16::HL => "HL"@,
        Reg16::SP => "SP"@,
    }
}

/// The lower-case hexadecimal digit of a value below sixteen.
pub open spec fn spec_hex_digit(n: u8) -> Seq<char> {
    if n == 0 {
        "0"@
    } else if n == 1 {
        "1"@
    } else if n == 2 {
        "2"@
    } else if n == 3 {
        "3"@
    } else if n == 4 {
        "4"@
    } else if n == 5 {
        "5"@
    } else if n == 6 {
        "6"@
    } else if n == 7 {
        "7"@
    } else if n == 8 {
        "8"@
    } else if n == 9 {
        "9"@
    } else if n == 10 {
        "a"@
    } else if n == 11 {
        "b"@
    } else if n == 12 {
        "c"@
    } else if n == 13 {
        "d"@
    } else if n == 14 {
        "e"@
    } else {
        "f"@
    }
}

/// An 8-bit immediate, printed as `$` and two hexadecimal digits.
pub open spec fn spec_imm8_text(v: u8) -> Seq<char> {
    ("$"@ + spec_hex_digit(v >> 4)) + spec_hex_digit(v & 0xF)
}

/// A 16-bit immediate given as its low and high bytes, printed as `$` and
/// four hexadecimal digits, high byte first.
pub open spec fn spec_imm16_text(lo: u8, hi: u8) -> Seq<char> {
    (((("$"@ + spec_hex_digit(hi >> 4)) + spec_hex_digit(hi & 0xF)) + spec_hex_digit(lo >> 4))
        + spec_hex_digit(lo & 0xF))
}

/// The printed symbol of a jump condition, as executable code.
pub fn jmp_condition_name(c: JmpCondition) -> (r: &'static str)
    ensures
        r@ == spec_jmp_condition_name(c),
{
    match c {
        JmpCondition::NonZero => "NZ",
    }
}

/// The printed symbol of an 8-bit register, as executable code.
pub fn reg8_name(r: Reg8) -> (res: &'static str)
    ensures
        res@ == spec_reg8_name(r),
{
    match r {
        Reg8::A => "A",
        Reg8::B => "B",
        Reg8::C => "C",
        Reg8::D => "D",
        Reg8::E => "E",
        Reg8::H => "H",
        Reg8::L => "L",
    }
}

/// The printed symbol of a 16-bit register, as executable code.
pub fn reg16_name(r: Reg16) -> (res: &'static str)
    ensures
        res@ == spec_reg16_name(r),
{
    match r {
        Reg16::BC => "BC",
        Reg16::DE => "DE",
        Reg16::HL => "HL",
        Reg16::SP => "SP",
    }
}

/// The lower-case hexadecimal digit of a value below sixteen, as
/// executable code.
pub fn hex_digit(n: u8) -> (r: &'static str)
    requires
        n < 16,
    ensures
        r@ == spec_hex_digit(n),
{
    if n == 0 {
        "0"
    } else if n == 1 {
        "1"
    } else if n == 2 {
        "2"
    } else if n == 3 {
        "3"
    } else if n == 4 {
        "4"
    } else if n == 5 {
        "5"
    } else if n == 6 {
        "6"
    } else if n == 7 {
        "7"
    } else if n == 8 {
        "8"
    } else if n == 9 {
        "9"
    } else if n == 10 {
        "a"
    } else if n == 11 {
        "b"
    } else if n == 12 {
        "c"
    } else if n == 13 {
        "d"
    } else if n == 14 {
        "e"
    } else {
        "f"
    }
}

/// An 8-bit immediate as `$` and two hexadecimal digits.
pub fn imm8_text(v: u8) -> (r: String)
    ensures
        r@ == spec_imm8_text(v),
{
    let high: u8 = v >> 4;
    let low: u8 = v & 0xF;
    proof {
        assert(v >> 4 < 16 && v & 0xF < 16) by (bit_vector);
    }
    let mut s = String::from_str("$");
    s.append(hex_digit(high));
    s.append(hex_digit(low));
    s
}

/// A 16-bit immediate, low and high byte, as `$` and four hexadecimal
/// digits, high byte first.
pub fn imm16_text(lo: u8, hi: u8) -> (r: String)
    ensures
        r@ == spec_imm16_text(lo, hi),
{
    proof {
        assert(lo >> 4 < 16 && lo & 0xF < 16) by (bit_vector);
        assert(hi >> 4 < 16 && hi & 0xF < 16) by (bit_vector);
    }
    let mut s = String::from_str("$");
    s.append(hex_digit(hi >> 4));
    s.append(hex_digit(hi & 0xF));
    s.append(hex_digit(lo >> 4));
    s.append(hex_digit(lo & 0xF));
    s
}

/// The mnemonic line of a call instruction.
pub open spec fn spec_line_call(lo: u8, hi: u8) -> Seq<char> {
    "CALL "@ + spec_imm16_text(lo, hi)
}

/// The mnemonic line of a single-bit test.
pub open spec fn spec_line_test_bit(bit: u8, reg: Reg8) -> Seq<char> {
    (("BIT "@ + spec_hex_digit(bit)) + ","@) + spec_reg8_name(reg)
}

/// The mnemonic line of an 8-bit increment.
pub open spec fn spec_line_inc8(reg: Reg8) -> Seq<char> {
    "INC "@ + spec_reg8_name(reg)
}

/// The mnemonic line of a 16-bit increment.
pub open spec fn spec_line_inc16(reg: Reg16) -> Seq<char> {
    "INC "@ + spec_reg16_name(reg)
}

/// The mnemonic line of a conditional relative jump.
pub open spec fn spec_line_jmpr(cond: JmpCondition, v: u8) -> Seq<char> {
    (("JR $"@ + spec_jmp_condition_name(cond)) + ","@) + spec_imm8_text(v)
}

/// The mnemonic line of a load through a register-pair pointer.
pub open spec fn spec_line_load_reg8_reg16ptr(rd: Reg8, ra: Reg16) -> Seq<char> {
    ((("LD "@ + spec_reg8_name(rd)) + ",("@) + spec_reg16_name(ra)) + ")"@
}

/// The mnemonic line of a register-to-register load.
pub open spec fn spec_line_load_reg8_reg8(rd: Reg8, rs: Reg8) -> Seq<char> {
    (("LD "@ + spec_reg8_name(rd)) + ","@) + spec_reg8_name(rs)
}

/// The mnemonic line of an 8-bit immediate load.
pub open spec fn spec_line_load_reg8_imm8(reg: Reg8, v: u8) -> Seq<char> {
    (("LD "@ + spec_reg8_name(reg)) + ","@) + spec_imm8_text(v)
}

/// The mnemonic line of a 16-bit immediate load.
pub open spec fn spec_line_load_reg16_imm16(reg: Reg16, lo: u8, hi: u8) -> Seq<char> {
    (("LD "@ + spec_reg16_name(reg)) + ","@) + spec_imm16_text(lo, hi)
}

/// The mnemonic line of a store through `$FF00` plus an immediate offset.
pub open spec fn spec_line_store_imm8ptr_reg8(v: u8, reg: Reg8) -> Seq<char> {
    (("LD ($FF00+"@ + spec_imm8_text(v)) + "),"@) + spec_reg8_name(reg)
}

/// The mnemonic line of a store through `$FF00` plus a register offset.
pub open spec fn spec_line_store_reg8ptr_reg8(regval: Reg8, regaddr: Reg8) -> Seq<char> {
    (("LD ($FF00+"@ + spec_reg8_name(regaddr)) + "),"@) + spec_reg8_name(regval)
}

/// The mnemonic line of a store through a register-pair pointer.
pub open spec fn spec_line_store_reg16ptr_reg8(r8: Reg8, r16: Reg16) -> Seq<char> {
    ((("LD ("@ + spec_reg16_name(r16)) + "),"@) + spec_reg8_name(r8))
}

/// The mnemonic line of a store through a register-pair pointer that then
/// decrements the pair.
pub open spec fn spec_line_store_reg16ptr_reg8_dec(r8: Reg8, r16: Reg16) -> Seq<char> {
    ((("LD ("@ + spec_reg16_name(r16)) + "-),"@) + spec_reg8_name(r8))
}

/// The mnemonic line of an exclusive-or with the accumulator.
pub open spec fn spec_line_xor8(reg: Reg8) -> Seq<char> {
    "XOR "@ + spec_reg8_name(reg)
}

/// How many bytes an instruction outside the extended space occupies in the
/// stream: the opcode plus its immediates.
pub open spec fn spec_instr_len(instr: Instruction) -> int {
    match instr {
        Instruction::Call => 3,
        Instruction::JmpRelIfNonZero => 2,
        Instruction::LoadAImm8 => 2,
        Instruction::LoadBImm8 => 2,
        Instruction::LoadCImm8 => 2,
        Instruction::LoadDImm8 => 2,
        Instruction::LoadEImm8 => 2,
        Instruction::LoadHImm8 => 2,
        Instruction::LoadLImm8 => 2,
        Instruction::LoadBCImm16 => 3,
        Instruction::LoadDEImm16 => 3,
        Instruction::LoadHLImm16 => 3,
        Instruction::LoadSPImm16 => 3,
        Instruction::StoreAToAddrImm8High => 2,
        Instruction::CBPrefix => 2,
        _ => 1,
    }
}

/// The mnemonic line of the instruction at `off`, for every instruction the
/// listing prints directly (the extended space and the bare bit-test byte
/// are handled separately).
pub open spec fn spec_instr_line(s: Seq<u8>, off: int, instr: Instruction) -> Seq<char> {
    match instr {
        Instruction::Call => spec_line_call(s[off + 1], s[off + 2]),
        Instruction::JmpRelIfNonZero => spec_line_jmpr(JmpCondition::NonZero, s[off + 1]),
        Instruction::IncC => spec_line_inc8(Reg8::C),
        Instruction::IncDE => spec_line_inc16(Reg16::DE),
        Instruction::LoadAPtrDE => spec_line_load_reg8_reg16ptr(Reg8::A, Reg16::DE),
        Instruction::LoadAE => spec_line_load_reg8_reg8(Reg8::A, Reg8::E),
        Instruction::LoadAImm8 => spec_line_load_reg8_imm8(Reg8::A, s[off + 1]),
        Instruction::LoadBImm8 => spec_line_load_reg8_imm8(Reg8::B, s[off + 1]),
        Instruction::LoadCImm8 => spec_line_load_reg8_imm8(Reg8::C, s[off + 1]),
        Instruction::LoadDImm8 => spec_line_load_reg8_imm8(Reg8::D, s[off + 1]),
        Instruction::LoadEImm8 => spec_line_load_reg8_imm8(Reg8::E, s[off + 1]),
        Instruction::LoadHImm8 => spec_line_load_reg8_imm8(Reg8::H, s[off + 1]),
        Instruction::LoadLImm8 => spec_line_load_reg8_imm8(Reg8::L, s[off + 1]),
        Instruction::LoadBCImm16 => spec_line_load_reg16_imm16(Reg16::BC, s[off + 1], s[off + 2]),
        Instruction::LoadDEImm16 => spec_line_load_reg16_imm16(Reg16::DE, s[off + 1], s[off + 2]),
        Instruction::LoadHLImm16 => spec_line_load_reg16_imm16(Reg16::HL, s[off + 1], s[off + 2]),
        Instruction::LoadSPImm16 => spec_line_load_reg16_imm16(Reg16::SP, s[off + 1], s[off + 2]),
        Instruction::StoreAToAddrImm8High => spec_line_store_imm8ptr_reg8(s[off + 1], Reg8::A),
        Instruction::StoreAToAddrCHigh => spec_line_store_reg8ptr_reg8(Reg8::A, Reg8::C),
        Instruction::StoreAToAddrHL => spec_line_store_reg16ptr_reg8(Reg8::A, Reg16::HL),
        Instruction::StoreAToAddrHLDec => spec_line_store_reg16ptr_reg8_dec(Reg8::A, Reg16::HL),
        Instruction::XorA8 => spec_line_xor8(Reg8::A),
        _ => Seq::<char>::empty(),
    }
}

/// What listing the extended space yields for the prefixed byte at
/// `off + 1`: that byte is decoded against the extended table, giving the
/// bit-test line for its one supported entry, or the fault naming the byte.
pub open spec fn spec_cb_line(s: Seq<u8>, off: int) -> Result<Seq<char>, EmuError> {
    match spec_decode_extended(s[off + 1]) {
        Err(e) => Err(e),
        Ok(inner) => if inner is BitTest7H {
            Ok(spec_line_test_bit(7, Reg8::H))
        } else {
            Err(EmuError::UnimplementedOpcode(s[off + 1]))
        },
    }
}

/// The whole listing from `off` on: one line per instruction, ending
/// cleanly where the stream ends (or ends short of an instruction's
/// required length), and failing where a byte decodes to nothing printable.
pub open spec fn spec_disassemble(s: Seq<u8>, off: int) -> Result<Seq<Seq<char>>, EmuError>
    recommends
        0 <= off,
    decreases s.len() - off,
{
    if off < 0 || off >= s.len() {
        Ok(Seq::<Seq<char>>::empty())
    } else {
        match spec_decode(s[off]) {
            Err(e) => Err(e),
            Ok(instr) => if instr is BitTest7H {
                Err(EmuError::UnimplementedOpcode(s[off]))
            } else if instr is CBPrefix {
                if off + 2 > s.len() {
                    Ok(Seq::<Seq<char>>::empty())
                } else {
                    match spec_cb_line(s, off) {
                        Err(e) => Err(e),
                        Ok(line) => match spec_disassemble(s, off + 2) {
                            Err(e) => Err(e),
                            Ok(rest) => Ok(seq![line] + rest),
                        },
                    }
                }
            } else {
                if off + spec_instr_len(instr) > s.len() {
                    Ok(Seq::<Seq<char>>::empty())
                } else {
                    match spec_disassemble(s, off + spec_instr_len(instr)) {
                        Err(e) => Err(e),
                        Ok(rest) => Ok(seq![spec_instr_line(s, off, instr)] + rest),
                    }
                }
            },
        }
    }
}

/// Formats the call at `offset`.
pub fn disasm_call(stream: &Vec<u8>, offset: usize) -> (r: (String, usize))
    requires
        offset + 3 <= stream@.len(),
    ensures
        r.0@ == spec_line_call(stream@[offset + 1], stream@[offset + 2]),
        r.1 == 3,
{
    let _len: usize = stream.len();
    let mut s = String::from_str("CALL ");
    s.append(imm16_text(stream[offset + 1], stream[offset + 2]).as_str());
    (s, 3)
}

/// Formats a single-bit test. The offset already points at the byte inside
/// the extended space, which carries no further operands.
pub fn disassemble_test_bit_8(_stream: &Vec<u8>, _offset: usize, reg: Reg8, bit: u8) -> (r: (String, usize))
    requires
        bit < 10,
    ensures
        r.0@ == spec_line_test_bit(bit, reg),
        r.1 == 1,
{
    let mut s = String::from_str("BIT ");
    s.append(hex_digit(bit));
    s.append(",");
    s.append(reg8_name(reg));
    (s, 1)
}

/// Formats an 8-bit increment.
pub fn disasm_inc8(_stream: &Vec<u8>, _offset: usize, reg: Reg8) -> (r: (String, usize))
    ensures
        r.0@ == spec_line_inc8(reg),
        r.1 == 1,
{
    let mut s = String::from_str("INC ");
    s.append(reg8_name(reg));
    (s, 1)
}

/// Formats a 16-bit increment.
pub fn disasm_inc16(_stream: &Vec<u8>, _offset: usize, reg: Reg16) -> (r: (String, usize))
    ensures
        r.0@ == spec_line_inc16(reg),
        r.1 == 1,
{
    let mut s = String::from_str("INC ");
    s.append(reg16_name(reg));
    (s, 1)
}

/// Formats a conditional relative jump and its displacement byte.
pub fn disasm_jmpr(stream: &Vec<u8>, offset: usize, condition: JmpCondition) -> (r: (String, usize))
    requires
        offset + 2 <= stream@.len(),
    ensures
        r.0@ == spec_line_jmpr(condition, stream@[offset + 1]),
        r.1 == 2,
{
    let _len: usize = stream.len();
    let mut s = String::from_str("JR $");
    s.append(jmp_condition_name(condition));
    s.append(",");
    s.append(imm8_text(stream[offset + 1]).as_str());
    (s, 2)
}

/// Formats a load through a register-pair pointer.
pub fn disasm_load_reg8_reg16ptr(
    _stream: &Vec<u8>,
    _offset: usize,
    reg_dest: Reg8,
    reg_addr: Reg16,
) -> (r: (String, usize))
    ensures
        r.0@ == spec_line_load_reg8_reg16ptr(reg_dest, reg_addr),
        r.1 == 1,
{
    let mut s = String::from_str("LD ");
    s.append(reg8_name(reg_dest));
    s.append(",(");
    s.append(reg16_name(reg_addr));
    s.append(")");
    (s, 1)
}

/// Formats a register-to-register load.
pub fn disasm_load_reg8_reg8(_stream: &Vec<u8>, _offset: usize, reg_dest: Reg8, reg_src: Reg8) -> (r: (String, usize))
    ensures
        r.0@ == spec_line_load_reg8_reg8(reg_dest, reg_src),
        r.1 == 1,
{
    let mut s = String::from_str("LD ");
    s.append(reg8_name(reg_dest));
    s.append(",");
    s.append(reg8_name(reg_src));
    (s, 1)
}

/// Formats an 8-bit immediate load and its operand byte.
pub fn disasm_load_reg8_imm8(stream: &Vec<u8>, offset: usize, reg: Reg8) -> (r: (String, usize))
    requires
        offset + 2 <= stream@.len(),
    ensures
        r.0@ == spec_line_load_reg8_imm8(reg, stream@[offset + 1]),
        r.1 == 2,
{
    let _len: usize = stream.len();
    let mut s = String::from_str("LD ");
    s.append(reg8_name(reg));
    s.append(",");
    s.append(imm8_text(stream[offset + 1]).as_str());
    (s, 2)
}

/// Formats a 16-bit immediate load and its two operand bytes.
pub fn disasm_load_reg16_imm16(stream: &Vec<u8>, offset: usize, reg: Reg16) -> (r: (String, usize))
    requires
        offset + 3 <= stream@.len(),
    ensures
        r.0@ == spec_line_load_reg16_imm16(reg, stream@[offset + 1], stream@[offset + 2]),
        r.1 == 3,
{
    let _len: usize = stream.len();
    let mut s = String::from_str("LD ");
    s.append(reg16_name(reg));
    s.append(",");
    s.append(imm16_text(stream[offset + 1], stream[offset + 2]).as_str());
    (s, 3)
}

/// Formats a store through `$FF00` plus an immediate offset.
pub fn disasm_store_imm8ptr_reg8(stream: &Vec<u8>, offset: usize, reg8_value: Reg8) -> (r: (String, usize))
    requires
        offset + 2 <= stream@.len(),
    ensures
        r.0@ == spec_line_store_imm8ptr_reg8(stream@[offset + 1], reg8_value),
        r.1 == 2,
{
    let _len: usize = stream.len();
    let mut s = String::from_str("LD ($FF00+");
    s.append(imm8_text(stream[offset + 1]).as_str());
    s.append("),");
    s.append(reg8_name(reg8_value));
    (s, 2)
}

/// Formats a store through `$FF00` plus a register offset.
pub fn disasm_store_reg8ptr_reg8(
    _stream: &Vec<u8>,
    _offset: usize,
    reg8_value: Reg8,
    reg8_addr: Reg8,
) -> (r: (String, usize))
    ensures
        r.0@ == spec_line_store_reg8ptr_reg8(reg8_value, reg8_addr),
        r.1 == 1,
{
    let mut s = String::from_str("LD ($FF00+");
    s.append(reg8_name(reg8_addr));
    s.append("),");
    s.append(reg8_name(reg8_value));
    (s, 1)
}

/// Formats a store through a register-pair pointer.
pub fn disasm_store_reg16ptr_reg8(_stream: &Vec<u8>, _offset: usize, reg8: Reg8, reg16: Reg16) -> (r: (String, usize))
    ensures
        r.0@ == spec_line_store_reg16ptr_reg8(reg8, reg16),
        r.1 == 1,
{
    let mut s = String::from_str("LD (");
    s.append(reg16_name(reg16));
    s.append("),");
    s.append(reg8_name(reg8));
    (s, 1)
}

/// Formats a store through a register-pair pointer that then decrements
/// the pair.
pub fn disasm_store_reg16ptr_reg8_dec(
    _stream: &Vec<u8>,
    _offset: usize,
    reg8: Reg8,
    reg16: Reg16,
) -> (r: (String, usize))
    ensures
        r.0@ == spec_line_store_reg16ptr_reg8_dec(reg8, reg16),
        r.1 == 1,
{
    let mut s = String::from_str("LD (");
    s.append(reg16_name(reg16));
    s.append("-),");
    s.append(reg8_name(reg8));
    (s, 1)
}

/// Formats an exclusive-or with the accumulator.
pub fn disassemble_xor8(_stream: &Vec<u8>, _offset: usize, reg: Reg8) -> (r: (String, usize))
    ensures
        r.0@ == spec_line_xor8(reg),
        r.1 == 1,
{
    let mut s = String::from_str("XOR ");
    s.append(reg8_name(reg));
    (s, 1)
}

/// Lists the one supported instruction of the extended space: decodes the
/// byte after the prefix against the extended table and formats the bit
/// test, or fails naming the byte. The two bytes consumed are the prefix
/// and the extended opcode.
pub fn disasm_cb_prefixed(stream: &Vec<u8>, offset: usize) -> (r: Result<(String, usize), EmuError>)
    requires
        offset + 2 <= stream@.len(),
    ensures
        match spec_cb_line(stream@, offset as int) {
            Ok(line) => r is Ok && r->Ok_0.0@ == line && r->Ok_0.1 == 2,
            Err(e) => r == Err::<(String, usize), EmuError>(e),
        },
{
    let _len: usize = stream.len();
    let inner = match Instruction::decode_extended(stream[offset + 1]) {
        Ok(i) => i,
        Err(e) => {
            return Err(e);
        },
    };
    match inner {
        Instruction::BitTest7H => {
            let (s, n) = disassemble_test_bit_8(stream, offset + 1, Reg8::H, 7);
            Ok((s, n + 1))
        },
        _ => Err(EmuError::UnimplementedOpcode(stream[offset + 1])),
    }
}

/// How many bytes an instruction occupies in the stream, as executable
/// code.
fn instr_len(instr: Instruction) -> (r: usize)
    ensures
        r as int == spec_instr_len(instr),
        1 <= r <= 3,
{
    match instr {
        Instruction::Call => 3,
        Instruction::JmpRelIfNonZero => 2,
        Instruction::LoadAImm8 => 2,
        Instruction::LoadBImm8 => 2,
        Instruction::LoadCImm8 => 2,
        Instruction::LoadDImm8 => 2,
        Instruction::LoadEImm8 => 2,
        Instruction::LoadHImm8 => 2,
        Instruction::LoadLImm8 => 2,
        Instruction::LoadBCImm16 => 3,
        Instruction::LoadDEImm16 => 3,
        Instruction::LoadHLImm16 => 3,
        Instruction::LoadSPImm16 => 3,
        Instruction::StoreAToAddrImm8High => 2,
        Instruction::CBPrefix => 2,
        _ => 1,
    }
}

/// Produces one mnemonic line for each decodable instruction, starting at
/// successive offsets of `stream`. The listing ends cleanly where the
/// stream ends or ends short of the next instruction's required length; a
/// byte that decodes to nothing printable fails with the fault naming it.
pub fn disassemble(stream: &Vec<u8>) -> (r: Result<Vec<String>, EmuError>)
    ensures
        match r {
            Ok(lines) => spec_disassemble(stream@, 0) == Ok::<Seq<Seq<char>>, EmuError>(
                lines.deep_view(),
            ),
            Err(e) => spec_disassemble(stream@, 0) == Err::<Seq<Seq<char>>, EmuError>(e),
        },
{
    let mut lines: Vec<String> = Vec::new();
    let mut offset: usize = 0;
    loop
        invariant_except_break
            offset <= stream@.len(),
            spec_disassemble(stream@, 0) == (match spec_disassemble(stream@, offset as int) {
                Ok(rest) => Ok::<Seq<Seq<char>>, EmuError>(lines.deep_view() + rest),
                Err(e) => Err::<Seq<Seq<char>>, EmuError>(e),
            }),
        ensures
            spec_disassemble(stream@, 0) == Ok::<Seq<Seq<char>>, EmuError>(lines.deep_view()),
        decreases stream@.len() - offset,
    {
        if offset >= stream.len() {
            proof {
                assert(lines.deep_view() + Seq::<Seq<char>>::empty() =~= lines.deep_view());
            }
            break;
        }
        let ghost prev = lines.deep_view();
        let ghost prev_off = offset as int;
        let b = stream[offset];
        let instr = match Instruction::decode(b) {
            Ok(i) => i,
            Err(e) => {
                return Err(e);
            },
        };
        if matches!(instr, Instruction::BitTest7H) {
            return Err(EmuError::UnimplementedOpcode(b));
        }
        let n = instr_len(instr);
        if stream.len() - offset < n {
            proof {
                assert(lines.deep_view() + Seq::<Seq<char>>::empty() =~= lines.deep_view());
            }
            break;
        }
        let (line, used) = match instr {
            Instruction::CBPrefix => match disasm_cb_prefixed(stream, offset) {
                Ok(p) => p,
                Err(e) => {
                    return Err(e);
                },
            },
            Instruction::Call => disasm_call(stream, offset),
            Instruction::JmpRelIfNonZero => disasm_jmpr(stream, offset, JmpCondition::NonZero),
            Instruction::IncC => disasm_inc8(stream, offset, Reg8::C),
            Instruction::IncDE => disasm_inc16(stream, offset, Reg16::DE),
            Instruction::LoadAPtrDE => disasm_load_reg8_reg16ptr(
                stream,
                offset,
                Reg8::A,
                Reg16::DE,
            ),
            Instruction::LoadAE => disasm_load_reg8_reg8(stream, offset, Reg8::A, Reg8::E),
            Instruction::LoadAImm8 => disasm_load_reg8_imm8(stream, offset, Reg8::A),
            Instruction::LoadBImm8 => disasm_load_reg8_imm8(stream, offset, Reg8::B),
            Instruction::LoadCImm8 => disasm_load_reg8_imm8(stream, offset, Reg8::C),
            Instruction::LoadDImm8 => disasm_load_reg8_imm8(stream, offset, Reg8::D),
            Instruction::LoadEImm8 => disasm_load_reg8_imm8(stream, offset, Reg8::E),
            Instruction::LoadHImm8 => disasm_load_reg8_imm8(stream, offset, Reg8::H),
            Instruction::LoadLImm8 => disasm_load_reg8_imm8(stream, offset, Reg8::L),
            Instruction::LoadBCImm16 => disasm_load_reg16_imm16(stream, offset, Reg16::BC),
            Instruction::LoadDEImm16 => disasm_load_reg16_imm16(stream, offset, Reg16::DE),
            Instruction::LoadHLImm16 => disasm_load_reg16_imm16(stream, offset, Reg16::HL),
            Instruction::LoadSPImm16 => disasm_load_reg16_imm16(stream, offset, Reg16::SP),
            Instruction::StoreAToAddrImm8High => disasm_store_imm8ptr_reg8(
                stream,
                offset,
                Reg8::A,
            ),
            Instruction::StoreAToAddrCHigh => disasm_store_reg8ptr_reg8(
                stream,
                offset,
                Reg8::A,
                Reg8::C,
            ),
            Instruction::StoreAToAddrHL => disasm_store_reg16ptr_reg8(
                stream,
                offset,
                Reg8::A,
                Reg16::HL,
            ),
            Instruction::StoreAToAddrHLDec => disasm_store_reg16ptr_reg8_dec(
                stream,
                offset,
                Reg8::A,
                Reg16::HL,
            ),
            Instruction::XorA8 => disassemble_xor8(stream, offset, Reg8::A),
            _ => {
                proof {
                    assert(false);
                }
                disasm_inc8(stream, offset, Reg8::C)
            },
        };
        lines.push(line);
        offset = offset + used;
        proof {
            assert(lines.deep_view() =~= prev.push(line@));
            match spec_disassemble(stream@, offset as int) {
                Ok(rest) => {
                    assert(prev + (seq![line@] + rest) =~= lines.deep_view() + rest);
                },
                Err(_) => {},
            }
        }
    }
    Ok(lines)
}

} // verus!
