//! The processor core: register file, instruction decoder, micro-operation
//! scheduler and execution unit.
//!
//! Each call of [`Cpu::tick`] advances the machine by one cycle: it either
//! drains one pending bus transaction or fetches and decodes the next opcode
//! (which may queue further micro-operations), then drains one pending
//! internal execution step if any, and finally advances the program counter.
use std::collections::VecDeque;
use vstd::prelude::*;

use crate::EmuError;
use crate::bus::Bus;
use crate::bus::BusView;
use crate::bus::spec_bus_read;
use crate::bus::spec_bus_write;

verus! {

/// An 8-bit operand slot: a named register, the transient immediate-operand
/// register, or one half of the stack pointer. `NoReg` marks an unused slot.
#[derive(Clone, Copy, Debug, PartialEq, Eq, Structural)]
pub enum Reg8 {
    NoReg,
    A,
    B,
    C,
    D,
    E,
    H,
    L,
    Imm8,
    SPLow,
    SPHigh,
}

/// A 16-bit operand slot: a register pair or the stack pointer. `NoReg`
/// marks an unused slot.
#[derive(Clone, Copy, Debug, PartialEq, Eq, Structural)]
pub enum Reg16 {
    NoReg,
    BC,
    DE,
    HL,
    SP,
}

/// The symbolic identifier an opcode byte decodes to. Immutable; used only
/// for dispatch.
#[derive(Clone, Copy, Debug, PartialEq, Eq, Structural)]
pub enum Instruction {
    BitTest7H,
    Call,
    CBPrefix,
    JmpRelIfNonZero,
    IncC,
    IncDE,
    LoadAPtrDE,
    LoadAE,
    LoadAImm8,
    LoadBImm8,
    LoadCImm8,
    LoadDImm8,
    LoadEImm8,
    LoadHImm8,
    LoadLImm8,
    LoadBCImm16,
    LoadDEImm16,
    LoadHLImm16,
    LoadSPImm16,
    StoreAToAddrImm8High,
    StoreAToAddrCHigh,
    StoreAToAddrHL,
    StoreAToAddrHLDec,
    XorA8,
}

/// The supported opcode table: which instruction each byte decodes to, or
/// the `UnimplementedOpcode` fault carrying the byte itself. Decoding is a
/// pure function of the byte alone.
pub open spec fn spec_decode(opcode: u8) -> Result<Instruction, EmuError> {
    if opcode == 0x7C {
        Ok(Instruction::BitTest7H)
    } else if opcode == 0xCD {
        Ok(Instruction::Call)
    } else if opcode == 0xCB {
        Ok(Instruction::CBPrefix)
    } else if opcode == 0x20 {
        Ok(Instruction::JmpRelIfNonZero)
    } else if opcode == 0x0C {
        Ok(Instruction::IncC)
    } else if opcode == 0x13 {
        Ok(Instruction::IncDE)
    } else if opcode == 0x1A {
        Ok(Instruction::LoadAPtrDE)
    } else if opcode == 0x7B {
        Ok(Instruction::LoadAE)
    } else if opcode == 0x3E {
        Ok(Instruction::LoadAImm8)
    } else if opcode == 0x06 {
        Ok(Instruction::LoadBImm8)
    } else if opcode == 0x0E {
        Ok(Instruction::LoadCImm8)
    } else if opcode == 0x16 {
        Ok(Instruction::LoadDImm8)
    } else if opcode == 0x1E {
        Ok(Instruction::LoadEImm8)
    } else if opcode == 0x26 {
        Ok(Instruction::LoadHImm8)
    } else if opcode == 0x2E {
        Ok(Instruction::LoadLImm8)
    } else if opcode == 0x01 {
        Ok(Instruction::LoadBCImm16)
    } else if opcode == 0x11 {
        Ok(Instruction::LoadDEImm16)
    } else if opcode == 0x21 {
        Ok(Instruction::LoadHLImm16)
    } else if opcode == 0x31 {
        Ok(Instruction::LoadSPImm16)
    } else if opcode == 0xE0 {
        Ok(Instruction::StoreAToAddrImm8High)
    } else if opcode == 0xE2 {
        Ok(Instruction::StoreAToAddrCHigh)
    } else if opcode == 0x77 {
        Ok(Instruction::StoreAToAddrHL)
    } else if opcode == 0x32 {
        Ok(Instruction::StoreAToAddrHLDec)
    } else if opcode == 0xAF {
        Ok(Instruction::XorA8)
    } else {
        Err(EmuError::UnimplementedOpcode(opcode))
    }
}

impl Instruction {
    /// Decodes one opcode byte. Total on the supported table; any other byte
    /// fails with `UnimplementedOpcode` carrying that exact byte, never a
    /// silent default. A pure function of the byte alone.
    pub fn decode(opcode: u8) -> (r: Result<Instruction, EmuError>)
        ensures
            r == spec_decode(opcode),
    {
        match opcode {
            0x7C => Ok(Instruction::BitTest7H),
            0xCD => Ok(Instruction::Call),
            0xCB => Ok(Instruction::CBPrefix),
            0x20 => Ok(Instruction::JmpRelIfNonZero),
            0x0C => Ok(Instruction::IncC),
            0x13 => Ok(Instruction::IncDE),
            0x1A => Ok(Instruction::LoadAPtrDE),
            0x7B => Ok(Instruction::LoadAE),
            0x3E => Ok(Instruction::LoadAImm8),
            0x06 => Ok(Instruction::LoadBImm8),
            0x0E => Ok(Instruction::LoadCImm8),
            0x16 => Ok(Instruction::LoadDImm8),
            0x1E => Ok(Instruction::LoadEImm8),
            0x26 => Ok(Instruction::LoadHImm8),
            0x2E => Ok(Instruction::LoadLImm8),
            0x01 => Ok(Instruction::LoadBCImm16),
            0x11 => Ok(Instruction::LoadDEImm16),
            0x21 => Ok(Instruction::LoadHLImm16),
            0x31 => Ok(Instruction::LoadSPImm16),
            0xE0 => Ok(Instruction::StoreAToAddrImm8High),
            0xE2 => Ok(Instruction::StoreAToAddrCHigh),
            0x77 => Ok(Instruction::StoreAToAddrHL),
            0x32 => Ok(Instruction::StoreAToAddrHLDec),
            0xAF => Ok(Instruction::XorA8),
            _ => Err(EmuError::UnimplementedOpcode(opcode)),
        }
    }
}

/// The extended opcode table, selected by the prefix byte: which
/// instruction the byte fetched after the prefix decodes to, or the
/// `UnimplementedOpcode` fault carrying that exact byte. A pure function of
/// the byte alone.
pub open spec fn spec_decode_extended(opcode: u8) -> Result<Instruction, EmuError> {
    if opcode == 0x7C {
        Ok(Instruction::BitTest7H)
    } else {
        Err(EmuError::UnimplementedOpcode(opcode))
    }
}

impl Instruction {
    /// Decodes one byte of the extended opcode space, the second-level
    /// table behind the prefix byte. Any byte absent from it fails with
    /// `UnimplementedOpcode` carrying that exact byte.
    pub fn decode_extended(opcode: u8) -> (r: Result<Instruction, EmuError>)
        ensures
            r == spec_decode_extended(opcode),
    {
        match opcode {
            0x7C => Ok(Instruction::BitTest7H),
            _ => Err(EmuError::UnimplementedOpcode(opcode)),
        }
    }
}

/// Zero flag, bit 7 of the flag register.
pub const FLAG_ZERO: u8 = 0x80;

/// Subtract flag, bit 6 of the flag register.
pub const FLAG_SUB: u8 = 0x40;

/// Half-carry flag, bit 5 of the flag register.
pub const FLAG_H_CARRY: u8 = 0x20;

/// Carry flag, bit 4 of the flag register.
pub const FLAG_CARRY: u8 = 0x10;

/// The direction of a bus transaction.
#[derive(Clone, Copy, Debug, PartialEq, Eq, Structural)]
pub enum BusOp {
    Read,
    Write,
}

/// A pending bus transaction: one memory access, performed in the tick that
/// drains it. A read carries the register the byte lands in; a write carries
/// the value to store.
#[derive(Clone, Copy, Debug, PartialEq, Eq, Structural)]
pub struct BusRequest {
    pub address: u16,
    pub op: BusOp,
    pub read_dest: Reg8,
    pub write_value: u8,
}

impl BusRequest {
    /// A read transaction targeting `address`, landing in `read_dest`.
    pub fn read(address: u16, read_dest: Reg8) -> (r: BusRequest)
        ensures
            r == (BusRequest { op: BusOp::Read, address, read_dest, write_value: 0 }),
    {
        BusRequest { op: BusOp::Read, address, read_dest, write_value: 0 }
    }

    /// A write transaction storing `write_value` at `address`.
    pub fn write(address: u16, write_value: u8) -> (r: BusRequest)
        ensures
            r == (BusRequest { op: BusOp::Write, address, write_value, read_dest: Reg8::NoReg }),
    {
        BusRequest { op: BusOp::Write, address, write_value, read_dest: Reg8::NoReg }
    }
}

/// The kind of an internal execution step.
#[derive(Clone, Copy, Debug, PartialEq, Eq, Structural)]
pub enum ExecOp {
    Nop,
    Dec16,
    Inc8,
    JmpRelative,
}

/// A pending internal execution step: an operation kind plus up to two
/// operand slots, consumed in the tick that drains it.
#[derive(Clone, Copy, Debug, PartialEq, Eq, Structural)]
pub struct ExecRequest {
    pub op: ExecOp,
    pub op8_1: Reg8,
    pub op8_2: Reg8,
    pub op16_1: Reg16,
    pub op16_2: Reg16,
}

impl ExecRequest {
    /// A do-nothing filler step, used to pad an instruction's cycle count.
    pub fn nop() -> (r: ExecRequest)
        ensures
            r == (ExecRequest {
                op: ExecOp::Nop,
                op8_1: Reg8::NoReg,
                op8_2: Reg8::NoReg,
                op16_1: Reg16::NoReg,
                op16_2: Reg16::NoReg,
            }),
    {
        ExecRequest {
            op: ExecOp::Nop,
            op8_1: Reg8::NoReg,
            op8_2: Reg8::NoReg,
            op16_1: Reg16::NoReg,
            op16_2: Reg16::NoReg,
        }
    }

    /// A step of kind `op` with a single 8-bit operand.
    pub fn op8(op: ExecOp, arg: Reg8) -> (r: ExecRequest)
        ensures
            r == (ExecRequest {
                op,
                op8_1: arg,
                op8_2: Reg8::NoReg,
                op16_1: Reg16::NoReg,
                op16_2: Reg16::NoReg,
            }),
    {
        ExecRequest {
            op,
            op8_1: arg,
            op8_2: Reg8::NoReg,
            op16_1: Reg16::NoReg,
            op16_2: Reg16::NoReg,
        }
    }

    /// A step of kind `op` with a single 16-bit operand.
    pub fn op16(op: ExecOp, arg: Reg16) -> (r: ExecRequest)
        ensures
            r == (ExecRequest {
                op,
                op8_1: Reg8::NoReg,
                op8_2: Reg8::NoReg,
                op16_1: arg,
                op16_2: Reg16::NoReg,
            }),
    {
        ExecRequest {
            op,
            op8_1: Reg8::NoReg,
            op8_2: Reg8::NoReg,
            op16_1: arg,
            op16_2: Reg16::NoReg,
        }
    }
}

/// The processor core. It owns the router (and through it the devices), its
/// register file, and the two queues of pending micro-operations.
pub struct Cpu {
    pub a: u8,
    pub b: u8,
    pub c: u8,
    pub d: u8,
    pub e: u8,
    pub h: u8,
    pub l: u8,
    pub imm8: u8,
    pub flags: u8,
    pub sp: u16,
    pub pc: u16,
    pub ticks: u64,
    pub cb_pending: bool,
    pub bus_queue: VecDeque<BusRequest>,
    pub exec_queue: VecDeque<ExecRequest>,
    pub bus: Bus,
}

/// The mathematical state of the whole machine: the register file, the two
/// micro-operation queues and the routed device state.
#[verifier::ext_equal]
pub ghost struct CpuView {
    pub a: u8,
    pub b: u8,
    pub c: u8,
    pub d: u8,
    pub e: u8,
    pub h: u8,
    pub l: u8,
    pub imm8: u8,
    pub flags: u8,
    pub sp: u16,
    pub pc: u16,
    pub ticks: u64,
    pub cb_pending: bool,
    pub bus_queue: Seq<BusRequest>,
    pub exec_queue: Seq<ExecRequest>,
    pub bus: BusView,
}

impl View for Cpu {
    type V = CpuView;

    open spec fn view(&self) -> CpuView {
        CpuView {
            a: self.a,
            b: self.b,
            c: self.c,
            d: self.d,
            e: self.e,
            h: self.h,
            l: self.l,
            imm8: self.imm8,
            flags: self.flags,
            sp: self.sp,
            pc: self.pc,
            ticks: self.ticks,
            cb_pending: self.cb_pending,
            bus_queue: self.bus_queue@,
            exec_queue: self.exec_queue@,
            bus: self.bus@,
        }
    }
}

/// Whether `reg` is one of the seven named 8-bit registers, the operand
/// domain of the arithmetic and bit-test steps.
pub open spec fn spec_is_named8(reg: Reg8) -> bool {
    match reg {
        Reg8::A | Reg8::B | Reg8::C | Reg8::D | Reg8::E | Reg8::H | Reg8::L => true,
        _ => false,
    }
}

/// The value a named 8-bit register holds. Meaningful only when
/// `spec_is_named8(reg)` holds.
pub open spec fn spec_reg8_value(c: CpuView, reg: Reg8) -> u8 {
    match reg {
        Reg8::B => c.b,
        Reg8::C => c.c,
        Reg8::D => c.d,
        Reg8::E => c.e,
        Reg8::H => c.h,
        Reg8::L => c.l,
        _ => c.a,
    }
}

/// The state after storing `val` into the 8-bit slot `reg`: a named
/// register, the immediate register, or one half of the stack pointer.
/// Leaves the state unchanged when `reg` is `NoReg`.
pub open spec fn spec_with_reg8(c: CpuView, reg: Reg8, val: u8) -> CpuView {
    match reg {
        Reg8::A => CpuView { a: val, ..c },
        Reg8::B => CpuView { b: val, ..c },
        Reg8::C => CpuView { c: val, ..c },
        Reg8::D => CpuView { d: val, ..c },
        Reg8::E => CpuView { e: val, ..c },
        Reg8::H => CpuView { h: val, ..c },
        Reg8::L => CpuView { l: val, ..c },
        Reg8::Imm8 => CpuView { imm8: val, ..c },
        Reg8::SPLow => CpuView { sp: (c.sp & 0xFF00) | (val as u16), ..c },
        Reg8::SPHigh => CpuView { sp: (c.sp & 0x00FF) | ((val as u16) << 8), ..c },
        Reg8::NoReg => c,
    }
}

/// What the register-file mutator does: stores `val` into the slot `reg`, or
/// fails with `InvalidOperand` when no slot is named.
pub open spec fn spec_set_reg8(c: CpuView, reg: Reg8, val: u8) -> Result<CpuView, EmuError> {
    if reg is NoReg {
        Err(EmuError::InvalidOperand)
    } else {
        Ok(spec_with_reg8(c, reg, val))
    }
}

/// The 16-bit pair view of two 8-bit registers: the first forms the high
/// byte, the second the low byte. Pairs are always computed from the 8-bit
/// registers, never stored separately.
pub open spec fn spec_pair(hi: u8, lo: u8) -> u16 {
    ((hi as u16) << 8) | (lo as u16)
}

/// `pc + 1` with 16-bit wraparound: the unconditional per-tick advance of
/// the program counter.
pub open spec fn spec_wrap_inc(pc: u16) -> u16 {
    if pc == 0xFFFF {
        0
    } else {
        (pc + 1) as u16
    }
}

/// 16-bit addition with wraparound.
pub open spec fn spec_wrap_add16(a: u16, b: u16) -> u16 {
    if a + b > 0xFFFF {
        (a + b - 0x10000) as u16
    } else {
        (a + b) as u16
    }
}

/// The displacement byte sign-extended to 16 bits in two's complement, so
/// that adding it with wraparound moves the program counter by the signed
/// 8-bit value the byte encodes.
pub open spec fn spec_sign_ext(d: u8) -> u16 {
    if d >= 0x80 {
        (d as u16) | 0xFF00
    } else {
        d as u16
    }
}

/// Where a relative jump from program counter `pc` with displacement byte
/// `d` resolves to.
pub open spec fn spec_rel_target(pc: u16, d: u8) -> u16 {
    spec_wrap_add16(pc, spec_sign_ext(d))
}

/// What a bit test does to the flag register: Half-Carry set, Carry kept,
/// Subtract cleared, Zero set exactly when the masked result is zero.
pub open spec fn spec_bit_test_flags(flags: u8, masked: u8) -> u8 {
    if masked == 0 {
        (FLAG_H_CARRY | (flags & FLAG_CARRY)) | FLAG_ZERO
    } else {
        FLAG_H_CARRY | (flags & FLAG_CARRY)
    }
}

/// What the bit-test step does: ANDs the target register with the single-bit
/// mask for `bit` and recomputes the flags; no register value changes.
/// Meaningful for `bit < 8`.
pub open spec fn spec_exec_bit_test(c: CpuView, reg: Reg8, bit: u8) -> Result<CpuView, EmuError> {
    if !spec_is_named8(reg) {
        Err(EmuError::InvalidOperand)
    } else {
        Ok(
            CpuView {
                flags: spec_bit_test_flags(c.flags, spec_reg8_value(c, reg) & (1u8 << bit)),
                ..c
            },
        )
    }
}

/// What the 16-bit decrement step does: subtracts one from the HL pair view
/// with wraparound and recomputes the full flag register from scratch,
/// setting Zero exactly when the result is zero and clearing the rest. (The
/// full clear diverges from strict hardware flag semantics; it is preserved
/// deliberately as the operation's documented policy.) Only HL is a valid
/// operand.
pub open spec fn spec_exec_dec16(c: CpuView, reg: Reg16) -> Result<CpuView, EmuError> {
    if reg is HL {
        let hl = spec_pair(c.h, c.l);
        let hl2: u16 = if hl == 0 {
            0xFFFF
        } else {
            (hl - 1) as u16
        };
        Ok(
            CpuView {
                h: (hl2 >> 8) as u8,
                l: hl2 as u8,
                flags: if hl2 == 0 {
                    FLAG_ZERO
                } else {
                    0
                },
                ..c
            },
        )
    } else {
        Err(EmuError::InvalidOperand)
    }
}

/// What the 8-bit increment step does: adds one to the target register with
/// wraparound; Zero is set exactly when the result is zero, Subtract is
/// cleared, Half-Carry is set exactly on a carry out of the low nibble, and
/// Carry is preserved.
pub open spec fn spec_exec_inc8(c: CpuView, reg: Reg8) -> Result<CpuView, EmuError> {
    if !spec_is_named8(reg) {
        Err(EmuError::InvalidOperand)
    } else {
        let v = spec_reg8_value(c, reg);
        let v2: u8 = if v == 0xFF {
            0
        } else {
            (v + 1) as u8
        };
        let f = ((c.flags & FLAG_CARRY) | (if v2 == 0 {
            FLAG_ZERO
        } else {
            0
        })) | (if v & 0x0F == 0x0F {
            FLAG_H_CARRY
        } else {
            0
        });
        Ok(CpuView { flags: f, ..spec_with_reg8(c, reg, v2) })
    }
}

/// What the relative-jump application step does: moves the program counter
/// by the immediate register reinterpreted as a signed 8-bit displacement,
/// with 16-bit wraparound.
pub open spec fn spec_exec_jmp_rel(c: CpuView) -> CpuView {
    CpuView { pc: spec_rel_target(c.pc, c.imm8), ..c }
}

/// What the exclusive-or step does: accumulator = accumulator XOR source
/// register (the source may be the accumulator itself); Zero is set exactly
/// when the result is zero and the other flags are cleared.
pub open spec fn spec_exec_xor(c: CpuView, reg: Reg8) -> Result<CpuView, EmuError> {
    if !spec_is_named8(reg) {
        Err(EmuError::InvalidOperand)
    } else {
        let a2 = c.a ^ spec_reg8_value(c, reg);
        Ok(
            CpuView {
                a: a2,
                flags: if a2 == 0 {
                    FLAG_ZERO
                } else {
                    0
                },
                ..c
            },
        )
    }
}

impl Cpu {
    /// The core's invariant: its router is well formed.
    pub open spec fn wf(self) -> bool {
        self.bus.wf()
    }

    /// A fresh core over the given router: every register cleared, both
    /// queues empty, the tick counter at zero.
    pub fn new(bus: Bus) -> (r: Cpu)
        requires
            bus.wf(),
        ensures
            r.wf(),
            r@ == (CpuView {
                a: 0,
                b: 0,
                c: 0,
                d: 0,
                e: 0,
                h: 0,
                l: 0,
                imm8: 0,
                flags: 0,
                sp: 0,
                pc: 0,
                ticks: 0,
                cb_pending: false,
                bus_queue: Seq::<BusRequest>::empty(),
                exec_queue: Seq::<ExecRequest>::empty(),
                bus: bus@,
            }),
    {
        let r = Cpu {
            a: 0,
            b: 0,
            c: 0,
            d: 0,
            e: 0,
            h: 0,
            l: 0,
            imm8: 0,
            flags: 0,
            sp: 0,
            pc: 0,
            ticks: 0,
            cb_pending: false,
            bus_queue: VecDeque::new(),
            exec_queue: VecDeque::new(),
            bus,
        };
        proof {
            assert(r.bus_queue@ =~= Seq::<BusRequest>::empty());
            assert(r.exec_queue@ =~= Seq::<ExecRequest>::empty());
        }
        r
    }

    /// Stores `val` into the 8-bit slot `reg`; fails with `InvalidOperand`
    /// when no slot is named, leaving the state unchanged.
    pub fn set_reg8(&mut self, reg: Reg8, val: u8) -> (r: Result<(), EmuError>)
        ensures
            final(self).bus == old(self).bus,
            match spec_set_reg8(old(self)@, reg, val) {
                Ok(c) => r is Ok && final(self)@ == c,
                Err(e) => r == Err::<(), EmuError>(e) && final(self)@ == old(self)@,
            },
    {
        match reg {
            Reg8::A => {
                self.a = val;
                Ok(())
            },
            Reg8::B => {
                self.b = val;
                Ok(())
            },
            Reg8::C => {
                self.c = val;
                Ok(())
            },
            Reg8::D => {
                self.d = val;
                Ok(())
            },
            Reg8::E => {
                self.e = val;
                Ok(())
            },
            Reg8::H => {
                self.h = val;
                Ok(())
            },
            Reg8::L => {
                self.l = val;
                Ok(())
            },
            Reg8::Imm8 => {
                self.imm8 = val;
                Ok(())
            },
            Reg8::SPLow => {
                self.sp = (self.sp & 0xFF00) | (val as u16);
                Ok(())
            },
            Reg8::SPHigh => {
                self.sp = (self.sp & 0x00FF) | ((val as u16) << 8);
                Ok(())
            },
            Reg8::NoReg => Err(EmuError::InvalidOperand),
        }
    }

    /// The bit-test step of the execution unit.
    pub fn exec_bit_test_8(&mut self, reg: Reg8, bit: u8) -> (r: Result<(), EmuError>)
        requires
            bit < 8,
        ensures
            final(self).bus == old(self).bus,
            match spec_exec_bit_test(old(self)@, reg, bit) {
                Ok(c) => r is Ok && final(self)@ == c,
                Err(e) => r == Err::<(), EmuError>(e) && final(self)@ == old(self)@,
            },
    {
        let val = match reg {
            Reg8::A => self.a,
            Reg8::B => self.b,
            Reg8::C => self.c,
            Reg8::D => self.d,
            Reg8::E => self.e,
            Reg8::H => self.h,
            Reg8::L => self.l,
            _ => {
                return Err(EmuError::InvalidOperand);
            },
        };
        let res = val & (1u8 << bit);
        self.flags = FLAG_H_CARRY | (self.flags & FLAG_CARRY);
        if res == 0 {
            self.flags = self.flags | FLAG_ZERO;
        }
        proof {
            assert(self@ =~= spec_exec_bit_test(old(self)@, reg, bit)->Ok_0);
        }
        Ok(())
    }

    /// The 16-bit decrement step of the execution unit.
    pub fn exec_dec_16(&mut self, reg: Reg16) -> (r: Result<(), EmuError>)
        ensures
            final(self).bus == old(self).bus,
            match spec_exec_dec16(old(self)@, reg) {
                Ok(c) => r is Ok && final(self)@ == c,
                Err(e) => r == Err::<(), EmuError>(e) && final(self)@ == old(self)@,
            },
    {
        match reg {
            Reg16::HL => {
                let hl: u16 = ((self.h as u16) << 8) | (self.l as u16);
                let hl2: u16 = if hl == 0 {
                    0xFFFF
                } else {
                    hl - 1
                };
                self.flags = if hl2 == 0 {
                    FLAG_ZERO
                } else {
                    0
                };
                self.h = (hl2 >> 8) as u8;
                self.l = hl2 as u8;
                proof {
                    assert(self@ =~= spec_exec_dec16(old(self)@, reg)->Ok_0);
                }
                Ok(())
            },
            _ => Err(EmuError::InvalidOperand),
        }
    }

    /// The 8-bit increment step of the execution unit.
    pub fn exec_inc_8(&mut self, reg: Reg8) -> (r: Result<(), EmuError>)
        ensures
            final(self).bus == old(self).bus,
            match spec_exec_inc8(old(self)@, reg) {
                Ok(c) => r is Ok && final(self)@ == c,
                Err(e) => r == Err::<(), EmuError>(e) && final(self)@ == old(self)@,
            },
    {
        let val = match reg {
            Reg8::A => self.a,
            Reg8::B => self.b,
            Reg8::C => self.c,
            Reg8::D => self.d,
            Reg8::E => self.e,
            Reg8::H => self.h,
            Reg8::L => self.l,
            _ => {
                return Err(EmuError::InvalidOperand);
            },
        };
        let val2: u8 = if val == 0xFF {
            0
        } else {
            val + 1
        };
        let z: u8 = if val2 == 0 {
            FLAG_ZERO
        } else {
            0
        };
        let hc: u8 = if val & 0x0F == 0x0F {
            FLAG_H_CARRY
        } else {
            0
        };
        let f = ((self.flags & FLAG_CARRY) | z) | hc;
        match reg {
            Reg8::A => self.a = val2,
            Reg8::B => self.b = val2,
            Reg8::C => self.c = val2,
            Reg8::D => self.d = val2,
            Reg8::E => self.e = val2,
            Reg8::H => self.h = val2,
            _ => self.l = val2,
        }
        self.flags = f;
        proof {
            assert(self@ =~= spec_exec_inc8(old(self)@, reg)->Ok_0);
        }
        Ok(())
    }

    /// The relative-jump application step of the execution unit.
    pub fn exec_jmp_rel(&mut self)
        ensures
            final(self).bus == old(self).bus,
            final(self)@ == spec_exec_jmp_rel(old(self)@),
    {
        let ext: u16 = if self.imm8 >= 0x80 {
            (self.imm8 as u16) | 0xFF00
        } else {
            self.imm8 as u16
        };
        let t: u32 = (self.pc as u32) + (ext as u32);
        self.pc = if t > 0xFFFF {
            (t - 0x10000) as u16
        } else {
            t as u16
        };
    }

    /// The exclusive-or step of the execution unit.
    pub fn exec_xor_8(&mut self, reg: Reg8) -> (r: Result<(), EmuError>)
        ensures
            final(self).bus == old(self).bus,
            match spec_exec_xor(old(self)@, reg) {
                Ok(c) => r is Ok && final(self)@ == c,
                Err(e) => r == Err::<(), EmuError>(e) && final(self)@ == old(self)@,
            },
    {
        let val = match reg {
            Reg8::A => self.a,
            Reg8::B => self.b,
            Reg8::C => self.c,
            Reg8::D => self.d,
            Reg8::E => self.e,
            Reg8::H => self.h,
            Reg8::L => self.l,
            _ => {
                return Err(EmuError::InvalidOperand);
            },
        };
        self.a = self.a ^ val;
        self.flags = if self.a == 0 {
            FLAG_ZERO
        } else {
            0
        };
        proof {
            assert(self@ =~= spec_exec_xor(old(self)@, reg)->Ok_0);
        }
        Ok(())
    }
}

/// A read transaction as a value: targeting `address`, landing in `dest`.
pub open spec fn spec_read_req(address: u16, dest: Reg8) -> BusRequest {
    BusRequest { op: BusOp::Read, address, read_dest: dest, write_value: 0 }
}

/// A write transaction as a value: storing `value` at `address`.
pub open spec fn spec_write_req(address: u16, value: u8) -> BusRequest {
    BusRequest { op: BusOp::Write, address, write_value: value, read_dest: Reg8::NoReg }
}

/// The filler execution step as a value.
pub open spec fn spec_nop_req() -> ExecRequest {
    ExecRequest {
        op: ExecOp::Nop,
        op8_1: Reg8::NoReg,
        op8_2: Reg8::NoReg,
        op16_1: Reg16::NoReg,
        op16_2: Reg16::NoReg,
    }
}

/// An execution step with one 8-bit operand as a value.
pub open spec fn spec_op8_req(op: ExecOp, arg: Reg8) -> ExecRequest {
    ExecRequest {
        op,
        op8_1: arg,
        op8_2: Reg8::NoReg,
        op16_1: Reg16::NoReg,
        op16_2: Reg16::NoReg,
    }
}

/// An execution step with one 16-bit operand as a value.
pub open spec fn spec_op16_req(op: ExecOp, arg: Reg16) -> ExecRequest {
    ExecRequest {
        op,
        op8_1: Reg8::NoReg,
        op8_2: Reg8::NoReg,
        op16_1: arg,
        op16_2: Reg16::NoReg,
    }
}

/// The state after appending one read transaction to the bus queue.
pub open spec fn spec_queue_bus_read(c: CpuView, addr: u16, dest: Reg8) -> CpuView {
    CpuView { bus_queue: c.bus_queue.push(spec_read_req(addr, dest)), ..c }
}

/// The state after appending one write transaction to the bus queue.
pub open spec fn spec_queue_bus_write(c: CpuView, addr: u16, value: u8) -> CpuView {
    CpuView { bus_queue: c.bus_queue.push(spec_write_req(addr, value)), ..c }
}

/// The state after queueing an 8-bit increment step.
pub open spec fn spec_queue_inc_8(c: CpuView, reg: Reg8) -> CpuView {
    CpuView { exec_queue: c.exec_queue.push(spec_op8_req(ExecOp::Inc8, reg)), ..c }
}

/// The expansion of a conditional relative jump: the displacement-byte read
/// is always queued; the filler step and the jump application are queued
/// only when the branch condition held at decode time.
pub open spec fn spec_queue_jmp_relative(c: CpuView, condition: bool) -> CpuView {
    let c1 = spec_queue_bus_read(c, spec_wrap_inc(c.pc), Reg8::Imm8);
    if condition {
        CpuView {
            exec_queue: c1.exec_queue.push(spec_nop_req()).push(
                spec_op8_req(ExecOp::JmpRelative, Reg8::Imm8),
            ),
            ..c1
        }
    } else {
        c1
    }
}

/// The expansion of an 8-bit immediate load: one read at `pc + 1` landing in
/// the loaded register.
pub open spec fn spec_queue_load_imm_8(c: CpuView, reg: Reg8) -> CpuView {
    spec_queue_bus_read(c, spec_wrap_inc(c.pc), reg)
}

/// The expansion of a 16-bit immediate load: the low-byte read at `pc + 1`
/// first, then the high-byte read at `pc + 2`, each landing in its half of
/// the target pair.
pub open spec fn spec_queue_load_imm_16(c: CpuView, reg_low: Reg8, reg_high: Reg8) -> CpuView {
    spec_queue_bus_read(
        spec_queue_bus_read(c, spec_wrap_inc(c.pc), reg_low),
        spec_wrap_inc(spec_wrap_inc(c.pc)),
        reg_high,
    )
}

/// The expansion of the store of the accumulator through `0xFF00 + C`.
pub open spec fn spec_queue_store_a_to_addr_in_c(c: CpuView) -> CpuView {
    spec_queue_bus_write(c, 0xFF00u16 | (c.c as u16), c.a)
}

/// The expansion of a store through the HL pointer pair.
pub open spec fn spec_queue_store_to_addr_in_hl(c: CpuView, value: u8) -> CpuView {
    spec_queue_bus_write(c, spec_pair(c.h, c.l), value)
}

/// The expansion of store-then-decrement: the write through HL first, then a
/// filler step, then the pair decrement, preserving the hardware's
/// write-before-decrement ordering and cycle count.
pub open spec fn spec_queue_store_a_to_addr_in_hl_dec(c: CpuView, value: u8) -> CpuView {
    let c1 = spec_queue_bus_write(c, spec_pair(c.h, c.l), value);
    CpuView {
        exec_queue: c1.exec_queue.push(spec_nop_req()).push(
            spec_op16_req(ExecOp::Dec16, Reg16::HL),
        ),
        ..c1
    }
}

/// What draining one bus transaction does: a read fetches the byte through
/// the router and lands it in the destination slot; a write forwards the
/// value through the router. Fails exactly when the router or the register
/// file faults, leaving the state unchanged.
pub open spec fn spec_bus_rw(c: CpuView, req: BusRequest) -> Result<CpuView, EmuError> {
    match req.op {
        BusOp::Read => match spec_bus_read(c.bus, req.address) {
            Ok(v) => spec_set_reg8(c, req.read_dest, v),
            Err(e) => Err(e),
        },
        BusOp::Write => match spec_bus_write(c.bus, req.address, req.write_value) {
            Ok(b) => Ok(CpuView { bus: b, ..c }),
            Err(e) => Err(e),
        },
    }
}

/// What draining one internal execution step does.
pub open spec fn spec_do_execute(c: CpuView, req: ExecRequest) -> Result<CpuView, EmuError> {
    match req.op {
        ExecOp::Nop => Ok(c),
        ExecOp::Dec16 => spec_exec_dec16(c, req.op16_1),
        ExecOp::Inc8 => spec_exec_inc8(c, req.op8_1),
        ExecOp::JmpRelative => Ok(spec_exec_jmp_rel(c)),
    }
}

/// The per-instruction expansion policy: what decoding `instr` (fetched as
/// `opcode`) queues or executes at once. Decoded instructions without an
/// expansion yet fail with `UnimplementedOpcode` carrying the fetched byte.
pub open spec fn spec_expand(c: CpuView, opcode: u8, instr: Instruction) -> (Result<
    (),
    EmuError,
>, CpuView) {
    match instr {
        Instruction::BitTest7H => match spec_exec_bit_test(c, Reg8::H, 7) {
            Ok(c2) => (Ok(()), c2),
            Err(e) => (Err(e), c),
        },
        Instruction::CBPrefix => (Ok(()), CpuView { cb_pending: true, ..c }),
        Instruction::JmpRelIfNonZero => (
            Ok(()),
            spec_queue_jmp_relative(c, (!c.flags & FLAG_ZERO) > 0),
        ),
        Instruction::IncC => (Ok(()), spec_queue_inc_8(c, Reg8::C)),
        Instruction::LoadAImm8 => (Ok(()), spec_queue_load_imm_8(c, Reg8::A)),
        Instruction::LoadCImm8 => (Ok(()), spec_queue_load_imm_8(c, Reg8::C)),
        Instruction::LoadHLImm16 => (Ok(()), spec_queue_load_imm_16(c, Reg8::L, Reg8::H)),
        Instruction::LoadSPImm16 => (Ok(()), spec_queue_load_imm_16(c, Reg8::SPLow, Reg8::SPHigh)),
        Instruction::StoreAToAddrHL => (Ok(()), spec_queue_store_to_addr_in_hl(c, c.a)),
        Instruction::StoreAToAddrHLDec => (Ok(()), spec_queue_store_a_to_addr_in_hl_dec(c, c.a)),
        Instruction::StoreAToAddrCHigh => (Ok(()), spec_queue_store_a_to_addr_in_c(c)),
        Instruction::XorA8 => match spec_exec_xor(c, Reg8::A) {
            Ok(c2) => (Ok(()), c2),
            Err(e) => (Err(e), c),
        },
        _ => (Err(EmuError::UnimplementedOpcode(opcode)), c),
    }
}

/// The fetch+decode phase: reads the byte at the program counter through
/// the router and decodes it. When a prefix is pending, the byte is decoded
/// against the extended table instead and the pending mark is consumed;
/// otherwise it is decoded against the primary table. The decoded
/// instruction's expansion policy is then applied.
pub open spec fn spec_do_decode(c: CpuView) -> (Result<(), EmuError>, CpuView) {
    match spec_bus_read(c.bus, c.pc) {
        Err(e) => (Err(e), c),
        Ok(b) => if c.cb_pending {
            let c2 = CpuView { cb_pending: false, ..c };
            match spec_decode_extended(b) {
                Err(e) => (Err(e), c2),
                Ok(instr) => spec_expand(c2, b, instr),
            }
        } else {
            match spec_decode(b) {
                Err(e) => (Err(e), c),
                Ok(instr) => spec_expand(c, b, instr),
            }
        },
    }
}

/// One machine cycle. The tick counter advances; then either the front bus
/// transaction is drained (when one is pending) or the next opcode is
/// fetched and decoded; then the front internal execution step is drained if
/// one is pending; finally the program counter advances by one with
/// wraparound. A fault stops the cycle where it occurs; the state reached by
/// then is kept, so the driver can report it.
pub open spec fn spec_tick(c: CpuView) -> (Result<(), EmuError>, CpuView) {
    let c1 = CpuView { ticks: (c.ticks + 1) as u64, ..c };
    let (r1, c2) = if c1.bus_queue.len() == 0 {
        spec_do_decode(c1)
    } else {
        let req = c1.bus_queue[0];
        let cq = CpuView { bus_queue: c1.bus_queue.drop_first(), ..c1 };
        match spec_bus_rw(cq, req) {
            Ok(cc) => (Ok(()), cc),
            Err(e) => (Err(e), cq),
        }
    };
    if r1 is Err {
        (r1, c2)
    } else {
        let (r2, c3) = if c2.exec_queue.len() == 0 {
            (Ok(()), c2)
        } else {
            let req = c2.exec_queue[0];
            let cq = CpuView { exec_queue: c2.exec_queue.drop_first(), ..c2 };
            match spec_do_execute(cq, req) {
                Ok(cc) => (Ok(()), cc),
                Err(e) => (Err(e), cq),
            }
        };
        if r2 is Err {
            (r2, c3)
        } else {
            (Ok(()), CpuView { pc: spec_wrap_inc(c3.pc), ..c3 })
        }
    }
}

/// `pc + 1` with 16-bit wraparound, as executable code.
fn wrap_inc16(pc: u16) -> (r: u16)
    ensures
        r == spec_wrap_inc(pc),
{
    if pc == 0xFFFF {
        0
    } else {
        pc + 1
    }
}

impl Cpu {
    /// Appends one read transaction to the bus queue.
    pub fn queue_bus_read(&mut self, addr: u16, read_dest: Reg8)
        ensures
            final(self).bus == old(self).bus,
            final(self)@ == spec_queue_bus_read(old(self)@, addr, read_dest),
    {
        self.bus_queue.push_back(BusRequest::read(addr, read_dest));
        proof {
            assert(self@ =~= spec_queue_bus_read(old(self)@, addr, read_dest));
        }
    }

    /// Appends one write transaction to the bus queue.
    pub fn queue_bus_write(&mut self, addr: u16, write_value: u8)
        ensures
            final(self).bus == old(self).bus,
            final(self)@ == spec_queue_bus_write(old(self)@, addr, write_value),
    {
        self.bus_queue.push_back(BusRequest::write(addr, write_value));
        proof {
            assert(self@ =~= spec_queue_bus_write(old(self)@, addr, write_value));
        }
    }

    /// Queues an 8-bit increment step.
    pub fn queue_inc_8(&mut self, reg: Reg8)
        ensures
            final(self).bus == old(self).bus,
            final(self)@ == spec_queue_inc_8(old(self)@, reg),
    {
        self.exec_queue.push_back(ExecRequest::op8(ExecOp::Inc8, reg));
        proof {
            assert(self@ =~= spec_queue_inc_8(old(self)@, reg));
        }
    }

    /// Expands a conditional relative jump. The branch condition is
    /// evaluated once, by the caller, at decode time.
    pub fn queue_jmp_relative(&mut self, condition: bool)
        ensures
            final(self).bus == old(self).bus,
            final(self)@ == spec_queue_jmp_relative(old(self)@, condition),
    {
        let addr = wrap_inc16(self.pc);
        self.queue_bus_read(addr, Reg8::Imm8);
        if condition {
            self.exec_queue.push_back(ExecRequest::nop());
            self.exec_queue.push_back(ExecRequest::op8(ExecOp::JmpRelative, Reg8::Imm8));
        }
        proof {
            assert(self@ =~= spec_queue_jmp_relative(old(self)@, condition));
        }
    }

    /// Expands an 8-bit immediate load.
    pub fn queue_load_imm_8(&mut self, reg: Reg8)
        ensures
            final(self).bus == old(self).bus,
            final(self)@ == spec_queue_load_imm_8(old(self)@, reg),
    {
        let addr = wrap_inc16(self.pc);
        self.queue_bus_read(addr, reg);
    }

    /// Expands a 16-bit immediate load: low byte first, then high byte.
    pub fn queue_load_imm_16(&mut self, reg_low: Reg8, reg_high: Reg8)
        ensures
            final(self).bus == old(self).bus,
            final(self)@ == spec_queue_load_imm_16(old(self)@, reg_low, reg_high),
    {
        let addr1 = wrap_inc16(self.pc);
        let addr2 = wrap_inc16(addr1);
        self.queue_bus_read(addr1, reg_low);
        self.queue_bus_read(addr2, reg_high);
        proof {
            assert(self@ =~= spec_queue_load_imm_16(old(self)@, reg_low, reg_high));
        }
    }

    /// Expands the store of the accumulator through `0xFF00 + C`.
    pub fn queue_store_a_to_addr_in_c(&mut self)
        ensures
            final(self).bus == old(self).bus,
            final(self)@ == spec_queue_store_a_to_addr_in_c(old(self)@),
    {
        let addr = 0xFF00u16 | (self.c as u16);
        let value = self.a;
        self.queue_bus_write(addr, value);
    }

    /// Expands a store through the HL pointer pair.
    pub fn queue_store_to_addr_in_hl(&mut self, value: u8)
        ensures
            final(self).bus == old(self).bus,
            final(self)@ == spec_queue_store_to_addr_in_hl(old(self)@, value),
    {
        let hl: u16 = ((self.h as u16) << 8) | (self.l as u16);
        self.queue_bus_write(hl, value);
    }

    /// Expands store-then-decrement: the write first, then a filler step,
    /// then the pair decrement.
    pub fn queue_store_a_to_addr_in_hl_dec(&mut self, value: u8)
        ensures
            final(self).bus == old(self).bus,
            final(self)@ == spec_queue_store_a_to_addr_in_hl_dec(old(self)@, value),
    {
        let hl: u16 = ((self.h as u16) << 8) | (self.l as u16);
        self.queue_bus_write(hl, value);
        self.exec_queue.push_back(ExecRequest::nop());
        self.exec_queue.push_back(ExecRequest::op16(ExecOp::Dec16, Reg16::HL));
        proof {
            assert(self@ =~= spec_queue_store_a_to_addr_in_hl_dec(old(self)@, value));
        }
    }

    /// The extended-opcode hook: records that the next fetched byte belongs
    /// to the extended table. The prefix byte occupies this fetch tick and
    /// queues nothing; the following tick's fetch decodes its byte against
    /// the extended table and consumes the mark, so the extended decode
    /// takes one additional fetched byte before normal fetch resumes.
    pub fn cb(&mut self)
        ensures
            final(self).bus == old(self).bus,
            final(self)@ == (CpuView { cb_pending: true, ..old(self)@ }),
    {
        self.cb_pending = true;
    }

    /// Drains one bus transaction through the router.
    pub fn do_bus_read_write(&mut self, req: BusRequest) -> (r: Result<(), EmuError>)
        requires
            old(self).wf(),
        ensures
            final(self).wf(),
            match spec_bus_rw(old(self)@, req) {
                Ok(c) => r is Ok && final(self)@ == c,
                Err(e) => r == Err::<(), EmuError>(e) && final(self)@ == old(self)@,
            },
    {
        match req.op {
            BusOp::Read => {
                let v = match self.bus.read(req.address) {
                    Ok(v) => v,
                    Err(e) => {
                        return Err(e);
                    },
                };
                self.set_reg8(req.read_dest, v)
            },
            BusOp::Write => {
                let r = self.bus.write(req.address, req.write_value);
                proof {
                    match spec_bus_rw(old(self)@, req) {
                        Ok(c) => {
                            assert(self@ =~= c);
                        },
                        Err(_) => {
                            assert(self@ =~= old(self)@);
                        },
                    }
                }
                match r {
                    Ok(()) => Ok(()),
                    Err(e) => Err(e),
                }
            },
        }
    }

    /// The fetch+decode phase of a tick.
    pub fn do_decode(&mut self) -> (r: Result<(), EmuError>)
        requires
            old(self).wf(),
        ensures
            final(self).wf(),
            r == spec_do_decode(old(self)@).0,
            final(self)@ == spec_do_decode(old(self)@).1,
    {
        let b = match self.bus.read(self.pc) {
            Ok(v) => v,
            Err(e) => {
                return Err(e);
            },
        };
        if self.cb_pending {
            self.cb_pending = false;
            let inner = match Instruction::decode_extended(b) {
                Ok(i) => i,
                Err(e) => {
                    return Err(e);
                },
            };
            return match inner {
                Instruction::BitTest7H => match self.exec_bit_test_8(Reg8::H, 7) {
                    Ok(()) => Ok(()),
                    Err(e) => Err(e),
                },
                _ => Err(EmuError::UnimplementedOpcode(b)),
            };
        }
        let instr = match Instruction::decode(b) {
            Ok(i) => i,
            Err(e) => {
                return Err(e);
            },
        };
        match instr {
            Instruction::BitTest7H => match self.exec_bit_test_8(Reg8::H, 7) {
                Ok(()) => Ok(()),
                Err(e) => Err(e),
            },
            Instruction::CBPrefix => {
                self.cb();
                Ok(())
            },
            Instruction::JmpRelIfNonZero => {
                let condition = (!self.flags & FLAG_ZERO) > 0;
                self.queue_jmp_relative(condition);
                Ok(())
            },
            Instruction::IncC => {
                self.queue_inc_8(Reg8::C);
                Ok(())
            },
            Instruction::LoadAImm8 => {
                self.queue_load_imm_8(Reg8::A);
                Ok(())
            },
            Instruction::LoadCImm8 => {
                self.queue_load_imm_8(Reg8::C);
                Ok(())
            },
            Instruction::LoadHLImm16 => {
                self.queue_load_imm_16(Reg8::L, Reg8::H);
                Ok(())
            },
            Instruction::LoadSPImm16 => {
                self.queue_load_imm_16(Reg8::SPLow, Reg8::SPHigh);
                Ok(())
            },
            Instruction::StoreAToAddrHL => {
                let value = self.a;
                self.queue_store_to_addr_in_hl(value);
                Ok(())
            },
            Instruction::StoreAToAddrHLDec => {
                let value = self.a;
                self.queue_store_a_to_addr_in_hl_dec(value);
                Ok(())
            },
            Instruction::StoreAToAddrCHigh => {
                self.queue_store_a_to_addr_in_c();
                Ok(())
            },
            Instruction::XorA8 => match self.exec_xor_8(Reg8::A) {
                Ok(()) => Ok(()),
                Err(e) => Err(e),
            },
            _ => Err(EmuError::UnimplementedOpcode(b)),
        }
    }

    /// Drains one internal execution step.
    pub fn do_execute(&mut self, req: ExecRequest) -> (r: Result<(), EmuError>)
        ensures
            final(self).bus == old(self).bus,
            match spec_do_execute(old(self)@, req) {
                Ok(c) => r is Ok && final(self)@ == c,
                Err(e) => r == Err::<(), EmuError>(e) && final(self)@ == old(self)@,
            },
    {
        match req.op {
            ExecOp::Dec16 => self.exec_dec_16(req.op16_1),
            ExecOp::Inc8 => self.exec_inc_8(req.op8_1),
            ExecOp::JmpRelative => {
                self.exec_jmp_rel();
                Ok(())
            },
            ExecOp::Nop => Ok(()),
        }
    }

    /// Advances the machine by one cycle, as [`spec_tick`] describes. A
    /// fault is surfaced as a typed result so the driver can halt and
    /// report; the engine itself never retries or recovers.
    pub fn tick(&mut self) -> (r: Result<(), EmuError>)
        requires
            old(self).wf(),
            old(self).ticks < u64::MAX,
        ensures
            final(self).wf(),
            r == spec_tick(old(self)@).0,
            final(self)@ == spec_tick(old(self)@).1,
    {
        self.ticks = self.ticks + 1;
        let r1 = match self.bus_queue.pop_front() {
            None => self.do_decode(),
            Some(req) => self.do_bus_read_write(req),
        };
        match r1 {
            Ok(()) => {},
            Err(e) => {
                proof {
                    assert(self@ =~= spec_tick(old(self)@).1);
                }
                return Err(e);
            },
        }
        let r2 = match self.exec_queue.pop_front() {
            None => Ok(()),
            Some(req) => self.do_execute(req),
        };
        match r2 {
            Ok(()) => {},
            Err(e) => {
                proof {
                    assert(self@ =~= spec_tick(old(self)@).1);
                }
                return Err(e);
            },
        }
        self.pc = wrap_inc16(self.pc);
        proof {
            assert(self@ =~= spec_tick(old(self)@).1);
        }
        Ok(())
    }
}

/// Exclusive-or of the accumulator with itself always yields zero in the
/// accumulator and sets exactly the Zero flag, clearing Subtract,
/// Half-Carry and Carry, regardless of the accumulator's prior value.
pub proof fn lemma_xor_self_zero(c: CpuView)
    ensures
        spec_exec_xor(c, Reg8::A) == Ok::<CpuView, EmuError>((CpuView { a: 0, flags: FLAG_ZERO, ..c })),
{
    assert(c.a ^ c.a == 0) by (bit_vector);
    assert(spec_exec_xor(c, Reg8::A)->Ok_0 =~= (CpuView { a: 0, flags: FLAG_ZERO, ..c }));
}

/// A bit test against a register whose tested bit is clear sets Zero and
/// Half-Carry; against a set bit it clears Zero (Half-Carry is still set).
/// Either way Carry is left unchanged, Subtract is cleared, and no register
/// value changes.
pub proof fn lemma_bit_test_flags(c: CpuView, reg: Reg8, bit: u8)
    requires
        bit < 8,
        spec_is_named8(reg),
    ensures
        ({
            let r = spec_exec_bit_test(c, reg, bit);
            let masked = spec_reg8_value(c, reg) & (1u8 << bit);
            &&& r is Ok
            &&& masked == 0 ==> r->Ok_0.flags & FLAG_ZERO == FLAG_ZERO
            &&& masked != 0 ==> r->Ok_0.flags & FLAG_ZERO == 0
            &&& r->Ok_0.flags & FLAG_H_CARRY == FLAG_H_CARRY
            &&& r->Ok_0.flags & FLAG_CARRY == c.flags & FLAG_CARRY
            &&& r->Ok_0.flags & FLAG_SUB == 0
            &&& r->Ok_0 == (CpuView { flags: r->Ok_0.flags, ..c })
        }),
{
    let f = c.flags;
    assert(((0x20u8 | (f & 0x10)) | 0x80) & 0x80 == 0x80 && (0x20u8 | (f & 0x10)) & 0x80 == 0
        && ((0x20u8 | (f & 0x10)) | 0x80) & 0x20 == 0x20 && (0x20u8 | (f & 0x10)) & 0x20 == 0x20
        && ((0x20u8 | (f & 0x10)) | 0x80) & 0x10 == f & 0x10 && (0x20u8 | (f & 0x10)) & 0x10 == f
        & 0x10 && ((0x20u8 | (f & 0x10)) | 0x80) & 0x40 == 0 && (0x20u8 | (f & 0x10)) & 0x40
        == 0) by (bit_vector);
}

/// A relative jump with displacement byte 0xFE (the signed value -2) from
/// program counter `p` resolves to `p - 2` under 16-bit wraparound; with
/// displacement byte 0x02 it resolves to `p + 2`.
pub proof fn lemma_rel_jump_displacements(p: u16)
    ensures
        p >= 2 ==> spec_rel_target(p, 0xFE) == p - 2,
        p < 2 ==> spec_rel_target(p, 0xFE) == p + 0x10000 - 2,
        p <= 0xFFFD ==> spec_rel_target(p, 0x02) == p + 2,
        p > 0xFFFD ==> spec_rel_target(p, 0x02) == p + 2 - 0x10000,
{
    assert((0xFEu16 | 0xFF00u16) == 0xFFFEu16) by (bit_vector);
}

/// A tick that finds a bus transaction pending drains exactly that one
/// transaction and queues no other, whatever execution steps run alongside
/// and whether or not the tick faults; so an instruction requiring K bus
/// transactions occupies exactly K ticks in which a transaction is drained,
/// matching its documented cycle count.
pub proof fn lemma_tick_drains_one_bus_transaction(c: CpuView)
    requires
        c.bus_queue.len() > 0,
    ensures
        spec_tick(c).1.bus_queue == c.bus_queue.drop_first(),
{
}

/// Loading a 16-bit immediate pair reads the low byte at `pc + 1` and the
/// high byte at `pc + 2`, in that order, and leaves the pair holding
/// `(high << 8) | low`. Stated over the three ticks the load-HL-immediate
/// instruction occupies, from any state with idle queues whose fetch yields
/// its opcode.
pub proof fn lemma_load_imm16_sequence(c: CpuView, lo: u8, hi: u8)
    requires
        !c.cb_pending,
        c.bus_queue.len() == 0,
        c.exec_queue.len() == 0,
        spec_bus_read(c.bus, c.pc) == Ok::<u8, EmuError>(0x21),
        spec_bus_read(c.bus, spec_wrap_inc(c.pc)) == Ok::<u8, EmuError>(lo),
        spec_bus_read(c.bus, spec_wrap_inc(spec_wrap_inc(c.pc))) == Ok::<u8, EmuError>(hi),
    ensures
        ({
            let (r1, c1) = spec_tick(c);
            let (r2, c2) = spec_tick(c1);
            let (r3, c3) = spec_tick(c2);
            &&& r1 is Ok && r2 is Ok && r3 is Ok
            &&& c1.bus_queue == seq![
                spec_read_req(spec_wrap_inc(c.pc), Reg8::L),
                spec_read_req(spec_wrap_inc(spec_wrap_inc(c.pc)), Reg8::H),
            ]
            &&& c2.l == lo
            &&& c3.l == lo && c3.h == hi
            &&& spec_pair(c3.h, c3.l) == ((hi as u16) << 8) | (lo as u16)
            &&& c3.bus_queue.len() == 0
        }),
{
    let (r1, c1) = spec_tick(c);
    assert(c1.bus_queue =~= seq![
        spec_read_req(spec_wrap_inc(c.pc), Reg8::L),
        spec_read_req(spec_wrap_inc(spec_wrap_inc(c.pc)), Reg8::H),
    ]);
    let (r2, c2) = spec_tick(c1);
    assert(c2.bus_queue =~= seq![spec_read_req(spec_wrap_inc(spec_wrap_inc(c.pc)), Reg8::H)]);
    let (r3, c3) = spec_tick(c2);
    assert(c3.bus_queue =~= Seq::<BusRequest>::empty());
}

/// A store-through-pointer-then-decrement leaves the target memory location
/// holding the value stored through the pre-decrement pointer — the write
/// observably happens before the decrement — and the pointer pair reduced
/// by exactly one. Stated over the two ticks the instruction occupies, from
/// any idle state whose fetch yields its opcode and whose pointer aims at
/// video memory.
pub proof fn lemma_store_hl_dec_sequence(c: CpuView)
    requires
        !c.cb_pending,
        c.bus_queue.len() == 0,
        c.exec_queue.len() == 0,
        c.bus.ram.len() == 0x2000,
        spec_bus_read(c.bus, c.pc) == Ok::<u8, EmuError>(0x32),
        0x8000 <= spec_pair(c.h, c.l) <= 0x9FFF,
    ensures
        ({
            let (r1, c1) = spec_tick(c);
            let (r2, c2) = spec_tick(c1);
            &&& r1 is Ok && r2 is Ok
            &&& c2.bus.ram[spec_pair(c.h, c.l) - 0x8000] == c.a
            &&& spec_pair(c2.h, c2.l) == spec_pair(c.h, c.l) - 1
            &&& c2.bus_queue.len() == 0 && c2.exec_queue.len() == 0
        }),
{
    let (r1, c1) = spec_tick(c);
    assert(c1.bus_queue =~= seq![spec_write_req(spec_pair(c.h, c.l), c.a)]);
    assert(c1.exec_queue =~= seq![spec_op16_req(ExecOp::Dec16, Reg16::HL)]);
    let (r2, c2) = spec_tick(c1);
    let hl = spec_pair(c.h, c.l);
    let hl2 = (hl - 1) as u16;
    assert((((hl2 >> 8) as u8 as u16) << 8) | ((hl2 as u8) as u16) == hl2) by (bit_vector);
}

/// Only the four flag bits (Zero, Subtract, Half-Carry, Carry, bits 7..4)
/// are ever used: a tick keeps the low four bits of the flag register zero.
pub proof fn lemma_tick_keeps_unused_flag_bits_zero(c: CpuView)
    requires
        c.flags & 0x0F == 0,
    ensures
        spec_tick(c).1.flags & 0x0F == 0,
{
    assert forall|f: u8| ((0x20u8 | (f & 0x10)) | 0x80) & 0x0F == 0 && (0x20u8 | (f & 0x10))
        & 0x0F == 0 by {
        assert(((0x20u8 | (f & 0x10)) | 0x80) & 0x0F == 0 && (0x20u8 | (f & 0x10)) & 0x0F
            == 0) by (bit_vector);
    }
    assert forall|f: u8, z: u8, hc: u8| (z == 0 || z == 0x80) && (hc == 0 || hc == 0x20)
        implies (((f & 0x10) | z) | hc) & 0x0F == 0 by {
        assert((z == 0 || z == 0x80) && (hc == 0 || hc == 0x20) ==> (((f & 0x10) | z) | hc)
            & 0x0F == 0) by (bit_vector);
    }
    assert(0x80u8 & 0x0F == 0 && 0x00u8 & 0x0F == 0) by (bit_vector);
}

/// After the prefix byte is fetched, the byte the next fetch yields is
/// decoded against the extended table, consuming exactly that one
/// additional fetched byte: the one supported extended opcode executes its
/// bit test within the same two-tick cycle count, and any byte absent from
/// the extended table faults with `UnimplementedOpcode` carrying exactly
/// that byte, never its primary-table meaning. Either way normal fetch
/// resumes afterwards.
pub proof fn lemma_extended_decode_consumes_next_byte(c: CpuView, b: u8)
    requires
        !c.cb_pending,
        c.bus_queue.len() == 0,
        c.exec_queue.len() == 0,
        spec_bus_read(c.bus, c.pc) == Ok::<u8, EmuError>(0xCB),
        spec_bus_read(c.bus, spec_wrap_inc(c.pc)) == Ok::<u8, EmuError>(b),
    ensures
        ({
            let (r1, c1) = spec_tick(c);
            let (r2, c2) = spec_tick(c1);
            &&& r1 is Ok && c1.cb_pending
            &&& c1.bus_queue.len() == 0 && c1.exec_queue.len() == 0
            &&& !c2.cb_pending
            &&& b == 0x7C ==> r2 is Ok && c2.flags == spec_bit_test_flags(
                c.flags,
                c.h & (1u8 << 7),
            )
            &&& b != 0x7C ==> r2 == Err::<(), EmuError>(EmuError::UnimplementedOpcode(b))
        }),
{
}

} // verus!
