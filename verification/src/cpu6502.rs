use vstd::prelude::*;
use crate::bus::{Bus, word};

verus! {

/// 6502 processor status bits.
#[derive(Debug, PartialEq, Eq, Clone, Copy, Structural)]
pub enum StatusFlag {
    Carry,
    Zero,
    DisableInterrupts,
    DecimalMode,
    Break,
    Unused,
    Overflow,
    Negative,
}

use StatusFlag::{Carry, Zero, DisableInterrupts, DecimalMode, Break, Unused, Overflow, Negative};

impl StatusFlag {
    /// The bit of the status register that holds this flag.
    pub open spec fn spec_bits(self) -> u8 {
        match self {
            Carry => 0x01,
            Zero => 0x02,
            DisableInterrupts => 0x04,
            DecimalMode => 0x08,
            Break => 0x10,
            Unused => 0x20,
            Overflow => 0x40,
            Negative => 0x80,
        }
    }

    /// The bit of the status register that holds this flag.
    #[verifier::when_used_as_spec(spec_bits)]
    pub fn bits(self) -> (r: u8)
        ensures
            r == self.spec_bits(),
    {
        match self {
            Carry => 0x01,
            Zero => 0x02,
            DisableInterrupts => 0x04,
            DecimalMode => 0x08,
            Break => 0x10,
            Unused => 0x20,
            Overflow => 0x40,
            Negative => 0x80,
        }
    }
}

/// The registers of a 6502.
#[derive(Debug, PartialEq, Eq, Clone, Copy, Structural)]
pub struct Cpu {
    /// Processor Status
    pub status: u8,
    /// Accumulator
    pub a: u8,
    /// X Register
    pub x: u8,
    /// Y Register
    pub y: u8,
    /// Stack Pointer
    pub s: u8,
    /// Program Counter
    pub pc: u16,
    /// The numbers of cycles remaining for the current operation
    pub cycles_left: u8,
}

pub const STACK_START: u16 = 0x0100;
pub const STACK_INIT: u8 = 0xFD;
pub const STACK_SIZE: u8 = 0xFF;

/// An address that should contain a pointer to the start of our program
pub const PC_INIT_ADDR: u16 = 0xFFFC;

pub const IRQ_POINTER: u16 = 0xFFFE;
pub const NMI_POINTER: u16 = 0xFFFA;

/// The value of `flag` after it is set to `v` in `status`.
pub open spec fn status_with(status: u8, flag: StatusFlag, v: bool) -> u8 {
    if v {
        status | flag.spec_bits()
    } else {
        status & !flag.spec_bits()
    }
}

/// Bit identities for setting and clearing one status bit `m` and reading
/// a status bit `n`.
proof fn lemma_status_bits(s: u8, m: u8, n: u8)
    by (bit_vector)
    requires
        m == 1 || m == 2 || m == 4 || m == 8 || m == 16 || m == 32 || m == 64 || m == 128,
        n == 1 || n == 2 || n == 4 || n == 8 || n == 16 || n == 32 || n == 64 || n == 128,
    ensures
        (s | m) & m != 0,
        (s & !m) & m == 0,
        m != n ==> ((s | m) & n != 0) == (s & n != 0),
        m != n ==> ((s & !m) & n != 0) == (s & n != 0),
{
}

/// A flag that is set reads back as set, one that is cleared reads back as
/// clear, and setting or clearing a flag leaves the other flags as they
/// were.
pub proof fn law_status_set_get(cpu: Cpu, f: StatusFlag, g: StatusFlag, v: bool)
    ensures
        cpu.with_flag(f, v).flag(f) == v,
        f != g ==> cpu.with_flag(f, v).flag(g) == cpu.flag(g),
{
    lemma_status_bits(cpu.status, f.spec_bits(), g.spec_bits());
}

impl Cpu {
    /// Whether `flag` is set.
    pub open spec fn flag(self, flag: StatusFlag) -> bool {
        self.status & flag.spec_bits() != 0
    }

    /// These registers with `flag` set to `v`.
    pub open spec fn with_flag(self, flag: StatusFlag, v: bool) -> Cpu {
        Cpu { status: status_with(self.status, flag, v), ..self }
    }

    /// These registers with the zero and negative flags describing `v`.
    pub open spec fn with_zn(self, v: u8) -> Cpu {
        self.with_flag(Zero, v == 0).with_flag(Negative, v & 0x80 != 0)
    }

    /// The carry flag as the number 0 or 1.
    pub open spec fn carry_bit(self) -> u8 {
        self.status & 0x01
    }

    /// The registers after power on.
    pub open spec fn power_on() -> Cpu {
        Cpu { status: 0x24, a: 0, x: 0, y: 0, pc: 0, s: STACK_INIT, cycles_left: 0 }
    }

    pub fn new() -> (r: Cpu)
        ensures
            r == Cpu::power_on(),
    {
        let status: u8 = 0x00u8 | Unused.bits() | DisableInterrupts.bits();
        proof {
            lemma_power_on_status();
        }
        Cpu { status, a: 0, x: 0, y: 0, pc: 0, s: STACK_INIT, cycles_left: 0 }
    }

    // UTILITIES/HELPER METHODS:

    /// The bit of `flag` in the status register: zero when clear, the flag's
    /// own bit when set.
    pub fn get_status(&self, flag: StatusFlag) -> (r: u8)
        ensures
            r == self.status & flag.spec_bits(),
    {
        self.status & flag.bits()
    }

    pub fn set_status(&mut self, flag: StatusFlag, value: bool)
        ensures
            *final(self) == old(self).with_flag(flag, value),
    {
        if value {
            self.status = self.status | flag.bits();
        } else {
            self.status = self.status & !flag.bits();
        }
    }
}

// BUS ACCESS IN SPECIFICATIONS

/// A read of `addr` from bus state `m`: the byte and the state after.
pub open spec fn bus_read<B: Bus>(m: B::V, addr: u16) -> (u8, B::V) {
    (B::peek(m, addr), B::after_read(m, addr))
}

/// Registers and bus state after pushing `data`.
pub open spec fn push_spec<B: Bus>(cpu: Cpu, m: B::V, data: u8) -> (Cpu, B::V) {
    (
        Cpu { s: cpu.s.wrapping_sub(1), ..cpu },
        B::after_write(m, (STACK_START + cpu.s) as u16, data),
    )
}

/// The byte pulled from the stack, with registers and bus state after.
pub open spec fn pull_spec<B: Bus>(cpu: Cpu, m: B::V) -> (u8, Cpu, B::V) {
    let s = cpu.s.wrapping_add(1);
    let (v, m1) = bus_read::<B>(m, (STACK_START + s) as u16);
    (v, Cpu { s, ..cpu }, m1)
}

impl Cpu {
    fn push<B: Bus>(&mut self, bus: &mut B, data: u8)
        ensures
            (*final(self), final(bus)@) == push_spec::<B>(*old(self), old(bus)@, data),
    {
        bus.write(STACK_START + (self.s as u16), data);
        self.s = self.s.wrapping_sub(1);
    }

    fn pull<B: Bus>(&mut self, bus: &mut B) -> (r: u8)
        ensures
            (r, *final(self), final(bus)@) == pull_spec::<B>(*old(self), old(bus)@),
    {
        self.s = self.s.wrapping_add(1);
        let data: u8 = bus.read(STACK_START + (self.s as u16));
        data
    }
}

// DATA SOURCES

/// Where an instruction finds its operand.
#[derive(Debug, PartialEq, Eq, Clone, Copy, Structural)]
pub enum DataSourceKind {
    Accumulator,
    AbsoluteAddress,
    Implicit,
}

use DataSourceKind::{Accumulator, AbsoluteAddress, Implicit};

#[derive(Debug, PartialEq, Eq, Clone, Copy, Structural)]
pub struct DataSource {
    pub kind: DataSourceKind,
    pub addr: u16,
}

impl DataSource {
    /// The operand that `read` gives, with the bus state after.
    pub open spec fn read_spec<B: Bus>(self, cpu: Cpu, m: B::V) -> (u8, B::V) {
        match self.kind {
            Accumulator => (cpu.a, m),
            AbsoluteAddress => bus_read::<B>(m, self.addr),
            Implicit => (0, m),
        }
    }

    /// Registers and bus state after `write` of `data`.
    pub open spec fn write_spec<B: Bus>(self, cpu: Cpu, m: B::V, data: u8) -> (Cpu, B::V) {
        match self.kind {
            Accumulator => (Cpu { a: data, ..cpu }, m),
            AbsoluteAddress => (cpu, B::after_write(m, self.addr, data)),
            Implicit => (cpu, m),
        }
    }

    /// Reading from or writing to an implicit source panics.
    pub open spec fn is_data(self) -> bool {
        !(self.kind is Implicit)
    }

    pub fn read<B: Bus>(&self, cpu: &Cpu, bus: &mut B) -> (r: u8)
        requires
            self.is_data(),
        ensures
            (r, final(bus)@) == self.read_spec::<B>(*cpu, old(bus)@),
    {
        match self.kind {
            Accumulator => cpu.a,
            AbsoluteAddress => bus.read(self.addr),
            Implicit => 0x00,
        }
    }

    pub fn write<B: Bus>(&self, cpu: &mut Cpu, bus: &mut B, data: u8)
        requires
            self.is_data(),
        ensures
            (*final(cpu), final(bus)@) == self.write_spec::<B>(*old(cpu), old(bus)@, data),
    {
        match self.kind {
            Accumulator => cpu.a = data,
            AbsoluteAddress => bus.write(self.addr, data),
            Implicit => {},
        }
    }
}


// INSTRUCTIONS

/// The operations of the 6502, the documented ones and some undocumented
/// ones that games rely on.
#[derive(Debug, PartialEq, Eq, Clone, Copy, Structural)]
pub enum Instruction {
    ADC, AND, ASL, BCC, BCS, BEQ, BIT, BMI, BNE, BPL, BRK, BVC, BVS, CLC, CLD, CLI,
    CLV, CMP, CPX, CPY, DEC, DEX, DEY, EOR, INC, INX, INY, JMP, JSR, LDA, LDX, LDY,
    LSR, NOP, ORA, PHA, PHP, PLA, PLP, ROL, ROR, RTI, RTS, SBC, SEC, SED, SEI, STA,
    STX, STY, TAX, TAY, TSX, TXA, TXS, TYA,
    // Undocumented:
    LAX, SAX, DCP, ISB, SLO, RLA, SRE, RRA,
}

pub struct InstructionResult {
    pub may_need_extra_cycle: bool,
}

/// Add with carry of `v` to `a`, with the flags that it sets.
pub open spec fn adc_spec(cpu: Cpu, a: u8, v: u8) -> Cpu {
    let result = (a as u16 + v as u16 + (if cpu.flag(Carry) { 1u16 } else { 0u16 })) as u16;
    let overflow = (a as u16 ^ result) & !(a as u16 ^ v as u16) & 0x0080u16;
    Cpu { a: (result & 0x00FFu16) as u8, ..cpu }
        .with_flag(Overflow, overflow != 0)
        .with_flag(Carry, result & 0xFF00u16 != 0)
        .with_flag(Zero, result & 0x00FFu16 == 0)
        .with_flag(Negative, result & 0x0080u16 != 0)
}

/// The flags of a comparison of register value `r` with `v`.
pub open spec fn compare_spec(cpu: Cpu, r: u8, v: u8) -> Cpu {
    cpu.with_flag(Carry, r >= v).with_flag(Zero, r == v).with_flag(
        Negative,
        r.wrapping_sub(v) & 0x80 != 0,
    )
}

/// Shift left; the bit shifted out lands in the carry.
pub open spec fn asl_value(v: u8) -> u8 {
    v << 1u8
}

/// Shift right; the bit shifted out lands in the carry.
pub open spec fn lsr_value(v: u8) -> u8 {
    v >> 1u8
}

/// Rotate left through the carry.
pub open spec fn rol_value(cpu: Cpu, v: u8) -> u8 {
    (v << 1u8) | cpu.carry_bit()
}

/// Rotate right through the carry.
pub open spec fn ror_value(cpu: Cpu, v: u8) -> u8 {
    (v >> 1u8) | (cpu.carry_bit() << 7u8)
}

/// A branch to `target`: one extra cycle, and one more when the target is on
/// another page.
pub open spec fn branch_spec(condition: bool, cpu: Cpu, target: u16) -> Cpu {
    if condition {
        let extra: u8 = if (target & 0xFF00u16) != (cpu.pc & 0xFF00u16) { 2 } else { 1 };
        Cpu { cycles_left: (cpu.cycles_left + extra) as u8, pc: target, ..cpu }
    } else {
        cpu
    }
}

/// Whether the instruction may take the extra cycle of an addressing mode
/// that crosses a page.
pub open spec fn extra_cycle_spec(ins: Instruction) -> bool {
    match ins {
        Instruction::AND | Instruction::EOR | Instruction::ORA | Instruction::LDA
        | Instruction::LDX | Instruction::LDY | Instruction::LAX | Instruction::ADC
        | Instruction::SBC | Instruction::CMP | Instruction::ISB | Instruction::RRA => true,
        _ => false,
    }
}

/// Whether the instruction reads or writes its operand.
pub open spec fn uses_operand(ins: Instruction) -> bool {
    match ins {
        Instruction::AND | Instruction::EOR | Instruction::ORA | Instruction::BIT
        | Instruction::LDA | Instruction::LDX | Instruction::LDY | Instruction::LAX
        | Instruction::STA | Instruction::STX | Instruction::STY | Instruction::SAX
        | Instruction::ADC | Instruction::SBC | Instruction::CMP | Instruction::CPX
        | Instruction::CPY | Instruction::INC | Instruction::ISB | Instruction::DEC
        | Instruction::DCP | Instruction::ASL | Instruction::SLO | Instruction::LSR
        | Instruction::SRE | Instruction::ROL | Instruction::RLA | Instruction::ROR
        | Instruction::RRA => true,
        _ => false,
    }
}

/// The inputs on which the instruction runs without a panic: an operand
/// that is not implicit where it needs one, a program counter above zero
/// for JSR, a return address below $FFFF for RTS, and a cycle count with
/// room for the extra cycles of a branch.
pub open spec fn instruction_ok<B: Bus>(ins: Instruction, cpu: Cpu, m: B::V, d: DataSource) -> bool {
    &&& uses_operand(ins) ==> d.is_data()
    &&& ins == Instruction::JSR ==> cpu.pc >= 1
    &&& ins == Instruction::RTS ==> {
        let (lo, c1, m1) = pull_spec::<B>(cpu, m);
        let (hi, c2, m2) = pull_spec::<B>(c1, m1);
        word(lo, hi) != 0xFFFF
    }
    &&& (ins == Instruction::BCC || ins == Instruction::BCS || ins == Instruction::BEQ
        || ins == Instruction::BMI || ins == Instruction::BPL || ins == Instruction::BNE
        || ins == Instruction::BVC || ins == Instruction::BVS) ==> cpu.cycles_left <= 253
}

/// What an instruction does to the registers and the bus, given where its
/// operand is.
pub open spec fn execute<B: Bus>(ins: Instruction, cpu: Cpu, m: B::V, d: DataSource) -> (Cpu, B::V) {
    let (v, m1) = d.read_spec::<B>(cpu, m);
    match ins {
        // Logical
        Instruction::AND => (Cpu { a: cpu.a & v, ..cpu }.with_zn(cpu.a & v), m1),
        Instruction::EOR => (Cpu { a: cpu.a ^ v, ..cpu }.with_zn(cpu.a ^ v), m1),
        Instruction::ORA => (Cpu { a: cpu.a | v, ..cpu }.with_zn(cpu.a | v), m1),
        Instruction::BIT => (
            cpu.with_flag(Zero, cpu.a & v == 0).with_flag(Overflow, v & 0x40 != 0).with_flag(
                Negative,
                v & 0x80 != 0,
            ),
            m1,
        ),
        // Loads and stores
        Instruction::LDA => (Cpu { a: v, ..cpu }.with_zn(v), m1),
        Instruction::LDX => (Cpu { x: v, ..cpu }.with_zn(v), m1),
        Instruction::LDY => (Cpu { y: v, ..cpu }.with_zn(v), m1),
        Instruction::LAX => (Cpu { a: v, x: v, ..cpu }.with_zn(v), m1),
        Instruction::STA => d.write_spec::<B>(cpu, m, cpu.a),
        Instruction::STX => d.write_spec::<B>(cpu, m, cpu.x),
        Instruction::STY => d.write_spec::<B>(cpu, m, cpu.y),
        Instruction::SAX => d.write_spec::<B>(cpu, m, cpu.a & cpu.x),
        // Register transfers
        Instruction::TAX => (Cpu { x: cpu.a, ..cpu }.with_zn(cpu.a), m),
        Instruction::TAY => (Cpu { y: cpu.a, ..cpu }.with_zn(cpu.a), m),
        Instruction::TXA => (Cpu { a: cpu.x, ..cpu }.with_zn(cpu.x), m),
        Instruction::TYA => (Cpu { a: cpu.y, ..cpu }.with_zn(cpu.y), m),
        Instruction::TSX => (Cpu { x: cpu.s, ..cpu }.with_zn(cpu.s), m),
        Instruction::TXS => (Cpu { s: cpu.x, ..cpu }, m),
        // Stack
        Instruction::PHA => push_spec::<B>(cpu, m, cpu.a),
        Instruction::PHP => push_spec::<B>(cpu, m, (cpu.status | 0x10) | 0x20),
        Instruction::PLA => {
            let (p, c1, m2) = pull_spec::<B>(cpu, m);
            (Cpu { a: p, ..c1 }.with_zn(p), m2)
        },
        Instruction::PLP => {
            let (p, c1, m2) = pull_spec::<B>(cpu, m);
            (Cpu { status: p, ..c1 }.with_flag(Unused, true).with_flag(Break, false), m2)
        },
        // Arithmetic
        Instruction::ADC => (adc_spec(cpu, cpu.a, v), m1),
        Instruction::SBC => (adc_spec(cpu, cpu.a, !v), m1),
        Instruction::CMP => (compare_spec(cpu, cpu.a, v), m1),
        Instruction::CPX => (compare_spec(cpu, cpu.x, v), m1),
        Instruction::CPY => (compare_spec(cpu, cpu.y, v), m1),
        // Increments and decrements
        Instruction::INC => {
            let r = v.wrapping_add(1);
            d.write_spec::<B>(cpu.with_zn(r), m1, r)
        },
        Instruction::DEC => {
            let r = v.wrapping_sub(1);
            d.write_spec::<B>(cpu.with_zn(r), m1, r)
        },
        Instruction::INX => (Cpu { x: cpu.x.wrapping_add(1), ..cpu }.with_zn(cpu.x.wrapping_add(1)), m),
        Instruction::INY => (Cpu { y: cpu.y.wrapping_add(1), ..cpu }.with_zn(cpu.y.wrapping_add(1)), m),
        Instruction::DEX => (Cpu { x: cpu.x.wrapping_sub(1), ..cpu }.with_zn(cpu.x.wrapping_sub(1)), m),
        Instruction::DEY => (Cpu { y: cpu.y.wrapping_sub(1), ..cpu }.with_zn(cpu.y.wrapping_sub(1)), m),
        Instruction::ISB => {
            let r = v.wrapping_add(1);
            let (c2, m2) = d.write_spec::<B>(cpu, m1, r);
            (adc_spec(c2, c2.a, !r), m2)
        },
        Instruction::DCP => {
            let r = v.wrapping_sub(1);
            let (c2, m2) = d.write_spec::<B>(cpu, m1, r);
            (c2.with_flag(Carry, cpu.a >= r).with_flag(Zero, cpu.a == r).with_flag(
                Negative,
                cpu.a.wrapping_sub(r) & 0x80 != 0,
            ), m2)
        },
        // Shifts
        Instruction::ASL => {
            let r = asl_value(v);
            d.write_spec::<B>(cpu.with_flag(Carry, v & 0x80 != 0).with_zn(r), m1, r)
        },
        Instruction::LSR => {
            let r = lsr_value(v);
            d.write_spec::<B>(cpu.with_flag(Carry, v & 0x01 != 0).with_zn(r), m1, r)
        },
        Instruction::ROL => {
            let r = rol_value(cpu, v);
            d.write_spec::<B>(cpu.with_flag(Carry, v & 0x80 != 0).with_zn(r), m1, r)
        },
        Instruction::ROR => {
            let r = ror_value(cpu, v);
            d.write_spec::<B>(cpu.with_flag(Carry, v & 0x01 != 0).with_zn(r), m1, r)
        },
        Instruction::SLO => {
            let r = asl_value(v);
            let c1 = cpu.with_flag(Carry, v & 0x80 != 0);
            d.write_spec::<B>(Cpu { a: cpu.a | r, ..c1 }.with_zn(cpu.a | r), m1, r)
        },
        Instruction::SRE => {
            let r = lsr_value(v);
            let (c2, m2) = d.write_spec::<B>(cpu.with_flag(Carry, v & 0x01 != 0), m1, r);
            (Cpu { a: c2.a ^ r, ..c2 }.with_zn(c2.a ^ r), m2)
        },
        Instruction::RLA => {
            let r = rol_value(cpu, v);
            let c1 = cpu.with_flag(Carry, v & 0x80 != 0).with_zn(cpu.a & r);
            d.write_spec::<B>(Cpu { a: cpu.a & r, ..c1 }, m1, r)
        },
        Instruction::RRA => {
            let r = ror_value(cpu, v);
            let (c2, m2) = d.write_spec::<B>(cpu.with_flag(Carry, v & 0x01 != 0), m1, r);
            (adc_spec(c2, c2.a, r), m2)
        },
        // Jumps and calls
        Instruction::JMP => (Cpu { pc: d.addr, ..cpu }, m),
        Instruction::JSR => {
            let ret = (cpu.pc - 1) as u16;
            let (c1, m2) = push_spec::<B>(cpu, m, ((ret >> 8u16) & 0x00FFu16) as u8);
            let (c2, m3) = push_spec::<B>(c1, m2, (ret & 0x00FFu16) as u8);
            (Cpu { pc: d.addr, ..c2 }, m3)
        },
        Instruction::RTS => {
            let (lo, c1, m2) = pull_spec::<B>(cpu, m);
            let (hi, c2, m3) = pull_spec::<B>(c1, m2);
            (Cpu { pc: (word(lo, hi) + 1) as u16, ..c2 }, m3)
        },
        // Branches
        Instruction::BCC => (branch_spec(!cpu.flag(Carry), cpu, d.addr), m),
        Instruction::BCS => (branch_spec(cpu.flag(Carry), cpu, d.addr), m),
        Instruction::BEQ => (branch_spec(cpu.flag(Zero), cpu, d.addr), m),
        Instruction::BMI => (branch_spec(cpu.flag(Negative), cpu, d.addr), m),
        Instruction::BPL => (branch_spec(!cpu.flag(Negative), cpu, d.addr), m),
        Instruction::BNE => (branch_spec(!cpu.flag(Zero), cpu, d.addr), m),
        Instruction::BVC => (branch_spec(!cpu.flag(Overflow), cpu, d.addr), m),
        Instruction::BVS => (branch_spec(cpu.flag(Overflow), cpu, d.addr), m),
        // Status flag changes
        Instruction::CLC => (cpu.with_flag(Carry, false), m),
        Instruction::CLD => (cpu.with_flag(DecimalMode, false), m),
        Instruction::CLI => (cpu.with_flag(DisableInterrupts, false), m),
        Instruction::CLV => (cpu.with_flag(Overflow, false), m),
        Instruction::SEC => (cpu.with_flag(Carry, true), m),
        Instruction::SED => (cpu.with_flag(DecimalMode, true), m),
        Instruction::SEI => (cpu.with_flag(DisableInterrupts, true), m),
        // System
        Instruction::BRK => {
            let (c1, m2) = push_spec::<B>(cpu, m, (cpu.pc >> 8u16) as u8);
            let (c2, m3) = push_spec::<B>(c1, m2, 0);
            let (c3, m4) = push_spec::<B>(c2, m3, c2.status);
            let (lo, m5) = bus_read::<B>(m4, IRQ_POINTER);
            let (hi, m6) = bus_read::<B>(m5, (IRQ_POINTER + 1) as u16);
            (Cpu { pc: word(lo, hi), ..c3 }.with_flag(Break, true), m6)
        },
        Instruction::RTI => {
            let (p, c1, m2) = pull_spec::<B>(cpu, m);
            let (lo, c2, m3) = pull_spec::<B>(c1, m2);
            let (hi, c3, m4) = pull_spec::<B>(c2, m3);
            (Cpu { status: (p | (cpu.status & 0x10)) | (cpu.status & 0x20), pc: word(lo, hi), ..c3 }, m4)
        },
        Instruction::NOP => (cpu, m),
    }
}

/// `(c2, m2, r)` is what executing `ins` on `(c1, m1)` with operand source
/// `d` leaves and returns.
pub open spec fn executes<B: Bus>(
    ins: Instruction,
    c1: Cpu,
    m1: B::V,
    d: DataSource,
    c2: Cpu,
    m2: B::V,
    r: InstructionResult,
) -> bool {
    &&& (c2, m2) == execute::<B>(ins, c1, m1, d)
    &&& r.may_need_extra_cycle == extra_cycle_spec(ins)
}


// Facts about byte arithmetic done in 16 bits.

/// The flags of a 16-bit result are those of its low byte.
pub(crate) proof fn lemma_byte_flags(d: u16, e: u8)
    requires
        d % 256 == e as u16,
    ensures
        (d & 0x00FF) as u8 == e,
        (d & 0x00FF == 0) == (e == 0),
        (d & 0x0080 != 0) == (e & 0x80 != 0),
{
    assert((d & 0x00FF) as u8 == e && (d & 0x00FF == 0) == (e == 0) && (d & 0x0080 != 0) == (e
        & 0x80 != 0)) by (bit_vector)
        requires
            d % 256 == e as u16,
    ;
}

pub(crate) proof fn lemma_inc_16(v: u8)
    ensures
        ({
            let r = (v as u16).wrapping_add(1);
            &&& (r & 0x00FF) as u8 == v.wrapping_add(1)
            &&& (r & 0x00FF == 0) == (v.wrapping_add(1) == 0)
            &&& (r & 0x0080 != 0) == (v.wrapping_add(1) & 0x80 != 0)
        }),
{
    lemma_byte_flags((v as u16).wrapping_add(1), v.wrapping_add(1));
}

pub(crate) proof fn lemma_dec_16(v: u8)
    ensures
        ({
            let r = (v as u16).wrapping_sub(1);
            &&& (r & 0x00FF) as u8 == v.wrapping_sub(1)
            &&& (r & 0x00FF == 0) == (v.wrapping_sub(1) == 0)
            &&& (r & 0x0080 != 0) == (v.wrapping_sub(1) & 0x80 != 0)
        }),
{
    lemma_byte_flags((v as u16).wrapping_sub(1), v.wrapping_sub(1));
}

/// A comparison computed in 16 bits gives the flags of the 8-bit one.
pub(crate) proof fn lemma_compare_16(r: u8, v: u8)
    ensures
        ({
            let d = (r as u16).wrapping_sub(v as u16);
            &&& (d & 0x00FF == 0) == (r == v)
            &&& (d & 0x0080 != 0) == (r.wrapping_sub(v) & 0x80 != 0)
        }),
{
    lemma_byte_flags((r as u16).wrapping_sub(v as u16), r.wrapping_sub(v));
}

/// The comparison of DCP, made against the decrement computed in 16 bits.
proof fn lemma_dcp_16(a: u8, v: u8)
    ensures
        ({
            let d = (a as u16).wrapping_sub((v as u16).wrapping_sub(1));
            let w = v.wrapping_sub(1);
            &&& (d & 0x00FF == 0) == (a == w)
            &&& (d & 0x0080 != 0) == (a.wrapping_sub(w) & 0x80 != 0)
        }),
{
    let w = v.wrapping_sub(1);
    lemma_byte_flags((a as u16).wrapping_sub((v as u16).wrapping_sub(1)), a.wrapping_sub(w));
}

// LOGICAL INSTRUCTIONS

/// AND
fn and<B: Bus>(cpu: &mut Cpu, bus: &mut B, data: &DataSource) -> (r: InstructionResult)
    requires
        instruction_ok::<B>(Instruction::AND, *old(cpu), old(bus)@, *data),
    ensures
        executes::<B>(Instruction::AND, *old(cpu), old(bus)@, *data, *final(cpu), final(bus)@, r),
{
    cpu.a = cpu.a & data.read(cpu, bus);
    cpu.set_status(Zero, cpu.a == 0x00);
    cpu.set_status(Negative, cpu.a & 0b_1000_0000 != 0);
    InstructionResult { may_need_extra_cycle: true }
}

/// Exclusive OR
fn eor<B: Bus>(cpu: &mut Cpu, bus: &mut B, data: &DataSource) -> (r: InstructionResult)
    requires
        instruction_ok::<B>(Instruction::EOR, *old(cpu), old(bus)@, *data),
    ensures
        executes::<B>(Instruction::EOR, *old(cpu), old(bus)@, *data, *final(cpu), final(bus)@, r),
{
    cpu.a = cpu.a ^ data.read(cpu, bus);
    cpu.set_status(Zero, cpu.a == 0x00);
    cpu.set_status(Negative, cpu.a & 0b_1000_0000 != 0);
    InstructionResult { may_need_extra_cycle: true }
}

/// Inclusive OR
fn ora<B: Bus>(cpu: &mut Cpu, bus: &mut B, data: &DataSource) -> (r: InstructionResult)
    requires
        instruction_ok::<B>(Instruction::ORA, *old(cpu), old(bus)@, *data),
    ensures
        executes::<B>(Instruction::ORA, *old(cpu), old(bus)@, *data, *final(cpu), final(bus)@, r),
{
    cpu.a = cpu.a | data.read(cpu, bus);
    cpu.set_status(Zero, cpu.a == 0x00);
    cpu.set_status(Negative, cpu.a & 0b_1000_0000 != 0);
    InstructionResult { may_need_extra_cycle: true }
}

/// Bit Test
fn bit<B: Bus>(cpu: &mut Cpu, bus: &mut B, data: &DataSource) -> (r: InstructionResult)
    requires
        instruction_ok::<B>(Instruction::BIT, *old(cpu), old(bus)@, *data),
    ensures
        executes::<B>(Instruction::BIT, *old(cpu), old(bus)@, *data, *final(cpu), final(bus)@, r),
{
    let m: u8 = data.read(cpu, bus);
    cpu.set_status(Zero, cpu.a & m == 0x00);
    // Bit 6 from memory value is copied to overflow flag:
    cpu.set_status(Overflow, m & 0b_0100_0000 != 0);
    cpu.set_status(Negative, m & 0b_1000_0000 != 0);
    InstructionResult { may_need_extra_cycle: false }
}

// LOAD/STORE OPERATIONS

/// Load Accumulator
fn lda<B: Bus>(cpu: &mut Cpu, bus: &mut B, data: &DataSource) -> (r: InstructionResult)
    requires
        instruction_ok::<B>(Instruction::LDA, *old(cpu), old(bus)@, *data),
    ensures
        executes::<B>(Instruction::LDA, *old(cpu), old(bus)@, *data, *final(cpu), final(bus)@, r),
{
    let m: u8 = data.read(cpu, bus);
    cpu.a = m;
    cpu.set_status(Zero, m == 0);
    cpu.set_status(Negative, m & 0b_1000_0000 != 0);
    InstructionResult { may_need_extra_cycle: true }
}

/// Load X
fn ldx<B: Bus>(cpu: &mut Cpu, bus: &mut B, data: &DataSource) -> (r: InstructionResult)
    requires
        instruction_ok::<B>(Instruction::LDX, *old(cpu), old(bus)@, *data),
    ensures
        executes::<B>(Instruction::LDX, *old(cpu), old(bus)@, *data, *final(cpu), final(bus)@, r),
{
    let m: u8 = data.read(cpu, bus);
    cpu.x = m;
    cpu.set_status(Zero, m == 0);
    cpu.set_status(Negative, m & 0b_1000_0000 != 0);
    InstructionResult { may_need_extra_cycle: true }
}

/// Load Y
fn ldy<B: Bus>(cpu: &mut Cpu, bus: &mut B, data: &DataSource) -> (r: InstructionResult)
    requires
        instruction_ok::<B>(Instruction::LDY, *old(cpu), old(bus)@, *data),
    ensures
        executes::<B>(Instruction::LDY, *old(cpu), old(bus)@, *data, *final(cpu), final(bus)@, r),
{
    let m: u8 = data.read(cpu, bus);
    cpu.y = m;
    cpu.set_status(Zero, m == 0);
    cpu.set_status(Negative, m & 0b_1000_0000 != 0);
    InstructionResult { may_need_extra_cycle: true }
}

/// Undocumented: load the accumulator and X
fn lax<B: Bus>(cpu: &mut Cpu, bus: &mut B, data: &DataSource) -> (r: InstructionResult)
    requires
        instruction_ok::<B>(Instruction::LAX, *old(cpu), old(bus)@, *data),
    ensures
        executes::<B>(Instruction::LAX, *old(cpu), old(bus)@, *data, *final(cpu), final(bus)@, r),
{
    let m: u8 = data.read(cpu, bus);
    cpu.a = m;
    cpu.x = m;
    cpu.set_status(Zero, m == 0);
    cpu.set_status(Negative, m & 0b_1000_0000 != 0);
    InstructionResult { may_need_extra_cycle: true }
}

/// Store Accumulator
fn sta<B: Bus>(cpu: &mut Cpu, bus: &mut B, data: &DataSource) -> (r: InstructionResult)
    requires
        instruction_ok::<B>(Instruction::STA, *old(cpu), old(bus)@, *data),
    ensures
        executes::<B>(Instruction::STA, *old(cpu), old(bus)@, *data, *final(cpu), final(bus)@, r),
{
    let v: u8 = cpu.a;
    data.write(cpu, bus, v);
    InstructionResult { may_need_extra_cycle: false }
}

/// Store X
fn stx<B: Bus>(cpu: &mut Cpu, bus: &mut B, data: &DataSource) -> (r: InstructionResult)
    requires
        instruction_ok::<B>(Instruction::STX, *old(cpu), old(bus)@, *data),
    ensures
        executes::<B>(Instruction::STX, *old(cpu), old(bus)@, *data, *final(cpu), final(bus)@, r),
{
    let v: u8 = cpu.x;
    data.write(cpu, bus, v);
    InstructionResult { may_need_extra_cycle: false }
}

/// Store Y
fn sty<B: Bus>(cpu: &mut Cpu, bus: &mut B, data: &DataSource) -> (r: InstructionResult)
    requires
        instruction_ok::<B>(Instruction::STY, *old(cpu), old(bus)@, *data),
    ensures
        executes::<B>(Instruction::STY, *old(cpu), old(bus)@, *data, *final(cpu), final(bus)@, r),
{
    let v: u8 = cpu.y;
    data.write(cpu, bus, v);
    InstructionResult { may_need_extra_cycle: false }
}

/// Undocumented: store the accumulator AND X
fn sax<B: Bus>(cpu: &mut Cpu, bus: &mut B, data: &DataSource) -> (r: InstructionResult)
    requires
        instruction_ok::<B>(Instruction::SAX, *old(cpu), old(bus)@, *data),
    ensures
        executes::<B>(Instruction::SAX, *old(cpu), old(bus)@, *data, *final(cpu), final(bus)@, r),
{
    let v: u8 = cpu.a & cpu.x;
    data.write(cpu, bus, v);
    InstructionResult { may_need_extra_cycle: false }
}

// REGISTER TRANSFERS

/// Transfer Accumulator to X
fn tax<B: Bus>(cpu: &mut Cpu, bus: &mut B, data: &DataSource) -> (r: InstructionResult)
    requires
        instruction_ok::<B>(Instruction::TAX, *old(cpu), old(bus)@, *data),
    ensures
        executes::<B>(Instruction::TAX, *old(cpu), old(bus)@, *data, *final(cpu), final(bus)@, r),
{
    cpu.x = cpu.a;
    cpu.set_status(Zero, cpu.a == 0x00);
    cpu.set_status(Negative, cpu.a & 0b_1000_0000 != 0);
    InstructionResult { may_need_extra_cycle: false }
}

/// Transfer Accumulator to Y
fn tay<B: Bus>(cpu: &mut Cpu, bus: &mut B, data: &DataSource) -> (r: InstructionResult)
    requires
        instruction_ok::<B>(Instruction::TAY, *old(cpu), old(bus)@, *data),
    ensures
        executes::<B>(Instruction::TAY, *old(cpu), old(bus)@, *data, *final(cpu), final(bus)@, r),
{
    cpu.y = cpu.a;
    cpu.set_status(Zero, cpu.a == 0x00);
    cpu.set_status(Negative, cpu.a & 0b_1000_0000 != 0);
    InstructionResult { may_need_extra_cycle: false }
}

/// Transfer X to Accumulator
fn txa<B: Bus>(cpu: &mut Cpu, bus: &mut B, data: &DataSource) -> (r: InstructionResult)
    requires
        instruction_ok::<B>(Instruction::TXA, *old(cpu), old(bus)@, *data),
    ensures
        executes::<B>(Instruction::TXA, *old(cpu), old(bus)@, *data, *final(cpu), final(bus)@, r),
{
    cpu.a = cpu.x;
    cpu.set_status(Zero, cpu.x == 0x00);
    cpu.set_status(Negative, cpu.x & 0b_1000_0000 != 0);
    InstructionResult { may_need_extra_cycle: false }
}

/// Transfer Y to Accumulator
fn tya<B: Bus>(cpu: &mut Cpu, bus: &mut B, data: &DataSource) -> (r: InstructionResult)
    requires
        instruction_ok::<B>(Instruction::TYA, *old(cpu), old(bus)@, *data),
    ensures
        executes::<B>(Instruction::TYA, *old(cpu), old(bus)@, *data, *final(cpu), final(bus)@, r),
{
    cpu.a = cpu.y;
    cpu.set_status(Zero, cpu.y == 0x00);
    cpu.set_status(Negative, cpu.y & 0b_1000_0000 != 0);
    InstructionResult { may_need_extra_cycle: false }
}

/// Transfer Stack Pointer to X
fn tsx<B: Bus>(cpu: &mut Cpu, bus: &mut B, data: &DataSource) -> (r: InstructionResult)
    requires
        instruction_ok::<B>(Instruction::TSX, *old(cpu), old(bus)@, *data),
    ensures
        executes::<B>(Instruction::TSX, *old(cpu), old(bus)@, *data, *final(cpu), final(bus)@, r),
{
    cpu.x = cpu.s;
    cpu.set_status(Zero, cpu.s == 0x00);
    cpu.set_status(Negative, cpu.s & 0b_1000_0000 != 0);
    InstructionResult { may_need_extra_cycle: false }
}

/// Transfer X to Stack Pointer
fn txs<B: Bus>(cpu: &mut Cpu, bus: &mut B, data: &DataSource) -> (r: InstructionResult)
    requires
        instruction_ok::<B>(Instruction::TXS, *old(cpu), old(bus)@, *data),
    ensures
        executes::<B>(Instruction::TXS, *old(cpu), old(bus)@, *data, *final(cpu), final(bus)@, r),
{
    cpu.s = cpu.x;
    InstructionResult { may_need_extra_cycle: false }
}

// STACK OPERATIONS

/// Push Accumulator
fn pha<B: Bus>(cpu: &mut Cpu, bus: &mut B, data: &DataSource) -> (r: InstructionResult)
    requires
        instruction_ok::<B>(Instruction::PHA, *old(cpu), old(bus)@, *data),
    ensures
        executes::<B>(Instruction::PHA, *old(cpu), old(bus)@, *data, *final(cpu), final(bus)@, r),
{
    let v: u8 = cpu.a;
    cpu.push(bus, v);
    InstructionResult { may_need_extra_cycle: false }
}

/// Push Processor Status
fn php<B: Bus>(cpu: &mut Cpu, bus: &mut B, data: &DataSource) -> (r: InstructionResult)
    requires
        instruction_ok::<B>(Instruction::PHP, *old(cpu), old(bus)@, *data),
    ensures
        executes::<B>(Instruction::PHP, *old(cpu), old(bus)@, *data, *final(cpu), final(bus)@, r),
{
    let v: u8 = cpu.status | Break.bits() | Unused.bits();
    cpu.push(bus, v);
    InstructionResult { may_need_extra_cycle: false }
}

/// Pull Accumulator
fn pla<B: Bus>(cpu: &mut Cpu, bus: &mut B, data: &DataSource) -> (r: InstructionResult)
    requires
        instruction_ok::<B>(Instruction::PLA, *old(cpu), old(bus)@, *data),
    ensures
        executes::<B>(Instruction::PLA, *old(cpu), old(bus)@, *data, *final(cpu), final(bus)@, r),
{
    cpu.a = cpu.pull(bus);
    cpu.set_status(Zero, cpu.a == 0x00);
    cpu.set_status(Negative, cpu.a & 0b_1000_0000 != 0);
    InstructionResult { may_need_extra_cycle: false }
}

/// Pull Processor Status
fn plp<B: Bus>(cpu: &mut Cpu, bus: &mut B, data: &DataSource) -> (r: InstructionResult)
    requires
        instruction_ok::<B>(Instruction::PLP, *old(cpu), old(bus)@, *data),
    ensures
        executes::<B>(Instruction::PLP, *old(cpu), old(bus)@, *data, *final(cpu), final(bus)@, r),
{
    cpu.status = cpu.pull(bus);
    cpu.set_status(Unused, true);
    cpu.set_status(Break, false);
    InstructionResult { may_need_extra_cycle: false }
}

// ARITHMETIC

/// Add `m` and the carry to `a`, storing the sum in the accumulator.
fn adc_(cpu: &mut Cpu, a: u8, m: u8) -> (r: InstructionResult)
    ensures
        *final(cpu) == adc_spec(*old(cpu), a, m),
        r.may_need_extra_cycle,
{
    let c: u16 = if cpu.get_status(Carry) != 0 { 1 } else { 0 };
    let result: u16 = a as u16 + m as u16 + c;
    {
        let overflow: u16 = (a as u16 ^ result) & !(a as u16 ^ m as u16) & 0x0080;
        cpu.set_status(Overflow, overflow != 0);
    }
    cpu.set_status(Carry, result & 0xFF00 != 0);
    cpu.set_status(Zero, (result & 0x00FF) == 0);
    cpu.set_status(Negative, (result & 0x80) != 0);
    cpu.a = (result & 0x00FF) as u8;
    InstructionResult { may_need_extra_cycle: true }
}


/// Add with Carry
fn adc<B: Bus>(cpu: &mut Cpu, bus: &mut B, data: &DataSource) -> (r: InstructionResult)
    requires
        instruction_ok::<B>(Instruction::ADC, *old(cpu), old(bus)@, *data),
    ensures
        executes::<B>(Instruction::ADC, *old(cpu), old(bus)@, *data, *final(cpu), final(bus)@, r),
{
    let a: u8 = cpu.a;
    let m: u8 = data.read(cpu, bus);
    return adc_(cpu, a, m);
}

/// Subtract with Carry
fn sbc<B: Bus>(cpu: &mut Cpu, bus: &mut B, data: &DataSource) -> (r: InstructionResult)
    requires
        instruction_ok::<B>(Instruction::SBC, *old(cpu), old(bus)@, *data),
    ensures
        executes::<B>(Instruction::SBC, *old(cpu), old(bus)@, *data, *final(cpu), final(bus)@, r),
{
    let a: u8 = cpu.a;
    let m: u8 = !data.read(cpu, bus);
    return adc_(cpu, a, m);
}

/// The 16-bit difference `r - m` that comparisons take their flags from.
fn difference(r: u8, m: u8) -> (d: u16)
    ensures
        d == (r as u16).wrapping_sub(m as u16),
{
    (r as u16).wrapping_sub(m as u16)
}


/// Compare Accumulator
fn cmp<B: Bus>(cpu: &mut Cpu, bus: &mut B, data: &DataSource) -> (r: InstructionResult)
    requires
        instruction_ok::<B>(Instruction::CMP, *old(cpu), old(bus)@, *data),
    ensures
        executes::<B>(Instruction::CMP, *old(cpu), old(bus)@, *data, *final(cpu), final(bus)@, r),
{
    let r: u8 = cpu.a;
    let m: u8 = data.read(cpu, bus);
    let result: u16 = difference(r, m);
    proof { lemma_compare_16(r, m); }
    cpu.set_status(Carry, r >= m);
    cpu.set_status(Zero, (result & 0x00FF) == 0);
    cpu.set_status(Negative, (result & 0x0080) != 0);
    InstructionResult { may_need_extra_cycle: true }
}

/// Compare X
fn cpx<B: Bus>(cpu: &mut Cpu, bus: &mut B, data: &DataSource) -> (r: InstructionResult)
    requires
        instruction_ok::<B>(Instruction::CPX, *old(cpu), old(bus)@, *data),
    ensures
        executes::<B>(Instruction::CPX, *old(cpu), old(bus)@, *data, *final(cpu), final(bus)@, r),
{
    let r: u8 = cpu.x;
    let m: u8 = data.read(cpu, bus);
    let result: u16 = difference(r, m);
    proof { lemma_compare_16(r, m); }
    cpu.set_status(Carry, r >= m);
    cpu.set_status(Zero, (result & 0x00FF) == 0);
    cpu.set_status(Negative, (result & 0x0080) != 0);
    InstructionResult { may_need_extra_cycle: false }
}

/// Compare Y
fn cpy<B: Bus>(cpu: &mut Cpu, bus: &mut B, data: &DataSource) -> (r: InstructionResult)
    requires
        instruction_ok::<B>(Instruction::CPY, *old(cpu), old(bus)@, *data),
    ensures
        executes::<B>(Instruction::CPY, *old(cpu), old(bus)@, *data, *final(cpu), final(bus)@, r),
{
    let r: u8 = cpu.y;
    let m: u8 = data.read(cpu, bus);
    let result: u16 = difference(r, m);
    proof { lemma_compare_16(r, m); }
    cpu.set_status(Carry, r >= m);
    cpu.set_status(Zero, r == m);
    cpu.set_status(Negative, (result & 0x0080) != 0);
    InstructionResult { may_need_extra_cycle: false }
}

// INCREMENTS & DECREMENTS

/// Increment Memory
fn inc<B: Bus>(cpu: &mut Cpu, bus: &mut B, data: &DataSource) -> (r: InstructionResult)
    requires
        instruction_ok::<B>(Instruction::INC, *old(cpu), old(bus)@, *data),
    ensures
        executes::<B>(Instruction::INC, *old(cpu), old(bus)@, *data, *final(cpu), final(bus)@, r),
{
    let m: u8 = data.read(cpu, bus);
    let result: u16 = (m as u16).wrapping_add(1);
    proof { lemma_inc_16(m); }
    cpu.set_status(Zero, (result & 0x00FF) == 0);
    cpu.set_status(Negative, (result & 0x0080) != 0);
    data.write(cpu, bus, (result & 0x00FF) as u8);
    InstructionResult { may_need_extra_cycle: false }
}

/// Decrement Memory
fn dec<B: Bus>(cpu: &mut Cpu, bus: &mut B, data: &DataSource) -> (r: InstructionResult)
    requires
        instruction_ok::<B>(Instruction::DEC, *old(cpu), old(bus)@, *data),
    ensures
        executes::<B>(Instruction::DEC, *old(cpu), old(bus)@, *data, *final(cpu), final(bus)@, r),
{
    let m: u8 = data.read(cpu, bus);
    let result: u16 = (m as u16).wrapping_sub(1);
    proof { lemma_dec_16(m); }
    cpu.set_status(Zero, (result & 0x00FF) == 0);
    cpu.set_status(Negative, (result & 0x0080) != 0);
    data.write(cpu, bus, (result & 0x00FF) as u8);
    InstructionResult { may_need_extra_cycle: false }
}

/// Increment X
fn inx<B: Bus>(cpu: &mut Cpu, bus: &mut B, data: &DataSource) -> (r: InstructionResult)
    requires
        instruction_ok::<B>(Instruction::INX, *old(cpu), old(bus)@, *data),
    ensures
        executes::<B>(Instruction::INX, *old(cpu), old(bus)@, *data, *final(cpu), final(bus)@, r),
{
    let result: u16 = (cpu.x as u16).wrapping_add(1);
    proof { lemma_inc_16(cpu.x); }
    cpu.set_status(Zero, (result & 0x00FF) == 0);
    cpu.set_status(Negative, (result & 0x0080) != 0);
    cpu.x = (result & 0x00FF) as u8;
    InstructionResult { may_need_extra_cycle: false }
}

/// Increment Y
fn iny<B: Bus>(cpu: &mut Cpu, bus: &mut B, data: &DataSource) -> (r: InstructionResult)
    requires
        instruction_ok::<B>(Instruction::INY, *old(cpu), old(bus)@, *data),
    ensures
        executes::<B>(Instruction::INY, *old(cpu), old(bus)@, *data, *final(cpu), final(bus)@, r),
{
    let result: u16 = (cpu.y as u16).wrapping_add(1);
    proof { lemma_inc_16(cpu.y); }
    cpu.set_status(Zero, (result & 0x00FF) == 0);
    cpu.set_status(Negative, (result & 0x0080) != 0);
    cpu.y = (result & 0x00FF) as u8;
    InstructionResult { may_need_extra_cycle: false }
}

/// Decrement X
fn dex<B: Bus>(cpu: &mut Cpu, bus: &mut B, data: &DataSource) -> (r: InstructionResult)
    requires
        instruction_ok::<B>(Instruction::DEX, *old(cpu), old(bus)@, *data),
    ensures
        executes::<B>(Instruction::DEX, *old(cpu), old(bus)@, *data, *final(cpu), final(bus)@, r),
{
    let result: u16 = (cpu.x as u16).wrapping_sub(1);
    proof { lemma_dec_16(cpu.x); }
    cpu.set_status(Zero, (result & 0x00FF) == 0);
    cpu.set_status(Negative, (result & 0x0080) != 0);
    cpu.x = (result & 0x00FF) as u8;
    InstructionResult { may_need_extra_cycle: false }
}

/// Decrement Y
fn dey<B: Bus>(cpu: &mut Cpu, bus: &mut B, data: &DataSource) -> (r: InstructionResult)
    requires
        instruction_ok::<B>(Instruction::DEY, *old(cpu), old(bus)@, *data),
    ensures
        executes::<B>(Instruction::DEY, *old(cpu), old(bus)@, *data, *final(cpu), final(bus)@, r),
{
    let result: u16 = (cpu.y as u16).wrapping_sub(1);
    proof { lemma_dec_16(cpu.y); }
    cpu.set_status(Zero, (result & 0x00FF) == 0);
    cpu.set_status(Negative, (result & 0x0080) != 0);
    cpu.y = (result & 0x00FF) as u8;
    InstructionResult { may_need_extra_cycle: false }
}

/// Undocumented: INC + SBC
fn isb<B: Bus>(cpu: &mut Cpu, bus: &mut B, data: &DataSource) -> (r: InstructionResult)
    requires
        instruction_ok::<B>(Instruction::ISB, *old(cpu), old(bus)@, *data),
    ensures
        executes::<B>(Instruction::ISB, *old(cpu), old(bus)@, *data, *final(cpu), final(bus)@, r),
{
    let m: u8 = data.read(cpu, bus);
    let result: u16 = (m as u16).wrapping_add(1);
    proof { lemma_inc_16(m); }
    data.write(cpu, bus, (result & 0x00FF) as u8);
    let a: u8 = cpu.a;
    let n: u8 = !((result & 0x00FF) as u8);
    return adc_(cpu, a, n);
}

/// Undocumented: DEC + CMP
fn dcp<B: Bus>(cpu: &mut Cpu, bus: &mut B, data: &DataSource) -> (r: InstructionResult)
    requires
        instruction_ok::<B>(Instruction::DCP, *old(cpu), old(bus)@, *data),
    ensures
        executes::<B>(Instruction::DCP, *old(cpu), old(bus)@, *data, *final(cpu), final(bus)@, r),
{
    let a: u8 = cpu.a;
    let m: u8 = data.read(cpu, bus);
    let dec_result: u16 = (m as u16).wrapping_sub(1);
    proof { lemma_dec_16(m); lemma_dcp_16(a, m); }
    data.write(cpu, bus, (dec_result & 0x00FF) as u8);
    // DEC then CMP: the accumulator is compared with the decremented byte.
    cpu.set_status(Carry, a >= m.wrapping_sub(1));
    let compared: u16 = (a as u16).wrapping_sub(dec_result);
    cpu.set_status(Zero, (compared & 0x00FF) == 0);
    cpu.set_status(Negative, (compared & 0x0080) != 0);
    InstructionResult { may_need_extra_cycle: false }
}

// SHIFTS

/// Arithmetic Shift Left
fn asl<B: Bus>(cpu: &mut Cpu, bus: &mut B, data: &DataSource) -> (r: InstructionResult)
    requires
        instruction_ok::<B>(Instruction::ASL, *old(cpu), old(bus)@, *data),
    ensures
        executes::<B>(Instruction::ASL, *old(cpu), old(bus)@, *data, *final(cpu), final(bus)@, r),
{
    let m: u8 = data.read(cpu, bus);
    let result: u8 = m << 1u8;
    // The carry gets bit 7, which was shifted out of the result:
    cpu.set_status(Carry, m & 0x80 != 0);
    cpu.set_status(Zero, result == 0);
    cpu.set_status(Negative, (result & 0x0080) != 0);
    data.write(cpu, bus, result);
    InstructionResult { may_need_extra_cycle: false }
}

/// Undocumented: ASL + ORA
fn slo<B: Bus>(cpu: &mut Cpu, bus: &mut B, data: &DataSource) -> (r: InstructionResult)
    requires
        instruction_ok::<B>(Instruction::SLO, *old(cpu), old(bus)@, *data),
    ensures
        executes::<B>(Instruction::SLO, *old(cpu), old(bus)@, *data, *final(cpu), final(bus)@, r),
{
    let m: u8 = data.read(cpu, bus);
    let result: u8 = m << 1u8;
    cpu.set_status(Carry, m & 0x80 != 0);
    cpu.a = cpu.a | result;
    cpu.set_status(Zero, cpu.a == 0x00);
    cpu.set_status(Negative, cpu.a & 0b_1000_0000 != 0);
    data.write(cpu, bus, result);
    InstructionResult { may_need_extra_cycle: false }
}

/// Logical Shift Right
fn lsr<B: Bus>(cpu: &mut Cpu, bus: &mut B, data: &DataSource) -> (r: InstructionResult)
    requires
        instruction_ok::<B>(Instruction::LSR, *old(cpu), old(bus)@, *data),
    ensures
        executes::<B>(Instruction::LSR, *old(cpu), old(bus)@, *data, *final(cpu), final(bus)@, r),
{
    let m: u8 = data.read(cpu, bus);
    let result: u8 = m >> 1u8;
    // The carry gets bit 0, which was shifted out of the result:
    cpu.set_status(Carry, m & 0x01 != 0);
    cpu.set_status(Zero, result == 0);
    cpu.set_status(Negative, result & 0x80 != 0);
    data.write(cpu, bus, result);
    InstructionResult { may_need_extra_cycle: false }
}

/// Undocumented: LSR + EOR
fn sre<B: Bus>(cpu: &mut Cpu, bus: &mut B, data: &DataSource) -> (r: InstructionResult)
    requires
        instruction_ok::<B>(Instruction::SRE, *old(cpu), old(bus)@, *data),
    ensures
        executes::<B>(Instruction::SRE, *old(cpu), old(bus)@, *data, *final(cpu), final(bus)@, r),
{
    let m: u8 = data.read(cpu, bus);
    let result: u8 = m >> 1u8;
    cpu.set_status(Carry, m & 0x01 != 0);
    data.write(cpu, bus, result);
    cpu.a = cpu.a ^ result;
    cpu.set_status(Zero, cpu.a == 0x00);
    cpu.set_status(Negative, cpu.a & 0b_1000_0000 != 0);
    InstructionResult { may_need_extra_cycle: false }
}

/// Rotate Left
fn rol<B: Bus>(cpu: &mut Cpu, bus: &mut B, data: &DataSource) -> (r: InstructionResult)
    requires
        instruction_ok::<B>(Instruction::ROL, *old(cpu), old(bus)@, *data),
    ensures
        executes::<B>(Instruction::ROL, *old(cpu), old(bus)@, *data, *final(cpu), final(bus)@, r),
{
    let m: u8 = data.read(cpu, bus);
    let result: u8 = (m << 1u8) | cpu.get_status(Carry);
    let old_bit_7: u8 = m >> 7u8;
    proof { lemma_top_bit(m); }
    cpu.set_status(Carry, old_bit_7 != 0);
    cpu.set_status(Zero, result == 0);
    cpu.set_status(Negative, result & 0x80 != 0);
    data.write(cpu, bus, result);
    InstructionResult { may_need_extra_cycle: false }
}

/// Undocumented: ROL + AND
fn rla<B: Bus>(cpu: &mut Cpu, bus: &mut B, data: &DataSource) -> (r: InstructionResult)
    requires
        instruction_ok::<B>(Instruction::RLA, *old(cpu), old(bus)@, *data),
    ensures
        executes::<B>(Instruction::RLA, *old(cpu), old(bus)@, *data, *final(cpu), final(bus)@, r),
{
    let m: u8 = data.read(cpu, bus);
    let result: u8 = (m << 1u8) | cpu.get_status(Carry);
    let old_bit_7: u8 = m >> 7u8;
    proof { lemma_top_bit(m); }
    cpu.set_status(Carry, old_bit_7 != 0);
    // ROL then AND: the flags describe the new accumulator.
    let anded: u8 = cpu.a & result;
    cpu.set_status(Zero, anded == 0);
    cpu.set_status(Negative, anded & 0x80 != 0);
    cpu.a = anded;
    data.write(cpu, bus, result);
    InstructionResult { may_need_extra_cycle: false }
}

/// Rotate Right
fn ror<B: Bus>(cpu: &mut Cpu, bus: &mut B, data: &DataSource) -> (r: InstructionResult)
    requires
        instruction_ok::<B>(Instruction::ROR, *old(cpu), old(bus)@, *data),
    ensures
        executes::<B>(Instruction::ROR, *old(cpu), old(bus)@, *data, *final(cpu), final(bus)@, r),
{
    let m: u8 = data.read(cpu, bus);
    let result: u8 = (m >> 1u8) | (cpu.get_status(Carry) << 7u8);
    let old_bit_0: u8 = m & 0x01;
    cpu.set_status(Carry, old_bit_0 != 0);
    cpu.set_status(Zero, result == 0);
    cpu.set_status(Negative, result & 0x80 != 0);
    data.write(cpu, bus, result);
    InstructionResult { may_need_extra_cycle: false }
}

/// Undocumented: ROR + ADC
fn rra<B: Bus>(cpu: &mut Cpu, bus: &mut B, data: &DataSource) -> (r: InstructionResult)
    requires
        instruction_ok::<B>(Instruction::RRA, *old(cpu), old(bus)@, *data),
    ensures
        executes::<B>(Instruction::RRA, *old(cpu), old(bus)@, *data, *final(cpu), final(bus)@, r),
{
    let m: u8 = data.read(cpu, bus);
    let result: u8 = (m >> 1u8) | (cpu.get_status(Carry) << 7u8);
    let old_bit_0: u8 = m & 0x01;
    cpu.set_status(Carry, old_bit_0 != 0);
    data.write(cpu, bus, result);
    let a: u8 = cpu.a;
    return adc_(cpu, a, result);
}

// JUMPS & CALLS

/// Jump
fn jmp<B: Bus>(cpu: &mut Cpu, bus: &mut B, data: &DataSource) -> (r: InstructionResult)
    requires
        instruction_ok::<B>(Instruction::JMP, *old(cpu), old(bus)@, *data),
    ensures
        executes::<B>(Instruction::JMP, *old(cpu), old(bus)@, *data, *final(cpu), final(bus)@, r),
{
    cpu.pc = data.addr;
    InstructionResult { may_need_extra_cycle: false }
}

/// Jump to Subroutine
fn jsr<B: Bus>(cpu: &mut Cpu, bus: &mut B, data: &DataSource) -> (r: InstructionResult)
    requires
        instruction_ok::<B>(Instruction::JSR, *old(cpu), old(bus)@, *data),
    ensures
        executes::<B>(Instruction::JSR, *old(cpu), old(bus)@, *data, *final(cpu), final(bus)@, r),
{
    let return_addr: u16 = cpu.pc - 1;
    let return_hi: u8 = ((return_addr >> 8u16) & 0x00FF) as u8;
    cpu.push(bus, return_hi);
    let return_lo: u8 = (return_addr & 0x00FF) as u8;
    cpu.push(bus, return_lo);
    cpu.pc = data.addr;
    InstructionResult { may_need_extra_cycle: false }
}

/// Return from Subroutine
fn rts<B: Bus>(cpu: &mut Cpu, bus: &mut B, data: &DataSource) -> (r: Option<InstructionResult>)
    ensures
        r.is_some() == instruction_ok::<B>(Instruction::RTS, *old(cpu), old(bus)@, *data),
        r matches Some(res) ==> executes::<B>(Instruction::RTS, *old(cpu), old(bus)@, *data, *final(cpu), final(bus)@, res),
{
    let return_lo: u8 = cpu.pull(bus);
    let return_hi: u8 = cpu.pull(bus);
    let return_addr: u16 = ((return_hi as u16) << 8u16) | return_lo as u16;
    // The return address is the byte after the one pulled.
    if return_addr == 0xFFFF {
        return None;
    }
    cpu.pc = return_addr;
    cpu.pc = cpu.pc + 1;
    Some(InstructionResult { may_need_extra_cycle: false })
}

// BRANCHES

/// Every branching instruction takes the branch on its own condition: a
/// branch costs an extra cycle, and one more when it crosses into another
/// page.
fn branch_if(condition: bool, cpu: &mut Cpu, data: &DataSource) -> (r: InstructionResult)
    requires
        old(cpu).cycles_left <= 253,
    ensures
        *final(cpu) == branch_spec(condition, *old(cpu), data.addr),
        !r.may_need_extra_cycle,
{
    if condition {
        // If we are branching, we use up an extra cycle
        cpu.cycles_left = cpu.cycles_left + 1;
        let new_pc: u16 = data.addr;
        // Crossing pages costs one cycle more:
        if (new_pc & 0xFF00) != (cpu.pc & 0xFF00) {
            cpu.cycles_left = cpu.cycles_left + 1;
        }
        cpu.pc = new_pc;
    }
    InstructionResult { may_need_extra_cycle: false }
}


/// Branch if Carry Clear
fn bcc<B: Bus>(cpu: &mut Cpu, bus: &mut B, data: &DataSource) -> (r: InstructionResult)
    requires
        instruction_ok::<B>(Instruction::BCC, *old(cpu), old(bus)@, *data),
    ensures
        executes::<B>(Instruction::BCC, *old(cpu), old(bus)@, *data, *final(cpu), final(bus)@, r),
{
    let c: bool = cpu.get_status(Carry) == 0;
    branch_if(c, cpu, data)
}

/// Branch if Carry Set
fn bcs<B: Bus>(cpu: &mut Cpu, bus: &mut B, data: &DataSource) -> (r: InstructionResult)
    requires
        instruction_ok::<B>(Instruction::BCS, *old(cpu), old(bus)@, *data),
    ensures
        executes::<B>(Instruction::BCS, *old(cpu), old(bus)@, *data, *final(cpu), final(bus)@, r),
{
    let c: bool = cpu.get_status(Carry) != 0;
    branch_if(c, cpu, data)
}

/// Branch if Equal
fn beq<B: Bus>(cpu: &mut Cpu, bus: &mut B, data: &DataSource) -> (r: InstructionResult)
    requires
        instruction_ok::<B>(Instruction::BEQ, *old(cpu), old(bus)@, *data),
    ensures
        executes::<B>(Instruction::BEQ, *old(cpu), old(bus)@, *data, *final(cpu), final(bus)@, r),
{
    let c: bool = cpu.get_status(Zero) != 0;
    branch_if(c, cpu, data)
}

/// Branch if Minus
fn bmi<B: Bus>(cpu: &mut Cpu, bus: &mut B, data: &DataSource) -> (r: InstructionResult)
    requires
        instruction_ok::<B>(Instruction::BMI, *old(cpu), old(bus)@, *data),
    ensures
        executes::<B>(Instruction::BMI, *old(cpu), old(bus)@, *data, *final(cpu), final(bus)@, r),
{
    let c: bool = cpu.get_status(Negative) != 0;
    branch_if(c, cpu, data)
}

/// Branch if Positive
fn bpl<B: Bus>(cpu: &mut Cpu, bus: &mut B, data: &DataSource) -> (r: InstructionResult)
    requires
        instruction_ok::<B>(Instruction::BPL, *old(cpu), old(bus)@, *data),
    ensures
        executes::<B>(Instruction::BPL, *old(cpu), old(bus)@, *data, *final(cpu), final(bus)@, r),
{
    let c: bool = cpu.get_status(Negative) == 0;
    branch_if(c, cpu, data)
}

/// Branch if Not Equal
fn bne<B: Bus>(cpu: &mut Cpu, bus: &mut B, data: &DataSource) -> (r: InstructionResult)
    requires
        instruction_ok::<B>(Instruction::BNE, *old(cpu), old(bus)@, *data),
    ensures
        executes::<B>(Instruction::BNE, *old(cpu), old(bus)@, *data, *final(cpu), final(bus)@, r),
{
    let c: bool = cpu.get_status(Zero) == 0;
    branch_if(c, cpu, data)
}

/// Branch if Overflow Clear
fn bvc<B: Bus>(cpu: &mut Cpu, bus: &mut B, data: &DataSource) -> (r: InstructionResult)
    requires
        instruction_ok::<B>(Instruction::BVC, *old(cpu), old(bus)@, *data),
    ensures
        executes::<B>(Instruction::BVC, *old(cpu), old(bus)@, *data, *final(cpu), final(bus)@, r),
{
    let c: bool = cpu.get_status(Overflow) == 0;
    branch_if(c, cpu, data)
}

/// Branch if Overflow Set
fn bvs<B: Bus>(cpu: &mut Cpu, bus: &mut B, data: &DataSource) -> (r: InstructionResult)
    requires
        instruction_ok::<B>(Instruction::BVS, *old(cpu), old(bus)@, *data),
    ensures
        executes::<B>(Instruction::BVS, *old(cpu), old(bus)@, *data, *final(cpu), final(bus)@, r),
{
    let c: bool = cpu.get_status(Overflow) != 0;
    branch_if(c, cpu, data)
}

// STATUS FLAG CHANGES

/// Clear carry
fn clc<B: Bus>(cpu: &mut Cpu, bus: &mut B, data: &DataSource) -> (r: InstructionResult)
    requires
        instruction_ok::<B>(Instruction::CLC, *old(cpu), old(bus)@, *data),
    ensures
        executes::<B>(Instruction::CLC, *old(cpu), old(bus)@, *data, *final(cpu), final(bus)@, r),
{
    cpu.set_status(Carry, false);
    InstructionResult { may_need_extra_cycle: false }
}

/// Clear decimal mode
fn cld<B: Bus>(cpu: &mut Cpu, bus: &mut B, data: &DataSource) -> (r: InstructionResult)
    requires
        instruction_ok::<B>(Instruction::CLD, *old(cpu), old(bus)@, *data),
    ensures
        executes::<B>(Instruction::CLD, *old(cpu), old(bus)@, *data, *final(cpu), final(bus)@, r),
{
    cpu.set_status(DecimalMode, false);
    InstructionResult { may_need_extra_cycle: false }
}

/// Clear interrupt disable
fn cli<B: Bus>(cpu: &mut Cpu, bus: &mut B, data: &DataSource) -> (r: InstructionResult)
    requires
        instruction_ok::<B>(Instruction::CLI, *old(cpu), old(bus)@, *data),
    ensures
        executes::<B>(Instruction::CLI, *old(cpu), old(bus)@, *data, *final(cpu), final(bus)@, r),
{
    cpu.set_status(DisableInterrupts, false);
    InstructionResult { may_need_extra_cycle: false }
}

/// Clear overflow
fn clv<B: Bus>(cpu: &mut Cpu, bus: &mut B, data: &DataSource) -> (r: InstructionResult)
    requires
        instruction_ok::<B>(Instruction::CLV, *old(cpu), old(bus)@, *data),
    ensures
        executes::<B>(Instruction::CLV, *old(cpu), old(bus)@, *data, *final(cpu), final(bus)@, r),
{
    cpu.set_status(Overflow, false);
    InstructionResult { may_need_extra_cycle: false }
}

/// Set carry
fn sec<B: Bus>(cpu: &mut Cpu, bus: &mut B, data: &DataSource) -> (r: InstructionResult)
    requires
        instruction_ok::<B>(Instruction::SEC, *old(cpu), old(bus)@, *data),
    ensures
        executes::<B>(Instruction::SEC, *old(cpu), old(bus)@, *data, *final(cpu), final(bus)@, r),
{
    cpu.set_status(Carry, true);
    InstructionResult { may_need_extra_cycle: false }
}

/// Set decimal mode
fn sed<B: Bus>(cpu: &mut Cpu, bus: &mut B, data: &DataSource) -> (r: InstructionResult)
    requires
        instruction_ok::<B>(Instruction::SED, *old(cpu), old(bus)@, *data),
    ensures
        executes::<B>(Instruction::SED, *old(cpu), old(bus)@, *data, *final(cpu), final(bus)@, r),
{
    cpu.set_status(DecimalMode, true);
    InstructionResult { may_need_extra_cycle: false }
}

/// Set interrupt disable
fn sei<B: Bus>(cpu: &mut Cpu, bus: &mut B, data: &DataSource) -> (r: InstructionResult)
    requires
        instruction_ok::<B>(Instruction::SEI, *old(cpu), old(bus)@, *data),
    ensures
        executes::<B>(Instruction::SEI, *old(cpu), old(bus)@, *data, *final(cpu), final(bus)@, r),
{
    cpu.set_status(DisableInterrupts, true);
    InstructionResult { may_need_extra_cycle: false }
}

// SYSTEM FUNCTIONS

/// Force an interrupt
fn brk<B: Bus>(cpu: &mut Cpu, bus: &mut B, data: &DataSource) -> (r: InstructionResult)
    requires
        instruction_ok::<B>(Instruction::BRK, *old(cpu), old(bus)@, *data),
    ensures
        executes::<B>(Instruction::BRK, *old(cpu), old(bus)@, *data, *final(cpu), final(bus)@, r),
{
    let pc_hi: u8 = (cpu.pc >> 8u16) as u8;
    cpu.push(bus, pc_hi);
    let pc_lo: u8 = (cpu.pc << 8u16) as u8;
    proof { let pc = cpu.pc; assert((pc << 8u16) as u8 == 0) by (bit_vector); }
    cpu.push(bus, pc_lo);
    let status: u8 = cpu.status;
    cpu.push(bus, status);
    let irq_addr: u16 = bus.read16(IRQ_POINTER);
    cpu.pc = irq_addr;
    cpu.set_status(Break, true);
    InstructionResult { may_need_extra_cycle: false }
}

/// Return from interrupt
fn rti<B: Bus>(cpu: &mut Cpu, bus: &mut B, data: &DataSource) -> (r: InstructionResult)
    requires
        instruction_ok::<B>(Instruction::RTI, *old(cpu), old(bus)@, *data),
    ensures
        executes::<B>(Instruction::RTI, *old(cpu), old(bus)@, *data, *final(cpu), final(bus)@, r),
{
    let pulled: u8 = cpu.pull(bus);
    cpu.status = pulled | cpu.get_status(Break) | cpu.get_status(Unused);
    let pc_lo: u16 = cpu.pull(bus) as u16;
    let pc_hi: u16 = cpu.pull(bus) as u16;
    cpu.pc = (pc_hi << 8u16) | pc_lo;
    InstructionResult { may_need_extra_cycle: false }
}

/// No operation
fn nop<B: Bus>(cpu: &mut Cpu, bus: &mut B, data: &DataSource) -> (r: InstructionResult)
    requires
        instruction_ok::<B>(Instruction::NOP, *old(cpu), old(bus)@, *data),
    ensures
        executes::<B>(Instruction::NOP, *old(cpu), old(bus)@, *data, *final(cpu), final(bus)@, r),
{

    InstructionResult { may_need_extra_cycle: false }
}


// ADDRESSING MODES

/// An addressing mode provides the operand of an instruction: the
/// accumulator, an absolute address, or nothing.
#[derive(Debug, PartialEq, Eq, Clone, Copy, Structural)]
pub struct AddressingModeResult {
    pub data: DataSource,
    pub needs_extra_cycle: bool,
}

pub open spec fn absolute(addr: u16, extra: bool) -> AddressingModeResult {
    AddressingModeResult { data: DataSource { kind: AbsoluteAddress, addr }, needs_extra_cycle: extra }
}

/// The program counter one byte further on.
pub open spec fn next_pc(cpu: Cpu) -> Cpu {
    Cpu { pc: cpu.pc.wrapping_add(1), ..cpu }
}

/// The two operand bytes at the program counter, read low byte first, with
/// registers and bus state after.
pub open spec fn fetch_word<B: Bus>(cpu: Cpu, m: B::V) -> (u8, u8, Cpu, B::V) {
    let (lo, m1) = bus_read::<B>(m, cpu.pc);
    let c1 = next_pc(cpu);
    let (hi, m2) = bus_read::<B>(m1, c1.pc);
    (lo, hi, next_pc(c1), m2)
}

/// The branch target of a relative offset from `pc`.
pub open spec fn relative_target(pc: u16, offset: u8) -> int {
    if offset & 0x80 != 0 {
        pc - (256 - offset)
    } else {
        pc + offset
    }
}

/// The inputs on which an addressing mode runs without a panic: an absolute
/// X address that does not pass $FFFF, an X register below $FF for
/// (indirect,X), and a relative target inside the address space.
pub open spec fn mode_ok<B: Bus>(mode: AddressingMode, cpu: Cpu, m: B::V) -> bool {
    match mode {
        AddressingMode::ABX => {
            let (lo, hi, c2, m2) = fetch_word::<B>(cpu, m);
            word(lo, hi) + cpu.x <= 0xFFFF
        },
        AddressingMode::IZX => cpu.x < 0xFF,
        AddressingMode::REL => {
            let (offset, m1) = bus_read::<B>(m, cpu.pc);
            0 <= relative_target(cpu.pc.wrapping_add(1), offset) <= 0xFFFF
        },
        _ => true,
    }
}

/// What an addressing mode does to the registers and the bus, and the
/// operand it provides.
pub open spec fn address<B: Bus>(mode: AddressingMode, cpu: Cpu, m: B::V) -> (Cpu, B::V, AddressingModeResult) {
    match mode {
        AddressingMode::IMP => (
            cpu,
            m,
            AddressingModeResult { data: DataSource { kind: Implicit, addr: 0 }, needs_extra_cycle: false },
        ),
        AddressingMode::ACC => (
            cpu,
            m,
            AddressingModeResult { data: DataSource { kind: Accumulator, addr: 0 }, needs_extra_cycle: false },
        ),
        AddressingMode::IMM => (next_pc(cpu), m, absolute(cpu.pc, false)),
        AddressingMode::ZP0 => {
            let (v, m1) = bus_read::<B>(m, cpu.pc);
            (next_pc(cpu), m1, absolute(v as u16, false))
        },
        AddressingMode::ZPX => {
            let (v, m1) = bus_read::<B>(m, cpu.pc);
            (next_pc(cpu), m1, absolute(cpu.x.wrapping_add(v) as u16, false))
        },
        AddressingMode::ZPY => {
            let (v, m1) = bus_read::<B>(m, cpu.pc);
            (next_pc(cpu), m1, absolute(cpu.y.wrapping_add(v) as u16, false))
        },
        AddressingMode::ABS => {
            let (lo, hi, c2, m2) = fetch_word::<B>(cpu, m);
            (c2, m2, absolute(word(lo, hi), false))
        },
        AddressingMode::ABX => {
            let (lo, hi, c2, m2) = fetch_word::<B>(cpu, m);
            let addr = (word(lo, hi) + cpu.x) as u16;
            (c2, m2, absolute(addr, addr & 0xFF00u16 != (hi as u16) << 8u16))
        },
        AddressingMode::ABY => {
            let (lo, hi, c2, m2) = fetch_word::<B>(cpu, m);
            let addr = word(lo, hi).wrapping_add(cpu.y as u16);
            (c2, m2, absolute(addr, addr & 0xFF00u16 != (hi as u16) << 8u16))
        },
        AddressingMode::IND => {
            let (plo, phi, c2, m2) = fetch_word::<B>(cpu, m);
            let ptr = word(plo, phi);
            if plo == 0xFF {
                // The pointer's high byte comes from the start of its page:
                let (hi, m3) = bus_read::<B>(m2, ptr & 0xFF00u16);
                let (lo, m4) = bus_read::<B>(m3, ptr);
                (c2, m4, absolute(word(lo, hi), false))
            } else {
                let (lo, m3) = bus_read::<B>(m2, ptr);
                let (hi, m4) = bus_read::<B>(m3, (ptr + 1) as u16);
                (c2, m4, absolute(word(lo, hi), false))
            }
        },
        AddressingMode::IZX => {
            let (p, m1) = bus_read::<B>(m, cpu.pc);
            let (lo, m2) = bus_read::<B>(m1, p.wrapping_add(cpu.x) as u16);
            let (hi, m3) = bus_read::<B>(m2, p.wrapping_add((cpu.x + 1) as u8) as u16);
            (next_pc(cpu), m3, absolute(word(lo, hi), false))
        },
        AddressingMode::IZY => {
            let (p, m1) = bus_read::<B>(m, cpu.pc);
            let (lo, m2) = bus_read::<B>(m1, p as u16);
            let (hi, m3) = bus_read::<B>(m2, p.wrapping_add(1) as u16);
            let addr = word(lo, hi).wrapping_add(cpu.y as u16);
            // The byte after the pointer is read again to see if a page is crossed:
            let (ah, m4) = bus_read::<B>(m3, (p as u16 + 1) as u16);
            (next_pc(cpu), m4, absolute(addr, addr & 0xFF00u16 != (ah as u16) << 8u16))
        },
        AddressingMode::REL => {
            let (offset, m1) = bus_read::<B>(m, cpu.pc);
            let c1 = next_pc(cpu);
            (c1, m1, absolute(relative_target(c1.pc, offset) as u16, false))
        },
    }
}

/// `(c2, m2, r)` is what the addressing mode does to `(c1, m1)` and provides.
pub open spec fn addresses<B: Bus>(
    mode: AddressingMode,
    c1: Cpu,
    m1: B::V,
    c2: Cpu,
    m2: B::V,
    r: AddressingModeResult,
) -> bool {
    (c2, m2, r) == address::<B>(mode, c1, m1)
}

pub(crate) proof fn lemma_byte_as_word(v: u8)
    by (bit_vector)
    ensures
        (v as u16) & 0x00FF == v as u16,
{
}

/// The status bits that a power-on and a reset set.
pub(crate) proof fn lemma_power_on_status()
    by (bit_vector)
    ensures
        0x00u8 | 0x20u8 | 0x04u8 == 0x24u8,
        0x00u8 | 0x20u8 == 0x20u8,
{
}

/// The top bit of a byte, shifted down or masked.
pub(crate) proof fn lemma_top_bit(m: u8)
    by (bit_vector)
    ensures
        (m >> 7u8 != 0) == (m & 0x80 != 0),
{
}

/// A pointer whose low byte is not $FF is not $FFFF.
pub(crate) proof fn lemma_pointer_word(plo: u8, phi: u8)
    by (bit_vector)
    ensures
        plo != 0xFF ==> word(plo, phi) != 0xFFFF,
{
}

/// Adding `x + 1` to a byte, both with wrap-around, is adding both modulo
/// 256.
pub(crate) proof fn lemma_wrapping_add_next(p: u8, x: u8)
    by (bit_vector)
    ensures
        p.wrapping_add((x + 1) as u8) as int == (p + x + 1) % 256,
{
}

/// Implied addressing
fn imp<B: Bus>(cpu: &mut Cpu, bus: &mut B) -> (r: AddressingModeResult)
    ensures
        addresses::<B>(AddressingMode::IMP, *old(cpu), old(bus)@, *final(cpu), final(bus)@, r),
{
    AddressingModeResult { data: DataSource { kind: Implicit, addr: 0x0000 }, needs_extra_cycle: false }
}

/// Immediate addressing: the operand is the byte at the program counter
fn imm<B: Bus>(cpu: &mut Cpu, bus: &mut B) -> (r: AddressingModeResult)
    ensures
        addresses::<B>(AddressingMode::IMM, *old(cpu), old(bus)@, *final(cpu), final(bus)@, r),
{
    let addr_abs: u16 = cpu.pc;
    cpu.pc = cpu.pc.wrapping_add(1);
    AddressingModeResult {
        data: DataSource { kind: AbsoluteAddress, addr: addr_abs },
        needs_extra_cycle: false,
    }
}

/// Zero Page addressing: a byte in the first 256 bytes of memory
fn zp0<B: Bus>(cpu: &mut Cpu, bus: &mut B) -> (r: AddressingModeResult)
    ensures
        addresses::<B>(AddressingMode::ZP0, *old(cpu), old(bus)@, *final(cpu), final(bus)@, r),
{
    let v: u8 = bus.read(cpu.pc);
    let addr_abs: u16 = (v as u16) & 0x00FF;
    proof { lemma_byte_as_word(v); }
    cpu.pc = cpu.pc.wrapping_add(1);
    AddressingModeResult {
        data: DataSource { kind: AbsoluteAddress, addr: addr_abs },
        needs_extra_cycle: false,
    }
}

/// Zero Page addressing, with X address offset
fn zpx<B: Bus>(cpu: &mut Cpu, bus: &mut B) -> (r: AddressingModeResult)
    ensures
        addresses::<B>(AddressingMode::ZPX, *old(cpu), old(bus)@, *final(cpu), final(bus)@, r),
{
    let v: u8 = cpu.x.wrapping_add(bus.read(cpu.pc));
    let addr_abs: u16 = (v as u16) & 0x00FF;
    proof { lemma_byte_as_word(v); }
    cpu.pc = cpu.pc.wrapping_add(1);
    AddressingModeResult {
        data: DataSource { kind: AbsoluteAddress, addr: addr_abs },
        needs_extra_cycle: false,
    }
}

/// Zero Page addressing, with Y address offset
fn zpy<B: Bus>(cpu: &mut Cpu, bus: &mut B) -> (r: AddressingModeResult)
    ensures
        addresses::<B>(AddressingMode::ZPY, *old(cpu), old(bus)@, *final(cpu), final(bus)@, r),
{
    let v: u8 = cpu.y.wrapping_add(bus.read(cpu.pc));
    let addr_abs: u16 = (v as u16) & 0x00FF;
    proof { lemma_byte_as_word(v); }
    cpu.pc = cpu.pc.wrapping_add(1);
    AddressingModeResult {
        data: DataSource { kind: AbsoluteAddress, addr: addr_abs },
        needs_extra_cycle: false,
    }
}

/// Absolute addressing: a full 16-bit address after the opcode
fn abs<B: Bus>(cpu: &mut Cpu, bus: &mut B) -> (r: AddressingModeResult)
    ensures
        addresses::<B>(AddressingMode::ABS, *old(cpu), old(bus)@, *final(cpu), final(bus)@, r),
{
    let addr_lo: u16 = bus.read(cpu.pc) as u16;
    cpu.pc = cpu.pc.wrapping_add(1);
    let addr_hi: u16 = bus.read(cpu.pc) as u16;
    cpu.pc = cpu.pc.wrapping_add(1);
    AddressingModeResult {
        data: DataSource { kind: AbsoluteAddress, addr: (addr_hi << 8u16) | addr_lo },
        needs_extra_cycle: false,
    }
}

/// Absolute addressing + X; crossing a page may cost a cycle
fn abx<B: Bus>(cpu: &mut Cpu, bus: &mut B) -> (r: Option<AddressingModeResult>)
    ensures
        r.is_some() == mode_ok::<B>(AddressingMode::ABX, *old(cpu), old(bus)@),
        r matches Some(res) ==> addresses::<B>(AddressingMode::ABX, *old(cpu), old(bus)@, *final(cpu), final(bus)@, res),
{
    let addr_lo: u16 = bus.read(cpu.pc) as u16;
    cpu.pc = cpu.pc.wrapping_add(1);
    let addr_hi: u16 = bus.read(cpu.pc) as u16;
    cpu.pc = cpu.pc.wrapping_add(1);
    let base: u16 = (addr_hi << 8u16) | addr_lo;
    // The address must not pass $FFFF.
    if base > 0xFFFF - (cpu.x as u16) {
        return None;
    }
    let addr_abs: u16 = base + cpu.x as u16;
    // If the high byte changed when X was added, a page was crossed:
    let needs_extra_cycle: bool = addr_abs & 0xFF00 != (addr_hi << 8u16);
    Some(AddressingModeResult {
        data: DataSource { kind: AbsoluteAddress, addr: addr_abs },
        needs_extra_cycle,
    })
}

/// Absolute addressing + Y; crossing a page may cost a cycle
fn aby<B: Bus>(cpu: &mut Cpu, bus: &mut B) -> (r: AddressingModeResult)
    ensures
        addresses::<B>(AddressingMode::ABY, *old(cpu), old(bus)@, *final(cpu), final(bus)@, r),
{
    let addr_lo: u16 = bus.read(cpu.pc) as u16;
    cpu.pc = cpu.pc.wrapping_add(1);
    let addr_hi: u16 = bus.read(cpu.pc) as u16;
    cpu.pc = cpu.pc.wrapping_add(1);
    let addr_abs: u16 = ((addr_hi << 8u16) | addr_lo).wrapping_add(cpu.y as u16);
    let needs_extra_cycle: bool = addr_abs & 0xFF00 != (addr_hi << 8u16);
    AddressingModeResult {
        data: DataSource { kind: AbsoluteAddress, addr: addr_abs },
        needs_extra_cycle,
    }
}

/// Indirect
fn ind<B: Bus>(cpu: &mut Cpu, bus: &mut B) -> (r: AddressingModeResult)
    ensures
        addresses::<B>(AddressingMode::IND, *old(cpu), old(bus)@, *final(cpu), final(bus)@, r),
{
    let ptr_lo: u16 = bus.read(cpu.pc) as u16;
    cpu.pc = cpu.pc.wrapping_add(1);
    let ptr_hi: u16 = bus.read(cpu.pc) as u16;
    cpu.pc = cpu.pc.wrapping_add(1);
    let ptr: u16 = ptr_hi << 8u16 | ptr_lo;
    // The 6502 does not carry into the high byte when a pointer spans two
    // pages: the high byte is read from the start of the same page.
    let addr_abs: u16 = if ptr_lo == 0x00FF {
        let hi: u16 = bus.read(ptr & 0xFF00) as u16;
        let lo: u16 = bus.read(ptr) as u16;
        (hi << 8u16) | lo
    } else {
        proof {
            let (plo, phi, c2, m2) = fetch_word::<B>(*old(cpu), old(bus)@);
            assert(ptr_lo == plo as u16);
            assert(ptr == word(plo, phi));
            lemma_pointer_word(plo, phi);
        }
        bus.read16(ptr)
    };
    AddressingModeResult {
        data: DataSource { kind: AbsoluteAddress, addr: addr_abs },
        needs_extra_cycle: false,
    }
}

/// (Indirect, X)
fn izx<B: Bus>(cpu: &mut Cpu, bus: &mut B) -> (r: AddressingModeResult)
    requires
        mode_ok::<B>(AddressingMode::IZX, *old(cpu), old(bus)@),
    ensures
        addresses::<B>(AddressingMode::IZX, *old(cpu), old(bus)@, *final(cpu), final(bus)@, r),
{
    // The pointer lives in the zero page, so it is one byte
    let ptr: u8 = bus.read(cpu.pc);
    cpu.pc = cpu.pc.wrapping_add(1);
    let lo_addr: u8 = ptr.wrapping_add(cpu.x);
    let hi_addr: u8 = ptr.wrapping_add(cpu.x + 1);
    proof {
        lemma_byte_as_word(lo_addr);
        lemma_byte_as_word(hi_addr);
    }
    let lo: u16 = bus.read(lo_addr as u16 & 0x00FF) as u16;
    let hi: u16 = bus.read(hi_addr as u16 & 0x00FF) as u16;
    let addr_abs: u16 = (hi << 8u16) | lo;
    AddressingModeResult {
        data: DataSource { kind: AbsoluteAddress, addr: addr_abs },
        needs_extra_cycle: false,
    }
}

/// (Indirect), Y
fn izy<B: Bus>(cpu: &mut Cpu, bus: &mut B) -> (r: AddressingModeResult)
    ensures
        addresses::<B>(AddressingMode::IZY, *old(cpu), old(bus)@, *final(cpu), final(bus)@, r),
{
    // The pointer lives in the zero page, so it is one byte
    let p: u8 = bus.read(cpu.pc);
    let ptr: u16 = p as u16 & 0x00FF;
    proof { lemma_byte_as_word(p); lemma_byte_as_word(p.wrapping_add(1)); }
    cpu.pc = cpu.pc.wrapping_add(1);
    let lo: u16 = bus.read(ptr & 0x00FF) as u16;
    let next: u8 = p.wrapping_add(1);
    let hi: u16 = bus.read(next as u16 & 0x00FF) as u16;
    let addr: u16 = (hi << 8u16) | lo;
    let addr_abs: u16 = addr.wrapping_add(cpu.y as u16);
    // Read only to see if a page was crossed:
    let ah: u8 = bus.read(ptr + 1);
    let addr_hi: u16 = ah as u16 & 0x00FF;
    proof { lemma_byte_as_word(ah); }
    let needs_extra_cycle: bool = addr_abs & 0xFF00 != (addr_hi << 8u16);
    AddressingModeResult {
        data: DataSource { kind: AbsoluteAddress, addr: addr_abs },
        needs_extra_cycle,
    }
}

/// Accumulator
fn acc<B: Bus>(cpu: &mut Cpu, bus: &mut B) -> (r: AddressingModeResult)
    ensures
        addresses::<B>(AddressingMode::ACC, *old(cpu), old(bus)@, *final(cpu), final(bus)@, r),
{
    AddressingModeResult { data: DataSource { kind: Accumulator, addr: 0x0000 }, needs_extra_cycle: false }
}

proof fn lemma_negated_offset(offset: u8)
    requires
        offset & 0x80 != 0,
    ensures
        !(offset as u16) < 0xFFFF,
        (!(offset as u16) + 1) as u16 & 0x00FF == 256 - offset,
{
    assert(offset >= 128) by (bit_vector)
        requires
            offset & 0x80 != 0,
    ;
    assert(!(offset as u16) == 0xFFFF - offset as u16) by (bit_vector);
    let n: u16 = (!(offset as u16) + 1) as u16;
    assert(n == 0x10000 - offset as u16);
    assert(n & 0x00FF == 256 - offset as u16) by (bit_vector)
        requires
            n == 0x10000 - offset as u16,
            offset >= 128,
    ;
}

/// Relative: a signed offset from the next instruction, for branches
fn rel<B: Bus>(cpu: &mut Cpu, bus: &mut B) -> (r: Option<AddressingModeResult>)
    ensures
        r.is_some() == mode_ok::<B>(AddressingMode::REL, *old(cpu), old(bus)@),
        r matches Some(res) ==> addresses::<B>(AddressingMode::REL, *old(cpu), old(bus)@, *final(cpu), final(bus)@, res),
{
    let offset: u8 = bus.read(cpu.pc);
    cpu.pc = cpu.pc.wrapping_add(1);
    let addr: u16 = if offset & 0x80 != 0 {
        // The magnitude of a negative offset, by two's complement:
        proof { lemma_negated_offset(offset); }
        let neg_offset: u16 = (!(offset as u16) + 1) & 0x00FF;
        // The target must not fall below $0000.
        if cpu.pc < neg_offset {
            return None;
        }
        cpu.pc - neg_offset
    } else {
        proof { lemma_byte_as_word(offset); }
        // The target must not pass $FFFF.
        if cpu.pc > 0xFFFF - ((offset as u16) & 0x00FF) {
            return None;
        }
        cpu.pc + ((offset as u16) & 0x00FF)
    };
    Some(AddressingModeResult { data: DataSource { kind: AbsoluteAddress, addr }, needs_extra_cycle: false })
}

// OPERATIONS

/// How an instruction finds its operand.
#[derive(Debug, PartialEq, Eq, Clone, Copy, Structural)]
pub enum AddressingMode {
    IMP,
    IMM,
    ZP0,
    ZPX,
    ZPY,
    ABS,
    ABX,
    ABY,
    IND,
    IZX,
    IZY,
    ACC,
    REL,
}

/// An entry of the opcode table: an instruction, where its operand is, and
/// how many cycles it takes.
#[derive(Debug, PartialEq, Eq, Clone, Copy, Structural)]
pub struct Operation {
    pub addressing_mode: AddressingMode,
    pub instruction: Instruction,
    pub cycles: u8,
    pub undocumented: bool,
}

/// What an opcode that is not in the table does: a one-cycle NOP.
pub open spec fn illegal_operation() -> Operation {
    Operation {
        addressing_mode: AddressingMode::IMP,
        instruction: Instruction::NOP,
        cycles: 1,
        undocumented: true,
    }
}

/// The 6502 opcode table, with the undocumented opcodes that games use.
pub open spec fn operation_spec(opcode: u8) -> Operation {
    match opcode {
        0x69 => Operation { instruction: Instruction::ADC, addressing_mode: AddressingMode::IMM, cycles: 2, undocumented: false },
        0x65 => Operation { instruction: Instruction::ADC, addressing_mode: AddressingMode::ZP0, cycles: 3, undocumented: false },
        0x75 => Operation { instruction: Instruction::ADC, addressing_mode: AddressingMode::ZPX, cycles: 4, undocumented: false },
        0x6D => Operation { instruction: Instruction::ADC, addressing_mode: AddressingMode::ABS, cycles: 4, undocumented: false },
        0x7D => Operation { instruction: Instruction::ADC, addressing_mode: AddressingMode::ABX, cycles: 4, undocumented: false },
        0x79 => Operation { instruction: Instruction::ADC, addressing_mode: AddressingMode::ABY, cycles: 4, undocumented: false },
        0x61 => Operation { instruction: Instruction::ADC, addressing_mode: AddressingMode::IZX, cycles: 6, undocumented: false },
        0x71 => Operation { instruction: Instruction::ADC, addressing_mode: AddressingMode::IZY, cycles: 5, undocumented: false },
        0x29 => Operation { instruction: Instruction::AND, addressing_mode: AddressingMode::IMM, cycles: 2, undocumented: false },
        0x25 => Operation { instruction: Instruction::AND, addressing_mode: AddressingMode::ZP0, cycles: 3, undocumented: false },
        0x35 => Operation { instruction: Instruction::AND, addressing_mode: AddressingMode::ZPX, cycles: 4, undocumented: false },
        0x2D => Operation { instruction: Instruction::AND, addressing_mode: AddressingMode::ABS, cycles: 4, undocumented: false },
        0x3D => Operation { instruction: Instruction::AND, addressing_mode: AddressingMode::ABX, cycles: 4, undocumented: false },
        0x39 => Operation { instruction: Instruction::AND, addressing_mode: AddressingMode::ABY, cycles: 4, undocumented: false },
        0x21 => Operation { instruction: Instruction::AND, addressing_mode: AddressingMode::IZX, cycles: 6, undocumented: false },
        0x31 => Operation { instruction: Instruction::AND, addressing_mode: AddressingMode::IZY, cycles: 5, undocumented: false },
        0x0A => Operation { instruction: Instruction::ASL, addressing_mode: AddressingMode::ACC, cycles: 2, undocumented: false },
        0x06 => Operation { instruction: Instruction::ASL, addressing_mode: AddressingMode::ZP0, cycles: 5, undocumented: false },
        0x16 => Operation { instruction: Instruction::ASL, addressing_mode: AddressingMode::ZPX, cycles: 6, undocumented: false },
        0x0E => Operation { instruction: Instruction::ASL, addressing_mode: AddressingMode::ABS, cycles: 6, undocumented: false },
        0x1E => Operation { instruction: Instruction::ASL, addressing_mode: AddressingMode::ABX, cycles: 7, undocumented: false },
        0x90 => Operation { instruction: Instruction::BCC, addressing_mode: AddressingMode::REL, cycles: 2, undocumented: false },
        0xB0 => Operation { instruction: Instruction::BCS, addressing_mode: AddressingMode::REL, cycles: 2, undocumented: false },
        0xF0 => Operation { instruction: Instruction::BEQ, addressing_mode: AddressingMode::REL, cycles: 2, undocumented: false },
        0x24 => Operation { instruction: Instruction::BIT, addressing_mode: AddressingMode::ZP0, cycles: 3, undocumented: false },
        0x2C => Operation { instruction: Instruction::BIT, addressing_mode: AddressingMode::ABS, cycles: 4, undocumented: false },
        0x30 => Operation { instruction: Instruction::BMI, addressing_mode: AddressingMode::REL, cycles: 2, undocumented: false },
        0xD0 => Operation { instruction: Instruction::BNE, addressing_mode: AddressingMode::REL, cycles: 2, undocumented: false },
        0x10 => Operation { instruction: Instruction::BPL, addressing_mode: AddressingMode::REL, cycles: 2, undocumented: false },
        0x00 => Operation { instruction: Instruction::BRK, addressing_mode: AddressingMode::IMP, cycles: 7, undocumented: false },
        0x50 => Operation { instruction: Instruction::BVC, addressing_mode: AddressingMode::REL, cycles: 2, undocumented: false },
        0x70 => Operation { instruction: Instruction::BVS, addressing_mode: AddressingMode::REL, cycles: 2, undocumented: false },
        0x18 => Operation { instruction: Instruction::CLC, addressing_mode: AddressingMode::IMP, cycles: 2, undocumented: false },
        0xD8 => Operation { instruction: Instruction::CLD, addressing_mode: AddressingMode::IMP, cycles: 2, undocumented: false },
        0x58 => Operation { instruction: Instruction::CLI, addressing_mode: AddressingMode::IMP, cycles: 2, undocumented: false },
        0xB8 => Operation { instruction: Instruction::CLV, addressing_mode: AddressingMode::IMP, cycles: 2, undocumented: false },
        0xC9 => Operation { instruction: Instruction::CMP, addressing_mode: AddressingMode::IMM, cycles: 2, undocumented: false },
        0xC5 => Operation { instruction: Instruction::CMP, addressing_mode: AddressingMode::ZP0, cycles: 3, undocumented: false },
        0xD5 => Operation { instruction: Instruction::CMP, addressing_mode: AddressingMode::ZPX, cycles: 4, undocumented: false },
        0xCD => Operation { instruction: Instruction::CMP, addressing_mode: AddressingMode::ABS, cycles: 4, undocumented: false },
        0xDD => Operation { instruction: Instruction::CMP, addressing_mode: AddressingMode::ABX, cycles: 4, undocumented: false },
        0xD9 => Operation { instruction: Instruction::CMP, addressing_mode: AddressingMode::ABY, cycles: 4, undocumented: false },
        0xC1 => Operation { instruction: Instruction::CMP, addressing_mode: AddressingMode::IZX, cycles: 6, undocumented: false },
        0xD1 => Operation { instruction: Instruction::CMP, addressing_mode: AddressingMode::IZY, cycles: 5, undocumented: false },
        0xE0 => Operation { instruction: Instruction::CPX, addressing_mode: AddressingMode::IMM, cycles: 2, undocumented: false },
        0xE4 => Operation { instruction: Instruction::CPX, addressing_mode: AddressingMode::ZP0, cycles: 3, undocumented: false },
        0xEC => Operation { instruction: Instruction::CPX, addressing_mode: AddressingMode::ABS, cycles: 4, undocumented: false },
        0xC0 => Operation { instruction: Instruction::CPY, addressing_mode: AddressingMode::IMM, cycles: 2, undocumented: false },
        0xC4 => Operation { instruction: Instruction::CPY, addressing_mode: AddressingMode::ZP0, cycles: 3, undocumented: false },
        0xCC => Operation { instruction: Instruction::CPY, addressing_mode: AddressingMode::ABS, cycles: 4, undocumented: false },
        0xC6 => Operation { instruction: Instruction::DEC, addressing_mode: AddressingMode::ZP0, cycles: 5, undocumented: false },
        0xD6 => Operation { instruction: Instruction::DEC, addressing_mode: AddressingMode::ZPX, cycles: 6, undocumented: false },
        0xCE => Operation { instruction: Instruction::DEC, addressing_mode: AddressingMode::ABS, cycles: 6, undocumented: false },
        0xDE => Operation { instruction: Instruction::DEC, addressing_mode: AddressingMode::ABX, cycles: 7, undocumented: false },
        0xCA => Operation { instruction: Instruction::DEX, addressing_mode: AddressingMode::IMP, cycles: 2, undocumented: false },
        0x88 => Operation { instruction: Instruction::DEY, addressing_mode: AddressingMode::IMP, cycles: 2, undocumented: false },
        0x49 => Operation { instruction: Instruction::EOR, addressing_mode: AddressingMode::IMM, cycles: 2, undocumented: false },
        0x45 => Operation { instruction: Instruction::EOR, addressing_mode: AddressingMode::ZP0, cycles: 3, undocumented: false },
        0x55 => Operation { instruction: Instruction::EOR, addressing_mode: AddressingMode::ZPX, cycles: 4, undocumented: false },
        0x4D => Operation { instruction: Instruction::EOR, addressing_mode: AddressingMode::ABS, cycles: 4, undocumented: false },
        0x5D => Operation { instruction: Instruction::EOR, addressing_mode: AddressingMode::ABX, cycles: 4, undocumented: false },
        0x59 => Operation { instruction: Instruction::EOR, addressing_mode: AddressingMode::ABY, cycles: 4, undocumented: false },
        0x41 => Operation { instruction: Instruction::EOR, addressing_mode: AddressingMode::IZX, cycles: 6, undocumented: false },
        0x51 => Operation { instruction: Instruction::EOR, addressing_mode: AddressingMode::IZY, cycles: 5, undocumented: false },
        0xE6 => Operation { instruction: Instruction::INC, addressing_mode: AddressingMode::ZP0, cycles: 5, undocumented: false },
        0xF6 => Operation { instruction: Instruction::INC, addressing_mode: AddressingMode::ZPX, cycles: 6, undocumented: false },
        0xEE => Operation { instruction: Instruction::INC, addressing_mode: AddressingMode::ABS, cycles: 6, undocumented: false },
        0xFE => Operation { instruction: Instruction::INC, addressing_mode: AddressingMode::ABX, cycles: 7, undocumented: false },
        0xE8 => Operation { instruction: Instruction::INX, addressing_mode: AddressingMode::IMP, cycles: 2, undocumented: false },
        0xC8 => Operation { instruction: Instruction::INY, addressing_mode: AddressingMode::IMP, cycles: 2, undocumented: false },
        0x4C => Operation { instruction: Instruction::JMP, addressing_mode: AddressingMode::ABS, cycles: 3, undocumented: false },
        0x6C => Operation { instruction: Instruction::JMP, addressing_mode: AddressingMode::IND, cycles: 5, undocumented: false },
        0x20 => Operation { instruction: Instruction::JSR, addressing_mode: AddressingMode::ABS, cycles: 6, undocumented: false },
        0xA9 => Operation { instruction: Instruction::LDA, addressing_mode: AddressingMode::IMM, cycles: 2, undocumented: false },
        0xA5 => Operation { instruction: Instruction::LDA, addressing_mode: AddressingMode::ZP0, cycles: 3, undocumented: false },
        0xB5 => Operation { instruction: Instruction::LDA, addressing_mode: AddressingMode::ZPX, cycles: 4, undocumented: false },
        0xAD => Operation { instruction: Instruction::LDA, addressing_mode: AddressingMode::ABS, cycles: 4, undocumented: false },
        0xBD => Operation { instruction: Instruction::LDA, addressing_mode: AddressingMode::ABX, cycles: 4, undocumented: false },
        0xB9 => Operation { instruction: Instruction::LDA, addressing_mode: AddressingMode::ABY, cycles: 4, undocumented: false },
        0xA1 => Operation { instruction: Instruction::LDA, addressing_mode: AddressingMode::IZX, cycles: 6, undocumented: false },
        0xB1 => Operation { instruction: Instruction::LDA, addressing_mode: AddressingMode::IZY, cycles: 5, undocumented: false },
        0xA2 => Operation { instruction: Instruction::LDX, addressing_mode: AddressingMode::IMM, cycles: 2, undocumented: false },
        0xA6 => Operation { instruction: Instruction::LDX, addressing_mode: AddressingMode::ZP0, cycles: 3, undocumented: false },
        0xB6 => Operation { instruction: Instruction::LDX, addressing_mode: AddressingMode::ZPY, cycles: 4, undocumented: false },
        0xAE => Operation { instruction: Instruction::LDX, addressing_mode: AddressingMode::ABS, cycles: 4, undocumented: false },
        0xBE => Operation { instruction: Instruction::LDX, addressing_mode: AddressingMode::ABY, cycles: 4, undocumented: false },
        0xA0 => Operation { instruction: Instruction::LDY, addressing_mode: AddressingMode::IMM, cycles: 2, undocumented: false },
        0xA4 => Operation { instruction: Instruction::LDY, addressing_mode: AddressingMode::ZP0, cycles: 3, undocumented: false },
        0xB4 => Operation { instruction: Instruction::LDY, addressing_mode: AddressingMode::ZPX, cycles: 4, undocumented: false },
        0xAC => Operation { instruction: Instruction::LDY, addressing_mode: AddressingMode::ABS, cycles: 4, undocumented: false },
        0xBC => Operation { instruction: Instruction::LDY, addressing_mode: AddressingMode::ABX, cycles: 4, undocumented: false },
        0x4A => Operation { instruction: Instruction::LSR, addressing_mode: AddressingMode::ACC, cycles: 2, undocumented: false },
        0x46 => Operation { instruction: Instruction::LSR, addressing_mode: AddressingMode::ZP0, cycles: 5, undocumented: false },
        0x56 => Operation { instruction: Instruction::LSR, addressing_mode: AddressingMode::ZPX, cycles: 6, undocumented: false },
        0x4E => Operation { instruction: Instruction::LSR, addressing_mode: AddressingMode::ABS, cycles: 6, undocumented: false },
        0x5E => Operation { instruction: Instruction::LSR, addressing_mode: AddressingMode::ABX, cycles: 7, undocumented: false },
        0xEA => Operation { instruction: Instruction::NOP, addressing_mode: AddressingMode::IMP, cycles: 2, undocumented: false },
        0x09 => Operation { instruction: Instruction::ORA, addressing_mode: AddressingMode::IMM, cycles: 2, undocumented: false },
        0x05 => Operation { instruction: Instruction::ORA, addressing_mode: AddressingMode::ZP0, cycles: 3, undocumented: false },
        0x15 => Operation { instruction: Instruction::ORA, addressing_mode: AddressingMode::ZPX, cycles: 4, undocumented: false },
        0x0D => Operation { instruction: Instruction::ORA, addressing_mode: AddressingMode::ABS, cycles: 4, undocumented: false },
        0x1D => Operation { instruction: Instruction::ORA, addressing_mode: AddressingMode::ABX, cycles: 4, undocumented: false },
        0x19 => Operation { instruction: Instruction::ORA, addressing_mode: AddressingMode::ABY, cycles: 4, undocumented: false },
        0x01 => Operation { instruction: Instruction::ORA, addressing_mode: AddressingMode::IZX, cycles: 6, undocumented: false },
        0x11 => Operation { instruction: Instruction::ORA, addressing_mode: AddressingMode::IZY, cycles: 5, undocumented: false },
        0x48 => Operation { instruction: Instruction::PHA, addressing_mode: AddressingMode::IMP, cycles: 3, undocumented: false },
        0x08 => Operation { instruction: Instruction::PHP, addressing_mode: AddressingMode::IMP, cycles: 3, undocumented: false },
        0x68 => Operation { instruction: Instruction::PLA, addressing_mode: AddressingMode::IMP, cycles: 4, undocumented: false },
        0x28 => Operation { instruction: Instruction::PLP, addressing_mode: AddressingMode::IMP, cycles: 4, undocumented: false },
        0x2A => Operation { instruction: Instruction::ROL, addressing_mode: AddressingMode::ACC, cycles: 2, undocumented: false },
        0x26 => Operation { instruction: Instruction::ROL, addressing_mode: AddressingMode::ZP0, cycles: 5, undocumented: false },
        0x36 => Operation { instruction: Instruction::ROL, addressing_mode: AddressingMode::ZPX, cycles: 6, undocumented: false },
        0x2E => Operation { instruction: Instruction::ROL, addressing_mode: AddressingMode::ABS, cycles: 6, undocumented: false },
        0x3E => Operation { instruction: Instruction::ROL, addressing_mode: AddressingMode::ABX, cycles: 7, undocumented: false },
        0x6A => Operation { instruction: Instruction::ROR, addressing_mode: AddressingMode::ACC, cycles: 2, undocumented: false },
        0x66 => Operation { instruction: Instruction::ROR, addressing_mode: AddressingMode::ZP0, cycles: 5, undocumented: false },
        0x76 => Operation { instruction: Instruction::ROR, addressing_mode: AddressingMode::ZPX, cycles: 6, undocumented: false },
        0x6E => Operation { instruction: Instruction::ROR, addressing_mode: AddressingMode::ABS, cycles: 6, undocumented: false },
        0x7E => Operation { instruction: Instruction::ROR, addressing_mode: AddressingMode::ABX, cycles: 7, undocumented: false },
        0x40 => Operation { instruction: Instruction::RTI, addressing_mode: AddressingMode::IMP, cycles: 6, undocumented: false },
        0x60 => Operation { instruction: Instruction::RTS, addressing_mode: AddressingMode::IMP, cycles: 6, undocumented: false },
        0xE9 => Operation { instruction: Instruction::SBC, addressing_mode: AddressingMode::IMM, cycles: 2, undocumented: false },
        0xE5 => Operation { instruction: Instruction::SBC, addressing_mode: AddressingMode::ZP0, cycles: 3, undocumented: false },
        0xF5 => Operation { instruction: Instruction::SBC, addressing_mode: AddressingMode::ZPX, cycles: 4, undocumented: false },
        0xED => Operation { instruction: Instruction::SBC, addressing_mode: AddressingMode::ABS, cycles: 4, undocumented: false },
        0xFD => Operation { instruction: Instruction::SBC, addressing_mode: AddressingMode::ABX, cycles: 4, undocumented: false },
        0xF9 => Operation { instruction: Instruction::SBC, addressing_mode: AddressingMode::ABY, cycles: 4, undocumented: false },
        0xE1 => Operation { instruction: Instruction::SBC, addressing_mode: AddressingMode::IZX, cycles: 6, undocumented: false },
        0xF1 => Operation { instruction: Instruction::SBC, addressing_mode: AddressingMode::IZY, cycles: 5, undocumented: false },
        0x38 => Operation { instruction: Instruction::SEC, addressing_mode: AddressingMode::IMP, cycles: 2, undocumented: false },
        0xF8 => Operation { instruction: Instruction::SED, addressing_mode: AddressingMode::IMP, cycles: 2, undocumented: false },
        0x78 => Operation { instruction: Instruction::SEI, addressing_mode: AddressingMode::IMP, cycles: 2, undocumented: false },
        0x85 => Operation { instruction: Instruction::STA, addressing_mode: AddressingMode::ZP0, cycles: 3, undocumented: false },
        0x95 => Operation { instruction: Instruction::STA, addressing_mode: AddressingMode::ZPX, cycles: 4, undocumented: false },
        0x8D => Operation { instruction: Instruction::STA, addressing_mode: AddressingMode::ABS, cycles: 4, undocumented: false },
        0x9D => Operation { instruction: Instruction::STA, addressing_mode: AddressingMode::ABX, cycles: 5, undocumented: false },
        0x99 => Operation { instruction: Instruction::STA, addressing_mode: AddressingMode::ABY, cycles: 5, undocumented: false },
        0x81 => Operation { instruction: Instruction::STA, addressing_mode: AddressingMode::IZX, cycles: 6, undocumented: false },
        0x91 => Operation { instruction: Instruction::STA, addressing_mode: AddressingMode::IZY, cycles: 6, undocumented: false },
        0x86 => Operation { instruction: Instruction::STX, addressing_mode: AddressingMode::ZP0, cycles: 3, undocumented: false },
        0x96 => Operation { instruction: Instruction::STX, addressing_mode: AddressingMode::ZPY, cycles: 4, undocumented: false },
        0x8E => Operation { instruction: Instruction::STX, addressing_mode: AddressingMode::ABS, cycles: 4, undocumented: false },
        0x84 => Operation { instruction: Instruction::STY, addressing_mode: AddressingMode::ZP0, cycles: 3, undocumented: false },
        0x94 => Operation { instruction: Instruction::STY, addressing_mode: AddressingMode::ZPX, cycles: 4, undocumented: false },
        0x8C => Operation { instruction: Instruction::STY, addressing_mode: AddressingMode::ABS, cycles: 4, undocumented: false },
        0xAA => Operation { instruction: Instruction::TAX, addressing_mode: AddressingMode::IMP, cycles: 2, undocumented: false },
        0xA8 => Operation { instruction: Instruction::TAY, addressing_mode: AddressingMode::IMP, cycles: 2, undocumented: false },
        0xBA => Operation { instruction: Instruction::TSX, addressing_mode: AddressingMode::IMP, cycles: 2, undocumented: false },
        0x8A => Operation { instruction: Instruction::TXA, addressing_mode: AddressingMode::IMP, cycles: 2, undocumented: false },
        0x9A => Operation { instruction: Instruction::TXS, addressing_mode: AddressingMode::IMP, cycles: 2, undocumented: false },
        0x98 => Operation { instruction: Instruction::TYA, addressing_mode: AddressingMode::IMP, cycles: 2, undocumented: false },
        0x1A => Operation { instruction: Instruction::NOP, addressing_mode: AddressingMode::IMP, cycles: 2, undocumented: true },
        0x3A => Operation { instruction: Instruction::NOP, addressing_mode: AddressingMode::IMP, cycles: 2, undocumented: true },
        0x5A => Operation { instruction: Instruction::NOP, addressing_mode: AddressingMode::IMP, cycles: 2, undocumented: true },
        0x7A => Operation { instruction: Instruction::NOP, addressing_mode: AddressingMode::IMP, cycles: 2, undocumented: true },
        0xDA => Operation { instruction: Instruction::NOP, addressing_mode: AddressingMode::IMP, cycles: 2, undocumented: true },
        0xFA => Operation { instruction: Instruction::NOP, addressing_mode: AddressingMode::IMP, cycles: 2, undocumented: true },
        0x80 => Operation { instruction: Instruction::NOP, addressing_mode: AddressingMode::IMM, cycles: 2, undocumented: true },
        0x82 => Operation { instruction: Instruction::NOP, addressing_mode: AddressingMode::IMM, cycles: 2, undocumented: true },
        0x89 => Operation { instruction: Instruction::NOP, addressing_mode: AddressingMode::IMM, cycles: 2, undocumented: true },
        0xC2 => Operation { instruction: Instruction::NOP, addressing_mode: AddressingMode::IMM, cycles: 2, undocumented: true },
        0xE2 => Operation { instruction: Instruction::NOP, addressing_mode: AddressingMode::IMM, cycles: 2, undocumented: true },
        0x04 => Operation { instruction: Instruction::NOP, addressing_mode: AddressingMode::ZP0, cycles: 3, undocumented: true },
        0x44 => Operation { instruction: Instruction::NOP, addressing_mode: AddressingMode::ZP0, cycles: 3, undocumented: true },
        0x64 => Operation { instruction: Instruction::NOP, addressing_mode: AddressingMode::ZP0, cycles: 3, undocumented: true },
        0x14 => Operation { instruction: Instruction::NOP, addressing_mode: AddressingMode::ZPX, cycles: 4, undocumented: true },
        0x34 => Operation { instruction: Instruction::NOP, addressing_mode: AddressingMode::ZPX, cycles: 4, undocumented: true },
        0x54 => Operation { instruction: Instruction::NOP, addressing_mode: AddressingMode::ZPX, cycles: 4, undocumented: true },
        0x74 => Operation { instruction: Instruction::NOP, addressing_mode: AddressingMode::ZPX, cycles: 4, undocumented: true },
        0xD4 => Operation { instruction: Instruction::NOP, addressing_mode: AddressingMode::ZPX, cycles: 4, undocumented: true },
        0xF4 => Operation { instruction: Instruction::NOP, addressing_mode: AddressingMode::ZPX, cycles: 4, undocumented: true },
        0x0C => Operation { instruction: Instruction::NOP, addressing_mode: AddressingMode::ABS, cycles: 4, undocumented: true },
        0x1C => Operation { instruction: Instruction::NOP, addressing_mode: AddressingMode::ABX, cycles: 4, undocumented: true },
        0x3C => Operation { instruction: Instruction::NOP, addressing_mode: AddressingMode::ABX, cycles: 4, undocumented: true },
        0x5C => Operation { instruction: Instruction::NOP, addressing_mode: AddressingMode::ABX, cycles: 4, undocumented: true },
        0x7C => Operation { instruction: Instruction::NOP, addressing_mode: AddressingMode::ABX, cycles: 4, undocumented: true },
        0xDC => Operation { instruction: Instruction::NOP, addressing_mode: AddressingMode::ABX, cycles: 4, undocumented: true },
        0xFC => Operation { instruction: Instruction::NOP, addressing_mode: AddressingMode::ABX, cycles: 4, undocumented: true },
        0xA7 => Operation { instruction: Instruction::LAX, addressing_mode: AddressingMode::ZP0, cycles: 3, undocumented: true },
        0xB7 => Operation { instruction: Instruction::LAX, addressing_mode: AddressingMode::ZPY, cycles: 4, undocumented: true },
        0xBF => Operation { instruction: Instruction::LAX, addressing_mode: AddressingMode::ABY, cycles: 4, undocumented: true },
        0xA3 => Operation { instruction: Instruction::LAX, addressing_mode: AddressingMode::IZX, cycles: 6, undocumented: true },
        0xB3 => Operation { instruction: Instruction::LAX, addressing_mode: AddressingMode::IZY, cycles: 5, undocumented: true },
        0xEB => Operation { instruction: Instruction::SBC, addressing_mode: AddressingMode::IMM, cycles: 2, undocumented: true },
        0xC7 => Operation { instruction: Instruction::DCP, addressing_mode: AddressingMode::ZP0, cycles: 5, undocumented: true },
        0xD7 => Operation { instruction: Instruction::DCP, addressing_mode: AddressingMode::ZPX, cycles: 6, undocumented: true },
        0xCF => Operation { instruction: Instruction::DCP, addressing_mode: AddressingMode::ABS, cycles: 6, undocumented: true },
        0xDF => Operation { instruction: Instruction::DCP, addressing_mode: AddressingMode::ABX, cycles: 7, undocumented: true },
        0xDB => Operation { instruction: Instruction::DCP, addressing_mode: AddressingMode::ABY, cycles: 7, undocumented: true },
        0xC3 => Operation { instruction: Instruction::DCP, addressing_mode: AddressingMode::IZX, cycles: 8, undocumented: true },
        0xD3 => Operation { instruction: Instruction::DCP, addressing_mode: AddressingMode::IZY, cycles: 8, undocumented: true },
        0xE7 => Operation { instruction: Instruction::ISB, addressing_mode: AddressingMode::ZP0, cycles: 5, undocumented: true },
        0xF7 => Operation { instruction: Instruction::ISB, addressing_mode: AddressingMode::ZPX, cycles: 6, undocumented: true },
        0xEF => Operation { instruction: Instruction::ISB, addressing_mode: AddressingMode::ABS, cycles: 6, undocumented: true },
        0xFF => Operation { instruction: Instruction::ISB, addressing_mode: AddressingMode::ABX, cycles: 7, undocumented: true },
        0xFB => Operation { instruction: Instruction::ISB, addressing_mode: AddressingMode::ABY, cycles: 7, undocumented: true },
        0xE3 => Operation { instruction: Instruction::ISB, addressing_mode: AddressingMode::IZX, cycles: 8, undocumented: true },
        0xF3 => Operation { instruction: Instruction::ISB, addressing_mode: AddressingMode::IZY, cycles: 4, undocumented: true },
        0x07 => Operation { instruction: Instruction::SLO, addressing_mode: AddressingMode::ZP0, cycles: 5, undocumented: true },
        0x17 => Operation { instruction: Instruction::SLO, addressing_mode: AddressingMode::ZPX, cycles: 6, undocumented: true },
        0x0F => Operation { instruction: Instruction::SLO, addressing_mode: AddressingMode::ABS, cycles: 6, undocumented: true },
        0x1F => Operation { instruction: Instruction::SLO, addressing_mode: AddressingMode::ABX, cycles: 7, undocumented: true },
        0x1B => Operation { instruction: Instruction::SLO, addressing_mode: AddressingMode::ABY, cycles: 7, undocumented: true },
        0x03 => Operation { instruction: Instruction::SLO, addressing_mode: AddressingMode::IZX, cycles: 8, undocumented: true },
        0x13 => Operation { instruction: Instruction::SLO, addressing_mode: AddressingMode::IZY, cycles: 8, undocumented: true },
        0x27 => Operation { instruction: Instruction::RLA, addressing_mode: AddressingMode::ZP0, cycles: 5, undocumented: true },
        0x37 => Operation { instruction: Instruction::RLA, addressing_mode: AddressingMode::ZPX, cycles: 6, undocumented: true },
        0x2F => Operation { instruction: Instruction::RLA, addressing_mode: AddressingMode::ABS, cycles: 6, undocumented: true },
        0x3F => Operation { instruction: Instruction::RLA, addressing_mode: AddressingMode::ABX, cycles: 7, undocumented: true },
        0x3B => Operation { instruction: Instruction::RLA, addressing_mode: AddressingMode::ABY, cycles: 7, undocumented: true },
        0x23 => Operation { instruction: Instruction::RLA, addressing_mode: AddressingMode::IZX, cycles: 8, undocumented: true },
        0x33 => Operation { instruction: Instruction::RLA, addressing_mode: AddressingMode::IZY, cycles: 8, undocumented: true },
        0x47 => Operation { instruction: Instruction::SRE, addressing_mode: AddressingMode::ZP0, cycles: 5, undocumented: true },
        0x57 => Operation { instruction: Instruction::SRE, addressing_mode: AddressingMode::ZPX, cycles: 6, undocumented: true },
        0x4F => Operation { instruction: Instruction::SRE, addressing_mode: AddressingMode::ABS, cycles: 6, undocumented: true },
        0x5F => Operation { instruction: Instruction::SRE, addressing_mode: AddressingMode::ABX, cycles: 7, undocumented: true },
        0x5B => Operation { instruction: Instruction::SRE, addressing_mode: AddressingMode::ABY, cycles: 7, undocumented: true },
        0x43 => Operation { instruction: Instruction::SRE, addressing_mode: AddressingMode::IZX, cycles: 8, undocumented: true },
        0x53 => Operation { instruction: Instruction::SRE, addressing_mode: AddressingMode::IZY, cycles: 8, undocumented: true },
        0x67 => Operation { instruction: Instruction::RRA, addressing_mode: AddressingMode::ZP0, cycles: 5, undocumented: true },
        0x77 => Operation { instruction: Instruction::RRA, addressing_mode: AddressingMode::ZPX, cycles: 6, undocumented: true },
        0x6F => Operation { instruction: Instruction::RRA, addressing_mode: AddressingMode::ABS, cycles: 6, undocumented: true },
        0x7F => Operation { instruction: Instruction::RRA, addressing_mode: AddressingMode::ABX, cycles: 7, undocumented: true },
        0x7B => Operation { instruction: Instruction::RRA, addressing_mode: AddressingMode::ABY, cycles: 7, undocumented: true },
        0x63 => Operation { instruction: Instruction::RRA, addressing_mode: AddressingMode::IZX, cycles: 8, undocumented: true },
        0x73 => Operation { instruction: Instruction::RRA, addressing_mode: AddressingMode::IZY, cycles: 8, undocumented: true },
        _ => illegal_operation(),
    }
}

impl Operation {
    /// The operation that `opcode` stands for.
    pub fn from_opcode(opcode: u8) -> (r: Operation)
        ensures
            r == operation_spec(opcode),
            1 <= r.cycles <= 8,
    {
        match opcode {
            0x69 => Operation { instruction: Instruction::ADC, addressing_mode: AddressingMode::IMM, cycles: 2, undocumented: false },
            0x65 => Operation { instruction: Instruction::ADC, addressing_mode: AddressingMode::ZP0, cycles: 3, undocumented: false },
            0x75 => Operation { instruction: Instruction::ADC, addressing_mode: AddressingMode::ZPX, cycles: 4, undocumented: false },
            0x6D => Operation { instruction: Instruction::ADC, addressing_mode: AddressingMode::ABS, cycles: 4, undocumented: false },
            0x7D => Operation { instruction: Instruction::ADC, addressing_mode: AddressingMode::ABX, cycles: 4, undocumented: false },
            0x79 => Operation { instruction: Instruction::ADC, addressing_mode: AddressingMode::ABY, cycles: 4, undocumented: false },
            0x61 => Operation { instruction: Instruction::ADC, addressing_mode: AddressingMode::IZX, cycles: 6, undocumented: false },
            0x71 => Operation { instruction: Instruction::ADC, addressing_mode: AddressingMode::IZY, cycles: 5, undocumented: false },
            0x29 => Operation { instruction: Instruction::AND, addressing_mode: AddressingMode::IMM, cycles: 2, undocumented: false },
            0x25 => Operation { instruction: Instruction::AND, addressing_mode: AddressingMode::ZP0, cycles: 3, undocumented: false },
            0x35 => Operation { instruction: Instruction::AND, addressing_mode: AddressingMode::ZPX, cycles: 4, undocumented: false },
            0x2D => Operation { instruction: Instruction::AND, addressing_mode: AddressingMode::ABS, cycles: 4, undocumented: false },
            0x3D => Operation { instruction: Instruction::AND, addressing_mode: AddressingMode::ABX, cycles: 4, undocumented: false },
            0x39 => Operation { instruction: Instruction::AND, addressing_mode: AddressingMode::ABY, cycles: 4, undocumented: false },
            0x21 => Operation { instruction: Instruction::AND, addressing_mode: AddressingMode::IZX, cycles: 6, undocumented: false },
            0x31 => Operation { instruction: Instruction::AND, addressing_mode: AddressingMode::IZY, cycles: 5, undocumented: false },
            0x0A => Operation { instruction: Instruction::ASL, addressing_mode: AddressingMode::ACC, cycles: 2, undocumented: false },
            0x06 => Operation { instruction: Instruction::ASL, addressing_mode: AddressingMode::ZP0, cycles: 5, undocumented: false },
            0x16 => Operation { instruction: Instruction::ASL, addressing_mode: AddressingMode::ZPX, cycles: 6, undocumented: false },
            0x0E => Operation { instruction: Instruction::ASL, addressing_mode: AddressingMode::ABS, cycles: 6, undocumented: false },
            0x1E => Operation { instruction: Instruction::ASL, addressing_mode: AddressingMode::ABX, cycles: 7, undocumented: false },
            0x90 => Operation { instruction: Instruction::BCC, addressing_mode: AddressingMode::REL, cycles: 2, undocumented: false },
            0xB0 => Operation { instruction: Instruction::BCS, addressing_mode: AddressingMode::REL, cycles: 2, undocumented: false },
            0xF0 => Operation { instruction: Instruction::BEQ, addressing_mode: AddressingMode::REL, cycles: 2, undocumented: false },
            0x24 => Operation { instruction: Instruction::BIT, addressing_mode: AddressingMode::ZP0, cycles: 3, undocumented: false },
            0x2C => Operation { instruction: Instruction::BIT, addressing_mode: AddressingMode::ABS, cycles: 4, undocumented: false },
            0x30 => Operation { instruction: Instruction::BMI, addressing_mode: AddressingMode::REL, cycles: 2, undocumented: false },
            0xD0 => Operation { instruction: Instruction::BNE, addressing_mode: AddressingMode::REL, cycles: 2, undocumented: false },
            0x10 => Operation { instruction: Instruction::BPL, addressing_mode: AddressingMode::REL, cycles: 2, undocumented: false },
            0x00 => Operation { instruction: Instruction::BRK, addressing_mode: AddressingMode::IMP, cycles: 7, undocumented: false },
            0x50 => Operation { instruction: Instruction::BVC, addressing_mode: AddressingMode::REL, cycles: 2, undocumented: false },
            0x70 => Operation { instruction: Instruction::BVS, addressing_mode: AddressingMode::REL, cycles: 2, undocumented: false },
            0x18 => Operation { instruction: Instruction::CLC, addressing_mode: AddressingMode::IMP, cycles: 2, undocumented: false },
            0xD8 => Operation { instruction: Instruction::CLD, addressing_mode: AddressingMode::IMP, cycles: 2, undocumented: false },
            0x58 => Operation { instruction: Instruction::CLI, addressing_mode: AddressingMode::IMP, cycles: 2, undocumented: false },
            0xB8 => Operation { instruction: Instruction::CLV, addressing_mode: AddressingMode::IMP, cycles: 2, undocumented: false },
            0xC9 => Operation { instruction: Instruction::CMP, addressing_mode: AddressingMode::IMM, cycles: 2, undocumented: false },
            0xC5 => Operation { instruction: Instruction::CMP, addressing_mode: AddressingMode::ZP0, cycles: 3, undocumented: false },
            0xD5 => Operation { instruction: Instruction::CMP, addressing_mode: AddressingMode::ZPX, cycles: 4, undocumented: false },
            0xCD => Operation { instruction: Instruction::CMP, addressing_mode: AddressingMode::ABS, cycles: 4, undocumented: false },
            0xDD => Operation { instruction: Instruction::CMP, addressing_mode: AddressingMode::ABX, cycles: 4, undocumented: false },
            0xD9 => Operation { instruction: Instruction::CMP, addressing_mode: AddressingMode::ABY, cycles: 4, undocumented: false },
            0xC1 => Operation { instruction: Instruction::CMP, addressing_mode: AddressingMode::IZX, cycles: 6, undocumented: false },
            0xD1 => Operation { instruction: Instruction::CMP, addressing_mode: AddressingMode::IZY, cycles: 5, undocumented: false },
            0xE0 => Operation { instruction: Instruction::CPX, addressing_mode: AddressingMode::IMM, cycles: 2, undocumented: false },
            0xE4 => Operation { instruction: Instruction::CPX, addressing_mode: AddressingMode::ZP0, cycles: 3, undocumented: false },
            0xEC => Operation { instruction: Instruction::CPX, addressing_mode: AddressingMode::ABS, cycles: 4, undocumented: false },
            0xC0 => Operation { instruction: Instruction::CPY, addressing_mode: AddressingMode::IMM, cycles: 2, undocumented: false },
            0xC4 => Operation { instruction: Instruction::CPY, addressing_mode: AddressingMode::ZP0, cycles: 3, undocumented: false },
            0xCC => Operation { instruction: Instruction::CPY, addressing_mode: AddressingMode::ABS, cycles: 4, undocumented: false },
            0xC6 => Operation { instruction: Instruction::DEC, addressing_mode: AddressingMode::ZP0, cycles: 5, undocumented: false },
            0xD6 => Operation { instruction: Instruction::DEC, addressing_mode: AddressingMode::ZPX, cycles: 6, undocumented: false },
            0xCE => Operation { instruction: Instruction::DEC, addressing_mode: AddressingMode::ABS, cycles: 6, undocumented: false },
            0xDE => Operation { instruction: Instruction::DEC, addressing_mode: AddressingMode::ABX, cycles: 7, undocumented: false },
            0xCA => Operation { instruction: Instruction::DEX, addressing_mode: AddressingMode::IMP, cycles: 2, undocumented: false },
            0x88 => Operation { instruction: Instruction::DEY, addressing_mode: AddressingMode::IMP, cycles: 2, undocumented: false },
            0x49 => Operation { instruction: Instruction::EOR, addressing_mode: AddressingMode::IMM, cycles: 2, undocumented: false },
            0x45 => Operation { instruction: Instruction::EOR, addressing_mode: AddressingMode::ZP0, cycles: 3, undocumented: false },
            0x55 => Operation { instruction: Instruction::EOR, addressing_mode: AddressingMode::ZPX, cycles: 4, undocumented: false },
            0x4D => Operation { instruction: Instruction::EOR, addressing_mode: AddressingMode::ABS, cycles: 4, undocumented: false },
            0x5D => Operation { instruction: Instruction::EOR, addressing_mode: AddressingMode::ABX, cycles: 4, undocumented: false },
            0x59 => Operation { instruction: Instruction::EOR, addressing_mode: AddressingMode::ABY, cycles: 4, undocumented: false },
            0x41 => Operation { instruction: Instruction::EOR, addressing_mode: AddressingMode::IZX, cycles: 6, undocumented: false },
            0x51 => Operation { instruction: Instruction::EOR, addressing_mode: AddressingMode::IZY, cycles: 5, undocumented: false },
            0xE6 => Operation { instruction: Instruction::INC, addressing_mode: AddressingMode::ZP0, cycles: 5, undocumented: false },
            0xF6 => Operation { instruction: Instruction::INC, addressing_mode: AddressingMode::ZPX, cycles: 6, undocumented: false },
            0xEE => Operation { instruction: Instruction::INC, addressing_mode: AddressingMode::ABS, cycles: 6, undocumented: false },
            0xFE => Operation { instruction: Instruction::INC, addressing_mode: AddressingMode::ABX, cycles: 7, undocumented: false },
            0xE8 => Operation { instruction: Instruction::INX, addressing_mode: AddressingMode::IMP, cycles: 2, undocumented: false },
            0xC8 => Operation { instruction: Instruction::INY, addressing_mode: AddressingMode::IMP, cycles: 2, undocumented: false },
            0x4C => Operation { instruction: Instruction::JMP, addressing_mode: AddressingMode::ABS, cycles: 3, undocumented: false },
            0x6C => Operation { instruction: Instruction::JMP, addressing_mode: AddressingMode::IND, cycles: 5, undocumented: false },
            0x20 => Operation { instruction: Instruction::JSR, addressing_mode: AddressingMode::ABS, cycles: 6, undocumented: false },
            0xA9 => Operation { instruction: Instruction::LDA, addressing_mode: AddressingMode::IMM, cycles: 2, undocumented: false },
            0xA5 => Operation { instruction: Instruction::LDA, addressing_mode: AddressingMode::ZP0, cycles: 3, undocumented: false },
            0xB5 => Operation { instruction: Instruction::LDA, addressing_mode: AddressingMode::ZPX, cycles: 4, undocumented: false },
            0xAD => Operation { instruction: Instruction::LDA, addressing_mode: AddressingMode::ABS, cycles: 4, undocumented: false },
            0xBD => Operation { instruction: Instruction::LDA, addressing_mode: AddressingMode::ABX, cycles: 4, undocumented: false },
            0xB9 => Operation { instruction: Instruction::LDA, addressing_mode: AddressingMode::ABY, cycles: 4, undocumented: false },
            0xA1 => Operation { instruction: Instruction::LDA, addressing_mode: AddressingMode::IZX, cycles: 6, undocumented: false },
            0xB1 => Operation { instruction: Instruction::LDA, addressing_mode: AddressingMode::IZY, cycles: 5, undocumented: false },
            0xA2 => Operation { instruction: Instruction::LDX, addressing_mode: AddressingMode::IMM, cycles: 2, undocumented: false },
            0xA6 => Operation { instruction: Instruction::LDX, addressing_mode: AddressingMode::ZP0, cycles: 3, undocumented: false },
            0xB6 => Operation { instruction: Instruction::LDX, addressing_mode: AddressingMode::ZPY, cycles: 4, undocumented: false },
            0xAE => Operation { instruction: Instruction::LDX, addressing_mode: AddressingMode::ABS, cycles: 4, undocumented: false },
            0xBE => Operation { instruction: Instruction::LDX, addressing_mode: AddressingMode::ABY, cycles: 4, undocumented: false },
            0xA0 => Operation { instruction: Instruction::LDY, addressing_mode: AddressingMode::IMM, cycles: 2, undocumented: false },
            0xA4 => Operation { instruction: Instruction::LDY, addressing_mode: AddressingMode::ZP0, cycles: 3, undocumented: false },
            0xB4 => Operation { instruction: Instruction::LDY, addressing_mode: AddressingMode::ZPX, cycles: 4, undocumented: false },
            0xAC => Operation { instruction: Instruction::LDY, addressing_mode: AddressingMode::ABS, cycles: 4, undocumented: false },
            0xBC => Operation { instruction: Instruction::LDY, addressing_mode: AddressingMode::ABX, cycles: 4, undocumented: false },
            0x4A => Operation { instruction: Instruction::LSR, addressing_mode: AddressingMode::ACC, cycles: 2, undocumented: false },
            0x46 => Operation { instruction: Instruction::LSR, addressing_mode: AddressingMode::ZP0, cycles: 5, undocumented: false },
            0x56 => Operation { instruction: Instruction::LSR, addressing_mode: AddressingMode::ZPX, cycles: 6, undocumented: false },
            0x4E => Operation { instruction: Instruction::LSR, addressing_mode: AddressingMode::ABS, cycles: 6, undocumented: false },
            0x5E => Operation { instruction: Instruction::LSR, addressing_mode: AddressingMode::ABX, cycles: 7, undocumented: false },
            0xEA => Operation { instruction: Instruction::NOP, addressing_mode: AddressingMode::IMP, cycles: 2, undocumented: false },
            0x09 => Operation { instruction: Instruction::ORA, addressing_mode: AddressingMode::IMM, cycles: 2, undocumented: false },
            0x05 => Operation { instruction: Instruction::ORA, addressing_mode: AddressingMode::ZP0, cycles: 3, undocumented: false },
            0x15 => Operation { instruction: Instruction::ORA, addressing_mode: AddressingMode::ZPX, cycles: 4, undocumented: false },
            0x0D => Operation { instruction: Instruction::ORA, addressing_mode: AddressingMode::ABS, cycles: 4, undocumented: false },
            0x1D => Operation { instruction: Instruction::ORA, addressing_mode: AddressingMode::ABX, cycles: 4, undocumented: false },
            0x19 => Operation { instruction: Instruction::ORA, addressing_mode: AddressingMode::ABY, cycles: 4, undocumented: false },
            0x01 => Operation { instruction: Instruction::ORA, addressing_mode: AddressingMode::IZX, cycles: 6, undocumented: false },
            0x11 => Operation { instruction: Instruction::ORA, addressing_mode: AddressingMode::IZY, cycles: 5, undocumented: false },
            0x48 => Operation { instruction: Instruction::PHA, addressing_mode: AddressingMode::IMP, cycles: 3, undocumented: false },
            0x08 => Operation { instruction: Instruction::PHP, addressing_mode: AddressingMode::IMP, cycles: 3, undocumented: false },
            0x68 => Operation { instruction: Instruction::PLA, addressing_mode: AddressingMode::IMP, cycles: 4, undocumented: false },
            0x28 => Operation { instruction: Instruction::PLP, addressing_mode: AddressingMode::IMP, cycles: 4, undocumented: false },
            0x2A => Operation { instruction: Instruction::ROL, addressing_mode: AddressingMode::ACC, cycles: 2, undocumented: false },
            0x26 => Operation { instruction: Instruction::ROL, addressing_mode: AddressingMode::ZP0, cycles: 5, undocumented: false },
            0x36 => Operation { instruction: Instruction::ROL, addressing_mode: AddressingMode::ZPX, cycles: 6, undocumented: false },
            0x2E => Operation { instruction: Instruction::ROL, addressing_mode: AddressingMode::ABS, cycles: 6, undocumented: false },
            0x3E => Operation { instruction: Instruction::ROL, addressing_mode: AddressingMode::ABX, cycles: 7, undocumented: false },
            0x6A => Operation { instruction: Instruction::ROR, addressing_mode: AddressingMode::ACC, cycles: 2, undocumented: false },
            0x66 => Operation { instruction: Instruction::ROR, addressing_mode: AddressingMode::ZP0, cycles: 5, undocumented: false },
            0x76 => Operation { instruction: Instruction::ROR, addressing_mode: AddressingMode::ZPX, cycles: 6, undocumented: false },
            0x6E => Operation { instruction: Instruction::ROR, addressing_mode: AddressingMode::ABS, cycles: 6, undocumented: false },
            0x7E => Operation { instruction: Instruction::ROR, addressing_mode: AddressingMode::ABX, cycles: 7, undocumented: false },
            0x40 => Operation { instruction: Instruction::RTI, addressing_mode: AddressingMode::IMP, cycles: 6, undocumented: false },
            0x60 => Operation { instruction: Instruction::RTS, addressing_mode: AddressingMode::IMP, cycles: 6, undocumented: false },
            0xE9 => Operation { instruction: Instruction::SBC, addressing_mode: AddressingMode::IMM, cycles: 2, undocumented: false },
            0xE5 => Operation { instruction: Instruction::SBC, addressing_mode: AddressingMode::ZP0, cycles: 3, undocumented: false },
            0xF5 => Operation { instruction: Instruction::SBC, addressing_mode: AddressingMode::ZPX, cycles: 4, undocumented: false },
            0xED => Operation { instruction: Instruction::SBC, addressing_mode: AddressingMode::ABS, cycles: 4, undocumented: false },
            0xFD => Operation { instruction: Instruction::SBC, addressing_mode: AddressingMode::ABX, cycles: 4, undocumented: false },
            0xF9 => Operation { instruction: Instruction::SBC, addressing_mode: AddressingMode::ABY, cycles: 4, undocumented: false },
            0xE1 => Operation { instruction: Instruction::SBC, addressing_mode: AddressingMode::IZX, cycles: 6, undocumented: false },
            0xF1 => Operation { instruction: Instruction::SBC, addressing_mode: AddressingMode::IZY, cycles: 5, undocumented: false },
            0x38 => Operation { instruction: Instruction::SEC, addressing_mode: AddressingMode::IMP, cycles: 2, undocumented: false },
            0xF8 => Operation { instruction: Instruction::SED, addressing_mode: AddressingMode::IMP, cycles: 2, undocumented: false },
            0x78 => Operation { instruction: Instruction::SEI, addressing_mode: AddressingMode::IMP, cycles: 2, undocumented: false },
            0x85 => Operation { instruction: Instruction::STA, addressing_mode: AddressingMode::ZP0, cycles: 3, undocumented: false },
            0x95 => Operation { instruction: Instruction::STA, addressing_mode: AddressingMode::ZPX, cycles: 4, undocumented: false },
            0x8D => Operation { instruction: Instruction::STA, addressing_mode: AddressingMode::ABS, cycles: 4, undocumented: false },
            0x9D => Operation { instruction: Instruction::STA, addressing_mode: AddressingMode::ABX, cycles: 5, undocumented: false },
            0x99 => Operation { instruction: Instruction::STA, addressing_mode: AddressingMode::ABY, cycles: 5, undocumented: false },
            0x81 => Operation { instruction: Instruction::STA, addressing_mode: AddressingMode::IZX, cycles: 6, undocumented: false },
            0x91 => Operation { instruction: Instruction::STA, addressing_mode: AddressingMode::IZY, cycles: 6, undocumented: false },
            0x86 => Operation { instruction: Instruction::STX, addressing_mode: AddressingMode::ZP0, cycles: 3, undocumented: false },
            0x96 => Operation { instruction: Instruction::STX, addressing_mode: AddressingMode::ZPY, cycles: 4, undocumented: false },
            0x8E => Operation { instruction: Instruction::STX, addressing_mode: AddressingMode::ABS, cycles: 4, undocumented: false },
            0x84 => Operation { instruction: Instruction::STY, addressing_mode: AddressingMode::ZP0, cycles: 3, undocumented: false },
            0x94 => Operation { instruction: Instruction::STY, addressing_mode: AddressingMode::ZPX, cycles: 4, undocumented: false },
            0x8C => Operation { instruction: Instruction::STY, addressing_mode: AddressingMode::ABS, cycles: 4, undocumented: false },
            0xAA => Operation { instruction: Instruction::TAX, addressing_mode: AddressingMode::IMP, cycles: 2, undocumented: false },
            0xA8 => Operation { instruction: Instruction::TAY, addressing_mode: AddressingMode::IMP, cycles: 2, undocumented: false },
            0xBA => Operation { instruction: Instruction::TSX, addressing_mode: AddressingMode::IMP, cycles: 2, undocumented: false },
            0x8A => Operation { instruction: Instruction::TXA, addressing_mode: AddressingMode::IMP, cycles: 2, undocumented: false },
            0x9A => Operation { instruction: Instruction::TXS, addressing_mode: AddressingMode::IMP, cycles: 2, undocumented: false },
            0x98 => Operation { instruction: Instruction::TYA, addressing_mode: AddressingMode::IMP, cycles: 2, undocumented: false },
            0x1A => Operation { instruction: Instruction::NOP, addressing_mode: AddressingMode::IMP, cycles: 2, undocumented: true },
            0x3A => Operation { instruction: Instruction::NOP, addressing_mode: AddressingMode::IMP, cycles: 2, undocumented: true },
            0x5A => Operation { instruction: Instruction::NOP, addressing_mode: AddressingMode::IMP, cycles: 2, undocumented: true },
            0x7A => Operation { instruction: Instruction::NOP, addressing_mode: AddressingMode::IMP, cycles: 2, undocumented: true },
            0xDA => Operation { instruction: Instruction::NOP, addressing_mode: AddressingMode::IMP, cycles: 2, undocumented: true },
            0xFA => Operation { instruction: Instruction::NOP, addressing_mode: AddressingMode::IMP, cycles: 2, undocumented: true },
            0x80 => Operation { instruction: Instruction::NOP, addressing_mode: AddressingMode::IMM, cycles: 2, undocumented: true },
            0x82 => Operation { instruction: Instruction::NOP, addressing_mode: AddressingMode::IMM, cycles: 2, undocumented: true },
            0x89 => Operation { instruction: Instruction::NOP, addressing_mode: AddressingMode::IMM, cycles: 2, undocumented: true },
            0xC2 => Operation { instruction: Instruction::NOP, addressing_mode: AddressingMode::IMM, cycles: 2, undocumented: true },
            0xE2 => Operation { instruction: Instruction::NOP, addressing_mode: AddressingMode::IMM, cycles: 2, undocumented: true },
            0x04 => Operation { instruction: Instruction::NOP, addressing_mode: AddressingMode::ZP0, cycles: 3, undocumented: true },
            0x44 => Operation { instruction: Instruction::NOP, addressing_mode: AddressingMode::ZP0, cycles: 3, undocumented: true },
            0x64 => Operation { instruction: Instruction::NOP, addressing_mode: AddressingMode::ZP0, cycles: 3, undocumented: true },
            0x14 => Operation { instruction: Instruction::NOP, addressing_mode: AddressingMode::ZPX, cycles: 4, undocumented: true },
            0x34 => Operation { instruction: Instruction::NOP, addressing_mode: AddressingMode::ZPX, cycles: 4, undocumented: true },
            0x54 => Operation { instruction: Instruction::NOP, addressing_mode: AddressingMode::ZPX, cycles: 4, undocumented: true },
            0x74 => Operation { instruction: Instruction::NOP, addressing_mode: AddressingMode::ZPX, cycles: 4, undocumented: true },
            0xD4 => Operation { instruction: Instruction::NOP, addressing_mode: AddressingMode::ZPX, cycles: 4, undocumented: true },
            0xF4 => Operation { instruction: Instruction::NOP, addressing_mode: AddressingMode::ZPX, cycles: 4, undocumented: true },
            0x0C => Operation { instruction: Instruction::NOP, addressing_mode: AddressingMode::ABS, cycles: 4, undocumented: true },
            0x1C => Operation { instruction: Instruction::NOP, addressing_mode: AddressingMode::ABX, cycles: 4, undocumented: true },
            0x3C => Operation { instruction: Instruction::NOP, addressing_mode: AddressingMode::ABX, cycles: 4, undocumented: true },
            0x5C => Operation { instruction: Instruction::NOP, addressing_mode: AddressingMode::ABX, cycles: 4, undocumented: true },
            0x7C => Operation { instruction: Instruction::NOP, addressing_mode: AddressingMode::ABX, cycles: 4, undocumented: true },
            0xDC => Operation { instruction: Instruction::NOP, addressing_mode: AddressingMode::ABX, cycles: 4, undocumented: true },
            0xFC => Operation { instruction: Instruction::NOP, addressing_mode: AddressingMode::ABX, cycles: 4, undocumented: true },
            0xA7 => Operation { instruction: Instruction::LAX, addressing_mode: AddressingMode::ZP0, cycles: 3, undocumented: true },
            0xB7 => Operation { instruction: Instruction::LAX, addressing_mode: AddressingMode::ZPY, cycles: 4, undocumented: true },
            0xBF => Operation { instruction: Instruction::LAX, addressing_mode: AddressingMode::ABY, cycles: 4, undocumented: true },
            0xA3 => Operation { instruction: Instruction::LAX, addressing_mode: AddressingMode::IZX, cycles: 6, undocumented: true },
            0xB3 => Operation { instruction: Instruction::LAX, addressing_mode: AddressingMode::IZY, cycles: 5, undocumented: true },
            0xEB => Operation { instruction: Instruction::SBC, addressing_mode: AddressingMode::IMM, cycles: 2, undocumented: true },
            0xC7 => Operation { instruction: Instruction::DCP, addressing_mode: AddressingMode::ZP0, cycles: 5, undocumented: true },
            0xD7 => Operation { instruction: Instruction::DCP, addressing_mode: AddressingMode::ZPX, cycles: 6, undocumented: true },
            0xCF => Operation { instruction: Instruction::DCP, addressing_mode: AddressingMode::ABS, cycles: 6, undocumented: true },
            0xDF => Operation { instruction: Instruction::DCP, addressing_mode: AddressingMode::ABX, cycles: 7, undocumented: true },
            0xDB => Operation { instruction: Instruction::DCP, addressing_mode: AddressingMode::ABY, cycles: 7, undocumented: true },
            0xC3 => Operation { instruction: Instruction::DCP, addressing_mode: AddressingMode::IZX, cycles: 8, undocumented: true },
            0xD3 => Operation { instruction: Instruction::DCP, addressing_mode: AddressingMode::IZY, cycles: 8, undocumented: true },
            0xE7 => Operation { instruction: Instruction::ISB, addressing_mode: AddressingMode::ZP0, cycles: 5, undocumented: true },
            0xF7 => Operation { instruction: Instruction::ISB, addressing_mode: AddressingMode::ZPX, cycles: 6, undocumented: true },
            0xEF => Operation { instruction: Instruction::ISB, addressing_mode: AddressingMode::ABS, cycles: 6, undocumented: true },
            0xFF => Operation { instruction: Instruction::ISB, addressing_mode: AddressingMode::ABX, cycles: 7, undocumented: true },
            0xFB => Operation { instruction: Instruction::ISB, addressing_mode: AddressingMode::ABY, cycles: 7, undocumented: true },
            0xE3 => Operation { instruction: Instruction::ISB, addressing_mode: AddressingMode::IZX, cycles: 8, undocumented: true },
            0xF3 => Operation { instruction: Instruction::ISB, addressing_mode: AddressingMode::IZY, cycles: 4, undocumented: true },
            0x07 => Operation { instruction: Instruction::SLO, addressing_mode: AddressingMode::ZP0, cycles: 5, undocumented: true },
            0x17 => Operation { instruction: Instruction::SLO, addressing_mode: AddressingMode::ZPX, cycles: 6, undocumented: true },
            0x0F => Operation { instruction: Instruction::SLO, addressing_mode: AddressingMode::ABS, cycles: 6, undocumented: true },
            0x1F => Operation { instruction: Instruction::SLO, addressing_mode: AddressingMode::ABX, cycles: 7, undocumented: true },
            0x1B => Operation { instruction: Instruction::SLO, addressing_mode: AddressingMode::ABY, cycles: 7, undocumented: true },
            0x03 => Operation { instruction: Instruction::SLO, addressing_mode: AddressingMode::IZX, cycles: 8, undocumented: true },
            0x13 => Operation { instruction: Instruction::SLO, addressing_mode: AddressingMode::IZY, cycles: 8, undocumented: true },
            0x27 => Operation { instruction: Instruction::RLA, addressing_mode: AddressingMode::ZP0, cycles: 5, undocumented: true },
            0x37 => Operation { instruction: Instruction::RLA, addressing_mode: AddressingMode::ZPX, cycles: 6, undocumented: true },
            0x2F => Operation { instruction: Instruction::RLA, addressing_mode: AddressingMode::ABS, cycles: 6, undocumented: true },
            0x3F => Operation { instruction: Instruction::RLA, addressing_mode: AddressingMode::ABX, cycles: 7, undocumented: true },
            0x3B => Operation { instruction: Instruction::RLA, addressing_mode: AddressingMode::ABY, cycles: 7, undocumented: true },
            0x23 => Operation { instruction: Instruction::RLA, addressing_mode: AddressingMode::IZX, cycles: 8, undocumented: true },
            0x33 => Operation { instruction: Instruction::RLA, addressing_mode: AddressingMode::IZY, cycles: 8, undocumented: true },
            0x47 => Operation { instruction: Instruction::SRE, addressing_mode: AddressingMode::ZP0, cycles: 5, undocumented: true },
            0x57 => Operation { instruction: Instruction::SRE, addressing_mode: AddressingMode::ZPX, cycles: 6, undocumented: true },
            0x4F => Operation { instruction: Instruction::SRE, addressing_mode: AddressingMode::ABS, cycles: 6, undocumented: true },
            0x5F => Operation { instruction: Instruction::SRE, addressing_mode: AddressingMode::ABX, cycles: 7, undocumented: true },
            0x5B => Operation { instruction: Instruction::SRE, addressing_mode: AddressingMode::ABY, cycles: 7, undocumented: true },
            0x43 => Operation { instruction: Instruction::SRE, addressing_mode: AddressingMode::IZX, cycles: 8, undocumented: true },
            0x53 => Operation { instruction: Instruction::SRE, addressing_mode: AddressingMode::IZY, cycles: 8, undocumented: true },
            0x67 => Operation { instruction: Instruction::RRA, addressing_mode: AddressingMode::ZP0, cycles: 5, undocumented: true },
            0x77 => Operation { instruction: Instruction::RRA, addressing_mode: AddressingMode::ZPX, cycles: 6, undocumented: true },
            0x6F => Operation { instruction: Instruction::RRA, addressing_mode: AddressingMode::ABS, cycles: 6, undocumented: true },
            0x7F => Operation { instruction: Instruction::RRA, addressing_mode: AddressingMode::ABX, cycles: 7, undocumented: true },
            0x7B => Operation { instruction: Instruction::RRA, addressing_mode: AddressingMode::ABY, cycles: 7, undocumented: true },
            0x63 => Operation { instruction: Instruction::RRA, addressing_mode: AddressingMode::IZX, cycles: 8, undocumented: true },
            0x73 => Operation { instruction: Instruction::RRA, addressing_mode: AddressingMode::IZY, cycles: 8, undocumented: true },
            _ => Operation {
                addressing_mode: AddressingMode::IMP,
                instruction: Instruction::NOP,
                cycles: 1,
                undocumented: true,
            },
        }
    }
}


// EXECUTION

/// An instruction leaves the cycle count as it was, except a branch, which
/// adds one or two cycles.
#[verifier::rlimit(40)]
proof fn lemma_execute_cycles<B: Bus>(ins: Instruction, cpu: Cpu, m: B::V, d: DataSource)
    requires
        cpu.cycles_left <= 253,
    ensures
        cpu.cycles_left <= execute::<B>(ins, cpu, m, d).0.cycles_left <= cpu.cycles_left + 2,
{
}

/// Runs the addressing mode `mode`.
fn address_mode<B: Bus>(mode: AddressingMode, cpu: &mut Cpu, bus: &mut B) -> (r: AddressingModeResult)
    requires
        mode_ok::<B>(mode, *old(cpu), old(bus)@),
    ensures
        addresses::<B>(mode, *old(cpu), old(bus)@, *final(cpu), final(bus)@, r),
{
    match mode {
        AddressingMode::IMP => imp(cpu, bus),
        AddressingMode::IMM => imm(cpu, bus),
        AddressingMode::ZP0 => zp0(cpu, bus),
        AddressingMode::ZPX => zpx(cpu, bus),
        AddressingMode::ZPY => zpy(cpu, bus),
        AddressingMode::ABS => abs(cpu, bus),
        AddressingMode::ABX => abx(cpu, bus).unwrap(),
        AddressingMode::ABY => aby(cpu, bus),
        AddressingMode::IND => ind(cpu, bus),
        AddressingMode::IZX => izx(cpu, bus),
        AddressingMode::IZY => izy(cpu, bus),
        AddressingMode::ACC => acc(cpu, bus),
        AddressingMode::REL => rel(cpu, bus).unwrap(),
    }
}

/// Runs the instruction `ins` on the operand source `data`.
fn run_instruction<B: Bus>(ins: Instruction, cpu: &mut Cpu, bus: &mut B, data: &DataSource) -> (r: InstructionResult)
    requires
        instruction_ok::<B>(ins, *old(cpu), old(bus)@, *data),
    ensures
        executes::<B>(ins, *old(cpu), old(bus)@, *data, *final(cpu), final(bus)@, r),
{
    match ins {
        Instruction::ADC => adc(cpu, bus, data),
        Instruction::AND => and(cpu, bus, data),
        Instruction::ASL => asl(cpu, bus, data),
        Instruction::BCC => bcc(cpu, bus, data),
        Instruction::BCS => bcs(cpu, bus, data),
        Instruction::BEQ => beq(cpu, bus, data),
        Instruction::BIT => bit(cpu, bus, data),
        Instruction::BMI => bmi(cpu, bus, data),
        Instruction::BNE => bne(cpu, bus, data),
        Instruction::BPL => bpl(cpu, bus, data),
        Instruction::BRK => brk(cpu, bus, data),
        Instruction::BVC => bvc(cpu, bus, data),
        Instruction::BVS => bvs(cpu, bus, data),
        Instruction::CLC => clc(cpu, bus, data),
        Instruction::CLD => cld(cpu, bus, data),
        Instruction::CLI => cli(cpu, bus, data),
        Instruction::CLV => clv(cpu, bus, data),
        Instruction::CMP => cmp(cpu, bus, data),
        Instruction::CPX => cpx(cpu, bus, data),
        Instruction::CPY => cpy(cpu, bus, data),
        Instruction::DEC => dec(cpu, bus, data),
        Instruction::DEX => dex(cpu, bus, data),
        Instruction::DEY => dey(cpu, bus, data),
        Instruction::EOR => eor(cpu, bus, data),
        Instruction::INC => inc(cpu, bus, data),
        Instruction::INX => inx(cpu, bus, data),
        Instruction::INY => iny(cpu, bus, data),
        Instruction::JMP => jmp(cpu, bus, data),
        Instruction::JSR => jsr(cpu, bus, data),
        Instruction::LDA => lda(cpu, bus, data),
        Instruction::LDX => ldx(cpu, bus, data),
        Instruction::LDY => ldy(cpu, bus, data),
        Instruction::LSR => lsr(cpu, bus, data),
        Instruction::NOP => nop(cpu, bus, data),
        Instruction::ORA => ora(cpu, bus, data),
        Instruction::PHA => pha(cpu, bus, data),
        Instruction::PHP => php(cpu, bus, data),
        Instruction::PLA => pla(cpu, bus, data),
        Instruction::PLP => plp(cpu, bus, data),
        Instruction::ROL => rol(cpu, bus, data),
        Instruction::ROR => ror(cpu, bus, data),
        Instruction::RTI => rti(cpu, bus, data),
        Instruction::RTS => rts(cpu, bus, data).unwrap(),
        Instruction::SBC => sbc(cpu, bus, data),
        Instruction::SEC => sec(cpu, bus, data),
        Instruction::SED => sed(cpu, bus, data),
        Instruction::SEI => sei(cpu, bus, data),
        Instruction::STA => sta(cpu, bus, data),
        Instruction::STX => stx(cpu, bus, data),
        Instruction::STY => sty(cpu, bus, data),
        Instruction::TAX => tax(cpu, bus, data),
        Instruction::TAY => tay(cpu, bus, data),
        Instruction::TSX => tsx(cpu, bus, data),
        Instruction::TXA => txa(cpu, bus, data),
        Instruction::TXS => txs(cpu, bus, data),
        Instruction::TYA => tya(cpu, bus, data),
        Instruction::LAX => lax(cpu, bus, data),
        Instruction::SAX => sax(cpu, bus, data),
        Instruction::DCP => dcp(cpu, bus, data),
        Instruction::ISB => isb(cpu, bus, data),
        Instruction::SLO => slo(cpu, bus, data),
        Instruction::RLA => rla(cpu, bus, data),
        Instruction::SRE => sre(cpu, bus, data),
        Instruction::RRA => rra(cpu, bus, data),
    }
}

/// The registers just after an opcode is fetched: the program counter past
/// the opcode and the cycle count of its operation.
pub open spec fn fetched(cpu: Cpu, op: Operation) -> Cpu {
    Cpu { pc: (cpu.pc + 1) as u16, cycles_left: op.cycles, ..cpu }
}

/// Finds the operand of addressing mode `mode` when the mode runs without a
/// panic; `None` when it would panic, after the reads it made.
fn try_address_mode<B: Bus>(mode: AddressingMode, cpu: &mut Cpu, bus: &mut B) -> (r: Option<AddressingModeResult>)
    ensures
        r.is_some() == mode_ok::<B>(mode, *old(cpu), old(bus)@),
        r matches Some(res) ==> addresses::<B>(mode, *old(cpu), old(bus)@, *final(cpu), final(bus)@, res),
{
    match mode {
        AddressingMode::ABX => abx(cpu, bus),
        AddressingMode::REL => rel(cpu, bus),
        AddressingMode::IZX => {
            if cpu.x == 0xFF {
                None
            } else {
                Some(izx(cpu, bus))
            }
        },
        _ => Some(address_mode(mode, cpu, bus)),
    }
}

/// Runs the instruction `ins` on the operand source `data` when it runs
/// without a panic; `None` when it would panic, after the reads it made.
fn try_run_instruction<B: Bus>(ins: Instruction, cpu: &mut Cpu, bus: &mut B, data: &DataSource) -> (r: Option<
    InstructionResult,
>)
    ensures
        r.is_some() == instruction_ok::<B>(ins, *old(cpu), old(bus)@, *data),
        r matches Some(res) ==> executes::<B>(ins, *old(cpu), old(bus)@, *data, *final(cpu), final(bus)@, res),
{
    let operand: bool = match ins {
        Instruction::AND | Instruction::EOR | Instruction::ORA | Instruction::BIT
        | Instruction::LDA | Instruction::LDX | Instruction::LDY | Instruction::LAX
        | Instruction::STA | Instruction::STX | Instruction::STY | Instruction::SAX
        | Instruction::ADC | Instruction::SBC | Instruction::CMP | Instruction::CPX
        | Instruction::CPY | Instruction::INC | Instruction::ISB | Instruction::DEC
        | Instruction::DCP | Instruction::ASL | Instruction::SLO | Instruction::LSR
        | Instruction::SRE | Instruction::ROL | Instruction::RLA | Instruction::ROR
        | Instruction::RRA => true,
        _ => false,
    };
    let branch: bool = match ins {
        Instruction::BCC | Instruction::BCS | Instruction::BEQ | Instruction::BMI
        | Instruction::BPL | Instruction::BNE | Instruction::BVC | Instruction::BVS => true,
        _ => false,
    };
    if operand && matches!(data.kind, DataSourceKind::Implicit) {
        return None;
    }
    if matches!(ins, Instruction::JSR) && cpu.pc == 0 {
        return None;
    }
    if branch && cpu.cycles_left > 253 {
        return None;
    }
    if matches!(ins, Instruction::RTS) {
        return rts(cpu, bus, data);
    }
    Some(run_instruction(ins, cpu, bus, data))
}

/// The inputs on which a clock runs without a panic: when an instruction
/// starts, its opcode is not at $FFFF and its addressing mode and
/// instruction run without a panic.
pub open spec fn clock_ok<B: Bus>(cpu: Cpu, m: B::V) -> bool {
    cpu.cycles_left == 0 ==> {
        let (opcode, m1) = bus_read::<B>(m, cpu.pc);
        let op = operation_spec(opcode);
        let c1 = fetched(cpu, op);
        let (c2, m2, amr) = address::<B>(op.addressing_mode, c1, m1);
        &&& cpu.pc < 0xFFFF
        &&& mode_ok::<B>(op.addressing_mode, c1, m1)
        &&& instruction_ok::<B>(op.instruction, c2, m2, amr.data)
    }
}

/// One clock of the CPU: when the previous instruction has used up its
/// cycles, the next one is fetched and run in full; every clock then uses
/// up one cycle.
pub open spec fn clock_spec<B: Bus>(cpu: Cpu, m: B::V) -> (Cpu, B::V) {
    if cpu.cycles_left == 0 {
        let (opcode, m1) = bus_read::<B>(m, cpu.pc);
        let op = operation_spec(opcode);
        let c1 = fetched(cpu, op);
        let (c2, m2, amr) = address::<B>(op.addressing_mode, c1, m1);
        let (c3, m3) = execute::<B>(op.instruction, c2, m2, amr.data);
        let extra: int = if amr.needs_extra_cycle && extra_cycle_spec(op.instruction) { 1 } else { 0 };
        (Cpu { cycles_left: (c3.cycles_left + extra - 1) as u8, ..c3 }, m3)
    } else {
        (Cpu { cycles_left: (cpu.cycles_left - 1) as u8, ..cpu }, m)
    }
}

/// A whole instruction: clocks until the cycles of the instruction are used
/// up.
pub open spec fn step_spec<B: Bus>(cpu: Cpu, m: B::V) -> (Cpu, B::V) {
    let (c1, m1) = clock_spec::<B>(cpu, m);
    (Cpu { cycles_left: 0, ..c1 }, m1)
}

/// The registers and bus after `push_spec` of the program counter, high byte
/// first, then of the status with Break clear and Unused and
/// DisableInterrupts set; an interrupt does this before it jumps.
pub open spec fn interrupt_spec<B: Bus>(cpu: Cpu, m: B::V, vector: u16, cycles: u8) -> (Cpu, B::V) {
    let (c1, m1) = push_spec::<B>(cpu, m, (cpu.pc >> 8u16) as u8);
    let (c2, m2) = push_spec::<B>(c1, m1, (cpu.pc & 0x00FFu16) as u8);
    let c3 = c2.with_flag(Break, false).with_flag(Unused, true).with_flag(DisableInterrupts, true);
    let (c4, m3) = push_spec::<B>(c3, m2, c3.status);
    let (lo, m4) = bus_read::<B>(m3, vector);
    let (hi, m5) = bus_read::<B>(m4, (vector + 1) as u16);
    (Cpu { pc: word(lo, hi), cycles_left: cycles, ..c4 }, m5)
}

/// The registers and bus after a reset.
pub open spec fn reset_spec<B: Bus>(cpu: Cpu, m: B::V) -> (Cpu, B::V) {
    let (lo, m1) = bus_read::<B>(m, PC_INIT_ADDR);
    let (hi, m2) = bus_read::<B>(m1, (PC_INIT_ADDR + 1) as u16);
    (
        Cpu { a: 0, x: 0, y: 0, s: STACK_SIZE, status: 0x20, pc: word(lo, hi), cycles_left: 8 },
        m2,
    )
}

impl Cpu {
    pub fn clock<B: Bus>(&mut self, bus: &mut B)
        requires
            clock_ok::<B>(*old(self), old(bus)@),
        ensures
            (*final(self), final(bus)@) == clock_spec::<B>(*old(self), old(bus)@),
    {
        if self.cycles_left == 0 {
            let opcode: u8 = bus.read(self.pc);
            self.pc = self.pc + 1;
            let operation: Operation = Operation::from_opcode(opcode);
            self.cycles_left = operation.cycles;
            let address_mode_result: AddressingModeResult = address_mode(
                operation.addressing_mode,
                self,
                bus,
            );
            proof {
                lemma_execute_cycles::<B>(operation.instruction, *self, bus@, address_mode_result.data);
            }
            let instruction_result: InstructionResult = run_instruction(
                operation.instruction,
                self,
                bus,
                &address_mode_result.data,
            );
            if address_mode_result.needs_extra_cycle && instruction_result.may_need_extra_cycle {
                self.cycles_left = self.cycles_left + 1;
            }
        }
        self.cycles_left = self.cycles_left - 1;
    }

    /// One clock, checked: `true` when the clock runs without a panic (see
    /// `clock_ok`), having run as `clock` runs it; `false` when it would
    /// panic on an address or program counter overflow, after the reads it
    /// made.
    pub fn try_clock<B: Bus>(&mut self, bus: &mut B) -> (r: bool)
        ensures
            r == clock_ok::<B>(*old(self), old(bus)@),
            r ==> (*final(self), final(bus)@) == clock_spec::<B>(*old(self), old(bus)@),
    {
        if self.cycles_left == 0 {
            if self.pc == 0xFFFF {
                return false;
            }
            let opcode: u8 = bus.read(self.pc);
            self.pc = self.pc + 1;
            let operation: Operation = Operation::from_opcode(opcode);
            self.cycles_left = operation.cycles;
            let address_mode_result: AddressingModeResult = match try_address_mode(
                operation.addressing_mode,
                self,
                bus,
            ) {
                Some(res) => res,
                None => {
                    return false;
                },
            };
            proof {
                lemma_execute_cycles::<B>(operation.instruction, *self, bus@, address_mode_result.data);
            }
            let instruction_result: InstructionResult = match try_run_instruction(
                operation.instruction,
                self,
                bus,
                &address_mode_result.data,
            ) {
                Some(res) => res,
                None => {
                    return false;
                },
            };
            if address_mode_result.needs_extra_cycle && instruction_result.may_need_extra_cycle {
                self.cycles_left = self.cycles_left + 1;
            }
        }
        self.cycles_left = self.cycles_left - 1;
        true
    }

    /// Runs clocks until the current instruction is done: an instruction is
    /// started only when none is in progress.
    pub fn step<B: Bus>(&mut self, bus: &mut B)
        requires
            clock_ok::<B>(*old(self), old(bus)@),
        ensures
            (*final(self), final(bus)@) == step_spec::<B>(*old(self), old(bus)@),
    {
        let ghost start: (Cpu, B::V) = (*self, bus@);
        self.clock(bus);
        while self.cycles_left != 0
            invariant
                (Cpu { cycles_left: 0, ..*self }, bus@) == step_spec::<B>(start.0, start.1),
            decreases self.cycles_left,
        {
            self.clock(bus);
        }
    }

    // SIGNALS:

    pub fn sig_reset<B: Bus>(&mut self, bus: &mut B)
        ensures
            (*final(self), final(bus)@) == reset_spec::<B>(*old(self), old(bus)@),
    {
        self.a = 0x00;
        self.x = 0x00;
        self.y = 0x00;
        self.s = STACK_SIZE;
        self.status = 0x00u8 | Unused.bits();
        proof { lemma_power_on_status(); }
        self.pc = bus.read16(PC_INIT_ADDR);
        self.cycles_left = 8;
    }

    /// An interrupt request; the DisableInterrupts flag masks it, so it is
    /// taken only while that flag is clear.
    pub fn sig_irq<B: Bus>(&mut self, bus: &mut B)
        ensures
            (*final(self), final(bus)@) == if !old(self).flag(DisableInterrupts) {
                interrupt_spec::<B>(*old(self), old(bus)@, IRQ_POINTER, 7)
            } else {
                (*old(self), old(bus)@)
            },
    {
        if self.get_status(DisableInterrupts) == 0x00 {
            self.interrupt(bus, IRQ_POINTER, 7);
        }
    }

    /// A non-maskable interrupt.
    pub fn sig_nmi<B: Bus>(&mut self, bus: &mut B)
        ensures
            (*final(self), final(bus)@) == interrupt_spec::<B>(*old(self), old(bus)@, NMI_POINTER, 8),
    {
        self.interrupt(bus, NMI_POINTER, 8);
    }

    fn interrupt<B: Bus>(&mut self, bus: &mut B, vector: u16, cycles: u8)
        requires
            vector < 0xFFFF,
        ensures
            (*final(self), final(bus)@) == interrupt_spec::<B>(*old(self), old(bus)@, vector, cycles),
    {
        let pc_hi: u8 = (self.pc >> 8u16) as u8;
        self.push(bus, pc_hi);
        let pc_lo: u8 = (self.pc & 0x00FF) as u8;
        self.push(bus, pc_lo);
        self.set_status(Break, false);
        self.set_status(Unused, true);
        self.set_status(DisableInterrupts, true);
        let status: u8 = self.status;
        self.push(bus, status);
        let irq_addr: u16 = bus.read16(vector);
        self.pc = irq_addr;
        self.cycles_left = cycles;
    }
}

/// The top bit of a byte is set exactly when the byte is at least 128.
pub(crate) proof fn lemma_sign_bit(w: u8)
    by (bit_vector)
    ensures
        (w & 0x80u8 != 0) == (w >= 128),
{
}

/// Comparing a register value `r` with `v` sets Zero when they are equal,
/// Carry when `r` is at least `v`, and Negative when `r - v`, taken modulo
/// 256, has its top bit set; the other flags and every register but the
/// status stay.
pub proof fn lemma_compare_flags(cpu: Cpu, r: u8, v: u8)
    ensures
        ({
            let c = compare_spec(cpu, r, v);
            &&& c.flag(Zero) == (r == v)
            &&& c.flag(Carry) == (r >= v)
            &&& c.flag(Negative) == ((r - v) % 256 >= 128)
            &&& forall|f: StatusFlag|
                f != Zero && f != Carry && f != Negative ==> #[trigger] c.flag(f) == cpu.flag(f)
            &&& c == (Cpu { status: c.status, ..cpu })
        }),
{
    let c1 = cpu.with_flag(Carry, r >= v);
    let c2 = c1.with_flag(Zero, r == v);
    let w = r.wrapping_sub(v);
    lemma_sign_bit(w);
    assert(w == (r - v) % 256);
    assert forall|f: StatusFlag| f != Zero && f != Carry && f != Negative implies #[trigger] compare_spec(
        cpu,
        r,
        v,
    ).flag(f) == cpu.flag(f) by {
        law_status_set_get(cpu, Carry, f, r >= v);
        law_status_set_get(c1, Zero, f, r == v);
        law_status_set_get(c2, Negative, f, w & 0x80 != 0);
    }
    law_status_set_get(cpu, Carry, Zero, r >= v);
    law_status_set_get(cpu, Carry, Negative, r >= v);
    law_status_set_get(c1, Zero, Carry, r == v);
    law_status_set_get(c1, Zero, Negative, r == v);
    law_status_set_get(c2, Negative, Carry, w & 0x80 != 0);
    law_status_set_get(c2, Negative, Zero, w & 0x80 != 0);
    law_status_set_get(c2, Negative, Negative, w & 0x80 != 0);
    law_status_set_get(c1, Zero, Zero, r == v);
}

/// CMP, CPX and CPY compare the accumulator, X and Y respectively with
/// their operand `v`: Zero says the register equals `v`, Carry that it is
/// at least `v`, Negative that the register minus `v` (modulo 256) has its
/// top bit set. No register changes, and no other flag.
pub proof fn law_compare<B: Bus>(ins: Instruction, cpu: Cpu, m: B::V, d: DataSource)
    requires
        ins == Instruction::CMP || ins == Instruction::CPX || ins == Instruction::CPY,
    ensures
        ({
            let r = if ins == Instruction::CMP {
                cpu.a
            } else if ins == Instruction::CPX {
                cpu.x
            } else {
                cpu.y
            };
            let (v, m1) = d.read_spec::<B>(cpu, m);
            let (c, m2) = execute::<B>(ins, cpu, m, d);
            &&& c.flag(Zero) == (r == v)
            &&& c.flag(Carry) == (r >= v)
            &&& c.flag(Negative) == ((r - v) % 256 >= 128)
            &&& forall|f: StatusFlag|
                f != Zero && f != Carry && f != Negative ==> #[trigger] c.flag(f) == cpu.flag(f)
            &&& c == (Cpu { status: c.status, ..cpu })
            &&& m2 == m1
        }),
{
    let (v, m1) = d.read_spec::<B>(cpu, m);
    lemma_compare_flags(cpu, cpu.a, v);
    lemma_compare_flags(cpu, cpu.x, v);
    lemma_compare_flags(cpu, cpu.y, v);
}

/// Setting the zero and negative flags for a value `v`: Zero says `v` is
/// zero, Negative that it is at least 128; no other flag and no register
/// but the status changes.
pub proof fn lemma_zn_flags(cpu: Cpu, v: u8)
    ensures
        ({
            let c = cpu.with_zn(v);
            &&& c.flag(Zero) == (v == 0)
            &&& c.flag(Negative) == (v >= 128)
            &&& forall|f: StatusFlag| f != Zero && f != Negative ==> #[trigger] c.flag(f) == cpu.flag(f)
            &&& c == (Cpu { status: c.status, ..cpu })
        }),
{
    let c1 = cpu.with_flag(Zero, v == 0);
    lemma_sign_bit(v);
    assert forall|f: StatusFlag| f != Zero && f != Negative implies #[trigger] cpu.with_zn(v).flag(f) == cpu.flag(
        f,
    ) by {
        law_status_set_get(cpu, Zero, f, v == 0);
        law_status_set_get(c1, Negative, f, v & 0x80 != 0);
    }
    law_status_set_get(cpu, Zero, Negative, v == 0);
    law_status_set_get(c1, Negative, Zero, v & 0x80 != 0);
    law_status_set_get(c1, Negative, Negative, v & 0x80 != 0);
}

/// The register that a load, transfer, increment or decrement writes:
/// 0 for the accumulator, 1 for X, 2 for Y.
pub open spec fn moved_register(ins: Instruction) -> int {
    match ins {
        Instruction::LDA | Instruction::TXA | Instruction::TYA => 0,
        Instruction::LDX | Instruction::TAX | Instruction::TSX | Instruction::INX | Instruction::DEX => 1,
        _ => 2,
    }
}

/// The value that a load, transfer, increment or decrement writes, given
/// the operand `v`: loads take the operand, transfers the source register,
/// increments and decrements the register plus or minus one modulo 256.
pub open spec fn moved_value(ins: Instruction, cpu: Cpu, v: u8) -> int {
    match ins {
        Instruction::LDA | Instruction::LDX | Instruction::LDY => v as int,
        Instruction::TAX | Instruction::TAY => cpu.a as int,
        Instruction::TXA => cpu.x as int,
        Instruction::TYA => cpu.y as int,
        Instruction::TSX => cpu.s as int,
        Instruction::INX => (cpu.x + 1) % 256,
        Instruction::INY => (cpu.y + 1) % 256,
        Instruction::DEX => (cpu.x - 1) % 256,
        _ => (cpu.y - 1) % 256,
    }
}

/// Whether `ins` is one of the loads, transfers, increments and decrements
/// of a register.
pub open spec fn is_register_move(ins: Instruction) -> bool {
    ||| ins == Instruction::LDA || ins == Instruction::LDX || ins == Instruction::LDY
    ||| ins == Instruction::TAX || ins == Instruction::TAY || ins == Instruction::TXA || ins == Instruction::TYA
    ||| ins == Instruction::TSX
    ||| ins == Instruction::INX || ins == Instruction::INY || ins == Instruction::DEX || ins == Instruction::DEY
}

/// Loads (LDA, LDX, LDY), transfers (TAX, TAY, TXA, TYA, TSX), increments
/// (INX, INY) and decrements (DEX, DEY) write one value into one register:
/// the operand, the source register, or the register plus or minus one
/// modulo 256. Zero then says the value is zero and Negative that it is at
/// least 128; the other registers, flags and the bus stay as they were
/// (but for what reading the operand does).
pub proof fn law_register_moves<B: Bus>(ins: Instruction, cpu: Cpu, m: B::V, d: DataSource)
    requires
        is_register_move(ins),
    ensures
        ({
            let (v, m1) = d.read_spec::<B>(cpu, m);
            let (c, m2) = execute::<B>(ins, cpu, m, d);
            let r = moved_register(ins);
            let x = moved_value(ins, cpu, v);
            &&& c.a == if r == 0 { x } else { cpu.a as int }
            &&& c.x == if r == 1 { x } else { cpu.x as int }
            &&& c.y == if r == 2 { x } else { cpu.y as int }
            &&& c.flag(Zero) == (x == 0)
            &&& c.flag(Negative) == (x >= 128)
            &&& forall|f: StatusFlag| f != Zero && f != Negative ==> #[trigger] c.flag(f) == cpu.flag(f)
            &&& c == (Cpu { a: c.a, x: c.x, y: c.y, status: c.status, ..cpu })
            &&& (ins == Instruction::LDA || ins == Instruction::LDX || ins == Instruction::LDY) ==> m2 == m1
            &&& !(ins == Instruction::LDA || ins == Instruction::LDX || ins == Instruction::LDY) ==> m2 == m
        }),
{
    let (v, m1) = d.read_spec::<B>(cpu, m);
    match ins {
        Instruction::LDA => lemma_zn_flags(Cpu { a: v, ..cpu }, v),
        Instruction::LDX => lemma_zn_flags(Cpu { x: v, ..cpu }, v),
        Instruction::LDY => lemma_zn_flags(Cpu { y: v, ..cpu }, v),
        Instruction::TAX => lemma_zn_flags(Cpu { x: cpu.a, ..cpu }, cpu.a),
        Instruction::TAY => lemma_zn_flags(Cpu { y: cpu.a, ..cpu }, cpu.a),
        Instruction::TXA => lemma_zn_flags(Cpu { a: cpu.x, ..cpu }, cpu.x),
        Instruction::TYA => lemma_zn_flags(Cpu { a: cpu.y, ..cpu }, cpu.y),
        Instruction::TSX => lemma_zn_flags(Cpu { x: cpu.s, ..cpu }, cpu.s),
        Instruction::INX => lemma_zn_flags(Cpu { x: cpu.x.wrapping_add(1), ..cpu }, cpu.x.wrapping_add(1)),
        Instruction::INY => lemma_zn_flags(Cpu { y: cpu.y.wrapping_add(1), ..cpu }, cpu.y.wrapping_add(1)),
        Instruction::DEX => lemma_zn_flags(Cpu { x: cpu.x.wrapping_sub(1), ..cpu }, cpu.x.wrapping_sub(1)),
        _ => lemma_zn_flags(Cpu { y: cpu.y.wrapping_sub(1), ..cpu }, cpu.y.wrapping_sub(1)),
    }
}

/// The bits of an 8-bit addition with carry in `c`, done in 16 bits.
proof fn lemma_adc_bits(a: u8, v: u8, c: u16)
    by (bit_vector)
    requires
        c <= 1,
    ensures
        ({
            let result = (a as u16 + v as u16 + c) as u16;
            let sum = a + v + c;
            &&& ((result & 0x00FFu16) as u8) == sum % 256
            &&& (result & 0xFF00u16 != 0) == (sum >= 256)
            &&& (result & 0x00FFu16 == 0) == (sum % 256 == 0)
            &&& (result & 0x0080u16 != 0) == (sum % 256 >= 128)
            &&& ((a as u16 ^ result) & !(a as u16 ^ v as u16) & 0x0080u16 != 0) == ((a >= 128) == (v >= 128) && (sum
                % 256 >= 128) != (a >= 128))
            &&& (!a) as int == 255 - a
        }),
{
}

/// ADC adds the operand `v` and the carry to the accumulator; SBC does
/// the same with `255 - v`, which subtracts `v` and the borrow (the carry
/// clear). With `sum` the exact total: the accumulator becomes `sum`
/// modulo 256, Carry says `sum` reached 256, Zero and Negative describe the
/// new accumulator, and Overflow says the operands had the same sign and
/// the result has the other one. X, Y, the other flags and the bus (but for
/// the operand's read) stay.
pub proof fn law_add_subtract<B: Bus>(ins: Instruction, cpu: Cpu, m: B::V, d: DataSource)
    requires
        ins == Instruction::ADC || ins == Instruction::SBC,
    ensures
        ({
            let (v, m1) = d.read_spec::<B>(cpu, m);
            let (c, m2) = execute::<B>(ins, cpu, m, d);
            let w: int = if ins == Instruction::ADC { v as int } else { 255 - v };
            let sum: int = cpu.a + w + if cpu.flag(Carry) { 1int } else { 0int };
            &&& c.a == sum % 256
            &&& c.flag(Carry) == (sum >= 256)
            &&& c.flag(Zero) == (sum % 256 == 0)
            &&& c.flag(Negative) == (sum % 256 >= 128)
            &&& c.flag(Overflow) == ((cpu.a >= 128) == (w >= 128) && (sum % 256 >= 128) != (cpu.a >= 128))
            &&& forall|f: StatusFlag|
                f != Zero && f != Carry && f != Negative && f != Overflow ==> #[trigger] c.flag(f) == cpu.flag(f)
            &&& c == (Cpu { a: c.a, status: c.status, ..cpu })
            &&& m2 == m1
        }),
{
    let (v, m1) = d.read_spec::<B>(cpu, m);
    let u: u8 = if ins == Instruction::ADC { v } else { !v };
    lemma_adc_bits(v, 0, 0);
    let cin: u16 = if cpu.flag(Carry) { 1u16 } else { 0u16 };
    lemma_adc_bits(cpu.a, u, cin);
    let result = (cpu.a as u16 + u as u16 + cin) as u16;
    let overflow = (cpu.a as u16 ^ result) & !(cpu.a as u16 ^ u as u16) & 0x0080u16;
    let c0 = Cpu { a: (result & 0x00FFu16) as u8, ..cpu };
    let c1 = c0.with_flag(Overflow, overflow != 0);
    let c2 = c1.with_flag(Carry, result & 0xFF00u16 != 0);
    let c3 = c2.with_flag(Zero, result & 0x00FFu16 == 0);
    let n = result & 0x0080u16 != 0;
    assert forall|f: StatusFlag|
        f != Zero && f != Carry && f != Negative && f != Overflow implies #[trigger] c3.with_flag(Negative, n).flag(f)
        == cpu.flag(f) by {
        law_status_set_get(c0, Overflow, f, overflow != 0);
        law_status_set_get(c1, Carry, f, result & 0xFF00u16 != 0);
        law_status_set_get(c2, Zero, f, result & 0x00FFu16 == 0);
        law_status_set_get(c3, Negative, f, n);
    }
    law_status_set_get(c3, Negative, Negative, n);
    law_status_set_get(c3, Negative, Zero, n);
    law_status_set_get(c3, Negative, Carry, n);
    law_status_set_get(c3, Negative, Overflow, n);
    law_status_set_get(c2, Zero, Zero, result & 0x00FFu16 == 0);
    law_status_set_get(c2, Zero, Carry, result & 0x00FFu16 == 0);
    law_status_set_get(c2, Zero, Overflow, result & 0x00FFu16 == 0);
    law_status_set_get(c1, Carry, Carry, result & 0xFF00u16 != 0);
    law_status_set_get(c1, Carry, Overflow, result & 0xFF00u16 != 0);
    law_status_set_get(c0, Overflow, Overflow, overflow != 0);
}

/// The shifts and rotates in arithmetic: shifting left doubles modulo
/// 256, shifting right halves, and the carry bit of a status enters at the
/// other end.
proof fn lemma_shift_arith(v: u8, st: u8)
    by (bit_vector)
    ensures
        (v << 1u8) == ((2 * v) % 256) as u8,
        (v >> 1u8) == (v / 2) as u8,
        (v & 0x80u8 != 0) == (v >= 128u8),
        (v & 0x01u8 != 0) == ((v % 2) as u8 == 1u8),
        (st & 0x01u8) <= 1u8,
        ((v << 1u8) | (st & 0x01u8)) == ((2 * v + (st & 0x01u8)) % 256) as u8,
        ((v >> 1u8) | ((st & 0x01u8) << 7u8)) == (v / 2 + 128 * (st & 0x01u8)) as u8,
        v / 2 + 128 * (st & 0x01u8) < 256,
{
}

/// ASL doubles its operand modulo 256 and LSR halves it, ROL and ROR do the
/// same with the old carry (1 or 0) entering at the bottom or the top; the
/// bit shifted out (bit 7 to the left, bit 0 to the right) becomes the
/// carry. The result is written back where the operand came from (the
/// accumulator or memory), and Zero and Negative describe it.
pub proof fn law_shifts<B: Bus>(ins: Instruction, cpu: Cpu, m: B::V, d: DataSource)
    requires
        ins == Instruction::ASL || ins == Instruction::LSR || ins == Instruction::ROL || ins == Instruction::ROR,
    ensures
        ({
            let (v, m1) = d.read_spec::<B>(cpu, m);
            let (c, m2) = execute::<B>(ins, cpu, m, d);
            let cin: int = if cpu.flag(Carry) { 1 } else { 0 };
            let r: int = if ins == Instruction::ASL {
                (2 * v) % 256
            } else if ins == Instruction::LSR {
                v as int / 2
            } else if ins == Instruction::ROL {
                (2 * v + cin) % 256
            } else {
                v as int / 2 + 128 * cin
            };
            let out: bool = if ins == Instruction::ASL || ins == Instruction::ROL { v >= 128 } else { v % 2 == 1 };
            let (w, mw) = d.write_spec::<B>(cpu, m1, r as u8);
            &&& 0 <= r < 256
            &&& c.flag(Carry) == out
            &&& c.flag(Zero) == (r == 0)
            &&& c.flag(Negative) == (r >= 128)
            &&& forall|f: StatusFlag|
                f != Zero && f != Carry && f != Negative ==> #[trigger] c.flag(f) == cpu.flag(f)
            &&& c == (Cpu { status: c.status, ..w })
            &&& m2 == mw
        }),
{
    let (v, m1) = d.read_spec::<B>(cpu, m);
    lemma_shift_arith(v, cpu.status);
    let cin: u8 = cpu.status & 0x01u8;
    assert(cpu.flag(Carry) == (cin != 0));
    let out: bool = if ins == Instruction::ASL || ins == Instruction::ROL { v & 0x80u8 != 0 } else { v & 0x01u8 != 0 };
    let r: u8 = if ins == Instruction::ASL {
        asl_value(v)
    } else if ins == Instruction::LSR {
        lsr_value(v)
    } else if ins == Instruction::ROL {
        rol_value(cpu, v)
    } else {
        ror_value(cpu, v)
    };
    let c1 = cpu.with_flag(Carry, out);
    lemma_zn_flags(c1, r);
    assert forall|f: StatusFlag| f != Zero && f != Carry && f != Negative implies #[trigger] c1.with_zn(r).flag(f)
        == cpu.flag(f) by {
        law_status_set_get(cpu, Carry, f, out);
    }
    law_status_set_get(cpu, Carry, Carry, out);
    let rr: int = if ins == Instruction::ASL {
        (2 * v) % 256
    } else if ins == Instruction::LSR {
        v as int / 2
    } else if ins == Instruction::ROL {
        (2 * v + cin) % 256
    } else {
        v as int / 2 + 128 * cin
    };
    assert(r as int == rr);
    let (c, m2) = execute::<B>(ins, cpu, m, d);
    assert((c, m2) == d.write_spec::<B>(c1.with_zn(r), m1, r));
    assert(c.status == c1.with_zn(r).status);
    assert(c1.with_zn(r).flag(Carry) == c1.flag(Carry));
    assert(c1.flag(Carry) == out);
    assert(c.flag(Carry) == out);
    assert(c.flag(Zero) == (rr == 0));
    assert(c.flag(Negative) == (rr >= 128));
    let (w, mw) = d.write_spec::<B>(cpu, m1, r);
    assert(c == (Cpu { status: c.status, ..w }));
    assert(m2 == mw);
    let out2: bool = if ins == Instruction::ASL || ins == Instruction::ROL { v >= 128 } else { v % 2 == 1 };
    assert(out2 == out);
    assert forall|f: StatusFlag| f != Zero && f != Carry && f != Negative implies #[trigger] c.flag(f) == cpu.flag(
        f,
    ) by {
        assert(c1.with_zn(r).flag(f) == c1.flag(f));
        law_status_set_get(cpu, Carry, f, out);
    }
}

/// The flag that a branch instruction tests, and the value that makes it
/// branch.
pub open spec fn branch_test(ins: Instruction) -> (StatusFlag, bool) {
    match ins {
        Instruction::BCC => (Carry, false),
        Instruction::BCS => (Carry, true),
        Instruction::BNE => (Zero, false),
        Instruction::BEQ => (Zero, true),
        Instruction::BPL => (Negative, false),
        Instruction::BMI => (Negative, true),
        Instruction::BVC => (Overflow, false),
        _ => (Overflow, true),
    }
}

/// Whether `ins` is one of the eight conditional branches.
pub open spec fn is_branch(ins: Instruction) -> bool {
    ||| ins == Instruction::BCC || ins == Instruction::BCS || ins == Instruction::BNE || ins == Instruction::BEQ
    ||| ins == Instruction::BPL || ins == Instruction::BMI || ins == Instruction::BVC || ins == Instruction::BVS
}

/// A conditional branch goes to its target exactly when its flag has the
/// value it tests for (BCC/BCS the carry clear/set, BNE/BEQ zero, BPL/BMI
/// negative, BVC/BVS overflow), taking one more cycle, or two when the
/// target is on another page; otherwise nothing changes. Registers, flags
/// and memory are untouched either way.
pub proof fn law_branches<B: Bus>(ins: Instruction, cpu: Cpu, m: B::V, d: DataSource)
    requires
        is_branch(ins),
    ensures
        ({
            let (c, m2) = execute::<B>(ins, cpu, m, d);
            let (f, when) = branch_test(ins);
            let taken = cpu.flag(f) == when;
            &&& taken ==> c.pc == d.addr
            &&& taken && cpu.cycles_left <= 253 ==> c.cycles_left == cpu.cycles_left + if (d.addr & 0xFF00u16) != (
                cpu.pc & 0xFF00u16) {
                2int
            } else {
                1int
            }
            &&& !taken ==> c == cpu
            &&& c == (Cpu { pc: c.pc, cycles_left: c.cycles_left, ..cpu })
            &&& m2 == m
        }),
{
}

/// AND, EOR and ORA combine the accumulator with the operand bit by bit
/// (both set, exactly one set, either set) into the accumulator; INC and
/// DEC write the operand plus or minus one, modulo 256, back to memory.
/// Zero and Negative describe the new value; nothing else changes but
/// what the write stores.
pub proof fn law_logic_and_steps<B: Bus>(ins: Instruction, cpu: Cpu, m: B::V, d: DataSource)
    requires
        ins == Instruction::AND || ins == Instruction::EOR || ins == Instruction::ORA || ins == Instruction::INC
            || ins == Instruction::DEC,
    ensures
        ({
            let (v, m1) = d.read_spec::<B>(cpu, m);
            let (c, m2) = execute::<B>(ins, cpu, m, d);
            let r: int = if ins == Instruction::AND {
                (cpu.a & v) as int
            } else if ins == Instruction::EOR {
                (cpu.a ^ v) as int
            } else if ins == Instruction::ORA {
                (cpu.a | v) as int
            } else if ins == Instruction::INC {
                (v + 1) % 256
            } else {
                (v - 1) % 256
            };
            let logic = ins == Instruction::AND || ins == Instruction::EOR || ins == Instruction::ORA;
            &&& c.flag(Zero) == (r == 0)
            &&& c.flag(Negative) == (r >= 128)
            &&& forall|f: StatusFlag| f != Zero && f != Negative ==> #[trigger] c.flag(f) == cpu.flag(f)
            &&& logic ==> c == (Cpu { a: r as u8, status: c.status, ..cpu }) && m2 == m1
            &&& !logic ==> c == (Cpu { status: c.status, ..d.write_spec::<B>(cpu, m1, r as u8).0 }) && m2
                == d.write_spec::<B>(cpu, m1, r as u8).1
        }),
{
    let (v, m1) = d.read_spec::<B>(cpu, m);
    let r: u8 = if ins == Instruction::AND {
        cpu.a & v
    } else if ins == Instruction::EOR {
        cpu.a ^ v
    } else if ins == Instruction::ORA {
        cpu.a | v
    } else if ins == Instruction::INC {
        v.wrapping_add(1)
    } else {
        v.wrapping_sub(1)
    };
    if ins == Instruction::AND || ins == Instruction::EOR || ins == Instruction::ORA {
        lemma_zn_flags(Cpu { a: r, ..cpu }, r);
    } else {
        lemma_zn_flags(cpu, r);
        let (c, m2) = execute::<B>(ins, cpu, m, d);
        assert(c.status == cpu.with_zn(r).status);
        assert forall|f: StatusFlag| f != Zero && f != Negative implies #[trigger] c.flag(f) == cpu.flag(f) by {
            assert(cpu.with_zn(r).flag(f) == cpu.flag(f));
        }
        assert(c.flag(Zero) == cpu.with_zn(r).flag(Zero));
        assert(c.flag(Negative) == cpu.with_zn(r).flag(Negative));
    }
}

} // verus!
