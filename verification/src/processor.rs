use vstd::prelude::*;
use crate::bus::{Bus, word};
use crate::cpu6502::{
    Cpu, StatusFlag, Instruction, AddressingMode, Operation, InstructionResult, illegal_operation,
    bus_read, compare_spec, branch_spec, lemma_inc_16, lemma_dec_16, lemma_compare_16, STACK_START, STACK_SIZE, PC_INIT_ADDR, IRQ_POINTER,
    NMI_POINTER,
};

verus! {

use StatusFlag::{Carry, Zero, DisableInterrupts, DecimalMode, Break, Unused, Overflow, Negative};

/// A 6502 that owns its bus.
///
/// It implements the documented instructions in its own way: the zero flag
/// of BIT follows the accumulator alone, SBC adds the inverted operand plus
/// one, shifts and rotates leave the zero and negative flags alone and
/// rotate without the carry, and branches add their operand to the program
/// counter. Its stack pointer, program counter and comparisons use plain
/// arithmetic, so they must not leave their range.
pub struct Processor<B> {
    pub bus: B,
    /// Processor Status
    pub status: u8,
    /// Accumulator
    pub a: u8,
    /// X Register
    pub x: u8,
    /// Y Register
    pub y: u8,
    /// Stack Pointer
    pub s: u8,
    /// Program Counter
    pub pc: u16,
    /// The numbers of cycles remaining for the current operation
    pub cycles_left: u8,
}

impl<B> Processor<B> {
    /// The registers, as a `Cpu`.
    pub open spec fn regs(&self) -> Cpu {
        Cpu {
            status: self.status,
            a: self.a,
            x: self.x,
            y: self.y,
            s: self.s,
            pc: self.pc,
            cycles_left: self.cycles_left,
        }
    }
}

/// Registers and bus state after pushing `data`; the stack pointer goes
/// down by one.
pub open spec fn push_spec<B: Bus>(cpu: Cpu, m: B::V, data: u8) -> (Cpu, B::V) {
    (
        Cpu { s: (cpu.s - 1) as u8, ..cpu },
        B::after_write(m, (STACK_START + cpu.s) as u16, data),
    )
}

/// The byte pulled from the stack: the stack pointer moves one up, onto
/// the byte that the last push wrote, and that byte is read.
pub open spec fn pull_spec<B: Bus>(cpu: Cpu, m: B::V) -> (u8, Cpu, B::V) {
    let s = (cpu.s + 1) as u8;
    let (v, m1) = bus_read::<B>(m, (STACK_START + s) as u16);
    (v, Cpu { s, ..cpu }, m1)
}

/// Where an instruction finds its operand.
#[derive(Debug, PartialEq, Eq, Clone, Copy, Structural)]
pub enum DataSourceKind {
    Accumulator,
    AbsoluteAddress,
    /// An address relative to the program counter.
    RelativeAddress,
    Implicit,
}

use DataSourceKind::{Accumulator, AbsoluteAddress, RelativeAddress, Implicit};

#[derive(Debug, PartialEq, Eq, Clone, Copy, Structural)]
pub struct DataSource {
    pub kind: DataSourceKind,
    pub addr: u16,
}

impl DataSource {
    /// Whether the operand can be read or written without a panic.
    pub open spec fn access_ok(self, cpu: Cpu) -> bool {
        match self.kind {
            Implicit => false,
            RelativeAddress => cpu.pc + self.addr <= 0xFFFF,
            _ => true,
        }
    }

    /// The address of the operand in memory.
    pub open spec fn target(self, cpu: Cpu) -> u16 {
        match self.kind {
            RelativeAddress => (cpu.pc + self.addr) as u16,
            _ => self.addr,
        }
    }

    pub open spec fn read_spec<B: Bus>(self, cpu: Cpu, m: B::V) -> (u8, B::V) {
        match self.kind {
            Accumulator => (cpu.a, m),
            Implicit => (0, m),
            _ => bus_read::<B>(m, self.target(cpu)),
        }
    }

    pub open spec fn write_spec<B: Bus>(self, cpu: Cpu, m: B::V, data: u8) -> (Cpu, B::V) {
        match self.kind {
            Accumulator => (Cpu { a: data, ..cpu }, m),
            Implicit => (cpu, m),
            _ => (cpu, B::after_write(m, self.target(cpu), data)),
        }
    }

    pub fn read<B: Bus>(&self, cpu: &mut Processor<B>) -> (r: u8)
        requires
            self.access_ok(old(cpu).regs()),
        ensures
            (r, final(cpu).bus@) == self.read_spec::<B>(old(cpu).regs(), old(cpu).bus@),
            final(cpu).regs() == old(cpu).regs(),
    {
        match self.kind {
            Accumulator => cpu.a,
            AbsoluteAddress => cpu.bus.read(self.addr),
            RelativeAddress => cpu.bus.read(cpu.pc + self.addr),
            Implicit => 0x00,
        }
    }

    pub fn write<B: Bus>(&self, cpu: &mut Processor<B>, data: u8)
        requires
            self.access_ok(old(cpu).regs()),
        ensures
            (final(cpu).regs(), final(cpu).bus@) == self.write_spec::<B>(
                old(cpu).regs(),
                old(cpu).bus@,
                data,
            ),
    {
        match self.kind {
            Accumulator => cpu.a = data,
            AbsoluteAddress => cpu.bus.write(self.addr, data),
            RelativeAddress => cpu.bus.write(cpu.pc + self.addr, data),
            Implicit => {},
        }
    }
}

/// Add `m`, the carry and `plus` to the accumulator, with the flags.
pub open spec fn add_spec(cpu: Cpu, m: u16, plus: u16) -> Cpu {
    let a = cpu.a as u16;
    let result = (a + m + (cpu.status & 0x01) as u16 + plus) as u16;
    let overflow = (a ^ result) & !(a ^ m) & 0x0080u16;
    Cpu { a: (result & 0x00FFu16) as u8, ..cpu }
        .with_flag(Overflow, overflow != 0)
        .with_flag(Carry, result > 0xFF)
        .with_flag(Zero, result & 0x00FFu16 == 0)
        .with_flag(Negative, result & 0x0080u16 != 0)
}

/// Whether the instruction reads or writes its operand.
pub open spec fn uses_operand(ins: Instruction) -> bool {
    match ins {
        Instruction::AND | Instruction::EOR | Instruction::ORA | Instruction::BIT
        | Instruction::LDA | Instruction::LDX | Instruction::LDY | Instruction::STA
        | Instruction::STX | Instruction::STY | Instruction::ADC | Instruction::SBC
        | Instruction::CMP | Instruction::CPX | Instruction::CPY | Instruction::INC
        | Instruction::DEC | Instruction::ASL | Instruction::LSR | Instruction::ROL
        | Instruction::ROR => true,
        _ => false,
    }
}

/// The condition of a branch instruction; false for the others.
pub open spec fn branch_condition(ins: Instruction, cpu: Cpu) -> bool {
    match ins {
        Instruction::BCC => !cpu.flag(Carry),
        Instruction::BCS => cpu.flag(Carry),
        Instruction::BEQ => cpu.flag(Zero),
        Instruction::BMI => cpu.flag(Negative),
        Instruction::BPL => !cpu.flag(Negative),
        Instruction::BNE => !cpu.flag(Zero),
        Instruction::BVC => !cpu.flag(Overflow),
        Instruction::BVS => cpu.flag(Overflow),
        _ => false,
    }
}

/// How many bytes the instruction pushes and how many it pulls.
pub open spec fn stack_use(ins: Instruction) -> (int, int) {
    match ins {
        Instruction::PHA | Instruction::PHP => (1, 0),
        Instruction::JSR => (2, 0),
        Instruction::BRK => (3, 0),
        Instruction::PLA | Instruction::PLP => (0, 1),
        Instruction::RTS => (0, 2),
        Instruction::RTI => (0, 3),
        _ => (0, 0),
    }
}

/// The inputs on which the instruction runs without a panic: an operand
/// that can be read, a register at least as large as the operand it is
/// compared with, no decrement of zero, room on the stack for what is
/// pushed and pulled, a program counter above zero for JSR, and a branch
/// target inside the address space.
pub open spec fn instruction_ok<B: Bus>(ins: Instruction, cpu: Cpu, m: B::V, d: DataSource) -> bool {
    let (v, m1) = d.read_spec::<B>(cpu, m);
    &&& uses_operand(ins) ==> d.access_ok(cpu)
    &&& ins == Instruction::CMP ==> cpu.a >= v
    &&& ins == Instruction::CPX ==> cpu.x >= v
    &&& ins == Instruction::CPY ==> cpu.y >= v
    &&& ins == Instruction::DEC ==> v >= 1
    &&& ins == Instruction::DEX ==> cpu.x >= 1
    &&& ins == Instruction::DEY ==> cpu.y >= 1
    &&& cpu.s >= stack_use(ins).0
    &&& cpu.s + stack_use(ins).1 <= 255
    &&& ins == Instruction::JSR ==> cpu.pc >= 1
    &&& branch_condition(ins, cpu) ==> cpu.cycles_left <= 253 && cpu.pc + d.addr <= 0xFFFF
}

/// What an instruction does to the registers and the bus, given where its
/// operand is.
pub open spec fn execute<B: Bus>(ins: Instruction, cpu: Cpu, m: B::V, d: DataSource) -> (Cpu, B::V) {
    let (v, m1) = d.read_spec::<B>(cpu, m);
    match ins {
        Instruction::AND => (Cpu { a: cpu.a & v, ..cpu }.with_zn(cpu.a & v), m1),
        Instruction::EOR => (Cpu { a: cpu.a ^ v, ..cpu }.with_zn(cpu.a ^ v), m1),
        Instruction::ORA => (Cpu { a: cpu.a | v, ..cpu }.with_zn(cpu.a | v), m1),
        Instruction::BIT => (
            cpu.with_flag(Zero, cpu.a == 0).with_flag(Overflow, v & 0x40 != 0).with_flag(
                Negative,
                v & 0x80 != 0,
            ),
            m1,
        ),
        Instruction::LDA => (Cpu { a: v, ..cpu }.with_zn(v), m1),
        Instruction::LDX => (Cpu { x: v, ..cpu }.with_zn(v), m1),
        Instruction::LDY => (Cpu { y: v, ..cpu }.with_zn(v), m1),
        Instruction::STA => d.write_spec::<B>(cpu, m, cpu.a),
        Instruction::STX => d.write_spec::<B>(cpu, m, cpu.x),
        Instruction::STY => d.write_spec::<B>(cpu, m, cpu.y),
        Instruction::TAX => (Cpu { x: cpu.a, ..cpu }.with_zn(cpu.a), m),
        Instruction::TAY => (Cpu { y: cpu.a, ..cpu }.with_zn(cpu.a), m),
        Instruction::TXA => (Cpu { a: cpu.x, ..cpu }.with_zn(cpu.x), m),
        Instruction::TYA => (Cpu { a: cpu.y, ..cpu }.with_zn(cpu.y), m),
        Instruction::TSX => (Cpu { x: cpu.s, ..cpu }.with_zn(cpu.s), m),
        Instruction::TXS => (Cpu { s: cpu.x, ..cpu }, m),
        Instruction::PHA => push_spec::<B>(cpu, m, cpu.a),
        Instruction::PHP => push_spec::<B>(cpu, m, cpu.status),
        Instruction::PLA => {
            let (p, c1, m2) = pull_spec::<B>(cpu, m);
            (Cpu { a: p, ..c1 }.with_zn(p), m2)
        },
        Instruction::PLP => {
            let (p, c1, m2) = pull_spec::<B>(cpu, m);
            (Cpu { status: p, ..c1 }, m2)
        },
        Instruction::ADC => (add_spec(cpu, v as u16, 0), m1),
        Instruction::SBC => (add_spec(cpu, (v as u16) ^ 0x00FFu16, 1), m1),
        Instruction::CMP => (compare_spec(cpu, cpu.a, v), m1),
        Instruction::CPX => (compare_spec(cpu, cpu.x, v), m1),
        Instruction::CPY => (compare_spec(cpu, cpu.y, v), m1),
        Instruction::INC => {
            let r = v.wrapping_add(1);
            d.write_spec::<B>(cpu.with_zn(r), m1, r)
        },
        Instruction::DEC => {
            let r = (v - 1) as u8;
            d.write_spec::<B>(cpu.with_zn(r), m1, r)
        },
        Instruction::INX => (Cpu { x: cpu.x.wrapping_add(1), ..cpu }.with_zn(cpu.x.wrapping_add(1)), m),
        Instruction::INY => (Cpu { y: cpu.y.wrapping_add(1), ..cpu }.with_zn(cpu.y.wrapping_add(1)), m),
        Instruction::DEX => (Cpu { x: (cpu.x - 1) as u8, ..cpu }.with_zn((cpu.x - 1) as u8), m),
        Instruction::DEY => (Cpu { y: (cpu.y - 1) as u8, ..cpu }.with_zn((cpu.y - 1) as u8), m),
        Instruction::ASL => d.write_spec::<B>(cpu.with_flag(Carry, v & 0x80 == 0x80), m1, v << 1u8),
        Instruction::LSR => d.write_spec::<B>(cpu.with_flag(Carry, v & 0x01 == 0x01), m1, v >> 1u8),
        Instruction::ROL => d.write_spec::<B>(
            cpu.with_flag(Carry, v >> 7u8 != 0),
            m1,
            (v << 1u8) | (v >> 7u8),
        ),
        Instruction::ROR => d.write_spec::<B>(
            cpu.with_flag(Carry, v & 0x01 != 0),
            m1,
            (v >> 1u8) | ((v & 0x01) << 7u8),
        ),
        Instruction::JMP => (Cpu { pc: d.addr, ..cpu }, m),
        Instruction::JSR => {
            let ret = (cpu.pc - 1) as u16;
            let (c1, m2) = push_spec::<B>(cpu, m, (ret >> 8u16) as u8);
            let (c2, m3) = push_spec::<B>(c1, m2, 0);
            (Cpu { pc: d.addr, ..c2 }, m3)
        },
        Instruction::RTS => {
            let (lo, c1, m2) = pull_spec::<B>(cpu, m);
            let (hi, c2, m3) = pull_spec::<B>(c1, m2);
            (Cpu { pc: word(lo, hi), ..c2 }, m3)
        },
        Instruction::BCC | Instruction::BCS | Instruction::BEQ | Instruction::BMI
        | Instruction::BPL | Instruction::BNE | Instruction::BVC | Instruction::BVS => (
            branch_spec(branch_condition(ins, cpu), cpu, (cpu.pc + d.addr) as u16),
            m,
        ),
        Instruction::CLC => (cpu.with_flag(Carry, false), m),
        Instruction::CLD => (cpu.with_flag(DecimalMode, false), m),
        Instruction::CLI => (cpu.with_flag(DisableInterrupts, false), m),
        Instruction::CLV => (cpu.with_flag(Overflow, false), m),
        Instruction::SEC => (cpu.with_flag(Carry, true), m),
        Instruction::SED => (cpu.with_flag(DecimalMode, true), m),
        Instruction::SEI => (cpu.with_flag(DisableInterrupts, true), m),
        Instruction::BRK => {
            let (c1, m2) = push_spec::<B>(cpu, m, (cpu.pc >> 8u16) as u8);
            let (c2, m3) = push_spec::<B>(c1, m2, (cpu.pc & 0x00FFu16) as u8);
            let (c3, m4) = push_spec::<B>(c2, m3, cpu.status);
            let (lo, m5) = bus_read::<B>(m4, IRQ_POINTER);
            let (hi, m6) = bus_read::<B>(m5, (IRQ_POINTER + 1) as u16);
            (Cpu { pc: word(lo, hi), ..c3 }.with_flag(Break, true), m6)
        },
        Instruction::RTI => {
            let (p, c1, m2) = pull_spec::<B>(cpu, m);
            let (hi, c2, m3) = pull_spec::<B>(c1, m2);
            let (lo, c3, m4) = pull_spec::<B>(c2, m3);
            let (vlo, m5) = bus_read::<B>(m4, IRQ_POINTER);
            let (vhi, m6) = bus_read::<B>(m5, (IRQ_POINTER + 1) as u16);
            (Cpu { status: p, pc: word(vlo, vhi), ..c3 }, m6)
        },
        _ => (cpu, m),
    }
}

/// Whether the instruction may take the extra cycle of an addressing mode
/// that crosses a page.
pub open spec fn extra_cycle_spec(ins: Instruction) -> bool {
    match ins {
        Instruction::AND | Instruction::EOR | Instruction::ORA | Instruction::LDA
        | Instruction::LDX | Instruction::LDY | Instruction::ADC | Instruction::SBC
        | Instruction::CMP => true,
        _ => false,
    }
}

pub open spec fn executes<B: Bus>(
    ins: Instruction,
    c1: Cpu,
    m1: B::V,
    d: DataSource,
    c2: Cpu,
    m2: B::V,
    r: InstructionResult,
) -> bool {
    &&& (c2, m2) == execute::<B>(ins, c1, m1, d)
    &&& r.may_need_extra_cycle == extra_cycle_spec(ins)
}

proof fn lemma_inverted_byte(v: u8)
    ensures
        (v as u16) ^ 0x00FFu16 <= 0xFF,
{
    assert((v as u16) ^ 0x00FFu16 <= 0xFF) by (bit_vector);
}

impl<B: Bus> Processor<B> {
    pub fn new(bus: B) -> (r: Processor<B>)
        ensures
            r.bus == bus,
            r.regs() == (Cpu { status: 0, a: 0, x: 0, y: 0, pc: 0, s: 0, cycles_left: 0 }),
    {
        Processor { bus, status: 0, a: 0, x: 0, y: 0, pc: 0, s: 0, cycles_left: 0 }
    }

    // UTILITIES/HELPER METHODS:

    /// The bit of `flag` in the status register: zero when clear, the flag's
    /// own bit when set.
    pub fn get_status(&self, flag: StatusFlag) -> (r: u8)
        ensures
            r == self.status & flag.spec_bits(),
    {
        self.status & flag.bits()
    }

    pub fn set_status(&mut self, flag: StatusFlag, value: bool)
        ensures
            final(self).regs() == old(self).regs().with_flag(flag, value),
            final(self).bus == old(self).bus,
    {
        if value {
            self.status = self.status | flag.bits();
        } else {
            self.status = self.status & !flag.bits();
        }
    }

    fn push(&mut self, data: u8)
        requires
            old(self).s >= 1,
        ensures
            (final(self).regs(), final(self).bus@) == push_spec::<B>(old(self).regs(), old(self).bus@, data),
    {
        self.bus.write(STACK_START + (self.s as u16), data);
        self.s = self.s - 1;
    }

    fn pull(&mut self) -> (r: u8)
        requires
            old(self).s < 255,
        ensures
            (r, final(self).regs(), final(self).bus@) == pull_spec::<B>(old(self).regs(), old(self).bus@),
    {
        self.s = self.s + 1;
        let data: u8 = self.bus.read(STACK_START + (self.s as u16));
        data
    }
}

// LOGICAL INSTRUCTIONS

/// AND
fn and<B: Bus>(cpu: &mut Processor<B>, data: &DataSource) -> (r: InstructionResult)
    requires
        instruction_ok::<B>(Instruction::AND, old(cpu).regs(), old(cpu).bus@, *data),
    ensures
        executes::<B>(Instruction::AND, old(cpu).regs(), old(cpu).bus@, *data, final(cpu).regs(), final(cpu).bus@, r),
{
    let m: u8 = data.read(cpu);
    cpu.a = cpu.a & m;
    cpu.set_status(Zero, cpu.a == 0x00);
    cpu.set_status(Negative, cpu.a & 0b_1000_0000 != 0);
    InstructionResult { may_need_extra_cycle: true }
}

/// Exclusive OR
fn eor<B: Bus>(cpu: &mut Processor<B>, data: &DataSource) -> (r: InstructionResult)
    requires
        instruction_ok::<B>(Instruction::EOR, old(cpu).regs(), old(cpu).bus@, *data),
    ensures
        executes::<B>(Instruction::EOR, old(cpu).regs(), old(cpu).bus@, *data, final(cpu).regs(), final(cpu).bus@, r),
{
    let m: u8 = data.read(cpu);
    cpu.a = cpu.a ^ m;
    cpu.set_status(Zero, cpu.a == 0x00);
    cpu.set_status(Negative, cpu.a & 0b_1000_0000 != 0);
    InstructionResult { may_need_extra_cycle: true }
}

/// Inclusive OR
fn ora<B: Bus>(cpu: &mut Processor<B>, data: &DataSource) -> (r: InstructionResult)
    requires
        instruction_ok::<B>(Instruction::ORA, old(cpu).regs(), old(cpu).bus@, *data),
    ensures
        executes::<B>(Instruction::ORA, old(cpu).regs(), old(cpu).bus@, *data, final(cpu).regs(), final(cpu).bus@, r),
{
    let m: u8 = data.read(cpu);
    cpu.a = cpu.a | m;
    cpu.set_status(Zero, cpu.a == 0x00);
    cpu.set_status(Negative, cpu.a & 0b_1000_0000 != 0);
    InstructionResult { may_need_extra_cycle: true }
}

/// Bit Test: the zero flag follows the accumulator alone
fn bit<B: Bus>(cpu: &mut Processor<B>, data: &DataSource) -> (r: InstructionResult)
    requires
        instruction_ok::<B>(Instruction::BIT, old(cpu).regs(), old(cpu).bus@, *data),
    ensures
        executes::<B>(Instruction::BIT, old(cpu).regs(), old(cpu).bus@, *data, final(cpu).regs(), final(cpu).bus@, r),
{
    let m: u8 = data.read(cpu);
    cpu.set_status(Zero, cpu.a == 0x00);
    // Bit 6 from memory value is copied to overflow flag:
    cpu.set_status(Overflow, m & 0b_0100_0000 != 0);
    cpu.set_status(Negative, m & 0b_1000_0000 != 0);
    InstructionResult { may_need_extra_cycle: false }
}

// LOAD/STORE OPERATIONS

/// Load Accumulator
fn lda<B: Bus>(cpu: &mut Processor<B>, data: &DataSource) -> (r: InstructionResult)
    requires
        instruction_ok::<B>(Instruction::LDA, old(cpu).regs(), old(cpu).bus@, *data),
    ensures
        executes::<B>(Instruction::LDA, old(cpu).regs(), old(cpu).bus@, *data, final(cpu).regs(), final(cpu).bus@, r),
{
    let m: u8 = data.read(cpu);
    cpu.a = m;
    cpu.set_status(Zero, m == 0);
    cpu.set_status(Negative, m & 0b_1000_0000 != 0);
    InstructionResult { may_need_extra_cycle: true }
}

/// Load X
fn ldx<B: Bus>(cpu: &mut Processor<B>, data: &DataSource) -> (r: InstructionResult)
    requires
        instruction_ok::<B>(Instruction::LDX, old(cpu).regs(), old(cpu).bus@, *data),
    ensures
        executes::<B>(Instruction::LDX, old(cpu).regs(), old(cpu).bus@, *data, final(cpu).regs(), final(cpu).bus@, r),
{
    let m: u8 = data.read(cpu);
    cpu.x = m;
    cpu.set_status(Zero, m == 0);
    cpu.set_status(Negative, m & 0b_1000_0000 != 0);
    InstructionResult { may_need_extra_cycle: true }
}

/// Load Y
fn ldy<B: Bus>(cpu: &mut Processor<B>, data: &DataSource) -> (r: InstructionResult)
    requires
        instruction_ok::<B>(Instruction::LDY, old(cpu).regs(), old(cpu).bus@, *data),
    ensures
        executes::<B>(Instruction::LDY, old(cpu).regs(), old(cpu).bus@, *data, final(cpu).regs(), final(cpu).bus@, r),
{
    let m: u8 = data.read(cpu);
    cpu.y = m;
    cpu.set_status(Zero, m == 0);
    cpu.set_status(Negative, m & 0b_1000_0000 != 0);
    InstructionResult { may_need_extra_cycle: true }
}

/// Store Accumulator
fn sta<B: Bus>(cpu: &mut Processor<B>, data: &DataSource) -> (r: InstructionResult)
    requires
        instruction_ok::<B>(Instruction::STA, old(cpu).regs(), old(cpu).bus@, *data),
    ensures
        executes::<B>(Instruction::STA, old(cpu).regs(), old(cpu).bus@, *data, final(cpu).regs(), final(cpu).bus@, r),
{
    let v: u8 = cpu.a;
    data.write(cpu, v);
    InstructionResult { may_need_extra_cycle: false }
}

/// Store X
fn stx<B: Bus>(cpu: &mut Processor<B>, data: &DataSource) -> (r: InstructionResult)
    requires
        instruction_ok::<B>(Instruction::STX, old(cpu).regs(), old(cpu).bus@, *data),
    ensures
        executes::<B>(Instruction::STX, old(cpu).regs(), old(cpu).bus@, *data, final(cpu).regs(), final(cpu).bus@, r),
{
    let v: u8 = cpu.x;
    data.write(cpu, v);
    InstructionResult { may_need_extra_cycle: false }
}

/// Store Y
fn sty<B: Bus>(cpu: &mut Processor<B>, data: &DataSource) -> (r: InstructionResult)
    requires
        instruction_ok::<B>(Instruction::STY, old(cpu).regs(), old(cpu).bus@, *data),
    ensures
        executes::<B>(Instruction::STY, old(cpu).regs(), old(cpu).bus@, *data, final(cpu).regs(), final(cpu).bus@, r),
{
    let v: u8 = cpu.y;
    data.write(cpu, v);
    InstructionResult { may_need_extra_cycle: false }
}

// REGISTER TRANSFERS

/// Transfer Accumulator to X
fn tax<B: Bus>(cpu: &mut Processor<B>, data: &DataSource) -> (r: InstructionResult)
    requires
        instruction_ok::<B>(Instruction::TAX, old(cpu).regs(), old(cpu).bus@, *data),
    ensures
        executes::<B>(Instruction::TAX, old(cpu).regs(), old(cpu).bus@, *data, final(cpu).regs(), final(cpu).bus@, r),
{
    cpu.x = cpu.a;
    cpu.set_status(Zero, cpu.a == 0x00);
    cpu.set_status(Negative, cpu.a & 0b_1000_0000 != 0);
    InstructionResult { may_need_extra_cycle: false }
}

/// Transfer Accumulator to Y
fn tay<B: Bus>(cpu: &mut Processor<B>, data: &DataSource) -> (r: InstructionResult)
    requires
        instruction_ok::<B>(Instruction::TAY, old(cpu).regs(), old(cpu).bus@, *data),
    ensures
        executes::<B>(Instruction::TAY, old(cpu).regs(), old(cpu).bus@, *data, final(cpu).regs(), final(cpu).bus@, r),
{
    cpu.y = cpu.a;
    cpu.set_status(Zero, cpu.a == 0x00);
    cpu.set_status(Negative, cpu.a & 0b_1000_0000 != 0);
    InstructionResult { may_need_extra_cycle: false }
}

/// Transfer X to Accumulator
fn txa<B: Bus>(cpu: &mut Processor<B>, data: &DataSource) -> (r: InstructionResult)
    requires
        instruction_ok::<B>(Instruction::TXA, old(cpu).regs(), old(cpu).bus@, *data),
    ensures
        executes::<B>(Instruction::TXA, old(cpu).regs(), old(cpu).bus@, *data, final(cpu).regs(), final(cpu).bus@, r),
{
    cpu.a = cpu.x;
    cpu.set_status(Zero, cpu.x == 0x00);
    cpu.set_status(Negative, cpu.x & 0b_1000_0000 != 0);
    InstructionResult { may_need_extra_cycle: false }
}

/// Transfer Y to Accumulator
fn tya<B: Bus>(cpu: &mut Processor<B>, data: &DataSource) -> (r: InstructionResult)
    requires
        instruction_ok::<B>(Instruction::TYA, old(cpu).regs(), old(cpu).bus@, *data),
    ensures
        executes::<B>(Instruction::TYA, old(cpu).regs(), old(cpu).bus@, *data, final(cpu).regs(), final(cpu).bus@, r),
{
    cpu.a = cpu.y;
    cpu.set_status(Zero, cpu.y == 0x00);
    cpu.set_status(Negative, cpu.y & 0b_1000_0000 != 0);
    InstructionResult { may_need_extra_cycle: false }
}

/// Transfer Stack Pointer to X
fn tsx<B: Bus>(cpu: &mut Processor<B>, data: &DataSource) -> (r: InstructionResult)
    requires
        instruction_ok::<B>(Instruction::TSX, old(cpu).regs(), old(cpu).bus@, *data),
    ensures
        executes::<B>(Instruction::TSX, old(cpu).regs(), old(cpu).bus@, *data, final(cpu).regs(), final(cpu).bus@, r),
{
    cpu.x = cpu.s;
    cpu.set_status(Zero, cpu.s == 0x00);
    cpu.set_status(Negative, cpu.s & 0b_1000_0000 != 0);
    InstructionResult { may_need_extra_cycle: false }
}

/// Transfer X to Stack Pointer
fn txs<B: Bus>(cpu: &mut Processor<B>, data: &DataSource) -> (r: InstructionResult)
    requires
        instruction_ok::<B>(Instruction::TXS, old(cpu).regs(), old(cpu).bus@, *data),
    ensures
        executes::<B>(Instruction::TXS, old(cpu).regs(), old(cpu).bus@, *data, final(cpu).regs(), final(cpu).bus@, r),
{
    cpu.s = cpu.x;
    InstructionResult { may_need_extra_cycle: false }
}

// STACK OPERATIONS

/// Push Accumulator
fn pha<B: Bus>(cpu: &mut Processor<B>, data: &DataSource) -> (r: InstructionResult)
    requires
        instruction_ok::<B>(Instruction::PHA, old(cpu).regs(), old(cpu).bus@, *data),
    ensures
        executes::<B>(Instruction::PHA, old(cpu).regs(), old(cpu).bus@, *data, final(cpu).regs(), final(cpu).bus@, r),
{
    let v: u8 = cpu.a;
    cpu.push(v);
    InstructionResult { may_need_extra_cycle: false }
}

/// Push Processor Status
fn php<B: Bus>(cpu: &mut Processor<B>, data: &DataSource) -> (r: InstructionResult)
    requires
        instruction_ok::<B>(Instruction::PHP, old(cpu).regs(), old(cpu).bus@, *data),
    ensures
        executes::<B>(Instruction::PHP, old(cpu).regs(), old(cpu).bus@, *data, final(cpu).regs(), final(cpu).bus@, r),
{
    let v: u8 = cpu.status;
    cpu.push(v);
    InstructionResult { may_need_extra_cycle: false }
}

/// Pull Accumulator
fn pla<B: Bus>(cpu: &mut Processor<B>, data: &DataSource) -> (r: InstructionResult)
    requires
        instruction_ok::<B>(Instruction::PLA, old(cpu).regs(), old(cpu).bus@, *data),
    ensures
        executes::<B>(Instruction::PLA, old(cpu).regs(), old(cpu).bus@, *data, final(cpu).regs(), final(cpu).bus@, r),
{
    cpu.a = cpu.pull();
    cpu.set_status(Zero, cpu.a == 0x00);
    cpu.set_status(Negative, cpu.a & 0b_1000_0000 != 0);
    InstructionResult { may_need_extra_cycle: false }
}

/// Pull Processor Status
fn plp<B: Bus>(cpu: &mut Processor<B>, data: &DataSource) -> (r: InstructionResult)
    requires
        instruction_ok::<B>(Instruction::PLP, old(cpu).regs(), old(cpu).bus@, *data),
    ensures
        executes::<B>(Instruction::PLP, old(cpu).regs(), old(cpu).bus@, *data, final(cpu).regs(), final(cpu).bus@, r),
{
    cpu.status = cpu.pull();
    InstructionResult { may_need_extra_cycle: false }
}

// ARITHMETIC

/// Add with Carry
fn adc<B: Bus>(cpu: &mut Processor<B>, data: &DataSource) -> (r: InstructionResult)
    requires
        instruction_ok::<B>(Instruction::ADC, old(cpu).regs(), old(cpu).bus@, *data),
    ensures
        executes::<B>(Instruction::ADC, old(cpu).regs(), old(cpu).bus@, *data, final(cpu).regs(), final(cpu).bus@, r),
{
    let a: u16 = cpu.a as u16;
    let m: u16 = data.read(cpu) as u16;
    let result: u16 = a + m + (cpu.get_status(Carry) as u16);
    {
        let overflow: u16 = (a ^ result) & !(a ^ m) & 0x0080;
        cpu.set_status(Overflow, overflow != 0);
    }
    cpu.set_status(Carry, result > 0xFF);
    cpu.set_status(Zero, (result & 0x00FF) == 0);
    cpu.set_status(Negative, (result & 0x80) != 0);
    cpu.a = (result & 0x00FF) as u8;
    InstructionResult { may_need_extra_cycle: true }
}

/// Subtract with Carry: ADC with the low byte of the operand inverted, plus one
fn sbc<B: Bus>(cpu: &mut Processor<B>, data: &DataSource) -> (r: InstructionResult)
    requires
        instruction_ok::<B>(Instruction::SBC, old(cpu).regs(), old(cpu).bus@, *data),
    ensures
        executes::<B>(Instruction::SBC, old(cpu).regs(), old(cpu).bus@, *data, final(cpu).regs(), final(cpu).bus@, r),
{
    let a: u16 = cpu.a as u16;
    let v: u8 = data.read(cpu);
    let m: u16 = (v as u16) ^ 0x00FF;
    proof { lemma_inverted_byte(v); }
    let result: u16 = a + m + (cpu.get_status(Carry) as u16) + 1;
    {
        let overflow: u16 = (a ^ result) & !(a ^ m) & 0x0080;
        cpu.set_status(Overflow, overflow != 0);
    }
    cpu.set_status(Carry, result > 0xFF);
    cpu.set_status(Zero, (result & 0x00FF) == 0);
    cpu.set_status(Negative, (result & 0x80) != 0);
    cpu.a = (result & 0x00FF) as u8;
    InstructionResult { may_need_extra_cycle: true }
}

/// The 16-bit difference `r - m` that comparisons take their flags from;
/// `r` must be at least `m`.
fn difference(r: u8, m: u8) -> (d: u16)
    requires
        r >= m,
    ensures
        d == (r as u16).wrapping_sub(m as u16),
{
    r as u16 - m as u16
}


/// Compare Accumulator
fn cmp<B: Bus>(cpu: &mut Processor<B>, data: &DataSource) -> (r: InstructionResult)
    requires
        instruction_ok::<B>(Instruction::CMP, old(cpu).regs(), old(cpu).bus@, *data),
    ensures
        executes::<B>(Instruction::CMP, old(cpu).regs(), old(cpu).bus@, *data, final(cpu).regs(), final(cpu).bus@, r),
{
    let r: u8 = cpu.a;
    let m: u8 = data.read(cpu);
    let result: u16 = difference(r, m);
    proof { lemma_compare_16(r, m); }
    cpu.set_status(Carry, r >= m);
    cpu.set_status(Zero, (result & 0x00FF) == 0);
    cpu.set_status(Negative, (result & 0x0080) != 0);
    InstructionResult { may_need_extra_cycle: true }
}

/// Compare X
fn cpx<B: Bus>(cpu: &mut Processor<B>, data: &DataSource) -> (r: InstructionResult)
    requires
        instruction_ok::<B>(Instruction::CPX, old(cpu).regs(), old(cpu).bus@, *data),
    ensures
        executes::<B>(Instruction::CPX, old(cpu).regs(), old(cpu).bus@, *data, final(cpu).regs(), final(cpu).bus@, r),
{
    let r: u8 = cpu.x;
    let m: u8 = data.read(cpu);
    let result: u16 = difference(r, m);
    proof { lemma_compare_16(r, m); }
    cpu.set_status(Carry, r >= m);
    cpu.set_status(Zero, (result & 0x00FF) == 0);
    cpu.set_status(Negative, (result & 0x0080) != 0);
    InstructionResult { may_need_extra_cycle: false }
}

/// Compare Y
fn cpy<B: Bus>(cpu: &mut Processor<B>, data: &DataSource) -> (r: InstructionResult)
    requires
        instruction_ok::<B>(Instruction::CPY, old(cpu).regs(), old(cpu).bus@, *data),
    ensures
        executes::<B>(Instruction::CPY, old(cpu).regs(), old(cpu).bus@, *data, final(cpu).regs(), final(cpu).bus@, r),
{
    let r: u8 = cpu.y;
    let m: u8 = data.read(cpu);
    let result: u16 = difference(r, m);
    proof { lemma_compare_16(r, m); }
    cpu.set_status(Carry, r >= m);
    cpu.set_status(Zero, r == m);
    cpu.set_status(Negative, (result & 0x0080) != 0);
    InstructionResult { may_need_extra_cycle: false }
}

// INCREMENTS & DECREMENTS

/// Increment Memory
fn inc<B: Bus>(cpu: &mut Processor<B>, data: &DataSource) -> (r: InstructionResult)
    requires
        instruction_ok::<B>(Instruction::INC, old(cpu).regs(), old(cpu).bus@, *data),
    ensures
        executes::<B>(Instruction::INC, old(cpu).regs(), old(cpu).bus@, *data, final(cpu).regs(), final(cpu).bus@, r),
{
    let m: u8 = data.read(cpu);
    let result: u16 = m as u16 + 1;
    proof { lemma_inc_16(m); }
    cpu.set_status(Zero, (result & 0x00FF) == 0);
    cpu.set_status(Negative, (result & 0x0080) != 0);
    data.write(cpu, (result & 0x00FF) as u8);
    InstructionResult { may_need_extra_cycle: false }
}

/// Decrement Memory
fn dec<B: Bus>(cpu: &mut Processor<B>, data: &DataSource) -> (r: InstructionResult)
    requires
        instruction_ok::<B>(Instruction::DEC, old(cpu).regs(), old(cpu).bus@, *data),
    ensures
        executes::<B>(Instruction::DEC, old(cpu).regs(), old(cpu).bus@, *data, final(cpu).regs(), final(cpu).bus@, r),
{
    let m: u8 = data.read(cpu);
    let result: u16 = m as u16 - 1;
    proof { lemma_dec_16(m); }
    cpu.set_status(Zero, (result & 0x00FF) == 0);
    cpu.set_status(Negative, (result & 0x0080) != 0);
    data.write(cpu, (result & 0x00FF) as u8);
    InstructionResult { may_need_extra_cycle: false }
}

/// Increment X
fn inx<B: Bus>(cpu: &mut Processor<B>, data: &DataSource) -> (r: InstructionResult)
    requires
        instruction_ok::<B>(Instruction::INX, old(cpu).regs(), old(cpu).bus@, *data),
    ensures
        executes::<B>(Instruction::INX, old(cpu).regs(), old(cpu).bus@, *data, final(cpu).regs(), final(cpu).bus@, r),
{
    let result: u16 = (cpu.x as u16) + 1;
    proof { lemma_inc_16(cpu.x); }
    cpu.set_status(Zero, (result & 0x00FF) == 0);
    cpu.set_status(Negative, (result & 0x0080) != 0);
    cpu.x = (result & 0x00FF) as u8;
    InstructionResult { may_need_extra_cycle: false }
}

/// Increment Y
fn iny<B: Bus>(cpu: &mut Processor<B>, data: &DataSource) -> (r: InstructionResult)
    requires
        instruction_ok::<B>(Instruction::INY, old(cpu).regs(), old(cpu).bus@, *data),
    ensures
        executes::<B>(Instruction::INY, old(cpu).regs(), old(cpu).bus@, *data, final(cpu).regs(), final(cpu).bus@, r),
{
    let result: u16 = (cpu.y as u16) + 1;
    proof { lemma_inc_16(cpu.y); }
    cpu.set_status(Zero, (result & 0x00FF) == 0);
    cpu.set_status(Negative, (result & 0x0080) != 0);
    cpu.y = (result & 0x00FF) as u8;
    InstructionResult { may_need_extra_cycle: false }
}

/// Decrement X
fn dex<B: Bus>(cpu: &mut Processor<B>, data: &DataSource) -> (r: InstructionResult)
    requires
        instruction_ok::<B>(Instruction::DEX, old(cpu).regs(), old(cpu).bus@, *data),
    ensures
        executes::<B>(Instruction::DEX, old(cpu).regs(), old(cpu).bus@, *data, final(cpu).regs(), final(cpu).bus@, r),
{
    let result: u16 = (cpu.x as u16) - 1;
    proof { lemma_dec_16(cpu.x); }
    cpu.set_status(Zero, (result & 0x00FF) == 0);
    cpu.set_status(Negative, (result & 0x0080) != 0);
    cpu.x = (result & 0x00FF) as u8;
    InstructionResult { may_need_extra_cycle: false }
}

/// Decrement Y
fn dey<B: Bus>(cpu: &mut Processor<B>, data: &DataSource) -> (r: InstructionResult)
    requires
        instruction_ok::<B>(Instruction::DEY, old(cpu).regs(), old(cpu).bus@, *data),
    ensures
        executes::<B>(Instruction::DEY, old(cpu).regs(), old(cpu).bus@, *data, final(cpu).regs(), final(cpu).bus@, r),
{
    let result: u16 = (cpu.y as u16) - 1;
    proof { lemma_dec_16(cpu.y); }
    cpu.set_status(Zero, (result & 0x00FF) == 0);
    cpu.set_status(Negative, (result & 0x0080) != 0);
    cpu.y = (result & 0x00FF) as u8;
    InstructionResult { may_need_extra_cycle: false }
}

// SHIFTS: these set the carry, and leave the zero and negative flags as they were

/// Arithmetic Shift Left
fn asl<B: Bus>(cpu: &mut Processor<B>, data: &DataSource) -> (r: InstructionResult)
    requires
        instruction_ok::<B>(Instruction::ASL, old(cpu).regs(), old(cpu).bus@, *data),
    ensures
        executes::<B>(Instruction::ASL, old(cpu).regs(), old(cpu).bus@, *data, final(cpu).regs(), final(cpu).bus@, r),
{
    let m: u8 = data.read(cpu);
    let result: u8 = m << 1u8;
    cpu.set_status(Carry, m & 0x80 == 0x80);
    data.write(cpu, result);
    InstructionResult { may_need_extra_cycle: false }
}

/// Logical Shift Right
fn lsr<B: Bus>(cpu: &mut Processor<B>, data: &DataSource) -> (r: InstructionResult)
    requires
        instruction_ok::<B>(Instruction::LSR, old(cpu).regs(), old(cpu).bus@, *data),
    ensures
        executes::<B>(Instruction::LSR, old(cpu).regs(), old(cpu).bus@, *data, final(cpu).regs(), final(cpu).bus@, r),
{
    let m: u8 = data.read(cpu);
    let result: u8 = m >> 1u8;
    cpu.set_status(Carry, m & 0x01 == 0x01);
    data.write(cpu, result);
    InstructionResult { may_need_extra_cycle: false }
}

/// Rotate Left: bit 7 moves round to bit 0
fn rol<B: Bus>(cpu: &mut Processor<B>, data: &DataSource) -> (r: InstructionResult)
    requires
        instruction_ok::<B>(Instruction::ROL, old(cpu).regs(), old(cpu).bus@, *data),
    ensures
        executes::<B>(Instruction::ROL, old(cpu).regs(), old(cpu).bus@, *data, final(cpu).regs(), final(cpu).bus@, r),
{
    let m: u8 = data.read(cpu);
    let old_bit_7: u8 = m >> 7u8;
    let result: u8 = (m << 1u8) | old_bit_7;
    cpu.set_status(Carry, old_bit_7 != 0);
    data.write(cpu, result);
    InstructionResult { may_need_extra_cycle: false }
}

/// Rotate Right: bit 0 moves round to bit 7
fn ror<B: Bus>(cpu: &mut Processor<B>, data: &DataSource) -> (r: InstructionResult)
    requires
        instruction_ok::<B>(Instruction::ROR, old(cpu).regs(), old(cpu).bus@, *data),
    ensures
        executes::<B>(Instruction::ROR, old(cpu).regs(), old(cpu).bus@, *data, final(cpu).regs(), final(cpu).bus@, r),
{
    let m: u8 = data.read(cpu);
    let old_bit_0: u8 = m & 0x01;
    let result: u8 = (m >> 1u8) | (old_bit_0 << 7u8);
    cpu.set_status(Carry, old_bit_0 != 0);
    data.write(cpu, result);
    InstructionResult { may_need_extra_cycle: false }
}

// JUMPS & CALLS

/// Jump
fn jmp<B: Bus>(cpu: &mut Processor<B>, data: &DataSource) -> (r: InstructionResult)
    requires
        instruction_ok::<B>(Instruction::JMP, old(cpu).regs(), old(cpu).bus@, *data),
    ensures
        executes::<B>(Instruction::JMP, old(cpu).regs(), old(cpu).bus@, *data, final(cpu).regs(), final(cpu).bus@, r),
{
    cpu.pc = data.addr;
    InstructionResult { may_need_extra_cycle: false }
}

/// Jump to Subroutine: the low byte pushed is always zero
fn jsr<B: Bus>(cpu: &mut Processor<B>, data: &DataSource) -> (r: InstructionResult)
    requires
        instruction_ok::<B>(Instruction::JSR, old(cpu).regs(), old(cpu).bus@, *data),
    ensures
        executes::<B>(Instruction::JSR, old(cpu).regs(), old(cpu).bus@, *data, final(cpu).regs(), final(cpu).bus@, r),
{
    let return_addr: u16 = cpu.pc - 1;
    let return_hi: u8 = (return_addr >> 8u16) as u8;
    cpu.push(return_hi);
    let return_lo: u8 = (return_addr << 8u16) as u8;
    proof { assert((return_addr << 8u16) as u8 == 0) by (bit_vector); }
    cpu.push(return_lo);
    cpu.pc = data.addr;
    InstructionResult { may_need_extra_cycle: false }
}

/// Return from Subroutine
fn rts<B: Bus>(cpu: &mut Processor<B>, data: &DataSource) -> (r: InstructionResult)
    requires
        instruction_ok::<B>(Instruction::RTS, old(cpu).regs(), old(cpu).bus@, *data),
    ensures
        executes::<B>(Instruction::RTS, old(cpu).regs(), old(cpu).bus@, *data, final(cpu).regs(), final(cpu).bus@, r),
{
    let return_lo: u8 = cpu.pull();
    let return_hi: u8 = cpu.pull();
    let return_addr: u16 = ((return_hi as u16) << 8u16) | return_lo as u16;
    cpu.pc = return_addr;
    InstructionResult { may_need_extra_cycle: false }
}

// BRANCHES

/// Every branching instruction adds the operand to the program counter on
/// its own condition: a branch costs an extra cycle, and one more when it
/// crosses into another page.
fn branch_if<B: Bus>(condition: bool, cpu: &mut Processor<B>, data: &DataSource) -> (r: InstructionResult)
    requires
        condition ==> old(cpu).cycles_left <= 253 && old(cpu).pc + data.addr <= 0xFFFF,
    ensures
        final(cpu).regs() == branch_spec(condition, old(cpu).regs(), (old(cpu).pc + data.addr) as u16),
        final(cpu).bus == old(cpu).bus,
        !r.may_need_extra_cycle,
{
    if condition {
        // If we are branching, we use up an extra cycle
        cpu.cycles_left = cpu.cycles_left + 1;
        let new_pc: u16 = cpu.pc + data.addr;
        // Crossing pages costs one cycle more:
        if new_pc & 0xFF00 != cpu.pc & 0xFF00 {
            cpu.cycles_left = cpu.cycles_left + 1;
        }
        cpu.pc = new_pc;
    }
    InstructionResult { may_need_extra_cycle: false }
}


/// Branch if Carry Clear
fn bcc<B: Bus>(cpu: &mut Processor<B>, data: &DataSource) -> (r: InstructionResult)
    requires
        instruction_ok::<B>(Instruction::BCC, old(cpu).regs(), old(cpu).bus@, *data),
    ensures
        executes::<B>(Instruction::BCC, old(cpu).regs(), old(cpu).bus@, *data, final(cpu).regs(), final(cpu).bus@, r),
{
    let c: bool = cpu.get_status(Carry) == 0;
    branch_if(c, cpu, data)
}

/// Branch if Carry Set
fn bcs<B: Bus>(cpu: &mut Processor<B>, data: &DataSource) -> (r: InstructionResult)
    requires
        instruction_ok::<B>(Instruction::BCS, old(cpu).regs(), old(cpu).bus@, *data),
    ensures
        executes::<B>(Instruction::BCS, old(cpu).regs(), old(cpu).bus@, *data, final(cpu).regs(), final(cpu).bus@, r),
{
    let c: bool = cpu.get_status(Carry) != 0;
    branch_if(c, cpu, data)
}

/// Branch if Equal
fn beq<B: Bus>(cpu: &mut Processor<B>, data: &DataSource) -> (r: InstructionResult)
    requires
        instruction_ok::<B>(Instruction::BEQ, old(cpu).regs(), old(cpu).bus@, *data),
    ensures
        executes::<B>(Instruction::BEQ, old(cpu).regs(), old(cpu).bus@, *data, final(cpu).regs(), final(cpu).bus@, r),
{
    let c: bool = cpu.get_status(Zero) != 0;
    branch_if(c, cpu, data)
}

/// Branch if Minus
fn bmi<B: Bus>(cpu: &mut Processor<B>, data: &DataSource) -> (r: InstructionResult)
    requires
        instruction_ok::<B>(Instruction::BMI, old(cpu).regs(), old(cpu).bus@, *data),
    ensures
        executes::<B>(Instruction::BMI, old(cpu).regs(), old(cpu).bus@, *data, final(cpu).regs(), final(cpu).bus@, r),
{
    let c: bool = cpu.get_status(Negative) != 0;
    branch_if(c, cpu, data)
}

/// Branch if Positive
fn bpl<B: Bus>(cpu: &mut Processor<B>, data: &DataSource) -> (r: InstructionResult)
    requires
        instruction_ok::<B>(Instruction::BPL, old(cpu).regs(), old(cpu).bus@, *data),
    ensures
        executes::<B>(Instruction::BPL, old(cpu).regs(), old(cpu).bus@, *data, final(cpu).regs(), final(cpu).bus@, r),
{
    let c: bool = cpu.get_status(Negative) == 0;
    branch_if(c, cpu, data)
}

/// Branch if Not Equal
fn bne<B: Bus>(cpu: &mut Processor<B>, data: &DataSource) -> (r: InstructionResult)
    requires
        instruction_ok::<B>(Instruction::BNE, old(cpu).regs(), old(cpu).bus@, *data),
    ensures
        executes::<B>(Instruction::BNE, old(cpu).regs(), old(cpu).bus@, *data, final(cpu).regs(), final(cpu).bus@, r),
{
    let c: bool = cpu.get_status(Zero) == 0;
    branch_if(c, cpu, data)
}

/// Branch if Overflow Clear
fn bvc<B: Bus>(cpu: &mut Processor<B>, data: &DataSource) -> (r: InstructionResult)
    requires
        instruction_ok::<B>(Instruction::BVC, old(cpu).regs(), old(cpu).bus@, *data),
    ensures
        executes::<B>(Instruction::BVC, old(cpu).regs(), old(cpu).bus@, *data, final(cpu).regs(), final(cpu).bus@, r),
{
    let c: bool = cpu.get_status(Overflow) == 0;
    branch_if(c, cpu, data)
}

/// Branch if Overflow Set
fn bvs<B: Bus>(cpu: &mut Processor<B>, data: &DataSource) -> (r: InstructionResult)
    requires
        instruction_ok::<B>(Instruction::BVS, old(cpu).regs(), old(cpu).bus@, *data),
    ensures
        executes::<B>(Instruction::BVS, old(cpu).regs(), old(cpu).bus@, *data, final(cpu).regs(), final(cpu).bus@, r),
{
    let c: bool = cpu.get_status(Overflow) != 0;
    branch_if(c, cpu, data)
}

// STATUS FLAG CHANGES

/// Clear carry
fn clc<B: Bus>(cpu: &mut Processor<B>, data: &DataSource) -> (r: InstructionResult)
    requires
        instruction_ok::<B>(Instruction::CLC, old(cpu).regs(), old(cpu).bus@, *data),
    ensures
        executes::<B>(Instruction::CLC, old(cpu).regs(), old(cpu).bus@, *data, final(cpu).regs(), final(cpu).bus@, r),
{
    cpu.set_status(Carry, false);
    InstructionResult { may_need_extra_cycle: false }
}

/// Clear decimal mode
fn cld<B: Bus>(cpu: &mut Processor<B>, data: &DataSource) -> (r: InstructionResult)
    requires
        instruction_ok::<B>(Instruction::CLD, old(cpu).regs(), old(cpu).bus@, *data),
    ensures
        executes::<B>(Instruction::CLD, old(cpu).regs(), old(cpu).bus@, *data, final(cpu).regs(), final(cpu).bus@, r),
{
    cpu.set_status(DecimalMode, false);
    InstructionResult { may_need_extra_cycle: false }
}

/// Clear interrupt disable
fn cli<B: Bus>(cpu: &mut Processor<B>, data: &DataSource) -> (r: InstructionResult)
    requires
        instruction_ok::<B>(Instruction::CLI, old(cpu).regs(), old(cpu).bus@, *data),
    ensures
        executes::<B>(Instruction::CLI, old(cpu).regs(), old(cpu).bus@, *data, final(cpu).regs(), final(cpu).bus@, r),
{
    cpu.set_status(DisableInterrupts, false);
    InstructionResult { may_need_extra_cycle: false }
}

/// Clear overflow
fn clv<B: Bus>(cpu: &mut Processor<B>, data: &DataSource) -> (r: InstructionResult)
    requires
        instruction_ok::<B>(Instruction::CLV, old(cpu).regs(), old(cpu).bus@, *data),
    ensures
        executes::<B>(Instruction::CLV, old(cpu).regs(), old(cpu).bus@, *data, final(cpu).regs(), final(cpu).bus@, r),
{
    cpu.set_status(Overflow, false);
    InstructionResult { may_need_extra_cycle: false }
}

/// Set carry
fn sec<B: Bus>(cpu: &mut Processor<B>, data: &DataSource) -> (r: InstructionResult)
    requires
        instruction_ok::<B>(Instruction::SEC, old(cpu).regs(), old(cpu).bus@, *data),
    ensures
        executes::<B>(Instruction::SEC, old(cpu).regs(), old(cpu).bus@, *data, final(cpu).regs(), final(cpu).bus@, r),
{
    cpu.set_status(Carry, true);
    InstructionResult { may_need_extra_cycle: false }
}

/// Set decimal mode
fn sed<B: Bus>(cpu: &mut Processor<B>, data: &DataSource) -> (r: InstructionResult)
    requires
        instruction_ok::<B>(Instruction::SED, old(cpu).regs(), old(cpu).bus@, *data),
    ensures
        executes::<B>(Instruction::SED, old(cpu).regs(), old(cpu).bus@, *data, final(cpu).regs(), final(cpu).bus@, r),
{
    cpu.set_status(DecimalMode, true);
    InstructionResult { may_need_extra_cycle: false }
}

/// Set interrupt disable
fn sei<B: Bus>(cpu: &mut Processor<B>, data: &DataSource) -> (r: InstructionResult)
    requires
        instruction_ok::<B>(Instruction::SEI, old(cpu).regs(), old(cpu).bus@, *data),
    ensures
        executes::<B>(Instruction::SEI, old(cpu).regs(), old(cpu).bus@, *data, final(cpu).regs(), final(cpu).bus@, r),
{
    cpu.set_status(DisableInterrupts, true);
    InstructionResult { may_need_extra_cycle: false }
}

// SYSTEM FUNCTIONS

/// Force an interrupt
fn brk<B: Bus>(cpu: &mut Processor<B>, data: &DataSource) -> (r: InstructionResult)
    requires
        instruction_ok::<B>(Instruction::BRK, old(cpu).regs(), old(cpu).bus@, *data),
    ensures
        executes::<B>(Instruction::BRK, old(cpu).regs(), old(cpu).bus@, *data, final(cpu).regs(), final(cpu).bus@, r),
{
    let pc_hi: u8 = (cpu.pc >> 8u16) as u8;
    cpu.push(pc_hi);
    let pc_lo: u8 = (cpu.pc & 0x00FF) as u8;
    cpu.push(pc_lo);
    let status: u8 = cpu.status;
    cpu.push(status);
    let irq_addr: u16 = cpu.bus.read16(IRQ_POINTER);
    cpu.pc = irq_addr;
    cpu.set_status(Break, true);
    InstructionResult { may_need_extra_cycle: false }
}

/// Return from interrupt: the status and two bytes are pulled, and the program counter is then read from the IRQ vector
fn rti<B: Bus>(cpu: &mut Processor<B>, data: &DataSource) -> (r: InstructionResult)
    requires
        instruction_ok::<B>(Instruction::RTI, old(cpu).regs(), old(cpu).bus@, *data),
    ensures
        executes::<B>(Instruction::RTI, old(cpu).regs(), old(cpu).bus@, *data, final(cpu).regs(), final(cpu).bus@, r),
{
    cpu.status = cpu.pull();
    let pc_hi: u16 = cpu.pull() as u16;
    let pc_lo: u16 = cpu.pull() as u16;
    cpu.pc = (pc_hi << 8u16) | pc_lo;
    let irq_addr: u16 = cpu.bus.read16(IRQ_POINTER);
    cpu.pc = irq_addr;
    InstructionResult { may_need_extra_cycle: false }
}

/// No operation
fn nop<B: Bus>(cpu: &mut Processor<B>, data: &DataSource) -> (r: InstructionResult)
    requires
        instruction_ok::<B>(Instruction::NOP, old(cpu).regs(), old(cpu).bus@, *data),
    ensures
        executes::<B>(Instruction::NOP, old(cpu).regs(), old(cpu).bus@, *data, final(cpu).regs(), final(cpu).bus@, r),
{
    InstructionResult { may_need_extra_cycle: false }
}


// ADDRESSING MODES

#[derive(Debug, PartialEq, Eq, Clone, Copy, Structural)]
pub struct AddressingModeResult {
    pub data: DataSource,
    pub needs_extra_cycle: bool,
}

pub open spec fn absolute(addr: u16, extra: bool) -> AddressingModeResult {
    AddressingModeResult { data: DataSource { kind: AbsoluteAddress, addr }, needs_extra_cycle: extra }
}

/// The program counter one byte further on.
pub open spec fn next_pc(cpu: Cpu) -> Cpu {
    Cpu { pc: (cpu.pc + 1) as u16, ..cpu }
}

/// The two operand bytes at the program counter, read low byte first, with
/// registers and bus state after.
pub open spec fn fetch_word<B: Bus>(cpu: Cpu, m: B::V) -> (u8, u8, Cpu, B::V) {
    let (lo, m1) = bus_read::<B>(m, cpu.pc);
    let c1 = next_pc(cpu);
    let (hi, m2) = bus_read::<B>(m1, c1.pc);
    (lo, hi, next_pc(c1), m2)
}

/// How many operand bytes follow the opcode in the mode.
pub open spec fn operand_length(mode: AddressingMode) -> int {
    match mode {
        AddressingMode::IMP | AddressingMode::ACC => 0,
        AddressingMode::ABS | AddressingMode::ABX | AddressingMode::ABY | AddressingMode::IND => 2,
        _ => 1,
    }
}

/// The inputs on which an addressing mode runs without a panic: operand
/// bytes that do not pass the end of memory, and indexed addresses that
/// stay in their range.
pub open spec fn mode_ok<B: Bus>(mode: AddressingMode, cpu: Cpu, m: B::V) -> bool {
    &&& cpu.pc + operand_length(mode) <= 0xFFFF
    &&& match mode {
        AddressingMode::ZPX => {
            let (v, m1) = bus_read::<B>(m, cpu.pc);
            cpu.x + v <= 0xFF
        },
        AddressingMode::ZPY => {
            let (v, m1) = bus_read::<B>(m, cpu.pc);
            cpu.y + v <= 0xFF
        },
        AddressingMode::ABX => {
            let (lo, hi, c2, m2) = fetch_word::<B>(cpu, m);
            word(lo, hi) + cpu.x <= 0xFFFF
        },
        AddressingMode::ABY => {
            let (lo, hi, c2, m2) = fetch_word::<B>(cpu, m);
            word(lo, hi) + cpu.y <= 0xFFFF
        },
        AddressingMode::IZY => {
            let (p, m1) = bus_read::<B>(m, cpu.pc);
            let (lo, m2) = bus_read::<B>(m1, p as u16);
            let (hi, m3) = bus_read::<B>(m2, (p as u16 + 1) as u16);
            word(lo, hi) + cpu.y <= 0xFFFF
        },
        _ => true,
    }
}

/// What an addressing mode does to the registers and the bus, and the
/// operand it provides.
pub open spec fn address<B: Bus>(mode: AddressingMode, cpu: Cpu, m: B::V) -> (Cpu, B::V, AddressingModeResult) {
    match mode {
        AddressingMode::IMP => (
            cpu,
            m,
            AddressingModeResult { data: DataSource { kind: Implicit, addr: 0 }, needs_extra_cycle: false },
        ),
        AddressingMode::ACC => (
            cpu,
            m,
            AddressingModeResult { data: DataSource { kind: Accumulator, addr: 0 }, needs_extra_cycle: false },
        ),
        AddressingMode::IMM => (next_pc(cpu), m, absolute(cpu.pc, false)),
        AddressingMode::ZP0 => {
            let (v, m1) = bus_read::<B>(m, cpu.pc);
            (next_pc(cpu), m1, absolute(v as u16, false))
        },
        AddressingMode::ZPX => {
            let (v, m1) = bus_read::<B>(m, cpu.pc);
            (next_pc(cpu), m1, absolute((cpu.x + v) as u16, false))
        },
        AddressingMode::ZPY => {
            let (v, m1) = bus_read::<B>(m, cpu.pc);
            (next_pc(cpu), m1, absolute((cpu.y + v) as u16, false))
        },
        AddressingMode::ABS => {
            let (lo, hi, c2, m2) = fetch_word::<B>(cpu, m);
            (c2, m2, absolute(word(lo, hi), false))
        },
        AddressingMode::ABX => {
            let (lo, hi, c2, m2) = fetch_word::<B>(cpu, m);
            let addr = (word(lo, hi) + cpu.x) as u16;
            (c2, m2, absolute(addr, addr & 0xFF00u16 != (hi as u16) << 8u16))
        },
        AddressingMode::ABY => {
            let (lo, hi, c2, m2) = fetch_word::<B>(cpu, m);
            let addr = (word(lo, hi) + cpu.y) as u16;
            (c2, m2, absolute(addr, addr & 0xFF00u16 != (hi as u16) << 8u16))
        },
        AddressingMode::IND => {
            let (plo, phi, c2, m2) = fetch_word::<B>(cpu, m);
            let ptr = word(plo, phi);
            if plo == 0xFF {
                // The pointer's high byte comes from the start of its page:
                let (hi, m3) = bus_read::<B>(m2, ptr & 0xFF00u16);
                let (lo, m4) = bus_read::<B>(m3, ptr);
                (c2, m4, absolute(word(lo, hi), false))
            } else {
                let (lo, m3) = bus_read::<B>(m2, ptr);
                let (hi, m4) = bus_read::<B>(m3, (ptr + 1) as u16);
                (c2, m4, absolute(word(lo, hi), false))
            }
        },
        AddressingMode::IZX => {
            let (p, m1) = bus_read::<B>(m, cpu.pc);
            let a = ((p as u16 + cpu.x as u16) as u16 & 0x00FFu16) as u16;
            let (lo, m2) = bus_read::<B>(m1, a);
            let (hi, m3) = bus_read::<B>(m2, (a + 1) as u16);
            (next_pc(cpu), m3, absolute(word(lo, hi), false))
        },
        AddressingMode::IZY => {
            let (p, m1) = bus_read::<B>(m, cpu.pc);
            let (lo, m2) = bus_read::<B>(m1, p as u16);
            let (hi, m3) = bus_read::<B>(m2, (p as u16 + 1) as u16);
            let addr = (word(lo, hi) + cpu.y) as u16;
            // The byte after the pointer is read again to see if a page is crossed:
            let (ah, m4) = bus_read::<B>(m3, (p as u16 + 1) as u16);
            (next_pc(cpu), m4, absolute(addr, addr & 0xFF00u16 != (ah as u16) << 8u16))
        },
        AddressingMode::REL => {
            let (v, m1) = bus_read::<B>(m, cpu.pc);
            let offset = if v & 0x80 != 0 { (v as u16) | 0xFF00u16 } else { v as u16 };
            (
                next_pc(cpu),
                m1,
                AddressingModeResult {
                    data: DataSource { kind: RelativeAddress, addr: offset },
                    needs_extra_cycle: false,
                },
            )
        },
    }
}

pub open spec fn addresses<B: Bus>(
    mode: AddressingMode,
    c1: Cpu,
    m1: B::V,
    c2: Cpu,
    m2: B::V,
    r: AddressingModeResult,
) -> bool {
    (c2, m2, r) == address::<B>(mode, c1, m1)
}

proof fn lemma_byte_as_word(v: u8)
    ensures
        (v as u16) & 0x00FF == v as u16,
{
    crate::cpu6502::lemma_byte_as_word(v);
}

/// Implied addressing
fn imp<B: Bus>(cpu: &mut Processor<B>) -> (r: AddressingModeResult)
    ensures
        addresses::<B>(AddressingMode::IMP, old(cpu).regs(), old(cpu).bus@, final(cpu).regs(), final(cpu).bus@, r),
{
    AddressingModeResult { data: DataSource { kind: Implicit, addr: 0x0000 }, needs_extra_cycle: false }
}

/// Immediate addressing: the operand is the byte at the program counter
fn imm<B: Bus>(cpu: &mut Processor<B>) -> (r: AddressingModeResult)
    requires
        mode_ok::<B>(AddressingMode::IMM, old(cpu).regs(), old(cpu).bus@),
    ensures
        addresses::<B>(AddressingMode::IMM, old(cpu).regs(), old(cpu).bus@, final(cpu).regs(), final(cpu).bus@, r),
{
    let addr_abs: u16 = cpu.pc;
    cpu.pc = cpu.pc + 1;
    AddressingModeResult {
        data: DataSource { kind: AbsoluteAddress, addr: addr_abs },
        needs_extra_cycle: false,
    }
}

/// Zero Page addressing: a byte in the first 256 bytes of memory
fn zp0<B: Bus>(cpu: &mut Processor<B>) -> (r: AddressingModeResult)
    requires
        mode_ok::<B>(AddressingMode::ZP0, old(cpu).regs(), old(cpu).bus@),
    ensures
        addresses::<B>(AddressingMode::ZP0, old(cpu).regs(), old(cpu).bus@, final(cpu).regs(), final(cpu).bus@, r),
{
    let pc: u16 = cpu.pc;
    let v: u8 = cpu.bus.read(pc);
    let addr_abs: u16 = (v as u16) & 0x00FF;
    proof { lemma_byte_as_word(v); }
    cpu.pc = cpu.pc + 1;
    AddressingModeResult {
        data: DataSource { kind: AbsoluteAddress, addr: addr_abs },
        needs_extra_cycle: false,
    }
}

/// Zero Page addressing, with X address offset
fn zpx<B: Bus>(cpu: &mut Processor<B>) -> (r: AddressingModeResult)
    requires
        mode_ok::<B>(AddressingMode::ZPX, old(cpu).regs(), old(cpu).bus@),
    ensures
        addresses::<B>(AddressingMode::ZPX, old(cpu).regs(), old(cpu).bus@, final(cpu).regs(), final(cpu).bus@, r),
{
    let pc: u16 = cpu.pc;
    let v: u8 = cpu.x + cpu.bus.read(pc);
    let addr_abs: u16 = (v as u16) & 0x00FF;
    proof { lemma_byte_as_word(v); }
    cpu.pc = cpu.pc + 1;
    AddressingModeResult {
        data: DataSource { kind: AbsoluteAddress, addr: addr_abs },
        needs_extra_cycle: false,
    }
}

/// Zero Page addressing, with Y address offset
fn zpy<B: Bus>(cpu: &mut Processor<B>) -> (r: AddressingModeResult)
    requires
        mode_ok::<B>(AddressingMode::ZPY, old(cpu).regs(), old(cpu).bus@),
    ensures
        addresses::<B>(AddressingMode::ZPY, old(cpu).regs(), old(cpu).bus@, final(cpu).regs(), final(cpu).bus@, r),
{
    let pc: u16 = cpu.pc;
    let v: u8 = cpu.y + cpu.bus.read(pc);
    let addr_abs: u16 = (v as u16) & 0x00FF;
    proof { lemma_byte_as_word(v); }
    cpu.pc = cpu.pc + 1;
    AddressingModeResult {
        data: DataSource { kind: AbsoluteAddress, addr: addr_abs },
        needs_extra_cycle: false,
    }
}

/// Absolute addressing: a full 16-bit address after the opcode
fn abs<B: Bus>(cpu: &mut Processor<B>) -> (r: AddressingModeResult)
    requires
        mode_ok::<B>(AddressingMode::ABS, old(cpu).regs(), old(cpu).bus@),
    ensures
        addresses::<B>(AddressingMode::ABS, old(cpu).regs(), old(cpu).bus@, final(cpu).regs(), final(cpu).bus@, r),
{
    let pc: u16 = cpu.pc;
    let addr_lo: u16 = cpu.bus.read(pc) as u16;
    cpu.pc = cpu.pc + 1;
    let pc: u16 = cpu.pc;
    let addr_hi: u16 = cpu.bus.read(pc) as u16;
    cpu.pc = cpu.pc + 1;
    AddressingModeResult {
        data: DataSource { kind: AbsoluteAddress, addr: (addr_hi << 8u16) | addr_lo },
        needs_extra_cycle: false,
    }
}

/// Absolute addressing + X; crossing a page may cost a cycle
fn abx<B: Bus>(cpu: &mut Processor<B>) -> (r: AddressingModeResult)
    requires
        mode_ok::<B>(AddressingMode::ABX, old(cpu).regs(), old(cpu).bus@),
    ensures
        addresses::<B>(AddressingMode::ABX, old(cpu).regs(), old(cpu).bus@, final(cpu).regs(), final(cpu).bus@, r),
{
    let pc: u16 = cpu.pc;
    let addr_lo: u16 = cpu.bus.read(pc) as u16;
    cpu.pc = cpu.pc + 1;
    let pc: u16 = cpu.pc;
    let addr_hi: u16 = cpu.bus.read(pc) as u16;
    cpu.pc = cpu.pc + 1;
    let addr_abs: u16 = ((addr_hi << 8u16) | addr_lo) + cpu.x as u16;
    let needs_extra_cycle: bool = addr_abs & 0xFF00 != (addr_hi << 8u16);
    AddressingModeResult {
        data: DataSource { kind: AbsoluteAddress, addr: addr_abs },
        needs_extra_cycle,
    }
}

/// Absolute addressing + Y; crossing a page may cost a cycle
fn aby<B: Bus>(cpu: &mut Processor<B>) -> (r: AddressingModeResult)
    requires
        mode_ok::<B>(AddressingMode::ABY, old(cpu).regs(), old(cpu).bus@),
    ensures
        addresses::<B>(AddressingMode::ABY, old(cpu).regs(), old(cpu).bus@, final(cpu).regs(), final(cpu).bus@, r),
{
    let pc: u16 = cpu.pc;
    let addr_lo: u16 = cpu.bus.read(pc) as u16;
    cpu.pc = cpu.pc + 1;
    let pc: u16 = cpu.pc;
    let addr_hi: u16 = cpu.bus.read(pc) as u16;
    cpu.pc = cpu.pc + 1;
    let addr_abs: u16 = ((addr_hi << 8u16) | addr_lo) + cpu.y as u16;
    let needs_extra_cycle: bool = addr_abs & 0xFF00 != (addr_hi << 8u16);
    AddressingModeResult {
        data: DataSource { kind: AbsoluteAddress, addr: addr_abs },
        needs_extra_cycle,
    }
}

/// Indirect
fn ind<B: Bus>(cpu: &mut Processor<B>) -> (r: AddressingModeResult)
    requires
        mode_ok::<B>(AddressingMode::IND, old(cpu).regs(), old(cpu).bus@),
    ensures
        addresses::<B>(AddressingMode::IND, old(cpu).regs(), old(cpu).bus@, final(cpu).regs(), final(cpu).bus@, r),
{
    let pc: u16 = cpu.pc;
    let ptr_lo: u16 = cpu.bus.read(pc) as u16;
    cpu.pc = cpu.pc + 1;
    let pc: u16 = cpu.pc;
    let ptr_hi: u16 = cpu.bus.read(pc) as u16;
    cpu.pc = cpu.pc + 1;
    let ptr: u16 = ptr_hi << 8u16 | ptr_lo;
    // The 6502 does not carry into the high byte when a pointer spans two
    // pages: the high byte is read from the start of the same page.
    let addr_abs: u16 = if ptr_lo == 0x00FF {
        let hi: u16 = cpu.bus.read(ptr & 0xFF00) as u16;
        let lo: u16 = cpu.bus.read(ptr) as u16;
        (hi << 8u16) | lo
    } else {
        proof {
            let (plo, phi, c2, m2) = fetch_word::<B>(old(cpu).regs(), old(cpu).bus@);
            assert(ptr == word(plo, phi));
            crate::cpu6502::lemma_pointer_word(plo, phi);
        }
        cpu.bus.read16(ptr)
    };
    AddressingModeResult {
        data: DataSource { kind: AbsoluteAddress, addr: addr_abs },
        needs_extra_cycle: false,
    }
}

/// (Indirect, X)
fn izx<B: Bus>(cpu: &mut Processor<B>) -> (r: AddressingModeResult)
    requires
        mode_ok::<B>(AddressingMode::IZX, old(cpu).regs(), old(cpu).bus@),
    ensures
        addresses::<B>(AddressingMode::IZX, old(cpu).regs(), old(cpu).bus@, final(cpu).regs(), final(cpu).bus@, r),
{
    // The pointer lives in the zero page, so it is one byte
    let pc: u16 = cpu.pc;
    let p: u8 = cpu.bus.read(pc);
    let ptr: u16 = p as u16 & 0x00FF;
    proof { lemma_byte_as_word(p); }
    cpu.pc = cpu.pc + 1;
    let sum: u16 = ptr + (cpu.x as u16);
    let a: u16 = sum & 0x00FF;
    proof {
        assert(sum & 0x00FF <= 0xFF) by (bit_vector);
    }
    let addr_abs: u16 = cpu.bus.read16(a);
    AddressingModeResult {
        data: DataSource { kind: AbsoluteAddress, addr: addr_abs },
        needs_extra_cycle: false,
    }
}

/// (Indirect), Y
fn izy<B: Bus>(cpu: &mut Processor<B>) -> (r: AddressingModeResult)
    requires
        mode_ok::<B>(AddressingMode::IZY, old(cpu).regs(), old(cpu).bus@),
    ensures
        addresses::<B>(AddressingMode::IZY, old(cpu).regs(), old(cpu).bus@, final(cpu).regs(), final(cpu).bus@, r),
{
    // The pointer lives in the zero page, so it is one byte
    let pc: u16 = cpu.pc;
    let p: u8 = cpu.bus.read(pc);
    let ptr: u16 = p as u16 & 0x00FF;
    proof { lemma_byte_as_word(p); }
    cpu.pc = cpu.pc + 1;
    let addr_abs: u16 = cpu.bus.read16(ptr) + cpu.y as u16;
    // Read only to see if a page was crossed:
    let ah: u8 = cpu.bus.read(ptr + 1);
    let addr_hi: u16 = ah as u16 & 0x00FF;
    proof { lemma_byte_as_word(ah); }
    let needs_extra_cycle: bool = addr_abs & 0xFF00 != (addr_hi << 8u16);
    AddressingModeResult {
        data: DataSource { kind: AbsoluteAddress, addr: addr_abs },
        needs_extra_cycle,
    }
}

/// Accumulator
fn acc<B: Bus>(cpu: &mut Processor<B>) -> (r: AddressingModeResult)
    ensures
        addresses::<B>(AddressingMode::ACC, old(cpu).regs(), old(cpu).bus@, final(cpu).regs(), final(cpu).bus@, r),
{
    AddressingModeResult { data: DataSource { kind: Accumulator, addr: 0x0000 }, needs_extra_cycle: false }
}

/// Relative: a signed offset, extended to 16 bits, for the branches to add
/// to the program counter
fn rel<B: Bus>(cpu: &mut Processor<B>) -> (r: AddressingModeResult)
    requires
        mode_ok::<B>(AddressingMode::REL, old(cpu).regs(), old(cpu).bus@),
    ensures
        addresses::<B>(AddressingMode::REL, old(cpu).regs(), old(cpu).bus@, final(cpu).regs(), final(cpu).bus@, r),
{
    let pc: u16 = cpu.pc;
    let v: u8 = cpu.bus.read(pc);
    let mut offset: u16 = v as u16 & 0x00FF;
    proof { lemma_byte_as_word(v); }
    cpu.pc = cpu.pc + 1;
    if offset & 0x80 != 0 {
        offset = offset | 0xFF00;
    }
    proof {
        let w: u16 = v as u16;
        assert((w & 0x80 != 0) == (v & 0x80 != 0)) by (bit_vector)
            requires w == v as u16;
    }
    AddressingModeResult {
        data: DataSource { kind: RelativeAddress, addr: offset },
        needs_extra_cycle: false,
    }
}

/// The opcode table of this processor: the documented opcodes.
pub open spec fn operation_spec(opcode: u8) -> Operation {
    match opcode {
        0x69 => Operation { instruction: Instruction::ADC, addressing_mode: AddressingMode::IMM, cycles: 2, undocumented: false },
        0x65 => Operation { instruction: Instruction::ADC, addressing_mode: AddressingMode::ZP0, cycles: 3, undocumented: false },
        0x75 => Operation { instruction: Instruction::ADC, addressing_mode: AddressingMode::ZPX, cycles: 4, undocumented: false },
        0x6D => Operation { instruction: Instruction::ADC, addressing_mode: AddressingMode::ABS, cycles: 4, undocumented: false },
        0x7D => Operation { instruction: Instruction::ADC, addressing_mode: AddressingMode::ABX, cycles: 4, undocumented: false },
        0x79 => Operation { instruction: Instruction::ADC, addressing_mode: AddressingMode::ABY, cycles: 4, undocumented: false },
        0x61 => Operation { instruction: Instruction::ADC, addressing_mode: AddressingMode::IZX, cycles: 6, undocumented: false },
        0x71 => Operation { instruction: Instruction::ADC, addressing_mode: AddressingMode::IZY, cycles: 5, undocumented: false },
        0x29 => Operation { instruction: Instruction::AND, addressing_mode: AddressingMode::IMM, cycles: 2, undocumented: false },
        0x25 => Operation { instruction: Instruction::AND, addressing_mode: AddressingMode::ZP0, cycles: 3, undocumented: false },
        0x35 => Operation { instruction: Instruction::AND, addressing_mode: AddressingMode::ZPX, cycles: 4, undocumented: false },
        0x2D => Operation { instruction: Instruction::AND, addressing_mode: AddressingMode::ABS, cycles: 4, undocumented: false },
        0x3D => Operation { instruction: Instruction::AND, addressing_mode: AddressingMode::ABX, cycles: 4, undocumented: false },
        0x39 => Operation { instruction: Instruction::AND, addressing_mode: AddressingMode::ABY, cycles: 4, undocumented: false },
        0x21 => Operation { instruction: Instruction::AND, addressing_mode: AddressingMode::IZX, cycles: 6, undocumented: false },
        0x31 => Operation { instruction: Instruction::AND, addressing_mode: AddressingMode::IZY, cycles: 5, undocumented: false },
        0x0A => Operation { instruction: Instruction::ASL, addressing_mode: AddressingMode::ACC, cycles: 2, undocumented: false },
        0x06 => Operation { instruction: Instruction::ASL, addressing_mode: AddressingMode::ZP0, cycles: 5, undocumented: false },
        0x16 => Operation { instruction: Instruction::ASL, addressing_mode: AddressingMode::ZPX, cycles: 6, undocumented: false },
        0x0E => Operation { instruction: Instruction::ASL, addressing_mode: AddressingMode::ABS, cycles: 6, undocumented: false },
        0x1E => Operation { instruction: Instruction::ASL, addressing_mode: AddressingMode::ABX, cycles: 7, undocumented: false },
        0x90 => Operation { instruction: Instruction::BCC, addressing_mode: AddressingMode::REL, cycles: 2, undocumented: false },
        0xB0 => Operation { instruction: Instruction::BCS, addressing_mode: AddressingMode::REL, cycles: 2, undocumented: false },
        0xF0 => Operation { instruction: Instruction::BEQ, addressing_mode: AddressingMode::REL, cycles: 2, undocumented: false },
        0x24 => Operation { instruction: Instruction::BIT, addressing_mode: AddressingMode::ZP0, cycles: 3, undocumented: false },
        0x2C => Operation { instruction: Instruction::BIT, addressing_mode: AddressingMode::ABS, cycles: 4, undocumented: false },
        0x30 => Operation { instruction: Instruction::BMI, addressing_mode: AddressingMode::REL, cycles: 2, undocumented: false },
        0xD0 => Operation { instruction: Instruction::BNE, addressing_mode: AddressingMode::REL, cycles: 2, undocumented: false },
        0x10 => Operation { instruction: Instruction::BPL, addressing_mode: AddressingMode::REL, cycles: 2, undocumented: false },
        0x00 => Operation { instruction: Instruction::BRK, addressing_mode: AddressingMode::IMP, cycles: 7, undocumented: false },
        0x50 => Operation { instruction: Instruction::BVC, addressing_mode: AddressingMode::REL, cycles: 2, undocumented: false },
        0x70 => Operation { instruction: Instruction::BVS, addressing_mode: AddressingMode::REL, cycles: 2, undocumented: false },
        0x18 => Operation { instruction: Instruction::CLC, addressing_mode: AddressingMode::IMP, cycles: 2, undocumented: false },
        0xD8 => Operation { instruction: Instruction::CLD, addressing_mode: AddressingMode::IMP, cycles: 2, undocumented: false },
        0x58 => Operation { instruction: Instruction::CLI, addressing_mode: AddressingMode::IMP, cycles: 2, undocumented: false },
        0xB8 => Operation { instruction: Instruction::CLV, addressing_mode: AddressingMode::IMP, cycles: 2, undocumented: false },
        0xC9 => Operation { instruction: Instruction::CMP, addressing_mode: AddressingMode::IMM, cycles: 2, undocumented: false },
        0xC5 => Operation { instruction: Instruction::CMP, addressing_mode: AddressingMode::ZP0, cycles: 3, undocumented: false },
        0xD5 => Operation { instruction: Instruction::CMP, addressing_mode: AddressingMode::ZPX, cycles: 4, undocumented: false },
        0xCD => Operation { instruction: Instruction::CMP, addressing_mode: AddressingMode::ABS, cycles: 4, undocumented: false },
        0xDD => Operation { instruction: Instruction::CMP, addressing_mode: AddressingMode::ABX, cycles: 4, undocumented: false },
        0xD9 => Operation { instruction: Instruction::CMP, addressing_mode: AddressingMode::ABY, cycles: 4, undocumented: false },
        0xC1 => Operation { instruction: Instruction::CMP, addressing_mode: AddressingMode::IZX, cycles: 6, undocumented: false },
        0xD1 => Operation { instruction: Instruction::CMP, addressing_mode: AddressingMode::IZY, cycles: 5, undocumented: false },
        0xE0 => Operation { instruction: Instruction::CPX, addressing_mode: AddressingMode::IMM, cycles: 2, undocumented: false },
        0xE4 => Operation { instruction: Instruction::CPX, addressing_mode: AddressingMode::ZP0, cycles: 3, undocumented: false },
        0xEC => Operation { instruction: Instruction::CPX, addressing_mode: AddressingMode::ABS, cycles: 4, undocumented: false },
        0xC0 => Operation { instruction: Instruction::CPY, addressing_mode: AddressingMode::IMM, cycles: 2, undocumented: false },
        0xC4 => Operation { instruction: Instruction::CPY, addressing_mode: AddressingMode::ZP0, cycles: 3, undocumented: false },
        0xCC => Operation { instruction: Instruction::CPY, addressing_mode: AddressingMode::ABS, cycles: 4, undocumented: false },
        0xC6 => Operation { instruction: Instruction::DEC, addressing_mode: AddressingMode::ZP0, cycles: 5, undocumented: false },
        0xD6 => Operation { instruction: Instruction::DEC, addressing_mode: AddressingMode::ZPX, cycles: 6, undocumented: false },
        0xCE => Operation { instruction: Instruction::DEC, addressing_mode: AddressingMode::ABS, cycles: 6, undocumented: false },
        0xDE => Operation { instruction: Instruction::DEC, addressing_mode: AddressingMode::ABX, cycles: 7, undocumented: false },
        0xCA => Operation { instruction: Instruction::DEX, addressing_mode: AddressingMode::IMP, cycles: 2, undocumented: false },
        0x88 => Operation { instruction: Instruction::DEY, addressing_mode: AddressingMode::IMP, cycles: 2, undocumented: false },
        0x49 => Operation { instruction: Instruction::EOR, addressing_mode: AddressingMode::IMM, cycles: 2, undocumented: false },
        0x45 => Operation { instruction: Instruction::EOR, addressing_mode: AddressingMode::ZP0, cycles: 3, undocumented: false },
        0x55 => Operation { instruction: Instruction::EOR, addressing_mode: AddressingMode::ZPX, cycles: 4, undocumented: false },
        0x4D => Operation { instruction: Instruction::EOR, addressing_mode: AddressingMode::ABS, cycles: 4, undocumented: false },
        0x5D => Operation { instruction: Instruction::EOR, addressing_mode: AddressingMode::ABX, cycles: 4, undocumented: false },
        0x59 => Operation { instruction: Instruction::EOR, addressing_mode: AddressingMode::ABY, cycles: 4, undocumented: false },
        0x41 => Operation { instruction: Instruction::EOR, addressing_mode: AddressingMode::IZX, cycles: 6, undocumented: false },
        0x51 => Operation { instruction: Instruction::EOR, addressing_mode: AddressingMode::IZY, cycles: 5, undocumented: false },
        0xE6 => Operation { instruction: Instruction::INC, addressing_mode: AddressingMode::ZP0, cycles: 5, undocumented: false },
        0xF6 => Operation { instruction: Instruction::INC, addressing_mode: AddressingMode::ZPX, cycles: 6, undocumented: false },
        0xEE => Operation { instruction: Instruction::INC, addressing_mode: AddressingMode::ABS, cycles: 6, undocumented: false },
        0xFE => Operation { instruction: Instruction::INC, addressing_mode: AddressingMode::ABX, cycles: 7, undocumented: false },
        0xE8 => Operation { instruction: Instruction::INX, addressing_mode: AddressingMode::IMP, cycles: 2, undocumented: false },
        0xC8 => Operation { instruction: Instruction::INY, addressing_mode: AddressingMode::IMP, cycles: 2, undocumented: false },
        0x4C => Operation { instruction: Instruction::JMP, addressing_mode: AddressingMode::ABS, cycles: 3, undocumented: false },
        0x6C => Operation { instruction: Instruction::JMP, addressing_mode: AddressingMode::IND, cycles: 5, undocumented: false },
        0x20 => Operation { instruction: Instruction::JSR, addressing_mode: AddressingMode::ABS, cycles: 6, undocumented: false },
        0xA9 => Operation { instruction: Instruction::LDA, addressing_mode: AddressingMode::IMM, cycles: 2, undocumented: false },
        0xA5 => Operation { instruction: Instruction::LDA, addressing_mode: AddressingMode::ZP0, cycles: 3, undocumented: false },
        0xB5 => Operation { instruction: Instruction::LDA, addressing_mode: AddressingMode::ZPX, cycles: 4, undocumented: false },
        0xAD => Operation { instruction: Instruction::LDA, addressing_mode: AddressingMode::ABS, cycles: 4, undocumented: false },
        0xBD => Operation { instruction: Instruction::LDA, addressing_mode: AddressingMode::ABX, cycles: 4, undocumented: false },
        0xB9 => Operation { instruction: Instruction::LDA, addressing_mode: AddressingMode::ABY, cycles: 4, undocumented: false },
        0xA1 => Operation { instruction: Instruction::LDA, addressing_mode: AddressingMode::IZX, cycles: 6, undocumented: false },
        0xB1 => Operation { instruction: Instruction::LDA, addressing_mode: AddressingMode::IZY, cycles: 5, undocumented: false },
        0xA2 => Operation { instruction: Instruction::LDX, addressing_mode: AddressingMode::IMM, cycles: 2, undocumented: false },
        0xA6 => Operation { instruction: Instruction::LDX, addressing_mode: AddressingMode::ZP0, cycles: 3, undocumented: false },
        0xB6 => Operation { instruction: Instruction::LDX, addressing_mode: AddressingMode::ZPX, cycles: 4, undocumented: false },
        0xAE => Operation { instruction: Instruction::LDX, addressing_mode: AddressingMode::ABS, cycles: 4, undocumented: false },
        0xBE => Operation { instruction: Instruction::LDX, addressing_mode: AddressingMode::ABY, cycles: 4, undocumented: false },
        0xA0 => Operation { instruction: Instruction::LDY, addressing_mode: AddressingMode::IMM, cycles: 2, undocumented: false },
        0xA4 => Operation { instruction: Instruction::LDY, addressing_mode: AddressingMode::ZP0, cycles: 3, undocumented: false },
        0xB4 => Operation { instruction: Instruction::LDY, addressing_mode: AddressingMode::ZPX, cycles: 4, undocumented: false },
        0xAC => Operation { instruction: Instruction::LDY, addressing_mode: AddressingMode::ABS, cycles: 4, undocumented: false },
        0xBC => Operation { instruction: Instruction::LDY, addressing_mode: AddressingMode::ABX, cycles: 4, undocumented: false },
        0x4A => Operation { instruction: Instruction::LSR, addressing_mode: AddressingMode::ACC, cycles: 2, undocumented: false },
        0x46 => Operation { instruction: Instruction::LSR, addressing_mode: AddressingMode::ZP0, cycles: 5, undocumented: false },
        0x56 => Operation { instruction: Instruction::LSR, addressing_mode: AddressingMode::ZPX, cycles: 6, undocumented: false },
        0x4E => Operation { instruction: Instruction::LSR, addressing_mode: AddressingMode::ABS, cycles: 6, undocumented: false },
        0x5E => Operation { instruction: Instruction::LSR, addressing_mode: AddressingMode::ABX, cycles: 7, undocumented: false },
        0xEA => Operation { instruction: Instruction::NOP, addressing_mode: AddressingMode::IMP, cycles: 2, undocumented: false },
        0x09 => Operation { instruction: Instruction::ORA, addressing_mode: AddressingMode::IMM, cycles: 2, undocumented: false },
        0x05 => Operation { instruction: Instruction::ORA, addressing_mode: AddressingMode::ZP0, cycles: 3, undocumented: false },
        0x15 => Operation { instruction: Instruction::ORA, addressing_mode: AddressingMode::ZPX, cycles: 4, undocumented: false },
        0x0D => Operation { instruction: Instruction::ORA, addressing_mode: AddressingMode::ABS, cycles: 4, undocumented: false },
        0x1D => Operation { instruction: Instruction::ORA, addressing_mode: AddressingMode::ABX, cycles: 4, undocumented: false },
        0x19 => Operation { instruction: Instruction::ORA, addressing_mode: AddressingMode::ABY, cycles: 4, undocumented: false },
        0x01 => Operation { instruction: Instruction::ORA, addressing_mode: AddressingMode::IZX, cycles: 6, undocumented: false },
        0x11 => Operation { instruction: Instruction::ORA, addressing_mode: AddressingMode::IZY, cycles: 5, undocumented: false },
        0x48 => Operation { instruction: Instruction::PHA, addressing_mode: AddressingMode::IMP, cycles: 3, undocumented: false },
        0x08 => Operation { instruction: Instruction::PHP, addressing_mode: AddressingMode::IMP, cycles: 3, undocumented: false },
        0x68 => Operation { instruction: Instruction::PLA, addressing_mode: AddressingMode::IMP, cycles: 4, undocumented: false },
        0x28 => Operation { instruction: Instruction::PLP, addressing_mode: AddressingMode::IMP, cycles: 4, undocumented: false },
        0x2A => Operation { instruction: Instruction::ROL, addressing_mode: AddressingMode::ACC, cycles: 2, undocumented: false },
        0x26 => Operation { instruction: Instruction::ROL, addressing_mode: AddressingMode::ZP0, cycles: 5, undocumented: false },
        0x36 => Operation { instruction: Instruction::ROL, addressing_mode: AddressingMode::ZPX, cycles: 6, undocumented: false },
        0x2E => Operation { instruction: Instruction::ROL, addressing_mode: AddressingMode::ABS, cycles: 6, undocumented: false },
        0x3E => Operation { instruction: Instruction::ROL, addressing_mode: AddressingMode::ABX, cycles: 7, undocumented: false },
        0x6A => Operation { instruction: Instruction::ROR, addressing_mode: AddressingMode::ACC, cycles: 2, undocumented: false },
        0x66 => Operation { instruction: Instruction::ROR, addressing_mode: AddressingMode::ZP0, cycles: 5, undocumented: false },
        0x76 => Operation { instruction: Instruction::ROR, addressing_mode: AddressingMode::ZPX, cycles: 6, undocumented: false },
        0x6E => Operation { instruction: Instruction::ROR, addressing_mode: AddressingMode::ABS, cycles: 6, undocumented: false },
        0x7E => Operation { instruction: Instruction::ROR, addressing_mode: AddressingMode::ABX, cycles: 7, undocumented: false },
        0x40 => Operation { instruction: Instruction::RTI, addressing_mode: AddressingMode::IMP, cycles: 6, undocumented: false },
        0x60 => Operation { instruction: Instruction::RTS, addressing_mode: AddressingMode::IMP, cycles: 6, undocumented: false },
        0xE9 => Operation { instruction: Instruction::SBC, addressing_mode: AddressingMode::IMM, cycles: 2, undocumented: false },
        0xE5 => Operation { instruction: Instruction::SBC, addressing_mode: AddressingMode::ZP0, cycles: 3, undocumented: false },
        0xF5 => Operation { instruction: Instruction::SBC, addressing_mode: AddressingMode::ZPX, cycles: 4, undocumented: false },
        0xED => Operation { instruction: Instruction::SBC, addressing_mode: AddressingMode::ABS, cycles: 4, undocumented: false },
        0xFD => Operation { instruction: Instruction::SBC, addressing_mode: AddressingMode::ABX, cycles: 4, undocumented: false },
        0xF9 => Operation { instruction: Instruction::SBC, addressing_mode: AddressingMode::ABY, cycles: 4, undocumented: false },
        0xE1 => Operation { instruction: Instruction::SBC, addressing_mode: AddressingMode::IZX, cycles: 6, undocumented: false },
        0xF1 => Operation { instruction: Instruction::SBC, addressing_mode: AddressingMode::IZY, cycles: 5, undocumented: false },
        0x38 => Operation { instruction: Instruction::SEC, addressing_mode: AddressingMode::IMP, cycles: 2, undocumented: false },
        0xF8 => Operation { instruction: Instruction::SED, addressing_mode: AddressingMode::IMP, cycles: 2, undocumented: false },
        0x78 => Operation { instruction: Instruction::SEI, addressing_mode: AddressingMode::IMP, cycles: 2, undocumented: false },
        0x85 => Operation { instruction: Instruction::STA, addressing_mode: AddressingMode::ZP0, cycles: 3, undocumented: false },
        0x95 => Operation { instruction: Instruction::STA, addressing_mode: AddressingMode::ZPX, cycles: 4, undocumented: false },
        0x8D => Operation { instruction: Instruction::STA, addressing_mode: AddressingMode::ABS, cycles: 4, undocumented: false },
        0x9D => Operation { instruction: Instruction::STA, addressing_mode: AddressingMode::ABX, cycles: 5, undocumented: false },
        0x99 => Operation { instruction: Instruction::STA, addressing_mode: AddressingMode::ABY, cycles: 5, undocumented: false },
        0x81 => Operation { instruction: Instruction::STA, addressing_mode: AddressingMode::IZX, cycles: 6, undocumented: false },
        0x91 => Operation { instruction: Instruction::STA, addressing_mode: AddressingMode::IZY, cycles: 6, undocumented: false },
        0x86 => Operation { instruction: Instruction::STX, addressing_mode: AddressingMode::ZP0, cycles: 3, undocumented: false },
        0x96 => Operation { instruction: Instruction::STX, addressing_mode: AddressingMode::ZPX, cycles: 4, undocumented: false },
        0x8E => Operation { instruction: Instruction::STX, addressing_mode: AddressingMode::ABS, cycles: 4, undocumented: false },
        0x84 => Operation { instruction: Instruction::STY, addressing_mode: AddressingMode::ZP0, cycles: 3, undocumented: false },
        0x94 => Operation { instruction: Instruction::STY, addressing_mode: AddressingMode::ZPX, cycles: 4, undocumented: false },
        0x8C => Operation { instruction: Instruction::STY, addressing_mode: AddressingMode::ABS, cycles: 4, undocumented: false },
        0xAA => Operation { instruction: Instruction::TAX, addressing_mode: AddressingMode::IMP, cycles: 2, undocumented: false },
        0xA8 => Operation { instruction: Instruction::TAY, addressing_mode: AddressingMode::IMP, cycles: 2, undocumented: false },
        0xBA => Operation { instruction: Instruction::TSX, addressing_mode: AddressingMode::IMP, cycles: 2, undocumented: false },
        0x8A => Operation { instruction: Instruction::TXA, addressing_mode: AddressingMode::IMP, cycles: 2, undocumented: false },
        0x9A => Operation { instruction: Instruction::TXS, addressing_mode: AddressingMode::IMP, cycles: 2, undocumented: false },
        0x98 => Operation { instruction: Instruction::TYA, addressing_mode: AddressingMode::IMP, cycles: 2, undocumented: false },
        _ => illegal_operation(),
    }
}

/// The operation that `opcode` stands for.
fn lookup(opcode: u8) -> (r: Operation)
    ensures
        r == operation_spec(opcode),
        1 <= r.cycles <= 7,
{
    match opcode {
            0x69 => Operation { instruction: Instruction::ADC, addressing_mode: AddressingMode::IMM, cycles: 2, undocumented: false },
            0x65 => Operation { instruction: Instruction::ADC, addressing_mode: AddressingMode::ZP0, cycles: 3, undocumented: false },
            0x75 => Operation { instruction: Instruction::ADC, addressing_mode: AddressingMode::ZPX, cycles: 4, undocumented: false },
            0x6D => Operation { instruction: Instruction::ADC, addressing_mode: AddressingMode::ABS, cycles: 4, undocumented: false },
            0x7D => Operation { instruction: Instruction::ADC, addressing_mode: AddressingMode::ABX, cycles: 4, undocumented: false },
            0x79 => Operation { instruction: Instruction::ADC, addressing_mode: AddressingMode::ABY, cycles: 4, undocumented: false },
            0x61 => Operation { instruction: Instruction::ADC, addressing_mode: AddressingMode::IZX, cycles: 6, undocumented: false },
            0x71 => Operation { instruction: Instruction::ADC, addressing_mode: AddressingMode::IZY, cycles: 5, undocumented: false },
            0x29 => Operation { instruction: Instruction::AND, addressing_mode: AddressingMode::IMM, cycles: 2, undocumented: false },
            0x25 => Operation { instruction: Instruction::AND, addressing_mode: AddressingMode::ZP0, cycles: 3, undocumented: false },
            0x35 => Operation { instruction: Instruction::AND, addressing_mode: AddressingMode::ZPX, cycles: 4, undocumented: false },
            0x2D => Operation { instruction: Instruction::AND, addressing_mode: AddressingMode::ABS, cycles: 4, undocumented: false },
            0x3D => Operation { instruction: Instruction::AND, addressing_mode: AddressingMode::ABX, cycles: 4, undocumented: false },
            0x39 => Operation { instruction: Instruction::AND, addressing_mode: AddressingMode::ABY, cycles: 4, undocumented: false },
            0x21 => Operation { instruction: Instruction::AND, addressing_mode: AddressingMode::IZX, cycles: 6, undocumented: false },
            0x31 => Operation { instruction: Instruction::AND, addressing_mode: AddressingMode::IZY, cycles: 5, undocumented: false },
            0x0A => Operation { instruction: Instruction::ASL, addressing_mode: AddressingMode::ACC, cycles: 2, undocumented: false },
            0x06 => Operation { instruction: Instruction::ASL, addressing_mode: AddressingMode::ZP0, cycles: 5, undocumented: false },
            0x16 => Operation { instruction: Instruction::ASL, addressing_mode: AddressingMode::ZPX, cycles: 6, undocumented: false },
            0x0E => Operation { instruction: Instruction::ASL, addressing_mode: AddressingMode::ABS, cycles: 6, undocumented: false },
            0x1E => Operation { instruction: Instruction::ASL, addressing_mode: AddressingMode::ABX, cycles: 7, undocumented: false },
            0x90 => Operation { instruction: Instruction::BCC, addressing_mode: AddressingMode::REL, cycles: 2, undocumented: false },
            0xB0 => Operation { instruction: Instruction::BCS, addressing_mode: AddressingMode::REL, cycles: 2, undocumented: false },
            0xF0 => Operation { instruction: Instruction::BEQ, addressing_mode: AddressingMode::REL, cycles: 2, undocumented: false },
            0x24 => Operation { instruction: Instruction::BIT, addressing_mode: AddressingMode::ZP0, cycles: 3, undocumented: false },
            0x2C => Operation { instruction: Instruction::BIT, addressing_mode: AddressingMode::ABS, cycles: 4, undocumented: false },
            0x30 => Operation { instruction: Instruction::BMI, addressing_mode: AddressingMode::REL, cycles: 2, undocumented: false },
            0xD0 => Operation { instruction: Instruction::BNE, addressing_mode: AddressingMode::REL, cycles: 2, undocumented: false },
            0x10 => Operation { instruction: Instruction::BPL, addressing_mode: AddressingMode::REL, cycles: 2, undocumented: false },
            0x00 => Operation { instruction: Instruction::BRK, addressing_mode: AddressingMode::IMP, cycles: 7, undocumented: false },
            0x50 => Operation { instruction: Instruction::BVC, addressing_mode: AddressingMode::REL, cycles: 2, undocumented: false },
            0x70 => Operation { instruction: Instruction::BVS, addressing_mode: AddressingMode::REL, cycles: 2, undocumented: false },
            0x18 => Operation { instruction: Instruction::CLC, addressing_mode: AddressingMode::IMP, cycles: 2, undocumented: false },
            0xD8 => Operation { instruction: Instruction::CLD, addressing_mode: AddressingMode::IMP, cycles: 2, undocumented: false },
            0x58 => Operation { instruction: Instruction::CLI, addressing_mode: AddressingMode::IMP, cycles: 2, undocumented: false },
            0xB8 => Operation { instruction: Instruction::CLV, addressing_mode: AddressingMode::IMP, cycles: 2, undocumented: false },
            0xC9 => Operation { instruction: Instruction::CMP, addressing_mode: AddressingMode::IMM, cycles: 2, undocumented: false },
            0xC5 => Operation { instruction: Instruction::CMP, addressing_mode: AddressingMode::ZP0, cycles: 3, undocumented: false },
            0xD5 => Operation { instruction: Instruction::CMP, addressing_mode: AddressingMode::ZPX, cycles: 4, undocumented: false },
            0xCD => Operation { instruction: Instruction::CMP, addressing_mode: AddressingMode::ABS, cycles: 4, undocumented: false },
            0xDD => Operation { instruction: Instruction::CMP, addressing_mode: AddressingMode::ABX, cycles: 4, undocumented: false },
            0xD9 => Operation { instruction: Instruction::CMP, addressing_mode: AddressingMode::ABY, cycles: 4, undocumented: false },
            0xC1 => Operation { instruction: Instruction::CMP, addressing_mode: AddressingMode::IZX, cycles: 6, undocumented: false },
            0xD1 => Operation { instruction: Instruction::CMP, addressing_mode: AddressingMode::IZY, cycles: 5, undocumented: false },
            0xE0 => Operation { instruction: Instruction::CPX, addressing_mode: AddressingMode::IMM, cycles: 2, undocumented: false },
            0xE4 => Operation { instruction: Instruction::CPX, addressing_mode: AddressingMode::ZP0, cycles: 3, undocumented: false },
            0xEC => Operation { instruction: Instruction::CPX, addressing_mode: AddressingMode::ABS, cycles: 4, undocumented: false },
            0xC0 => Operation { instruction: Instruction::CPY, addressing_mode: AddressingMode::IMM, cycles: 2, undocumented: false },
            0xC4 => Operation { instruction: Instruction::CPY, addressing_mode: AddressingMode::ZP0, cycles: 3, undocumented: false },
            0xCC => Operation { instruction: Instruction::CPY, addressing_mode: AddressingMode::ABS, cycles: 4, undocumented: false },
            0xC6 => Operation { instruction: Instruction::DEC, addressing_mode: AddressingMode::ZP0, cycles: 5, undocumented: false },
            0xD6 => Operation { instruction: Instruction::DEC, addressing_mode: AddressingMode::ZPX, cycles: 6, undocumented: false },
            0xCE => Operation { instruction: Instruction::DEC, addressing_mode: AddressingMode::ABS, cycles: 6, undocumented: false },
            0xDE => Operation { instruction: Instruction::DEC, addressing_mode: AddressingMode::ABX, cycles: 7, undocumented: false },
            0xCA => Operation { instruction: Instruction::DEX, addressing_mode: AddressingMode::IMP, cycles: 2, undocumented: false },
            0x88 => Operation { instruction: Instruction::DEY, addressing_mode: AddressingMode::IMP, cycles: 2, undocumented: false },
            0x49 => Operation { instruction: Instruction::EOR, addressing_mode: AddressingMode::IMM, cycles: 2, undocumented: false },
            0x45 => Operation { instruction: Instruction::EOR, addressing_mode: AddressingMode::ZP0, cycles: 3, undocumented: false },
            0x55 => Operation { instruction: Instruction::EOR, addressing_mode: AddressingMode::ZPX, cycles: 4, undocumented: false },
            0x4D => Operation { instruction: Instruction::EOR, addressing_mode: AddressingMode::ABS, cycles: 4, undocumented: false },
            0x5D => Operation { instruction: Instruction::EOR, addressing_mode: AddressingMode::ABX, cycles: 4, undocumented: false },
            0x59 => Operation { instruction: Instruction::EOR, addressing_mode: AddressingMode::ABY, cycles: 4, undocumented: false },
            0x41 => Operation { instruction: Instruction::EOR, addressing_mode: AddressingMode::IZX, cycles: 6, undocumented: false },
            0x51 => Operation { instruction: Instruction::EOR, addressing_mode: AddressingMode::IZY, cycles: 5, undocumented: false },
            0xE6 => Operation { instruction: Instruction::INC, addressing_mode: AddressingMode::ZP0, cycles: 5, undocumented: false },
            0xF6 => Operation { instruction: Instruction::INC, addressing_mode: AddressingMode::ZPX, cycles: 6, undocumented: false },
            0xEE => Operation { instruction: Instruction::INC, addressing_mode: AddressingMode::ABS, cycles: 6, undocumented: false },
            0xFE => Operation { instruction: Instruction::INC, addressing_mode: AddressingMode::ABX, cycles: 7, undocumented: false },
            0xE8 => Operation { instruction: Instruction::INX, addressing_mode: AddressingMode::IMP, cycles: 2, undocumented: false },
            0xC8 => Operation { instruction: Instruction::INY, addressing_mode: AddressingMode::IMP, cycles: 2, undocumented: false },
            0x4C => Operation { instruction: Instruction::JMP, addressing_mode: AddressingMode::ABS, cycles: 3, undocumented: false },
            0x6C => Operation { instruction: Instruction::JMP, addressing_mode: AddressingMode::IND, cycles: 5, undocumented: false },
            0x20 => Operation { instruction: Instruction::JSR, addressing_mode: AddressingMode::ABS, cycles: 6, undocumented: false },
            0xA9 => Operation { instruction: Instruction::LDA, addressing_mode: AddressingMode::IMM, cycles: 2, undocumented: false },
            0xA5 => Operation { instruction: Instruction::LDA, addressing_mode: AddressingMode::ZP0, cycles: 3, undocumented: false },
            0xB5 => Operation { instruction: Instruction::LDA, addressing_mode: AddressingMode::ZPX, cycles: 4, undocumented: false },
            0xAD => Operation { instruction: Instruction::LDA, addressing_mode: AddressingMode::ABS, cycles: 4, undocumented: false },
            0xBD => Operation { instruction: Instruction::LDA, addressing_mode: AddressingMode::ABX, cycles: 4, undocumented: false },
            0xB9 => Operation { instruction: Instruction::LDA, addressing_mode: AddressingMode::ABY, cycles: 4, undocumented: false },
            0xA1 => Operation { instruction: Instruction::LDA, addressing_mode: AddressingMode::IZX, cycles: 6, undocumented: false },
            0xB1 => Operation { instruction: Instruction::LDA, addressing_mode: AddressingMode::IZY, cycles: 5, undocumented: false },
            0xA2 => Operation { instruction: Instruction::LDX, addressing_mode: AddressingMode::IMM, cycles: 2, undocumented: false },
            0xA6 => Operation { instruction: Instruction::LDX, addressing_mode: AddressingMode::ZP0, cycles: 3, undocumented: false },
            0xB6 => Operation { instruction: Instruction::LDX, addressing_mode: AddressingMode::ZPX, cycles: 4, undocumented: false },
            0xAE => Operation { instruction: Instruction::LDX, addressing_mode: AddressingMode::ABS, cycles: 4, undocumented: false },
            0xBE => Operation { instruction: Instruction::LDX, addressing_mode: AddressingMode::ABY, cycles: 4, undocumented: false },
            0xA0 => Operation { instruction: Instruction::LDY, addressing_mode: AddressingMode::IMM, cycles: 2, undocumented: false },
            0xA4 => Operation { instruction: Instruction::LDY, addressing_mode: AddressingMode::ZP0, cycles: 3, undocumented: false },
            0xB4 => Operation { instruction: Instruction::LDY, addressing_mode: AddressingMode::ZPX, cycles: 4, undocumented: false },
            0xAC => Operation { instruction: Instruction::LDY, addressing_mode: AddressingMode::ABS, cycles: 4, undocumented: false },
            0xBC => Operation { instruction: Instruction::LDY, addressing_mode: AddressingMode::ABX, cycles: 4, undocumented: false },
            0x4A => Operation { instruction: Instruction::LSR, addressing_mode: AddressingMode::ACC, cycles: 2, undocumented: false },
            0x46 => Operation { instruction: Instruction::LSR, addressing_mode: AddressingMode::ZP0, cycles: 5, undocumented: false },
            0x56 => Operation { instruction: Instruction::LSR, addressing_mode: AddressingMode::ZPX, cycles: 6, undocumented: false },
            0x4E => Operation { instruction: Instruction::LSR, addressing_mode: AddressingMode::ABS, cycles: 6, undocumented: false },
            0x5E => Operation { instruction: Instruction::LSR, addressing_mode: AddressingMode::ABX, cycles: 7, undocumented: false },
            0xEA => Operation { instruction: Instruction::NOP, addressing_mode: AddressingMode::IMP, cycles: 2, undocumented: false },
            0x09 => Operation { instruction: Instruction::ORA, addressing_mode: AddressingMode::IMM, cycles: 2, undocumented: false },
            0x05 => Operation { instruction: Instruction::ORA, addressing_mode: AddressingMode::ZP0, cycles: 3, undocumented: false },
            0x15 => Operation { instruction: Instruction::ORA, addressing_mode: AddressingMode::ZPX, cycles: 4, undocumented: false },
            0x0D => Operation { instruction: Instruction::ORA, addressing_mode: AddressingMode::ABS, cycles: 4, undocumented: false },
            0x1D => Operation { instruction: Instruction::ORA, addressing_mode: AddressingMode::ABX, cycles: 4, undocumented: false },
            0x19 => Operation { instruction: Instruction::ORA, addressing_mode: AddressingMode::ABY, cycles: 4, undocumented: false },
            0x01 => Operation { instruction: Instruction::ORA, addressing_mode: AddressingMode::IZX, cycles: 6, undocumented: false },
            0x11 => Operation { instruction: Instruction::ORA, addressing_mode: AddressingMode::IZY, cycles: 5, undocumented: false },
            0x48 => Operation { instruction: Instruction::PHA, addressing_mode: AddressingMode::IMP, cycles: 3, undocumented: false },
            0x08 => Operation { instruction: Instruction::PHP, addressing_mode: AddressingMode::IMP, cycles: 3, undocumented: false },
            0x68 => Operation { instruction: Instruction::PLA, addressing_mode: AddressingMode::IMP, cycles: 4, undocumented: false },
            0x28 => Operation { instruction: Instruction::PLP, addressing_mode: AddressingMode::IMP, cycles: 4, undocumented: false },
            0x2A => Operation { instruction: Instruction::ROL, addressing_mode: AddressingMode::ACC, cycles: 2, undocumented: false },
            0x26 => Operation { instruction: Instruction::ROL, addressing_mode: AddressingMode::ZP0, cycles: 5, undocumented: false },
            0x36 => Operation { instruction: Instruction::ROL, addressing_mode: AddressingMode::ZPX, cycles: 6, undocumented: false },
            0x2E => Operation { instruction: Instruction::ROL, addressing_mode: AddressingMode::ABS, cycles: 6, undocumented: false },
            0x3E => Operation { instruction: Instruction::ROL, addressing_mode: AddressingMode::ABX, cycles: 7, undocumented: false },
            0x6A => Operation { instruction: Instruction::ROR, addressing_mode: AddressingMode::ACC, cycles: 2, undocumented: false },
            0x66 => Operation { instruction: Instruction::ROR, addressing_mode: AddressingMode::ZP0, cycles: 5, undocumented: false },
            0x76 => Operation { instruction: Instruction::ROR, addressing_mode: AddressingMode::ZPX, cycles: 6, undocumented: false },
            0x6E => Operation { instruction: Instruction::ROR, addressing_mode: AddressingMode::ABS, cycles: 6, undocumented: false },
            0x7E => Operation { instruction: Instruction::ROR, addressing_mode: AddressingMode::ABX, cycles: 7, undocumented: false },
            0x40 => Operation { instruction: Instruction::RTI, addressing_mode: AddressingMode::IMP, cycles: 6, undocumented: false },
            0x60 => Operation { instruction: Instruction::RTS, addressing_mode: AddressingMode::IMP, cycles: 6, undocumented: false },
            0xE9 => Operation { instruction: Instruction::SBC, addressing_mode: AddressingMode::IMM, cycles: 2, undocumented: false },
            0xE5 => Operation { instruction: Instruction::SBC, addressing_mode: AddressingMode::ZP0, cycles: 3, undocumented: false },
            0xF5 => Operation { instruction: Instruction::SBC, addressing_mode: AddressingMode::ZPX, cycles: 4, undocumented: false },
            0xED => Operation { instruction: Instruction::SBC, addressing_mode: AddressingMode::ABS, cycles: 4, undocumented: false },
            0xFD => Operation { instruction: Instruction::SBC, addressing_mode: AddressingMode::ABX, cycles: 4, undocumented: false },
            0xF9 => Operation { instruction: Instruction::SBC, addressing_mode: AddressingMode::ABY, cycles: 4, undocumented: false },
            0xE1 => Operation { instruction: Instruction::SBC, addressing_mode: AddressingMode::IZX, cycles: 6, undocumented: false },
            0xF1 => Operation { instruction: Instruction::SBC, addressing_mode: AddressingMode::IZY, cycles: 5, undocumented: false },
            0x38 => Operation { instruction: Instruction::SEC, addressing_mode: AddressingMode::IMP, cycles: 2, undocumented: false },
            0xF8 => Operation { instruction: Instruction::SED, addressing_mode: AddressingMode::IMP, cycles: 2, undocumented: false },
            0x78 => Operation { instruction: Instruction::SEI, addressing_mode: AddressingMode::IMP, cycles: 2, undocumented: false },
            0x85 => Operation { instruction: Instruction::STA, addressing_mode: AddressingMode::ZP0, cycles: 3, undocumented: false },
            0x95 => Operation { instruction: Instruction::STA, addressing_mode: AddressingMode::ZPX, cycles: 4, undocumented: false },
            0x8D => Operation { instruction: Instruction::STA, addressing_mode: AddressingMode::ABS, cycles: 4, undocumented: false },
            0x9D => Operation { instruction: Instruction::STA, addressing_mode: AddressingMode::ABX, cycles: 5, undocumented: false },
            0x99 => Operation { instruction: Instruction::STA, addressing_mode: AddressingMode::ABY, cycles: 5, undocumented: false },
            0x81 => Operation { instruction: Instruction::STA, addressing_mode: AddressingMode::IZX, cycles: 6, undocumented: false },
            0x91 => Operation { instruction: Instruction::STA, addressing_mode: AddressingMode::IZY, cycles: 6, undocumented: false },
            0x86 => Operation { instruction: Instruction::STX, addressing_mode: AddressingMode::ZP0, cycles: 3, undocumented: false },
            0x96 => Operation { instruction: Instruction::STX, addressing_mode: AddressingMode::ZPX, cycles: 4, undocumented: false },
            0x8E => Operation { instruction: Instruction::STX, addressing_mode: AddressingMode::ABS, cycles: 4, undocumented: false },
            0x84 => Operation { instruction: Instruction::STY, addressing_mode: AddressingMode::ZP0, cycles: 3, undocumented: false },
            0x94 => Operation { instruction: Instruction::STY, addressing_mode: AddressingMode::ZPX, cycles: 4, undocumented: false },
            0x8C => Operation { instruction: Instruction::STY, addressing_mode: AddressingMode::ABS, cycles: 4, undocumented: false },
            0xAA => Operation { instruction: Instruction::TAX, addressing_mode: AddressingMode::IMP, cycles: 2, undocumented: false },
            0xA8 => Operation { instruction: Instruction::TAY, addressing_mode: AddressingMode::IMP, cycles: 2, undocumented: false },
            0xBA => Operation { instruction: Instruction::TSX, addressing_mode: AddressingMode::IMP, cycles: 2, undocumented: false },
            0x8A => Operation { instruction: Instruction::TXA, addressing_mode: AddressingMode::IMP, cycles: 2, undocumented: false },
            0x9A => Operation { instruction: Instruction::TXS, addressing_mode: AddressingMode::IMP, cycles: 2, undocumented: false },
            0x98 => Operation { instruction: Instruction::TYA, addressing_mode: AddressingMode::IMP, cycles: 2, undocumented: false },
        _ => Operation {
            addressing_mode: AddressingMode::IMP,
            instruction: Instruction::NOP,
            cycles: 1,
            undocumented: true,
        },
    }
}


// EXECUTION

#[verifier::rlimit(40)]
proof fn lemma_execute_cycles<B: Bus>(ins: Instruction, cpu: Cpu, m: B::V, d: DataSource)
    requires
        cpu.cycles_left <= 253,
    ensures
        cpu.cycles_left <= execute::<B>(ins, cpu, m, d).0.cycles_left <= cpu.cycles_left + 2,
{
}

fn address_mode<B: Bus>(mode: AddressingMode, cpu: &mut Processor<B>) -> (r: AddressingModeResult)
    requires
        mode_ok::<B>(mode, old(cpu).regs(), old(cpu).bus@),
    ensures
        addresses::<B>(mode, old(cpu).regs(), old(cpu).bus@, final(cpu).regs(), final(cpu).bus@, r),
{
    match mode {
        AddressingMode::IMP => imp(cpu),
        AddressingMode::IMM => imm(cpu),
        AddressingMode::ZP0 => zp0(cpu),
        AddressingMode::ZPX => zpx(cpu),
        AddressingMode::ZPY => zpy(cpu),
        AddressingMode::ABS => abs(cpu),
        AddressingMode::ABX => abx(cpu),
        AddressingMode::ABY => aby(cpu),
        AddressingMode::IND => ind(cpu),
        AddressingMode::IZX => izx(cpu),
        AddressingMode::IZY => izy(cpu),
        AddressingMode::ACC => acc(cpu),
        AddressingMode::REL => rel(cpu),
    }
}

fn run_instruction<B: Bus>(ins: Instruction, cpu: &mut Processor<B>, data: &DataSource) -> (r: InstructionResult)
    requires
        instruction_ok::<B>(ins, old(cpu).regs(), old(cpu).bus@, *data),
    ensures
        executes::<B>(ins, old(cpu).regs(), old(cpu).bus@, *data, final(cpu).regs(), final(cpu).bus@, r),
{
    match ins {
        Instruction::ADC => adc(cpu, data),
        Instruction::AND => and(cpu, data),
        Instruction::ASL => asl(cpu, data),
        Instruction::BCC => bcc(cpu, data),
        Instruction::BCS => bcs(cpu, data),
        Instruction::BEQ => beq(cpu, data),
        Instruction::BIT => bit(cpu, data),
        Instruction::BMI => bmi(cpu, data),
        Instruction::BNE => bne(cpu, data),
        Instruction::BPL => bpl(cpu, data),
        Instruction::BRK => brk(cpu, data),
        Instruction::BVC => bvc(cpu, data),
        Instruction::BVS => bvs(cpu, data),
        Instruction::CLC => clc(cpu, data),
        Instruction::CLD => cld(cpu, data),
        Instruction::CLI => cli(cpu, data),
        Instruction::CLV => clv(cpu, data),
        Instruction::CMP => cmp(cpu, data),
        Instruction::CPX => cpx(cpu, data),
        Instruction::CPY => cpy(cpu, data),
        Instruction::DEC => dec(cpu, data),
        Instruction::DEX => dex(cpu, data),
        Instruction::DEY => dey(cpu, data),
        Instruction::EOR => eor(cpu, data),
        Instruction::INC => inc(cpu, data),
        Instruction::INX => inx(cpu, data),
        Instruction::INY => iny(cpu, data),
        Instruction::JMP => jmp(cpu, data),
        Instruction::JSR => jsr(cpu, data),
        Instruction::LDA => lda(cpu, data),
        Instruction::LDX => ldx(cpu, data),
        Instruction::LDY => ldy(cpu, data),
        Instruction::LSR => lsr(cpu, data),
        Instruction::ORA => ora(cpu, data),
        Instruction::PHA => pha(cpu, data),
        Instruction::PHP => php(cpu, data),
        Instruction::PLA => pla(cpu, data),
        Instruction::PLP => plp(cpu, data),
        Instruction::ROL => rol(cpu, data),
        Instruction::ROR => ror(cpu, data),
        Instruction::RTI => rti(cpu, data),
        Instruction::RTS => rts(cpu, data),
        Instruction::SBC => sbc(cpu, data),
        Instruction::SEC => sec(cpu, data),
        Instruction::SED => sed(cpu, data),
        Instruction::SEI => sei(cpu, data),
        Instruction::STA => sta(cpu, data),
        Instruction::STX => stx(cpu, data),
        Instruction::STY => sty(cpu, data),
        Instruction::TAX => tax(cpu, data),
        Instruction::TAY => tay(cpu, data),
        Instruction::TSX => tsx(cpu, data),
        Instruction::TXA => txa(cpu, data),
        Instruction::TXS => txs(cpu, data),
        Instruction::TYA => tya(cpu, data),
        // This processor has no undocumented instructions; its table never
        // names one, and one runs as a NOP.
        _ => nop(cpu, data),
    }
}

pub open spec fn fetched(cpu: Cpu, op: Operation) -> Cpu {
    Cpu { pc: (cpu.pc + 1) as u16, cycles_left: op.cycles, ..cpu }
}

/// The inputs on which a clock runs without a panic.
pub open spec fn clock_ok<B: Bus>(cpu: Cpu, m: B::V) -> bool {
    cpu.cycles_left == 0 ==> {
        let (opcode, m1) = bus_read::<B>(m, cpu.pc);
        let op = operation_spec(opcode);
        let c1 = fetched(cpu, op);
        let (c2, m2, amr) = address::<B>(op.addressing_mode, c1, m1);
        &&& cpu.pc < 0xFFFF
        &&& mode_ok::<B>(op.addressing_mode, c1, m1)
        &&& instruction_ok::<B>(op.instruction, c2, m2, amr.data)
    }
}

/// One clock: when the previous instruction has used up its cycles, the
/// next one is fetched and run in full; every clock then uses up one cycle.
pub open spec fn clock_spec<B: Bus>(cpu: Cpu, m: B::V) -> (Cpu, B::V) {
    if cpu.cycles_left == 0 {
        let (opcode, m1) = bus_read::<B>(m, cpu.pc);
        let op = operation_spec(opcode);
        let c1 = fetched(cpu, op);
        let (c2, m2, amr) = address::<B>(op.addressing_mode, c1, m1);
        let (c3, m3) = execute::<B>(op.instruction, c2, m2, amr.data);
        let extra: int = if amr.needs_extra_cycle && extra_cycle_spec(op.instruction) { 1 } else { 0 };
        (Cpu { cycles_left: (c3.cycles_left + extra - 1) as u8, ..c3 }, m3)
    } else {
        (Cpu { cycles_left: (cpu.cycles_left - 1) as u8, ..cpu }, m)
    }
}

/// A clock in the middle of an instruction only uses up a cycle; at the
/// start of one it fetches the opcode: NOP ($EA) moves the program counter
/// past it and leaves one of its two cycles, and an opcode outside the
/// table (such as $02) runs as a one-cycle NOP.
pub proof fn law_clock_nop_and_unknown<B: Bus>(cpu: Cpu, m: B::V)
    requires
        cpu.pc < 0xFFFF,
    ensures
        cpu.cycles_left > 0 ==> clock_spec::<B>(cpu, m) == (Cpu { cycles_left: (cpu.cycles_left - 1) as u8, ..cpu }, m),
        cpu.cycles_left == 0 && B::peek(m, cpu.pc) == 0xEA ==> clock_spec::<B>(cpu, m) == (
            Cpu { pc: (cpu.pc + 1) as u16, cycles_left: 1, ..cpu },
            B::after_read(m, cpu.pc),
        ),
        cpu.cycles_left == 0 && B::peek(m, cpu.pc) == 0x02 ==> clock_spec::<B>(cpu, m) == (
            Cpu { pc: (cpu.pc + 1) as u16, cycles_left: 0, ..cpu },
            B::after_read(m, cpu.pc),
        ),
{
}

/// A whole instruction: clocks until the cycles of the instruction are used
/// up.
pub open spec fn step_spec<B: Bus>(cpu: Cpu, m: B::V) -> (Cpu, B::V) {
    let (c1, m1) = clock_spec::<B>(cpu, m);
    (Cpu { cycles_left: 0, ..c1 }, m1)
}

/// An interrupt: the high and then the low byte of the program counter are
/// pushed, the flags are set, the status is pushed, and the program counter
/// is read from `vector`.
pub open spec fn interrupt_spec<B: Bus>(cpu: Cpu, m: B::V, vector: u16, cycles: u8) -> (Cpu, B::V) {
    let (c1, m1) = push_spec::<B>(cpu, m, (cpu.pc >> 8u16) as u8);
    let (c2, m2) = push_spec::<B>(c1, m1, (cpu.pc & 0x00FFu16) as u8);
    let c3 = c2.with_flag(Break, false).with_flag(Unused, true).with_flag(DisableInterrupts, true);
    let (c4, m3) = push_spec::<B>(c3, m2, c3.status);
    let (lo, m4) = bus_read::<B>(m3, vector);
    let (hi, m5) = bus_read::<B>(m4, (vector + 1) as u16);
    (Cpu { pc: word(lo, hi), cycles_left: cycles, ..c4 }, m5)
}

pub open spec fn reset_spec<B: Bus>(cpu: Cpu, m: B::V) -> (Cpu, B::V) {
    let (lo, m1) = bus_read::<B>(m, PC_INIT_ADDR);
    let (hi, m2) = bus_read::<B>(m1, (PC_INIT_ADDR + 1) as u16);
    (
        Cpu { a: 0, x: 0, y: 0, s: STACK_SIZE, status: 0x20, pc: word(lo, hi), cycles_left: 8 },
        m2,
    )
}

impl<B: Bus> Processor<B> {
    pub fn step(&mut self)
        requires
            clock_ok::<B>(old(self).regs(), old(self).bus@),
        ensures
            (final(self).regs(), final(self).bus@) == step_spec::<B>(old(self).regs(), old(self).bus@),
    {
        let ghost start: (Cpu, B::V) = (self.regs(), self.bus@);
        self.sig_clock();
        while self.cycles_left != 0
            invariant
                (Cpu { cycles_left: 0, ..self.regs() }, self.bus@) == step_spec::<B>(start.0, start.1),
            decreases self.cycles_left,
        {
            self.sig_clock();
        }
    }

    // SIGNALS:

    pub fn sig_clock(&mut self)
        requires
            clock_ok::<B>(old(self).regs(), old(self).bus@),
        ensures
            (final(self).regs(), final(self).bus@) == clock_spec::<B>(old(self).regs(), old(self).bus@),
    {
        if self.cycles_left == 0 {
            let pc: u16 = self.pc;
            let opcode: u8 = self.bus.read(pc);
            self.pc = self.pc + 1;
            let operation: Operation = lookup(opcode);
            self.cycles_left = operation.cycles;
            let address_mode_result: AddressingModeResult = address_mode(operation.addressing_mode, self);
            proof {
                lemma_execute_cycles::<B>(operation.instruction, self.regs(), self.bus@, address_mode_result.data);
            }
            let instruction_result: InstructionResult = run_instruction(
                operation.instruction,
                self,
                &address_mode_result.data,
            );
            if address_mode_result.needs_extra_cycle && instruction_result.may_need_extra_cycle {
                self.cycles_left = self.cycles_left + 1;
            }
        }
        self.cycles_left = self.cycles_left - 1;
    }

    pub fn sig_reset(&mut self)
        ensures
            (final(self).regs(), final(self).bus@) == reset_spec::<B>(old(self).regs(), old(self).bus@),
    {
        self.a = 0x00;
        self.x = 0x00;
        self.y = 0x00;
        self.s = STACK_SIZE;
        self.status = 0x00u8 | Unused.bits();
        proof { crate::cpu6502::lemma_power_on_status(); }
        self.pc = self.bus.read16(PC_INIT_ADDR);
        self.cycles_left = 8;
    }

    /// An interrupt request; the DisableInterrupts flag masks it, so it is
    /// taken only while that flag is clear, and it needs room for three
    /// bytes on the stack.
    pub fn sig_irq(&mut self)
        requires
            !old(self).regs().flag(DisableInterrupts) ==> old(self).s >= 3,
        ensures
            (final(self).regs(), final(self).bus@) == if !old(self).regs().flag(DisableInterrupts) {
                interrupt_spec::<B>(old(self).regs(), old(self).bus@, IRQ_POINTER, 7)
            } else {
                (old(self).regs(), old(self).bus@)
            },
    {
        if self.get_status(DisableInterrupts) == 0x00 {
            self.interrupt(IRQ_POINTER, 7);
        }
    }

    /// A non-maskable interrupt; it needs room for three bytes on the stack.
    pub fn sig_nmi(&mut self)
        requires
            old(self).s >= 3,
        ensures
            (final(self).regs(), final(self).bus@) == interrupt_spec::<B>(
                old(self).regs(),
                old(self).bus@,
                NMI_POINTER,
                8,
            ),
    {
        self.interrupt(NMI_POINTER, 8);
    }

    fn interrupt(&mut self, vector: u16, cycles: u8)
        requires
            vector < 0xFFFF,
            old(self).s >= 3,
        ensures
            (final(self).regs(), final(self).bus@) == interrupt_spec::<B>(
                old(self).regs(),
                old(self).bus@,
                vector,
                cycles,
            ),
    {
        let pc_hi: u8 = (self.pc >> 8u16) as u8;
        self.push(pc_hi);
        let pc_lo: u8 = (self.pc & 0x00FF) as u8;
        self.push(pc_lo);
        self.set_status(Break, false);
        self.set_status(Unused, true);
        self.set_status(DisableInterrupts, true);
        let status: u8 = self.status;
        self.push(status);
        let irq_addr: u16 = self.bus.read16(vector);
        self.pc = irq_addr;
        self.cycles_left = cycles;
    }
}

/// For the processor that owns its bus: CMP, CPX and CPY compare the
/// accumulator, X and Y respectively with their operand `v`: Zero says the
/// register equals `v`, Carry that it is at least `v`, Negative that the
/// register minus `v` (modulo 256) has its top bit set. No register
/// changes, and no other flag.
pub proof fn law_processor_compare<B: Bus>(ins: Instruction, cpu: Cpu, m: B::V, d: DataSource)
    requires
        ins == Instruction::CMP || ins == Instruction::CPX || ins == Instruction::CPY,
    ensures
        ({
            let r = if ins == Instruction::CMP {
                cpu.a
            } else if ins == Instruction::CPX {
                cpu.x
            } else {
                cpu.y
            };
            let (v, m1) = d.read_spec::<B>(cpu, m);
            let (c, m2) = execute::<B>(ins, cpu, m, d);
            &&& c.flag(Zero) == (r == v)
            &&& c.flag(Carry) == (r >= v)
            &&& c.flag(Negative) == ((r - v) % 256 >= 128)
            &&& forall|f: StatusFlag|
                f != Zero && f != Carry && f != Negative ==> #[trigger] c.flag(f) == cpu.flag(f)
            &&& c == (Cpu { status: c.status, ..cpu })
            &&& m2 == m1
        }),
{
    let (v, m1) = d.read_spec::<B>(cpu, m);
    crate::cpu6502::lemma_compare_flags(cpu, cpu.a, v);
    crate::cpu6502::lemma_compare_flags(cpu, cpu.x, v);
    crate::cpu6502::lemma_compare_flags(cpu, cpu.y, v);
}

/// For the processor that owns its bus: loads, transfers, increments and
/// decrements write one value into one register (the operand, the source
/// register, or the register plus or minus one), with Zero saying the value
/// is zero and Negative that it is at least 128; the other registers and
/// flags stay. (A decrement of a zero register is left out: it overflows.)
pub proof fn law_processor_register_moves<B: Bus>(ins: Instruction, cpu: Cpu, m: B::V, d: DataSource)
    requires
        crate::cpu6502::is_register_move(ins),
        ins == Instruction::DEX ==> cpu.x >= 1,
        ins == Instruction::DEY ==> cpu.y >= 1,
    ensures
        ({
            let (v, m1) = d.read_spec::<B>(cpu, m);
            let (c, m2) = execute::<B>(ins, cpu, m, d);
            let r = crate::cpu6502::moved_register(ins);
            let x = crate::cpu6502::moved_value(ins, cpu, v);
            &&& c.a == if r == 0 { x } else { cpu.a as int }
            &&& c.x == if r == 1 { x } else { cpu.x as int }
            &&& c.y == if r == 2 { x } else { cpu.y as int }
            &&& c.flag(Zero) == (x == 0)
            &&& c.flag(Negative) == (x >= 128)
            &&& forall|f: StatusFlag| f != Zero && f != Negative ==> #[trigger] c.flag(f) == cpu.flag(f)
            &&& c == (Cpu { a: c.a, x: c.x, y: c.y, status: c.status, ..cpu })
        }),
{
    let (v, m1) = d.read_spec::<B>(cpu, m);
    match ins {
        Instruction::LDA => crate::cpu6502::lemma_zn_flags(Cpu { a: v, ..cpu }, v),
        Instruction::LDX => crate::cpu6502::lemma_zn_flags(Cpu { x: v, ..cpu }, v),
        Instruction::LDY => crate::cpu6502::lemma_zn_flags(Cpu { y: v, ..cpu }, v),
        Instruction::TAX => crate::cpu6502::lemma_zn_flags(Cpu { x: cpu.a, ..cpu }, cpu.a),
        Instruction::TAY => crate::cpu6502::lemma_zn_flags(Cpu { y: cpu.a, ..cpu }, cpu.a),
        Instruction::TXA => crate::cpu6502::lemma_zn_flags(Cpu { a: cpu.x, ..cpu }, cpu.x),
        Instruction::TYA => crate::cpu6502::lemma_zn_flags(Cpu { a: cpu.y, ..cpu }, cpu.y),
        Instruction::TSX => crate::cpu6502::lemma_zn_flags(Cpu { x: cpu.s, ..cpu }, cpu.s),
        Instruction::INX => crate::cpu6502::lemma_zn_flags(
            Cpu { x: cpu.x.wrapping_add(1), ..cpu },
            cpu.x.wrapping_add(1),
        ),
        Instruction::INY => crate::cpu6502::lemma_zn_flags(
            Cpu { y: cpu.y.wrapping_add(1), ..cpu },
            cpu.y.wrapping_add(1),
        ),
        Instruction::DEX => crate::cpu6502::lemma_zn_flags(Cpu { x: (cpu.x - 1) as u8, ..cpu }, (cpu.x - 1) as u8),
        _ => crate::cpu6502::lemma_zn_flags(Cpu { y: (cpu.y - 1) as u8, ..cpu }, (cpu.y - 1) as u8),
    }
}

} // verus!
