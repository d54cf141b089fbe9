use vstd::prelude::*;
use crate::bus::{word, Bus};
use crate::cpu6502::{Cpu, Instruction, AddressingMode, Operation, operation_spec, StatusFlag, address, mode_ok};
use crate::ram::{Ram, RamView};
use crate::text::{
    hex_digit, hex2, hex4, bin8, pad_right, is_ascii, push_all, push_vec, push_hex2, push_hex4, push_bin8,
    pad_to, string_from_ascii,
};

verus! {

/// An instruction as the tracer sees it before it runs: the registers, the
/// operation, its bytes, and the operand and addresses it works on.
pub struct Trace {
    pub cpu: Cpu,
    pub instruction: Instruction,
    pub addressing_mode: AddressingMode,
    pub undocumented: bool,
    pub data: Vec<u8>,
    pub param: u8,
    pub param_expanded: u8,
    pub addr: u16,
    pub addr_abs: u16,
    pub data_at: u8,
}

/// The number of bytes of an instruction in addressing mode `m`.
pub open spec fn mode_len(m: AddressingMode) -> int {
    match m {
        AddressingMode::IMP | AddressingMode::ACC => 1,
        AddressingMode::ABS | AddressingMode::ABX | AddressingMode::ABY | AddressingMode::IND => 3,
        _ => 2,
    }
}

/// The target of a relative branch whose offset byte is at `pc + 1`.
pub open spec fn branch_target(pc: u16, offset: u8) -> int {
    pc + 2 + if offset >= 128 { offset - 256 } else { offset as int }
}

/// Whether the instruction at `pc` can be traced: its bytes end before
/// $FFFF, and a branch target lies within the address space.
pub open spec fn traceable(mem: Seq<u8>, pc: u16) -> bool {
    let op = operation_spec(mem[pc as int]);
    &&& pc + mode_len(op.addressing_mode) <= 0xFFFF
    &&& op.addressing_mode == AddressingMode::REL ==> 0 <= branch_target(pc, mem[pc + 1]) <= 0xFFFF
}

/// The operand fields that tracing the instruction at `pc` gives:
/// (param, param_expanded, addr, addr_abs, data_at), read from `mem`.
pub open spec fn operand_fields(mem: Seq<u8>, cpu: Cpu, pc: u16) -> (u8, u8, u16, u16, u8) {
    operands_in(mem, cpu, pc, operation_spec(mem[pc as int]).addressing_mode)
}

/// The operand fields of an instruction at `pc` in addressing mode `mode`.
pub open spec fn operands_in(mem: Seq<u8>, cpu: Cpu, pc: u16, mode: AddressingMode) -> (u8, u8, u16, u16, u8) {
    let p1 = mem[pc + 1];
    let w = word(p1, mem[pc + 2]);
    match mode {
        AddressingMode::IMM => (p1, 0, 0, 0, 0),
        AddressingMode::ZP0 => (p1, 0, 0, 0, mem[p1 as int]),
        AddressingMode::ZPX => {
            let a = ((p1 + cpu.x) % 256) as u16;
            (p1, 0, 0, a, mem[a as int])
        },
        AddressingMode::ZPY => {
            let a = ((p1 + cpu.y) % 256) as u16;
            (p1, 0, 0, a, mem[a as int])
        },
        AddressingMode::ABS => (0, 0, w, 0, mem[w as int]),
        AddressingMode::ABX => {
            let a = w.wrapping_add(cpu.x as u16);
            (0, 0, w, a, mem[a as int])
        },
        AddressingMode::ABY => {
            let a = w.wrapping_add(cpu.y as u16);
            (0, 0, w, a, mem[a as int])
        },
        AddressingMode::IND => {
            // The pointer's high byte does not cross a page.
            let a = if p1 == 0xFF {
                word(mem[w as int], mem[(w & 0xFF00u16) as int])
            } else {
                word(mem[w as int], mem[w + 1])
            };
            (0, 0, w, a, 0)
        },
        AddressingMode::IZX => {
            let z = (p1 + cpu.x) % 256;
            let a = word(mem[z], mem[(p1 + cpu.x + 1) % 256]);
            (p1, z as u8, 0, a, mem[a as int])
        },
        AddressingMode::IZY => {
            let base = word(mem[p1 as int], mem[(p1 + 1) % 256]);
            let a = base.wrapping_add(cpu.y as u16);
            (p1, 0, base, a, mem[a as int])
        },
        AddressingMode::REL => (0, 0, 0, branch_target(pc, p1) as u16, 0),
        _ => (0, 0, 0, 0, 0),
    }
}

/// Bit identities that tracing uses.
proof fn lemma_trace_bits(v: u8, w: u16)
    by (bit_vector)
    ensures
        (v as u16) & 0x00FFu16 == v as u16,
        v & 0xFFu8 == v,
        v & 0x80u8 != 0 ==> !(v as u16) <= 0xFF7F,
        v >= 128 ==> (((!(v as u16)) + 1) as u16) & 0x00FFu16 == 256 - v,
        v < 128 ==> v & 0x80u8 == 0,
        v >= 128 ==> v & 0x80u8 != 0,
        (w & 0x00FFu16) != 0x00FF ==> w < 0xFFFF,
{
}

fn read(mem: &Vec<u8>, a: u16) -> (r: u8)
    requires
        mem@.len() == 0x10000,
    ensures
        r == mem@[a as int],
{
    mem[a as usize]
}

/// Reads the operand of an instruction at `pc_` in addressing mode
/// `mode`: (param, param_expanded, addr, addr_abs, data_at).
#[verifier::rlimit(80)]
fn operands(mem: &Vec<u8>, cpu: &Cpu, pc_: u16, mode: AddressingMode) -> (r: (u8, u8, u16, u16, u8))
    requires
        mem@.len() == 0x10000,
        pc_ + mode_len(mode) <= 0xFFFF,
        mode == AddressingMode::REL ==> 0 <= branch_target(pc_, mem@[pc_ + 1]) <= 0xFFFF,
    ensures
        r == operands_in(mem@, *cpu, pc_, mode),
{
    let mut pc: u16 = pc_ + 1;
    let mut param: u8 = 0x00;
    let mut param_expanded: u8 = 0x00;
    let mut addr: u16 = 0x0000;
    let mut addr_abs: u16 = 0x0000;
    let mut data_at: u8 = 0x00;
    proof {
        lemma_trace_bits(mem@[pc_ + 1], 0);
    }
    match mode {
        AddressingMode::IMP => {},
        AddressingMode::IMM => {
            // Immediate; read one byte:
            param = read(mem, pc);
            pc = pc + 1;
        },
        AddressingMode::ZP0 => {
            // Zero Page; read one byte:
            param = read(mem, pc);
            data_at = read(mem, param as u16);
            pc = pc + 1;
        },
        AddressingMode::ZPX => {
            // Zero Page with X offset; read one byte:
            param = read(mem, pc);
            pc = pc + 1;
            addr_abs = (param.wrapping_add(cpu.x) as u16) & 0x00FF;
            proof {
                lemma_trace_bits(param.wrapping_add(cpu.x), 0);
            }
            data_at = read(mem, addr_abs);
        },
        AddressingMode::ZPY => {
            // Zero Page with Y offset; read one byte:
            param = read(mem, pc);
            pc = pc + 1;
            addr_abs = (param.wrapping_add(cpu.y) as u16) & 0x00FF;
            proof {
                lemma_trace_bits(param.wrapping_add(cpu.y), 0);
            }
            data_at = read(mem, addr_abs);
        },
        AddressingMode::ABS => {
            // Absolute; read two bytes:
            let lo: u16 = read(mem, pc) as u16;
            pc = pc + 1;
            let hi: u16 = read(mem, pc) as u16;
            pc = pc + 1;
            addr = (hi << 8) | lo;
            data_at = read(mem, addr);
        },
        AddressingMode::ABX => {
            // Absolute, X; read two bytes:
            let lo: u16 = read(mem, pc) as u16;
            pc = pc + 1;
            let hi: u16 = read(mem, pc) as u16;
            pc = pc + 1;
            addr = (hi << 8) | lo;
            addr_abs = addr.wrapping_add(cpu.x as u16);
            data_at = read(mem, addr_abs);
        },
        AddressingMode::ABY => {
            // Absolute, Y; read two bytes:
            let lo: u16 = read(mem, pc) as u16;
            pc = pc + 1;
            let hi: u16 = read(mem, pc) as u16;
            pc = pc + 1;
            addr = (hi << 8) | lo;
            addr_abs = addr.wrapping_add(cpu.y as u16);
            data_at = read(mem, addr_abs);
        },
        AddressingMode::IND => {
            // Indirect; read two bytes:
            let lo: u16 = read(mem, pc) as u16;
            pc = pc + 1;
            let hi: u16 = read(mem, pc) as u16;
            pc = pc + 1;
            addr = (hi << 8) | lo;
            // The 6502 reads the high byte of a pointer that spans a page
            // boundary from the start of the same page.
            addr_abs = if lo == 0x00FF {
                ((read(mem, addr & 0xFF00) as u16) << 8) | read(mem, addr) as u16
            } else {
                proof {
                    lemma_trace_bits(0, addr);
                    assert(addr & 0x00FFu16 == lo) by (bit_vector)
                        requires addr == (hi << 8u16) | lo, lo <= 0xFF, hi <= 0xFF;
                }
                ((read(mem, addr + 1) as u16) << 8) | read(mem, addr) as u16
            };
        },
        AddressingMode::IZX => {
            // Indexed Indirect; read one byte:
            param = read(mem, pc);
            pc = pc + 1;
            // The pointer is in the zero page, X bytes on.
            proof {
                lemma_trace_bits(param.wrapping_add(cpu.x), 0);
                lemma_trace_bits(param.wrapping_add(cpu.x.wrapping_add(1)), 0);
            }
            let lo: u16 = read(mem, param.wrapping_add(cpu.x) as u16 & 0x00FF) as u16;
            let hi: u16 = read(mem, param.wrapping_add(cpu.x.wrapping_add(1)) as u16 & 0x00FF) as u16;
            addr_abs = (hi << 8) | lo;
            data_at = read(mem, addr_abs);
            param_expanded = param.wrapping_add(cpu.x) & 0x00FF;
        },
        AddressingMode::IZY => {
            // Indirect Indexed; read one byte:
            param = read(mem, pc);
            // The pointer lives in the zero page.
            let ptr: u16 = param as u16 & 0x00FF;
            proof {
                lemma_trace_bits(param, 0);
                assert(ptr.wrapping_add(1) & 0x00FFu16 == ((param + 1) % 256) as u16) by (bit_vector)
                    requires ptr == param as u16;
            }
            let lo: u16 = read(mem, ptr & 0x00FF) as u16;
            let hi: u16 = read(mem, ptr.wrapping_add(1) & 0x00FF) as u16;
            addr = (hi << 8) | lo;
            addr_abs = addr.wrapping_add(cpu.y as u16);
            data_at = read(mem, addr_abs);
            pc = pc + 1;
        },
        AddressingMode::ACC => {},
        AddressingMode::REL => {
            // Relative; read one byte:
            let offset: u8 = read(mem, pc);
            proof {
                lemma_trace_bits(offset, 0);
            }
            pc = pc + 1;
            addr_abs = if offset & 0x80 != 0 {
                // The two's complement of a negative offset:
                let neg_offset: u16 = ((!(offset as u16)) + 1) & 0x00FF;
                pc - neg_offset
            } else {
                pc + offset as u16
            };
        },
    }
    (param, param_expanded, addr, addr_abs, data_at)
}

/// Traces the instruction at `pc_` against the memory `mem` (the 64K that
/// the CPU sees), without running it.
pub fn trace(mem: &Vec<u8>, cpu: &Cpu, pc_: u16) -> (r: Trace)
    requires
        mem@.len() == 0x10000,
        traceable(mem@, pc_),
    ensures
        ({
            let op = operation_spec(mem@[pc_ as int]);
            let (param, param_expanded, addr, addr_abs, data_at) = operand_fields(mem@, *cpu, pc_);
            &&& r.cpu == (Cpu { pc: pc_, ..*cpu })
            &&& r.instruction == op.instruction
            &&& r.addressing_mode == op.addressing_mode
            &&& r.undocumented == op.undocumented
            &&& r.data@ == mem@.subrange(pc_ as int, pc_ + mode_len(op.addressing_mode))
            &&& r.param == param
            &&& r.param_expanded == param_expanded
            &&& r.addr == addr
            &&& r.addr_abs == addr_abs
            &&& r.data_at == data_at
        }),
{
    let operation: Operation = Operation::from_opcode(read(mem, pc_));
    let (param, param_expanded, addr, addr_abs, data_at) = operands(mem, cpu, pc_, operation.addressing_mode);
    let pc_start: u16 = pc_;
    let pc: u16 = pc_ + if operation.addressing_mode == AddressingMode::IMP || operation.addressing_mode
        == AddressingMode::ACC {
        1
    } else if operation.addressing_mode == AddressingMode::ABS || operation.addressing_mode == AddressingMode::ABX
        || operation.addressing_mode == AddressingMode::ABY || operation.addressing_mode == AddressingMode::IND {
        3
    } else {
        2
    };
    let mut data: Vec<u8> = Vec::new();
    let mut a: u16 = pc_start;
    while a < pc
        invariant
            mem@.len() == 0x10000,
            pc_start <= a <= pc,
            data@ == mem@.subrange(pc_start as int, a as int),
        decreases pc - a,
    {
        data.push(read(mem, a));
        a = a + 1;
        assert(data@ =~= mem@.subrange(pc_start as int, a as int));
    }
    let mut traced_cpu: Cpu = *cpu;
    traced_cpu.pc = pc_;
    Trace {
        cpu: traced_cpu,
        instruction: operation.instruction,
        addressing_mode: operation.addressing_mode,
        undocumented: operation.undocumented,
        data,
        param,
        param_expanded,
        addr,
        addr_abs,
        data_at,
    }
}

/// The three letters of an instruction's mnemonic.
pub open spec fn name_of(i: Instruction) -> (u8, u8, u8) {
    match i {
        Instruction::ADC => ('A' as u8, 'D' as u8, 'C' as u8),
        Instruction::AND => ('A' as u8, 'N' as u8, 'D' as u8),
        Instruction::ASL => ('A' as u8, 'S' as u8, 'L' as u8),
        Instruction::BCC => ('B' as u8, 'C' as u8, 'C' as u8),
        Instruction::BCS => ('B' as u8, 'C' as u8, 'S' as u8),
        Instruction::BEQ => ('B' as u8, 'E' as u8, 'Q' as u8),
        Instruction::BIT => ('B' as u8, 'I' as u8, 'T' as u8),
        Instruction::BMI => ('B' as u8, 'M' as u8, 'I' as u8),
        Instruction::BNE => ('B' as u8, 'N' as u8, 'E' as u8),
        Instruction::BPL => ('B' as u8, 'P' as u8, 'L' as u8),
        Instruction::BRK => ('B' as u8, 'R' as u8, 'K' as u8),
        Instruction::BVC => ('B' as u8, 'V' as u8, 'C' as u8),
        Instruction::BVS => ('B' as u8, 'V' as u8, 'S' as u8),
        Instruction::CLC => ('C' as u8, 'L' as u8, 'C' as u8),
        Instruction::CLD => ('C' as u8, 'L' as u8, 'D' as u8),
        Instruction::CLI => ('C' as u8, 'L' as u8, 'I' as u8),
        Instruction::CLV => ('C' as u8, 'L' as u8, 'V' as u8),
        Instruction::CMP => ('C' as u8, 'M' as u8, 'P' as u8),
        Instruction::CPX => ('C' as u8, 'P' as u8, 'X' as u8),
        Instruction::CPY => ('C' as u8, 'P' as u8, 'Y' as u8),
        Instruction::DEC => ('D' as u8, 'E' as u8, 'C' as u8),
        Instruction::DEX => ('D' as u8, 'E' as u8, 'X' as u8),
        Instruction::DEY => ('D' as u8, 'E' as u8, 'Y' as u8),
        Instruction::EOR => ('E' as u8, 'O' as u8, 'R' as u8),
        Instruction::INC => ('I' as u8, 'N' as u8, 'C' as u8),
        Instruction::INX => ('I' as u8, 'N' as u8, 'X' as u8),
        Instruction::INY => ('I' as u8, 'N' as u8, 'Y' as u8),
        Instruction::JMP => ('J' as u8, 'M' as u8, 'P' as u8),
        Instruction::JSR => ('J' as u8, 'S' as u8, 'R' as u8),
        Instruction::LDA => ('L' as u8, 'D' as u8, 'A' as u8),
        Instruction::LDX => ('L' as u8, 'D' as u8, 'X' as u8),
        Instruction::LDY => ('L' as u8, 'D' as u8, 'Y' as u8),
        Instruction::LSR => ('L' as u8, 'S' as u8, 'R' as u8),
        Instruction::NOP => ('N' as u8, 'O' as u8, 'P' as u8),
        Instruction::ORA => ('O' as u8, 'R' as u8, 'A' as u8),
        Instruction::PHA => ('P' as u8, 'H' as u8, 'A' as u8),
        Instruction::PHP => ('P' as u8, 'H' as u8, 'P' as u8),
        Instruction::PLA => ('P' as u8, 'L' as u8, 'A' as u8),
        Instruction::PLP => ('P' as u8, 'L' as u8, 'P' as u8),
        Instruction::ROL => ('R' as u8, 'O' as u8, 'L' as u8),
        Instruction::ROR => ('R' as u8, 'O' as u8, 'R' as u8),
        Instruction::RTI => ('R' as u8, 'T' as u8, 'I' as u8),
        Instruction::RTS => ('R' as u8, 'T' as u8, 'S' as u8),
        Instruction::SBC => ('S' as u8, 'B' as u8, 'C' as u8),
        Instruction::SEC => ('S' as u8, 'E' as u8, 'C' as u8),
        Instruction::SED => ('S' as u8, 'E' as u8, 'D' as u8),
        Instruction::SEI => ('S' as u8, 'E' as u8, 'I' as u8),
        Instruction::STA => ('S' as u8, 'T' as u8, 'A' as u8),
        Instruction::STX => ('S' as u8, 'T' as u8, 'X' as u8),
        Instruction::STY => ('S' as u8, 'T' as u8, 'Y' as u8),
        Instruction::TAX => ('T' as u8, 'A' as u8, 'X' as u8),
        Instruction::TAY => ('T' as u8, 'A' as u8, 'Y' as u8),
        Instruction::TSX => ('T' as u8, 'S' as u8, 'X' as u8),
        Instruction::TXA => ('T' as u8, 'X' as u8, 'A' as u8),
        Instruction::TXS => ('T' as u8, 'X' as u8, 'S' as u8),
        Instruction::TYA => ('T' as u8, 'Y' as u8, 'A' as u8),
        Instruction::LAX => ('L' as u8, 'A' as u8, 'X' as u8),
        Instruction::SAX => ('S' as u8, 'A' as u8, 'X' as u8),
        Instruction::DCP => ('D' as u8, 'C' as u8, 'P' as u8),
        Instruction::ISB => ('I' as u8, 'S' as u8, 'B' as u8),
        Instruction::SLO => ('S' as u8, 'L' as u8, 'O' as u8),
        Instruction::RLA => ('R' as u8, 'L' as u8, 'A' as u8),
        Instruction::SRE => ('S' as u8, 'R' as u8, 'E' as u8),
        Instruction::RRA => ('R' as u8, 'R' as u8, 'A' as u8),
    }
}

/// An instruction's mnemonic as bytes.
pub open spec fn name_bytes(i: Instruction) -> Seq<u8> {
    seq![name_of(i).0, name_of(i).1, name_of(i).2]
}

fn instruction_name(i: Instruction) -> (r: (u8, u8, u8))
    ensures
        r == name_of(i),
        r.0 < 128 && r.1 < 128 && r.2 < 128,
{
    match i {
        Instruction::ADC => ('A' as u8, 'D' as u8, 'C' as u8),
        Instruction::AND => ('A' as u8, 'N' as u8, 'D' as u8),
        Instruction::ASL => ('A' as u8, 'S' as u8, 'L' as u8),
        Instruction::BCC => ('B' as u8, 'C' as u8, 'C' as u8),
        Instruction::BCS => ('B' as u8, 'C' as u8, 'S' as u8),
        Instruction::BEQ => ('B' as u8, 'E' as u8, 'Q' as u8),
        Instruction::BIT => ('B' as u8, 'I' as u8, 'T' as u8),
        Instruction::BMI => ('B' as u8, 'M' as u8, 'I' as u8),
        Instruction::BNE => ('B' as u8, 'N' as u8, 'E' as u8),
        Instruction::BPL => ('B' as u8, 'P' as u8, 'L' as u8),
        Instruction::BRK => ('B' as u8, 'R' as u8, 'K' as u8),
        Instruction::BVC => ('B' as u8, 'V' as u8, 'C' as u8),
        Instruction::BVS => ('B' as u8, 'V' as u8, 'S' as u8),
        Instruction::CLC => ('C' as u8, 'L' as u8, 'C' as u8),
        Instruction::CLD => ('C' as u8, 'L' as u8, 'D' as u8),
        Instruction::CLI => ('C' as u8, 'L' as u8, 'I' as u8),
        Instruction::CLV => ('C' as u8, 'L' as u8, 'V' as u8),
        Instruction::CMP => ('C' as u8, 'M' as u8, 'P' as u8),
        Instruction::CPX => ('C' as u8, 'P' as u8, 'X' as u8),
        Instruction::CPY => ('C' as u8, 'P' as u8, 'Y' as u8),
        Instruction::DEC => ('D' as u8, 'E' as u8, 'C' as u8),
        Instruction::DEX => ('D' as u8, 'E' as u8, 'X' as u8),
        Instruction::DEY => ('D' as u8, 'E' as u8, 'Y' as u8),
        Instruction::EOR => ('E' as u8, 'O' as u8, 'R' as u8),
        Instruction::INC => ('I' as u8, 'N' as u8, 'C' as u8),
        Instruction::INX => ('I' as u8, 'N' as u8, 'X' as u8),
        Instruction::INY => ('I' as u8, 'N' as u8, 'Y' as u8),
        Instruction::JMP => ('J' as u8, 'M' as u8, 'P' as u8),
        Instruction::JSR => ('J' as u8, 'S' as u8, 'R' as u8),
        Instruction::LDA => ('L' as u8, 'D' as u8, 'A' as u8),
        Instruction::LDX => ('L' as u8, 'D' as u8, 'X' as u8),
        Instruction::LDY => ('L' as u8, 'D' as u8, 'Y' as u8),
        Instruction::LSR => ('L' as u8, 'S' as u8, 'R' as u8),
        Instruction::NOP => ('N' as u8, 'O' as u8, 'P' as u8),
        Instruction::ORA => ('O' as u8, 'R' as u8, 'A' as u8),
        Instruction::PHA => ('P' as u8, 'H' as u8, 'A' as u8),
        Instruction::PHP => ('P' as u8, 'H' as u8, 'P' as u8),
        Instruction::PLA => ('P' as u8, 'L' as u8, 'A' as u8),
        Instruction::PLP => ('P' as u8, 'L' as u8, 'P' as u8),
        Instruction::ROL => ('R' as u8, 'O' as u8, 'L' as u8),
        Instruction::ROR => ('R' as u8, 'O' as u8, 'R' as u8),
        Instruction::RTI => ('R' as u8, 'T' as u8, 'I' as u8),
        Instruction::RTS => ('R' as u8, 'T' as u8, 'S' as u8),
        Instruction::SBC => ('S' as u8, 'B' as u8, 'C' as u8),
        Instruction::SEC => ('S' as u8, 'E' as u8, 'C' as u8),
        Instruction::SED => ('S' as u8, 'E' as u8, 'D' as u8),
        Instruction::SEI => ('S' as u8, 'E' as u8, 'I' as u8),
        Instruction::STA => ('S' as u8, 'T' as u8, 'A' as u8),
        Instruction::STX => ('S' as u8, 'T' as u8, 'X' as u8),
        Instruction::STY => ('S' as u8, 'T' as u8, 'Y' as u8),
        Instruction::TAX => ('T' as u8, 'A' as u8, 'X' as u8),
        Instruction::TAY => ('T' as u8, 'A' as u8, 'Y' as u8),
        Instruction::TSX => ('T' as u8, 'S' as u8, 'X' as u8),
        Instruction::TXA => ('T' as u8, 'X' as u8, 'A' as u8),
        Instruction::TXS => ('T' as u8, 'X' as u8, 'S' as u8),
        Instruction::TYA => ('T' as u8, 'Y' as u8, 'A' as u8),
        Instruction::LAX => ('L' as u8, 'A' as u8, 'X' as u8),
        Instruction::SAX => ('S' as u8, 'A' as u8, 'X' as u8),
        Instruction::DCP => ('D' as u8, 'C' as u8, 'P' as u8),
        Instruction::ISB => ('I' as u8, 'S' as u8, 'B' as u8),
        Instruction::SLO => ('S' as u8, 'L' as u8, 'O' as u8),
        Instruction::RLA => ('R' as u8, 'L' as u8, 'A' as u8),
        Instruction::SRE => ('S' as u8, 'R' as u8, 'E' as u8),
        Instruction::RRA => ('R' as u8, 'R' as u8, 'A' as u8),
    }
}

/// Whether the trace of an instruction shows the byte its operand points
/// at: the loads, stores, arithmetic and read-modify-write instructions.
pub open spec fn needs_suffix(i: Instruction) -> bool {
    match i {
        Instruction::STA | Instruction::STY | Instruction::STX | Instruction::LDY | Instruction::LDX
        | Instruction::LDA | Instruction::ORA | Instruction::AND | Instruction::EOR | Instruction::ADC
        | Instruction::CMP | Instruction::SBC | Instruction::BIT | Instruction::CPX | Instruction::CPY
        | Instruction::LSR | Instruction::ASL | Instruction::ROR | Instruction::ROL | Instruction::INC
        | Instruction::DEC | Instruction::NOP | Instruction::LAX | Instruction::SAX | Instruction::DCP
        | Instruction::ISB | Instruction::SLO | Instruction::RLA | Instruction::SRE | Instruction::RRA => true,
        _ => false,
    }
}

fn needs_suffix_exec(i: Instruction) -> (r: bool)
    ensures
        r == needs_suffix(i),
{
    match i {
        Instruction::STA | Instruction::STY | Instruction::STX | Instruction::LDY | Instruction::LDX
        | Instruction::LDA | Instruction::ORA | Instruction::AND | Instruction::EOR | Instruction::ADC
        | Instruction::CMP | Instruction::SBC | Instruction::BIT | Instruction::CPX | Instruction::CPY
        | Instruction::LSR | Instruction::ASL | Instruction::ROR | Instruction::ROL | Instruction::INC
        | Instruction::DEC | Instruction::NOP | Instruction::LAX | Instruction::SAX | Instruction::DCP
        | Instruction::ISB | Instruction::SLO | Instruction::RLA | Instruction::SRE | Instruction::RRA => true,
        _ => false,
    }
}

/// A word in hex with at least two digits (`{:02X}`).
pub open spec fn hex_02(w: u16) -> Seq<u8> {
    if w < 0x100 {
        hex2(w as u8)
    } else if w < 0x1000 {
        seq![hex_digit((w / 256) as int), hex_digit(((w / 16) % 16) as int), hex_digit((w % 16) as int)]
    } else {
        hex4(w)
    }
}

fn push_hex_02(v: &mut Vec<u8>, w: u16)
    ensures
        final(v)@ == old(v)@ + hex_02(w),
        is_ascii(old(v)@) ==> is_ascii(final(v)@),
{
    if w < 0x100 {
        push_hex2(v, w as u8);
    } else if w < 0x1000 {
        push_hex2(v, (w / 16) as u8);
        let d: u8 = (w % 16) as u8;
        v.push(if d < 10 { 48 + d } else { 55 + d });
        assert(v@ =~= old(v)@ + hex_02(w));
    } else {
        push_hex4(v, w);
    }
}

/// The operand text of a traced instruction, as the disassembler writes
/// it for its addressing mode.
pub open spec fn params_of(t: Trace) -> Seq<u8> {
    operand_text(t.instruction, t.addressing_mode, (t.param, t.param_expanded, t.addr, t.addr_abs, t.data_at))
}

/// The operand text of instruction `i` in addressing mode `m`, given its
/// operand fields (param, param_expanded, addr, addr_abs, data_at).
pub open spec fn operand_text(i: Instruction, m: AddressingMode, f: (u8, u8, u16, u16, u8)) -> Seq<u8> {
    let dollar = seq!['$' as u8];
    let eq = seq![' ' as u8, '=' as u8, ' ' as u8];
    let param = f.0;
    let param_expanded = f.1;
    let addr = f.2;
    let addr_abs = f.3;
    let data_at = f.4;
    match m {
        AddressingMode::IMP => Seq::empty(),
        AddressingMode::IMM => seq!['#' as u8, '$' as u8] + hex2(param),
        AddressingMode::ZP0 => dollar + hex2(param) + eq + hex2(data_at),
        AddressingMode::ZPX => dollar + hex2(param) + seq![',' as u8, 'X' as u8, ' ' as u8, '@' as u8, ' ' as u8]
            + hex_02(addr_abs) + eq + hex2(data_at),
        AddressingMode::ZPY => dollar + hex2(param) + seq![',' as u8, 'Y' as u8, ' ' as u8, '@' as u8, ' ' as u8]
            + hex_02(addr_abs) + eq + hex2(data_at),
        AddressingMode::ABS => if needs_suffix(i) {
            dollar + hex4(addr) + eq + hex2(data_at)
        } else {
            dollar + hex4(addr)
        },
        AddressingMode::ABX => dollar + hex4(addr) + seq![',' as u8, 'X' as u8, ' ' as u8, '@' as u8, ' ' as u8]
            + hex4(addr_abs) + eq + hex2(data_at),
        AddressingMode::ABY => dollar + hex4(addr) + seq![',' as u8, 'Y' as u8, ' ' as u8, '@' as u8, ' ' as u8]
            + hex4(addr_abs) + eq + hex2(data_at),
        AddressingMode::IND => seq!['(' as u8, '$' as u8] + hex4(addr) + seq![')' as u8] + eq + hex4(addr_abs),
        AddressingMode::IZX => if needs_suffix(i) {
            seq!['(' as u8, '$' as u8] + hex2(param) + seq![',' as u8, 'X' as u8, ')' as u8, ' ' as u8, '@' as u8, ' ' as u8]
                + hex2(param_expanded) + eq + hex4(addr_abs) + eq + hex2(data_at)
        } else {
            seq!['(' as u8, '$' as u8] + hex2(param) + seq![',' as u8, 'X' as u8, ')' as u8]
        },
        AddressingMode::IZY => seq!['(' as u8, '$' as u8] + hex2(param) + seq![')' as u8, ',' as u8, 'Y' as u8]
            + eq + hex4(addr) + seq![' ' as u8, '@' as u8, ' ' as u8] + hex4(addr_abs) + eq + hex2(data_at),
        AddressingMode::ACC => seq!['A' as u8],
        AddressingMode::REL => dollar + hex4(addr_abs),
    }
}

/// Writes the operand text of a traced instruction.
#[verifier::rlimit(40)]
fn params_bytes(t: &Trace) -> (r: Vec<u8>)
    ensures
        r@ == params_of(*t),
        is_ascii(r@),
{
    let mut v: Vec<u8> = Vec::new();
    match t.addressing_mode {
        AddressingMode::IMP => {},
        AddressingMode::IMM => {
            push_all(&mut v, &['#' as u8, '$' as u8]);
            push_hex2(&mut v, t.param);
        },
        AddressingMode::ZP0 => {
            push_all(&mut v, &['$' as u8]);
            push_hex2(&mut v, t.param);
            push_all(&mut v, &[' ' as u8, '=' as u8, ' ' as u8]);
            push_hex2(&mut v, t.data_at);
        },
        AddressingMode::ZPX => {
            push_all(&mut v, &['$' as u8]);
            push_hex2(&mut v, t.param);
            push_all(&mut v, &[',' as u8, 'X' as u8, ' ' as u8, '@' as u8, ' ' as u8]);
            push_hex_02(&mut v, t.addr_abs);
            push_all(&mut v, &[' ' as u8, '=' as u8, ' ' as u8]);
            push_hex2(&mut v, t.data_at);
        },
        AddressingMode::ZPY => {
            push_all(&mut v, &['$' as u8]);
            push_hex2(&mut v, t.param);
            push_all(&mut v, &[',' as u8, 'Y' as u8, ' ' as u8, '@' as u8, ' ' as u8]);
            push_hex_02(&mut v, t.addr_abs);
            push_all(&mut v, &[' ' as u8, '=' as u8, ' ' as u8]);
            push_hex2(&mut v, t.data_at);
        },
        AddressingMode::ABS => {
            push_all(&mut v, &['$' as u8]);
            push_hex4(&mut v, t.addr);
            if needs_suffix_exec(t.instruction) {
                push_all(&mut v, &[' ' as u8, '=' as u8, ' ' as u8]);
                push_hex2(&mut v, t.data_at);
            }
        },
        AddressingMode::ABX => {
            push_all(&mut v, &['$' as u8]);
            push_hex4(&mut v, t.addr);
            push_all(&mut v, &[',' as u8, 'X' as u8, ' ' as u8, '@' as u8, ' ' as u8]);
            push_hex4(&mut v, t.addr_abs);
            push_all(&mut v, &[' ' as u8, '=' as u8, ' ' as u8]);
            push_hex2(&mut v, t.data_at);
        },
        AddressingMode::ABY => {
            push_all(&mut v, &['$' as u8]);
            push_hex4(&mut v, t.addr);
            push_all(&mut v, &[',' as u8, 'Y' as u8, ' ' as u8, '@' as u8, ' ' as u8]);
            push_hex4(&mut v, t.addr_abs);
            push_all(&mut v, &[' ' as u8, '=' as u8, ' ' as u8]);
            push_hex2(&mut v, t.data_at);
        },
        AddressingMode::IND => {
            push_all(&mut v, &['(' as u8, '$' as u8]);
            push_hex4(&mut v, t.addr);
            push_all(&mut v, &[')' as u8]);
            push_all(&mut v, &[' ' as u8, '=' as u8, ' ' as u8]);
            push_hex4(&mut v, t.addr_abs);
        },
        AddressingMode::IZX => {
            push_all(&mut v, &['(' as u8, '$' as u8]);
            push_hex2(&mut v, t.param);
            if needs_suffix_exec(t.instruction) {
                push_all(&mut v, &[',' as u8, 'X' as u8, ')' as u8, ' ' as u8, '@' as u8, ' ' as u8]);
                push_hex2(&mut v, t.param_expanded);
                push_all(&mut v, &[' ' as u8, '=' as u8, ' ' as u8]);
                push_hex4(&mut v, t.addr_abs);
                push_all(&mut v, &[' ' as u8, '=' as u8, ' ' as u8]);
                push_hex2(&mut v, t.data_at);
            } else {
                push_all(&mut v, &[',' as u8, 'X' as u8, ')' as u8]);
            }
        },
        AddressingMode::IZY => {
            push_all(&mut v, &['(' as u8, '$' as u8]);
            push_hex2(&mut v, t.param);
            push_all(&mut v, &[')' as u8, ',' as u8, 'Y' as u8]);
            push_all(&mut v, &[' ' as u8, '=' as u8, ' ' as u8]);
            push_hex4(&mut v, t.addr);
            push_all(&mut v, &[' ' as u8, '@' as u8, ' ' as u8]);
            push_hex4(&mut v, t.addr_abs);
            push_all(&mut v, &[' ' as u8, '=' as u8, ' ' as u8]);
            push_hex2(&mut v, t.data_at);
        },
        AddressingMode::ACC => {
            push_all(&mut v, &['A' as u8]);
        },
        AddressingMode::REL => {
            push_all(&mut v, &['$' as u8]);
            push_hex4(&mut v, t.addr_abs);
        },
    }
    v
}

/// The bytes of an instruction in hex, separated by spaces.
pub open spec fn data_hex(d: Seq<u8>) -> Seq<u8>
    decreases d.len(),
{
    if d.len() == 0 {
        Seq::empty()
    } else if d.len() == 1 {
        hex2(d[0])
    } else {
        data_hex(d.drop_last()) + seq![' ' as u8] + hex2(d.last())
    }
}

fn push_data_hex(v: &mut Vec<u8>, d: &Vec<u8>)
    ensures
        final(v)@ == old(v)@ + data_hex(d@),
        is_ascii(old(v)@) ==> is_ascii(final(v)@),
{
    let mut i: usize = 0;
    while i < d.len()
        invariant
            i <= d@.len(),
            v@ == old(v)@ + data_hex(d@.subrange(0, i as int)),
            is_ascii(old(v)@) ==> is_ascii(v@),
        decreases d@.len() - i,
    {
        if i > 0 {
            push_all(v, &[' ' as u8]);
        }
        push_hex2(v, d[i]);
        i = i + 1;
        let ghost pre: Seq<u8> = d@.subrange(0, i as int);
        assert(pre.drop_last() =~= d@.subrange(0, i - 1));
        assert(v@ =~= old(v)@ + data_hex(pre));
    }
    assert(d@.subrange(0, d@.len() as int) =~= d@);
}

/// A disassembled instruction: its mnemonic, its operand text, its
/// address, its bytes, and whether it is undocumented.
pub struct DisassembledOperation {
    pub instruction_name: String,
    pub params: String,
    pub addr: u16,
    pub data: Vec<u8>,
    pub undocumented: bool,
}

/// The chars of ASCII bytes.
pub open spec fn chars_of(s: Seq<u8>) -> Seq<char> {
    Seq::new(s.len(), |i: int| s[i] as char)
}

/// Whether `d` is the disassembly of the traced instruction `t`.
pub open spec fn disassembles(d: DisassembledOperation, t: Trace) -> bool {
    &&& d.instruction_name@ == chars_of(name_bytes(t.instruction))
    &&& d.params@ == chars_of(params_of(t))
    &&& d.addr == t.cpu.pc
    &&& d.data@ == t.data@
    &&& d.undocumented == t.undocumented
}

fn copy_bytes(d: &Vec<u8>) -> (r: Vec<u8>)
    ensures
        r@ == d@,
{
    let mut r: Vec<u8> = Vec::new();
    push_vec(&mut r, d);
    r
}

impl DisassembledOperation {
    /// The disassembly of a traced instruction.
    pub fn from_trace(t: &Trace) -> (r: DisassembledOperation)
        ensures
            disassembles(r, *t),
    {
        let (a, b, c) = instruction_name(t.instruction);
        let mut name: Vec<u8> = Vec::new();
        name.push(a);
        name.push(b);
        name.push(c);
        assert(name@ =~= name_bytes(t.instruction));
        let params: Vec<u8> = params_bytes(t);
        DisassembledOperation {
            instruction_name: string_from_ascii(name),
            params: string_from_ascii(params),
            addr: t.cpu.pc,
            data: copy_bytes(&t.data),
            undocumented: t.undocumented,
        }
    }
}

/// The start of a trace line: the address, the instruction bytes, the
/// undocumented mark, the mnemonic and the operand text, padded into
/// columns (`{:04X}  {:<8} {}{} {:<26}`).
pub open spec fn line_head(t: Trace) -> Seq<u8> {
    hex4(t.cpu.pc) + seq![' ' as u8, ' ' as u8] + pad_right(data_hex(t.data@), 8) + seq![' ' as u8] + seq![
        if t.undocumented { '*' as u8 } else { ' ' as u8 },
    ] + name_bytes(t.instruction) + seq![' ' as u8] + pad_right(params_of(t), 26)
}

/// A trace line in the nestest log format: the head, then
/// `  A:{:02X} X:{:02X} Y:{:02X} P:{:02X} SP:{:02X}`.
pub open spec fn trace_line(t: Trace) -> Seq<u8> {
    line_head(t) + seq![' ' as u8, ' ' as u8, 'A' as u8, ':' as u8] + hex2(t.cpu.a) + seq![' ' as u8, 'X' as u8, ':' as u8]
        + hex2(t.cpu.x) + seq![' ' as u8, 'Y' as u8, ':' as u8] + hex2(t.cpu.y) + seq![' ' as u8, 'P' as u8, ':' as u8]
        + hex2(t.cpu.status) + seq![' ' as u8, 'S' as u8, 'P' as u8, ':' as u8] + hex2(t.cpu.s)
}

fn push_line_head(v: &mut Vec<u8>, t: &Trace)
    requires
        old(v)@.len() == 0,
    ensures
        final(v)@ == line_head(*t),
        is_ascii(final(v)@),
{
    push_hex4(v, t.cpu.pc);
    push_all(v, &[' ' as u8, ' ' as u8]);
    let start: usize = v.len();
    push_data_hex(v, &t.data);
    let ghost before: Seq<u8> = v@;
    assert(v@.subrange(0, start as int) =~= hex4(t.cpu.pc) + seq![' ' as u8, ' ' as u8]);
    assert(v@.subrange(start as int, v@.len() as int) =~= data_hex(t.data@));
    pad_to(v, start, 8);
    push_all(v, &[' ' as u8]);
    push_all(v, &[if t.undocumented { '*' as u8 } else { ' ' as u8 }]);
    let (a, b, c) = instruction_name(t.instruction);
    push_all(v, &[a, b, c]);
    push_all(v, &[' ' as u8]);
    let start2: usize = v.len();
    let params: Vec<u8> = params_bytes(t);
    let ghost head: Seq<u8> = v@;
    push_vec(v, &params);
    assert(v@.subrange(0, start2 as int) =~= head);
    assert(v@.subrange(start2 as int, v@.len() as int) =~= params@);
    pad_to(v, start2, 26);
    assert(v@ =~= line_head(*t));
}

/// Formats a trace as a line of the nestest log.
pub fn print_trace(trace: Trace) -> (r: String)
    ensures
        r@ == chars_of(trace_line(trace)),
{
    let cpu: Cpu = trace.cpu;
    let mut v: Vec<u8> = Vec::new();
    push_line_head(&mut v, &trace);
    push_all(&mut v, &[' ' as u8, ' ' as u8, 'A' as u8, ':' as u8]);
    push_hex2(&mut v, cpu.a);
    push_all(&mut v, &[' ' as u8, 'X' as u8, ':' as u8]);
    push_hex2(&mut v, cpu.x);
    push_all(&mut v, &[' ' as u8, 'Y' as u8, ':' as u8]);
    push_hex2(&mut v, cpu.y);
    push_all(&mut v, &[' ' as u8, 'P' as u8, ':' as u8]);
    push_hex2(&mut v, cpu.status);
    push_all(&mut v, &[' ' as u8, 'S' as u8, 'P' as u8, ':' as u8]);
    push_hex2(&mut v, cpu.s);
    assert(v@ =~= trace_line(trace));
    let r: String = string_from_ascii(v);
    assert(r@ =~= chars_of(trace_line(trace)));
    r
}

/// The status flags as letters, N V U B D I Z C, upper case when set.
pub open spec fn status_letters(p: u8) -> Seq<u8> {
    seq![
        if p & 0x80u8 != 0 { 'N' as u8 } else { 'n' as u8 },
        if p & 0x40u8 != 0 { 'V' as u8 } else { 'v' as u8 },
        if p & 0x20u8 != 0 { 'U' as u8 } else { 'u' as u8 },
        if p & 0x10u8 != 0 { 'B' as u8 } else { 'b' as u8 },
        if p & 0x08u8 != 0 { 'D' as u8 } else { 'd' as u8 },
        if p & 0x04u8 != 0 { 'I' as u8 } else { 'i' as u8 },
        if p & 0x02u8 != 0 { 'Z' as u8 } else { 'z' as u8 },
        if p & 0x01u8 != 0 { 'C' as u8 } else { 'c' as u8 },
    ]
}

fn push_status_letters(v: &mut Vec<u8>, cpu: &Cpu)
    ensures
        final(v)@ == old(v)@ + status_letters(cpu.status),
        is_ascii(old(v)@) ==> is_ascii(final(v)@),
{
    let letters: [u8; 8] = [
        if cpu.get_status(StatusFlag::Negative) != 0 { 'N' as u8 } else { 'n' as u8 },
        if cpu.get_status(StatusFlag::Overflow) != 0 { 'V' as u8 } else { 'v' as u8 },
        if cpu.get_status(StatusFlag::Unused) != 0 { 'U' as u8 } else { 'u' as u8 },
        if cpu.get_status(StatusFlag::Break) != 0 { 'B' as u8 } else { 'b' as u8 },
        if cpu.get_status(StatusFlag::DecimalMode) != 0 { 'D' as u8 } else { 'd' as u8 },
        if cpu.get_status(StatusFlag::DisableInterrupts) != 0 { 'I' as u8 } else { 'i' as u8 },
        if cpu.get_status(StatusFlag::Zero) != 0 { 'Z' as u8 } else { 'z' as u8 },
        if cpu.get_status(StatusFlag::Carry) != 0 { 'C' as u8 } else { 'c' as u8 },
    ];
    assert(letters@ =~= status_letters(cpu.status));
    push_all(v, &letters);
}

/// A trace line in the second format: the head, then
/// `  A:{:02X} {:08b} X:{:02X} Y:{:02X} SP:{:02X} ` and the status
/// letters; the binary column shows A.
pub open spec fn trace_line2(t: Trace) -> Seq<u8> {
    line_head(t) + seq![' ' as u8, ' ' as u8, 'A' as u8, ':' as u8] + hex2(t.cpu.a) + seq![' ' as u8] + bin8(t.cpu.a)
        + seq![' ' as u8, 'X' as u8, ':' as u8] + hex2(t.cpu.x) + seq![' ' as u8, 'Y' as u8, ':' as u8] + hex2(t.cpu.y)
        + seq![' ' as u8, 'S' as u8, 'P' as u8, ':' as u8] + hex2(t.cpu.s) + seq![' ' as u8] + status_letters(t.cpu.status)
}

/// Formats a trace with the accumulator in binary and the flags as letters.
pub fn print_trace2(trace: Trace) -> (r: String)
    ensures
        r@ == chars_of(trace_line2(trace)),
{
    let cpu: Cpu = trace.cpu;
    let mut v: Vec<u8> = Vec::new();
    push_line_head(&mut v, &trace);
    push_all(&mut v, &[' ' as u8, ' ' as u8, 'A' as u8, ':' as u8]);
    push_hex2(&mut v, cpu.a);
    push_all(&mut v, &[' ' as u8]);
    push_bin8(&mut v, cpu.a);
    push_all(&mut v, &[' ' as u8, 'X' as u8, ':' as u8]);
    push_hex2(&mut v, cpu.x);
    push_all(&mut v, &[' ' as u8, 'Y' as u8, ':' as u8]);
    push_hex2(&mut v, cpu.y);
    push_all(&mut v, &[' ' as u8, 'S' as u8, 'P' as u8, ':' as u8]);
    push_hex2(&mut v, cpu.s);
    push_all(&mut v, &[' ' as u8]);
    push_status_letters(&mut v, &cpu);
    assert(v@ =~= trace_line2(trace));
    let r: String = string_from_ascii(v);
    assert(r@ =~= chars_of(trace_line2(trace)));
    r
}


/// Whether the instruction at `pc` can be traced (see `traceable`).
pub fn traceable_at(mem: &Vec<u8>, pc: u16) -> (r: bool)
    requires
        mem@.len() == 0x10000,
    ensures
        r == traceable(mem@, pc),
{
    let op: Operation = Operation::from_opcode(read(mem, pc));
    let len: u32 = if op.addressing_mode == AddressingMode::IMP || op.addressing_mode == AddressingMode::ACC {
        1
    } else if op.addressing_mode == AddressingMode::ABS || op.addressing_mode == AddressingMode::ABX
        || op.addressing_mode == AddressingMode::ABY || op.addressing_mode == AddressingMode::IND {
        3
    } else {
        2
    };
    if pc as u32 + len > 0xFFFF {
        return false;
    }
    if op.addressing_mode == AddressingMode::REL {
        let offset: u8 = read(mem, pc + 1);
        let target: i32 = if offset >= 128 {
            pc as i32 + 2 + offset as i32 - 256
        } else {
            pc as i32 + 2 + offset as i32
        };
        0 <= target && target <= 0xFFFF
    } else {
        true
    }
}

/// How far the disassembler moves past the instruction at `pc`: one byte,
/// or two after an instruction in the (indirect),Y mode.
pub open spec fn disasm_step(mem: Seq<u8>, pc: u16) -> int {
    if operation_spec(mem[pc as int]).addressing_mode == AddressingMode::IZY { 2 } else { 1 }
}

/// The addresses that the disassembler visits from `pc` while it is below
/// `end`.
pub open spec fn disasm_pcs(mem: Seq<u8>, pc: int, end: int) -> Seq<u16>
    decreases end + 2 - pc,
{
    if pc >= end || pc < 0 || pc > 0xFFFF {
        Seq::empty()
    } else {
        seq![pc as u16] + disasm_pcs(mem, pc + disasm_step(mem, pc as u16), end)
    }
}

/// Whether `d` is the disassembly of the instruction at `pc` in `mem`, for
/// a CPU whose index registers are those of `cpu`.
pub open spec fn disassembly_at(d: DisassembledOperation, mem: Seq<u8>, cpu: Cpu, pc: u16) -> bool {
    let op = operation_spec(mem[pc as int]);
    &&& d.instruction_name@ == chars_of(name_bytes(op.instruction))
    &&& d.params@ == chars_of(operand_text(op.instruction, op.addressing_mode, operand_fields(mem, cpu, pc)))
    &&& d.addr == pc
    &&& d.data@ == mem.subrange(pc as int, pc + mode_len(op.addressing_mode))
    &&& d.undocumented == op.undocumented
}

/// Whether `disassemble` can run from `start` for `length` bytes: the range
/// ends within the address space and every instruction it visits can be
/// traced.
pub fn can_disassemble(mem: &Vec<u8>, start: u16, length: u16) -> (r: bool)
    requires
        mem@.len() == 0x10000,
    ensures
        r == (start + length <= 0xFFFF && forall|i: int|
            0 <= i < disasm_pcs(mem@, start as int, start + length).len() ==> traceable(
                mem@,
                #[trigger] disasm_pcs(mem@, start as int, start + length)[i],
            )),
{
    if start as u32 + length as u32 > 0xFFFF {
        return false;
    }
    let end: u16 = start + length;
    let ghost all: Seq<u16> = disasm_pcs(mem@, start as int, end as int);
    let ghost visited: Seq<u16> = Seq::empty();
    let mut pc: u16 = start;
    assert(all == visited + disasm_pcs(mem@, pc as int, end as int));
    while pc < end
        invariant
            mem@.len() == 0x10000,
            end == start + length,
            all == disasm_pcs(mem@, start as int, end as int),
            all == visited + disasm_pcs(mem@, pc as int, end as int),
            forall|i: int| 0 <= i < visited.len() ==> traceable(mem@, #[trigger] visited[i]),
        decreases end + 2 - pc,
    {
        let ghost rest: Seq<u16> = disasm_pcs(mem@, pc + disasm_step(mem@, pc), end as int);
        assert(disasm_pcs(mem@, pc as int, end as int) == seq![pc] + rest);
        assert(all[visited.len() as int] == pc) by {
            assert((visited + (seq![pc] + rest))[visited.len() as int] == pc);
        }
        if !traceable_at(mem, pc) {
            assert(visited.len() < all.len());
            assert(!traceable(mem@, all[visited.len() as int]));
            assert(!traceable(mem@, disasm_pcs(mem@, start as int, start + length)[visited.len() as int]));
            return false;
        }
        proof {
            assert(visited + (seq![pc] + rest) == visited.push(pc) + rest);
            visited = visited.push(pc);
        }
        let op: Operation = Operation::from_opcode(read(mem, pc));
        if op.addressing_mode == AddressingMode::IZY {
            pc = pc + 2;
        } else {
            pc = pc + 1;
        }
    }
    proof {
        assert(all =~= visited);
    }
    true
}

/// Disassembles the memory from `start` for `length` bytes: an instruction
/// at each visited address, one byte apart, or two after an instruction in
/// the (indirect),Y mode.
pub fn disassemble(mem: &Vec<u8>, cpu: &Cpu, start: u16, length: u16) -> (r: Vec<DisassembledOperation>)
    requires
        mem@.len() == 0x10000,
        start + length <= 0xFFFF,
        forall|i: int|
            0 <= i < disasm_pcs(mem@, start as int, start + length).len() ==> traceable(
                mem@,
                #[trigger] disasm_pcs(mem@, start as int, start + length)[i],
            ),
    ensures
        r@.len() == disasm_pcs(mem@, start as int, start + length).len(),
        forall|i: int|
            0 <= i < r@.len() ==> disassembly_at(
                #[trigger] r@[i],
                mem@,
                *cpu,
                disasm_pcs(mem@, start as int, start + length)[i],
            ),
{
    let ghost all: Seq<u16> = disasm_pcs(mem@, start as int, start + length);
    let ghost visited: Seq<u16> = Seq::empty();
    let end: u16 = start + length;
    let mut output: Vec<DisassembledOperation> = Vec::new();
    let mut pc: u16 = start;
    assert(all == visited + disasm_pcs(mem@, pc as int, end as int));
    while pc < end
        invariant
            mem@.len() == 0x10000,
            end == start + length,
            all == disasm_pcs(mem@, start as int, start + length),
            forall|i: int| 0 <= i < all.len() ==> traceable(mem@, #[trigger] all[i]),
            all == visited + disasm_pcs(mem@, pc as int, end as int),
            output@.len() == visited.len(),
            forall|i: int| 0 <= i < output@.len() ==> disassembly_at(#[trigger] output@[i], mem@, *cpu, visited[i]),
        decreases end + 2 - pc,
    {
        let ghost rest: Seq<u16> = disasm_pcs(mem@, pc + disasm_step(mem@, pc), end as int);
        assert(disasm_pcs(mem@, pc as int, end as int) == seq![pc] + rest);
        assert(all[visited.len() as int] == pc) by {
            assert((visited + (seq![pc] + rest))[visited.len() as int] == pc);
        }
        let t: Trace = trace(mem, cpu, pc);
        let d: DisassembledOperation = DisassembledOperation::from_trace(&t);
        let ghost prev: Seq<DisassembledOperation> = output@;
        output.push(d);
        proof {
            assert(visited + (seq![pc] + rest) == visited.push(pc) + rest);
            visited = visited.push(pc);
            assert forall|i: int| 0 <= i < output@.len() implies disassembly_at(
                #[trigger] output@[i],
                mem@,
                *cpu,
                visited[i],
            ) by {
                if i < prev.len() {
                    assert(output@[i] == prev[i]);
                }
            }
        }
        if t.addressing_mode == AddressingMode::IZY {
            pc = pc + 2;
        } else {
            pc = pc + 1;
        }
    }
    output
}

/// The hex bytes of at most three instruction bytes fit their 8 columns.
proof fn lemma_data_hex_len(d: Seq<u8>)
    requires
        d.len() <= 3,
    ensures
        data_hex(d).len() <= 8,
{
    reveal_with_fuel(data_hex, 3);
}

/// The operand text of any instruction fits its 26 columns.
proof fn lemma_operand_text_len(i: Instruction, m: AddressingMode, f: (u8, u8, u16, u16, u8))
    ensures
        operand_text(i, m, f).len() <= 26,
{
}

/// Every trace line is 73 characters wide, the width of the columns of the
/// nestest log, whatever the instruction: its bytes fit their 8 columns and
/// its operand text its 26.
pub proof fn law_trace_line_width(t: Trace)
    requires
        t.data@.len() <= 3,
    ensures
        trace_line(t).len() == 73,
{
    lemma_data_hex_len(t.data@);
    lemma_operand_text_len(t.instruction, t.addressing_mode, (t.param, t.param_expanded, t.addr, t.addr_abs, t.data_at));
}

/// Tracing shows the operand that the CPU itself uses. For the addressing
/// modes that reach memory (zero page, plain or indexed by X or Y;
/// absolute, plain or indexed by X or Y; indexed indirect and indirect
/// indexed), the traced address is the one that the CPU's addressing
/// computes when it runs the instruction at `pc` on the same memory and
/// registers (in the `addr` field for absolute, in `addr_abs` for the
/// indexed and indirect modes), and the traced data is the byte there.
/// For an indirect jump the traced target is the address that the CPU
/// reads through the pointer, and for a branch the traced target is the
/// CPU's branch target. (Where the CPU's addressing itself cannot run, an absolute,X address
/// past $FFFF, nothing is claimed.)
pub proof fn law_trace_follows_the_cpu(mem: Seq<u8>, cpu: Cpu, pc: u16)
    requires
        mem.len() == 0x10000,
        traceable(mem, pc),
        mode_ok::<Ram>(
            operation_spec(mem[pc as int]).addressing_mode,
            Cpu { pc: (pc + 1) as u16, ..cpu },
            RamView { start: 0, bytes: mem },
        ),
    ensures
        ({
            let mode = operation_spec(mem[pc as int]).addressing_mode;
            let (c2, m2, amr) = address::<Ram>(mode, Cpu { pc: (pc + 1) as u16, ..cpu }, RamView { start: 0, bytes: mem });
            let a = amr.data.addr;
            let (param, param_expanded, addr, addr_abs, data_at) = operand_fields(mem, cpu, pc);
            &&& (mode == AddressingMode::ZP0 || mode == AddressingMode::ZPX || mode == AddressingMode::ZPY
                || mode == AddressingMode::ABS || mode == AddressingMode::ABX || mode == AddressingMode::ABY
                || mode == AddressingMode::IZX || mode == AddressingMode::IZY) ==> data_at == mem[a as int]
            &&& (mode == AddressingMode::ZPX || mode == AddressingMode::ZPY || mode == AddressingMode::ABX || mode
                == AddressingMode::ABY || mode == AddressingMode::IZX || mode == AddressingMode::IZY) ==> addr_abs == a
            &&& mode == AddressingMode::ABS ==> addr == a
            &&& (mode == AddressingMode::IND || mode == AddressingMode::REL) ==> addr_abs == a
        }),
{
    let mode = operation_spec(mem[pc as int]).addressing_mode;
    let c = Cpu { pc: (pc + 1) as u16, ..cpu };
    let m = RamView { start: 0, bytes: mem };
    let (c2, m2, amr) = address::<Ram>(mode, c, m);
    let f = operand_fields(mem, cpu, pc);
    let p1 = mem[pc + 1];
    assert(<Ram as Bus>::peek(m, c.pc) == p1);
    if mode == AddressingMode::ZP0 {
        assert(amr.data.addr == p1 as u16);
    } else if mode == AddressingMode::ZPX {
        assert(cpu.x.wrapping_add(p1) as int == (p1 + cpu.x) % 256);
        assert(amr.data.addr == f.3);
    } else if mode == AddressingMode::ZPY {
        assert(cpu.y.wrapping_add(p1) as int == (p1 + cpu.y) % 256);
        assert(amr.data.addr == f.3);
    } else if mode == AddressingMode::IZX {
        assert(p1.wrapping_add(cpu.x) as int == (p1 + cpu.x) % 256);
        crate::cpu6502::lemma_wrapping_add_next(p1, cpu.x);
        assert(amr.data.addr == f.3);
    } else if mode == AddressingMode::IZY {
        assert(p1.wrapping_add(1) as int == (p1 + 1) % 256);
        assert(amr.data.addr == f.3);
    } else if mode == AddressingMode::REL {
        crate::cpu6502::lemma_sign_bit(p1);
        assert(amr.data.addr == f.3);
    } else if mode == AddressingMode::IND {
        assert(<Ram as Bus>::peek(m, (c.pc + 1) as u16) == mem[pc + 2]);
        crate::cpu6502::lemma_pointer_word(p1, mem[pc + 2]);
        assert(amr.data.addr == f.3);
    } else if mode == AddressingMode::ABS || mode == AddressingMode::ABX || mode == AddressingMode::ABY {
        assert(<Ram as Bus>::peek(m, (c.pc + 1) as u16) == mem[pc + 2]);
        assert(mode == AddressingMode::ABS ==> amr.data.addr == f.2);
        assert(mode != AddressingMode::ABS ==> amr.data.addr == f.3);
    }
}

} // verus!
