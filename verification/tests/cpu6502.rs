use nessers::bus::Bus;
use nessers::cpu6502::{Cpu, StatusFlag, PC_INIT_ADDR, STACK_SIZE, STACK_START};
use nessers::processor::Processor;
use nessers::ram::Ram;

const ALL_FLAGS: [StatusFlag; 8] = [
    StatusFlag::Carry,
    StatusFlag::Zero,
    StatusFlag::DisableInterrupts,
    StatusFlag::DecimalMode,
    StatusFlag::Break,
    StatusFlag::Unused,
    StatusFlag::Overflow,
    StatusFlag::Negative,
];

/// A bus where nothing answers: reads give zero and writes are dropped.
fn dummy_bus() -> Ram {
    Ram::new(0x0000, 0)
}

#[test]
fn cpu6502_get_status() {
    let mut cpu = Processor::new(dummy_bus());

    for flag in &ALL_FLAGS {
        assert_eq!(cpu.get_status(*flag), 0b0000);
    }

    for flag in &ALL_FLAGS {
        let flag = *flag;
        cpu.status = flag.bits();
        for other_flag in &ALL_FLAGS {
            let other_flag = *other_flag;
            if flag == other_flag {
                assert_eq!(cpu.get_status(other_flag), flag.bits());
            } else {
                assert_eq!(cpu.get_status(other_flag), 0b0000);
            }
        }
    }
}

#[test]
fn cpu6502_set_status() {
    let mut cpu = Processor::new(dummy_bus());

    for flag in &ALL_FLAGS {
        let flag = *flag;
        assert_eq!(cpu.get_status(flag), 0b0000);
        cpu.set_status(flag, true);
        assert_eq!(cpu.get_status(flag), flag.bits());
        cpu.set_status(flag, false);
        assert_eq!(cpu.get_status(flag), 0b0000);
    }
}

#[test]
fn cpu6502_simple_and() {
    let mut cpu = Processor::new(Ram::new(0x0000, 64 * 1024));
    let program_start: u16 = STACK_START + STACK_SIZE as u16 + 1;

    cpu.bus.write16(PC_INIT_ADDR, program_start);

    cpu.bus.write(program_start, 0x29); // AND - Immediate
    cpu.bus.write(program_start + 1, 0x02); //   2

    cpu.sig_reset();
    cpu.step();

    cpu.a = 0x01;
    assert_eq!(cpu.a, 0x01);
    assert_eq!(cpu.get_status(StatusFlag::Zero), 0x00);

    cpu.step();

    // Our accumulator should be 0 now:
    assert_eq!(cpu.a, 0x00);
    assert_eq!(cpu.get_status(StatusFlag::Zero), StatusFlag::Zero.bits());
}

#[test]
fn cpu6502_simple_ora() {
    let mut ram = Ram::new(0x0000, 64 * 1024);
    let program_start: u16 = STACK_START + STACK_SIZE as u16 + 1;

    ram.write16(PC_INIT_ADDR, program_start);

    ram.buf[program_start as usize] = 0x09; // ORA - Immediate
    ram.buf[program_start as usize + 1] = 0x02; //   2

    let mut cpu = Processor::new(ram);
    cpu.sig_reset();
    cpu.step();

    cpu.a = 0x01;
    assert_eq!(cpu.a, 0x01);
    assert_eq!(cpu.get_status(StatusFlag::Zero), 0x00);

    cpu.step();

    // Our accumulator should be 3 now:
    assert_eq!(cpu.a, 0x03);
    assert_eq!(cpu.get_status(StatusFlag::Zero), 0x00);
}

#[test]
fn cpu6502_simple_eor() {
    let mut ram = Ram::new(0x0000, 64 * 1024);
    let program_start: u16 = STACK_START + STACK_SIZE as u16 + 1;

    ram.write16(PC_INIT_ADDR, program_start);

    ram.buf[program_start as usize + 0] = 0x49; // EOR - Immediate
    ram.buf[program_start as usize + 1] = 0x02; //   2

    ram.buf[program_start as usize + 2] = 0x49; // EOR - Immediate
    ram.buf[program_start as usize + 3] = 0x02; //   2

    let mut cpu = Processor::new(ram);
    cpu.sig_reset();
    cpu.step();

    cpu.a = 0x01;
    assert_eq!(cpu.a, 0x01);
    assert_eq!(cpu.get_status(StatusFlag::Zero), 0x00);

    cpu.step();

    // Our accumulator should be 3 now:
    assert_eq!(cpu.a, 0x03);
    assert_eq!(cpu.get_status(StatusFlag::Zero), 0x00);

    cpu.step();

    //  0b00000011
    // ^0b00000010
    // =0b00000001
    assert_eq!(cpu.a, 0x01);
    assert_eq!(cpu.get_status(StatusFlag::Zero), 0x00);
}

struct Case {
    // inputs:
    a: u8,
    m: u8,
    // expected outputs:
    r: u8,
    c: bool, // carry bit
    v: bool, // overflow bit
    z: bool, // zero bit
    n: bool, // negative bit
}

fn case(a: u8, m: u8, r: u8, c: bool, v: bool, z: bool, n: bool) -> Case {
    Case { a, m, r, c, v, z, n }
}

/// Runs `opcode #m` with the accumulator set to `a` on a processor that has
/// just been reset.
fn run_immediate(opcode: u8, test: &Case) -> Processor<Ram> {
    let program_start: u16 = STACK_START + STACK_SIZE as u16 + 1;
    let mut cpu = Processor::new(Ram::new(0x0000, 64 * 1024));
    cpu.bus.write16(PC_INIT_ADDR, program_start);
    let program: Vec<u8> = vec![opcode, test.m];
    let mut offset: u16 = 0;
    for byte in program {
        cpu.bus.write(program_start + offset, byte);
        offset += 1;
    }
    cpu.sig_reset();
    cpu.step();
    cpu.a = test.a;
    cpu.step();
    cpu
}

fn check(cpu: &Processor<Ram>, test: &Case) {
    // The result should be stored into cpu.a:
    assert_eq!(cpu.a, test.r);
    assert_eq!(cpu.get_status(StatusFlag::Carry) != 0, test.c);
    assert_eq!(cpu.get_status(StatusFlag::Overflow) != 0, test.v);
    assert_eq!(cpu.get_status(StatusFlag::Zero) != 0, test.z);
    assert_eq!(cpu.get_status(StatusFlag::Negative) != 0, test.n);
}

#[test]
fn cpu6502_adc_overflow() {
    // http://www.righto.com/2012/12/the-6502-overflow-flag-explained.html
    let tests: Vec<Case> = vec![
        case(0x50, 0x10, 0x60, false, false, false, false),
        case(0x50, 0x50, 0xA0, false, true, false, true),
        case(0x50, 0x90, 0xE0, false, false, false, true),
        case(0x50, 0xD0, 0x20, true, false, false, false),
        case(0xD0, 0x10, 0xE0, false, false, false, true),
        case(0xD0, 0x50, 0x20, true, false, false, false),
        case(0xD0, 0x90, 0x60, true, true, false, false),
        case(0xD0, 0xD0, 0xA0, true, false, false, true),
    ];
    for test in tests {
        let cpu = run_immediate(0x69, &test);
        check(&cpu, &test);
    }
}

#[test]
fn cpu6502_sbc_overflow() {
    // http://www.righto.com/2012/12/the-6502-overflow-flag-explained.html
    let tests: Vec<Case> = vec![
        case(0x50, 0xF0, 0x60, false, false, false, false),
        case(0x50, 0xB0, 0xA0, false, true, false, true),
        case(0x50, 0x70, 0xE0, false, false, false, true),
        case(0x50, 0x30, 0x20, true, false, false, false),
        case(0xD0, 0xF0, 0xE0, false, false, false, true),
        case(0xD0, 0xB0, 0x20, true, false, false, false),
        case(0xD0, 0x70, 0x60, true, true, false, false),
        case(0xD0, 0x30, 0xA0, true, false, false, true),
    ];
    for test in tests {
        let cpu = run_immediate(0xE9, &test);
        check(&cpu, &test);
    }
}

// The cycle-counting `Cpu`, whose bus is passed to each call.

#[test]
fn cpu_status_after_power_on() {
    let mut cpu = Cpu::new();
    assert_eq!(cpu.get_status(StatusFlag::Carry), 0b0000_0000);
    assert_eq!(cpu.get_status(StatusFlag::Zero), 0b0000_0000);
    assert_eq!(cpu.get_status(StatusFlag::DisableInterrupts), 0b0000_0100);
    assert_eq!(cpu.get_status(StatusFlag::DecimalMode), 0b0000_0000);
    assert_eq!(cpu.get_status(StatusFlag::Break), 0b0000_0000);
    assert_eq!(cpu.get_status(StatusFlag::Unused), 0b0010_0000);
    assert_eq!(cpu.get_status(StatusFlag::Overflow), 0b0000_0000);
    assert_eq!(cpu.get_status(StatusFlag::Negative), 0b0000_0000);
    for flag in &ALL_FLAGS {
        let flag = *flag;
        cpu.status = flag.bits();
        for other_flag in &ALL_FLAGS {
            let expected = if flag == *other_flag { flag.bits() } else { 0 };
            assert_eq!(cpu.get_status(*other_flag), expected);
        }
    }
}

fn cpu_with_program(program: &[u8]) -> (Cpu, Ram) {
    let mut bus = Ram::new(0x0000, 64 * 1024);
    let program_start: u16 = 0x8000;
    bus.write16(PC_INIT_ADDR, program_start);
    for (i, byte) in program.iter().enumerate() {
        bus.write(program_start + i as u16, *byte);
    }
    let mut cpu = Cpu::new();
    cpu.sig_reset(&mut bus);
    cpu.step(&mut bus);
    (cpu, bus)
}

#[test]
fn cpu_simple_and_ora_eor() {
    let (mut cpu, mut bus) = cpu_with_program(&[0x29, 0x02, 0x09, 0x02, 0x49, 0x03]);
    cpu.a = 0x01;
    cpu.step(&mut bus);
    assert_eq!(cpu.a, 0x00);
    assert_eq!(cpu.get_status(StatusFlag::Zero), StatusFlag::Zero.bits());
    cpu.step(&mut bus);
    assert_eq!(cpu.a, 0x02);
    assert_eq!(cpu.get_status(StatusFlag::Zero), 0);
    cpu.step(&mut bus);
    assert_eq!(cpu.a, 0x01);
}

#[test]
fn cpu_adc_overflow() {
    let tests: Vec<Case> = vec![
        case(0x50, 0x10, 0x60, false, false, false, false),
        case(0x50, 0x50, 0xA0, false, true, false, true),
        case(0x50, 0x90, 0xE0, false, false, false, true),
        case(0x50, 0xD0, 0x20, true, false, false, false),
        case(0xD0, 0x10, 0xE0, false, false, false, true),
        case(0xD0, 0x50, 0x20, true, false, false, false),
        case(0xD0, 0x90, 0x60, true, true, false, false),
        case(0xD0, 0xD0, 0xA0, true, false, false, true),
    ];
    for test in tests {
        let (mut cpu, mut bus) = cpu_with_program(&[0x69, test.m]);
        cpu.a = test.a;
        cpu.step(&mut bus);
        assert_eq!(cpu.a, test.r);
        assert_eq!(cpu.get_status(StatusFlag::Carry) != 0, test.c);
        assert_eq!(cpu.get_status(StatusFlag::Overflow) != 0, test.v);
        assert_eq!(cpu.get_status(StatusFlag::Zero) != 0, test.z);
        assert_eq!(cpu.get_status(StatusFlag::Negative) != 0, test.n);
    }
}

#[test]
fn cpu_sbc_borrows_without_carry() {
    // With the carry clear, SBC takes one more: 0x50 - 0x10 - 1 = 0x3F.
    let (mut cpu, mut bus) = cpu_with_program(&[0xE9, 0x10]);
    cpu.a = 0x50;
    cpu.step(&mut bus);
    assert_eq!(cpu.a, 0x3F);
    assert_ne!(cpu.get_status(StatusFlag::Carry), 0);
}

#[test]
fn cpu_jsr_and_rts_return_after_the_call() {
    // JSR $8010; at $8010: RTS
    let mut program = vec![0x20, 0x10, 0x80];
    program.resize(0x10, 0xEA);
    program.push(0x60);
    let (mut cpu, mut bus) = cpu_with_program(&program);
    cpu.step(&mut bus);
    assert_eq!(cpu.pc, 0x8010);
    assert_eq!(cpu.s, STACK_SIZE - 2);
    cpu.step(&mut bus);
    assert_eq!(cpu.pc, 0x8003);
    assert_eq!(cpu.s, STACK_SIZE);
}

#[test]
fn cpu_branch_backwards() {
    // LDX #$02; DEX; BNE -3 (back to DEX)
    let (mut cpu, mut bus) = cpu_with_program(&[0xA2, 0x02, 0xCA, 0xD0, 0xFD]);
    cpu.step(&mut bus);
    assert_eq!(cpu.x, 2);
    cpu.step(&mut bus);
    assert_eq!(cpu.x, 1);
    cpu.step(&mut bus);
    assert_eq!(cpu.pc, 0x8002);
    cpu.step(&mut bus);
    assert_eq!(cpu.x, 0);
    cpu.step(&mut bus);
    assert_eq!(cpu.pc, 0x8005);
}

#[test]
fn cpu_try_clock_refuses_what_would_overflow() {
    // LDA $FFFF,X with X = 1 points past $FFFF.
    let (mut cpu, mut bus) = cpu_with_program(&[0xBD, 0xFF, 0xFF]);
    cpu.x = 1;
    assert!(!cpu.try_clock(&mut bus));
    // With X = 0 it runs as `clock` runs it.
    let (mut cpu, mut bus) = cpu_with_program(&[0xBD, 0xFF, 0xFF]);
    bus.write(0xFFFF, 0x5A);
    cpu.x = 0;
    let cycles = cpu.cycles_left;
    assert_eq!(cycles, 0);
    assert!(cpu.try_clock(&mut bus));
    assert_eq!(cpu.a, 0x5A);
    assert_eq!(cpu.pc, 0x8003);
    assert_eq!(cpu.cycles_left, 3);
    // RTS to $FFFF would return to $10000.
    let (mut cpu, mut bus) = cpu_with_program(&[0x60]);
    bus.write(0x01FE, 0xFF);
    bus.write(0x01FF, 0xFF);
    cpu.s = 0xFD;
    assert!(!cpu.try_clock(&mut bus));
    // Mid-instruction, a clock only uses up a cycle.
    let (mut cpu, mut bus) = cpu_with_program(&[0xEA]);
    cpu.cycles_left = 2;
    assert!(cpu.try_clock(&mut bus));
    assert_eq!(cpu.cycles_left, 1);
    assert_eq!(cpu.pc, 0x8000);
}

#[test]
fn cpu_irq_is_masked_by_disable_interrupts() {
    let mut bus = Ram::new(0x0000, 64 * 1024);
    bus.write16(0xFFFE, 0x1234);
    assert_eq!(bus.read16(0xFFFE), 0x1234);
    let mut cpu = Cpu::new();
    cpu.pc = 0x8042;
    cpu.s = 0xFD;
    // The flag set: the request is ignored.
    cpu.status = StatusFlag::DisableInterrupts.bits() | StatusFlag::Unused.bits();
    cpu.sig_irq(&mut bus);
    assert_eq!(cpu.pc, 0x8042);
    assert_eq!(cpu.s, 0xFD);
    // The flag clear: the program counter and the status are pushed and
    // the IRQ vector is taken.
    cpu.status = StatusFlag::Unused.bits();
    cpu.sig_irq(&mut bus);
    assert_eq!(cpu.pc, 0x1234);
    assert_eq!(cpu.s, 0xFA);
    assert_eq!(bus.read(0x01FD), 0x80);
    assert_eq!(bus.read(0x01FC), 0x42);
    assert_ne!(cpu.get_status(StatusFlag::DisableInterrupts), 0);
    assert_eq!(cpu.cycles_left, 7);
}

#[test]
fn cpu_dcp_compares_with_the_decremented_byte() {
    // DCP $10 with A = 5 and the byte 6: the byte becomes 5, A == 5.
    let (mut cpu, mut bus) = cpu_with_program(&[0xC7, 0x10]);
    bus.write(0x0010, 6);
    cpu.a = 5;
    cpu.step(&mut bus);
    assert_eq!(bus.read(0x0010), 5);
    assert_ne!(cpu.get_status(StatusFlag::Carry), 0);
    assert_ne!(cpu.get_status(StatusFlag::Zero), 0);
}

#[test]
fn cpu_rla_flags_describe_the_accumulator() {
    // RLA $10 with the carry clear: the byte 0x40 becomes 0x80, and
    // A = 0x0F & 0x80 = 0, so Zero is set and Negative is clear.
    let (mut cpu, mut bus) = cpu_with_program(&[0x27, 0x10]);
    bus.write(0x0010, 0x40);
    cpu.a = 0x0F;
    cpu.status = StatusFlag::Unused.bits();
    cpu.step(&mut bus);
    assert_eq!(bus.read(0x0010), 0x80);
    assert_eq!(cpu.a, 0x00);
    assert_ne!(cpu.get_status(StatusFlag::Zero), 0);
    assert_eq!(cpu.get_status(StatusFlag::Negative), 0);
}

#[test]
fn bus_write16_is_undone_by_read16() {
    let mut bus = Ram::new(0x0000, 64 * 1024);
    bus.write16(0x0200, 0xBEEF);
    assert_eq!(bus.read(0x0200), 0xEF);
    assert_eq!(bus.read(0x0201), 0xBE);
    assert_eq!(bus.read16(0x0200), 0xBEEF);
}

#[test]
fn cpu_nmi_pushes_the_return_address_and_status() {
    let mut bus = Ram::new(0x0000, 64 * 1024);
    bus.write16(0xFFFA, 0x9000);
    let mut cpu = Cpu::new();
    cpu.pc = 0xC123;
    cpu.s = 0xFD;
    cpu.status = StatusFlag::Break.bits() | StatusFlag::Carry.bits();
    cpu.sig_nmi(&mut bus);
    assert_eq!(bus.read(0x01FD), 0xC1);
    assert_eq!(bus.read(0x01FC), 0x23);
    assert_eq!(bus.read(0x01FB), 0x25); // carry, unused, interrupt disable
    assert_eq!(cpu.status, 0x25);
    assert_eq!(cpu.s, 0xFA);
    assert_eq!(cpu.pc, 0x9000);
    assert_eq!(cpu.cycles_left, 8);
}

#[test]
fn processor_nmi_pushes_the_return_address_and_status() {
    let mut cpu = Processor::new(Ram::new(0x0000, 64 * 1024));
    cpu.bus.write16(0xFFFA, 0x9000);
    cpu.pc = 0xC123;
    cpu.s = 0xFD;
    cpu.status = StatusFlag::Break.bits() | StatusFlag::Carry.bits();
    cpu.sig_nmi();
    assert_eq!(cpu.bus.read(0x01FD), 0xC1);
    assert_eq!(cpu.bus.read(0x01FC), 0x23);
    assert_eq!(cpu.bus.read(0x01FB), 0x25);
    assert_eq!(cpu.status, 0x25);
    assert_eq!(cpu.get_status(StatusFlag::Break), 0);
    assert_eq!(cpu.s, 0xFA);
    assert_eq!(cpu.pc, 0x9000);
    assert_eq!(cpu.cycles_left, 8);
}
