use nessers::cart::{Cart, FLAG_HAS_RAM, FLAG_MIRRORING};
use nessers::cpu6502::Cpu;
use nessers::nes::Nes;
use nessers::palette::Palette;
use nessers::trace::{disassemble, print_trace, print_trace2, trace, traceable_at};

fn make_test_nes() -> Nes {
    let mut cart_data = vec![
        0x4E,                                   // N
        0x45,                                   // E
        0x53,                                   // S
        0x1A,                                   // EOF
        0x01,                                   // 1 * 16K PRG
        0x01,                                   // 1 * 8K CHR
        (0x00 | FLAG_MIRRORING | FLAG_HAS_RAM), // Lower nybble of mapper code + Flags
        (0x00 | 0x01),                          // Upper nybble of mapper code + iNES version
        0x00,
        0x00,
        0x00,
        0x00,
        0x00,
        0x00,
        0x00,
        0x00,
    ];
    // Fill PRG with 0x42
    cart_data.resize(16 + 0 + 16 * 1024, 0x42);
    // Fill CHR with 0x43
    cart_data.resize(16 + 0 + 16 * 1024 + 8 * 1024, 0x43);
    let cart = Cart::new(&cart_data).unwrap();
    Nes::new(cart, Palette::new())
}

/// The trace line of the instruction at the program counter.
fn nes_trace(nes: &Nes) -> String {
    let mem = nes.memory();
    assert!(traceable_at(&mem, nes.cpu.pc));
    print_trace(trace(&mem, &nes.cpu, nes.cpu.pc))
}

/// One tick of the console.
fn clock(nes: &mut Nes) {
    assert!(nes.clock());
}

/// Ticks until the CPU has finished an instruction.
fn step(nes: &mut Nes) {
    loop {
        clock(nes);
        if nes.tick % 3 == 1 && nes.cpu.cycles_left == 0 {
            return;
        }
    }
}

fn debug_line_test(prog_data: &Vec<u8>, cpu: Cpu, expected_output: &'static str) {
    let mut nes = make_test_nes();
    nes.cpu = cpu;
    for i in 0..prog_data.len() {
        nes.cpu_write(nes.cpu.pc + (i as u16), prog_data[i]);
    }
    assert_eq!(nes_trace(&nes), expected_output);
}

#[test]
fn nes_test_get_debug_line() {
    debug_line_test(
        &vec![0xF0, 0x04],
        Cpu { pc: 0xC7ED, a: 0x6F, x: 0x00, y: 0x00, status: 0x6F, s: 0xFB, cycles_left: 0 },
        "C7ED  F0 04     BEQ $C7F3                       A:6F X:00 Y:00 P:6F SP:FB",
    );
    debug_line_test(
        &vec![0xA9, 0x70],
        Cpu { pc: 0xD082, a: 0xF5, x: 0x00, y: 0x5F, status: 0x65, s: 0xFB, cycles_left: 0 },
        "D082  A9 70     LDA #$70                        A:F5 X:00 Y:5F P:65 SP:FB",
    );
}

#[test]
fn nes_test_format_trace() {
    let mut nes = make_test_nes();
    nes.cpu_write(100, 0xa2);
    nes.cpu_write(101, 0x01);
    nes.cpu_write(102, 0xca);
    nes.cpu_write(103, 0x88);
    nes.cpu_write(104, 0x00);
    nes.cpu = Cpu::new();
    nes.cpu.pc = 100;
    nes.cpu.a = 1;
    nes.cpu.x = 2;
    nes.cpu.y = 3;

    assert_eq!("0064  A2 01     LDX #$01                        A:01 X:02 Y:03 P:24 SP:FD", nes_trace(&nes));
    step(&mut nes);

    assert_eq!("0066  CA        DEX                             A:01 X:01 Y:03 P:24 SP:FD", nes_trace(&nes));
    step(&mut nes);

    assert_eq!("0067  88        DEY                             A:01 X:00 Y:03 P:26 SP:FD", nes_trace(&nes));
    step(&mut nes);
}

#[test]
fn nes_test_format_mem_access() {
    let mut nes = make_test_nes();
    // ORA ($33), Y
    nes.cpu_write(100, 0x11);
    nes.cpu_write(101, 0x33);
    // data
    nes.cpu_write(0x0033, 00);
    nes.cpu_write(0x0034, 04);
    // target cell
    nes.cpu_write(0x0400, 0xAA);
    nes.cpu = Cpu::new();
    nes.cpu.pc = 100;
    nes.cpu.y = 0;

    assert_eq!("0064  11 33     ORA ($33),Y = 0400 @ 0400 = AA  A:00 X:00 Y:00 P:24 SP:FD", nes_trace(&nes));
}

#[test]
fn nes_ram_is_mirrored_on_the_bus() {
    let mut nes = make_test_nes();
    nes.cpu_write(0x0001, 0x5A);
    assert_eq!(nes.cpu_read(0x0801), 0x5A);
    assert_eq!(nes.cpu_read(0x1801), 0x5A);
    assert_eq!(nes.safe_cpu_read(0x1001), 0x5A);
    nes.cpu_write(0x1FFF, 0x77);
    assert_eq!(nes.safe_cpu_read(0x07FF), 0x77);
}

#[test]
fn nes_cartridge_answers_first() {
    let mut nes = make_test_nes();
    // PRG ROM is filled with 0x42 and mirrored over $8000-$FFFF.
    assert_eq!(nes.cpu_read(0x8000), 0x42);
    assert_eq!(nes.safe_cpu_read(0xFFFF), 0x42);
    assert_eq!(nes.safe_cpu_read16(0xFFFC), 0x4242);
    // Nothing answers at $5000.
    assert_eq!(nes.cpu_read(0x5000), 0x00);
}

#[test]
fn nes_ppu_registers_are_mirrored() {
    let mut nes = make_test_nes();
    // $2006 twice sets the VRAM address; $2007 writes through it.
    nes.cpu_write(0x2006, 0x20);
    nes.cpu_write(0x3FFE, 0x05); // a mirror of $2006
    nes.cpu_write(0x2007, 0x99);
    assert_eq!(nes.ppu.name_tables[5], 0x99);
    assert_eq!(nes.ppu.vram_addr, 0x2006);
    // Reading the status clears the address latch.
    nes.cpu_write(0x2006, 0x20);
    assert!(nes.ppu.address_latch);
    nes.cpu_read(0x200A); // a mirror of $2002
    assert!(!nes.ppu.address_latch);
}

#[test]
fn nes_controller_reads_shift_out_buttons() {
    let mut nes = make_test_nes();
    nes.peripherals.controllers[0].a = true;
    nes.peripherals.controllers[0].start = true;
    nes.cpu_write(0x4016, 1);
    let bits: Vec<u8> = (0..8).map(|_| nes.cpu_read(0x4016)).collect();
    assert_eq!(bits, vec![1, 0, 0, 1, 0, 0, 0, 0]);
}

#[test]
fn nes_oam_dma_copies_a_page() {
    let mut nes = make_test_nes();
    for i in 0..256u16 {
        nes.cpu_write(0x0200 + i, i as u8);
    }
    nes.cpu_write(0x4014, 0x02);
    assert!(nes.dma_active);
    // The CPU waits while the copy runs; give it plenty of ticks.
    for _ in 0..3 * 600 {
        assert!(nes.check_devices());
        nes.clock_devices();
        nes.clock_dma();
        nes.end_clock();
    }
    assert!(!nes.dma_active);
    nes.ppu.oam_addr = 5;
    assert_eq!(nes.ppu.get_oam_data(), 5);
    nes.ppu.oam_addr = 255;
    assert_eq!(nes.ppu.get_oam_data(), 255);
}

#[test]
fn nes_reset_reads_the_reset_vector() {
    let mut nes = make_test_nes();
    nes.reset();
    assert_eq!(nes.cpu.pc, 0x4242);
    assert_eq!(nes.cpu.s, 0xFF);
    assert_eq!(nes.cpu.cycles_left, 8);
}

#[test]
fn nes_disassembles_memory() {
    let mut nes = make_test_nes();
    nes.cpu_write(0x0010, 0xA9); // LDA #$42
    nes.cpu_write(0x0011, 0x42);
    nes.cpu_write(0x0012, 0x11); // ORA ($20),Y
    nes.cpu_write(0x0013, 0x20);
    let mem = nes.memory();
    let ops = disassemble(&mem, &nes.cpu, 0x0010, 4);
    // One byte apart, and two after the (indirect),Y instruction.
    let addrs: Vec<u16> = ops.iter().map(|o| o.addr).collect();
    assert_eq!(addrs, vec![0x0010, 0x0011, 0x0012]);
    assert_eq!(ops[0].instruction_name, "LDA");
    assert_eq!(ops[0].params, "#$42");
    assert_eq!(ops[0].data, vec![0xA9, 0x42]);
    assert_eq!(ops[2].instruction_name, "ORA");
    assert_eq!(ops[2].params, "($20),Y = 0000 @ 0000 = 00");
}

#[test]
fn nes_trace_line_with_status_letters() {
    let mut nes = make_test_nes();
    nes.cpu_write(100, 0xa2);
    nes.cpu_write(101, 0x01);
    nes.cpu = Cpu::new();
    nes.cpu.pc = 100;
    nes.cpu.a = 0x81;
    let mem = nes.memory();
    assert_eq!(
        print_trace2(trace(&mem, &nes.cpu, 100)),
        "0064  A2 01     LDX #$01                        A:81 10000001 X:00 Y:00 SP:FD nvUbdIzc"
    );
}

#[test]
fn nes_clock_refuses_a_tick_that_cannot_run() {
    // The tick counter is full.
    let mut nes = make_test_nes();
    nes.tick = u64::MAX;
    assert!(!nes.clock());
    // LDA $FFFF,X with X = 1 points past $FFFF.
    let mut nes = make_test_nes();
    nes.cpu_write(0x0000, 0xBD);
    nes.cpu_write(0x0001, 0xFF);
    nes.cpu_write(0x0002, 0xFF);
    nes.cpu.pc = 0x0000;
    nes.cpu.x = 1;
    nes.cpu.cycles_left = 0;
    nes.tick = 0;
    assert!(!nes.clock());
    // With X = 0 the same tick runs.
    let mut nes = make_test_nes();
    nes.cpu_write(0x0000, 0xBD);
    nes.cpu_write(0x0001, 0xFF);
    nes.cpu_write(0x0002, 0xFF);
    nes.cpu.pc = 0x0000;
    nes.cpu.x = 0;
    nes.cpu.cycles_left = 0;
    nes.tick = 0;
    assert!(nes.clock());
    assert_eq!(nes.cpu.pc, 0x0003);
    assert_eq!(nes.tick, 1);
}

#[test]
fn nes_stops_at_a_breakpoint_after_the_instruction() {
    let mut nes = make_test_nes();
    nes.cpu.pc = 0x0000; // RAM is zero: BRK, 7 cycles
    nes.cpu.cycles_left = 0;
    nes.tick = 0;
    nes.breakpoints.insert(0x1234);
    assert!(!nes.instruction_done());
    loop {
        assert!(nes.clock());
        if nes.instruction_done() {
            break;
        }
    }
    assert!(!nes.at_breakpoint());
    nes.breakpoints.insert(nes.cpu.pc);
    assert!(nes.at_breakpoint());
}

#[test]
fn nes_frame_stops_at_a_breakpoint_or_a_completed_frame() {
    let mut nes = make_test_nes();
    assert_eq!(nes.frame_stop(), None);
    nes.ppu.frame_complete = true;
    assert_eq!(nes.frame_stop(), Some(false));
    // A breakpoint at an instruction boundary wins over the frame.
    nes.tick = 1;
    nes.cpu.cycles_left = 0;
    nes.breakpoints.insert(nes.cpu.pc);
    assert_eq!(nes.frame_stop(), Some(true));
    // Between instructions a breakpoint does not stop the run.
    nes.cpu.cycles_left = 2;
    assert_eq!(nes.frame_stop(), Some(false));
}

#[test]
fn nes_pc_in_a_list_of_addresses() {
    let mut nes = make_test_nes();
    nes.cpu.pc = 0xC123;
    assert!(nes.pc_in(&vec![0x0000, 0xC123]));
    assert!(!nes.pc_in(&vec![0xC124]));
    assert!(!nes.pc_in(&vec![]));
}

#[test]
fn nes_powers_on_with_a_magenta_screen() {
    let nes = make_test_nes();
    assert_eq!(nes.ppu.screen.len(), 256 * 240);
    assert!(nes.ppu.screen.iter().all(|p| *p == [0xFF, 0x00, 0xFF, 0xFF]));
}
