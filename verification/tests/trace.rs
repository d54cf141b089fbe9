use nessers::bus::Bus;
use nessers::cart::Cart;
use nessers::debugger::{listing_window, search_pattern};
use nessers::cpu6502::{AddressingMode, Cpu, Instruction, PC_INIT_ADDR};
use nessers::mirror::Mirror;
use nessers::palette::{addr_to_palette_map_index, Palette};
use nessers::ppu::Ppu;
use nessers::ram::Ram;
use nessers::text::{pad_to, push_bin8, push_dec, push_hex2, push_hex4, string_from_ascii};
use nessers::trace::{can_disassemble, print_trace, print_trace2, DisassembledOperation, Trace};

fn izy_trace() -> Trace {
    let mut cpu = Cpu::new();
    cpu.pc = 0x0064;
    Trace {
        cpu,
        instruction: Instruction::ORA,
        addressing_mode: AddressingMode::IZY,
        undocumented: false,
        data: vec![0x11, 0x33],
        param: 0x33,
        param_expanded: 0,
        addr: 0x0400,
        addr_abs: 0x0400,
        data_at: 0xAA,
    }
}

#[test]
fn trace_line_is_seventy_three_columns() {
    // The (indirect),Y operand text fills all of its 26 columns.
    let line = print_trace(izy_trace());
    assert_eq!(line, "0064  11 33     ORA ($33),Y = 0400 @ 0400 = AA  A:00 X:00 Y:00 P:24 SP:FD");
    assert_eq!(line.len(), 73);
    let mut t = izy_trace();
    t.addressing_mode = AddressingMode::IMP;
    t.instruction = Instruction::NOP;
    t.undocumented = true;
    t.data = vec![0x1A];
    let line = print_trace(t);
    assert_eq!(line, "0064  1A       *NOP                             A:00 X:00 Y:00 P:24 SP:FD");
    assert_eq!(line.len(), 73);
}

#[test]
fn trace_absolute_operands() {
    let mut t = izy_trace();
    t.instruction = Instruction::STA;
    t.addressing_mode = AddressingMode::ABS;
    t.data = vec![0x8D, 0x00, 0x03];
    t.addr = 0x0300;
    t.data_at = 0xEF;
    assert_eq!(print_trace(t), "0064  8D 00 03  STA $0300 = EF                  A:00 X:00 Y:00 P:24 SP:FD");
    let mut t = izy_trace();
    t.instruction = Instruction::JMP;
    t.addressing_mode = AddressingMode::ABS;
    t.data = vec![0x4C, 0xF5, 0xC5];
    t.addr = 0xC5F5;
    assert_eq!(print_trace(t), "0064  4C F5 C5  JMP $C5F5                       A:00 X:00 Y:00 P:24 SP:FD");
}

#[test]
fn trace_zero_page_indexed_operand() {
    let mut t = izy_trace();
    t.instruction = Instruction::LDA;
    t.addressing_mode = AddressingMode::ZPX;
    t.data = vec![0xB5, 0x10];
    t.param = 0x10;
    t.addr_abs = 0x0015;
    t.data_at = 0x07;
    let d = DisassembledOperation::from_trace(&t);
    assert_eq!(d.instruction_name, "LDA");
    assert_eq!(d.params, "$10,X @ 15 = 07");
    assert_eq!(d.addr, 0x0064);
    assert_eq!(d.data, vec![0xB5, 0x10]);
    assert!(!d.undocumented);
}

#[test]
fn trace_second_format_shows_flags() {
    let mut t = izy_trace();
    t.cpu.status = 0xFF;
    t.cpu.a = 0x05;
    assert_eq!(
        print_trace2(t),
        "0064  11 33     ORA ($33),Y = 0400 @ 0400 = AA  A:05 00000101 X:00 Y:00 SP:FD NVUBDIZC"
    );
}

#[test]
fn text_helpers_format_numbers() {
    let mut v: Vec<u8> = Vec::new();
    push_hex2(&mut v, 0x0A);
    push_hex4(&mut v, 0xBEEF);
    push_bin8(&mut v, 0b1010_0001);
    push_dec(&mut v, 7, 2);
    push_dec(&mut v, 42, 3);
    let start = v.len();
    v.push(b'x');
    pad_to(&mut v, start, 4);
    assert_eq!(string_from_ascii(v), "0ABEEF1010000107042x   ");
}

#[test]
fn oam_trace_lists_every_sprite() {
    let mut ppu = Ppu::new(Palette::new());
    ppu.oam[1].tile_id = 0xAB;
    ppu.oam[1].x = 7;
    ppu.oam[1].y = 200;
    ppu.oam[1].attribute = 0x41;
    let listing = ppu.oam_trace();
    let lines: Vec<&str> = listing.lines().collect();
    assert_eq!(lines.len(), 64);
    assert_eq!(lines[0], "00 00 000,000 00");
    assert_eq!(lines[1], "01 AB 007,200 41");
    assert_eq!(lines[63], "63 00 000,000 00");
}

#[test]
fn palette_file_must_hold_64_colors() {
    assert_eq!(Palette::from_bytes(&vec![0; 10]).err(), Some("File had size other than 192 (3 * 64) bytes"));
    let bytes: Vec<u8> = (0..192).map(|i| i as u8).collect();
    let p = Palette::from_bytes(&bytes).unwrap();
    assert_eq!((p.colors[1].r, p.colors[1].g, p.colors[1].b), (3, 4, 5));
    assert_eq!((p.colors[63].r, p.colors[63].g, p.colors[63].b), (189, 190, 191));
}

#[test]
fn palette_backdrop_entries_are_shared() {
    assert_eq!(addr_to_palette_map_index(0x3F10), addr_to_palette_map_index(0x3F00));
    assert_eq!(addr_to_palette_map_index(0x3F14), addr_to_palette_map_index(0x3F04));
    assert_eq!(addr_to_palette_map_index(0x3F1C), addr_to_palette_map_index(0x3F0C));
    assert_ne!(addr_to_palette_map_index(0x3F11), addr_to_palette_map_index(0x3F01));
    assert_eq!(addr_to_palette_map_index(0x3F25), addr_to_palette_map_index(0x3F05));
}

#[test]
fn ram_reads_back_what_was_written() {
    let mut ram = Ram::new(0, 0x0800);
    Bus::write(&mut ram, 0x0123, 0x5A);
    assert_eq!(Bus::read(&mut ram, 0x0123), 0x5A);
    assert_eq!(Bus::read(&mut ram, 0x0124), 0x00);
}

#[test]
fn mirror_aliases_reach_one_byte() {
    let mut ram = Ram::new(0, 0x0800);
    let mut mirror = Mirror::new(0, 0x2000);
    let mut cart = Cart::new(&{
        let mut d = vec![0x4E, 0x45, 0x53, 0x1A, 0x01, 0x01, 0x00, 0x00];
        d.resize(16 + 16 * 1024 + 8 * 1024, 0);
        d
    })
    .unwrap();
    mirror.write(&mut ram, 0x1805, 0x66, &mut cart);
    assert_eq!(mirror.read(&mut ram, 0x0005, &cart), Some(0x66));
    assert_eq!(mirror.read(&mut ram, 0x0805, &cart), Some(0x66));
}

#[test]
fn stack_gives_back_what_was_pushed() {
    // LDA #$42, PHA, LDA #$00, PLA
    let mut bus = Ram::new(0x0000, 64 * 1024);
    bus.write16(PC_INIT_ADDR, 0x8000);
    for (i, byte) in [0xA9u8, 0x42, 0x48, 0xA9, 0x00, 0x68].iter().enumerate() {
        Bus::write(&mut bus, 0x8000 + i as u16, *byte);
    }
    let mut cpu = Cpu::new();
    cpu.sig_reset(&mut bus);
    cpu.step(&mut bus);
    let s = cpu.s;
    cpu.step(&mut bus);
    cpu.step(&mut bus);
    assert_eq!(cpu.s, s.wrapping_sub(1));
    cpu.step(&mut bus);
    assert_eq!(cpu.a, 0x00);
    cpu.step(&mut bus);
    assert_eq!(cpu.a, 0x42);
    assert_eq!(cpu.s, s);
}

#[test]
fn debugger_search_pattern_packs_hex_digits() {
    let chars: Vec<char> = "a9 4".chars().collect();
    assert_eq!(search_pattern(&chars), Some(vec![0xA9, 0x40]));
    let chars: Vec<char> = "DEADbeef".chars().collect();
    assert_eq!(search_pattern(&chars), Some(vec![0xDE, 0xAD, 0xBE, 0xEF]));
    let chars: Vec<char> = "xyz ".chars().collect();
    assert_eq!(search_pattern(&chars), None);
    assert_eq!(search_pattern(&Vec::new()), None);
}

#[test]
fn debugger_listing_window_clamps() {
    assert_eq!(listing_window(3, 100), (0, 32));
    assert_eq!(listing_window(20, 100), (12, 44));
    assert_eq!(listing_window(90, 100), (82, 100));
    assert_eq!(listing_window(200, 100), (100, 100));
}

#[test]
fn can_disassemble_checks_the_range() {
    let mut mem = vec![0xEAu8; 0x10000];
    assert!(can_disassemble(&mem, 0x0000, 0x0100));
    assert!(!can_disassemble(&mem, 0xFF80, 0x0100));
    // A branch back from $0000 leaves the address space.
    mem[0x0000] = 0xD0; // BNE
    mem[0x0001] = 0x80;
    assert!(!can_disassemble(&mem, 0x0000, 0x0010));
    // Starting on its operand, the branch is never visited.
    assert!(can_disassemble(&mem, 0x0001, 0x0010));
}

#[test]
fn cart_can_load_checks_the_file() {
    assert!(!Cart::can_load(&vec![0x4E, 0x45]));
    // Not iNES: `new` answers with an error.
    assert!(Cart::can_load(&vec![0; 40]));
    let mut d = vec![0x4E, 0x45, 0x53, 0x1A, 0x01, 0x00, 0x00, 0x00];
    d.resize(16, 0);
    // The header announces 16K of PRG that the file does not hold.
    assert!(!Cart::can_load(&d));
    d.resize(16 + 16 * 1024, 0);
    assert!(Cart::can_load(&d));
    // Mapper 5 is not implemented.
    d[6] = 0x50;
    assert!(!Cart::can_load(&d));
}
