use nessers::bus_device::BusDevice;
use nessers::cart::{Cart, Mirroring, FLAG_HAS_RAM, FLAG_MIRRORING};
use nessers::mapper::m001::M001;
use nessers::mapper::m004::M004;
use nessers::mapper::m069::M069;
use nessers::mapper::Mapper;
use nessers::mirror::Mirror;
use nessers::peripherals::{controller_to_byte, Controller, Peripherals};
use nessers::ram::Ram;

/// An iNES image with one 16K PRG bank of 0x42 and one 8K CHR bank of 0x43.
fn nrom_image(mapper_lo: u8, mapper_hi: u8) -> Vec<u8> {
    let mut data = vec![
        0x4E,
        0x45,
        0x53,
        0x1A,
        0x01,
        0x01,
        (mapper_lo | FLAG_MIRRORING | FLAG_HAS_RAM),
        (mapper_hi | 0x01),
        0x00,
        0x00,
        0x00,
        0x00,
        0x00,
        0x00,
        0x00,
        0x00,
    ];
    data.resize(16 + 16 * 1024, 0x42);
    data.resize(16 + 16 * 1024 + 8 * 1024, 0x43);
    data
}

#[test]
fn cart_header_invalid() {
    match Cart::new(&vec![0x00; 40 * 1024]) {
        Ok(_) => panic!("Expected cart with all zeroes to fail header parsing"),
        Err(msg) => assert_eq!(msg, "Does not appear to be in the iNES format"),
    }
}

#[test]
fn cart_header_valid() {
    match Cart::new(&nrom_image(0x10, 0x10)) {
        Ok(cart) => {
            assert_eq!(cart.cpu_mapper.prg, vec![0x42; 16 * 1024]);
            assert_eq!(cart.ppu_mapper.chr, vec![0x43; 8 * 1024]);
            assert_eq!(cart.mirroring, Mirroring::Vertical);
            assert_eq!(cart.has_ram, true);
            assert_eq!(cart.has_trainer, false);
            assert_eq!(cart.mapper_code, 0x11);
        }
        Err(msg) => {
            panic!("Should have successfully parsed header, but failed with message:\n\"{}\"", msg);
        }
    }
}

#[test]
fn cart_header_too_short() {
    let data = vec![0x4E, 0x45, 0x53, 0x1A, 0x01];
    assert_eq!(Cart::new(&data).err(), Some("Too small to contain header"));
}

#[test]
fn cart_rom_too_short() {
    let mut data = nrom_image(0x00, 0x00);
    data.truncate(16 + 16 * 1024 + 100);
    assert_eq!(Cart::new(&data).err(), Some("File is too small to contain ROM data"));
}

#[test]
fn cart_without_chr_gets_8k_of_chr_ram() {
    let mut data = nrom_image(0x00, 0x00);
    data[5] = 0;
    data.truncate(16 + 16 * 1024);
    let cart = Cart::new(&data).unwrap();
    assert_eq!(cart.ppu_mapper.chr, vec![0x00; 8 * 1024]);
}

#[test]
fn cart_nrom_mirrors_16k_of_prg() {
    let mut data = nrom_image(0x00, 0x00);
    data[16] = 0x11;
    data[16 + 0x3FFF] = 0x22;
    let mut cart = Cart::new(&data).unwrap();
    assert_eq!(cart.mapper_code, 0);
    assert_eq!(cart.cpu_read(0x8000), Some(0x11));
    assert_eq!(cart.cpu_read(0xC000), Some(0x11));
    assert_eq!(cart.cpu_read(0xFFFF), Some(0x22));
    assert_eq!(cart.safe_cpu_read(0xBFFF), Some(0x22));
    assert_eq!(cart.cpu_read(0x6000), None);
    assert_eq!(cart.ppu_read(0x0000), Some(0x43));
    assert_eq!(cart.ppu_read(0x2000), None);
    assert_eq!(cart.mirroring(), Mirroring::Vertical);
    assert!(cart.can_cpu_read(0x8000));
}

#[test]
fn cart_write_lands_in_rom() {
    let mut cart = Cart::new(&nrom_image(0x00, 0x00)).unwrap();
    assert_eq!(cart.cpu_write(0x8001, 0x99), Some(()));
    assert_eq!(cart.cpu_read(0xC001), Some(0x99));
    assert_eq!(cart.cpu_write(0x4000, 0x99), None);
    assert_eq!(cart.ppu_write(0x0005, 0x77), Some(()));
    assert_eq!(cart.ppu_read(0x0005), Some(0x77));
}

#[test]
fn m001_five_serial_writes_load_a_register() {
    let mut m = M001::new(8);
    // 0b10110 into PRG bank ($E000), low bit first.
    for bit in [0u8, 1, 1, 0, 1] {
        m.cpu_write(0xE000, bit);
    }
    assert_eq!(m.prg_bank, 0b10110);
    assert_eq!(m.load, 0b1000_0000);
    // Bit 7 resets the shift register and fixes the last bank at $C000.
    m.cpu_write(0x8000, 1);
    m.cpu_write(0x8000, 0x80);
    assert_eq!(m.load, 0b1000_0000);
    assert_eq!(m.control & 0x0C, 0x0C);
}

#[test]
fn m001_mirroring_follows_control() {
    let mut m = M001::new(2);
    assert_eq!(m.mirroring(), Some(Mirroring::OneScreenLo));
    for bit in [1u8, 1, 0, 0, 0] {
        m.cpu_write(0x8000, bit);
    }
    assert_eq!(m.control, 0b00011);
    assert_eq!(m.mirroring(), Some(Mirroring::Horizontal));
}

#[test]
fn m004_scanline_counter_raises_interrupt() {
    let mut m = M004::new(4);
    m.cpu_write(0xC000, 2); // reload value
    m.cpu_write(0xE001, 0); // enable
    m.scanline_complete(); // 0 -> reload 2
    assert!(!m.irq_active());
    m.scanline_complete(); // 1
    assert!(!m.irq_active());
    m.scanline_complete(); // 0: interrupt
    assert!(m.irq_active());
    m.irq_clear();
    assert!(!m.irq_active());
}

#[test]
fn m004_bank_select_and_data() {
    let mut m = M004::new(4);
    m.reset();
    m.cpu_write(0x8000, 0x06); // select R6, $8000 swappable
    m.cpu_write(0x8001, 0x03); // R6 = 3
    assert_eq!(m.safe_cpu_read(0x8000), nessers::mapper::MappedRead::RAddr(3 * 8192));
    assert_eq!(m.safe_cpu_read(0xE000), nessers::mapper::MappedRead::RAddr(7 * 8192));
    assert_eq!(m.safe_cpu_read(0xC000), nessers::mapper::MappedRead::RAddr(6 * 8192));
}

#[test]
fn mirror_ram_mirror() {
    let mut cart = Cart::new(&nrom_image(0x00, 0x00)).unwrap();
    let mut ram = Ram::new(0x0000, 32 * 1024);
    let mut mirror = Mirror::new(0x0000, 2 * 32 * 1024);
    mirror.write(&mut ram, 0x0000, 42, &mut cart);
    assert_eq!(mirror.read(&mut ram, 0x8000, &cart), Some(42));
    assert_eq!(mirror.read(&mut ram, 0x0000, &cart), Some(42));
    mirror.write(&mut ram, 0x0001, 43, &mut cart);
    assert_eq!(mirror.read(&mut ram, 0x8001, &cart), Some(43));
    assert_eq!(mirror.read(&mut ram, 0x0001, &cart), Some(43));
    mirror.write(&mut ram, 0x7FFF, 44, &mut cart);
    assert_eq!(mirror.read(&mut ram, 0xFFFF, &cart), Some(44));
    assert_eq!(mirror.read(&mut ram, 0x7FFF, &cart), Some(44));
    mirror.write(&mut ram, 0x7FFE, 45, &mut cart);
    assert_eq!(mirror.read(&mut ram, 0xFFFE, &cart), Some(45));
    assert_eq!(mirror.read(&mut ram, 0x7FFE, &cart), Some(45));
    mirror.write(&mut ram, 0x7FFA, 46, &mut cart);
    assert_eq!(mirror.read(&mut ram, 0xFFFA, &cart), Some(46));
    assert_eq!(mirror.read(&mut ram, 0x7FFA, &cart), Some(46));
}

#[test]
fn mirror_declines_outside_its_range() {
    let cart = Cart::new(&nrom_image(0x00, 0x00)).unwrap();
    let ram = Ram::new(0x0000, 2 * 1024);
    let mirror = Mirror::new(0x0000, 8 * 1024);
    assert_eq!(mirror.safe_read(&ram, 0x2000, &cart), None);
    assert_eq!(mirror.safe_read(&ram, 0x1FFF, &cart), Some(0));
}

#[test]
fn peripherals_shift_out_buttons_a_first() {
    let mut cart = Cart::new(&nrom_image(0x00, 0x00)).unwrap();
    let mut p = Peripherals::new();
    p.controllers[0].a = true;
    p.controllers[0].start = true;
    p.controllers[1].right = true;
    assert_eq!(controller_to_byte(p.controllers[0]), 0b1001_0000);
    assert_eq!(p.write(0x4016, 1, &mut cart), Some(()));
    let bits: Vec<u8> = (0..8).map(|_| p.read(0x4016, &cart).unwrap()).collect();
    assert_eq!(bits, vec![1, 0, 0, 1, 0, 0, 0, 0]);
    let bits: Vec<u8> = (0..8).map(|_| p.read(0x4017, &cart).unwrap()).collect();
    assert_eq!(bits, vec![0, 0, 0, 0, 0, 0, 0, 1]);
    assert_eq!(p.read(0x4018, &cart), None);
    assert_eq!(p.safe_read(0x4016, &cart), None);
    assert_eq!(controller_to_byte(Controller::new()), 0);
}

#[test]
fn m004_interrupt_after_counter_runs_down() {
    let mut m = M004::new(4);
    m.cpu_write(0xE001, 0); // enable
    m.irq_counter = 3;
    for _ in 0..2 {
        m.scanline_complete();
        assert!(!m.irq_active());
    }
    m.scanline_complete();
    assert_eq!(m.irq_counter, 0);
    assert!(m.irq_active());
}

#[test]
fn m069_irq_control_write_acknowledges_the_interrupt() {
    let mut m = M069::new(4, 4);
    m.irq_active = true;
    m.cpu_write(0x8000, 0x0D); // command: IRQ control
    assert!(m.irq_active());
    m.cpu_write(0xA000, 0x81); // any parameter write acknowledges
    assert!(!m.irq_active());
    assert_eq!(m.irq_control, 0x81);
}

#[test]
fn m004_four_1k_banks_come_first_in_the_second_chr_mode() {
    let mut m = M004::new(4);
    m.cpu_write(0x8000, 0x82); // CHR mode 1, select R2
    m.cpu_write(0x8001, 5); // R2 = 5
    m.cpu_write(0x8000, 0x80); // select R0
    m.cpu_write(0x8001, 8); // R0 = 8 (a 2K bank)
    assert_eq!(m.safe_ppu_read(0x0000), nessers::mapper::MappedRead::RAddr(5 * 1024));
    assert_eq!(m.safe_ppu_read(0x1000), nessers::mapper::MappedRead::RAddr(8 * 1024));
    assert_eq!(m.safe_ppu_read(0x1400), nessers::mapper::MappedRead::RAddr(9 * 1024));
}
