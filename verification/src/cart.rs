use vstd::prelude::*;
use crate::mapper::{Mapper, MappedRead, MappedWrite, write_through};
use crate::mapper::m000::M000;
use crate::mapper::m001::M001;
use crate::mapper::m002::M002;
use crate::mapper::m003::M003;
use crate::mapper::m004::{M004, PrgBankMode, ChrBankMode};
use crate::mapper::m009::{M009, ChrLatch, latches_after};
use crate::mapper::m069::M069;

verus! {

/// How the four logical nametables are laid onto the two physical ones.
#[derive(Debug, PartialEq, Eq, Clone, Copy, Structural)]
pub enum Mirroring {
    Horizontal,
    Vertical,
    OneScreenLo,
    OneScreenHi,
}

pub const HEADER_SIZE: usize = 16;

pub const FLAG_MIRRORING: u8 = 0b00000001;
pub const FLAG_HAS_RAM: u8 = 0b00000010;
pub const FLAG_HAS_TRAINER: u8 = 0b00000100;

/// The cartridge's PRG ROM, which the CPU sees through the mapper.
pub struct CartCpuMapper {
    pub num_prg_banks: usize,
    pub prg: Vec<u8>,
}

/// The cartridge's CHR ROM (or RAM), which the PPU sees through the mapper.
pub struct CartPpuMapper {
    pub num_chr_banks: usize,
    pub chr: Vec<u8>,
}

impl CartCpuMapper {
    /// The PRG byte at a mapped offset.
    pub fn read(&self, offset: usize) -> (r: u8)
        requires
            offset < self.prg@.len(),
        ensures
            r == self.prg@[offset as int],
    {
        self.prg[offset]
    }

    /// Stores a byte at a mapped PRG offset.
    pub fn write(&mut self, offset: usize, data: u8)
        requires
            offset < old(self).prg@.len(),
        ensures
            final(self).prg@ == old(self).prg@.update(offset as int, data),
            final(self).num_prg_banks == old(self).num_prg_banks,
    {
        self.prg.set(offset, data);
    }
}

impl CartPpuMapper {
    /// The CHR byte at a mapped offset.
    pub fn read(&self, offset: usize) -> (r: u8)
        requires
            offset < self.chr@.len(),
        ensures
            r == self.chr@[offset as int],
    {
        self.chr[offset]
    }

    /// Stores a byte at a mapped CHR offset.
    pub fn write(&mut self, offset: usize, data: u8)
        requires
            offset < old(self).chr@.len(),
        ensures
            final(self).chr@ == old(self).chr@.update(offset as int, data),
            final(self).num_chr_banks == old(self).num_chr_banks,
    {
        self.chr.set(offset, data);
    }
}

/// The mapper hardware of a cartridge, one variant per supported iNES
/// mapper number.
pub enum CartMapper {
    M000(M000),
    M001(M001),
    M002(M002),
    M003(M003),
    M004(M004),
    M009(M009),
    M069(M069),
}

/// The mapper numbers that this library implements.
pub open spec fn supported_mapper(code: u8) -> bool {
    code == 0 || code == 1 || code == 2 || code == 3 || code == 4 || code == 9 || code == 69
}

impl CartMapper {
    /// The mapper as a cartridge with mapper number `code`, `prg` banks of
    /// PRG and `chr` banks of CHR starts it.
    pub open spec fn fresh(&self, code: u8, prg: usize, chr: usize) -> bool {
        match self {
            CartMapper::M000(m) => code == 0 && m.num_banks == prg,
            CartMapper::M001(m) => {
                &&& code == 1
                &&& m.num_prg_banks == prg
                &&& m.load == 0x80
                &&& m.control == 0x1C
                &&& m.chr_bank_0 == 0
                &&& m.chr_bank_1 == 0
                &&& m.prg_bank == 0
                &&& m.ram@.len() == 0
            },
            CartMapper::M002(m) => code == 2 && m.num_banks == prg && m.selected_bank == 0,
            CartMapper::M003(m) => code == 3 && m.num_prg_banks == prg && m.selected_bank == 0,
            CartMapper::M004(m) => {
                &&& code == 4
                &&& m.num_prg_banks == prg * 2
                &&& m.selected_register.is_none()
                &&& m.registers@ == seq![0u8; 8]
                &&& m.ram@ == seq![0u8; 8192]
                &&& m.prg_bank_mode == PrgBankMode::SwapC000Fix8000
                &&& m.chr_bank_mode == ChrBankMode::TwoK2FourK1
                &&& m.mirroring.is_none()
                &&& m.irq_reload == 0
                &&& m.irq_counter == 0
                &&& !m.irq_enabled
                &&& !m.irq_active
            },
            CartMapper::M009(m) => {
                &&& code == 9
                &&& m.num_banks == prg
                &&& m.prg_bank == 0
                &&& m.chr_bank@ == seq![0u8; 4]
                &&& m.chr_latch@ == seq![ChrLatch::FD; 2]
                &&& m.ram@ == seq![0u8; 8192]
                &&& m.mirroring.is_none()
            },
            CartMapper::M069(m) => {
                &&& code == 69
                &&& m.num_prg_banks == prg
                &&& m.num_chr_banks == chr
                &&& m.command == 0
                &&& m.param == 0
                &&& m.prg_bank@ == seq![0u8; 4]
                &&& m.chr_bank@ == seq![0u8; 8]
                &&& m.ram_bank == 0
                &&& !m.ram_select
                &&& m.ram@ == seq![0u8; 524288]
                &&& m.mirroring.is_none()
                &&& m.irq_control == 0
                &&& m.irq_counter == 0
                &&& !m.irq_active
            },
        }
    }

    /// Builds the mapper with number `code`.
    pub fn from_code(code: u8, num_prg_banks: usize, num_chr_banks: usize) -> (r: CartMapper)
        requires
            supported_mapper(code),
            num_prg_banks <= 0xFF,
        ensures
            r.wf(),
            r.fresh(code, num_prg_banks, num_chr_banks),
    {
        if code == 0 {
            CartMapper::M000(M000::new(num_prg_banks))
        } else if code == 1 {
            CartMapper::M001(M001::new(num_prg_banks))
        } else if code == 2 {
            CartMapper::M002(M002::new(num_prg_banks))
        } else if code == 3 {
            CartMapper::M003(M003::new(num_prg_banks))
        } else if code == 4 {
            let m: M004 = M004::new(num_prg_banks);
            assert(m.registers@ =~= seq![0u8; 8]);
            assert(m.ram@ =~= seq![0u8; 8192]);
            CartMapper::M004(m)
        } else if code == 9 {
            let m: M009 = M009::new(num_prg_banks);
            assert(m.chr_bank@ =~= seq![0u8; 4]);
            assert(m.chr_latch@ =~= seq![ChrLatch::FD; 2]);
            assert(m.ram@ =~= seq![0u8; 8192]);
            CartMapper::M009(m)
        } else {
            let m: M069 = M069::new(num_prg_banks, num_chr_banks);
            assert(m.prg_bank@ =~= seq![0u8; 4]);
            assert(m.chr_bank@ =~= seq![0u8; 8]);
            assert(m.ram@ =~= seq![0u8; 524288]);
            CartMapper::M069(m)
        }
    }
}

/// The cartridge mapper is a mapper: each access goes to the mapper it
/// holds.
impl Mapper for CartMapper {
    open spec fn wf(&self) -> bool {
        match self {
            CartMapper::M000(m) => m.wf(),
            CartMapper::M001(m) => m.wf(),
            CartMapper::M002(m) => m.wf(),
            CartMapper::M003(m) => m.wf(),
            CartMapper::M004(m) => m.wf(),
            CartMapper::M009(m) => m.wf(),
            CartMapper::M069(m) => m.wf(),
        }
    }

    open spec fn cpu_map(&self, addr: u16) -> MappedRead {
        match self {
            CartMapper::M000(m) => m.cpu_map(addr),
            CartMapper::M001(m) => m.cpu_map(addr),
            CartMapper::M002(m) => m.cpu_map(addr),
            CartMapper::M003(m) => m.cpu_map(addr),
            CartMapper::M004(m) => m.cpu_map(addr),
            CartMapper::M009(m) => m.cpu_map(addr),
            CartMapper::M069(m) => m.cpu_map(addr),
        }
    }

    open spec fn ppu_map(&self, addr: u16) -> MappedRead {
        match self {
            CartMapper::M000(m) => m.ppu_map(addr),
            CartMapper::M001(m) => m.ppu_map(addr),
            CartMapper::M002(m) => m.ppu_map(addr),
            CartMapper::M003(m) => m.ppu_map(addr),
            CartMapper::M004(m) => m.ppu_map(addr),
            CartMapper::M009(m) => m.ppu_map(addr),
            CartMapper::M069(m) => m.ppu_map(addr),
        }
    }

    open spec fn cpu_read_ok(&self, addr: u16) -> bool {
        match self {
            CartMapper::M000(m) => m.cpu_read_ok(addr),
            CartMapper::M001(m) => m.cpu_read_ok(addr),
            CartMapper::M002(m) => m.cpu_read_ok(addr),
            CartMapper::M003(m) => m.cpu_read_ok(addr),
            CartMapper::M004(m) => m.cpu_read_ok(addr),
            CartMapper::M009(m) => m.cpu_read_ok(addr),
            CartMapper::M069(m) => m.cpu_read_ok(addr),
        }
    }

    open spec fn ppu_read_ok(&self, addr: u16) -> bool {
        match self {
            CartMapper::M000(m) => m.ppu_read_ok(addr),
            CartMapper::M001(m) => m.ppu_read_ok(addr),
            CartMapper::M002(m) => m.ppu_read_ok(addr),
            CartMapper::M003(m) => m.ppu_read_ok(addr),
            CartMapper::M004(m) => m.ppu_read_ok(addr),
            CartMapper::M009(m) => m.ppu_read_ok(addr),
            CartMapper::M069(m) => m.ppu_read_ok(addr),
        }
    }

    open spec fn cpu_write_ok(&self, addr: u16) -> bool {
        match self {
            CartMapper::M000(m) => m.cpu_write_ok(addr),
            CartMapper::M001(m) => m.cpu_write_ok(addr),
            CartMapper::M002(m) => m.cpu_write_ok(addr),
            CartMapper::M003(m) => m.cpu_write_ok(addr),
            CartMapper::M004(m) => m.cpu_write_ok(addr),
            CartMapper::M009(m) => m.cpu_write_ok(addr),
            CartMapper::M069(m) => m.cpu_write_ok(addr),
        }
    }

    open spec fn cpu_write_result(&self, addr: u16, data: u8) -> MappedWrite {
        match self {
            CartMapper::M000(m) => m.cpu_write_result(addr, data),
            CartMapper::M001(m) => m.cpu_write_result(addr, data),
            CartMapper::M002(m) => m.cpu_write_result(addr, data),
            CartMapper::M003(m) => m.cpu_write_result(addr, data),
            CartMapper::M004(m) => m.cpu_write_result(addr, data),
            CartMapper::M009(m) => m.cpu_write_result(addr, data),
            CartMapper::M069(m) => m.cpu_write_result(addr, data),
        }
    }

    open spec fn cpu_write_post(&self, addr: u16, data: u8, new: Self) -> bool {
        match (self, new) {
            (CartMapper::M000(m), CartMapper::M000(n)) => m.cpu_write_post(addr, data, n),
            (CartMapper::M001(m), CartMapper::M001(n)) => m.cpu_write_post(addr, data, n),
            (CartMapper::M002(m), CartMapper::M002(n)) => m.cpu_write_post(addr, data, n),
            (CartMapper::M003(m), CartMapper::M003(n)) => m.cpu_write_post(addr, data, n),
            (CartMapper::M004(m), CartMapper::M004(n)) => m.cpu_write_post(addr, data, n),
            (CartMapper::M009(m), CartMapper::M009(n)) => m.cpu_write_post(addr, data, n),
            (CartMapper::M069(m), CartMapper::M069(n)) => m.cpu_write_post(addr, data, n),
            _ => false,
        }
    }

    open spec fn ppu_read_post(&self, addr: u16, new: Self) -> bool {
        match (self, new) {
            (CartMapper::M000(m), CartMapper::M000(n)) => m.ppu_read_post(addr, n),
            (CartMapper::M001(m), CartMapper::M001(n)) => m.ppu_read_post(addr, n),
            (CartMapper::M002(m), CartMapper::M002(n)) => m.ppu_read_post(addr, n),
            (CartMapper::M003(m), CartMapper::M003(n)) => m.ppu_read_post(addr, n),
            (CartMapper::M004(m), CartMapper::M004(n)) => m.ppu_read_post(addr, n),
            (CartMapper::M009(m), CartMapper::M009(n)) => m.ppu_read_post(addr, n),
            (CartMapper::M069(m), CartMapper::M069(n)) => m.ppu_read_post(addr, n),
            _ => false,
        }
    }

    open spec fn mirroring_spec(&self) -> Option<Mirroring> {
        match self {
            CartMapper::M000(m) => m.mirroring_spec(),
            CartMapper::M001(m) => m.mirroring_spec(),
            CartMapper::M002(m) => m.mirroring_spec(),
            CartMapper::M003(m) => m.mirroring_spec(),
            CartMapper::M004(m) => m.mirroring_spec(),
            CartMapper::M009(m) => m.mirroring_spec(),
            CartMapper::M069(m) => m.mirroring_spec(),
        }
    }

    open spec fn reset_post(&self, new: Self) -> bool {
        match (self, new) {
            (CartMapper::M000(m), CartMapper::M000(n)) => m.reset_post(n),
            (CartMapper::M001(m), CartMapper::M001(n)) => m.reset_post(n),
            (CartMapper::M002(m), CartMapper::M002(n)) => m.reset_post(n),
            (CartMapper::M003(m), CartMapper::M003(n)) => m.reset_post(n),
            (CartMapper::M004(m), CartMapper::M004(n)) => m.reset_post(n),
            (CartMapper::M009(m), CartMapper::M009(n)) => m.reset_post(n),
            (CartMapper::M069(m), CartMapper::M069(n)) => m.reset_post(n),
            _ => false,
        }
    }

    open spec fn scanline_post(&self, new: Self) -> bool {
        match (self, new) {
            (CartMapper::M000(m), CartMapper::M000(n)) => m.scanline_post(n),
            (CartMapper::M001(m), CartMapper::M001(n)) => m.scanline_post(n),
            (CartMapper::M002(m), CartMapper::M002(n)) => m.scanline_post(n),
            (CartMapper::M003(m), CartMapper::M003(n)) => m.scanline_post(n),
            (CartMapper::M004(m), CartMapper::M004(n)) => m.scanline_post(n),
            (CartMapper::M009(m), CartMapper::M009(n)) => m.scanline_post(n),
            (CartMapper::M069(m), CartMapper::M069(n)) => m.scanline_post(n),
            _ => false,
        }
    }

    open spec fn irq_line(&self) -> bool {
        match self {
            CartMapper::M000(m) => m.irq_line(),
            CartMapper::M001(m) => m.irq_line(),
            CartMapper::M002(m) => m.irq_line(),
            CartMapper::M003(m) => m.irq_line(),
            CartMapper::M004(m) => m.irq_line(),
            CartMapper::M009(m) => m.irq_line(),
            CartMapper::M069(m) => m.irq_line(),
        }
    }

    open spec fn irq_clear_post(&self, new: Self) -> bool {
        match (self, new) {
            (CartMapper::M000(m), CartMapper::M000(n)) => m.irq_clear_post(n),
            (CartMapper::M001(m), CartMapper::M001(n)) => m.irq_clear_post(n),
            (CartMapper::M002(m), CartMapper::M002(n)) => m.irq_clear_post(n),
            (CartMapper::M003(m), CartMapper::M003(n)) => m.irq_clear_post(n),
            (CartMapper::M004(m), CartMapper::M004(n)) => m.irq_clear_post(n),
            (CartMapper::M009(m), CartMapper::M009(n)) => m.irq_clear_post(n),
            (CartMapper::M069(m), CartMapper::M069(n)) => m.irq_clear_post(n),
            _ => false,
        }
    }

    open spec fn clock_post(&self, tick: u64, new: Self) -> bool {
        match (self, new) {
            (CartMapper::M000(m), CartMapper::M000(n)) => m.clock_post(tick, n),
            (CartMapper::M001(m), CartMapper::M001(n)) => m.clock_post(tick, n),
            (CartMapper::M002(m), CartMapper::M002(n)) => m.clock_post(tick, n),
            (CartMapper::M003(m), CartMapper::M003(n)) => m.clock_post(tick, n),
            (CartMapper::M004(m), CartMapper::M004(n)) => m.clock_post(tick, n),
            (CartMapper::M009(m), CartMapper::M009(n)) => m.clock_post(tick, n),
            (CartMapper::M069(m), CartMapper::M069(n)) => m.clock_post(tick, n),
            _ => false,
        }
    }

    fn safe_cpu_read(&self, addr: u16) -> (r: MappedRead) {
        match self {
            CartMapper::M000(m) => m.safe_cpu_read(addr),
            CartMapper::M001(m) => m.safe_cpu_read(addr),
            CartMapper::M002(m) => m.safe_cpu_read(addr),
            CartMapper::M003(m) => m.safe_cpu_read(addr),
            CartMapper::M004(m) => m.safe_cpu_read(addr),
            CartMapper::M009(m) => m.safe_cpu_read(addr),
            CartMapper::M069(m) => m.safe_cpu_read(addr),
        }
    }

    fn cpu_read(&mut self, addr: u16) -> (r: MappedRead) {
        match self {
            CartMapper::M000(m) => m.cpu_read(addr),
            CartMapper::M001(m) => m.cpu_read(addr),
            CartMapper::M002(m) => m.cpu_read(addr),
            CartMapper::M003(m) => m.cpu_read(addr),
            CartMapper::M004(m) => m.cpu_read(addr),
            CartMapper::M009(m) => m.cpu_read(addr),
            CartMapper::M069(m) => m.cpu_read(addr),
        }
    }

    fn cpu_write(&mut self, addr: u16, data: u8) -> (r: MappedWrite) {
        match self {
            CartMapper::M000(m) => m.cpu_write(addr, data),
            CartMapper::M001(m) => m.cpu_write(addr, data),
            CartMapper::M002(m) => m.cpu_write(addr, data),
            CartMapper::M003(m) => m.cpu_write(addr, data),
            CartMapper::M004(m) => m.cpu_write(addr, data),
            CartMapper::M009(m) => m.cpu_write(addr, data),
            CartMapper::M069(m) => m.cpu_write(addr, data),
        }
    }

    fn safe_ppu_read(&self, addr: u16) -> (r: MappedRead) {
        match self {
            CartMapper::M000(m) => m.safe_ppu_read(addr),
            CartMapper::M001(m) => m.safe_ppu_read(addr),
            CartMapper::M002(m) => m.safe_ppu_read(addr),
            CartMapper::M003(m) => m.safe_ppu_read(addr),
            CartMapper::M004(m) => m.safe_ppu_read(addr),
            CartMapper::M009(m) => m.safe_ppu_read(addr),
            CartMapper::M069(m) => m.safe_ppu_read(addr),
        }
    }

    fn ppu_read(&mut self, addr: u16) -> (r: MappedRead) {
        match self {
            CartMapper::M000(m) => m.ppu_read(addr),
            CartMapper::M001(m) => m.ppu_read(addr),
            CartMapper::M002(m) => m.ppu_read(addr),
            CartMapper::M003(m) => m.ppu_read(addr),
            CartMapper::M004(m) => m.ppu_read(addr),
            CartMapper::M009(m) => m.ppu_read(addr),
            CartMapper::M069(m) => m.ppu_read(addr),
        }
    }

    fn ppu_write(&mut self, addr: u16, data: u8) -> (r: MappedWrite) {
        match self {
            CartMapper::M000(m) => m.ppu_write(addr, data),
            CartMapper::M001(m) => m.ppu_write(addr, data),
            CartMapper::M002(m) => m.ppu_write(addr, data),
            CartMapper::M003(m) => m.ppu_write(addr, data),
            CartMapper::M004(m) => m.ppu_write(addr, data),
            CartMapper::M009(m) => m.ppu_write(addr, data),
            CartMapper::M069(m) => m.ppu_write(addr, data),
        }
    }

    fn mirroring(&self) -> (r: Option<Mirroring>) {
        match self {
            CartMapper::M000(m) => m.mirroring(),
            CartMapper::M001(m) => m.mirroring(),
            CartMapper::M002(m) => m.mirroring(),
            CartMapper::M003(m) => m.mirroring(),
            CartMapper::M004(m) => m.mirroring(),
            CartMapper::M009(m) => m.mirroring(),
            CartMapper::M069(m) => m.mirroring(),
        }
    }

    fn reset(&mut self) {
        match self {
            CartMapper::M000(m) => m.reset(),
            CartMapper::M001(m) => m.reset(),
            CartMapper::M002(m) => m.reset(),
            CartMapper::M003(m) => m.reset(),
            CartMapper::M004(m) => m.reset(),
            CartMapper::M009(m) => m.reset(),
            CartMapper::M069(m) => m.reset(),
        }
    }

    fn scanline_complete(&mut self) {
        match self {
            CartMapper::M000(m) => m.scanline_complete(),
            CartMapper::M001(m) => m.scanline_complete(),
            CartMapper::M002(m) => m.scanline_complete(),
            CartMapper::M003(m) => m.scanline_complete(),
            CartMapper::M004(m) => m.scanline_complete(),
            CartMapper::M009(m) => m.scanline_complete(),
            CartMapper::M069(m) => m.scanline_complete(),
        }
    }

    fn irq_active(&mut self) -> (r: bool) {
        match self {
            CartMapper::M000(m) => m.irq_active(),
            CartMapper::M001(m) => m.irq_active(),
            CartMapper::M002(m) => m.irq_active(),
            CartMapper::M003(m) => m.irq_active(),
            CartMapper::M004(m) => m.irq_active(),
            CartMapper::M009(m) => m.irq_active(),
            CartMapper::M069(m) => m.irq_active(),
        }
    }

    fn irq_clear(&mut self) {
        match self {
            CartMapper::M000(m) => m.irq_clear(),
            CartMapper::M001(m) => m.irq_clear(),
            CartMapper::M002(m) => m.irq_clear(),
            CartMapper::M003(m) => m.irq_clear(),
            CartMapper::M004(m) => m.irq_clear(),
            CartMapper::M009(m) => m.irq_clear(),
            CartMapper::M069(m) => m.irq_clear(),
        }
    }

    fn clock(&mut self, tick: u64) {
        match self {
            CartMapper::M000(m) => m.clock(tick),
            CartMapper::M001(m) => m.clock(tick),
            CartMapper::M002(m) => m.clock(tick),
            CartMapper::M003(m) => m.clock(tick),
            CartMapper::M004(m) => m.clock(tick),
            CartMapper::M009(m) => m.clock(tick),
            CartMapper::M069(m) => m.clock(tick),
        }
    }
}

/// A parsed iNES cartridge: its header flags, its ROM, and its mapper.
pub struct Cart {
    /// The mirroring that the header sets; a mapper may override it.
    pub mirroring: Mirroring,
    pub has_ram: bool,
    pub has_trainer: bool,
    pub cpu_mapper: CartCpuMapper,
    pub ppu_mapper: CartPpuMapper,
    pub mapper_code: u8,
    pub mapper: CartMapper,
}

/// Bytes 0-3 of an iNES file: "NES" and an end-of-file marker.
pub open spec fn is_ines(d: Seq<u8>) -> bool {
    d[0] == 0x4E && d[1] == 0x45 && d[2] == 0x53 && d[3] == 0x1A
}

/// The PRG ROM size in bytes: byte 4 counts 16K banks.
pub open spec fn prg_size_of(d: Seq<u8>) -> int {
    d[4] * 16384
}

/// The CHR ROM size in bytes: byte 5 counts 8K banks.
pub open spec fn chr_size_of(d: Seq<u8>) -> int {
    d[5] * 8192
}

/// Where the PRG ROM starts: after the header, and after a 512 byte
/// trainer when flag 6 says there is one.
pub open spec fn prg_start_of(d: Seq<u8>) -> int {
    if d[6] & FLAG_HAS_TRAINER != 0 {
        528
    } else {
        16
    }
}

/// Where the CHR ROM starts: right after the PRG ROM.
pub open spec fn chr_start_of(d: Seq<u8>) -> int {
    prg_start_of(d) + prg_size_of(d)
}

/// The mapper number: the high nybble of byte 7 and the high nybble of
/// byte 6 as its low nybble.
pub open spec fn mapper_code_of(d: Seq<u8>) -> u8 {
    (d[7] & 0xF0u8) | ((d[6] & 0xF0u8) >> 4u8)
}

/// The header is valid and the file holds the CHR ROM it announces.
pub open spec fn header_ok(d: Seq<u8>) -> bool {
    &&& is_ines(d)
    &&& d.len() >= 16
    &&& !(chr_size_of(d) > 0 && d.len() < chr_start_of(d) + chr_size_of(d))
}

/// The byte a read answers: the mapper's own data, a byte of `rom` at the
/// mapped offset, or nothing.
pub open spec fn rom_read(rom: Seq<u8>, m: MappedRead) -> Option<u8> {
    match m {
        MappedRead::Data(d) => Some(d),
        MappedRead::RAddr(a) => Some(rom[a as int]),
        MappedRead::RSkip => None,
    }
}

/// A read lands in `rom` where it lands at all.
pub open spec fn read_in(rom: Seq<u8>, m: MappedRead) -> bool {
    m matches MappedRead::RAddr(a) ==> a < rom.len()
}

/// A write lands in `rom` where it lands at all.
pub open spec fn write_in(rom: Seq<u8>, w: MappedWrite) -> bool {
    w matches MappedWrite::WAddr(a) ==> a < rom.len()
}

/// `rom` after a write of `data` that the mapper placed at `w`.
pub open spec fn rom_after_write(rom: Seq<u8>, w: MappedWrite, data: u8) -> Seq<u8> {
    match w {
        MappedWrite::WAddr(a) => rom.update(a as int, data),
        _ => rom,
    }
}

/// Whether a write was taken by the cartridge.
pub open spec fn write_taken(w: MappedWrite) -> Option<()> {
    match w {
        MappedWrite::WSkip => None,
        _ => Some(()),
    }
}

/// A copy of `len` bytes of `data` from `start`.
fn copy_range(data: &Vec<u8>, start: usize, len: usize) -> (r: Vec<u8>)
    requires
        start + len <= data@.len(),
    ensures
        r@ == data@.subrange(start as int, start + len),
{
    let mut r: Vec<u8> = Vec::with_capacity(len);
    let mut i: usize = 0;
    while i < len
        invariant
            i <= len,
            start + len <= data@.len(),
            r@ == data@.subrange(start as int, start + i),
        decreases len - i,
    {
        assert(start + i < data.len());
        r.push(data[start + i]);
        i = i + 1;
        assert(r@ =~= data@.subrange(start as int, start + i));
    }
    r
}

impl Cart {
    /// The cartridge's internal invariant: that of its mapper.
    pub open spec fn wf(&self) -> bool {
        self.mapper.wf()
    }

    /// Whether `new` can parse `data` without a panic: the file holds at
    /// least the four magic bytes, and a valid header announces a PRG ROM
    /// that the file holds and a mapper that this library implements.
    pub fn can_load(data: &Vec<u8>) -> (r: bool)
        ensures
            r == (data@.len() >= 4 && (header_ok(data@) ==> data@.len() >= chr_start_of(data@) && supported_mapper(
                mapper_code_of(data@),
            ))),
    {
        if data.len() < 4 {
            return false;
        }
        let ines: bool = data[0] == 0x4E && data[1] == 0x45 && data[2] == 0x53 && data[3] == 0x1A;
        if !ines || data.len() < 16 {
            return true;
        }
        let prg_size: usize = data[4] as usize * 16 * 1024;
        let chr_size: usize = data[5] as usize * 8 * 1024;
        let prg_start: usize = if data[6] & FLAG_HAS_TRAINER != 0 { HEADER_SIZE + 512 } else { HEADER_SIZE };
        let chr_start: usize = prg_start + prg_size;
        if chr_size > 0 && data.len() < chr_start + chr_size {
            return true;
        }
        let code: u8 = (data[7] & 0xF0) | ((data[6] & 0xF0) >> 4);
        data.len() >= chr_start && (code == 0 || code == 1 || code == 2 || code == 3 || code == 4 || code == 9
            || code == 69)
    }

    /// Parses an iNES file.
    ///
    /// The file must hold the four magic bytes; when the header is valid,
    /// it must also hold the PRG ROM it announces and name a mapper that
    /// this library implements.
    pub fn new(data: &Vec<u8>) -> (r: Result<Cart, &'static str>)
        requires
            data@.len() >= 4,
            header_ok(data@) ==> data@.len() >= chr_start_of(data@) && supported_mapper(
                mapper_code_of(data@),
            ),
        ensures
            !is_ines(data@) ==> r == Err::<Cart, &'static str>("Does not appear to be in the iNES format"),
            is_ines(data@) && data@.len() < 16 ==> r == Err::<Cart, &'static str>("Too small to contain header"),
            is_ines(data@) && data@.len() >= 16 && !header_ok(data@) ==> r == Err::<Cart, &'static str>(
                "File is too small to contain ROM data",
            ),
            header_ok(data@) <==> r is Ok,
            r matches Ok(cart) ==> {
                let d = data@;
                &&& cart.wf()
                &&& cart.mirroring == if d[6] & FLAG_MIRRORING != 0 {
                    Mirroring::Vertical
                } else {
                    Mirroring::Horizontal
                }
                &&& cart.has_ram == (d[6] & FLAG_HAS_RAM != 0)
                &&& cart.has_trainer == (d[6] & FLAG_HAS_TRAINER != 0)
                &&& cart.mapper_code == mapper_code_of(d)
                &&& cart.cpu_mapper.num_prg_banks == d[4]
                &&& cart.cpu_mapper.prg@ == d.subrange(prg_start_of(d), chr_start_of(d))
                &&& cart.ppu_mapper.num_chr_banks == d[5]
                &&& cart.ppu_mapper.chr@ == if chr_size_of(d) > 0 {
                    d.subrange(chr_start_of(d), chr_start_of(d) + chr_size_of(d))
                } else {
                    seq![0u8; 8192]
                }
                &&& cart.mapper.fresh(mapper_code_of(d), d[4] as usize, d[5] as usize)
            },
    {
        // Bytes 0-3: Should indicate that this is an iNES file:
        if !(data[0] == 0x4E && data[1] == 0x45 && data[2] == 0x53 && data[3] == 0x1A) {
            return Err("Does not appear to be in the iNES format");
        }
        if data.len() < 16 {
            return Err("Too small to contain header");
        }
        // Byte 4: Size of PRG ROM in 16KB increments
        let num_prg_banks: usize = data[4] as usize;
        let prg_size: usize = num_prg_banks * 16 * 1024;
        // Byte 5: Size of CHR ROM in 8KB increments
        let num_chr_banks: usize = data[5] as usize;
        let chr_size: usize = num_chr_banks * 8 * 1024;

        let flags_6: u8 = data[6];
        let mirroring: Mirroring = if flags_6 & FLAG_MIRRORING != 0 {
            Mirroring::Vertical
        } else {
            Mirroring::Horizontal
        };
        let has_ram: bool = flags_6 & FLAG_HAS_RAM != 0;
        let has_trainer: bool = flags_6 & FLAG_HAS_TRAINER != 0;
        let mapper_code_lo: u8 = flags_6 & 0xF0;
        let mapper_code_hi: u8 = data[7] & 0xF0;

        let prg_start: usize = if has_trainer {
            HEADER_SIZE + 512
        } else {
            HEADER_SIZE
        };
        let chr_start: usize = prg_start + prg_size;

        if chr_size > 0 && data.len() < chr_start + chr_size {
            return Err("File is too small to contain ROM data");
        }
        let mapper_code: u8 = mapper_code_hi | (mapper_code_lo >> 4);

        let chr: Vec<u8> = if chr_size > 0 {
            copy_range(data, chr_start, chr_size)
        } else {
            vec![0x00; 1024 * 8]
        };
        let prg: Vec<u8> = copy_range(data, prg_start, prg_size);
        proof {
            if chr_size == 0 {
                assert(chr@ =~= seq![0u8; 8192]);
            }
        }
        Ok(Cart {
            mirroring,
            has_ram,
            has_trainer,
            mapper_code,
            ppu_mapper: CartPpuMapper { num_chr_banks, chr },
            cpu_mapper: CartCpuMapper { num_prg_banks, prg },
            mapper: CartMapper::from_code(mapper_code, num_prg_banks, num_chr_banks),
        })
    }

    /// The mirroring in effect: the mapper's where it sets one, else the
    /// header's.
    pub open spec fn mirroring_spec(&self) -> Mirroring {
        match self.mapper.mirroring_spec() {
            Some(m) => m,
            None => self.mirroring,
        }
    }

    pub fn mirroring(&self) -> (r: Mirroring)
        ensures
            r == self.mirroring_spec(),
    {
        match self.mapper.mirroring() {
            Some(m) => m,
            None => self.mirroring,
        }
    }

    /// Whether the cartridge's invariant holds (see `wf`).
    pub fn check_wf(&self) -> (r: bool)
        ensures
            r == self.wf(),
    {
        match &self.mapper {
            CartMapper::M000(m) => true,
            CartMapper::M001(m) => true,
            CartMapper::M002(m) => true,
            CartMapper::M003(m) => true,
            CartMapper::M004(m) => m.registers.len() == 8 && m.ram.len() == 8192,
            CartMapper::M009(m) => m.chr_bank.len() == 4 && m.chr_latch.len() == 2 && m.ram.len() == 8192,
            CartMapper::M069(m) => m.prg_bank.len() == 4 && m.chr_bank.len() == 8 && m.ram.len() == 512 * 1024
                && m.ram_bank <= 0x1F && m.command <= 0x0F,
        }
    }

    /// Whether `cpu_write` of `data` to `addr` is handled without a panic.
    pub fn can_cpu_write(&self, addr: u16, data: u8) -> (r: bool)
        requires
            self.wf(),
        ensures
            r == self.cpu_write_ok(addr, data),
    {
        match &self.mapper {
            CartMapper::M000(m) => {
                let w: MappedWrite = crate::mapper::write_through_exec(crate::mapper::safe_cpu_read(m.num_banks, addr));
                match w {
                    MappedWrite::WAddr(a) => a < self.cpu_mapper.prg.len(),
                    _ => true,
                }
            },
            CartMapper::M069(m) => {
                if 0x6000 <= addr && addr <= 0x7FFF && !m.ram_select {
                    ((addr - 0x6000) as usize) + (m.prg_bank[0] as usize) * 8192 < self.cpu_mapper.prg.len()
                } else {
                    true
                }
            },
            _ => true,
        }
    }

    /// `new` is this cartridge after a CPU write of `data` to `addr`: the
    /// mapper changes as it says, a byte the mapper places lands in the PRG
    /// ROM, and nothing else changes.
    pub open spec fn cpu_write_effect(&self, addr: u16, data: u8, new: Cart) -> bool {
        &&& self.mapper.cpu_write_post(addr, data, new.mapper)
        &&& new.cpu_mapper.prg@ == rom_after_write(self.cpu_mapper.prg@, self.mapper.cpu_write_result(addr, data), data)
        &&& new.cpu_mapper.num_prg_banks == self.cpu_mapper.num_prg_banks
        &&& new == (Cart { cpu_mapper: new.cpu_mapper, mapper: new.mapper, ..*self })
    }

    /// `new` is this cartridge after a PPU read of `addr`: only the mapper
    /// changes, as it says.
    pub open spec fn ppu_read_effect(&self, addr: u16, new: Cart) -> bool {
        &&& self.mapper.ppu_read_post(addr, new.mapper)
        &&& new == (Cart { mapper: new.mapper, ..*self })
    }

    /// `new` is this cartridge after a PPU write of `data` to `addr`: the
    /// byte lands in the CHR where the mapper maps the address, and nothing
    /// else changes.
    pub open spec fn ppu_write_effect(&self, addr: u16, data: u8, new: Cart) -> bool {
        &&& new.ppu_mapper.chr@ == rom_after_write(self.ppu_mapper.chr@, write_through(self.mapper.ppu_map(addr)), data)
        &&& new.ppu_mapper.num_chr_banks == self.ppu_mapper.num_chr_banks
        &&& new == (Cart { ppu_mapper: new.ppu_mapper, ..*self })
    }

    /// A CPU read of `addr` is answered without a panic: the mapper can
    /// answer it and a ROM offset it maps to is inside the PRG ROM.
    pub open spec fn cpu_read_ok(&self, addr: u16) -> bool {
        &&& self.mapper.cpu_read_ok(addr)
        &&& read_in(self.cpu_mapper.prg@, self.mapper.cpu_map(addr))
    }

    /// What a CPU read of `addr` answers.
    pub open spec fn cpu_peek(&self, addr: u16) -> Option<u8> {
        rom_read(self.cpu_mapper.prg@, self.mapper.cpu_map(addr))
    }

    /// Whether `cpu_read` and `safe_cpu_read` of `addr` are answered
    /// without a panic.
    pub fn can_cpu_read(&self, addr: u16) -> (r: bool)
        requires
            self.wf(),
        ensures
            r == self.cpu_read_ok(addr),
    {
        let ok: bool = match &self.mapper {
            CartMapper::M000(m) => true,
            CartMapper::M001(m) => {
                let ram_ok: bool = !(0x6000 <= addr && addr <= 0x7FFF) || ((addr & 0x1FFF) as usize) < m.ram.len();
                let fixed: bool = 0xC000 <= addr && (m.control & 0x0C) >> 2 == 3;
                ram_ok && (!fixed || (1 <= m.num_prg_banks && m.num_prg_banks <= usize::MAX / 0x4000 + 1))
            },
            CartMapper::M002(m) => addr < 0xC000 || (1 <= m.num_banks && m.num_banks <= usize::MAX / 0x4000 + 1),
            CartMapper::M003(m) => true,
            CartMapper::M004(m) => {
                if addr < 0x8000 {
                    true
                } else {
                    let num: u16 = (addr - 0x8000) / 0x2000;
                    let fixed_second_last: bool = (num == 2 && m.prg_bank_mode == PrgBankMode::Swap8000FixC000)
                        || (num == 0 && m.prg_bank_mode == PrgBankMode::SwapC000Fix8000);
                    (!fixed_second_last || m.num_prg_banks >= 2)
                        && (num != 3 || m.num_prg_banks >= 1)
                        && (!(num == 3 || fixed_second_last) || m.num_prg_banks <= usize::MAX / 8192 + 1)
                }
            },
            CartMapper::M009(m) => addr < 0xA000 || (m.num_banks >= 2 && m.num_banks <= usize::MAX / 16384),
            CartMapper::M069(m) => addr < 0xE000 || (1 <= m.num_prg_banks && m.num_prg_banks <= usize::MAX / 16384 + 1),
        };
        if !ok {
            return false;
        }
        match self.mapper.safe_cpu_read(addr) {
            MappedRead::RAddr(a) => a < self.cpu_mapper.prg.len(),
            _ => true,
        }
    }

    /// Reads a byte from the cartridge on the CPU bus, without side effects.
    pub fn safe_cpu_read(&self, addr: u16) -> (r: Option<u8>)
        requires
            self.wf(),
            self.cpu_read_ok(addr),
        ensures
            r == self.cpu_peek(addr),
    {
        match self.mapper.safe_cpu_read(addr) {
            MappedRead::Data(d) => Some(d),
            MappedRead::RAddr(a) => Some(self.cpu_mapper.read(a)),
            MappedRead::RSkip => None,
        }
    }

    /// Reads a byte from the cartridge on the CPU bus.
    pub fn cpu_read(&mut self, addr: u16) -> (r: Option<u8>)
        requires
            old(self).wf(),
            old(self).cpu_read_ok(addr),
        ensures
            r == old(self).cpu_peek(addr),
            *final(self) == *old(self),
    {
        match self.mapper.cpu_read(addr) {
            MappedRead::Data(d) => Some(d),
            MappedRead::RAddr(a) => Some(self.cpu_mapper.read(a)),
            MappedRead::RSkip => None,
        }
    }

    /// A CPU write to `addr` is handled without a panic.
    pub open spec fn cpu_write_ok(&self, addr: u16, data: u8) -> bool {
        &&& self.mapper.cpu_write_ok(addr)
        &&& write_in(self.cpu_mapper.prg@, self.mapper.cpu_write_result(addr, data))
    }

    /// Writes a byte to the cartridge on the CPU bus: the mapper takes it,
    /// or it lands in the PRG ROM where the mapper places it.
    pub fn cpu_write(&mut self, addr: u16, data: u8) -> (r: Option<()>)
        requires
            old(self).wf(),
            old(self).cpu_write_ok(addr, data),
        ensures
            final(self).wf(),
            r == write_taken(old(self).mapper.cpu_write_result(addr, data)),
            old(self).mapper.cpu_write_post(addr, data, final(self).mapper),
            final(self).cpu_mapper.prg@ == rom_after_write(
                old(self).cpu_mapper.prg@,
                old(self).mapper.cpu_write_result(addr, data),
                data,
            ),
            final(self).cpu_mapper.num_prg_banks == old(self).cpu_mapper.num_prg_banks,
            final(self).ppu_mapper == old(self).ppu_mapper,
            final(self).mirroring == old(self).mirroring,
            final(self).has_ram == old(self).has_ram,
            final(self).has_trainer == old(self).has_trainer,
            final(self).mapper_code == old(self).mapper_code,
            old(self).cpu_write_effect(addr, data, *final(self)),
    {
        match self.mapper.cpu_write(addr, data) {
            MappedWrite::WAddr(a) => {
                self.cpu_mapper.write(a, data);
                Some(())
            },
            MappedWrite::Wrote => Some(()),
            MappedWrite::WSkip => None,
        }
    }

    /// A PPU read of `addr` is answered without a panic.
    pub open spec fn ppu_read_ok(&self, addr: u16) -> bool {
        &&& self.mapper.ppu_read_ok(addr)
        &&& read_in(self.ppu_mapper.chr@, self.mapper.ppu_map(addr))
    }

    /// What a PPU read of `addr` answers.
    pub open spec fn ppu_peek(&self, addr: u16) -> Option<u8> {
        rom_read(self.ppu_mapper.chr@, self.mapper.ppu_map(addr))
    }

    /// The CHR latches of an MMC2 cartridge (none for other mappers).
    pub open spec fn latches(&self) -> Seq<ChrLatch> {
        match self.mapper {
            CartMapper::M009(m) => m.chr_latch@,
            _ => Seq::empty(),
        }
    }

    /// The latches `l` after a PPU read of `addr`: an MMC2 switches them on
    /// its latch tiles; other mappers have none.
    pub open spec fn read_latches(&self, l: Seq<ChrLatch>, addr: u16) -> Seq<ChrLatch> {
        if self.mapper is M009 {
            latches_after(l, addr)
        } else {
            l
        }
    }

    /// What a PPU read of `addr` answers with an MMC2's latches at `l`
    /// (other mappers do not look at `l`).
    pub open spec fn ppu_peek_with(&self, l: Seq<ChrLatch>, addr: u16) -> Option<u8> {
        match self.mapper {
            CartMapper::M009(m) => rom_read(self.ppu_mapper.chr@, m.ppu_map_with(l, addr)),
            _ => self.ppu_peek(addr),
        }
    }

    /// `other` answers PPU reads as this cartridge does, given the same
    /// latches: the same CHR, mirroring and mapper, but for an MMC2's
    /// latches.
    pub open spec fn same_chr(&self, other: Cart) -> bool {
        &&& other.ppu_mapper == self.ppu_mapper
        &&& other.mirroring_spec() == self.mirroring_spec()
        &&& (other.mapper is M009 <==> self.mapper is M009)
        &&& match (self.mapper, other.mapper) {
            (CartMapper::M009(a), CartMapper::M009(b)) => a.chr_bank@ == b.chr_bank@,
            _ => other.mapper == self.mapper,
        }
    }

    /// A cartridge answers a PPU read by its own latches; cartridges with
    /// the same CHR answer alike.
    pub proof fn lemma_peek_with(&self, other: Cart, l: Seq<ChrLatch>, addr: u16)
        requires
            self.same_chr(other),
        ensures
            self.ppu_peek(addr) == self.ppu_peek_with(self.latches(), addr),
            other.ppu_peek_with(l, addr) == self.ppu_peek_with(l, addr),
            other.read_latches(l, addr) == self.read_latches(l, addr),
    {
    }

    /// Reads a byte from the cartridge on the PPU bus.
    pub fn ppu_read(&mut self, addr: u16) -> (r: Option<u8>)
        requires
            old(self).wf(),
            old(self).ppu_read_ok(addr),
        ensures
            final(self).wf(),
            r == old(self).ppu_peek(addr),
            old(self).mapper.ppu_read_post(addr, final(self).mapper),
            final(self).cpu_mapper == old(self).cpu_mapper,
            final(self).ppu_mapper == old(self).ppu_mapper,
            final(self).mirroring == old(self).mirroring,
            final(self).has_ram == old(self).has_ram,
            final(self).has_trainer == old(self).has_trainer,
            final(self).mapper_code == old(self).mapper_code,
            old(self).ppu_safe() ==> final(self).ppu_reads_from(&*old(self)),
            final(self).mirroring_spec() == old(self).mirroring_spec(),
            old(self).ppu_read_effect(addr, *final(self)),
            final(self).same_chr(*old(self)),
            final(self).latches() == old(self).read_latches(old(self).latches(), addr),
    {
        match self.mapper.ppu_read(addr) {
            MappedRead::Data(d) => Some(d),
            MappedRead::RAddr(a) => Some(self.ppu_mapper.read(a)),
            MappedRead::RSkip => None,
        }
    }

    /// Writes a byte to the cartridge on the PPU bus: it lands in CHR where
    /// the mapper maps the address.
    pub fn ppu_write(&mut self, addr: u16, data: u8) -> (r: Option<()>)
        requires
            old(self).wf(),
            old(self).ppu_read_ok(addr),
        ensures
            final(self).wf(),
            r == write_taken(write_through(old(self).mapper.ppu_map(addr))),
            final(self).ppu_mapper.chr@ == rom_after_write(
                old(self).ppu_mapper.chr@,
                write_through(old(self).mapper.ppu_map(addr)),
                data,
            ),
            final(self).ppu_mapper.num_chr_banks == old(self).ppu_mapper.num_chr_banks,
            final(self).mapper == old(self).mapper,
            final(self).cpu_mapper == old(self).cpu_mapper,
            final(self).mirroring == old(self).mirroring,
            final(self).has_ram == old(self).has_ram,
            final(self).has_trainer == old(self).has_trainer,
            final(self).mapper_code == old(self).mapper_code,
            old(self).ppu_write_effect(addr, data, *final(self)),
    {
        match self.mapper.ppu_write(addr, data) {
            MappedWrite::WAddr(a) => {
                self.ppu_mapper.write(a, data);
                Some(())
            },
            MappedWrite::Wrote => Some(()),
            MappedWrite::WSkip => None,
        }
    }

    /// Every PPU read is answered without a panic, now and after any
    /// number of PPU reads: for MMC2, whose latches PPU reads switch, all
    /// four CHR banks lie inside the CHR; for the other mappers every
    /// pattern address can be read.
    pub open spec fn ppu_safe(&self) -> bool {
        &&& self.wf()
        &&& match self.mapper {
            CartMapper::M009(m) => forall|i: int|
                0 <= i < 4 ==> (#[trigger] m.chr_bank@[i]) * 4096 + 4096 <= self.ppu_mapper.chr@.len(),
            _ => forall|a: u16| a < 0x2000 ==> #[trigger] self.ppu_read_ok(a),
        }
    }

    /// What PPU reads may do to the cartridge: only MMC2 changes (its
    /// latches); the ROM, the header fields, and the safety of further reads
    /// stay.
    pub open spec fn ppu_reads_from(&self, old: &Cart) -> bool {
        &&& self.ppu_safe()
        &&& self.cpu_mapper == old.cpu_mapper
        &&& self.ppu_mapper == old.ppu_mapper
        &&& self.mirroring == old.mirroring
        &&& self.has_ram == old.has_ram
        &&& self.has_trainer == old.has_trainer
        &&& self.mapper_code == old.mapper_code
        &&& self.mirroring_spec() == old.mirroring_spec()
        &&& self.mapper is M009 <==> old.mapper is M009
        &&& !(old.mapper is M009) ==> self.mapper == old.mapper
    }

    /// Below $2000 (the console's RAM) the cartridge answers no read and
    /// takes no write, and either access is handled without a panic.
    pub proof fn lemma_low_addresses(&self, addr: u16, data: u8)
        requires
            self.wf(),
            addr < 0x2000,
        ensures
            self.cpu_read_ok(addr),
            self.cpu_peek(addr).is_none(),
            self.cpu_write_ok(addr, data),
            self.mapper.cpu_write_result(addr, data) == MappedWrite::WSkip,
    {
    }

    /// A safe cartridge answers every PPU read, and above the pattern
    /// tables it answers none.
    pub proof fn lemma_ppu_safe_reads(&self, addr: u16)
        requires
            self.ppu_safe(),
        ensures
            self.ppu_read_ok(addr),
            addr >= 0x2000 ==> self.ppu_peek(addr).is_none(),
    {
        match self.mapper {
            CartMapper::M009(m) => {
                if addr <= 0x0FFF {
                    assert(m.chr_bank@[0] * 4096 + 4096 <= self.ppu_mapper.chr@.len());
                    assert(m.chr_bank@[1] * 4096 + 4096 <= self.ppu_mapper.chr@.len());
                } else if addr <= 0x1FFF {
                    assert(m.chr_bank@[2] * 4096 + 4096 <= self.ppu_mapper.chr@.len());
                    assert(m.chr_bank@[3] * 4096 + 4096 <= self.ppu_mapper.chr@.len());
                }
            },
            _ => {
                if addr < 0x2000 {
                    assert(self.ppu_read_ok(addr));
                }
            },
        }
    }

    /// Checks `ppu_safe`, so that a caller can test it before rendering.
    pub fn is_ppu_safe(&self) -> (r: bool)
        requires
            self.wf(),
        ensures
            r == self.ppu_safe(),
    {
        match &self.mapper {
            CartMapper::M009(m) => {
                let mut i: usize = 0;
                while i < 4
                    invariant
                        i <= 4,
                        m.chr_bank@.len() == 4,
                        self.mapper == CartMapper::M009(*m),
                        forall|j: int| 0 <= j < i ==> (#[trigger] m.chr_bank@[j]) * 4096 + 4096 <= self.ppu_mapper.chr@.len(),
                    decreases 4 - i,
                {
                    if (m.chr_bank[i] as usize) * 4096 + 4096 > self.ppu_mapper.chr.len() {
                        assert(!(m.chr_bank@[i as int] * 4096 + 4096 <= self.ppu_mapper.chr@.len()));
                        return false;
                    }
                    i = i + 1;
                }
                true
            },
            _ => {
                let mut a: u16 = 0;
                while a < 0x2000
                    invariant
                        a <= 0x2000,
                        self.wf(),
                        !(self.mapper is M009),
                        forall|b: u16| b < a ==> #[trigger] self.ppu_read_ok(b),
                    decreases 0x2000 - a,
                {
                    if !self.can_ppu_read(a) {
                        return false;
                    }
                    a = a + 1;
                }
                true
            },
        }
    }

    /// Whether a PPU read of `addr` is answered without a panic.
    pub fn can_ppu_read(&self, addr: u16) -> (r: bool)
        requires
            self.wf(),
        ensures
            r == self.ppu_read_ok(addr),
    {
        match self.mapper.safe_ppu_read(addr) {
            MappedRead::RAddr(a) => a < self.ppu_mapper.chr.len(),
            _ => true,
        }
    }

    /// Tells the mapper that a scanline has been completed.
    pub fn scanline_complete(&mut self)
        requires
            old(self).wf(),
        ensures
            final(self).wf(),
            old(self).mapper.scanline_post(final(self).mapper),
            old(self).ppu_safe() ==> final(self).ppu_safe(),
            final(self).mirroring_spec() == old(self).mirroring_spec(),
            final(self).cpu_mapper == old(self).cpu_mapper,
            final(self).ppu_mapper == old(self).ppu_mapper,
            final(self).mirroring == old(self).mirroring,
            final(self).has_ram == old(self).has_ram,
            final(self).has_trainer == old(self).has_trainer,
            final(self).mapper_code == old(self).mapper_code,
    {
        self.mapper.scanline_complete();
        proof {
            if old(self).ppu_safe() && !(self.mapper is M009) {
                assert forall|a: u16| a < 0x2000 implies #[trigger] self.ppu_read_ok(a) by {
                    assert(old(self).ppu_read_ok(a));
                }
            }
        }
    }

    /// Whether the mapper holds its interrupt line.
    pub fn irq_active(&mut self) -> (r: bool)
        ensures
            r == old(self).mapper.irq_line(),
            *final(self) == *old(self),
    {
        self.mapper.irq_active()
    }

    /// Acknowledges the mapper's interrupt.
    pub fn irq_clear(&mut self)
        requires
            old(self).wf(),
        ensures
            final(self).wf(),
            old(self).mapper.irq_clear_post(final(self).mapper),
            final(self).cpu_mapper == old(self).cpu_mapper,
            final(self).ppu_mapper == old(self).ppu_mapper,
            final(self).mirroring == old(self).mirroring,
            final(self).has_ram == old(self).has_ram,
            final(self).has_trainer == old(self).has_trainer,
            final(self).mapper_code == old(self).mapper_code,
    {
        self.mapper.irq_clear();
    }

    /// Resets the mapper.
    pub fn reset(&mut self)
        requires
            old(self).wf(),
        ensures
            final(self).wf(),
            old(self).mapper.reset_post(final(self).mapper),
            final(self).cpu_mapper == old(self).cpu_mapper,
            final(self).ppu_mapper == old(self).ppu_mapper,
            final(self).mirroring == old(self).mirroring,
            final(self).has_ram == old(self).has_ram,
            final(self).has_trainer == old(self).has_trainer,
            final(self).mapper_code == old(self).mapper_code,
    {
        self.mapper.reset();
    }

    /// Passes a PPU clock to the mapper.
    pub fn clock(&mut self, tick: u64)
        requires
            old(self).wf(),
        ensures
            final(self).wf(),
            old(self).mapper.clock_post(tick, final(self).mapper),
            final(self).cpu_mapper == old(self).cpu_mapper,
            final(self).ppu_mapper == old(self).ppu_mapper,
            final(self).mirroring == old(self).mirroring,
            final(self).has_ram == old(self).has_ram,
            final(self).has_trainer == old(self).has_trainer,
            final(self).mapper_code == old(self).mapper_code,
    {
        self.mapper.clock(tick);
    }
}

} // verus!
