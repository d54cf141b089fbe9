use vstd::prelude::*;
use crate::cart::Mirroring;

pub mod m000;
pub mod m001;
pub mod m002;
pub mod m003;
pub mod m004;
pub mod m009;
pub mod m069;

verus! {

/// Where a read lands: data the mapper answers itself, an offset into the
/// cartridge ROM, or nothing the mapper handles.
#[derive(Debug, PartialEq, Eq, Clone, Copy, Structural)]
pub enum MappedRead {
    Data(u8),
    RAddr(usize),
    RSkip,
}

/// Where a write lands: an offset into the cartridge ROM, taken by the
/// mapper itself, or nothing the mapper handles.
#[derive(Debug, PartialEq, Eq, Clone, Copy, Structural)]
pub enum MappedWrite {
    WAddr(usize),
    Wrote,
    WSkip,
}

/// The write that a mapper without write registers makes of a read: a ROM
/// offset stays a ROM offset, anything else is skipped.
pub open spec fn write_through(r: MappedRead) -> MappedWrite {
    match r {
        MappedRead::RAddr(a) => MappedWrite::WAddr(a),
        _ => MappedWrite::WSkip,
    }
}

/// A cartridge mapper: the hardware on a cartridge that maps the CPU and
/// PPU address spaces onto banks of ROM and RAM.
///
/// Each mapper states, over its own fields, what every access answers and
/// what it does to the mapper's registers; the methods are held to those
/// statements.
pub trait Mapper: Sized {
    /// The mapper's internal invariant (the sizes of its register files).
    spec fn wf(&self) -> bool;

    /// What a side-effect free CPU read of `addr` answers.
    spec fn cpu_map(&self, addr: u16) -> MappedRead;

    /// What a side-effect free PPU read of `addr` answers.
    spec fn ppu_map(&self, addr: u16) -> MappedRead;

    /// A CPU read of `addr` is answered without a panic.
    spec fn cpu_read_ok(&self, addr: u16) -> bool;

    /// A PPU read of `addr` is answered without a panic.
    spec fn ppu_read_ok(&self, addr: u16) -> bool;

    /// A CPU write to `addr` is handled without a panic.
    spec fn cpu_write_ok(&self, addr: u16) -> bool;

    /// The answer of a CPU write of `data` to `addr`.
    spec fn cpu_write_result(&self, addr: u16, data: u8) -> MappedWrite;

    /// `new` is the mapper after a CPU write of `data` to `addr`.
    spec fn cpu_write_post(&self, addr: u16, data: u8, new: Self) -> bool;

    /// `new` is the mapper after a PPU read of `addr`.
    spec fn ppu_read_post(&self, addr: u16, new: Self) -> bool;

    /// The nametable mirroring that the mapper sets, if it sets one.
    spec fn mirroring_spec(&self) -> Option<Mirroring>;

    /// `new` is the mapper after a reset.
    spec fn reset_post(&self, new: Self) -> bool;

    /// `new` is the mapper after it was told that a scanline is complete.
    spec fn scanline_post(&self, new: Self) -> bool;

    /// Whether the mapper holds its interrupt line.
    spec fn irq_line(&self) -> bool;

    /// `new` is the mapper after its interrupt was acknowledged.
    spec fn irq_clear_post(&self, new: Self) -> bool;

    /// `new` is the mapper after PPU clock number `tick`.
    spec fn clock_post(&self, tick: u64, new: Self) -> bool;

    fn safe_cpu_read(&self, addr: u16) -> (r: MappedRead)
        requires
            self.wf(),
            self.cpu_read_ok(addr),
        ensures
            r == self.cpu_map(addr),
    ;

    fn cpu_read(&mut self, addr: u16) -> (r: MappedRead)
        requires
            old(self).wf(),
            old(self).cpu_read_ok(addr),
        ensures
            r == old(self).cpu_map(addr),
            *final(self) == *old(self),
    ;

    fn cpu_write(&mut self, addr: u16, data: u8) -> (r: MappedWrite)
        requires
            old(self).wf(),
            old(self).cpu_write_ok(addr),
        ensures
            final(self).wf(),
            r == old(self).cpu_write_result(addr, data),
            old(self).cpu_write_post(addr, data, *final(self)),
    ;

    fn safe_ppu_read(&self, addr: u16) -> (r: MappedRead)
        requires
            self.wf(),
            self.ppu_read_ok(addr),
        ensures
            r == self.ppu_map(addr),
    ;

    fn ppu_read(&mut self, addr: u16) -> (r: MappedRead)
        requires
            old(self).wf(),
            old(self).ppu_read_ok(addr),
        ensures
            final(self).wf(),
            r == old(self).ppu_map(addr),
            old(self).ppu_read_post(addr, *final(self)),
    ;

    fn ppu_write(&mut self, addr: u16, data: u8) -> (r: MappedWrite)
        requires
            old(self).wf(),
            old(self).ppu_read_ok(addr),
        ensures
            r == write_through(old(self).ppu_map(addr)),
            *final(self) == *old(self),
    ;

    fn mirroring(&self) -> (r: Option<Mirroring>)
        ensures
            r == self.mirroring_spec(),
    ;

    fn reset(&mut self)
        requires
            old(self).wf(),
        ensures
            final(self).wf(),
            old(self).reset_post(*final(self)),
    ;

    /// Called by the emulator when a scanline has been completed. A mapper
    /// such as MMC3 would detect this on the PPU bus; here it is told.
    fn scanline_complete(&mut self)
        requires
            old(self).wf(),
        ensures
            final(self).wf(),
            old(self).scanline_post(*final(self)),
    ;

    fn irq_active(&mut self) -> (r: bool)
        ensures
            r == old(self).irq_line(),
            *final(self) == *old(self),
    ;

    fn irq_clear(&mut self)
        requires
            old(self).wf(),
        ensures
            final(self).wf(),
            old(self).irq_clear_post(*final(self)),
    ;

    /// Called on every PPU clock; every third one is a CPU clock.
    fn clock(&mut self, tick: u64)
        requires
            old(self).wf(),
        ensures
            final(self).wf(),
            old(self).clock_post(tick, *final(self)),
    ;
}

/// The CPU mapping of NROM: $8000-$FFFF onto 32K of ROM, or onto 16K
/// mirrored twice.
pub open spec fn nrom_cpu(num_banks: usize, addr: u16) -> MappedRead {
    if addr >= 0x8000 {
        MappedRead::RAddr((addr & if num_banks > 1 { 0x7FFFu16 } else { 0x3FFFu16 }) as usize)
    } else {
        MappedRead::RSkip
    }
}

/// The PPU mapping of a fixed 8K of CHR: $0000-$1FFF onto itself.
pub open spec fn nrom_ppu(addr: u16) -> MappedRead {
    if addr <= 0x1FFF {
        MappedRead::RAddr(addr as usize)
    } else {
        MappedRead::RSkip
    }
}

/// The NROM mapping of a CPU address, for a ROM of `num_banks` 16K banks.
pub fn safe_cpu_read(num_banks: usize, addr: u16) -> (r: MappedRead)
    ensures
        r == nrom_cpu(num_banks, addr),
{
    if addr >= 0x8000 {
        // - num_banks > 1 => 32k rom => map 0x8000 to 0x0000
        // - else, this is a 16k rom => mirror 0x8000 thru the full addr range
        MappedRead::RAddr((addr & if num_banks > 1 { 0x7FFF } else { 0x3FFF }) as usize)
    } else {
        MappedRead::RSkip
    }
}

/// The fixed mapping of a PPU address onto 8K of CHR.
pub fn safe_ppu_read(addr: u16) -> (r: MappedRead)
    ensures
        r == nrom_ppu(addr),
{
    if addr <= 0x1FFF {
        MappedRead::RAddr(addr as usize)
    } else {
        MappedRead::RSkip
    }
}

/// The write a mapper without write registers makes of a read.
pub fn write_through_exec(r: MappedRead) -> (w: MappedWrite)
    ensures
        w == write_through(r),
{
    match r {
        MappedRead::RAddr(a) => MappedWrite::WAddr(a),
        _ => MappedWrite::WSkip,
    }
}

/// Masking an address of $8000-$FFFF keeps its offset in a 32K or a 16K
/// window.
proof fn lemma_window_masks(addr: u16)
    by (bit_vector)
    requires
        addr >= 0x8000,
    ensures
        (addr & 0x7FFFu16) == (addr - 0x8000) % 0x8000,
        (addr & 0x3FFFu16) == (addr - 0x8000) % 0x4000,
{
}

/// NROM maps $8000-$FFFF onto PRG: a 32K ROM (more than one 16K bank) once,
/// from its start, and a 16K ROM twice, so that $C000-$FFFF mirrors
/// $8000-$BFFF. Below $8000 it answers nothing; the PPU sees the 8K of CHR
/// at $0000-$1FFF as it is, and nothing above.
pub proof fn law_nrom_windows(num_banks: usize, addr: u16)
    ensures
        addr >= 0x8000 && num_banks > 1 ==> nrom_cpu(num_banks, addr) == MappedRead::RAddr(
            (addr - 0x8000) as usize,
        ),
        addr >= 0x8000 && num_banks <= 1 ==> nrom_cpu(num_banks, addr) == MappedRead::RAddr(
            ((addr - 0x8000) % 0x4000) as usize,
        ),
        addr >= 0xC000 && num_banks <= 1 ==> nrom_cpu(num_banks, addr) == nrom_cpu(num_banks, (addr - 0x4000) as u16),
        addr < 0x8000 ==> nrom_cpu(num_banks, addr) == MappedRead::RSkip,
        addr <= 0x1FFF ==> nrom_ppu(addr) == MappedRead::RAddr(addr as usize),
        addr > 0x1FFF ==> nrom_ppu(addr) == MappedRead::RSkip,
{
    if addr >= 0x8000 {
        lemma_window_masks(addr);
    }
    if addr >= 0xC000 {
        lemma_window_masks((addr - 0x4000) as u16);
    }
}

} // verus!
