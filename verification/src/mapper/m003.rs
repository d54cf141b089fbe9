use vstd::prelude::*;
use crate::cart::Mirroring;
use crate::mapper::{safe_cpu_read, write_through_exec, write_through, nrom_cpu, Mapper, MappedRead, MappedWrite};

verus! {

/// CNROM: fixed PRG as in NROM, and a switchable 8K CHR bank.
pub struct M003 {
    pub num_prg_banks: usize,
    pub selected_bank: u8,
}

impl M003 {
    pub fn new(num_prg_banks: usize) -> (r: Self)
        ensures
            r.num_prg_banks == num_prg_banks,
            r.selected_bank == 0,
    {
        M003 { num_prg_banks, selected_bank: 0 }
    }
}

impl Mapper for M003 {
    open spec fn wf(&self) -> bool {
        true
    }

    open spec fn cpu_map(&self, addr: u16) -> MappedRead {
        nrom_cpu(self.num_prg_banks, addr)
    }

    open spec fn ppu_map(&self, addr: u16) -> MappedRead {
        if addr <= 0x1FFF {
            MappedRead::RAddr((addr + self.selected_bank * 0x2000) as usize)
        } else {
            MappedRead::RSkip
        }
    }

    open spec fn cpu_read_ok(&self, addr: u16) -> bool {
        true
    }

    open spec fn ppu_read_ok(&self, addr: u16) -> bool {
        true
    }

    open spec fn cpu_write_ok(&self, addr: u16) -> bool {
        true
    }

    open spec fn cpu_write_result(&self, addr: u16, data: u8) -> MappedWrite {
        MappedWrite::WSkip
    }

    /// A write anywhere in $8000-$FFFF selects the CHR bank (the low two
    /// bits of the data).
    open spec fn cpu_write_post(&self, addr: u16, data: u8, new: Self) -> bool {
        &&& new.num_prg_banks == self.num_prg_banks
        &&& new.selected_bank == if addr >= 0x8000 { data & 0x03 } else { self.selected_bank }
    }

    open spec fn ppu_read_post(&self, addr: u16, new: Self) -> bool {
        new == *self
    }

    open spec fn mirroring_spec(&self) -> Option<Mirroring> {
        None
    }

    open spec fn reset_post(&self, new: Self) -> bool {
        new == *self
    }

    open spec fn scanline_post(&self, new: Self) -> bool {
        new == *self
    }

    open spec fn irq_line(&self) -> bool {
        false
    }

    open spec fn irq_clear_post(&self, new: Self) -> bool {
        new == *self
    }

    open spec fn clock_post(&self, tick: u64, new: Self) -> bool {
        new == *self
    }

    fn safe_cpu_read(&self, addr: u16) -> (r: MappedRead) {
        safe_cpu_read(self.num_prg_banks, addr)
    }

    fn cpu_read(&mut self, addr: u16) -> (r: MappedRead) {
        self.safe_cpu_read(addr)
    }

    fn cpu_write(&mut self, addr: u16, data: u8) -> (r: MappedWrite) {
        if addr >= 0x8000 {
            // cccc ccCC: select the 8 KB CHR ROM bank for PPU $0000-$1FFF.
            // CNROM only implements the lowest 2 bits, capping it at 32 KiB CHR.
            self.selected_bank = data & 0b0000_0011;
        }
        // Nothing is written: the write only selects a bank.
        MappedWrite::WSkip
    }

    fn safe_ppu_read(&self, addr: u16) -> (r: MappedRead) {
        if addr <= 0x1FFF {
            MappedRead::RAddr((addr as usize) + (self.selected_bank as usize) * 0x2000)
        } else {
            MappedRead::RSkip
        }
    }

    fn ppu_read(&mut self, addr: u16) -> (r: MappedRead) {
        self.safe_ppu_read(addr)
    }

    fn ppu_write(&mut self, addr: u16, data: u8) -> (r: MappedWrite) {
        write_through_exec(self.safe_ppu_read(addr))
    }

    fn mirroring(&self) -> (r: Option<Mirroring>) {
        None
    }

    fn reset(&mut self) {
    }

    fn scanline_complete(&mut self) {
    }

    fn irq_active(&mut self) -> (r: bool) {
        false
    }

    fn irq_clear(&mut self) {
    }

    fn clock(&mut self, tick: u64) {
    }
}

/// CNROM maps the PPU's $0000-$1FFF onto the selected 8K CHR bank, at the
/// address's offset, and the CPU side as NROM does; a write to
/// $8000-$FFFF selects the bank (the low two bits of the data).
pub proof fn law_m003_chr_bank(m: M003, addr: u16)
    ensures
        addr <= 0x1FFF ==> m.ppu_map(addr) == MappedRead::RAddr((m.selected_bank * 0x2000 + addr) as usize),
        addr > 0x1FFF ==> m.ppu_map(addr) == MappedRead::RSkip,
        m.cpu_map(addr) == nrom_cpu(m.num_prg_banks, addr),
{
}

} // verus!
