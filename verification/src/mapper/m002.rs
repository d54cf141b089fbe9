use vstd::prelude::*;
use crate::cart::Mirroring;
use crate::mapper::{safe_ppu_read, write_through_exec, write_through, nrom_ppu, Mapper, MappedRead, MappedWrite};

verus! {

/// UxROM: a switchable 16K PRG bank at $8000 and the last bank fixed at
/// $C000.
pub struct M002 {
    pub num_banks: usize,
    pub selected_bank: u8,
}

impl M002 {
    pub fn new(num_banks: usize) -> (r: Self)
        ensures
            r.num_banks == num_banks,
            r.selected_bank == 0,
    {
        M002 { num_banks, selected_bank: 0 }
    }
}

impl Mapper for M002 {
    open spec fn wf(&self) -> bool {
        true
    }

    open spec fn cpu_map(&self, addr: u16) -> MappedRead {
        if 0x8000 <= addr <= 0xBFFF {
            MappedRead::RAddr(((addr - 0x8000) + self.selected_bank * 0x4000) as usize)
        } else if 0xC000 <= addr {
            MappedRead::RAddr(((addr - 0xC000) + (self.num_banks - 1) * 0x4000) as usize)
        } else {
            MappedRead::RSkip
        }
    }

    open spec fn ppu_map(&self, addr: u16) -> MappedRead {
        nrom_ppu(addr)
    }

    /// The fixed bank is the last one: there must be one, and its offsets
    /// must fit in a `usize`.
    open spec fn cpu_read_ok(&self, addr: u16) -> bool {
        0xC000 <= addr ==> 1 <= self.num_banks && self.num_banks * 0x4000 <= usize::MAX + 1
    }

    open spec fn ppu_read_ok(&self, addr: u16) -> bool {
        true
    }

    open spec fn cpu_write_ok(&self, addr: u16) -> bool {
        true
    }

    open spec fn cpu_write_result(&self, addr: u16, data: u8) -> MappedWrite {
        MappedWrite::WSkip
    }

    /// A write anywhere in $8000-$FFFF selects the bank at $8000 (the low
    /// three bits of the data).
    open spec fn cpu_write_post(&self, addr: u16, data: u8, new: Self) -> bool {
        &&& new.num_banks == self.num_banks
        &&& new.selected_bank == if addr >= 0x8000 { data & 0x07 } else { self.selected_bank }
    }

    open spec fn ppu_read_post(&self, addr: u16, new: Self) -> bool {
        new == *self
    }

    open spec fn mirroring_spec(&self) -> Option<Mirroring> {
        None
    }

    open spec fn reset_post(&self, new: Self) -> bool {
        new == *self
    }

    open spec fn scanline_post(&self, new: Self) -> bool {
        new == *self
    }

    open spec fn irq_line(&self) -> bool {
        false
    }

    open spec fn irq_clear_post(&self, new: Self) -> bool {
        new == *self
    }

    open spec fn clock_post(&self, tick: u64, new: Self) -> bool {
        new == *self
    }

    fn safe_cpu_read(&self, addr: u16) -> (r: MappedRead) {
        if 0x8000 <= addr && addr <= 0xBFFF {
            // CPU $8000-$BFFF: 16 KB switchable PRG ROM bank
            MappedRead::RAddr(((addr - 0x8000) as usize) + (self.selected_bank as usize) * 0x4000)
        } else if 0xC000 <= addr {
            // CPU $C000-$FFFF: 16 KB PRG ROM bank, fixed to the last bank
            MappedRead::RAddr(((addr - 0xC000) as usize) + (self.num_banks - 1) * 0x4000)
        } else {
            MappedRead::RSkip
        }
    }

    fn cpu_read(&mut self, addr: u16) -> (r: MappedRead) {
        self.safe_cpu_read(addr)
    }

    fn cpu_write(&mut self, addr: u16, data: u8) -> (r: MappedWrite) {
        if addr >= 0x8000 {
            // xxxx pPPP: select the 16 KB PRG ROM bank for CPU $8000-$BFFF
            // (UNROM uses bits 2-0).
            self.selected_bank = data & 0b0000_0111;
        }
        // Nothing is written: the write only selects a bank.
        MappedWrite::WSkip
    }

    fn safe_ppu_read(&self, addr: u16) -> (r: MappedRead) {
        safe_ppu_read(addr)
    }

    fn ppu_read(&mut self, addr: u16) -> (r: MappedRead) {
        self.safe_ppu_read(addr)
    }

    fn ppu_write(&mut self, addr: u16, data: u8) -> (r: MappedWrite) {
        write_through_exec(self.safe_ppu_read(addr))
    }

    fn mirroring(&self) -> (r: Option<Mirroring>) {
        None
    }

    fn reset(&mut self) {
    }

    fn scanline_complete(&mut self) {
    }

    fn irq_active(&mut self) -> (r: bool) {
        false
    }

    fn irq_clear(&mut self) {
    }

    fn clock(&mut self, tick: u64) {
    }
}

/// Where UxROM maps a CPU read: $8000-$BFFF into the selected 16K bank and
/// $C000-$FFFF into the last 16K bank of PRG, each at the address's offset
/// within its 16K window; below $8000 it answers nothing. A bank selection
/// moves only the lower window.
pub proof fn law_m002_cpu_banks(m: M002, addr: u16, data: u8, new: M002)
    requires
        1 <= m.num_banks,
        m.num_banks * 0x4000 <= usize::MAX + 1,
    ensures
        0xC000 <= addr ==> (m.cpu_map(addr) matches MappedRead::RAddr(off) && (m.num_banks - 1) * 0x4000 <= off
            < m.num_banks * 0x4000 && off % 0x4000 == addr % 0x4000),
        0x8000 <= addr < 0xC000 ==> (m.cpu_map(addr) matches MappedRead::RAddr(off) && m.selected_bank * 0x4000
            <= off < (m.selected_bank + 1) * 0x4000 && off % 0x4000 == addr % 0x4000),
        addr < 0x8000 ==> m.cpu_map(addr) == MappedRead::RSkip,
        m.cpu_write_post(addr, data, new) && 0xC000 <= addr ==> new.cpu_map(addr) == m.cpu_map(addr),
{
}

} // verus!
