use vstd::prelude::*;
use crate::cart::Mirroring;
use crate::mapper::{
    safe_cpu_read, safe_ppu_read, write_through_exec, write_through, nrom_cpu, nrom_ppu, Mapper,
    MappedRead, MappedWrite,
};

verus! {

/// NROM: no bank switching; 16K or 32K of PRG ROM and 8K of CHR.
pub struct M000 {
    pub num_banks: usize,
}

impl M000 {
    pub fn new(num_banks: usize) -> (r: Self)
        ensures
            r.num_banks == num_banks,
    {
        M000 { num_banks }
    }
}

impl Mapper for M000 {
    open spec fn wf(&self) -> bool {
        true
    }

    open spec fn cpu_map(&self, addr: u16) -> MappedRead {
        nrom_cpu(self.num_banks, addr)
    }

    open spec fn ppu_map(&self, addr: u16) -> MappedRead {
        nrom_ppu(addr)
    }

    open spec fn cpu_read_ok(&self, addr: u16) -> bool {
        true
    }

    open spec fn ppu_read_ok(&self, addr: u16) -> bool {
        true
    }

    open spec fn cpu_write_ok(&self, addr: u16) -> bool {
        true
    }

    open spec fn cpu_write_result(&self, addr: u16, data: u8) -> MappedWrite {
        write_through(self.cpu_map(addr))
    }

    open spec fn cpu_write_post(&self, addr: u16, data: u8, new: Self) -> bool {
        new == *self
    }

    open spec fn ppu_read_post(&self, addr: u16, new: Self) -> bool {
        new == *self
    }

    open spec fn mirroring_spec(&self) -> Option<Mirroring> {
        None
    }

    open spec fn reset_post(&self, new: Self) -> bool {
        new == *self
    }

    open spec fn scanline_post(&self, new: Self) -> bool {
        new == *self
    }

    open spec fn irq_line(&self) -> bool {
        false
    }

    open spec fn irq_clear_post(&self, new: Self) -> bool {
        new == *self
    }

    open spec fn clock_post(&self, tick: u64, new: Self) -> bool {
        new == *self
    }

    fn safe_cpu_read(&self, addr: u16) -> (r: MappedRead) {
        safe_cpu_read(self.num_banks, addr)
    }

    fn cpu_read(&mut self, addr: u16) -> (r: MappedRead) {
        self.safe_cpu_read(addr)
    }

    fn cpu_write(&mut self, addr: u16, data: u8) -> (r: MappedWrite) {
        write_through_exec(self.safe_cpu_read(addr))
    }

    fn safe_ppu_read(&self, addr: u16) -> (r: MappedRead) {
        safe_ppu_read(addr)
    }

    fn ppu_read(&mut self, addr: u16) -> (r: MappedRead) {
        self.safe_ppu_read(addr)
    }

    fn ppu_write(&mut self, addr: u16, data: u8) -> (r: MappedWrite) {
        write_through_exec(self.safe_ppu_read(addr))
    }

    fn mirroring(&self) -> (r: Option<Mirroring>) {
        None
    }

    fn reset(&mut self) {
    }

    fn scanline_complete(&mut self) {
    }

    fn irq_active(&mut self) -> (r: bool) {
        false
    }

    fn irq_clear(&mut self) {
    }

    fn clock(&mut self, tick: u64) {
    }
}

} // verus!
