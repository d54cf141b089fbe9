use vstd::prelude::*;
use crate::cart::Mirroring;
use crate::mapper::{write_through_exec, write_through, Mapper, MappedRead, MappedWrite};

verus! {

/// The tile that last switched a CHR latch.
#[derive(Debug, PartialEq, Eq, Clone, Copy, Structural)]
pub enum ChrLatch {
    FD,
    FE,
}

/// MMC2: one switchable 8K PRG bank, and CHR banks that latches switch
/// when the PPU fetches tiles $FD or $FE.
pub struct M009 {
    pub num_banks: usize,
    pub prg_bank: u8,
    pub chr_bank: Vec<u8>,
    pub chr_latch: Vec<ChrLatch>,
    pub ram: Vec<u8>,
    pub mirroring: Option<Mirroring>,
}

impl M009 {
    pub fn new(num_banks: usize) -> (r: Self)
        ensures
            r.wf(),
            r.num_banks == num_banks,
            r.prg_bank == 0,
            r.chr_bank@ == seq![0u8, 0, 0, 0],
            r.chr_latch@ == seq![ChrLatch::FD, ChrLatch::FD],
            forall|i: int| 0 <= i < 8192 ==> r.ram@[i] == 0,
            r.mirroring.is_none(),
    {
        let r = M009 {
            num_banks,
            prg_bank: 0,
            chr_bank: vec![0u8; 4],
            chr_latch: vec![ChrLatch::FD; 2],
            ram: vec![0u8; 8192],
            mirroring: None,
        };
        assert(r.chr_bank@ =~= seq![0u8, 0, 0, 0]);
        assert(r.chr_latch@ =~= seq![ChrLatch::FD, ChrLatch::FD]);
        r
    }

    /// The CHR bank register that a latch selects in a 4K window
    /// (0 for $0000, 1 for $1000).
    pub open spec fn window_bank(&self, window: int) -> u8 {
        self.window_bank_with(self.chr_latch@, window)
    }

    /// The CHR bank register that the latches `l` select in a 4K window.
    pub open spec fn window_bank_with(&self, l: Seq<ChrLatch>, window: int) -> u8 {
        if l[window] == ChrLatch::FD {
            self.chr_bank@[2 * window]
        } else {
            self.chr_bank@[2 * window + 1]
        }
    }

    /// Where a PPU read of `addr` lands in CHR with the latches `l`.
    pub open spec fn ppu_map_with(&self, l: Seq<ChrLatch>, addr: u16) -> MappedRead {
        if addr <= 0x0FFF {
            MappedRead::RAddr((addr + self.window_bank_with(l, 0) * 4096) as usize)
        } else if addr <= 0x1FFF {
            MappedRead::RAddr(((addr - 0x1000) + self.window_bank_with(l, 1) * 4096) as usize)
        } else {
            MappedRead::RSkip
        }
    }
}

/// The latches after the PPU read `addr`: tile $FD or $FE in either
/// pattern table switches that table's latch.
pub open spec fn latches_after(l: Seq<ChrLatch>, addr: u16) -> Seq<ChrLatch> {
    if addr == 0x0FD8 {
        l.update(0, ChrLatch::FD)
    } else if addr == 0x0FE8 {
        l.update(0, ChrLatch::FE)
    } else if 0x1FD8 <= addr <= 0x1FDF {
        l.update(1, ChrLatch::FD)
    } else if 0x1FE8 <= addr <= 0x1FEF {
        l.update(1, ChrLatch::FE)
    } else {
        l
    }
}

impl Mapper for M009 {
    open spec fn wf(&self) -> bool {
        self.chr_bank@.len() == 4 && self.chr_latch@.len() == 2 && self.ram@.len() == 8192
    }

    open spec fn cpu_map(&self, addr: u16) -> MappedRead {
        if 0x6000 <= addr <= 0x7FFF {
            MappedRead::Data(self.ram@[(addr % 8192) as int])
        } else if 0x8000 <= addr <= 0x9FFF {
            MappedRead::RAddr(((addr - 0x8000) + self.prg_bank * 8192) as usize)
        } else if 0xA000 <= addr {
            MappedRead::RAddr(((addr - 0xA000) + (self.num_banks * 2 - 3) * 8192) as usize)
        } else {
            MappedRead::RSkip
        }
    }

    open spec fn ppu_map(&self, addr: u16) -> MappedRead {
        self.ppu_map_with(self.chr_latch@, addr)
    }

    /// The three fixed banks are the last three 8K banks: there must be
    /// three, and their offsets must fit in a `usize`.
    open spec fn cpu_read_ok(&self, addr: u16) -> bool {
        0xA000 <= addr ==> 3 <= self.num_banks * 2 && self.num_banks * 2 * 8192 <= usize::MAX
    }

    open spec fn ppu_read_ok(&self, addr: u16) -> bool {
        true
    }

    open spec fn cpu_write_ok(&self, addr: u16) -> bool {
        true
    }

    open spec fn cpu_write_result(&self, addr: u16, data: u8) -> MappedWrite {
        if 0xA000 <= addr {
            MappedWrite::Wrote
        } else {
            MappedWrite::WSkip
        }
    }

    /// $A000 selects the PRG bank, $B000-$E000 the four CHR banks and $F000
    /// the mirroring, each in its own 4K range.
    open spec fn cpu_write_post(&self, addr: u16, data: u8, new: Self) -> bool {
        let reg = ((addr - 0xB000) / 0x1000) as int;
        &&& new.num_banks == self.num_banks
        &&& new.prg_bank == if 0xA000 <= addr <= 0xAFFF { data & 0x0Fu8 } else { self.prg_bank }
        &&& new.chr_bank@ == if 0xB000 <= addr <= 0xEFFF {
            self.chr_bank@.update(reg, data & 0x1Fu8)
        } else {
            self.chr_bank@
        }
        &&& new.chr_latch@ == self.chr_latch@
        &&& new.ram@ == self.ram@
        &&& new.mirroring == if 0xF000 <= addr {
            Some(if data & 0x01u8 == 1 { Mirroring::Horizontal } else { Mirroring::Vertical })
        } else {
            self.mirroring
        }
    }

    open spec fn ppu_read_post(&self, addr: u16, new: Self) -> bool {
        &&& new.num_banks == self.num_banks
        &&& new.prg_bank == self.prg_bank
        &&& new.chr_bank@ == self.chr_bank@
        &&& new.chr_latch@ == latches_after(self.chr_latch@, addr)
        &&& new.ram@ == self.ram@
        &&& new.mirroring == self.mirroring
    }

    open spec fn mirroring_spec(&self) -> Option<Mirroring> {
        self.mirroring
    }

    open spec fn reset_post(&self, new: Self) -> bool {
        new == *self
    }

    open spec fn scanline_post(&self, new: Self) -> bool {
        new == *self
    }

    open spec fn irq_line(&self) -> bool {
        false
    }

    open spec fn irq_clear_post(&self, new: Self) -> bool {
        new == *self
    }

    open spec fn clock_post(&self, tick: u64, new: Self) -> bool {
        new == *self
    }

    fn safe_cpu_read(&self, addr: u16) -> (r: MappedRead) {
        if 0x6000 <= addr && addr <= 0x7FFF {
            // CPU $6000-$7FFF: 8 KB PRG RAM bank (PlayChoice version only)
            MappedRead::Data(self.ram[(addr as usize) % self.ram.len()])
        } else if 0x8000 <= addr && addr <= 0x9FFF {
            // CPU $8000-$9FFF: 8 KB switchable PRG ROM bank
            MappedRead::RAddr(((addr - 0x8000) as usize) + (self.prg_bank as usize) * 8 * 1024)
        } else if 0xA000 <= addr {
            // CPU $A000-$FFFF: three 8 KB PRG ROM banks, fixed to the last three
            MappedRead::RAddr(((addr - 0xA000) as usize) + ((self.num_banks * 2) - 3) * 8 * 1024)
        } else {
            MappedRead::RSkip
        }
    }

    fn cpu_read(&mut self, addr: u16) -> (r: MappedRead) {
        self.safe_cpu_read(addr)
    }

    fn cpu_write(&mut self, addr: u16, data: u8) -> (r: MappedWrite) {
        if 0xA000 <= addr && addr <= 0xAFFF {
            // xxxx PPPP: select the 8 KB PRG ROM bank for CPU $8000-$9FFF
            self.prg_bank = data & 0b0000_1111;
            MappedWrite::Wrote
        } else if 0xB000 <= addr && addr <= 0xEFFF {
            // xxxC CCCC: select a 4 KB CHR ROM bank; $B000 and $C000 for PPU
            // $0000-$0FFF (latch $FD, $FE), $D000 and $E000 for PPU
            // $1000-$1FFF (latch $FD, $FE)
            let reg: usize = ((addr - 0xB000) / 0x1000) as usize;
            self.chr_bank.set(reg, data & 0b0001_1111);
            MappedWrite::Wrote
        } else if 0xF000 <= addr {
            // xxxx xxxM: nametable mirroring (0: vertical; 1: horizontal)
            self.mirroring = if data & 0b0000_0001 == 1 {
                Some(Mirroring::Horizontal)
            } else {
                Some(Mirroring::Vertical)
            };
            MappedWrite::Wrote
        } else {
            MappedWrite::WSkip
        }
    }

    fn safe_ppu_read(&self, addr: u16) -> (r: MappedRead) {
        if addr <= 0x0FFF {
            // PPU $0000-$0FFF: two 4 KB switchable CHR ROM banks
            let bank: u8 = match self.chr_latch[0] {
                ChrLatch::FD => self.chr_bank[0],
                ChrLatch::FE => self.chr_bank[1],
            };
            MappedRead::RAddr((addr as usize) + (bank as usize) * 4 * 1024)
        } else if addr <= 0x1FFF {
            // PPU $1000-$1FFF: two 4 KB switchable CHR ROM banks
            let bank: u8 = match self.chr_latch[1] {
                ChrLatch::FD => self.chr_bank[2],
                ChrLatch::FE => self.chr_bank[3],
            };
            MappedRead::RAddr(((addr - 0x1000) as usize) + (bank as usize) * 4 * 1024)
        } else {
            MappedRead::RSkip
        }
    }

    /// The mapping is that of `safe_ppu_read`; the tiles $FD and $FE then
    /// switch the latches for the reads that follow.
    fn ppu_read(&mut self, addr: u16) -> (r: MappedRead) {
        let result: MappedRead = self.safe_ppu_read(addr);
        if addr == 0x0FD8 {
            self.chr_latch.set(0, ChrLatch::FD);
        } else if addr == 0x0FE8 {
            self.chr_latch.set(0, ChrLatch::FE);
        } else if 0x1FD8 <= addr && addr <= 0x1FDF {
            self.chr_latch.set(1, ChrLatch::FD);
        } else if 0x1FE8 <= addr && addr <= 0x1FEF {
            self.chr_latch.set(1, ChrLatch::FE);
        }
        result
    }

    fn ppu_write(&mut self, addr: u16, data: u8) -> (r: MappedWrite) {
        write_through_exec(self.safe_ppu_read(addr))
    }

    fn mirroring(&self) -> (r: Option<Mirroring>) {
        self.mirroring
    }

    fn reset(&mut self) {
    }

    fn scanline_complete(&mut self) {
    }

    fn irq_active(&mut self) -> (r: bool) {
        false
    }

    fn irq_clear(&mut self) {
    }

    fn clock(&mut self, tick: u64) {
    }
}

/// MMC2 maps $A000-$FFFF onto the last three 8K banks of PRG, in order, at
/// the address's offset from $A000, whatever the bank registers hold; and
/// $8000-$9FFF onto the selected 8K bank.
pub proof fn law_m009_prg_banks(m: M009, addr: u16)
    requires
        3 <= m.num_banks * 2,
        m.num_banks * 2 * 8192 <= usize::MAX,
    ensures
        0xA000 <= addr ==> (m.cpu_map(addr) matches MappedRead::RAddr(off) && off == (m.num_banks * 2 - 3) * 8192
            + (addr - 0xA000) && off < m.num_banks * 2 * 8192),
        0x8000 <= addr <= 0x9FFF ==> m.cpu_map(addr) == MappedRead::RAddr(
            (m.prg_bank * 8192 + (addr - 0x8000)) as usize,
        ),
{
}

} // verus!
