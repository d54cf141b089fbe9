use vstd::prelude::*;
use crate::cart::Mirroring;
use crate::mapper::{write_through_exec, write_through, Mapper, MappedRead, MappedWrite};

verus! {

/// Where the fixed 16K bank sits in 16K PRG mode.
#[derive(Debug, PartialEq, Eq, Clone, Copy, Structural)]
pub enum PrgFixAddr {
    At8000,
    AtC000,
}

/// How the 32K of CPU ROM space is banked.
#[derive(Debug, PartialEq, Eq, Clone, Copy, Structural)]
pub enum PrgMode {
    Two16K(PrgFixAddr),
    One32K,
}

/// How the 8K of PPU pattern space is banked.
#[derive(Debug, PartialEq, Eq, Clone, Copy, Structural)]
pub enum ChrMode {
    Two4K,
    One8K,
}

/// MMC1: registers loaded one bit at a time through a serial port.
pub struct M001 {
    pub num_prg_banks: usize,
    /// The serial load buffer. Bits enter at the top and shift right; it
    /// starts as `1000_0000`, so the marker bit reaches bit 2 on the fifth
    /// write, which then copies bits 7-3 into the register that the address
    /// of that fifth write selects (its bits 13 and 14).
    pub load: u8,
    pub control: u8,
    pub chr_bank_0: u8,
    pub chr_bank_1: u8,
    pub prg_bank: u8,
    pub ram: Vec<u8>,
}

/// The load buffer after one bit of `data` was shifted into it.
pub open spec fn load_shifted(load: u8, data: u8) -> u8 {
    (load >> 1u8) | (0x80u8 & ((data << 7u8) as u8))
}

/// The PRG mode that the control register selects.
pub open spec fn prg_mode_of(control: u8) -> PrgMode {
    let m = (control & 0x0Cu8) >> 2u8;
    if m == 2 {
        PrgMode::Two16K(PrgFixAddr::At8000)
    } else if m == 3 {
        PrgMode::Two16K(PrgFixAddr::AtC000)
    } else {
        PrgMode::One32K
    }
}

/// The CHR mode that the control register selects.
pub open spec fn chr_mode_of(control: u8) -> ChrMode {
    if control & 0x10u8 != 0 {
        ChrMode::One8K
    } else {
        ChrMode::Two4K
    }
}

/// The mirroring that the control register selects.
pub open spec fn mirroring_of(control: u8) -> Mirroring {
    let m = control & 0x03u8;
    if m == 0 {
        Mirroring::OneScreenLo
    } else if m == 1 {
        Mirroring::OneScreenHi
    } else if m == 2 {
        Mirroring::Vertical
    } else {
        Mirroring::Horizontal
    }
}

impl M001 {
    pub fn new(num_prg_banks: usize) -> (r: Self)
        ensures
            r.num_prg_banks == num_prg_banks,
            r.load == 0x80,
            r.control == 0x1C,
            r.chr_bank_0 == 0,
            r.chr_bank_1 == 0,
            r.prg_bank == 0,
            r.ram@.len() == 0,
    {
        M001 {
            num_prg_banks,
            // The marker bit starts at the top; see `load`.
            load: 0b1000_0000,
            control: 0x1C,
            chr_bank_0: 0x00,
            chr_bank_1: 0x00,
            prg_bank: 0x00,
            ram: Vec::new(),
        }
    }

    fn prg_mode(&self) -> (r: PrgMode)
        ensures
            r == prg_mode_of(self.control),
    {
        let m: u8 = (self.control & 0b01100) >> 2;
        if m == 2 {
            PrgMode::Two16K(PrgFixAddr::At8000)
        } else if m == 3 {
            PrgMode::Two16K(PrgFixAddr::AtC000)
        } else {
            PrgMode::One32K
        }
    }

    fn chr_mode(&self) -> (r: ChrMode)
        ensures
            r == chr_mode_of(self.control),
    {
        if (self.control & 0b10000) != 0 {
            ChrMode::One8K
        } else {
            ChrMode::Two4K
        }
    }

    /// The mapper after a CPU write of `data` to `addr`.
    pub open spec fn after_cpu_write(&self, addr: u16, data: u8) -> M001 {
        if addr < 0x8000 {
            *self
        } else if data & 0x80u8 != 0 {
            M001 { load: 0x80, control: self.control | 0x0Cu8, ..*self }
        } else {
            let load = load_shifted(self.load, data);
            let v = load >> 3u8;
            if load & 0x04u8 == 0 {
                M001 { load, ..*self }
            } else if addr <= 0x9FFF {
                M001 { load: 0x80, control: v, ..*self }
            } else if addr <= 0xBFFF {
                M001 { load: 0x80, chr_bank_0: v, ..*self }
            } else if addr <= 0xDFFF {
                M001 { load: 0x80, chr_bank_1: v, ..*self }
            } else {
                M001 { load: 0x80, prg_bank: v, ..*self }
            }
        }
    }
}

impl Mapper for M001 {
    open spec fn wf(&self) -> bool {
        true
    }

    open spec fn cpu_map(&self, addr: u16) -> MappedRead {
        if 0x6000 <= addr <= 0x7FFF {
            MappedRead::Data(self.ram@[(addr & 0x1FFFu16) as int])
        } else if 0x8000 <= addr {
            match prg_mode_of(self.control) {
                PrgMode::One32K => MappedRead::RAddr(
                    ((addr - 0x8000) + ((self.prg_bank & 0x0Eu8) >> 1u8) * 0x8000) as usize,
                ),
                PrgMode::Two16K(fix) => if addr <= 0xBFFF {
                    let bank: int = if fix == PrgFixAddr::At8000 {
                        0
                    } else {
                        (self.prg_bank & 0x0Fu8) as int
                    };
                    MappedRead::RAddr(((addr - 0x8000) + bank * 0x4000) as usize)
                } else {
                    let bank: int = if fix == PrgFixAddr::At8000 {
                        (self.prg_bank & 0x0Fu8) as int
                    } else {
                        self.num_prg_banks - 1
                    };
                    MappedRead::RAddr(((addr - 0xC000) + bank * 0x4000) as usize)
                },
            }
        } else {
            MappedRead::RSkip
        }
    }

    open spec fn ppu_map(&self, addr: u16) -> MappedRead {
        match chr_mode_of(self.control) {
            ChrMode::One8K => if addr <= 0x1FFF {
                MappedRead::RAddr((addr + ((self.chr_bank_0 & 0x1Eu8) >> 1u8) * 0x2000) as usize)
            } else {
                MappedRead::RSkip
            },
            ChrMode::Two4K => if addr <= 0x0FFF {
                MappedRead::RAddr((addr + self.chr_bank_0 * 0x1000) as usize)
            } else if addr <= 0x1FFF {
                MappedRead::RAddr(((addr - 0x1000) + self.chr_bank_1 * 0x1000) as usize)
            } else {
                MappedRead::RSkip
            },
        }
    }

    /// RAM reads index the optional RAM, which must be large enough; with
    /// the last bank fixed at $C000 there must be a last bank, and its
    /// offsets must fit in a `usize`.
    open spec fn cpu_read_ok(&self, addr: u16) -> bool {
        &&& 0x6000 <= addr <= 0x7FFF ==> ((addr & 0x1FFFu16) as int) < self.ram@.len()
        &&& (0xC000 <= addr && prg_mode_of(self.control) == PrgMode::Two16K(PrgFixAddr::AtC000))
            ==> 1 <= self.num_prg_banks && self.num_prg_banks * 0x4000 <= usize::MAX + 1
    }

    open spec fn ppu_read_ok(&self, addr: u16) -> bool {
        true
    }

    open spec fn cpu_write_ok(&self, addr: u16) -> bool {
        true
    }

    open spec fn cpu_write_result(&self, addr: u16, data: u8) -> MappedWrite {
        MappedWrite::WSkip
    }

    open spec fn cpu_write_post(&self, addr: u16, data: u8, new: Self) -> bool {
        new == self.after_cpu_write(addr, data)
    }

    open spec fn ppu_read_post(&self, addr: u16, new: Self) -> bool {
        new == *self
    }

    open spec fn mirroring_spec(&self) -> Option<Mirroring> {
        Some(mirroring_of(self.control))
    }

    open spec fn reset_post(&self, new: Self) -> bool {
        new == M001 {
            chr_bank_0: 0,
            chr_bank_1: 0,
            prg_bank: 0,
            load: 0x80,
            control: 0x1C,
            ..*self
        }
    }

    open spec fn scanline_post(&self, new: Self) -> bool {
        new == *self
    }

    open spec fn irq_line(&self) -> bool {
        false
    }

    open spec fn irq_clear_post(&self, new: Self) -> bool {
        new == *self
    }

    open spec fn clock_post(&self, tick: u64, new: Self) -> bool {
        new == *self
    }

    fn safe_cpu_read(&self, addr: u16) -> (r: MappedRead) {
        if 0x6000 <= addr && addr <= 0x7FFF {
            // The mapper answers this range itself, from its optional RAM.
            MappedRead::Data(self.ram[(addr & 0x1FFF) as usize])
        } else if 0x8000 <= addr {
            // RPPPP: select a 16 KB PRG ROM bank (low bit ignored in 32 KB mode).
            match self.prg_mode() {
                PrgMode::One32K => {
                    let bank: usize = ((self.prg_bank & 0b01110) >> 1) as usize;
                    MappedRead::RAddr(((addr - 0x8000) as usize) + bank * 0x8000)
                },
                PrgMode::Two16K(fix_at) => {
                    if addr <= 0xBFFF {
                        let bank: usize = match fix_at {
                            PrgFixAddr::At8000 => 0,
                            PrgFixAddr::AtC000 => (self.prg_bank & 0b01111) as usize,
                        };
                        MappedRead::RAddr(((addr - 0x8000) as usize) + bank * 0x4000)
                    } else {
                        let bank: usize = match fix_at {
                            PrgFixAddr::At8000 => (self.prg_bank & 0b01111) as usize,
                            PrgFixAddr::AtC000 => self.num_prg_banks - 1,
                        };
                        MappedRead::RAddr(((addr - 0xC000) as usize) + bank * 0x4000)
                    }
                },
            }
        } else {
            MappedRead::RSkip
        }
    }

    fn cpu_read(&mut self, addr: u16) -> (r: MappedRead) {
        self.safe_cpu_read(addr)
    }

    fn cpu_write(&mut self, addr: u16, data: u8) -> (r: MappedWrite) {
        if addr >= 0x8000 {
            if (data & 0b1000_0000) != 0 {
                // Bit 7 resets the load register and locks PRG ROM at
                // $C000-$FFFF to the last bank.
                self.load = 0b1000_0000;
                self.control = self.control | 0x0C;
                return MappedWrite::WSkip;
            }
            // Otherwise one bit is loaded serially into the shift register.
            self.load = (self.load >> 1) | (0b1000_0000 & (data << 7));
            // On the fifth write the marker bit has reached bit 2.
            if (self.load & 0b0000_0100) == 0 {
                return MappedWrite::WSkip;
            }
            // The fifth write copies the shift register into the register
            // that bits 13 and 14 of its address select.
            let v: u8 = self.load >> 3;
            if addr <= 0x9FFF {
                self.control = v;
            } else if addr <= 0xBFFF {
                self.chr_bank_0 = v;
            } else if addr <= 0xDFFF {
                self.chr_bank_1 = v;
            } else {
                self.prg_bank = v;
            }
            self.load = 0b1000_0000;
        }
        MappedWrite::WSkip
    }

    fn safe_ppu_read(&self, addr: u16) -> (r: MappedRead) {
        match self.chr_mode() {
            ChrMode::One8K => {
                if addr <= 0x1FFF {
                    let bank: usize = ((self.chr_bank_0 & 0b11110) >> 1) as usize;
                    MappedRead::RAddr((addr as usize) + bank * 0x2000)
                } else {
                    MappedRead::RSkip
                }
            },
            ChrMode::Two4K => {
                if addr <= 0x0FFF {
                    MappedRead::RAddr((addr as usize) + (self.chr_bank_0 as usize) * 0x1000)
                } else if addr <= 0x1FFF {
                    MappedRead::RAddr(((addr - 0x1000) as usize) + (self.chr_bank_1 as usize) * 0x1000)
                } else {
                    MappedRead::RSkip
                }
            },
        }
    }

    fn ppu_read(&mut self, addr: u16) -> (r: MappedRead) {
        self.safe_ppu_read(addr)
    }

    fn ppu_write(&mut self, addr: u16, data: u8) -> (r: MappedWrite) {
        write_through_exec(self.safe_ppu_read(addr))
    }

    fn mirroring(&self) -> (r: Option<Mirroring>) {
        let m: u8 = self.control & 0b00011;
        if m == 0 {
            Some(Mirroring::OneScreenLo)
        } else if m == 1 {
            Some(Mirroring::OneScreenHi)
        } else if m == 2 {
            Some(Mirroring::Vertical)
        } else {
            Some(Mirroring::Horizontal)
        }
    }

    fn reset(&mut self) {
        self.chr_bank_0 = 0x00;
        self.chr_bank_1 = 0x00;
        self.prg_bank = 0x00;
        self.load = 0b1000_0000;
        self.control = 0x1C;
    }

    fn scanline_complete(&mut self) {
    }

    fn irq_active(&mut self) -> (r: bool) {
        false
    }

    fn irq_clear(&mut self) {
    }

    fn clock(&mut self, tick: u64) {
    }
}

/// The value that five serial writes load: bit 0 of each write, the first
/// write's bit first.
pub open spec fn serial_value(d0: u8, d1: u8, d2: u8, d3: u8, d4: u8) -> u8 {
    (d0 & 1u8) | ((d1 & 1u8) << 1u8) | ((d2 & 1u8) << 2u8) | ((d3 & 1u8) << 3u8) | ((d4 & 1u8) << 4u8)
}

proof fn lemma_serial_bits(d0: u8, d1: u8, d2: u8, d3: u8, d4: u8)
    by (bit_vector)
    ensures
        load_shifted(0x80, d0) & 0x04u8 == 0,
        load_shifted(load_shifted(0x80, d0), d1) & 0x04u8 == 0,
        load_shifted(load_shifted(load_shifted(0x80, d0), d1), d2) & 0x04u8 == 0,
        load_shifted(load_shifted(load_shifted(load_shifted(0x80, d0), d1), d2), d3) & 0x04u8 == 0,
        load_shifted(load_shifted(load_shifted(load_shifted(load_shifted(0x80, d0), d1), d2), d3), d4) & 0x04u8 != 0,
        load_shifted(load_shifted(load_shifted(load_shifted(load_shifted(0x80, d0), d1), d2), d3), d4) >> 3u8
            == serial_value(d0, d1, d2, d3, d4),
{
}

/// The serial port: from an empty shift register, five writes to
/// $8000-$FFFF with bit 7 clear load the register that the fifth write's
/// address selects ($8000 control, $A000 CHR bank 0, $C000 CHR bank 1,
/// $E000 PRG bank) with bit 0 of each write, the first write's bit first;
/// the shift register is empty again and nothing else changes.
pub proof fn law_m001_serial_load(m: M001, a0: u16, a1: u16, a2: u16, a3: u16, a4: u16, d0: u8, d1: u8, d2: u8, d3: u8, d4: u8)
    requires
        m.load == 0x80,
        a0 >= 0x8000 && a1 >= 0x8000 && a2 >= 0x8000 && a3 >= 0x8000 && a4 >= 0x8000,
        d0 & 0x80u8 == 0 && d1 & 0x80u8 == 0 && d2 & 0x80u8 == 0 && d3 & 0x80u8 == 0 && d4 & 0x80u8 == 0,
    ensures
        ({
            let m5 = m.after_cpu_write(a0, d0).after_cpu_write(a1, d1).after_cpu_write(a2, d2).after_cpu_write(
                a3,
                d3,
            ).after_cpu_write(a4, d4);
            let v = serial_value(d0, d1, d2, d3, d4);
            &&& m5.load == 0x80
            &&& a4 <= 0x9FFF ==> m5 == (M001 { control: v, ..m })
            &&& 0xA000 <= a4 <= 0xBFFF ==> m5 == (M001 { chr_bank_0: v, ..m })
            &&& 0xC000 <= a4 <= 0xDFFF ==> m5 == (M001 { chr_bank_1: v, ..m })
            &&& 0xE000 <= a4 ==> m5 == (M001 { prg_bank: v, ..m })
        }),
{
    lemma_serial_bits(d0, d1, d2, d3, d4);
}

} // verus!
