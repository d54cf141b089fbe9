use vstd::prelude::*;
use crate::cart::Mirroring;
use crate::mapper::{write_through_exec, write_through, Mapper, MappedRead, MappedWrite};

verus! {

/// FME-7 (Sunsoft 5): a command register and a parameter register drive
/// eight 1K CHR banks, four 8K PRG banks (the first of which may be RAM),
/// the mirroring, and a CPU cycle counter that raises an interrupt.
pub struct M069 {
    pub num_prg_banks: usize,
    pub num_chr_banks: usize,
    pub command: u8,
    pub param: u8,
    pub prg_bank: Vec<u8>,
    pub chr_bank: Vec<u8>,
    pub ram_bank: u8,
    pub ram_select: bool,
    pub ram: Vec<u8>,
    pub mirroring: Option<Mirroring>,
    pub irq_control: u8,
    pub irq_counter: u16,
    pub irq_active: bool,
}

impl M069 {
    pub fn new(num_prg_banks: usize, num_chr_banks: usize) -> (r: Self)
        ensures
            r.wf(),
            r.num_prg_banks == num_prg_banks,
            r.num_chr_banks == num_chr_banks,
            r.command == 0,
            r.param == 0,
            r.prg_bank@ == seq![0u8, 0, 0, 0],
            forall|i: int| 0 <= i < 8 ==> r.chr_bank@[i] == 0,
            r.ram_bank == 0,
            !r.ram_select,
            forall|i: int| 0 <= i < 512 * 1024 ==> r.ram@[i] == 0,
            r.mirroring.is_none(),
            r.irq_control == 0,
            r.irq_counter == 0,
            !r.irq_active,
    {
        let r = M069 {
            num_prg_banks,
            num_chr_banks,
            command: 0x00,
            param: 0x00,
            prg_bank: vec![0u8; 4],
            chr_bank: vec![0u8; 8],
            ram_bank: 0x00,
            ram_select: false,
            ram: vec![0u8; 512 * 1024],
            mirroring: None,
            irq_control: 0x00,
            irq_counter: 0x0000,
            irq_active: false,
        };
        assert(r.prg_bank@ =~= seq![0u8, 0, 0, 0]);
        r
    }

    /// IRQ control bit 7: the counter counts down.
    fn irq_decrement_enabled(&self) -> (r: bool)
        ensures
            r == (self.irq_control & 0x80u8 != 0),
    {
        (self.irq_control & 0b1000_0000) != 0
    }

    /// IRQ control bit 0: reaching zero raises the interrupt.
    fn irq_enabled(&self) -> (r: bool)
        ensures
            r == (self.irq_control & 0x01u8 != 0),
    {
        (self.irq_control & 0b0000_0001) != 0
    }

    /// The offset into the RAM of a $6000-$7FFF address.
    pub open spec fn ram_index(&self, addr: u16) -> int {
        (addr - 0x6000) + self.ram_bank * 8192
    }
}

/// The mirroring that command $C selects.
pub open spec fn mirroring_of(data: u8) -> Mirroring {
    let m = data & 0x03u8;
    if m == 0 {
        Mirroring::Vertical
    } else if m == 1 {
        Mirroring::Horizontal
    } else if m == 2 {
        Mirroring::OneScreenLo
    } else {
        Mirroring::OneScreenHi
    }
}

impl Mapper for M069 {
    open spec fn wf(&self) -> bool {
        &&& self.prg_bank@.len() == 4
        &&& self.chr_bank@.len() == 8
        &&& self.ram@.len() == 512 * 1024
        &&& self.ram_bank <= 0x1F
        &&& self.command <= 0x0F
    }

    open spec fn cpu_map(&self, addr: u16) -> MappedRead {
        if 0x6000 <= addr <= 0x7FFF {
            if self.ram_select {
                MappedRead::Data(self.ram@[self.ram_index(addr)])
            } else {
                MappedRead::RAddr(((addr - 0x6000) + self.prg_bank@[0] * 8192) as usize)
            }
        } else if 0x8000 <= addr < 0xE000 {
            let num = ((addr - 0x6000) / 0x2000) as int;
            MappedRead::RAddr(((addr - 0x6000) % 0x2000 + self.prg_bank@[num] * 8192) as usize)
        } else if 0xE000 <= addr {
            MappedRead::RAddr(((addr - 0xE000) + (self.num_prg_banks * 2 - 1) * 8192) as usize)
        } else {
            MappedRead::RSkip
        }
    }

    open spec fn ppu_map(&self, addr: u16) -> MappedRead {
        if addr <= 0x1FFF {
            MappedRead::RAddr((addr % 0x400 + self.chr_bank@[(addr / 0x400) as int] * 1024) as usize)
        } else {
            MappedRead::RSkip
        }
    }

    /// $E000-$FFFF is fixed to the last 8K bank: there must be one, and its
    /// offsets must fit in a `usize`.
    open spec fn cpu_read_ok(&self, addr: u16) -> bool {
        0xE000 <= addr ==> 1 <= self.num_prg_banks && self.num_prg_banks * 2 * 8192 <= usize::MAX + 1
    }

    open spec fn ppu_read_ok(&self, addr: u16) -> bool {
        true
    }

    open spec fn cpu_write_ok(&self, addr: u16) -> bool {
        true
    }

    open spec fn cpu_write_result(&self, addr: u16, data: u8) -> MappedWrite {
        if 0x6000 <= addr <= 0x7FFF {
            if self.ram_select {
                MappedWrite::Wrote
            } else {
                MappedWrite::WAddr(((addr - 0x6000) + self.prg_bank@[0] * 8192) as usize)
            }
        } else if 0x8000 <= addr <= 0xBFFF {
            MappedWrite::Wrote
        } else {
            MappedWrite::WSkip
        }
    }

    /// $8000-$9FFF sets the command; $A000-$BFFF sets the parameter and runs
    /// the command with it.
    open spec fn cpu_write_post(&self, addr: u16, data: u8, new: Self) -> bool {
        let run = 0xA000 <= addr <= 0xBFFF;
        let cmd = self.command;
        let bank_num = data & 0x1Fu8;
        let select_ram = data & 0x40u8 != 0;
        &&& new.num_prg_banks == self.num_prg_banks
        &&& new.num_chr_banks == self.num_chr_banks
        &&& new.command == if 0x8000 <= addr <= 0x9FFF { data & 0x0Fu8 } else { cmd }
        &&& new.param == if run { data } else { self.param }
        &&& new.chr_bank@ == if run && cmd <= 7 {
            self.chr_bank@.update(cmd as int, data)
        } else {
            self.chr_bank@
        }
        &&& new.ram_select == if run && cmd == 8 { select_ram } else { self.ram_select }
        &&& new.ram_bank == if run && cmd == 8 && select_ram { bank_num } else { self.ram_bank }
        &&& new.prg_bank@ == if run && cmd == 8 && !select_ram {
            self.prg_bank@.update(0, bank_num)
        } else if run && 9 <= cmd <= 0x0B {
            self.prg_bank@.update(cmd - 8, bank_num)
        } else {
            self.prg_bank@
        }
        &&& new.mirroring == if run && cmd == 0x0C {
            Some(mirroring_of(data))
        } else {
            self.mirroring
        }
        &&& new.irq_control == if run && cmd == 0x0D { data } else { self.irq_control }
        &&& new.irq_counter == if run && cmd == 0x0E {
            (self.irq_counter & 0xFF00u16) | ((data as u16) & 0x00FFu16)
        } else if run && cmd == 0x0F {
            (self.irq_counter & 0x00FFu16) | (((data as u16) << 8u16) & 0xFF00u16)
        } else {
            self.irq_counter
        }
        &&& new.irq_active == if run && cmd == 0x0D { false } else { self.irq_active }
        &&& new.ram@ == if 0x6000 <= addr <= 0x7FFF && self.ram_select {
            self.ram@.update(self.ram_index(addr), data)
        } else {
            self.ram@
        }
    }

    open spec fn ppu_read_post(&self, addr: u16, new: Self) -> bool {
        new == *self
    }

    open spec fn mirroring_spec(&self) -> Option<Mirroring> {
        self.mirroring
    }

    open spec fn reset_post(&self, new: Self) -> bool {
        new == *self
    }

    open spec fn scanline_post(&self, new: Self) -> bool {
        new == *self
    }

    open spec fn irq_line(&self) -> bool {
        self.irq_active
    }

    open spec fn irq_clear_post(&self, new: Self) -> bool {
        new == M069 { irq_active: false, ..*self }
    }

    /// On every third tick (a CPU cycle), with counting enabled, the counter
    /// goes down by one; from zero it wraps to $FFFF and, with interrupts
    /// enabled, raises the interrupt.
    open spec fn clock_post(&self, tick: u64, new: Self) -> bool {
        if self.irq_control & 0x80u8 != 0 && tick % 3 == 0 {
            if self.irq_counter == 0 {
                new == M069 {
                    irq_counter: 0xFFFF,
                    irq_active: self.irq_active || self.irq_control & 0x01u8 != 0,
                    ..*self
                }
            } else {
                new == M069 { irq_counter: (self.irq_counter - 1) as u16, ..*self }
            }
        } else {
            new == *self
        }
    }

    fn safe_cpu_read(&self, addr: u16) -> (r: MappedRead) {
        if 0x6000 <= addr && addr <= 0x7FFF {
            // CPU $6000-$7FFF: 8 KB bankable PRG ROM or PRG RAM
            if self.ram_select {
                MappedRead::Data(self.ram[((addr - 0x6000) as usize) + (self.ram_bank as usize) * 8 * 1024])
            } else {
                MappedRead::RAddr(((addr - 0x6000) as usize) + (self.prg_bank[0] as usize) * 8 * 1024)
            }
        } else if 0x8000 <= addr && addr < 0xE000 {
            // CPU $8000-$DFFF: three 8 KB bankable PRG ROM windows
            let num: usize = ((addr - 0x6000) / 0x2000) as usize;
            let offset: usize = ((addr - 0x6000) % 0x2000) as usize;
            MappedRead::RAddr(offset + (self.prg_bank[num] as usize) * 8 * 1024)
        } else if 0xE000 <= addr {
            // CPU $E000-$FFFF: 8 KB PRG ROM, fixed to the last 8K bank (the
            // cart counts 16K banks)
            MappedRead::RAddr(((addr - 0xE000) as usize) + ((self.num_prg_banks * 2) - 1) * 8 * 1024)
        } else {
            MappedRead::RSkip
        }
    }

    fn cpu_read(&mut self, addr: u16) -> (r: MappedRead) {
        self.safe_cpu_read(addr)
    }

    fn cpu_write(&mut self, addr: u16, data: u8) -> (r: MappedWrite) {
        if 0x6000 <= addr && addr <= 0x7FFF {
            if self.ram_select {
                let i: usize = ((addr - 0x6000) as usize) + (self.ram_bank as usize) * 8 * 1024;
                self.ram.set(i, data);
                MappedWrite::Wrote
            } else {
                MappedWrite::WAddr(((addr - 0x6000) as usize) + (self.prg_bank[0] as usize) * 8 * 1024)
            }
        } else if 0x8000 <= addr && addr <= 0x9FFF {
            // Command Register: the command that the next parameter runs.
            self.command = data & 0b0000_1111;
            assert(data & 0x0Fu8 <= 0x0F) by (bit_vector);
            MappedWrite::Wrote
        } else if 0xA000 <= addr && addr <= 0xBFFF {
            // Parameter Register: runs the command with this parameter.
            self.param = data;
            let cmd: u8 = self.command;
            if cmd <= 0x07 {
                // CHR Bank 0-7
                self.chr_bank.set(cmd as usize, data);
            } else if cmd == 0x08 {
                // PRG Bank 0: ERbB BBBB, bank number and RAM / ROM select.
                let bank_num: u8 = data & 0b0001_1111;
                assert(data & 0x1Fu8 <= 0x1F) by (bit_vector);
                self.ram_select = (data & 0b0100_0000) != 0;
                if self.ram_select {
                    self.ram_bank = bank_num;
                } else {
                    self.prg_bank.set(0, bank_num);
                }
            } else if cmd <= 0x0B {
                // PRG Bank 1-3
                let num: usize = (cmd - 0x09) as usize + 1;
                self.prg_bank.set(num, data & 0b0001_1111);
            } else if cmd == 0x0C {
                // Name Table Mirroring: 0 vertical, 1 horizontal, 2 and 3
                // one screen from $2000 and $2400.
                let m: u8 = data & 0b0000_0011;
                self.mirroring = if m == 0 {
                    Some(Mirroring::Vertical)
                } else if m == 1 {
                    Some(Mirroring::Horizontal)
                } else if m == 2 {
                    Some(Mirroring::OneScreenLo)
                } else {
                    Some(Mirroring::OneScreenHi)
                };
            } else if cmd == 0x0D {
                // IRQ Control; every write acknowledges an active IRQ.
                self.irq_control = data;
                self.irq_active = false;
            } else if cmd == 0x0E {
                // IRQ Counter Low Byte
                self.irq_counter = (self.irq_counter & 0xFF00) | ((data as u16) & 0x00FF);
            } else {
                // IRQ Counter High Byte
                self.irq_counter = (self.irq_counter & 0x00FF) | (((data as u16) << 8) & 0xFF00);
            }
            MappedWrite::Wrote
        } else {
            MappedWrite::WSkip
        }
    }

    fn safe_ppu_read(&self, addr: u16) -> (r: MappedRead) {
        if addr <= 0x1FFF {
            // PPU $0000-$1FFF: eight 1 KB bankable CHR ROM windows
            let num: usize = (addr / 0x400) as usize;
            let offset: usize = (addr % 0x400) as usize;
            MappedRead::RAddr(offset + (self.chr_bank[num] as usize) * 1024)
        } else {
            MappedRead::RSkip
        }
    }

    fn ppu_read(&mut self, addr: u16) -> (r: MappedRead) {
        self.safe_ppu_read(addr)
    }

    fn ppu_write(&mut self, addr: u16, data: u8) -> (r: MappedWrite) {
        write_through_exec(self.safe_ppu_read(addr))
    }

    fn mirroring(&self) -> (r: Option<Mirroring>) {
        self.mirroring
    }

    fn reset(&mut self) {
    }

    fn scanline_complete(&mut self) {
    }

    fn irq_active(&mut self) -> (r: bool) {
        self.irq_active
    }

    fn irq_clear(&mut self) {
        self.irq_active = false;
    }

    fn clock(&mut self, tick: u64) {
        // Every third PPU tick is a CPU cycle, on which the counter counts.
        if self.irq_decrement_enabled() {
            if (tick % 3) == 0 {
                if self.irq_counter == 0 {
                    if self.irq_enabled() {
                        self.irq_active = true;
                    }
                    self.irq_counter = 0xFFFF;
                } else {
                    self.irq_counter = self.irq_counter - 1;
                }
            }
        }
    }
}

/// Sunsoft FME-7 maps $E000-$FFFF onto the last 8K bank of PRG, at the
/// address's offset, whatever the bank registers hold.
pub proof fn law_m069_fixed_last_bank(m: M069, addr: u16)
    requires
        0xE000 <= addr,
        1 <= m.num_prg_banks,
        m.num_prg_banks * 2 * 8192 <= usize::MAX + 1,
    ensures
        m.cpu_map(addr) matches MappedRead::RAddr(off) && (m.num_prg_banks * 2 - 1) * 8192 <= off
            < m.num_prg_banks * 2 * 8192 && off % 8192 == addr % 8192,
{
}

} // verus!
