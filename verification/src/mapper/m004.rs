use vstd::prelude::*;
use crate::cart::Mirroring;
use crate::mapper::{write_through_exec, write_through, Mapper, MappedRead, MappedWrite};

verus! {

/// Which of the two 8K windows at $8000 and $C000 is switchable.
#[derive(Debug, PartialEq, Eq, Clone, Copy, Structural)]
pub enum PrgBankMode {
    Swap8000FixC000,
    SwapC000Fix8000,
}

/// Whether the two 2K CHR banks come first or the four 1K banks.
#[derive(Debug, PartialEq, Eq, Clone, Copy, Structural)]
pub enum ChrBankMode {
    TwoK2FourK1,
    FourK1TwoK2,
}

/// MMC3: eight bank registers, 8K of PRG RAM and a scanline counter that
/// raises an interrupt.
pub struct M004 {
    /// The number of 8K PRG banks.
    pub num_prg_banks: usize,
    pub selected_register: Option<u8>,
    pub registers: Vec<u8>,
    pub ram: Vec<u8>,
    pub prg_bank_mode: PrgBankMode,
    pub chr_bank_mode: ChrBankMode,
    pub mirroring: Option<Mirroring>,
    pub irq_reload: u8,
    pub irq_counter: u8,
    pub irq_enabled: bool,
    pub irq_active: bool,
}

impl M004 {
    /// A mapper for `num_prg_banks` banks of 16K, which it counts as twice
    /// as many banks of 8K.
    pub fn new(num_prg_banks: usize) -> (r: Self)
        requires
            num_prg_banks * 2 <= usize::MAX,
        ensures
            r.wf(),
            r.num_prg_banks == num_prg_banks * 2,
            r.selected_register.is_none(),
            forall|i: int| 0 <= i < 8 ==> r.registers@[i] == 0,
            forall|i: int| 0 <= i < 8192 ==> r.ram@[i] == 0,
            r.prg_bank_mode == PrgBankMode::SwapC000Fix8000,
            r.chr_bank_mode == ChrBankMode::TwoK2FourK1,
            r.mirroring.is_none(),
            r.irq_reload == 0,
            r.irq_counter == 0,
            !r.irq_enabled,
            !r.irq_active,
    {
        M004 {
            // The cart counts 16K banks; this mapper banks 8K at a time.
            num_prg_banks: num_prg_banks * 2,
            selected_register: None,
            registers: vec![0u8; 8],
            ram: vec![0u8; 8192],
            prg_bank_mode: PrgBankMode::SwapC000Fix8000,
            chr_bank_mode: ChrBankMode::TwoK2FourK1,
            mirroring: None,
            irq_reload: 0x00,
            irq_counter: 0x00,
            irq_enabled: false,
            irq_active: false,
        }
    }

    /// The ROM offset of PRG window `num` (0-3, at $8000, $A000, $C000 and
    /// $E000).
    pub open spec fn prg_bank_spec(&self, num: int) -> int {
        let r6 = (self.registers@[6] & 0x3Fu8) as int;
        let r7 = (self.registers@[7] & 0x3Fu8) as int;
        let second_last = self.num_prg_banks - 2;
        let last = self.num_prg_banks - 1;
        match self.prg_bank_mode {
            PrgBankMode::Swap8000FixC000 => if num == 0 {
                r6 * 8192
            } else if num == 1 {
                r7 * 8192
            } else if num == 2 {
                second_last * 8192
            } else {
                last * 8192
            },
            PrgBankMode::SwapC000Fix8000 => if num == 0 {
                second_last * 8192
            } else if num == 1 {
                r7 * 8192
            } else if num == 2 {
                r6 * 8192
            } else {
                last * 8192
            },
        }
    }

    /// Whether PRG window `num` can be computed: the fixed windows need
    /// two banks and offsets that fit in a `usize`.
    pub open spec fn prg_bank_ok(&self, num: int) -> bool {
        let fixed_second_last = (num == 2 && self.prg_bank_mode == PrgBankMode::Swap8000FixC000)
            || (num == 0 && self.prg_bank_mode == PrgBankMode::SwapC000Fix8000);
        &&& fixed_second_last ==> self.num_prg_banks >= 2
        &&& num == 3 ==> self.num_prg_banks >= 1
        &&& (num == 3 || fixed_second_last) ==> self.num_prg_banks * 8192 <= usize::MAX + 1
    }

    fn prg_bank(&self, num: usize) -> (r: usize)
        requires
            self.wf(),
            num < 4,
            self.prg_bank_ok(num as int),
        ensures
            r == self.prg_bank_spec(num as int),
            r + 0x1FFF <= usize::MAX,
    {
        let r6: usize = (self.registers[6] & 0b0011_1111) as usize;
        let r7: usize = (self.registers[7] & 0b0011_1111) as usize;
        match self.prg_bank_mode {
            PrgBankMode::Swap8000FixC000 => {
                if num == 0 {
                    // $8000-$9FFF
                    r6 * (8 * 1024)
                } else if num == 1 {
                    // $A000-$BFFF
                    r7 * (8 * 1024)
                } else if num == 2 {
                    // $C000-$DFFF is fixed to the second-to-last bank
                    (self.num_prg_banks - 2) * (8 * 1024)
                } else {
                    // $E000-$FFFF always maps to the last bank
                    (self.num_prg_banks - 1) * (8 * 1024)
                }
            },
            PrgBankMode::SwapC000Fix8000 => {
                if num == 0 {
                    // $8000-$9FFF is fixed to the second-to-last bank
                    (self.num_prg_banks - 2) * (8 * 1024)
                } else if num == 1 {
                    // $A000-$BFFF
                    r7 * (8 * 1024)
                } else if num == 2 {
                    // $C000-$DFFF
                    r6 * (8 * 1024)
                } else {
                    // $E000-$FFFF always maps to the last bank
                    (self.num_prg_banks - 1) * (8 * 1024)
                }
            },
        }
    }

    /// The CHR offset of 1K window `num` (0-7): two 2K banks (registers 0
    /// and 1) and four 1K banks (registers 2-5), the 2K banks first or
    /// last by the CHR bank mode.
    pub open spec fn chr_bank_spec(&self, num: int) -> int {
        let r0 = (self.registers@[0] & 0xFEu8) as int;
        let r1 = (self.registers@[1] & 0xFEu8) as int;
        match self.chr_bank_mode {
            ChrBankMode::TwoK2FourK1 => if num == 0 {
                r0 * 1024
            } else if num == 1 {
                (r0 + 1) * 1024
            } else if num == 2 {
                r1 * 1024
            } else if num == 3 {
                (r1 + 1) * 1024
            } else {
                self.registers@[num - 2] * 1024
            },
            ChrBankMode::FourK1TwoK2 => if num <= 3 {
                self.registers@[num + 2] * 1024
            } else if num == 4 {
                r0 * 1024
            } else if num == 5 {
                (r0 + 1) * 1024
            } else if num == 6 {
                r1 * 1024
            } else {
                (r1 + 1) * 1024
            },
        }
    }

    fn chr_bank(&self, num: usize) -> (r: usize)
        requires
            self.wf(),
            num < 8,
        ensures
            r == self.chr_bank_spec(num as int),
            r <= 256 * 1024,
    {
        let r0: usize = (self.registers[0] & 0b1111_1110) as usize;
        let r1: usize = (self.registers[1] & 0b1111_1110) as usize;
        match self.chr_bank_mode {
            ChrBankMode::TwoK2FourK1 => {
                if num == 0 {
                    r0 * 1024
                } else if num == 1 {
                    (r0 + 1) * 1024
                } else if num == 2 {
                    r1 * 1024
                } else if num == 3 {
                    (r1 + 1) * 1024
                } else {
                    (self.registers[num - 2] as usize) * 1024
                }
            },
            ChrBankMode::FourK1TwoK2 => {
                if num <= 3 {
                    (self.registers[num + 2] as usize) * 1024
                } else if num == 4 {
                    r0 * 1024
                } else if num == 5 {
                    (r0 + 1) * 1024
                } else if num == 6 {
                    r1 * 1024
                } else {
                    (r1 + 1) * 1024
                }
            },
        }
    }

    /// The IRQ counter after a completed scanline: reloaded at zero,
    /// decremented otherwise.
    pub open spec fn counter_after_scanline(&self) -> u8 {
        if self.irq_counter == 0 {
            self.irq_reload
        } else {
            (self.irq_counter - 1) as u8
        }
    }
}

/// The register file that a bank data write leaves.
pub open spec fn registers_after(regs: Seq<u8>, sel: Option<u8>, odd_8000: bool, data: u8) -> Seq<u8> {
    if odd_8000 && sel.is_some() && sel.unwrap() <= 7 {
        regs.update(sel.unwrap() as int, data)
    } else {
        regs
    }
}

impl Mapper for M004 {
    open spec fn wf(&self) -> bool {
        self.registers@.len() == 8 && self.ram@.len() == 8192
    }

    open spec fn cpu_map(&self, addr: u16) -> MappedRead {
        if 0x6000 <= addr <= 0x7FFF {
            MappedRead::Data(self.ram@[addr - 0x6000])
        } else if 0x8000 <= addr {
            let num = ((addr - 0x8000) / 0x2000) as int;
            MappedRead::RAddr(((addr - 0x8000) % 0x2000 + self.prg_bank_spec(num)) as usize)
        } else {
            MappedRead::RSkip
        }
    }

    open spec fn ppu_map(&self, addr: u16) -> MappedRead {
        if addr <= 0x1FFF {
            MappedRead::RAddr((addr % 0x400 + self.chr_bank_spec((addr / 0x400) as int)) as usize)
        } else {
            MappedRead::RSkip
        }
    }

    open spec fn cpu_read_ok(&self, addr: u16) -> bool {
        0x8000 <= addr ==> self.prg_bank_ok(((addr - 0x8000) / 0x2000) as int)
    }

    open spec fn ppu_read_ok(&self, addr: u16) -> bool {
        true
    }

    open spec fn cpu_write_ok(&self, addr: u16) -> bool {
        true
    }

    open spec fn cpu_write_result(&self, addr: u16, data: u8) -> MappedWrite {
        if 0x6000 <= addr <= 0x7FFF {
            MappedWrite::Wrote
        } else if 0x8000 <= addr <= 0x9FFF && addr % 2 == 1 {
            match self.selected_register {
                Some(reg) => if reg <= 7 { MappedWrite::Wrote } else { MappedWrite::WSkip },
                None => MappedWrite::WSkip,
            }
        } else if 0x8000 <= addr {
            MappedWrite::Wrote
        } else {
            MappedWrite::WSkip
        }
    }

    /// The registers that a CPU write changes, by address range and by
    /// whether the address is odd.
    open spec fn cpu_write_post(&self, addr: u16, data: u8, new: Self) -> bool {
        let odd = addr % 2 == 1;
        let bank_select = 0x8000 <= addr <= 0x9FFF && !odd;
        let bank_data = 0x8000 <= addr <= 0x9FFF && odd;
        &&& new.num_prg_banks == self.num_prg_banks
        &&& new.ram@ == if 0x6000 <= addr <= 0x7FFF {
            self.ram@.update(addr - 0x6000, data)
        } else {
            self.ram@
        }
        &&& new.registers@ == registers_after(self.registers@, self.selected_register, bank_data, data)
        &&& new.selected_register == if bank_select {
            Some(data & 0x07u8)
        } else {
            self.selected_register
        }
        &&& new.prg_bank_mode == if bank_select {
            if data & 0x40u8 == 0 { PrgBankMode::Swap8000FixC000 } else { PrgBankMode::SwapC000Fix8000 }
        } else {
            self.prg_bank_mode
        }
        &&& new.chr_bank_mode == if bank_select {
            if data & 0x80u8 == 0 { ChrBankMode::TwoK2FourK1 } else { ChrBankMode::FourK1TwoK2 }
        } else {
            self.chr_bank_mode
        }
        &&& new.mirroring == if 0xA000 <= addr <= 0xBFFF && !odd {
            Some(if data & 0x01u8 == 0 { Mirroring::Vertical } else { Mirroring::Horizontal })
        } else {
            self.mirroring
        }
        &&& new.irq_reload == if 0xC000 <= addr <= 0xDFFF && !odd { data } else { self.irq_reload }
        &&& new.irq_counter == if 0xC000 <= addr <= 0xDFFF && odd { 0 } else { self.irq_counter }
        &&& new.irq_enabled == if 0xE000 <= addr { odd } else { self.irq_enabled }
        &&& new.irq_active == self.irq_active
    }

    open spec fn ppu_read_post(&self, addr: u16, new: Self) -> bool {
        new == *self
    }

    open spec fn mirroring_spec(&self) -> Option<Mirroring> {
        self.mirroring
    }

    open spec fn reset_post(&self, new: Self) -> bool {
        &&& new.num_prg_banks == self.num_prg_banks
        &&& new.ram@ == self.ram@
        &&& new.selected_register.is_none()
        &&& new.registers@ == seq![0u8, 0, 0, 0, 0, 0, 0, 1]
        &&& new.prg_bank_mode == PrgBankMode::Swap8000FixC000
        &&& new.chr_bank_mode == ChrBankMode::TwoK2FourK1
        &&& new.mirroring.is_none()
        &&& !new.irq_enabled
        &&& !new.irq_active
        &&& new.irq_counter == 0
        &&& new.irq_reload == 0
    }

    /// The counter reloads at zero and counts down otherwise; reaching zero
    /// with interrupts enabled raises the interrupt.
    open spec fn scanline_post(&self, new: Self) -> bool {
        let counter = self.counter_after_scanline();
        &&& new == M004 {
            irq_counter: counter,
            irq_active: self.irq_active || (counter == 0 && self.irq_enabled),
            ..*self
        }
    }

    open spec fn irq_line(&self) -> bool {
        self.irq_active
    }

    open spec fn irq_clear_post(&self, new: Self) -> bool {
        new == M004 { irq_active: false, ..*self }
    }

    open spec fn clock_post(&self, tick: u64, new: Self) -> bool {
        new == *self
    }

    fn safe_cpu_read(&self, addr: u16) -> (r: MappedRead) {
        if 0x6000 <= addr && addr <= 0x7FFF {
            MappedRead::Data(self.ram[(addr - 0x6000) as usize])
        } else if 0x8000 <= addr {
            let num: usize = ((addr - 0x8000) / 0x2000) as usize;
            let offset: usize = ((addr - 0x8000) % 0x2000) as usize;
            MappedRead::RAddr(offset + self.prg_bank(num))
        } else {
            MappedRead::RSkip
        }
    }

    fn cpu_read(&mut self, addr: u16) -> (r: MappedRead) {
        self.safe_cpu_read(addr)
    }

    fn cpu_write(&mut self, addr: u16, data: u8) -> (r: MappedWrite) {
        let odd: bool = (addr % 2) != 0;
        if 0x6000 <= addr && addr <= 0x7FFF {
            self.ram.set((addr - 0x6000) as usize, data);
            MappedWrite::Wrote
        } else if 0x8000 <= addr && addr <= 0x9FFF && !odd {
            // Bank select: the register that the next odd write fills, and
            // the two banking modes.
            self.selected_register = Some(data & 0b0000_0111);
            self.prg_bank_mode = if (data & 0b0100_0000) == 0 {
                PrgBankMode::Swap8000FixC000
            } else {
                PrgBankMode::SwapC000Fix8000
            };
            self.chr_bank_mode = if (data & 0b1000_0000) == 0 {
                ChrBankMode::TwoK2FourK1
            } else {
                ChrBankMode::FourK1TwoK2
            };
            MappedWrite::Wrote
        } else if 0x8000 <= addr && addr <= 0x9FFF {
            // Bank data, ignored when the selected register is out of range.
            match self.selected_register {
                Some(reg) => {
                    if reg <= 7 {
                        self.registers.set(reg as usize, data);
                        MappedWrite::Wrote
                    } else {
                        MappedWrite::WSkip
                    }
                },
                None => MappedWrite::WSkip,
            }
        } else if 0xA000 <= addr && addr <= 0xBFFF && !odd {
            // Mirroring
            self.mirroring = if (data & 0b0000_0001) == 0 {
                Some(Mirroring::Vertical)
            } else {
                Some(Mirroring::Horizontal)
            };
            MappedWrite::Wrote
        } else if 0xA000 <= addr && addr <= 0xBFFF {
            // PRG RAM protect: accepted and ignored, as most emulators do.
            MappedWrite::Wrote
        } else if 0xC000 <= addr && addr <= 0xDFFF && !odd {
            // IRQ latch: the counter's reload value.
            self.irq_reload = data;
            MappedWrite::Wrote
        } else if 0xC000 <= addr && addr <= 0xDFFF {
            // IRQ reload: the counter reloads on the next scanline.
            self.irq_counter = 0x00;
            MappedWrite::Wrote
        } else if 0xE000 <= addr && !odd {
            // IRQ disable
            self.irq_enabled = false;
            MappedWrite::Wrote
        } else if 0xE000 <= addr {
            // IRQ enable
            self.irq_enabled = true;
            MappedWrite::Wrote
        } else {
            MappedWrite::WSkip
        }
    }

    fn safe_ppu_read(&self, addr: u16) -> (r: MappedRead) {
        if addr <= 0x1FFF {
            let num: usize = (addr / 0x400) as usize;
            let offset: usize = (addr % 0x400) as usize;
            MappedRead::RAddr(offset + self.chr_bank(num))
        } else {
            MappedRead::RSkip
        }
    }

    fn ppu_read(&mut self, addr: u16) -> (r: MappedRead) {
        self.safe_ppu_read(addr)
    }

    fn ppu_write(&mut self, addr: u16, data: u8) -> (r: MappedWrite) {
        write_through_exec(self.safe_ppu_read(addr))
    }

    fn mirroring(&self) -> (r: Option<Mirroring>) {
        self.mirroring
    }

    fn reset(&mut self) {
        self.selected_register = None;
        self.registers = vec![0u8; 8];
        self.prg_bank_mode = PrgBankMode::Swap8000FixC000;
        self.registers.set(6, 0);
        self.registers.set(7, 1);
        self.chr_bank_mode = ChrBankMode::TwoK2FourK1;
        self.mirroring = None;
        self.irq_enabled = false;
        self.irq_active = false;
        self.irq_counter = 0x00;
        self.irq_reload = 0x00;
        assert(self.registers@ =~= seq![0u8, 0, 0, 0, 0, 0, 0, 1]);
    }

    fn scanline_complete(&mut self) {
        if self.irq_counter == 0 {
            self.irq_counter = self.irq_reload;
        } else {
            self.irq_counter = self.irq_counter - 1;
        }
        if self.irq_counter == 0 && self.irq_enabled {
            self.irq_active = true;
        }
    }

    fn irq_active(&mut self) -> (r: bool) {
        self.irq_active
    }

    fn irq_clear(&mut self) {
        self.irq_active = false;
    }

    fn clock(&mut self, tick: u64) {
    }
}

/// The states of an MMC3 over `n` completed scanlines, from a counter of
/// `n` with interrupts enabled and no interrupt pending: the counter counts
/// down one a line, and the interrupt is raised when it reaches zero.
proof fn lemma_countdown(states: Seq<M004>, n: int, k: int)
    requires
        1 <= n <= 255,
        states.len() == n + 1,
        states[0].irq_enabled,
        !states[0].irq_active,
        states[0].irq_counter == n,
        forall|j: int| 0 <= j < n ==> #[trigger] states[j].scanline_post(states[j + 1]),
        0 <= k <= n,
    ensures
        states[k].irq_counter == n - k,
        states[k].irq_enabled,
        k < n ==> !states[k].irq_active,
        k == n ==> states[k].irq_active,
    decreases k,
{
    if k > 0 {
        lemma_countdown(states, n, k - 1);
        let j: int = k - 1;
        assert(states[j].scanline_post(states[j + 1]));
        assert(j + 1 == k);
    }
}

/// With interrupts enabled, none pending, and the counter at `n` > 0, the
/// MMC3 raises its interrupt at the `n`-th completed scanline and not
/// before: `states[k]` is the mapper after `k` scanlines.
pub proof fn law_m004_irq_countdown(states: Seq<M004>, n: int)
    requires
        1 <= n <= 255,
        states.len() == n + 1,
        states[0].irq_enabled,
        !states[0].irq_active,
        states[0].irq_counter == n,
        forall|j: int| 0 <= j < n ==> #[trigger] states[j].scanline_post(states[j + 1]),
    ensures
        states[n].irq_active,
        forall|k: int| 0 <= k < n ==> !(#[trigger] states[k]).irq_active,
{
    lemma_countdown(states, n, n);
    assert forall|k: int| 0 <= k < n implies !(#[trigger] states[k]).irq_active by {
        lemma_countdown(states, n, k);
    }
}

} // verus!
