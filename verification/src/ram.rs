use vstd::prelude::*;
use crate::bus::Bus;
use crate::bus_device::{BusDevice, BusDeviceRange};
use crate::cart::Cart;
use crate::bus::word;
use crate::cpu6502::{
    Cpu, push_spec, pull_spec, execute, interrupt_spec, Instruction, DataSource, DataSourceKind, NMI_POINTER,
    IRQ_POINTER, StatusFlag, step_spec,
};

verus! {

/// A block of RAM that answers for `size` addresses starting at `start`.
///
/// A byte is stored at the index of its address itself, not at its offset
/// from `start`; every RAM of the console starts at zero.
pub struct Ram {
    pub start: u16,
    pub buf: Vec<u8>,
}

/// The contents of a RAM: where it starts and its bytes.
pub struct RamView {
    pub start: u16,
    pub bytes: Seq<u8>,
}

impl View for Ram {
    type V = RamView;

    open spec fn view(&self) -> RamView {
        RamView { start: self.start, bytes: self.buf@ }
    }
}

impl RamView {
    /// Whether `addr` falls in the addresses this RAM answers for.
    pub open spec fn covers(self, addr: u16) -> bool {
        self.start <= addr && (addr as int) < self.start as int + self.bytes.len()
    }

    /// The RAM can take an access to `addr`: the end of its range must be
    /// a `usize`, and inside its range the address must index its bytes.
    pub open spec fn access_ok(self, addr: u16) -> bool {
        &&& self.start + self.bytes.len() <= usize::MAX
        &&& self.covers(addr) ==> (addr as int) < self.bytes.len()
    }

    /// The byte that the RAM answers for `addr`, if it answers.
    pub open spec fn answer(self, addr: u16) -> Option<u8> {
        if self.covers(addr) {
            Some(self.bytes[addr as int])
        } else {
            None
        }
    }

    /// The RAM after a write of `data` to `addr`.
    pub open spec fn stored(self, addr: u16, data: u8) -> RamView {
        if self.covers(addr) {
            RamView { start: self.start, bytes: self.bytes.update(addr as int, data) }
        } else {
            self
        }
    }
}

impl Ram {
    /// A zeroed RAM of `size` bytes that starts at `start`.
    pub fn new(start: u16, size: usize) -> (r: Ram)
        ensures
            r.start == start,
            r.buf@ == Seq::new(size as nat, |i: int| 0u8),
    {
        let r = Ram { start, buf: vec![0x00u8; size] };
        assert(r.buf@ =~= Seq::new(size as nat, |i: int| 0u8));
        r
    }
}

impl BusDeviceRange for Ram {
    open spec fn start_spec(&self) -> u16 {
        self.start
    }

    open spec fn size_spec(&self) -> usize {
        self.buf@.len() as usize
    }

    fn start(&self) -> (r: u16) {
        self.start
    }

    fn size(&self) -> (r: usize) {
        self.buf.len()
    }
}

impl BusDevice for Ram {
    open spec fn access_ok(s: RamView, addr: u16) -> bool {
        s.access_ok(addr)
    }

    open spec fn read_spec(s: RamView, addr: u16) -> Option<u8> {
        s.answer(addr)
    }

    open spec fn after_read(s: RamView, addr: u16) -> RamView {
        s
    }

    open spec fn safe_read_spec(s: RamView, addr: u16) -> Option<u8> {
        s.answer(addr)
    }

    open spec fn write_spec(s: RamView, addr: u16, data: u8) -> Option<()> {
        if s.covers(addr) {
            Some(())
        } else {
            None
        }
    }

    open spec fn after_write(s: RamView, addr: u16, data: u8) -> RamView {
        s.stored(addr, data)
    }

    fn read(&mut self, addr: u16, cart: &Cart) -> (r: Option<u8>) {
        BusDevice::safe_read(self, addr, cart)
    }

    fn write(&mut self, addr: u16, data: u8, cart: &mut Cart) -> (r: Option<()>) {
        if !self.in_range(addr) {
            return None;
        }
        self.buf.set(addr as usize, data);
        assert(self@.bytes =~= old(self)@.stored(addr, data).bytes);
        Some(())
    }

    fn safe_read(&self, addr: u16, cart: &Cart) -> (r: Option<u8>) {
        if !self.in_range(addr) {
            return None;
        }
        Some(self.buf[addr as usize])
    }
}

/// A RAM on its own is a bus, as a device list that holds only it: where
/// it declines an address, a read gives zero and a write is dropped.
impl Bus for Ram {
    open spec fn peek(s: RamView, addr: u16) -> u8 {
        if s.covers(addr) && (addr as int) < s.bytes.len() {
            s.bytes[addr as int]
        } else {
            0
        }
    }

    open spec fn safe_peek(s: RamView, addr: u16) -> u8 {
        Self::peek(s, addr)
    }

    open spec fn after_read(s: RamView, addr: u16) -> RamView {
        s
    }

    open spec fn after_write(s: RamView, addr: u16, data: u8) -> RamView {
        if (addr as int) < s.bytes.len() {
            s.stored(addr, data)
        } else {
            s
        }
    }

    fn safe_read(&self, addr: u16) -> (r: u8) {
        if self.start <= addr && (addr as usize) < self.buf.len() && ((addr - self.start) as usize) < self.buf.len() {
            self.buf[addr as usize]
        } else {
            0x00
        }
    }

    fn read(&mut self, addr: u16) -> (r: u8) {
        Bus::safe_read(self, addr)
    }

    fn write(&mut self, addr: u16, data: u8) {
        if self.start <= addr && (addr as usize) < self.buf.len() && ((addr - self.start) as usize) < self.buf.len() {
            self.buf.set(addr as usize, data);
            assert(self@.bytes =~= old(self)@.stored(addr, data).bytes);
        }
    }
}

/// A byte written to the RAM at an address it holds reads back at that
/// address, and the other addresses keep what they held.
pub proof fn law_ram_read_after_write(s: RamView, a: u16, b: u16, d: u8)
    requires
        s.covers(a),
        (a as int) < s.bytes.len(),
    ensures
        <Ram as Bus>::peek(<Ram as Bus>::after_write(s, a, d), a) == d,
        b != a ==> <Ram as Bus>::peek(<Ram as Bus>::after_write(s, a, d), b) == <Ram as Bus>::peek(s, b),
{
}

/// On a RAM that holds the stack page, a byte pushed onto the stack comes
/// back when it is pulled, and the registers are as they were before the
/// push.
pub proof fn law_push_pull(cpu: Cpu, s: RamView, v: u8)
    requires
        s.start == 0,
        s.bytes.len() >= 0x200,
    ensures
        ({
            let (c1, s1) = push_spec::<Ram>(cpu, s, v);
            let (r, c2, s2) = pull_spec::<Ram>(c1, s1);
            &&& r == v
            &&& c2 == cpu
        }),
{
    lemma_stack_return(cpu.s, 0);
}

/// On a 64K RAM, a non-maskable interrupt pushes the program counter (high
/// byte first) and the status onto the stack page, with the break flag
/// clear and the unused and interrupt-disable flags set, and jumps through
/// the vector at $FFFA.
pub proof fn law_nmi_on_ram(cpu: Cpu, s: RamView)
    requires
        s.start == 0,
        s.bytes.len() == 0x10000,
        cpu.s >= 3,
    ensures
        ({
            let (c, t) = interrupt_spec::<Ram>(cpu, s, NMI_POINTER, 8);
            let st = cpu.with_flag(StatusFlag::Break, false).with_flag(StatusFlag::Unused, true).with_flag(
                StatusFlag::DisableInterrupts,
                true,
            ).status;
            &&& t.bytes[0x100 + cpu.s] == (cpu.pc >> 8u16) as u8
            &&& t.bytes[0x100 + cpu.s - 1] == (cpu.pc & 0x00FFu16) as u8
            &&& t.bytes[0x100 + cpu.s - 2] == st
            &&& c.status == st
            &&& c.s == cpu.s - 3
            &&& c.pc == word(s.bytes[0xFFFA], s.bytes[0xFFFB])
            &&& c.cycles_left == 8
            &&& c.a == cpu.a && c.x == cpu.x && c.y == cpu.y
        }),
{
    lemma_stack_down(cpu.s);
}

/// On a 64K RAM, an interrupt request does nothing while interrupts are
/// disabled; otherwise it pushes the program counter (high byte first) and
/// the status onto the stack page, with the break flag clear and the unused
/// and interrupt-disable flags set, and jumps through the vector at $FFFE.
pub proof fn law_irq_on_ram(cpu: Cpu, s: RamView)
    requires
        s.start == 0,
        s.bytes.len() == 0x10000,
        cpu.s >= 3,
    ensures
        ({
            let (c, t) = if !cpu.flag(StatusFlag::DisableInterrupts) {
                interrupt_spec::<Ram>(cpu, s, IRQ_POINTER, 7)
            } else {
                (cpu, s)
            };
            let st = cpu.with_flag(StatusFlag::Break, false).with_flag(StatusFlag::Unused, true).with_flag(
                StatusFlag::DisableInterrupts,
                true,
            ).status;
            &&& cpu.flag(StatusFlag::DisableInterrupts) ==> c == cpu && t == s
            &&& !cpu.flag(StatusFlag::DisableInterrupts) ==> {
                &&& t.bytes[0x100 + cpu.s] == (cpu.pc >> 8u16) as u8
                &&& t.bytes[0x100 + cpu.s - 1] == (cpu.pc & 0x00FFu16) as u8
                &&& t.bytes[0x100 + cpu.s - 2] == st
                &&& c.status == st
                &&& c.s == cpu.s - 3
                &&& c.pc == word(s.bytes[0xFFFE], s.bytes[0xFFFF])
                &&& c.cycles_left == 7
                &&& c.a == cpu.a && c.x == cpu.x && c.y == cpu.y
            }
        }),
{
    lemma_stack_down(cpu.s);
}

/// For the processor that owns its bus too: on a RAM that holds the stack
/// page, a byte pushed onto the stack comes back when it is pulled, and the
/// registers are as they were before the push.
pub proof fn law_processor_push_pull(cpu: Cpu, s: RamView, v: u8)
    requires
        s.start == 0,
        s.bytes.len() >= 0x200,
        cpu.s >= 1,
    ensures
        ({
            let (c1, s1) = crate::processor::push_spec::<Ram>(cpu, s, v);
            let (r, c2, s2) = crate::processor::pull_spec::<Ram>(c1, s1);
            &&& r == v
            &&& c2 == cpu
        }),
{
}

/// For the processor that owns its bus too: on a 64K RAM, a non-maskable
/// interrupt pushes the program counter (high byte, then low byte) and the
/// status with the break flag clear and the unused and interrupt-disable
/// flags set, and jumps through the vector at $FFFA.
pub proof fn law_processor_nmi_on_ram(cpu: Cpu, s: RamView)
    requires
        s.start == 0,
        s.bytes.len() == 0x10000,
        cpu.s >= 3,
    ensures
        ({
            let (c, t) = crate::processor::interrupt_spec::<Ram>(cpu, s, NMI_POINTER, 8);
            &&& t.bytes[0x100 + cpu.s] == (cpu.pc >> 8u16) as u8
            &&& t.bytes[0x100 + cpu.s - 1] == (cpu.pc & 0x00FFu16) as u8
            &&& t.bytes[0x100 + cpu.s - 2] == c.status
            &&& c.flag(StatusFlag::DisableInterrupts)
            &&& !c.flag(StatusFlag::Break)
            &&& c.status == cpu.with_flag(StatusFlag::Break, false).with_flag(StatusFlag::Unused, true).with_flag(
                StatusFlag::DisableInterrupts,
                true,
            ).status
            &&& c.s == cpu.s - 3
            &&& c.pc == word(s.bytes[0xFFFA], s.bytes[0xFFFB])
            &&& c.cycles_left == 8
            &&& c.a == cpu.a && c.x == cpu.x && c.y == cpu.y
        }),
{
    let st = cpu.status;
    assert((((st & !0x10u8) | 0x20u8) | 0x04u8) & 0x04u8 != 0u8 && (((st & !0x10u8) | 0x20u8) | 0x04u8) & 0x10u8
        == 0u8) by (bit_vector);
}

/// On a RAM that holds the stack page, a subroutine call and its return
/// come back to the instruction after the call: JSR pushes the address of
/// its last byte and jumps, RTS pulls it and goes one further, and the
/// stack pointer and the other registers are as they were.
pub proof fn law_jsr_rts(cpu: Cpu, s: RamView, target: u16)
    requires
        s.start == 0,
        s.bytes.len() >= 0x200,
        cpu.pc >= 1,
    ensures
        ({
            let call = DataSource { kind: DataSourceKind::AbsoluteAddress, addr: target };
            let (c1, s1) = execute::<Ram>(Instruction::JSR, cpu, s, call);
            let ret = DataSource { kind: DataSourceKind::Implicit, addr: 0 };
            let (c2, s2) = execute::<Ram>(Instruction::RTS, c1, s1, ret);
            &&& c1.pc == target
            &&& c2 == cpu
        }),
{
    lemma_stack_return(cpu.s, (cpu.pc - 1) as u16);
}

/// On a 64K RAM, a JSR instruction and the RTS at its target take two
/// steps that come back to the instruction after the JSR, with every other
/// register as it was; in between, the program counter is the target and
/// the stack holds the address of the JSR's last byte, high byte first.
/// (The RTS must not be one of the two stack bytes that the JSR writes.)
pub proof fn law_jsr_rts_steps(cpu: Cpu, s: RamView)
    requires
        s.start == 0,
        s.bytes.len() == 0x10000,
        cpu.cycles_left == 0,
        cpu.pc + 3 <= 0xFFFF,
        s.bytes[cpu.pc as int] == 0x20,
        s.bytes[word(s.bytes[cpu.pc + 1], s.bytes[cpu.pc + 2]) as int] == 0x60,
        word(s.bytes[cpu.pc + 1], s.bytes[cpu.pc + 2]) != 0x100 + cpu.s,
        word(s.bytes[cpu.pc + 1], s.bytes[cpu.pc + 2]) != 0x100 + cpu.s.wrapping_sub(1),
    ensures
        ({
            let t = word(s.bytes[cpu.pc + 1], s.bytes[cpu.pc + 2]);
            let ret = (cpu.pc + 2) as u16;
            let (c1, s1) = step_spec::<Ram>(cpu, s);
            let (c2, s2) = step_spec::<Ram>(c1, s1);
            &&& c1.pc == t
            &&& c1.s == cpu.s.wrapping_sub(1).wrapping_sub(1)
            &&& s1.bytes[0x100 + cpu.s] == (ret >> 8u16) as u8
            &&& s1.bytes[0x100 + cpu.s.wrapping_sub(1)] == (ret & 0x00FFu16) as u8
            &&& c2 == (Cpu { pc: (cpu.pc + 3) as u16, ..cpu })
        }),
{
    lemma_stack_return(cpu.s, (cpu.pc + 2) as u16);
}

/// Two pushes and a pull move the stack pointer back one, and a return
/// address split into its bytes joins up again.
proof fn lemma_stack_return(s0: u8, r: u16)
    by (bit_vector)
    ensures
        s0.wrapping_sub(1).wrapping_sub(1).wrapping_add(1) == s0.wrapping_sub(1),
        s0.wrapping_sub(1).wrapping_add(1) == s0,
        s0.wrapping_sub(1) != s0,
        ((((r >> 8u16) & 0x00FFu16) as u8 as u16) << 8u16) | ((r & 0x00FFu16) as u8 as u16) == r,
        ((r >> 8u16) & 0x00FFu16) as u8 == (r >> 8u16) as u8,
{
}

/// From a stack pointer of at least 3, three pushes do not wrap.
proof fn lemma_stack_down(s0: u8)
    by (bit_vector)
    requires
        s0 >= 3,
    ensures
        s0.wrapping_sub(1) == s0 - 1,
        (s0 - 1) as u8 >= 2,
        ((s0 - 1) as u8).wrapping_sub(1) == s0 - 2,
{
}

} // verus!
