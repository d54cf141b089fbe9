use vstd::prelude::*;
use std::collections::HashSet;
use crate::apu::Apu;
use crate::bus::Bus;
use crate::bus_device::{BusDevice, BusDeviceRange};
use crate::cart::{Cart, CartMapper, CartCpuMapper, CartPpuMapper, write_taken};
use crate::bus::word;
use crate::cpu6502::{Cpu, clock_ok, clock_spec, interrupt_spec, reset_spec, NMI_POINTER};
use crate::mapper::Mapper;
use crate::mapper::m001::M001;
use crate::mapper::m004::M004;
use crate::mapper::m009::{M009, ChrLatch};
use crate::mapper::m069::M069;
use crate::mirror::Mirror;
use crate::palette::Palette;
use crate::peripherals::{Peripherals, released};
use crate::ppu::{Ppu, ObjectAttributeEntry, oam_written};
use crate::ram::{Ram, RamView};

verus! {

/// The console: the CPU, the PPU, the APU, 2K of RAM mirrored over $0000-$1FFF,
/// the PPU registers mirrored over $2000-$3FFF, the cartridge, the
/// controller ports, and the OAM DMA unit.
pub struct Nes {
    pub breakpoints: HashSet<u16>,
    pub cpu: Cpu,
    pub ppu: Ppu,
    pub apu: Apu,
    pub tick: u64,
    pub ram: Ram,
    pub ram_mirror: Mirror,
    pub ppu_registers_mirror: Mirror,
    pub cart: Cart,
    pub addresses_hit: HashSet<u16>,
    pub peripherals: Peripherals,
    pub dma_page: u8,
    pub dma_addr: u8,
    pub dma_data: u8,
    pub dma_active: bool,
    pub dma_dummy: bool,
}

/// A mapper with its vectors left out.
pub open spec fn mapper_shape(m: CartMapper) -> CartMapper {
    match m {
        CartMapper::M001(x) => CartMapper::M001(M001 { ram: vstd::pervasive::arbitrary(), ..x }),
        CartMapper::M004(x) => CartMapper::M004(
            M004 { registers: vstd::pervasive::arbitrary(), ram: vstd::pervasive::arbitrary(), ..x },
        ),
        CartMapper::M009(x) => CartMapper::M009(
            M009 {
                chr_bank: vstd::pervasive::arbitrary(),
                chr_latch: vstd::pervasive::arbitrary(),
                ram: vstd::pervasive::arbitrary(),
                ..x
            },
        ),
        CartMapper::M069(x) => CartMapper::M069(
            M069 {
                prg_bank: vstd::pervasive::arbitrary(),
                chr_bank: vstd::pervasive::arbitrary(),
                ram: vstd::pervasive::arbitrary(),
                ..x
            },
        ),
        _ => m,
    }
}

/// The contents of a mapper's vectors.
pub open spec fn mapper_contents(m: CartMapper) -> (Seq<u8>, Seq<u8>, Seq<u8>, Seq<ChrLatch>) {
    match m {
        CartMapper::M001(x) => (x.ram@, Seq::empty(), Seq::empty(), Seq::empty()),
        CartMapper::M004(x) => (x.ram@, x.registers@, Seq::empty(), Seq::empty()),
        CartMapper::M009(x) => (x.ram@, x.chr_bank@, Seq::empty(), x.chr_latch@),
        CartMapper::M069(x) => (x.ram@, x.prg_bank@, x.chr_bank@, Seq::empty()),
        _ => (Seq::empty(), Seq::empty(), Seq::empty(), Seq::empty()),
    }
}

/// A cartridge with its vectors left out.
pub open spec fn cart_shape(c: Cart) -> Cart {
    Cart {
        cpu_mapper: CartCpuMapper { prg: vstd::pervasive::arbitrary(), ..c.cpu_mapper },
        ppu_mapper: CartPpuMapper { chr: vstd::pervasive::arbitrary(), ..c.ppu_mapper },
        mapper: mapper_shape(c.mapper),
        ..c
    }
}

/// A PPU with its memories left out.
pub open spec fn ppu_shape(p: Ppu) -> Ppu {
    Ppu {
        name_tables: vstd::pervasive::arbitrary(),
        pattern_tables: vstd::pervasive::arbitrary(),
        screen: vstd::pervasive::arbitrary(),
        sprites_on_scanline: vstd::pervasive::arbitrary(),
        oam: vstd::pervasive::arbitrary(),
        palette: Palette { map: vstd::pervasive::arbitrary(), ..p.palette },
        ..p
    }
}

/// The contents of the console's memories.
pub struct NesContents {
    pub ram: Seq<u8>,
    pub name_tables: Seq<u8>,
    pub pattern_tables: Seq<u8>,
    pub screen: Seq<[u8; 4]>,
    pub sprites: Seq<ObjectAttributeEntry>,
    pub oam: Seq<ObjectAttributeEntry>,
    pub palette_map: Seq<u8>,
    pub prg: Seq<u8>,
    pub chr: Seq<u8>,
    pub mapper: (Seq<u8>, Seq<u8>, Seq<u8>, Seq<ChrLatch>),
}

/// The console as the CPU bus sees it: every register and flag (`shape`,
/// the console with its memories left out, and the CPU, the breakpoints and
/// the addresses hit too) and the contents of every memory.
pub struct NesView {
    pub shape: Nes,
    pub contents: NesContents,
}

impl View for Nes {
    type V = NesView;

    open spec fn view(&self) -> NesView {
        NesView {
            shape: Nes {
                breakpoints: vstd::pervasive::arbitrary(),
                cpu: vstd::pervasive::arbitrary(),
                addresses_hit: vstd::pervasive::arbitrary(),
                ram: Ram { buf: vstd::pervasive::arbitrary(), ..self.ram },
                ppu: ppu_shape(self.ppu),
                cart: cart_shape(self.cart),
                ..*self
            },
            contents: NesContents {
                ram: self.ram.buf@,
                name_tables: self.ppu.name_tables@,
                pattern_tables: self.ppu.pattern_tables@,
                screen: self.ppu.screen@,
                sprites: self.ppu.sprites_on_scanline@,
                oam: self.ppu.oam@,
                palette_map: self.ppu.palette.map@,
                prg: self.cart.cpu_mapper.prg@,
                chr: self.cart.ppu_mapper.chr@,
                mapper: mapper_contents(self.cart.mapper),
            },
        }
    }
}

/// The PPU register that a CPU address in $2000-$3FFF reaches.
pub open spec fn ppu_reg(addr: u16) -> u16 {
    (0x2000 + addr % 8) as u16
}

/// Whether the APU takes a CPU write to `addr`.
pub open spec fn apu_takes(addr: u16) -> bool {
    (0x4000 <= addr <= 0x4013) || addr == 0x4015 || addr == 0x4017
}

impl Nes {
    /// The console is wired as it was built: 2K of RAM at $0000 mirrored
    /// over 8K, the PPU registers mirrored over 8K from $2000, and the PPU,
    /// the cartridge and the APU in shape.
    pub open spec fn bus_ok(&self) -> bool {
        &&& self.ram.start == 0
        &&& self.ram.buf@.len() == 2048
        &&& self.ram_mirror.start == 0
        &&& self.ram_mirror.total_size == 8192
        &&& self.ppu_registers_mirror.start == 0x2000
        &&& self.ppu_registers_mirror.total_size == 8192
        &&& self.ppu.wf()
        &&& self.cart.wf()
        &&& self.apu.wf()
    }

    fn check_bus(&self) -> (r: bool)
        ensures
            r == self.bus_ok(),
    {
        self.ram.start == 0 && self.ram.buf.len() == 2048 && self.ram_mirror.start == 0
            && self.ram_mirror.total_size == 8192 && self.ppu_registers_mirror.start == 0x2000
            && self.ppu_registers_mirror.total_size == 8192 && self.ppu.check_wf() && self.cart.check_wf()
            && self.apu.check_wf()
    }
}

/// A read of `addr` from the console `n` answers `r` and leaves `m`: the
/// cartridge answers first, then the controller ports, the RAM, and the
/// PPU registers; an address nobody answers reads as zero. A console that
/// is not wired as built, or an access that its cartridge or PPU cannot
/// take (a bank past the end of the ROM, a VRAM address that would step
/// past $FFFF), reads as zero and changes nothing.
pub open spec fn read_step(n: Nes, addr: u16, r: u8, m: Nes) -> bool {
    if !n.bus_ok() || !n.cart.cpu_read_ok(addr) {
        r == 0 && m == n
    } else if n.cart.cpu_peek(addr).is_some() {
        r == n.cart.cpu_peek(addr).unwrap() && m == n
    } else if Peripherals::read_spec(n.peripherals@, addr).is_some() {
        &&& r == Peripherals::read_spec(n.peripherals@, addr).unwrap()
        &&& m == (Nes { peripherals: m.peripherals, ..n })
        &&& m.peripherals@ == Peripherals::after_read(n.peripherals@, addr)
    } else if addr < 0x2000 {
        &&& r == n.ram.buf@[(addr % 2048) as int]
        &&& m == (Nes { ram: m.ram, ..n })
        &&& m.ram@ == n.ram@
    } else if addr < 0x4000 && n.ppu.register_ok(n.cart, ppu_reg(addr)) {
        &&& n.ppu.register_read(n.cart, ppu_reg(addr), Some(r), m.ppu, m.cart)
        &&& m.ppu.wf()
        &&& m.cart.wf()
        &&& m == (Nes { ppu: m.ppu, cart: m.cart, ..n })
    } else {
        r == 0 && m == n
    }
}

/// A read of `addr` without side effects: the cartridge, then the RAM.
pub open spec fn safe_step(n: Nes, addr: u16) -> u8 {
    if !n.bus_ok() || !n.cart.cpu_read_ok(addr) {
        0
    } else if n.cart.cpu_peek(addr).is_some() {
        n.cart.cpu_peek(addr).unwrap()
    } else if addr < 0x2000 {
        n.ram.buf@[(addr % 2048) as int]
    } else {
        0
    }
}

/// The first part of a write: the cartridge sees every write (its mapper
/// may change even when it does not take the write).
pub open spec fn cart_write_step(n: Nes, addr: u16, data: u8, m: Nes) -> bool {
    if !n.bus_ok() || !n.cart.cpu_write_ok(addr, data) {
        m == n
    } else {
        &&& n.cart.cpu_write_effect(addr, data, m.cart)
        &&& m.cart.wf()
        &&& m == (Nes { cart: m.cart, ..n })
    }
}

/// The rest of a write that the cartridge did not take: the APU, the OAM
/// DMA register ($4014), the controller ports, the RAM, the PPU registers.
pub open spec fn rest_write_step(n: Nes, addr: u16, data: u8, m: Nes) -> bool {
    if !n.bus_ok() {
        m == n
    } else if apu_takes(addr) {
        &&& n.apu.written(addr, data, m.apu)
        &&& m.apu.wf()
        &&& m == (Nes { apu: m.apu, ..n })
    } else if addr == 0x4014 {
        m == (Nes { dma_page: data, dma_addr: 0, dma_active: true, ..n })
    } else if addr == 0x4016 {
        &&& m == (Nes { peripherals: m.peripherals, ..n })
        &&& m.peripherals@ == Peripherals::after_write(n.peripherals@, addr, data)
    } else if addr < 0x2000 {
        &&& m == (Nes { ram: m.ram, ..n })
        &&& m.ram@ == n.ram@.stored((addr % 2048) as u16, data)
    } else if addr < 0x4000 && n.ppu.register_ok(n.cart, ppu_reg(addr)) {
        &&& n.ppu.register_write(n.cart, ppu_reg(addr), data, Some(()), m.ppu, m.cart)
        &&& m.ppu.wf()
        &&& m.cart.wf()
        &&& m == (Nes { ppu: m.ppu, cart: m.cart, ..n })
    } else {
        m == n
    }
}

/// Whether the cartridge takes a write, in the console `n`.
pub open spec fn cart_takes(n: Nes, addr: u16, data: u8) -> bool {
    n.bus_ok() && n.cart.cpu_write_ok(addr, data) && write_taken(n.cart.mapper.cpu_write_result(addr, data)).is_some()
}

/// A write of `data` to `addr` takes the console `n` to `m`, through the
/// console `mid` that the cartridge's part leaves.
pub open spec fn write_step(n: Nes, addr: u16, data: u8, mid: Nes, m: Nes) -> bool {
    &&& cart_write_step(n, addr, data, mid)
    &&& if cart_takes(n, addr, data) {
        m == mid
    } else {
        rest_write_step(mid, addr, data, m)
    }
}

impl Nes {
    /// A read of `addr` (see `read_step`).
    fn bus_read(&mut self, addr: u16) -> (r: u8)
        ensures
            read_step(*old(self), addr, r, *final(self)),
    {
        if !self.check_bus() {
            return 0;
        }
        if !self.cart.can_cpu_read(addr) {
            return 0;
        }
        match self.cart.cpu_read(addr) {
            Some(d) => {
                return d;
            },
            None => {},
        }
        let ghost p0: Peripherals = self.peripherals;
        match self.peripherals.read(addr, &self.cart) {
            Some(d) => {
                return d;
            },
            None => {},
        }
        proof {
            assert(self.peripherals.controllers =~= p0.controllers);
            assert(self.peripherals.controller_shifts =~= p0.controller_shifts);
        }
        match self.ram_mirror.read(&mut self.ram, addr, &self.cart) {
            Some(d) => {
                return d;
            },
            None => {},
        }
        if self.ppu_registers_mirror.in_range(addr) {
            let a: u16 = 0x2000 + addr % 8;
            if self.ppu.register_ready(&self.cart, a) {
                match self.ppu.read(a, &mut self.cart) {
                    Some(d) => {
                        return d;
                    },
                    None => {},
                }
            }
        }
        0
    }

    /// A read of `addr` without side effects (see `safe_step`).
    fn bus_safe_read(&self, addr: u16) -> (r: u8)
        ensures
            r == safe_step(*self, addr),
    {
        if !self.check_bus() {
            return 0;
        }
        if !self.cart.can_cpu_read(addr) {
            return 0;
        }
        match self.cart.safe_cpu_read(addr) {
            Some(d) => {
                return d;
            },
            None => {},
        }
        match self.ram_mirror.safe_read(&self.ram, addr, &self.cart) {
            Some(d) => d,
            None => 0,
        }
    }

    /// The cartridge's part of a write; the result says whether it took the
    /// write.
    fn cart_write(&mut self, addr: u16, data: u8) -> (taken: bool)
        ensures
            cart_write_step(*old(self), addr, data, *final(self)),
            taken == cart_takes(*old(self), addr, data),
    {
        if !self.check_bus() || !self.cart.can_cpu_write(addr, data) {
            return false;
        }
        let r: Option<()> = self.cart.cpu_write(addr, data);
        r.is_some()
    }

    /// The rest of a write that the cartridge did not take.
    fn rest_write(&mut self, addr: u16, data: u8)
        ensures
            rest_write_step(*old(self), addr, data, *final(self)),
    {
        if !self.check_bus() {
            return;
        }
        if self.apu.cpu_write(addr, data).is_some() {
            return;
        }
        // $4014 starts a copy of a page of CPU memory into the OAM.
        if addr == 0x4014 {
            self.dma_page = data;
            self.dma_addr = 0x00;
            self.dma_active = true;
            return;
        }
        let ghost p0: Peripherals = self.peripherals;
        if self.peripherals.write(addr, data, &mut self.cart).is_some() {
            return;
        }
        proof {
            assert(self.peripherals.controllers =~= p0.controllers);
            assert(self.peripherals.controller_shifts =~= p0.controller_shifts);
        }
        if self.ram_mirror.write(&mut self.ram, addr, data, &mut self.cart).is_some() {
            return;
        }
        if self.ppu_registers_mirror.in_range(addr) {
            let a: u16 = 0x2000 + addr % 8;
            if self.ppu.register_ready(&self.cart, a) {
                self.ppu.write(a, data, &mut self.cart);
            }
        }
    }
}

/// Consoles that look the same to the bus are wired and in shape alike.
proof fn lemma_bus_ok_det(n1: Nes, n2: Nes)
    requires
        n1@ == n2@,
    ensures
        n1.bus_ok() == n2.bus_ok(),
        n1.ram.start == n2.ram.start,
        n1.ram@ == n2.ram@,
        n1.ppu_registers_mirror == n2.ppu_registers_mirror,
        n1.ram_mirror == n2.ram_mirror,
{
    assert(n1.ram.buf@ == n1@.contents.ram);
    assert(n1@.shape.ram.start == n1.ram.start);
    assert(n1@.shape.ppu.fine_x == n1.ppu.fine_x);
    assert(n1@.shape.ppu.scanline == n1.ppu.scanline);
    assert(n1@.shape.ppu.cycle == n1.ppu.cycle);
    assert(n1@.shape.apu == n1.apu);
    assert(n2@.shape.apu == n2.apu);
    lemma_cart_det(n1.cart, n2.cart);
}

/// Cartridges that look the same to the bus are in shape alike and answer
/// alike.
proof fn lemma_cart_det(c1: Cart, c2: Cart)
    requires
        cart_shape(c1) == cart_shape(c2),
        c1.cpu_mapper.prg@ == c2.cpu_mapper.prg@,
        c1.ppu_mapper.chr@ == c2.ppu_mapper.chr@,
        mapper_contents(c1.mapper) == mapper_contents(c2.mapper),
    ensures
        c1.wf() == c2.wf(),
        forall|a: u16| #[trigger] c1.cpu_read_ok(a) == c2.cpu_read_ok(a),
        forall|a: u16| #[trigger] c1.cpu_peek(a) == c2.cpu_peek(a),
        forall|a: u16, d: u8| #[trigger] c1.cpu_write_ok(a, d) == c2.cpu_write_ok(a, d),
        forall|a: u16, d: u8| #[trigger] c1.mapper.cpu_write_result(a, d) == c2.mapper.cpu_write_result(a, d),
        forall|a: u16| #[trigger] c1.ppu_read_ok(a) == c2.ppu_read_ok(a),
        forall|a: u16| #[trigger] c1.ppu_peek(a) == c2.ppu_peek(a),
        forall|a: u16| #[trigger] c1.mapper.ppu_map(a) == c2.mapper.ppu_map(a),
        c1.mirroring_spec() == c2.mirroring_spec(),
{
    assert(cart_shape(c1).mapper == mapper_shape(c1.mapper));
    match c1.mapper {
        CartMapper::M000(x1) => {
            let x2 = c2.mapper->M000_0;
        },
        CartMapper::M001(x1) => {
            let x2 = c2.mapper->M001_0;
            assert(x1.ram@ == x2.ram@);
        },
        CartMapper::M002(x1) => {},
        CartMapper::M003(x1) => {},
        CartMapper::M004(x1) => {
            let x2 = c2.mapper->M004_0;
            assert(x1.ram@ == x2.ram@);
            assert(x1.registers@ == x2.registers@);
        },
        CartMapper::M009(x1) => {
            let x2 = c2.mapper->M009_0;
            assert(x1.ram@ == x2.ram@);
            assert(x1.chr_bank@ == x2.chr_bank@);
            assert(x1.chr_latch@ == x2.chr_latch@);
        },
        CartMapper::M069(x1) => {
            let x2 = c2.mapper->M069_0;
            assert(x1.ram@ == x2.ram@);
            assert(x1.prg_bank@ == x2.prg_bank@);
            assert(x1.chr_bank@ == x2.chr_bank@);
        },
    }
}

/// Side-effect free reads answer alike on consoles that look the same.
proof fn lemma_safe_det(n1: Nes, n2: Nes, addr: u16)
    requires
        n1@ == n2@,
    ensures
        safe_step(n1, addr) == safe_step(n2, addr),
{
    lemma_bus_ok_det(n1, n2);
    lemma_cart_det(n1.cart, n2.cart);
}

/// Reads from consoles that look the same answer alike and leave consoles
/// that look the same.
proof fn lemma_read_det(n1: Nes, n2: Nes, addr: u16, r1: u8, r2: u8, m1: Nes, m2: Nes)
    requires
        n1@ == n2@,
        read_step(n1, addr, r1, m1),
        read_step(n2, addr, r2, m2),
    ensures
        r1 == r2,
        m1@ == m2@,
{
    lemma_bus_ok_det(n1, n2);
    lemma_cart_det(n1.cart, n2.cart);
    assert(n1.peripherals == n2.peripherals) by {
        assert(n1@.shape.peripherals == n1.peripherals);
    }
    if !n1.bus_ok() || !n1.cart.cpu_read_ok(addr) {
    } else if n1.cart.cpu_peek(addr).is_some() {
    } else if Peripherals::read_spec(n1.peripherals@, addr).is_some() {
        assert(m1.peripherals@ == m2.peripherals@);
        assert(m1.peripherals.controllers =~= m2.peripherals.controllers);
        assert(m1.peripherals.controller_shifts =~= m2.peripherals.controller_shifts);
        assert(m1@ == m2@);
    } else if addr < 0x2000 {
        assert(m1@ == m2@);
    } else if addr < 0x4000 && n1.ppu.register_ok(n1.cart, ppu_reg(addr)) {
        lemma_register_read_det(n1, n2, ppu_reg(addr), r1, r2, m1, m2);
    } else {
    }
}

/// The memories of two PPUs hold the same.
pub open spec fn same_ppu_contents(p1: Ppu, p2: Ppu) -> bool {
    &&& p1.name_tables@ == p2.name_tables@
    &&& p1.pattern_tables@ == p2.pattern_tables@
    &&& p1.screen@ == p2.screen@
    &&& p1.sprites_on_scanline@ == p2.sprites_on_scanline@
    &&& p1.oam@ == p2.oam@
    &&& p1.palette.map@ == p2.palette.map@
}

/// Two cartridges look the same to the bus.
pub open spec fn same_cart(c1: Cart, c2: Cart) -> bool {
    &&& cart_shape(c1) == cart_shape(c2)
    &&& c1.cpu_mapper.prg@ == c2.cpu_mapper.prg@
    &&& c1.ppu_mapper.chr@ == c2.ppu_mapper.chr@
    &&& mapper_contents(c1.mapper) == mapper_contents(c2.mapper)
}

/// Register reads on PPUs and cartridges that look the same answer alike
/// and leave PPUs and cartridges that look the same.
#[verifier::rlimit(50)]
proof fn lemma_ppu_read_det(
    p1: Ppu,
    c1: Cart,
    p2: Ppu,
    c2: Cart,
    a: u16,
    r1: u8,
    r2: u8,
    q1: Ppu,
    q2: Ppu,
    d1: Cart,
    d2: Cart,
)
    requires
        ppu_shape(p1) == ppu_shape(p2),
        same_ppu_contents(p1, p2),
        same_cart(c1, c2),
        c1.wf(),
        0x2000 <= a < 0x2008,
        p1.register_ok(c1, a),
        p1.register_read(c1, a, Some(r1), q1, d1),
        p2.register_read(c2, a, Some(r2), q2, d2),
    ensures
        r1 == r2,
        ppu_shape(q1) == ppu_shape(q2),
        same_ppu_contents(q1, q2),
        same_cart(d1, d2),
{
    lemma_cart_det(c1, c2);
    if a % 8 == 7 {
        assert(r1 == r2);
    } else {
        assert(r1 == r2);
    }
}

/// Register reads on consoles that look the same answer alike and leave
/// consoles that look the same.
proof fn lemma_register_read_det(n1: Nes, n2: Nes, a: u16, r1: u8, r2: u8, m1: Nes, m2: Nes)
    requires
        n1@ == n2@,
        n1.bus_ok(),
        0x2000 <= a < 0x2008,
        n1.ppu.register_ok(n1.cart, a),
        n1.ppu.register_read(n1.cart, a, Some(r1), m1.ppu, m1.cart),
        n2.ppu.register_read(n2.cart, a, Some(r2), m2.ppu, m2.cart),
        m1 == (Nes { ppu: m1.ppu, cart: m1.cart, ..n1 }),
        m2 == (Nes { ppu: m2.ppu, cart: m2.cart, ..n2 }),
    ensures
        r1 == r2,
        m1@ == m2@,
{
    assert(ppu_shape(n1.ppu) == ppu_shape(n2.ppu));
    assert(same_ppu_contents(n1.ppu, n2.ppu));
    assert(same_cart(n1.cart, n2.cart));
    lemma_ppu_read_det(n1.ppu, n1.cart, n2.ppu, n2.cart, a, r1, r2, m1.ppu, m2.ppu, m1.cart, m2.cart);
    assert(m1@ == m2@);
}

/// The cartridge's part of a write on consoles that look the same leaves
/// consoles that look the same, and takes the write alike.
#[verifier::rlimit(50)]
proof fn lemma_cart_write_det(n1: Nes, n2: Nes, addr: u16, data: u8, m1: Nes, m2: Nes)
    requires
        n1@ == n2@,
        cart_write_step(n1, addr, data, m1),
        cart_write_step(n2, addr, data, m2),
    ensures
        m1@ == m2@,
        cart_takes(n1, addr, data) == cart_takes(n2, addr, data),
{
    lemma_bus_ok_det(n1, n2);
    lemma_cart_det(n1.cart, n2.cart);
    if n1.bus_ok() && n1.cart.cpu_write_ok(addr, data) {
        assert(same_cart(m1.cart, m2.cart));
        assert(m1@ == m2@);
    }
}

/// The rest of a write on consoles that look the same leaves consoles that
/// look the same.
#[verifier::rlimit(50)]
proof fn lemma_rest_write_det(n1: Nes, n2: Nes, addr: u16, data: u8, m1: Nes, m2: Nes)
    requires
        n1@ == n2@,
        rest_write_step(n1, addr, data, m1),
        rest_write_step(n2, addr, data, m2),
    ensures
        m1@ == m2@,
{
    lemma_bus_ok_det(n1, n2);
    lemma_cart_det(n1.cart, n2.cart);
    assert(n1.peripherals == n2.peripherals) by {
        assert(n1@.shape.peripherals == n1.peripherals);
    }
    assert(n1.apu == n2.apu) by {
        assert(n1@.shape.apu == n1.apu);
    }
    if !n1.bus_ok() {
    } else if apu_takes(addr) {
        assert(m1.apu.pulse =~= m2.apu.pulse);
        assert(m1.apu == m2.apu);
        assert(m1@ == m2@);
    } else if addr == 0x4014 {
        assert(m1@ == m2@);
    } else if addr == 0x4016 {
        assert(m1.peripherals.controllers =~= m2.peripherals.controllers);
        assert(m1.peripherals.controller_shifts =~= m2.peripherals.controller_shifts);
        assert(m1@ == m2@);
    } else if addr < 0x2000 {
        assert(m1@ == m2@);
    } else if addr < 0x4000 && n1.ppu.register_ok(n1.cart, ppu_reg(addr)) {
        assert(m1@ == m2@);
    } else {
    }
}

/// A read of `addr` from some console that looks like `v`: the console,
/// what the read answers and what it leaves (all such consoles answer
/// alike and leave consoles that look the same: `lemma_read_det`).
pub open spec fn view_read(v: NesView, addr: u16) -> ReadOutcome {
    choose|t: ReadOutcome| t.before@ == v && #[trigger] read_step(t.before, addr, t.answer, t.after)
}

/// A read: the console before it, the byte it answers, and the console
/// after it.
pub struct ReadOutcome {
    pub before: Nes,
    pub answer: u8,
    pub after: Nes,
}

/// What a side-effect free read of `addr` answers on a console that looks
/// like `v`.
pub open spec fn view_safe_read(v: NesView, addr: u16) -> u8 {
    safe_step(choose|n: Nes| n.view() == v, addr)
}

/// A write of `data` to `addr` to some console that looks like `v`: the
/// console, the console that the cartridge's part leaves, and the console
/// that the write leaves.
pub open spec fn view_write(v: NesView, addr: u16, data: u8) -> (Nes, Nes, Nes) {
    choose|t: (Nes, Nes, Nes)| t.0@ == v && #[trigger] write_step(t.0, addr, data, t.1, t.2)
}

/// A read answers and leaves what the bus's view says of it.
proof fn lemma_read_view(n0: Nes, addr: u16, r: u8, m: Nes)
    requires
        read_step(n0, addr, r, m),
    ensures
        r == view_read(n0@, addr).answer,
        m@ == view_read(n0@, addr).after@,
{
    let w = ReadOutcome { before: n0, answer: r, after: m };
    assert(w.before@ == n0@ && read_step(w.before, addr, w.answer, w.after));
    let t: ReadOutcome = view_read(n0@, addr);
    lemma_read_det(n0, t.before, addr, r, t.answer, m, t.after);
}

/// A write leaves what the bus's view says of it.
proof fn lemma_write_view(n0: Nes, addr: u16, data: u8, mid: Nes, m: Nes)
    requires
        write_step(n0, addr, data, mid, m),
    ensures
        m@ == view_write(n0@, addr, data).2@,
{
    let w: (Nes, Nes, Nes) = (n0, mid, m);
    assert(w.0@ == n0@ && write_step(w.0, addr, data, w.1, w.2));
    let t: (Nes, Nes, Nes) = view_write(n0@, addr, data);
    lemma_cart_write_det(n0, t.0, addr, data, mid, t.1);
    if !cart_takes(n0, addr, data) {
        lemma_rest_write_det(mid, t.1, addr, data, m, t.2);
    }
}

/// The CPU bus of the console.
impl Bus for Nes {
    open spec fn peek(s: NesView, addr: u16) -> u8 {
        view_read(s, addr).answer
    }

    open spec fn safe_peek(s: NesView, addr: u16) -> u8 {
        view_safe_read(s, addr)
    }

    open spec fn after_read(s: NesView, addr: u16) -> NesView {
        view_read(s, addr).after@
    }

    open spec fn after_write(s: NesView, addr: u16, data: u8) -> NesView {
        view_write(s, addr, data).2@
    }

    fn safe_read(&self, addr: u16) -> (r: u8) {
        let r: u8 = self.bus_safe_read(addr);
        proof {
            let n2: Nes = choose|n: Nes| n.view() == self.view();
            assert(n2@ == self@);
            lemma_safe_det(*self, n2, addr);
        }
        r
    }

    fn read(&mut self, addr: u16) -> (r: u8) {
        let ghost n0: Nes = *self;
        let r: u8 = self.bus_read(addr);
        proof {
            lemma_read_view(n0, addr, r, *self);
        }
        r
    }

    fn write(&mut self, addr: u16, data: u8) {
        let ghost n0: Nes = *self;
        let taken: bool = self.cart_write(addr, data);
        let ghost mid: Nes = *self;
        if !taken {
            self.rest_write(addr, data);
        }
        proof {
            lemma_write_view(n0, addr, data, mid, *self);
        }
    }
}

/// The DMA unit on one tick: on every third tick while a copy runs, it
/// waits for an odd tick, then alternately reads the next byte of the page
/// from the CPU bus (on even ticks) and writes it into the OAM (on odd
/// ticks); after the 256th byte the copy ends.
pub open spec fn dma_step(n: Nes, m: Nes) -> bool {
    if !(n.tick % 3 == 0 && n.dma_active) {
        m == n
    } else if n.dma_dummy {
        m == (Nes { dma_dummy: n.tick % 2 != 1, ..n })
    } else if n.tick % 2 == 0 {
        read_step(n, word(n.dma_addr, n.dma_page), m.dma_data, Nes { dma_data: n.dma_data, ..m })
    } else {
        let a = n.dma_addr.wrapping_add(1);
        &&& m.ppu.oam@ == oam_written(n.ppu.oam@, n.dma_addr, n.dma_data)
        &&& m.ppu == (Ppu { oam: m.ppu.oam, ..n.ppu })
        &&& m == (Nes { ppu: m.ppu, dma_addr: a, dma_active: a != 0, dma_dummy: a == 0 || n.dma_dummy, ..n })
    }
}

impl Nes {
    /// A console with the cartridge `cart` and the palette `palette`, as it
    /// is powered on.
    pub fn new(cart: Cart, palette: Palette) -> (r: Nes)
        ensures
            r.cpu == Cpu::power_on(),
            r.ppu.wf(),
            r.ppu.fresh(palette),
            r.apu.wf(),
            r.apu.fresh(),
            r.tick == 0,
            r.ram.start == 0,
            r.ram.buf@ == Seq::new(2048, |i: int| 0u8),
            r.ram_mirror == (Mirror { start: 0, total_size: 8192 }),
            r.ppu_registers_mirror == (Mirror { start: 0x2000, total_size: 8192 }),
            r.cart == cart,
            r.breakpoints@ == Set::<u16>::empty(),
            r.addresses_hit@ == Set::<u16>::empty(),
            r.peripherals@.controllers == seq![released(), released()],
            r.peripherals@.shifts == seq![0u8, 0u8],
            r.dma_page == 0,
            r.dma_addr == 0,
            r.dma_data == 0,
            !r.dma_active,
            r.dma_dummy,
            cart.wf() ==> r.bus_ok(),
    {
        let cpu: Cpu = Cpu::new();
        // 2K internal RAM, mirrored to 8K
        let ram: Ram = Ram::new(0x0000, 2 * 1024);
        let ram_mirror: Mirror = Mirror::new(0x0000, 8 * 1024);
        // PPU Registers, mirrored for 8K
        let ppu: Ppu = Ppu::new(palette);
        let ppu_registers_mirror: Mirror = Mirror::new(0x2000, 8 * 1024);
        let apu: Apu = Apu::new();
        Nes {
            tick: 0,
            cpu,
            ppu,
            apu,
            cart,
            ram_mirror,
            ram,
            ppu_registers_mirror,
            addresses_hit: HashSet::new(),
            peripherals: Peripherals::new(),
            breakpoints: HashSet::new(),
            dma_page: 0x00,
            dma_addr: 0x00,
            dma_data: 0x00,
            dma_active: false,
            dma_dummy: true,
        }
    }

    /// Reads `addr` from the CPU bus (see `read_step`).
    pub fn cpu_read(&mut self, addr: u16) -> (r: u8)
        ensures
            read_step(*old(self), addr, r, *final(self)),
            r == Self::peek(old(self)@, addr),
            final(self)@ == Self::after_read(old(self)@, addr),
    {
        let ghost n0: Nes = *self;
        let r: u8 = self.bus_read(addr);
        proof {
            lemma_read_view(n0, addr, r, *self);
        }
        r
    }

    /// Writes `data` to `addr` on the CPU bus (see `write_step`).
    pub fn cpu_write(&mut self, addr: u16, data: u8)
        ensures
            exists|mid: Nes| #[trigger] write_step(*old(self), addr, data, mid, *final(self)),
            final(self)@ == Self::after_write(old(self)@, addr, data),
    {
        let ghost n0: Nes = *self;
        let taken: bool = self.cart_write(addr, data);
        let ghost mid: Nes = *self;
        if !taken {
            self.rest_write(addr, data);
        }
        proof {
            lemma_write_view(n0, addr, data, mid, *self);
        }
    }

    /// Reads the little-endian word at `addr` from the CPU bus.
    pub fn cpu_read16(&mut self, addr: u16) -> (r: u16)
        requires
            addr < 0xFFFF,
        ensures
            r == word(Self::peek(old(self)@, addr), Self::peek(Self::after_read(old(self)@, addr), (addr + 1) as u16)),
            final(self)@ == Self::after_read(Self::after_read(old(self)@, addr), (addr + 1) as u16),
    {
        self.read16(addr)
    }

    /// Reads `addr` from the CPU bus without side effects (see
    /// `safe_step`).
    pub fn safe_cpu_read(&self, addr: u16) -> (r: u8)
        ensures
            r == safe_step(*self, addr),
            r == Self::safe_peek(self@, addr),
    {
        Bus::safe_read(self, addr)
    }

    /// Reads the little-endian word at `addr` without side effects.
    pub fn safe_cpu_read16(&self, addr: u16) -> (r: u16)
        requires
            addr < 0xFFFF,
        ensures
            r == word(safe_step(*self, addr), safe_step(*self, (addr + 1) as u16)),
    {
        let lo: u8 = self.bus_safe_read(addr);
        let hi: u8 = self.bus_safe_read(addr + 1);
        ((hi as u16) << 8u16) | (lo as u16)
    }

    /// The 64K that the CPU sees, read without side effects.
    pub fn memory(&self) -> (r: Vec<u8>)
        ensures
            r@.len() == 0x10000,
            forall|a: u16| #[trigger] r@[a as int] == safe_step(*self, a),
    {
        let mut mem: Vec<u8> = Vec::with_capacity(0x10000);
        let mut a: u32 = 0;
        while a < 0x10000
            invariant
                a <= 0x10000,
                mem@.len() == a,
                forall|b: u16| b < a ==> #[trigger] mem@[b as int] == safe_step(*self, b),
            decreases 0x10000 - a,
        {
            mem.push(self.bus_safe_read(a as u16));
            a = a + 1;
        }
        mem
    }

    /// The PPU can be clocked: it is in shape and the cartridge answers
    /// every PPU read.
    pub open spec fn devices_ok(&self) -> bool {
        self.ppu.wf() && self.cart.ppu_safe()
    }

    /// Whether `devices_ok` holds.
    pub fn check_devices(&self) -> (r: bool)
        ensures
            r == self.devices_ok(),
    {
        self.ppu.check_wf() && self.cart.check_wf() && self.cart.is_ppu_safe()
    }

    /// The first part of a clock: the PPU clocks, then the APU clocks with
    /// the cartridge that the PPU leaves, when it can (its frame counter has
    /// room and a DMC fetch that it makes reads the cartridge without a
    /// panic). The result says whether the APU clocked.
    pub fn clock_devices(&mut self) -> (apu_ran: bool)
        requires
            old(self).devices_ok(),
        ensures
            final(self).devices_ok(),
            old(self).ppu.clocked(old(self).cart, final(self).ppu, final(self).cart),
            apu_ran == apu_ready(old(self).apu, final(self).cart),
            apu_ran ==> old(self).apu.clocked(final(self).cart, final(self).apu, old(self).apu.clock_counter % 6 == 0),
            !apu_ran ==> final(self).apu == old(self).apu,
            *final(self) == (Nes { ppu: final(self).ppu, cart: final(self).cart, apu: final(self).apu, ..*old(self) }),
    {
        self.ppu.clock(&mut self.cart);
        let ready: bool = self.apu.check_wf() && self.cart.check_wf() && self.apu.frame_clock_counter < u32::MAX
            && (!self.apu.check_dmc_fetches() || self.cart.can_cpu_read(self.apu.dmc.current_addr));
        if ready {
            self.apu.clock(&mut self.cart);
        }
        ready
    }

    /// The DMA unit's part of a clock (see `dma_step`).
    pub fn clock_dma(&mut self)
        ensures
            dma_step(*old(self), *final(self)),
    {
        if !(self.tick % 3 == 0 && self.dma_active) {
            return;
        }
        if self.dma_dummy {
            if self.tick % 2 == 1 {
                self.dma_dummy = false;
            }
        } else {
            if self.tick % 2 == 0 {
                let addr: u16 = (self.dma_page as u16) << 8 | ((self.dma_addr as u16) & 0x00FF);
                proof {
                    let lo = self.dma_addr;
                    let hi = self.dma_page;
                    assert(((hi as u16) << 8u16 | ((lo as u16) & 0x00FFu16)) == word(lo, hi)) by (bit_vector);
                }
                self.dma_data = self.cpu_read(addr);
            } else {
                self.ppu.set_oam_data(self.dma_addr, self.dma_data);
                self.dma_addr = self.dma_addr.wrapping_add(1);
                if self.dma_addr == 0x00 {
                    self.dma_active = false;
                    self.dma_dummy = true;
                }
            }
        }
    }

    /// Whether the CPU clocks on this tick: on every third tick, unless a
    /// DMA copy runs.
    pub open spec fn cpu_turn(&self) -> bool {
        self.tick % 3 == 0 && !self.dma_active
    }

    /// The CPU's part of a clock: on its turn, the program counter is noted
    /// in `addresses_hit` and the CPU clocks on this console's bus. Returns
    /// `false` when the CPU's clock would panic (see `clock_ok`), which
    /// leaves the console part way through the instruction.
    pub fn clock_cpu(&mut self) -> (r: bool)
        ensures
            r == (old(self).cpu_turn() ==> clock_ok::<Nes>(old(self).cpu, old(self)@)),
            old(self).cpu_turn() && r ==> {
                &&& (final(self).cpu, final(self)@) == clock_spec::<Nes>(old(self).cpu, old(self)@)
                &&& final(self).addresses_hit@ == old(self).addresses_hit@.insert(old(self).cpu.pc)
                &&& final(self).breakpoints == old(self).breakpoints
            },
            !old(self).cpu_turn() ==> *final(self) == *old(self),
    {
        if !(self.tick % 3 == 0 && !self.dma_active) {
            return true;
        }
        let mut hit: HashSet<u16> = HashSet::new();
        std::mem::swap(&mut hit, &mut self.addresses_hit);
        hit.insert(self.cpu.pc);
        let mut breakpoints: HashSet<u16> = HashSet::new();
        std::mem::swap(&mut breakpoints, &mut self.breakpoints);
        let ghost before: NesView = old(self)@;
        assert(self@ == before);
        let mut cpu: Cpu = self.cpu;
        let ok: bool = cpu.try_clock(self);
        self.cpu = cpu;
        let ghost after: NesView = self@;
        self.addresses_hit = hit;
        self.breakpoints = breakpoints;
        assert(self@ == after);
        ok
    }

    /// The end of a clock: the tick advances, and a non-maskable interrupt
    /// that the PPU raised is taken (the PPU's flag is cleared).
    pub fn end_clock(&mut self)
        requires
            old(self).tick < u64::MAX,
        ensures
            ({
                let n1 = Nes { tick: (old(self).tick + 1) as u64, ppu: Ppu { nmi: false, ..old(self).ppu }, ..*old(self) };
                &&& old(self).ppu.nmi ==> (final(self).cpu, final(self)@) == interrupt_spec::<Nes>(
                    old(self).cpu,
                    n1@,
                    NMI_POINTER,
                    8,
                )
                &&& !old(self).ppu.nmi ==> *final(self) == (Nes { tick: (old(self).tick + 1) as u64, ..*old(self) })
            }),
    {
        self.tick = self.tick + 1;
        if self.ppu.nmi {
            self.ppu.nmi = false;
            let mut cpu: Cpu = self.cpu;
            cpu.sig_nmi(self);
            self.cpu = cpu;
        }
    }

    /// The first part of a tick (see `clock_devices`): `m1` is this console
    /// after its PPU and APU clocked.
    pub open spec fn devices_step(&self, m1: Nes) -> bool {
        &&& self.devices_ok()
        &&& self.ppu.clocked(self.cart, m1.ppu, m1.cart)
        &&& apu_ready(self.apu, m1.cart)
        &&& self.apu.clocked(m1.cart, m1.apu, self.apu.clock_counter % 6 == 0)
        &&& m1 == (Nes { ppu: m1.ppu, cart: m1.cart, apu: m1.apu, ..*self })
    }

    /// The CPU's part of a tick (see `clock_cpu`): `m3` is this console after
    /// it.
    pub open spec fn cpu_step(&self, m3: Nes) -> bool {
        &&& self.cpu_turn() ==> {
            &&& clock_ok::<Nes>(self.cpu, self@)
            &&& (m3.cpu, m3@) == clock_spec::<Nes>(self.cpu, self@)
            &&& m3.addresses_hit@ == self.addresses_hit@.insert(self.cpu.pc)
            &&& m3.breakpoints == self.breakpoints
        }
        &&& !self.cpu_turn() ==> m3 == *self
    }

    /// The end of a tick (see `end_clock`): `new` is this console after it.
    pub open spec fn end_step(&self, new: Nes) -> bool {
        let n1 = Nes { tick: (self.tick + 1) as u64, ppu: Ppu { nmi: false, ..self.ppu }, ..*self };
        &&& self.tick < u64::MAX
        &&& self.ppu.nmi ==> (new.cpu, new@) == interrupt_spec::<Nes>(self.cpu, n1@, NMI_POINTER, 8)
        &&& !self.ppu.nmi ==> new == (Nes { tick: (self.tick + 1) as u64, ..*self })
    }

    /// `new` is this console after one tick, through the states `m1` (PPU
    /// and APU clocked), `m2` (DMA step) and `m3` (CPU step).
    pub open spec fn ticked(&self, m1: Nes, m2: Nes, m3: Nes, new: Nes) -> bool {
        &&& self.devices_step(m1)
        &&& dma_step(m1, m2)
        &&& m2.cpu_step(m3)
        &&& m3.end_step(new)
    }

    /// The APU cannot clock after the PPU clocked into `m1`.
    pub open spec fn apu_blocked(&self, m1: Nes) -> bool {
        &&& self.ppu.clocked(self.cart, m1.ppu, m1.cart)
        &&& !apu_ready(self.apu, m1.cart)
    }

    /// The CPU's instruction would overflow after the devices clocked into
    /// `m1` and the DMA step into `m2`.
    pub open spec fn cpu_blocked(&self, m1: Nes, m2: Nes) -> bool {
        &&& self.devices_step(m1)
        &&& dma_step(m1, m2)
        &&& m2.cpu_turn()
        &&& !clock_ok::<Nes>(m2.cpu, m2@)
    }

    /// The tick counter is full at the end of the tick, after the devices
    /// clocked into `m1`, the DMA step into `m2` and the CPU step into `m3`.
    pub open spec fn tick_full(&self, m1: Nes, m2: Nes, m3: Nes) -> bool {
        &&& self.devices_step(m1)
        &&& dma_step(m1, m2)
        &&& m2.cpu_step(m3)
        &&& m3.tick == u64::MAX
    }

    /// A part of the next tick cannot run: the tick counter is full, the
    /// cartridge cannot serve the PPU, the APU cannot clock, or the CPU's
    /// instruction overflows.
    pub open spec fn tick_blocked(&self) -> bool {
        ||| self.tick == u64::MAX
        ||| !self.devices_ok()
        ||| exists|m1: Nes| #[trigger] self.apu_blocked(m1)
        ||| exists|m1: Nes, m2: Nes| #[trigger] self.cpu_blocked(m1, m2)
        ||| exists|m1: Nes, m2: Nes, m3: Nes| #[trigger] self.tick_full(m1, m2, m3)
    }

    /// One tick of the console (a PPU dot): the PPU and the APU clock, then
    /// on every third tick the DMA unit or the CPU, then the tick advances
    /// and a pending non-maskable interrupt is taken. Returns `false`, with
    /// the console part way through the tick, where a part cannot run: the
    /// tick counter is full, the cartridge cannot serve the PPU, the APU
    /// cannot clock, or the CPU's instruction overflows.
    #[verifier::rlimit(80)]
    pub fn clock(&mut self) -> (r: bool)
        ensures
            r ==> exists|m1: Nes, m2: Nes, m3: Nes| #[trigger] old(self).ticked(m1, m2, m3, *final(self)),
            !r ==> old(self).tick_blocked(),
    {
        if self.tick == u64::MAX || !self.check_devices() {
            return false;
        }
        let ghost n0: Nes = *self;
        if !self.clock_devices() {
            assert(n0.apu_blocked(*self));
            return false;
        }
        let ghost m1: Nes = *self;
        self.clock_dma();
        let ghost m2: Nes = *self;
        if !self.clock_cpu() {
            assert(n0.cpu_blocked(m1, m2));
            return false;
        }
        let ghost m3: Nes = *self;
        if self.tick == u64::MAX {
            assert(n0.tick_full(m1, m2, *self));
            return false;
        }
        self.end_clock();
        proof {
            assert(n0.ticked(m1, m2, m3, *self));
        }
        true
    }

    /// Whether the CPU has just finished an instruction: the tick after a
    /// CPU turn, with no cycles of the instruction left.
    pub fn instruction_done(&self) -> (r: bool)
        ensures
            r == (self.tick % 3 == 1 && self.cpu.cycles_left == 0),
    {
        self.tick % 3 == 1 && self.cpu.cycles_left == 0
    }

    /// Whether the CPU has just finished an instruction at one of the
    /// breakpoints.
    pub fn at_breakpoint(&self) -> (r: bool)
        ensures
            r == (self.tick % 3 == 1 && self.cpu.cycles_left == 0 && self.breakpoints@.contains(self.cpu.pc)),
    {
        self.instruction_done() && self.breakpoints.contains(&self.cpu.pc)
    }

    /// Whether a run of whole frames stops after this tick, and why:
    /// `Some(true)` when the CPU has just finished an instruction at a
    /// breakpoint, else `Some(false)` when the PPU has completed its frame,
    /// else `None`.
    pub fn frame_stop(&self) -> (r: Option<bool>)
        ensures
            r == if self.tick % 3 == 1 && self.cpu.cycles_left == 0 && self.breakpoints@.contains(self.cpu.pc) {
                Some(true)
            } else if self.ppu.frame_complete {
                Some(false)
            } else {
                None
            },
    {
        if self.at_breakpoint() {
            Some(true)
        } else if self.ppu.frame_complete {
            Some(false)
        } else {
            None
        }
    }

    /// Whether the program counter is one of `addr`.
    pub fn pc_in(&self, addr: &Vec<u16>) -> (r: bool)
        ensures
            r == addr@.contains(self.cpu.pc),
    {
        let pc: u16 = self.cpu.pc;
        let mut i: usize = 0;
        while i < addr.len()
            invariant
                i <= addr.len(),
                pc == self.cpu.pc,
                forall|j: int| 0 <= j < i ==> addr@[j] != pc,
            decreases addr.len() - i,
        {
            if addr[i] == pc {
                return true;
            }
            i = i + 1;
        }
        false
    }

    /// Resets the CPU on this console's bus.
    pub fn reset(&mut self)
        ensures
            (final(self).cpu, final(self)@) == reset_spec::<Nes>(old(self).cpu, old(self)@),
    {
        let mut cpu: Cpu = self.cpu;
        cpu.sig_reset(self);
        self.cpu = cpu;
    }
}

/// Whether the APU can run its next clock with the cartridge `cart`.
pub open spec fn apu_ready(apu: Apu, cart: Cart) -> bool {
    &&& apu.wf()
    &&& cart.wf()
    &&& apu.frame_clock_counter < u32::MAX
    &&& apu.dmc_fetches() ==> cart.cpu_read_ok(apu.dmc.current_addr)
}

/// The console's 2K of RAM answers at every 2K mirror over $0000-$1FFF:
/// after a write of `d` to `a`, a read of any `b` below $2000 that lies a
/// multiple of 2K away from `a` answers `d`.
pub proof fn law_ram_mirrored(n: Nes, a: u16, d: u8, mid: Nes, m: Nes, b: u16, r: u8, m2: Nes)
    requires
        n.bus_ok(),
        a < 0x2000,
        b < 0x2000,
        a % 2048 == b % 2048,
        write_step(n, a, d, mid, m),
        read_step(m, b, r, m2),
    ensures
        r == d,
{
    n.cart.lemma_low_addresses(a, d);
    mid.cart.lemma_low_addresses(b, d);
    assert(mid.bus_ok());
    assert(m.bus_ok());
}

/// Reads and writes keep the console wired as it was built.
pub proof fn law_bus_ok_kept(n: Nes, a: u16, d: u8, r: u8, m1: Nes, mid: Nes, m2: Nes)
    requires
        n.bus_ok(),
        read_step(n, a, r, m1),
        write_step(n, a, d, mid, m2),
    ensures
        m1.bus_ok(),
        m2.bus_ok(),
{
}

} // verus!
