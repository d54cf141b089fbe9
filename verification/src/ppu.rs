use vstd::prelude::*;
use crate::cart::{Cart, Mirroring};
use crate::mapper::m009::ChrLatch;
use crate::mapper::Mapper;
use crate::palette::{Color, Palette, palette_index, addr_to_palette_map_index};
use crate::text::{hex2, dec, is_ascii, push_all, push_hex2, push_dec, string_from_ascii};
use crate::ppu_regs::{
    lemma_loopy_fields, bit8, with_bit8, bit16, with_bit16, coarse_x_of, coarse_y_of, fine_y_of, with_coarse_x,
    with_coarse_y, with_fine_y, StatusRegister, MaskRegister, ControlRegister, LoopyRegister,
};

verus! {

pub const SCREEN_W: usize = 256;
pub const SCREEN_H: usize = 240;

/// A sprite: one entry of object attribute memory.
#[derive(Debug, PartialEq, Eq, Clone, Copy, Structural)]
pub struct ObjectAttributeEntry {
    /// Y position of the sprite
    pub y: u8,
    /// ID of the tile in pattern memory
    pub tile_id: u8,
    /// Flags that determine how the sprite should be rendered
    pub attribute: u8,
    /// X position of the sprite
    pub x: u8,
}

/// Bounds of a few masked bytes and addresses.
proof fn lemma_masks(x: u8, addr: u16, t: u16, row: u16)
    by (bit_vector)
    ensures
        x <= 7 ==> (x << 2u8) == x * 4,
        (x << 2u8) <= 252,
        x & 0x01u8 <= 1,
        t <= 255 && row <= 7 ==> (0x1000u16 | (t << 4u16) | row) <= 0x1FFF,
        t <= 255 && row <= 7 ==> ((t << 4u16) | row) <= 0x0FFF,
        t <= 255 && row <= 7 ==> (0u16 | (t << 4u16) | row) <= 0x0FFF,
        row & 0x0007u16 <= 7,
        addr & 0x0FFFu16 <= 0x0FFF,
        (0x2000u16 | (addr & 0x0FFFu16)) & 0x3FFFu16 >= 0x2000,
        (0x23C0u16 | (addr & 0x0C00u16) | ((addr >> 4u16) & 0x38u16) | ((addr >> 2u16) & 0x07u16)) & 0x3FFFu16 >= 0x2000,
        x & 0xFEu8 <= 0xFE,
        x & 0x03u8 <= 3,
        x & 0x07u8 <= 7,
        x >> 3u8 <= 31,
        addr & 0x03FFu16 < 1024,
        addr & 0x03FFu16 == (addr & 0x0FFFu16) & 0x03FFu16,
        (addr & 0x1000u16) >> 12u16 <= 1,
        addr & 0x0FFFu16 < 4096,
        (addr & 0x3FFFu16) & 0x3FFFu16 == addr & 0x3FFFu16,
        0x3F00 <= addr <= 0x3FFF ==> addr & 0x3FFFu16 >= 0x2000,
        addr <= 0x3FFF ==> addr & 0x3FFFu16 == addr,
        (addr & 0x3FFFu16) & 0x001Fu16 <= 31,
        (t == 0 || t == 0x1000) && row <= 7 ==> ((t | ((x as u16) << 4u16)) | (row & 7u16)) & 7u16 == row,
{
}

impl ObjectAttributeEntry {
    /// Whether or not this sprite should be flipped horizontally
    pub fn flip_x(self) -> (r: bool)
        ensures
            r == bit8(self.attribute, 6),
    {
        self.attribute & (1u8 << 6u8) != 0
    }

    /// Whether or not this sprite should be flipped vertically
    pub fn flip_y(self) -> (r: bool)
        ensures
            r == bit8(self.attribute, 7),
    {
        self.attribute & (1u8 << 7u8) != 0
    }

    /// Palette for the sprite, in absolute terms (always in the range 4 to
    /// 7): the sprite palettes follow the four background palettes.
    pub fn palette(self) -> (r: u8)
        ensures
            r == 4 + (self.attribute & 0x03u8),
            4 <= r <= 7,
    {
        proof {
            lemma_masks(self.attribute, 0, 0, 0);
        }
        4 + (self.attribute & 0b0000_0011)
    }

    /// Rendering priority; true = render the sprite above the background.
    pub fn priority(self) -> (r: bool)
        ensures
            r == !bit8(self.attribute, 5),
    {
        self.attribute & (1u8 << 5u8) == 0
    }
}

/// An empty sprite.
pub open spec fn blank_entry() -> ObjectAttributeEntry {
    ObjectAttributeEntry { y: 0, tile_id: 0, attribute: 0, x: 0 }
}

/// The picture processing unit: its memories, registers, and rendering
/// state.
pub struct Ppu {
    /// The current row number on the screen
    pub scanline: isize,
    /// The current pixel number on the current scanline
    pub cycle: isize,
    pub palette: Palette,
    /// The two 1K nametables, one after the other.
    pub name_tables: Vec<u8>,
    /// The two 4K pattern tables, one after the other.
    pub pattern_tables: Vec<u8>,
    pub frame_complete: bool,
    /// RGBA pixels, row after row.
    pub screen: Vec<[u8; 4]>,
    /// Whether the next write to $2005 or $2006 is the second of a pair.
    pub address_latch: bool,
    /// A read of $2007 answers the byte that the previous read fetched.
    pub data_buffer: u8,
    pub vram_addr: u16,
    pub tram_addr: u16,
    pub fine_x: u8,
    pub status: u8,
    pub mask: u8,
    pub control: u8,
    /// Whether a non-maskable interrupt has been triggered
    pub nmi: bool,
    /// Background fetch state for the next 8 pixels
    pub bg_next_tile_id: u8,
    pub bg_next_tile_attribute: u8,
    pub bg_next_tile_addr_lsb: u8,
    pub bg_next_tile_addr_msb: u8,
    pub bg_shifter_pattern_lo: u16,
    pub bg_shifter_pattern_hi: u16,
    pub bg_shifter_attrib_lo: u16,
    pub bg_shifter_attrib_hi: u16,
    pub oam: [ObjectAttributeEntry; 64],
    pub oam_addr: u8,
    /// The sprites to draw on this scanline, at most eight.
    pub sprites_on_scanline: Vec<ObjectAttributeEntry>,
    pub sprites_on_scanline_contains_sprite_0: bool,
}

/// A sprite with its field `f` (y, tile, attribute, x) set to `d`.
pub open spec fn entry_set(e: ObjectAttributeEntry, f: u8, d: u8) -> ObjectAttributeEntry {
    if f == 0 {
        ObjectAttributeEntry { y: d, ..e }
    } else if f == 1 {
        ObjectAttributeEntry { tile_id: d, ..e }
    } else if f == 2 {
        ObjectAttributeEntry { attribute: d, ..e }
    } else {
        ObjectAttributeEntry { x: d, ..e }
    }
}

/// The OAM after `d` is written at the OAM address `a`.
pub open spec fn oam_written(oam: Seq<ObjectAttributeEntry>, a: u8, d: u8) -> Seq<ObjectAttributeEntry> {
    oam.update((a / 4) as int, entry_set(oam[(a / 4) as int], a % 4, d))
}

/// One line of the OAM listing: `{:02} {:02X} {:03},{:03} {:02X}` and a
/// newline, for sprite `i`.
pub open spec fn oam_line(i: int, e: ObjectAttributeEntry) -> Seq<u8> {
    dec(i, 2) + seq![' ' as u8] + hex2(e.tile_id) + seq![' ' as u8] + dec(e.x as int, 3) + seq![',' as u8] + dec(
        e.y as int,
        3,
    ) + seq![' ' as u8] + hex2(e.attribute) + seq!['\n' as u8]
}

/// The OAM listing of the first `n` sprites.
pub open spec fn oam_text(oam: Seq<ObjectAttributeEntry>, n: int) -> Seq<u8>
    decreases n,
{
    if n <= 0 { Seq::empty() } else { oam_text(oam, n - 1) + oam_line(n - 1, oam[n - 1]) }
}

/// Whether the mask enables rendering of the background or of sprites.
pub open spec fn rendering(mask: u8) -> bool {
    bit8(mask, 3) || bit8(mask, 4)
}

/// The nametable that a nametable offset (0-$FFF) lands in.
pub open spec fn nametable_of(m: Mirroring, addr: u16) -> int {
    match m {
        Mirroring::Vertical => if (addr & 0x0400u16) != 0 { 1 } else { 0 },
        Mirroring::Horizontal => if addr >= 0x0800 { 1 } else { 0 },
        Mirroring::OneScreenLo => 0,
        Mirroring::OneScreenHi => 1,
    }
}

/// A byte written into the PPU's own memory (pattern tables, nametables or
/// palette memory) reads back at the address it was written to.
pub proof fn law_vram_read_back(p: Ppu, m: Mirroring, addr: u16, data: u8, new: Ppu)
    requires
        p.wf(),
        p.vram_written(m, addr, data, new),
    ensures
        new.vram_byte(m, addr) == data,
{
    let a = addr & 0x3FFFu16;
    lemma_masks(0, a, 0, 0);
    lemma_masks(0, addr, 0, 0);
}

/// The physical nametable that the mirroring `m` maps nametable address
/// `x` onto: bit 10 of the address under vertical mirroring, bit 11 under
/// horizontal, and the one table of a one-screen mirroring.
pub open spec fn physical_table(m: Mirroring, x: u16) -> u16 {
    match m {
        Mirroring::Vertical => (x >> 10u16) & 1u16,
        Mirroring::Horizontal => (x >> 11u16) & 1u16,
        Mirroring::OneScreenLo => 0,
        Mirroring::OneScreenHi => 1,
    }
}

proof fn lemma_physical_table(x: u16)
    by (bit_vector)
    ensures
        ((x & 0x3FFFu16) & 0x0FFFu16) & 0x0400u16 != 0 <==> (x >> 10u16) & 1u16 == 1u16,
        ((x & 0x3FFFu16) & 0x0FFFu16) >= 0x0800u16 <==> (x >> 11u16) & 1u16 == 1u16,
        (x & 0x3FFFu16) & 0x03FFu16 == x & 0x03FFu16,
        x <= 0x3EFFu16 ==> x & 0x3FFFu16 == x,
{
}

/// A nametable byte written at `a` reads back at every nametable address
/// `b` that the mirroring `m` maps onto it: the same offset within a
/// nametable, in the same physical nametable.
pub proof fn law_nametable_mirroring(p: Ppu, m: Mirroring, a: u16, b: u16, data: u8, new: Ppu)
    requires
        p.wf(),
        p.vram_written(m, a, data, new),
        0x2000 <= a <= 0x3EFF,
        0x2000 <= b <= 0x3EFF,
        b & 0x03FFu16 == a & 0x03FFu16,
        physical_table(m, b) == physical_table(m, a),
    ensures
        new.vram_byte(m, b) == data,
{
    lemma_physical_table(a);
    lemma_physical_table(b);
    lemma_masks(0, a & 0x3FFFu16, 0, 0);
    assert(name_index(m, b & 0x3FFFu16) == name_index(m, a & 0x3FFFu16));
}

/// The address port: with the address latch clear, two writes to $2006
/// set the VRAM address (and the temporary address) to the first byte
/// (high) and the second (low), leave the latch clear, and leave the
/// cartridge alone.
pub proof fn law_ppu_address_port(p: Ppu, c: Cart, hi: u8, lo: u8, p1: Ppu, c1: Cart, p2: Ppu, c2: Cart)
    requires
        !p.address_latch,
        p.register_write(c, 0x2006, hi, Some(()), p1, c1),
        p1.register_write(c1, 0x2006, lo, Some(()), p2, c2),
    ensures
        p2.vram_addr == ((hi as u16) << 8u16) | (lo as u16),
        p2.tram_addr == p2.vram_addr,
        !p2.address_latch,
        c2 == c,
{
    let t = p.tram_addr;
    assert(((((t & 0x00FFu16) | ((hi as u16) << 8u16)) & 0xFF00u16) | (lo as u16)) == ((hi as u16) << 8u16) | (
    lo as u16)) by (bit_vector);
}

/// The offset into the pattern tables of a pattern address.
pub open spec fn pattern_index(addr: u16) -> int {
    ((addr & 0x1000u16) >> 12u16) * 4096 + (addr & 0x0FFFu16)
}

/// The offset into the nametables of a nametable address under `m`.
pub open spec fn name_index(m: Mirroring, addr: u16) -> int {
    nametable_of(m, addr & 0x0FFFu16) * 1024 + (addr & 0x03FFu16)
}

impl Ppu {
    /// The PPU's invariant: the sizes of its memories, a fine X scroll of
    /// three bits, and a position on the 341 x 262 dot frame.
    pub open spec fn wf(&self) -> bool {
        &&& self.name_tables@.len() == 2048
        &&& self.pattern_tables@.len() == 8192
        &&& self.screen@.len() == SCREEN_W * SCREEN_H
        &&& self.sprites_on_scanline@.len() <= 8
        &&& self.fine_x < 8
        &&& -1 <= self.scanline <= 260
        &&& 0 <= self.cycle <= 340
    }

    /// The byte the PPU bus holds at `addr_` (mirrored down to $3FFF) when
    /// the cartridge does not answer: pattern memory, nametables under the
    /// mirroring `m`, or palette memory.
    pub open spec fn vram_byte(&self, m: Mirroring, addr_: u16) -> u8 {
        let addr = addr_ & 0x3FFFu16;
        if addr <= 0x1FFF {
            self.pattern_tables@[pattern_index(addr)]
        } else if addr <= 0x3EFF {
            self.name_tables@[name_index(m, addr)]
        } else {
            self.palette.map@[palette_index(addr)]
        }
    }

    /// What a PPU read of `addr_` answers with the cartridge `cart`.
    pub open spec fn peek(&self, cart: Cart, addr_: u16) -> u8 {
        match cart.ppu_peek(addr_ & 0x3FFFu16) {
            Some(d) => d,
            None => self.vram_byte(cart.mirroring_spec(), addr_),
        }
    }

    /// What a PPU read of `addr_` answers with the cartridge `cart` when an
    /// MMC2's latches stand at `l`.
    pub open spec fn peek_with(&self, cart: Cart, l: Seq<ChrLatch>, addr_: u16) -> u8 {
        match cart.ppu_peek_with(l, addr_ & 0x3FFFu16) {
            Some(d) => d,
            None => self.vram_byte(cart.mirroring_spec(), addr_),
        }
    }

    /// `new` is this PPU after a PPU write of `data` to `addr_` that the
    /// cartridge did not take: the byte lands in pattern memory, a
    /// nametable, or palette memory, and nothing else changes.
    pub open spec fn vram_written(&self, m: Mirroring, addr_: u16, data: u8, new: Ppu) -> bool {
        let addr = addr_ & 0x3FFFu16;
        &&& new == (Ppu {
            pattern_tables: new.pattern_tables,
            name_tables: new.name_tables,
            palette: new.palette,
            ..*self
        })
        &&& new.pattern_tables@ == if addr <= 0x1FFF {
            self.pattern_tables@.update(pattern_index(addr), data)
        } else {
            self.pattern_tables@
        }
        &&& new.name_tables@ == if 0x2000 <= addr <= 0x3EFF {
            self.name_tables@.update(name_index(m, addr), data)
        } else {
            self.name_tables@
        }
        &&& new.palette.colors == self.palette.colors
        &&& new.palette.map@ == if 0x3F00 <= addr {
            self.palette.map@.update(palette_index(addr), data)
        } else {
            self.palette.map@
        }
    }

    /// A PPU as it is powered on, with `palette`: at the start of the frame,
    /// its memories and registers zero, its OAM blank, and every pixel of
    /// its screen opaque magenta.
    pub open spec fn fresh(&self, palette: Palette) -> bool {
        &&& self.scanline == 0
        &&& self.screen@ == Seq::new(61440, |i: int| [0xFFu8, 0x00u8, 0xFFu8, 0xFFu8])
        &&& self.cycle == 0
        &&& !self.frame_complete
        &&& self.palette == palette
        &&& self.name_tables@ == Seq::new(2048, |i: int| 0u8)
        &&& self.pattern_tables@ == Seq::new(8192, |i: int| 0u8)
        &&& !self.address_latch
        &&& self.data_buffer == 0
        &&& self.vram_addr == 0
        &&& self.tram_addr == 0
        &&& self.fine_x == 0
        &&& self.status == 0
        &&& self.mask == 0
        &&& self.control == 0
        &&& !self.nmi
        &&& self.bg_next_tile_id == 0
        &&& self.bg_next_tile_attribute == 0
        &&& self.bg_next_tile_addr_lsb == 0
        &&& self.bg_next_tile_addr_msb == 0
        &&& self.bg_shifter_pattern_lo == 0
        &&& self.bg_shifter_pattern_hi == 0
        &&& self.bg_shifter_attrib_lo == 0
        &&& self.bg_shifter_attrib_hi == 0
        &&& forall|i: int| 0 <= i < 64 ==> self.oam@[i] == blank_entry()
        &&& self.oam_addr == 0
        &&& self.sprites_on_scanline@.len() == 0
        &&& !self.sprites_on_scanline_contains_sprite_0
    }

    pub fn new(palette: Palette) -> (r: Ppu)
        ensures
            r.wf(),
            r.fresh(palette),
    {
        let r = Ppu {
            scanline: 0,
            cycle: 0,
            frame_complete: false,
            palette,
            name_tables: vec![0x00u8; 2048],
            pattern_tables: vec![0x00u8; 8192],
            screen: vec![[0xFFu8, 0x00u8, 0xFFu8, 0xFFu8]; 61440],
            address_latch: false,
            data_buffer: 0x00,
            vram_addr: 0x0000,
            tram_addr: 0x0000,
            fine_x: 0x00,
            status: 0x00,
            mask: 0x00,
            control: 0x00,
            nmi: false,
            bg_next_tile_id: 0x00,
            bg_next_tile_attribute: 0x00,
            bg_next_tile_addr_lsb: 0x00,
            bg_next_tile_addr_msb: 0x00,
            bg_shifter_pattern_lo: 0x0000,
            bg_shifter_pattern_hi: 0x0000,
            bg_shifter_attrib_lo: 0x0000,
            bg_shifter_attrib_hi: 0x0000,
            oam: [ObjectAttributeEntry { y: 0x00, tile_id: 0x00, attribute: 0x00, x: 0x00 }; 64],
            oam_addr: 0x00,
            sprites_on_scanline: Vec::new(),
            sprites_on_scanline_contains_sprite_0: false,
        };
        assert(r.name_tables@ =~= Seq::new(2048, |i: int| 0u8));
        assert(r.pattern_tables@ =~= Seq::new(8192, |i: int| 0u8));
        proof {
            let magenta: [u8; 4] = [0xFFu8, 0x00u8, 0xFFu8, 0xFFu8];
            assert forall|i: int| 0 <= i < 61440 implies #[trigger] r.screen@[i] == magenta by {
                let x = r.screen@[i];
                if x != magenta {
                    assert(forall|j: int| 0 <= j < 4 ==> cloned::<u8>(magenta@[j], #[trigger] x@[j]));
                    assert(magenta@ =~= x@);
                    assert(magenta =~= x);
                }
            }
            assert(r.screen@ =~= Seq::new(61440, |i: int| magenta));
        }
        r
    }

    /// The nametable offset that a nametable address lands in.
    fn name_table_index(addr: u16, m: Mirroring) -> (r: usize)
        ensures
            r == name_index(m, addr),
            r < 2048,
    {
        let a: u16 = addr & 0x0FFF;
        let table: usize = match m {
            Mirroring::Vertical => if (a & 0x0400) != 0 { 1 } else { 0 },
            Mirroring::Horizontal => if a >= 0x0800 { 1 } else { 0 },
            Mirroring::OneScreenLo => 0,
            Mirroring::OneScreenHi => 1,
        };
        proof {
            lemma_masks(0, addr, 0, 0);
        }
        table * 1024 + ((a & 0x03FF) as usize)
    }

    /// The pattern memory offset of a pattern address.
    fn pattern_table_index(addr: u16) -> (r: usize)
        requires
            addr <= 0x1FFF,
        ensures
            r == pattern_index(addr),
            r < 8192,
    {
        proof {
            lemma_masks(0, addr, 0, 0);
        }
        (((addr & 0x1000) >> 12) as usize) * 4096 + ((addr & 0x0FFF) as usize)
    }

    /// Reads a byte on the PPU bus: the cartridge answers first; otherwise
    /// pattern memory, the nametables, or the palette.
    pub fn ppu_read(&self, addr_: u16, cart: &mut Cart) -> (r: u8)
        requires
            self.wf(),
            old(cart).wf(),
            old(cart).ppu_read_ok(addr_ & 0x3FFFu16),
        ensures
            r == self.peek(*old(cart), addr_),
            final(cart).wf(),
            old(cart).mapper.ppu_read_post(addr_ & 0x3FFFu16, final(cart).mapper),
            final(cart).cpu_mapper == old(cart).cpu_mapper,
            final(cart).ppu_mapper == old(cart).ppu_mapper,
            final(cart).mirroring == old(cart).mirroring,
            final(cart).has_ram == old(cart).has_ram,
            final(cart).has_trainer == old(cart).has_trainer,
            final(cart).mapper_code == old(cart).mapper_code,
            old(cart).ppu_read_effect(addr_ & 0x3FFFu16, *final(cart)),
            old(cart).ppu_safe() ==> final(cart).ppu_reads_from(&*old(cart)),
            final(cart).same_chr(*old(cart)),
            final(cart).latches() == old(cart).read_latches(old(cart).latches(), addr_ & 0x3FFFu16),
    {
        let addr: u16 = addr_ & 0x3FFF;
        let ghost m: Mirroring = old(cart).mirroring_spec();
        match cart.ppu_read(addr) {
            Some(data) => {
                return data;
            },
            None => {},
        }
        proof {
            lemma_masks(0, addr_, 0, 0);
        }
        if addr <= 0x1FFF {
            // pattern memory
            self.pattern_tables[Self::pattern_table_index(addr)]
        } else if addr <= 0x3EFF {
            // nametable memory
            let m: Mirroring = cart.mirroring();
            self.name_tables[Self::name_table_index(addr, m)]
        } else {
            // palette memory
            self.palette.map[addr_to_palette_map_index(addr)]
        }
    }

    /// Writes a byte on the PPU bus: the cartridge takes it first;
    /// otherwise it lands in pattern memory, a nametable, or the palette.
    pub fn ppu_write(&mut self, addr_: u16, data: u8, cart: &mut Cart)
        requires
            old(self).wf(),
            old(cart).wf(),
            old(cart).ppu_read_ok(addr_ & 0x3FFFu16),
        ensures
            final(self).wf(),
            final(cart).wf(),
            old(cart).ppu_peek(addr_ & 0x3FFFu16).is_some() ==> *final(self) == *old(self),
            old(cart).ppu_peek(addr_ & 0x3FFFu16).is_none() ==> old(self).vram_written(
                old(cart).mirroring_spec(),
                addr_,
                data,
                *final(self),
            ),
            final(cart).ppu_mapper.chr@ == crate::cart::rom_after_write(
                old(cart).ppu_mapper.chr@,
                crate::mapper::write_through(old(cart).mapper.ppu_map(addr_ & 0x3FFFu16)),
                data,
            ),
            final(cart).ppu_mapper.num_chr_banks == old(cart).ppu_mapper.num_chr_banks,
            final(cart).mapper == old(cart).mapper,
            final(cart).cpu_mapper == old(cart).cpu_mapper,
            final(cart).mirroring == old(cart).mirroring,
            final(cart).has_ram == old(cart).has_ram,
            final(cart).has_trainer == old(cart).has_trainer,
            final(cart).mapper_code == old(cart).mapper_code,
            old(cart).ppu_write_effect(addr_ & 0x3FFFu16, data, *final(cart)),
    {
        let addr: u16 = addr_ & 0x3FFF;
        match cart.ppu_write(addr, data) {
            Some(()) => {
                return;
            },
            None => {},
        }
        proof {
            lemma_masks(0, addr_, 0, 0);
        }
        if addr <= 0x1FFF {
            // pattern memory
            let i: usize = Self::pattern_table_index(addr);
            self.pattern_tables.set(i, data);
        } else if addr <= 0x3EFF {
            // nametable memory
            let m: Mirroring = cart.mirroring();
            let i: usize = Self::name_table_index(addr, m);
            self.name_tables.set(i, data);
        } else {
            // palette memory
            self.palette.map[addr_to_palette_map_index(addr)] = data;
        }
    }

    /// The color that palette `palette` gives pixel value `pixel`.
    pub fn get_color_from_palette_ram(&self, palette: u8, pixel: u8, cart: &mut Cart) -> (r: Color)
        requires
            self.wf(),
            old(cart).ppu_safe(),
            (palette << 2u8) + pixel <= 0xFF,
        ensures
            r == self.palette.colors@[(self.vram_byte(
                old(cart).mirroring_spec(),
                (0x3F00 + ((palette << 2u8) + pixel)) as u16,
            ) % 64) as int],
            final(cart).ppu_reads_from(&*old(cart)),
            final(cart).same_chr(*old(cart)),
            final(cart).latches() == old(cart).latches(),
    {
        let addr: u16 = 0x3F00u16 + (((palette << 2) + pixel) as u16);
        proof {
            old(cart).lemma_ppu_safe_reads(addr & 0x3FFFu16);
            lemma_masks(0, addr, 0, 0);
        }
        let idx: u8 = self.ppu_read(addr, cart);
        self.palette.colors[(idx % 64) as usize]
    }

    /// The OAM byte at `oam_addr`: entry `oam_addr / 4`, field
    /// `oam_addr % 4` (y, tile, attribute, x).
    pub open spec fn oam_byte(&self, oam_addr: u8) -> u8 {
        let e = self.oam@[(oam_addr / 4) as int];
        let f = oam_addr % 4;
        if f == 0 {
            e.y
        } else if f == 1 {
            e.tile_id
        } else if f == 2 {
            e.attribute
        } else {
            e.x
        }
    }

    /// The OAM byte that the OAM address selects.
    pub fn get_oam_data(&self) -> (r: u8)
        ensures
            r == self.oam_byte(self.oam_addr),
    {
        // Each OAM entry is 4 bytes long.
        let oam_entry: ObjectAttributeEntry = self.oam[(self.oam_addr as usize) / 4];
        let f: u8 = self.oam_addr % 4;
        if f == 0 {
            oam_entry.y
        } else if f == 1 {
            oam_entry.tile_id
        } else if f == 2 {
            oam_entry.attribute
        } else {
            oam_entry.x
        }
    }

    /// The OAM byte at `a` after `data` was written at `oam_addr`.
    pub open spec fn oam_byte_after(&self, oam_addr: u8, data: u8, a: u8) -> u8 {
        if a == oam_addr {
            data
        } else {
            self.oam_byte(a)
        }
    }

    /// Writes the OAM byte at `oam_addr`.
    pub fn set_oam_data(&mut self, oam_addr: u8, data: u8)
        ensures
            final(self).oam@.len() == 64,
            final(self).oam@ == oam_written(old(self).oam@, oam_addr, data),
            forall|a: u8| #[trigger] final(self).oam_byte(a) == old(self).oam_byte_after(oam_addr, data, a),
            *final(self) == (Ppu { oam: final(self).oam, ..*old(self) }),
    {
        let idx: usize = (oam_addr as usize) / 4;
        let mut e: ObjectAttributeEntry = self.oam[idx];
        let f: u8 = oam_addr % 4;
        if f == 0 {
            e.y = data;
        } else if f == 1 {
            e.tile_id = data;
        } else if f == 2 {
            e.attribute = data;
        } else {
            e.x = data;
        }
        self.oam[idx] = e;
        assert(self.oam@ =~= oam_written(old(self).oam@, oam_addr, data));
        assert forall|a: u8| #[trigger] self.oam_byte(a) == old(self).oam_byte_after(oam_addr, data, a) by {
            if a / 4 != oam_addr / 4 {
                assert(self.oam@[(a / 4) as int] == old(self).oam@[(a / 4) as int]);
            }
        }
    }

    /// A listing of the OAM, one line per sprite: its index, tile, x and y
    /// positions and attribute.
    pub fn oam_trace(&self) -> (r: String)
        ensures
            r@ == Seq::new(oam_text(self.oam@, 64).len(), |i: int| oam_text(self.oam@, 64)[i] as char),
    {
        let mut v: Vec<u8> = Vec::new();
        let mut i: usize = 0;
        while i < 64
            invariant
                i <= 64,
                v@ == oam_text(self.oam@, i as int),
                is_ascii(v@),
            decreases 64 - i,
        {
            let sprite: ObjectAttributeEntry = self.oam[i];
            push_dec(&mut v, i as u16, 2);
            push_all(&mut v, &[' ' as u8]);
            push_hex2(&mut v, sprite.tile_id);
            push_all(&mut v, &[' ' as u8]);
            push_dec(&mut v, sprite.x as u16, 3);
            push_all(&mut v, &[',' as u8]);
            push_dec(&mut v, sprite.y as u16, 3);
            push_all(&mut v, &[' ' as u8]);
            push_hex2(&mut v, sprite.attribute);
            push_all(&mut v, &['\n' as u8]);
            assert(v@ =~= oam_text(self.oam@, i + 1));
            i = i + 1;
        }
        string_from_ascii(v)
    }

    /// Loads the next tile's pattern bits and attribute into the low bytes
    /// of the background shifters.
    pub fn load_shift_registers(&mut self)
        ensures
            *final(self) == (Ppu {
                bg_shifter_pattern_lo: (old(self).bg_shifter_pattern_lo & 0xFF00u16) | (
                old(self).bg_next_tile_addr_lsb as u16),
                bg_shifter_pattern_hi: (old(self).bg_shifter_pattern_hi & 0xFF00u16) | (
                old(self).bg_next_tile_addr_msb as u16),
                bg_shifter_attrib_lo: (old(self).bg_shifter_attrib_lo & 0xFF00u16) | (if (
                old(self).bg_next_tile_attribute & 0x01u8) != 0 {
                    0xFFu16
                } else {
                    0x00u16
                }),
                bg_shifter_attrib_hi: (old(self).bg_shifter_attrib_hi & 0xFF00u16) | (if (
                old(self).bg_next_tile_attribute & 0x02u8) != 0 {
                    0xFFu16
                } else {
                    0x00u16
                }),
                ..*old(self)
            }),
    {
        self.bg_shifter_pattern_lo = (self.bg_shifter_pattern_lo & 0xFF00) | (self.bg_next_tile_addr_lsb as u16);
        self.bg_shifter_pattern_hi = (self.bg_shifter_pattern_hi & 0xFF00) | (self.bg_next_tile_addr_msb as u16);
        self.bg_shifter_attrib_lo = (self.bg_shifter_attrib_lo & 0xFF00) | (if (self.bg_next_tile_attribute
            & 0b01) != 0 {
            0xFF
        } else {
            0x00
        });
        self.bg_shifter_attrib_hi = (self.bg_shifter_attrib_hi & 0xFF00) | (if (self.bg_next_tile_attribute
            & 0b10) != 0 {
            0xFF
        } else {
            0x00
        });
    }

    /// Moves the VRAM address down one pixel row when rendering is enabled.
    pub fn increment_scroll_y(&mut self)
        ensures
            *final(self) == (Ppu {
                vram_addr: if rendering(old(self).mask) {
                    scroll_y_inc(old(self).vram_addr)
                } else {
                    old(self).vram_addr
                },
                ..*old(self)
            }),
    {
        if !(self.mask.render_background() || self.mask.render_sprites()) {
            return;
        }
        proof {
            lemma_loopy_bounds(self.vram_addr);
        }
        if self.vram_addr.fine_y() < 7 {
            self.vram_addr = self.vram_addr.set_fine_y(self.vram_addr.fine_y() + 1);
        } else {
            // Crossing 8 rows enters the next tile row:
            self.vram_addr = self.vram_addr.set_fine_y(0);
            proof {
                lemma_loopy_bounds(self.vram_addr);
            }
            let coarse_y: u8 = self.vram_addr.coarse_y();
            if coarse_y == 29 {
                // The last row of a nametable: wrap to the nametable below.
                self.vram_addr = self.vram_addr.set_coarse_y(0).set_nametable_y(!self.vram_addr.nametable_y());
            } else if coarse_y == 31 {
                // Rows 30 and 31 hold attributes: wrap without switching.
                self.vram_addr = self.vram_addr.set_coarse_y(0);
            } else {
                self.vram_addr = self.vram_addr.set_coarse_y(coarse_y + 1);
            }
        }
    }

    /// Copies the horizontal scroll from the temporary address when
    /// rendering is enabled.
    pub fn transfer_address_x(&mut self)
        ensures
            *final(self) == (Ppu {
                vram_addr: if rendering(old(self).mask) {
                    transfer_x(old(self).vram_addr, old(self).tram_addr)
                } else {
                    old(self).vram_addr
                },
                ..*old(self)
            }),
    {
        if !(self.mask.render_background() || self.mask.render_sprites()) {
            return;
        }
        self.vram_addr = self.vram_addr.set_nametable_x(self.tram_addr.nametable_x()).set_coarse_x(
            self.tram_addr.coarse_x(),
        );
    }

    /// Copies the vertical scroll from the temporary address when
    /// rendering is enabled.
    pub fn transfer_address_y(&mut self)
        ensures
            *final(self) == (Ppu {
                vram_addr: if rendering(old(self).mask) {
                    transfer_y(old(self).vram_addr, old(self).tram_addr)
                } else {
                    old(self).vram_addr
                },
                ..*old(self)
            }),
    {
        if !(self.mask.render_background() || self.mask.render_sprites()) {
            return;
        }
        self.vram_addr = self.vram_addr.set_nametable_y(self.tram_addr.nametable_y()).set_coarse_y(
            self.tram_addr.coarse_y(),
        ).set_fine_y(self.tram_addr.fine_y());
    }
}

/// Field bounds of a loopy register.
pub proof fn lemma_loopy_bounds(x: u16)
    by (bit_vector)
    ensures
        coarse_x_of(x) < 32,
        coarse_y_of(x) < 32,
        fine_y_of(x) < 8,
{
}

/// The VRAM address one tile to the right: coarse X wraps from 31 to 0 into
/// the neighbouring nametable.
pub open spec fn coarse_x_inc(v: u16) -> u16 {
    if coarse_x_of(v) == 31 {
        with_bit16(with_coarse_x(v, 0), 10, !bit16(v, 10))
    } else {
        with_coarse_x(v, (coarse_x_of(v) + 1) as u8)
    }
}

/// The VRAM address one pixel row down: fine Y counts to 7, then coarse Y
/// moves; row 29 wraps into the nametable below, row 31 wraps in place.
pub open spec fn scroll_y_inc(v: u16) -> u16 {
    if fine_y_of(v) < 7 {
        with_fine_y(v, (fine_y_of(v) + 1) as u8)
    } else {
        let v1 = with_fine_y(v, 0);
        if coarse_y_of(v1) == 29 {
            with_bit16(with_coarse_y(v1, 0), 11, !bit16(v1, 11))
        } else if coarse_y_of(v1) == 31 {
            with_coarse_y(v1, 0)
        } else {
            with_coarse_y(v1, (coarse_y_of(v1) + 1) as u8)
        }
    }
}

/// The VRAM address with the horizontal scroll of `t`.
pub open spec fn transfer_x(v: u16, t: u16) -> u16 {
    with_coarse_x(with_bit16(v, 10, bit16(t, 10)), coarse_x_of(t))
}

/// The VRAM address with the vertical scroll of `t`.
pub open spec fn transfer_y(v: u16, t: u16) -> u16 {
    with_fine_y(with_coarse_y(with_bit16(v, 11, bit16(t, 11)), coarse_y_of(t)), fine_y_of(t))
}

/// Whether a sprite covers scanline `scanline`, for sprites `height` rows
/// tall.
pub open spec fn sprite_visible(e: ObjectAttributeEntry, scanline: int, height: int) -> bool {
    0 <= scanline - e.y < height
}

/// The first `n` sprites of `oam`, in OAM order, that cover the scanline.
pub open spec fn first_visible(oam: Seq<ObjectAttributeEntry>, scanline: int, height: int, n: nat) -> Seq<
    ObjectAttributeEntry,
>
    decreases oam.len(),
{
    if oam.len() == 0 || n == 0 {
        Seq::empty()
    } else if sprite_visible(oam[0], scanline, height) {
        seq![oam[0]] + first_visible(oam.drop_first(), scanline, height, (n - 1) as nat)
    } else {
        first_visible(oam.drop_first(), scanline, height, n)
    }
}

/// The number of sprites in `oam` that cover the scanline.
pub open spec fn count_visible(oam: Seq<ObjectAttributeEntry>, scanline: int, height: int) -> nat
    decreases oam.len(),
{
    if oam.len() == 0 {
        0
    } else {
        (if sprite_visible(oam[0], scanline, height) { 1nat } else { 0nat }) + count_visible(
            oam.drop_first(),
            scanline,
            height,
        )
    }
}

/// The height of sprites: 16 rows when the control register selects tall
/// sprites, else 8.
pub open spec fn sprite_height(control: u8) -> int {
    if bit8(control, 5) { 16 } else { 8 }
}

impl Ppu {
    /// Sprite evaluation: the first eight sprites of OAM that cover the
    /// current scanline, whether sprite 0 is among them, and the sprite
    /// overflow flag, set when eight sprites cover the scanline.
    pub fn evaluate_sprites(&mut self)
        requires
            old(self).wf(),
            0 <= old(self).scanline <= 239,
        ensures
            final(self).wf(),
            final(self).sprites_on_scanline@ == first_visible(
                old(self).oam@,
                old(self).scanline as int,
                sprite_height(old(self).control),
                8,
            ),
            final(self).sprites_on_scanline_contains_sprite_0 == sprite_visible(
                old(self).oam@[0],
                old(self).scanline as int,
                sprite_height(old(self).control),
            ),
            final(self).status == if count_visible(
                old(self).oam@,
                old(self).scanline as int,
                sprite_height(old(self).control),
            ) >= 8 {
                with_bit8(old(self).status, 5, true)
            } else {
                old(self).status
            },
            *final(self) == (Ppu {
                sprites_on_scanline: final(self).sprites_on_scanline,
                sprites_on_scanline_contains_sprite_0: final(self).sprites_on_scanline_contains_sprite_0,
                status: final(self).status,
                ..*old(self)
            }),
    {
        let scanline: i16 = self.scanline as i16;
        let sprite_height: i16 = if self.control.tall_sprites() { 16 } else { 8 };
        let ghost s: int = self.scanline as int;
        let ghost h: int = sprite_height as int;
        let ghost oam: Seq<ObjectAttributeEntry> = self.oam@;
        self.sprites_on_scanline.clear();
        self.sprites_on_scanline_contains_sprite_0 = false;
        let mut i: usize = 0;
        assert(oam.subrange(0, 64) =~= oam);
        assert(self.sprites_on_scanline@ =~= Seq::<ObjectAttributeEntry>::empty());
        // Only the first 8 sprites that cover the scanline, in OAM order,
        // are drawn.
        while i < 64
            invariant_except_break
                self.sprites_on_scanline@.len() < 8,
                self.status == old(self).status,
                count_visible(oam, s, h) == self.sprites_on_scanline@.len() + count_visible(
                    oam.subrange(i as int, 64),
                    s,
                    h,
                ),
            invariant
                0 <= i <= 64,
                oam == self.oam@,
                oam == old(self).oam@,
                s == self.scanline,
                s == scanline,
                0 <= scanline <= 239,
                h == sprite_height,
                h == crate::ppu::sprite_height(self.control),
                self.sprites_on_scanline@.len() <= 8,
                self.sprites_on_scanline@ + first_visible(
                    oam.subrange(i as int, 64),
                    s,
                    h,
                    (8 - self.sprites_on_scanline@.len()) as nat,
                ) == first_visible(oam, s, h, 8),
                self.sprites_on_scanline_contains_sprite_0 == (i > 0 && sprite_visible(oam[0], s, h)),
                *self == (Ppu {
                    sprites_on_scanline: self.sprites_on_scanline,
                    sprites_on_scanline_contains_sprite_0: self.sprites_on_scanline_contains_sprite_0,
                    status: self.status,
                    ..*old(self)
                }),
            ensures
                self.sprites_on_scanline@ == first_visible(oam, s, h, 8),
                self.sprites_on_scanline_contains_sprite_0 == sprite_visible(oam[0], s, h),
                self.status == if count_visible(oam, s, h) >= 8 {
                    with_bit8(old(self).status, 5, true)
                } else {
                    old(self).status
                },
                self.sprites_on_scanline@.len() <= 8,
                *self == (Ppu {
                    sprites_on_scanline: self.sprites_on_scanline,
                    sprites_on_scanline_contains_sprite_0: self.sprites_on_scanline_contains_sprite_0,
                    status: self.status,
                    ..*old(self)
                }),
            decreases 64 - i,
        {
            let ghost rest: Seq<ObjectAttributeEntry> = oam.subrange(i as int, 64);
            assert(rest.drop_first() =~= oam.subrange(i as int + 1, 64));
            assert(rest[0] == oam[i as int]);
            let sprite: ObjectAttributeEntry = self.oam[i];
            let y_diff: i16 = scanline - (sprite.y as i16);
            if !(y_diff >= 0 && y_diff < sprite_height) {
                i = i + 1;
                continue;
            }
            if self.sprites_on_scanline.len() < 8 {
                if i == 0 {
                    self.sprites_on_scanline_contains_sprite_0 = true;
                }
                self.sprites_on_scanline.push(sprite);
            }
            if self.sprites_on_scanline.len() >= 8 {
                self.status = self.status.set_sprite_overflow(true);
                assert(first_visible(oam.subrange(i as int + 1, 64), s, h, 0) =~= Seq::<ObjectAttributeEntry>::empty());
                break;
            }
            i = i + 1;
        }
        proof {
            if i == 64 {
                assert(oam.subrange(64, 64) =~= Seq::<ObjectAttributeEntry>::empty());
            }
        }
    }
}

/// Whether dot `c` of a rendered line shifts and fetches background data.
pub open spec fn fetch_dot(c: int) -> bool {
    (2 <= c < 258) || (321 <= c < 338)
}

/// The VRAM address after dot `c` of rendered line `s`: the coarse X step
/// at the end of each fetched tile, the row step at dot 256, and the
/// copies of the horizontal scroll at dot 257 and of the vertical scroll
/// on dots 280-304 of the pre-render line, all only while rendering.
pub open spec fn vram_after_dot(v: u16, t: u16, mask: u8, s: int, c: int) -> u16 {
    let r = rendering(mask);
    let v1 = if fetch_dot(c) && (c - 1) % 8 == 7 && r { coarse_x_inc(v) } else { v };
    let v2 = if c == 256 && r { scroll_y_inc(v1) } else { v1 };
    let v3 = if c == 257 && r { transfer_x(v2, t) } else { v2 };
    if s == -1 && 280 <= c <= 304 && r { transfer_y(v3, t) } else { v3 }
}

/// The nametable byte of the tile at VRAM address `v`.
pub open spec fn tile_addr(v: u16) -> u16 {
    0x2000u16 | (v & 0x0FFFu16)
}

/// The attribute byte of the 4x4-tile block holding the tile at VRAM
/// address `v`.
pub open spec fn attribute_addr(v: u16) -> u16 {
    0x23C0u16 | (v & 0x0C00u16) | ((v >> 4u16) & 0x38u16) | ((v >> 2u16) & 0x07u16)
}

/// The two palette bits that attribute byte `a` holds for the tile at
/// VRAM address `v`: the quadrant of the block picked by bit 1 of the
/// coarse Y and X scroll.
pub open spec fn quadrant(a: u8, v: u16) -> u8 {
    let a1: u8 = if coarse_y_of(v) & 0x02u8 != 0 { a >> 4u8 } else { a };
    let a2: u8 = if coarse_x_of(v) & 0x02u8 != 0 { a1 >> 2u8 } else { a1 };
    a2 & 0x03u8
}

/// The low pattern byte of tile `id`'s row at the fine Y scroll of VRAM
/// address `v`, in the background pattern table that `control` picks.
pub open spec fn bg_pattern_addr(control: u8, id: u8, v: u16) -> u16 {
    ((if bit8(control, 4) { 0x1000int } else { 0int }) + id * 16 + fine_y_of(v)) as u16
}

/// A background shifter after fetch dot `c`: shifted left one pixel while
/// the background is shown, and on the first dot of each tile its low byte
/// reloaded with `low`, the next tile's bits.
pub open spec fn shifter_step(x: u16, mask: u8, c: int, low: u16) -> u16 {
    let s: u16 = if bit8(mask, 3) { x << 1u16 } else { x };
    if (c - 1) % 8 == 0 { (s & 0xFF00u16) | low } else { s }
}

/// The low byte that an attribute shifter loads: all ones when bit `b` of
/// the tile's attribute is set.
pub open spec fn attribute_fill(attribute: u8, b: u8) -> u16 {
    if attribute & b != 0 { 0xFFu16 } else { 0x00u16 }
}

/// Loading the same low byte into a shifter twice is loading it once.
proof fn lemma_reload(x: u16, low: u16)
    by (bit_vector)
    requires
        low <= 0xFF,
    ensures
        (((x & 0xFF00u16) | low) & 0xFF00u16) | low == (x & 0xFF00u16) | low,
{
}

impl Ppu {
    /// The address that the background pipeline reads on dot `c` of a
    /// rendered line, if any (see `next_tile_after_dot`).
    pub open spec fn fetch_read(&self, c: int) -> Option<u16> {
        let v = self.vram_addr;
        let k = (c - 1) % 8;
        if fetch_dot(c) {
            if k == 0 {
                Some(tile_addr(v))
            } else if k == 2 {
                Some(attribute_addr(v))
            } else if k == 4 {
                Some(bg_pattern_addr(self.control, self.bg_next_tile_id, v))
            } else if k == 6 {
                Some((bg_pattern_addr(self.control, self.bg_next_tile_id, v) + 8) as u16)
            } else {
                None
            }
        } else if c == 338 || c == 340 {
            Some(tile_addr(v))
        } else {
            None
        }
    }

    /// An MMC2's latches after the background read of dot `c`.
    pub open spec fn fetch_latches(&self, cart: Cart, c: int) -> Seq<ChrLatch> {
        match self.fetch_read(c) {
            Some(a) => cart.read_latches(cart.latches(), a & 0x3FFFu16),
            None => cart.latches(),
        }
    }

    /// The next tile's id, attribute, and low and high pattern bytes after
    /// dot `c` of a rendered line, with the cartridge `cart`: each fetch
    /// dot of a tile's eight fetches one of them at the VRAM address (the
    /// id on the first, the attribute on the third, the pattern bytes on the
    /// fifth and seventh), and dots 338 and 340 fetch the id once more.
    pub open spec fn next_tile_after_dot(&self, cart: Cart, c: int) -> (u8, u8, u8, u8) {
        let v = self.vram_addr;
        let id = self.bg_next_tile_id;
        let k = (c - 1) % 8;
        if fetch_dot(c) {
            (
                if k == 0 { self.peek(cart, tile_addr(v)) } else { id },
                if k == 2 {
                    quadrant(self.peek(cart, attribute_addr(v)), v)
                } else {
                    self.bg_next_tile_attribute
                },
                if k == 4 {
                    self.peek(cart, bg_pattern_addr(self.control, id, v))
                } else {
                    self.bg_next_tile_addr_lsb
                },
                if k == 6 {
                    self.peek(cart, (bg_pattern_addr(self.control, id, v) + 8) as u16)
                } else {
                    self.bg_next_tile_addr_msb
                },
            )
        } else if c == 338 || c == 340 {
            (
                self.peek(cart, tile_addr(v)),
                self.bg_next_tile_attribute,
                self.bg_next_tile_addr_lsb,
                self.bg_next_tile_addr_msb,
            )
        } else {
            (id, self.bg_next_tile_attribute, self.bg_next_tile_addr_lsb, self.bg_next_tile_addr_msb)
        }
    }
}

impl Ppu {
    /// This PPU with its background shifters stepped as fetch dot `c`
    /// steps them (unchanged off the fetch dots).
    pub open spec fn shifted(&self, c: int) -> Ppu {
        if fetch_dot(c) {
            Ppu {
                bg_shifter_pattern_lo: shifter_step(
                    self.bg_shifter_pattern_lo,
                    self.mask,
                    c,
                    self.bg_next_tile_addr_lsb as u16,
                ),
                bg_shifter_pattern_hi: shifter_step(
                    self.bg_shifter_pattern_hi,
                    self.mask,
                    c,
                    self.bg_next_tile_addr_msb as u16,
                ),
                bg_shifter_attrib_lo: shifter_step(
                    self.bg_shifter_attrib_lo,
                    self.mask,
                    c,
                    attribute_fill(self.bg_next_tile_attribute, 1),
                ),
                bg_shifter_attrib_hi: shifter_step(
                    self.bg_shifter_attrib_hi,
                    self.mask,
                    c,
                    attribute_fill(self.bg_next_tile_attribute, 2),
                ),
                ..*self
            }
        } else {
            *self
        }
    }
}

impl Ppu {
    /// The background pipeline on a fetch dot: the shifters move, and every
    /// eighth dot fetches the next tile's nametable byte, attribute, and
    /// pattern bytes, and moves the VRAM address one tile right.
    fn fetch_step(&mut self, cart: &mut Cart)
        requires
            old(self).wf(),
            old(cart).ppu_safe(),
            fetch_dot(old(self).cycle as int),
        ensures
            final(self).wf(),
            final(cart).ppu_reads_from(&*old(cart)),
            final(self).vram_addr == if (old(self).cycle - 1) % 8 == 7 && rendering(old(self).mask) {
                coarse_x_inc(old(self).vram_addr)
            } else {
                old(self).vram_addr
            },
            (
                final(self).bg_next_tile_id,
                final(self).bg_next_tile_attribute,
                final(self).bg_next_tile_addr_lsb,
                final(self).bg_next_tile_addr_msb,
            ) == old(self).next_tile_after_dot(*old(cart), old(self).cycle as int),
            final(cart).same_chr(*old(cart)),
            final(cart).latches() == old(self).fetch_latches(*old(cart), old(self).cycle as int),
            final(self).bg_shifter_pattern_lo == shifter_step(
                old(self).bg_shifter_pattern_lo,
                old(self).mask,
                old(self).cycle as int,
                old(self).bg_next_tile_addr_lsb as u16,
            ),
            final(self).bg_shifter_pattern_hi == shifter_step(
                old(self).bg_shifter_pattern_hi,
                old(self).mask,
                old(self).cycle as int,
                old(self).bg_next_tile_addr_msb as u16,
            ),
            final(self).bg_shifter_attrib_lo == shifter_step(
                old(self).bg_shifter_attrib_lo,
                old(self).mask,
                old(self).cycle as int,
                attribute_fill(old(self).bg_next_tile_attribute, 1),
            ),
            final(self).bg_shifter_attrib_hi == shifter_step(
                old(self).bg_shifter_attrib_hi,
                old(self).mask,
                old(self).cycle as int,
                attribute_fill(old(self).bg_next_tile_attribute, 2),
            ),
            *final(self) == (Ppu {
                vram_addr: final(self).vram_addr,
                bg_next_tile_id: final(self).bg_next_tile_id,
                bg_next_tile_attribute: final(self).bg_next_tile_attribute,
                bg_next_tile_addr_lsb: final(self).bg_next_tile_addr_lsb,
                bg_next_tile_addr_msb: final(self).bg_next_tile_addr_msb,
                bg_shifter_pattern_lo: final(self).bg_shifter_pattern_lo,
                bg_shifter_pattern_hi: final(self).bg_shifter_pattern_hi,
                bg_shifter_attrib_lo: final(self).bg_shifter_attrib_lo,
                bg_shifter_attrib_hi: final(self).bg_shifter_attrib_hi,
                ..*old(self)
            }),
    {
        if self.mask.render_background() {
            // Shifting background tile pattern row
            self.bg_shifter_pattern_lo = self.bg_shifter_pattern_lo << 1;
            self.bg_shifter_pattern_hi = self.bg_shifter_pattern_hi << 1;
            self.bg_shifter_attrib_lo = self.bg_shifter_attrib_lo << 1;
            self.bg_shifter_attrib_hi = self.bg_shifter_attrib_hi << 1;
        }
        let cycle_in_tile: isize = (self.cycle - 1) % 8;
        if cycle_in_tile == 0 {
            self.load_shift_registers();
            // NT byte
            let tile_addr: u16 = 0x2000 | (self.vram_addr & 0x0FFF);
            proof {
                lemma_masks(0, self.vram_addr, 0, 0);
                old(cart).lemma_ppu_safe_reads(tile_addr & 0x3FFFu16);
            }
            self.bg_next_tile_id = self.ppu_read(tile_addr, cart);
        } else if cycle_in_tile == 2 {
            // AT byte
            let v: u16 = self.vram_addr;
            let attribute_addr: u16 = 0x23C0 | (v & 0x0C00) | ((v >> 4) & 0x38) | ((v >> 2) & 0x07);
            proof {
                lemma_masks(0, v, 0, 0);
                old(cart).lemma_ppu_safe_reads(attribute_addr & 0x3FFFu16);
            }
            self.bg_next_tile_attribute = self.ppu_read(attribute_addr, cart);
            if (v.coarse_y() & 0x02) != 0 {
                self.bg_next_tile_attribute = self.bg_next_tile_attribute >> 4;
            }
            if (v.coarse_x() & 0x02) != 0 {
                self.bg_next_tile_attribute = self.bg_next_tile_attribute >> 2;
            }
            self.bg_next_tile_attribute = self.bg_next_tile_attribute & 0x03;
        } else if cycle_in_tile == 4 || cycle_in_tile == 6 {
            // Low/High BG tile byte
            proof {
                lemma_loopy_bounds(self.vram_addr);
            }
            let table: u16 = if self.control.pattern_bg_table() { 0x1000 } else { 0 };
            let base_addr: u16 = table + (self.bg_next_tile_id as u16) * 16 + (self.vram_addr.fine_y() as u16);
            proof {
                old(cart).lemma_ppu_safe_reads(base_addr & 0x3FFFu16);
                old(cart).lemma_ppu_safe_reads((base_addr + 8) as u16 & 0x3FFFu16);
            }
            if cycle_in_tile == 4 {
                self.bg_next_tile_addr_lsb = self.ppu_read(base_addr + 0, cart);
            } else {
                self.bg_next_tile_addr_msb = self.ppu_read(base_addr + 8, cart);
            }
        } else if cycle_in_tile == 7 {
            if self.mask.render_background() || self.mask.render_sprites() {
                proof {
                    lemma_loopy_bounds(self.vram_addr);
                }
                if self.vram_addr.coarse_x() == 31 {
                    self.vram_addr = self.vram_addr.set_coarse_x(0).set_nametable_x(!self.vram_addr.nametable_x());
                } else {
                    self.vram_addr = self.vram_addr.set_coarse_x(self.vram_addr.coarse_x() + 1);
                }
            }
        }
    }
}

/// The bit of a 16-bit background shifter that fine X scroll `fine_x`
/// selects (bit 15 - `fine_x`), as a pixel bit.
pub open spec fn shifter_bit(x: u16, fine_x: u8) -> u8 {
    if x & (0x8000u16 >> (fine_x as u16)) > 0 { 1 } else { 0 }
}

/// The pixel value and palette of a dot from the background's (`bg`,
/// `bg_pal`) and the first opaque sprite pixel's (`fg`, `fg_pal`): a
/// transparent (zero) one gives way to the other, and when both are opaque
/// the sprite shows only if it is in front.
pub open spec fn mixed(bg: u8, bg_pal: u8, fg: u8, fg_pal: u8, fg_front: bool) -> (u8, u8) {
    if fg != 0 && (bg == 0 || fg_front) {
        (fg, fg_pal)
    } else if bg != 0 {
        (bg, bg_pal)
    } else {
        (0, 0)
    }
}

impl Ppu {
    /// Whether the background shows on the dot `self.cycle`: it is enabled,
    /// and the leftmost eight pixels are not clipped.
    pub open spec fn shows_background(&self) -> bool {
        bit8(self.mask, 3) && !(!bit8(self.mask, 1) && 0 <= self.cycle <= 8)
    }

    /// Whether sprites show on the dot `self.cycle`, in the same way.
    pub open spec fn shows_sprites(&self) -> bool {
        bit8(self.mask, 4) && !(!bit8(self.mask, 2) && 1 <= self.cycle <= 8)
    }

    /// The background pixel value on the dot: two shifter bits at fine X.
    pub open spec fn bg_pixel(&self) -> u8 {
        if self.shows_background() {
            (2 * shifter_bit(self.bg_shifter_pattern_hi, self.fine_x) + shifter_bit(
                self.bg_shifter_pattern_lo,
                self.fine_x,
            )) as u8
        } else {
            0
        }
    }

    /// The background palette on the dot: two attribute shifter bits.
    pub open spec fn bg_palette(&self) -> u8 {
        if self.shows_background() {
            (2 * shifter_bit(self.bg_shifter_attrib_hi, self.fine_x) + shifter_bit(
                self.bg_shifter_attrib_lo,
                self.fine_x,
            )) as u8
        } else {
            0
        }
    }

    /// Whether sprite `e` spans the dot `self.cycle` (pixel x = cycle - 1).
    pub open spec fn covers(&self, e: ObjectAttributeEntry) -> bool {
        0 <= self.cycle - e.x - 1 < 8
    }

    /// The pattern address of sprite `e`'s row on the current line: 8x16
    /// sprites take their table from bit 0 of the tile id and their tile
    /// from the top or bottom half, 8x8 sprites take the table that the
    /// control register picks, and a vertical flip counts rows from the
    /// bottom.
    pub open spec fn sprite_row_addr(&self, e: ObjectAttributeEntry) -> u16 {
        let y_diff: int = self.scanline - e.y - 1;
        let flip_y = bit8(e.attribute, 7);
        let tall = bit8(self.control, 5);
        let table: bool = if tall { e.tile_id & 1u8 != 0 } else { bit8(self.control, 3) };
        let tile: u8 = if !tall {
            e.tile_id
        } else if y_diff < 8 {
            ((e.tile_id & 0xFEu8) + if flip_y { 1u8 } else { 0u8 }) as u8
        } else {
            ((e.tile_id & 0xFEu8) + if flip_y { 0u8 } else { 1u8 }) as u8
        };
        let row: i16 = (if flip_y { 7 - y_diff } else { y_diff }) as i16;
        (if table { 0x1000u16 } else { 0u16 }) | ((tile as u16) << 4u16) | ((row as u16) & 7u16)
    }

    /// Sprite `e`'s pixel value on the current dot, with an MMC2's latches
    /// at `l`: the bit of its pattern row's low and high bytes for the dot's
    /// column (counted from the left, or from the right when the sprite is
    /// flipped horizontally). The low byte's read may switch the latches
    /// before the high byte is read.
    pub open spec fn sprite_pixel_value(&self, cart: Cart, l: Seq<ChrLatch>, e: ObjectAttributeEntry) -> u8 {
        let addr = self.sprite_row_addr(e);
        let lo = self.peek_with(cart, l, addr);
        let l1 = cart.read_latches(l, addr & 0x3FFFu16);
        let hi = self.peek_with(cart, l1, (addr + 8) as u16);
        let x_diff: int = self.cycle - e.x - 1;
        let b: u8 = (if bit8(e.attribute, 6) { x_diff } else { 7 - x_diff }) as u8;
        ((if bit8(hi, b) { 2u8 } else { 0u8 }) + (if bit8(lo, b) { 1u8 } else { 0u8 })) as u8
    }

    /// The latches `l` after the two reads of sprite `e`'s pattern row.
    pub open spec fn sprite_read_latches(&self, cart: Cart, l: Seq<ChrLatch>, e: ObjectAttributeEntry) -> Seq<
        ChrLatch,
    > {
        let addr = self.sprite_row_addr(e);
        let l1 = cart.read_latches(l, addr & 0x3FFFu16);
        cart.read_latches(l1, ((addr + 8) as u16) & 0x3FFFu16)
    }

    /// The first sprite, from the `i`-th of the line on, that spans the dot
    /// and is opaque there, with the latches at `l`: its pixel value, its
    /// palette, whether it is in front of the background, and whether it is
    /// sprite 0 and the first on the line. All zero and false when there is
    /// none. Only the sprites that span the dot read their pattern rows.
    pub open spec fn sprite_from(&self, cart: Cart, l: Seq<ChrLatch>, i: int) -> (u8, u8, bool, bool)
        decreases self.sprites_on_scanline@.len() - i,
    {
        if i < 0 || i >= self.sprites_on_scanline@.len() {
            (0, 0, false, false)
        } else {
            let e = self.sprites_on_scanline@[i];
            if !self.covers(e) {
                self.sprite_from(cart, l, i + 1)
            } else {
                let v = self.sprite_pixel_value(cart, l, e);
                if v != 0 {
                    (
                        v,
                        (4 + (e.attribute & 3u8)) as u8,
                        !bit8(e.attribute, 5),
                        i == 0 && self.sprites_on_scanline_contains_sprite_0,
                    )
                } else {
                    self.sprite_from(cart, self.sprite_read_latches(cart, l, e), i + 1)
                }
            }
        }
    }

    /// The latches after the search of `sprite_from`.
    pub open spec fn sprite_latches_from(&self, cart: Cart, l: Seq<ChrLatch>, i: int) -> Seq<ChrLatch>
        decreases self.sprites_on_scanline@.len() - i,
    {
        if i < 0 || i >= self.sprites_on_scanline@.len() {
            l
        } else {
            let e = self.sprites_on_scanline@[i];
            if !self.covers(e) {
                self.sprite_latches_from(cart, l, i + 1)
            } else {
                let l2 = self.sprite_read_latches(cart, l, e);
                if self.sprite_pixel_value(cart, l, e) != 0 {
                    l2
                } else {
                    self.sprite_latches_from(cart, l2, i + 1)
                }
            }
        }
    }

    /// The sprite pixel that the dot shows, as `sprite_from` finds it from
    /// the first sprite of the line, when sprites show on the dot.
    pub open spec fn sprite_found(&self, cart: Cart, l: Seq<ChrLatch>) -> (u8, u8, bool, bool) {
        if self.shows_sprites() {
            self.sprite_from(cart, l, 0)
        } else {
            (0, 0, false, false)
        }
    }

    /// The latches after the dot's sprite search.
    pub open spec fn sprite_latches(&self, cart: Cart, l: Seq<ChrLatch>) -> Seq<ChrLatch> {
        if self.shows_sprites() {
            self.sprite_latches_from(cart, l, 0)
        } else {
            l
        }
    }

    /// The color of pixel value `pp.0` in palette `pp.1`: the palette memory
    /// entry at $3F00 + 4 * palette + pixel picks one of the 64 colors.
    pub open spec fn color_of(&self, m: Mirroring, pp: (u8, u8)) -> Color {
        self.palette.colors@[(self.vram_byte(m, (0x3F00 + ((pp.1 << 2u8) + pp.0)) as u16) % 64) as int]
    }

    /// `new` is this PPU after drawing the dot `self.cycle` of line
    /// `self.scanline` (nametables mirrored by `m`), where the first opaque
    /// sprite pixel on the dot is `fg` of palette `fg_pal`, in front of the
    /// background when `fg_front`, and `hit` says that it is sprite 0's. No
    /// sprite pixel shows unless sprites show and a sprite spans the dot;
    /// the dot gets the color of the mixed pixel, keeping its alpha; and a
    /// sprite 0 hit over an opaque background pixel, except on the last dot,
    /// sets the sprite zero hit flag.
    pub open spec fn drawn(&self, m: Mirroring, fg: u8, fg_pal: u8, fg_front: bool, hit: bool, new: Ppu) -> bool {
        let idx = self.scanline * 256 + self.cycle - 1;
        let bg = self.bg_pixel();
        let c = self.color_of(m, mixed(bg, self.bg_palette(), fg, fg_pal, fg_front));
        &&& fg <= 3
        &&& fg_pal <= 7
        &&& ((!self.shows_sprites() || forall|j: int|
            0 <= j < self.sprites_on_scanline@.len() ==> !self.covers(
                #[trigger] self.sprites_on_scanline@[j],
            )) ==> fg == 0)
        &&& (hit ==> fg != 0 && self.sprites_on_scanline_contains_sprite_0 && self.covers(
            self.sprites_on_scanline@[0],
        ))
        &&& new.screen@[idx][0] == c.r
        &&& new.screen@[idx][1] == c.g
        &&& new.screen@[idx][2] == c.b
        &&& new.screen@[idx][3] == self.screen@[idx][3]
        &&& new.status == if hit && bg != 0 && self.cycle != 256 {
            with_bit8(self.status, 6, true)
        } else {
            self.status
        }
    }
}

/// The top bit of a byte shifted left by `n` is its bit `7 - n`.
proof fn lemma_top_bit_after_shift(t: u8, n: u8)
    by (bit_vector)
    requires
        n < 8,
    ensures
        ((t << n) & 0x80u8 > 0) == bit8(t, (7 - n) as u8),
{
}

/// Which sprite pixel a PPU finds, and the latches it leaves, depend only
/// on the fields that the search reads, and on the cartridge only through
/// what it answers.
proof fn lemma_sprite_from_same(p: Ppu, q: Ppu, c1: Cart, c2: Cart, l: Seq<ChrLatch>, i: int)
    requires
        q.sprites_on_scanline == p.sprites_on_scanline,
        q.sprites_on_scanline_contains_sprite_0 == p.sprites_on_scanline_contains_sprite_0,
        q.scanline == p.scanline,
        q.cycle == p.cycle,
        q.control == p.control,
        q.palette == p.palette,
        q.pattern_tables == p.pattern_tables,
        q.name_tables == p.name_tables,
        c1.same_chr(c2),
    ensures
        q.sprite_from(c2, l, i) == p.sprite_from(c1, l, i),
        q.sprite_latches_from(c2, l, i) == p.sprite_latches_from(c1, l, i),
    decreases p.sprites_on_scanline@.len() - i,
{
    if 0 <= i < p.sprites_on_scanline@.len() {
        let e = p.sprites_on_scanline@[i];
        let addr = p.sprite_row_addr(e);
        let l1 = c1.read_latches(l, addr & 0x3FFFu16);
        c1.lemma_peek_with(c2, l, addr & 0x3FFFu16);
        c1.lemma_peek_with(c2, l1, ((addr + 8) as u16) & 0x3FFFu16);
        let l2 = p.sprite_read_latches(c1, l, e);
        lemma_sprite_from_same(p, q, c1, c2, l, i + 1);
        lemma_sprite_from_same(p, q, c1, c2, l2, i + 1);
    }
}

impl Ppu {
    /// One bit of a shifter, as a pixel bit.
    fn bit_at(x: u16, mux: u16) -> (r: u8)
        ensures
            r == if x & mux > 0 { 1u8 } else { 0u8 },
    {
        if (x & mux) > 0 { 1 } else { 0 }
    }

    /// The first opaque sprite pixel on the current dot: its value,
    /// palette, whether it is in front of the background, and whether it is
    /// sprite 0's. Sprites are searched in order, their pattern rows read
    /// through the cartridge.
    fn sprite_pixel(&self, cart: &mut Cart) -> (r: (u8, u8, bool, bool))
        requires
            self.wf(),
            old(cart).ppu_safe(),
            1 <= self.cycle <= 256,
            0 <= self.scanline <= 239,
        ensures
            final(cart).ppu_reads_from(&*old(cart)),
            r.0 <= 3,
            r.1 <= 7,
            (!self.shows_sprites() || forall|j: int|
                0 <= j < self.sprites_on_scanline@.len() ==> !self.covers(
                    #[trigger] self.sprites_on_scanline@[j],
                )) ==> r.0 == 0,
            r.3 ==> r.0 != 0 && self.sprites_on_scanline_contains_sprite_0 && self.covers(
                self.sprites_on_scanline@[0],
            ),
            r == self.sprite_found(*old(cart), old(cart).latches()),
            final(cart).same_chr(*old(cart)),
            final(cart).latches() == self.sprite_latches(*old(cart), old(cart).latches()),
    {
        let mut fg_pixel: u8 = 0x00;
        let mut fg_palette: u8 = 0x00;
        let mut fg_priority: bool = false;
        let mut fg_sprite_0_hit: bool = false;
        let ghost cart0: Cart = *old(cart);
        // Whether a sprite spanning this dot was met.
        let ghost mut covered: bool = false;
        // The latches that the search starts from.
        let ghost l0: Seq<ChrLatch> = cart0.latches();
        if self.mask.render_sprites() && !(self.mask.render_sprites_left() == false && self.cycle >= 1
            && self.cycle <= 8) {
            // Find the first opaque sprite pixel on this dot.
            let n: usize = self.sprites_on_scanline.len();
            let mut i: usize = 0;
            while i < n
                invariant_except_break
                    fg_pixel == 0,
                    fg_palette == 0,
                    !fg_sprite_0_hit,
                    !fg_priority,
                    self.sprite_from(cart0, l0, 0) == self.sprite_from(cart0, cart.latches(), i as int),
                    self.sprite_latches_from(cart0, l0, 0) == self.sprite_latches_from(
                        cart0,
                        cart.latches(),
                        i as int,
                    ),
                invariant
                    l0 == cart0.latches(),
                    cart.same_chr(cart0),
                    i <= n,
                    n == self.sprites_on_scanline@.len(),
                    self.wf(),
                    1 <= self.cycle <= 256,
                    0 <= self.scanline <= 239,
                    cart.ppu_reads_from(&cart0),
                    cart0 == *old(cart),
                    fg_pixel <= 3,
                    fg_palette <= 7,
                    covered || forall|j: int| 0 <= j < i ==> !self.covers(#[trigger] self.sprites_on_scanline@[j]),
                    covered ==> exists|j: int| 0 <= j < n && self.covers(#[trigger] self.sprites_on_scanline@[j]),
                    fg_pixel != 0 ==> covered,
                    fg_sprite_0_hit ==> fg_pixel != 0 && self.sprites_on_scanline_contains_sprite_0
                        && self.covers(self.sprites_on_scanline@[0]),
                ensures
                    fg_pixel <= 3,
                    fg_palette <= 7,
                    self.wf(),
                    cart.ppu_reads_from(&cart0),
                    (fg_pixel, fg_palette, fg_priority, fg_sprite_0_hit) == self.sprite_from(cart0, l0, 0),
                    cart.latches() == self.sprite_latches_from(cart0, l0, 0),
                    cart.same_chr(cart0),
                    covered || forall|j: int| 0 <= j < n ==> !self.covers(#[trigger] self.sprites_on_scanline@[j]),
                    covered ==> exists|j: int| 0 <= j < n && self.covers(#[trigger] self.sprites_on_scanline@[j]),
                    fg_pixel != 0 ==> covered,
                    fg_sprite_0_hit ==> fg_pixel != 0 && self.sprites_on_scanline_contains_sprite_0
                        && self.covers(self.sprites_on_scanline@[0]),
                decreases n - i,
            {
                let sprite: ObjectAttributeEntry = self.sprites_on_scanline[i];
                let x_diff: i16 = (self.cycle as i16) - (sprite.x as i16) - 1;
                if !(x_diff >= 0 && x_diff < 8) {
                    i = i + 1;
                    continue;
                }
                proof {
                    covered = true;
                }
                let y_diff: i16 = (self.scanline as i16) - (sprite.y as i16) - 1;
                proof {
                    lemma_masks(sprite.tile_id, 0, 0, 0);
                }
                // Tall sprites take their pattern table from bit 0 of the
                // tile id and span two tiles; otherwise the control register
                // picks the table.
                let table: bool;
                let tile_id: u8;
                if self.control.tall_sprites() {
                    table = (sprite.tile_id & 0b0000_0001) != 0;
                    tile_id = if y_diff < 8 {
                        // Top 8x8 of the 8x16 sprite:
                        (sprite.tile_id & 0b1111_1110) + if sprite.flip_y() { 1 } else { 0 }
                    } else {
                        // Bottom 8x8 of the 8x16 sprite:
                        (sprite.tile_id & 0b1111_1110) + if sprite.flip_y() { 0 } else { 1 }
                    };
                } else {
                    table = self.control.pattern_fg_table();
                    tile_id = sprite.tile_id;
                }
                let row: i16 = if sprite.flip_y() { 7 - y_diff } else { y_diff };
                let row_bits: u16 = (row as u16) & 0x0007;
                let table_bits: u16 = if table { 0x1000 } else { 0 };
                let base_addr: u16 = table_bits | ((tile_id as u16) << 4) | row_bits;
                proof {
                    lemma_masks(0, 0, tile_id as u16, row as u16);
                    lemma_masks(0, 0, tile_id as u16, row_bits);
                    cart.lemma_ppu_safe_reads(base_addr & 0x3FFFu16);
                    cart.lemma_ppu_safe_reads((base_addr + 8) as u16 & 0x3FFFu16);
                }
                let ghost cart1: Cart = *cart;
                let mut tile_lsb: u8 = self.ppu_read(base_addr + 0, cart);
                proof {
                    cart.lemma_ppu_safe_reads((base_addr + 8) as u16 & 0x3FFFu16);
                }
                let ghost cart2: Cart = *cart;
                let mut tile_msb: u8 = self.ppu_read(base_addr + 8, cart);
                assert(cart.ppu_reads_from(&cart0));
                let ghost lo: u8 = tile_lsb;
                let ghost hi: u8 = tile_msb;
                if sprite.flip_x() {
                    tile_lsb = crate::ppu_regs::flip(tile_lsb);
                    tile_msb = crate::ppu_regs::flip(tile_msb);
                }
                let ghost lo_f: u8 = tile_lsb;
                let ghost hi_f: u8 = tile_msb;
                // The pixel of this dot is the top bit after shifting by the
                // distance into the sprite.
                tile_lsb = tile_lsb << (x_diff as u8);
                tile_msb = tile_msb << (x_diff as u8);
                let p0_pixel: u8 = if (tile_lsb & 0b1000_0000) > 0 { 1 } else { 0 };
                let p1_pixel: u8 = if (tile_msb & 0b1000_0000) > 0 { 1 } else { 0 };
                let pixel: u8 = p1_pixel * 2 + p0_pixel;
                proof {
                    let xd: u8 = x_diff as u8;
                    let b: u8 = if bit8(sprite.attribute, 6) { xd } else { (7 - xd) as u8 };
                    lemma_top_bit_after_shift(lo_f, xd);
                    lemma_top_bit_after_shift(hi_f, xd);
                    if bit8(sprite.attribute, 6) {
                        crate::ppu_regs::lemma_flip(lo, (7 - xd) as u8);
                        crate::ppu_regs::lemma_flip(hi, (7 - xd) as u8);
                    }
                    assert(p0_pixel == if bit8(lo, b) { 1u8 } else { 0u8 });
                    assert(p1_pixel == if bit8(hi, b) { 1u8 } else { 0u8 });
                    assert(base_addr == self.sprite_row_addr(sprite));
                    let a0: u16 = base_addr & 0x3FFFu16;
                    let a1: u16 = ((base_addr + 8) as u16) & 0x3FFFu16;
                    cart1.lemma_peek_with(cart1, cart1.latches(), a0);
                    cart0.lemma_peek_with(cart1, cart1.latches(), a0);
                    cart2.lemma_peek_with(cart2, cart2.latches(), a1);
                    cart0.lemma_peek_with(cart2, cart2.latches(), a1);
                    cart0.lemma_peek_with(cart1, cart1.latches(), a0);
                    assert(lo == self.peek_with(cart0, cart1.latches(), base_addr));
                    assert(cart2.latches() == cart0.read_latches(cart1.latches(), a0));
                    assert(hi == self.peek_with(cart0, cart2.latches(), (base_addr + 8) as u16));
                    assert(pixel == self.sprite_pixel_value(cart0, cart1.latches(), sprite));
                    cart0.lemma_peek_with(cart2, cart2.latches(), a1);
                    assert(cart.latches() == self.sprite_read_latches(cart0, cart1.latches(), sprite));
                }
                if pixel != 0x00 {
                    fg_pixel = pixel;
                    fg_palette = sprite.palette();
                    fg_priority = sprite.priority();
                    if i == 0 && self.sprites_on_scanline_contains_sprite_0 {
                        fg_sprite_0_hit = true;
                    }
                    break;
                }
                i = i + 1;
            }
        }
        (fg_pixel, fg_palette, fg_priority, fg_sprite_0_hit)
    }

    /// The background pixel value and palette on the current dot.
    fn background_pixel(&self) -> (r: (u8, u8))
        requires
            self.fine_x < 8,
        ensures
            r.0 == self.bg_pixel(),
            r.1 == self.bg_palette(),
    {
        let mut bg_pixel: u8 = 0x00;
        let mut bg_palette: u8 = 0x00;
        if self.mask.render_background() && !(self.mask.render_background_left() == false && self.cycle
            >= 0 && self.cycle <= 8) {
            let bit_mux: u16 = 0x8000u16 >> (self.fine_x as u16);
            let p0_pixel: u8 = Self::bit_at(self.bg_shifter_pattern_lo, bit_mux);
            let p1_pixel: u8 = Self::bit_at(self.bg_shifter_pattern_hi, bit_mux);
            bg_pixel = p1_pixel * 2 + p0_pixel;
            let bg_pal0: u8 = Self::bit_at(self.bg_shifter_attrib_lo, bit_mux);
            let bg_pal1: u8 = Self::bit_at(self.bg_shifter_attrib_hi, bit_mux);
            bg_palette = bg_pal1 * 2 + bg_pal0;
        }
        (bg_pixel, bg_palette)
    }

    /// Draws the pixel of the current dot: the first opaque sprite pixel
    /// and the background pixel are combined by the sprite's priority, and
    /// an opaque sprite 0 pixel over an opaque background pixel sets the
    /// sprite zero hit flag.
    #[verifier::rlimit(60)]
    fn draw_pixel(&mut self, cart: &mut Cart)
        requires
            old(self).wf(),
            old(cart).ppu_safe(),
            1 <= old(self).cycle <= 256,
            0 <= old(self).scanline <= 239,
        ensures
            final(self).wf(),
            final(cart).ppu_reads_from(&*old(cart)),
            final(self).status == old(self).status || final(self).status == with_bit8(old(self).status, 6, true),
            ({
                let idx = old(self).scanline * 256 + old(self).cycle - 1;
                &&& forall|j: int| 0 <= j < 61440 && j != idx ==> #[trigger] final(self).screen@[j] == old(self).screen@[j]
                &&& final(self).screen@[idx][3] == old(self).screen@[idx][3]
            }),
            ({
                let f = old(self).sprite_found(*old(cart), old(cart).latches());
                old(self).drawn(old(cart).mirroring_spec(), f.0, f.1, f.2, f.3, *final(self))
            }),
            final(cart).same_chr(*old(cart)),
            final(cart).latches() == old(self).sprite_latches(*old(cart), old(cart).latches()),
            *final(self) == (Ppu { screen: final(self).screen, status: final(self).status, ..*old(self) }),
    {
        let ghost cart0: Cart = *old(cart);
        let (fg_pixel, fg_palette, fg_priority, fg_sprite_0_hit): (u8, u8, bool, bool) = self.sprite_pixel(cart);
        let (bg_pixel, bg_palette): (u8, u8) = self.background_pixel();
        let mut pixel: u8 = 0x00;
        let mut palette: u8 = 0x00;
        if bg_pixel == 0 && fg_pixel != 0 {
            // Only foreground to render:
            pixel = fg_pixel;
            palette = fg_palette;
        } else if bg_pixel != 0 && fg_pixel == 0 {
            // Only background to render:
            pixel = bg_pixel;
            palette = bg_palette;
        } else if bg_pixel != 0 && fg_pixel != 0 {
            // Both are opaque: sprite zero hit (never at x=255), and the
            // sprite's priority picks the pixel.
            if fg_sprite_0_hit && self.cycle != 256 {
                self.status = self.status.set_sprite_zero_hit(true);
            }
            if fg_priority {
                pixel = fg_pixel;
                palette = fg_palette;
            } else {
                pixel = bg_pixel;
                palette = bg_palette;
            }
        }
        // Finally, draw the pixel at (scanline, cycle - 1).
        let screen_x: isize = self.cycle - 1;
        let screen_y: isize = self.scanline;
        let idx: usize = (screen_y as usize) * SCREEN_W + (screen_x as usize);
        proof {
            lemma_masks(palette, 0, 0, 0);
        }
        let color: Color = self.get_color_from_palette_ram(palette, pixel, cart);
        let alpha: u8 = self.screen[idx][3];
        self.screen.set(idx, [color.r, color.g, color.b, alpha]);
        proof {
            assert((pixel, palette) == mixed(
                old(self).bg_pixel(),
                old(self).bg_palette(),
                fg_pixel,
                fg_palette,
                fg_priority,
            ));
            assert(old(self).drawn(cart0.mirroring_spec(), fg_pixel, fg_palette, fg_priority, fg_sprite_0_hit, *self));
        }
    }
}

/// What a drawn dot shows depends only on the fields that the pixel
/// output reads, and of the result only the screen and the status.
proof fn lemma_drawn_transfer(p: Ppu, q: Ppu, m: Mirroring, f: (u8, u8, bool, bool), new1: Ppu, new2: Ppu)
    requires
        p.drawn(m, f.0, f.1, f.2, f.3, new1),
        q.scanline == p.scanline,
        q.cycle == p.cycle,
        q.mask == p.mask,
        q.fine_x == p.fine_x,
        q.bg_shifter_pattern_lo == p.bg_shifter_pattern_lo,
        q.bg_shifter_pattern_hi == p.bg_shifter_pattern_hi,
        q.bg_shifter_attrib_lo == p.bg_shifter_attrib_lo,
        q.bg_shifter_attrib_hi == p.bg_shifter_attrib_hi,
        q.sprites_on_scanline == p.sprites_on_scanline,
        q.sprites_on_scanline_contains_sprite_0 == p.sprites_on_scanline_contains_sprite_0,
        q.palette == p.palette,
        q.pattern_tables == p.pattern_tables,
        q.name_tables == p.name_tables,
        q.screen == p.screen,
        q.status == p.status,
        new2.screen == new1.screen,
        new2.status == new1.status,
    ensures
        q.drawn(m, f.0, f.1, f.2, f.3, new2),
{
}

/// The dot that a clock processes: the first dot of scanline 0 is
/// skipped.
pub open spec fn dot_of(scanline: int, cycle: int) -> int {
    if scanline == 0 && cycle == 0 { 1 } else { cycle }
}

/// The position after a clock that processed dot `c` of scanline `s`: the
/// next dot, the next scanline after dot 340, and the pre-render line -1
/// after scanline 260.
pub open spec fn next_position(s: int, c: int) -> (int, int) {
    if c + 1 >= 341 {
        (if s + 1 >= 261 { -1 } else { s + 1 }, 0)
    } else {
        (s, c + 1)
    }
}

impl Ppu {
    /// The dot that the next clock processes.
    pub open spec fn dot(&self) -> int {
        dot_of(self.scanline as int, self.cycle as int)
    }

    /// Whether the next clock is on a rendered line (-1 to 239).
    pub open spec fn rendered_line(&self) -> bool {
        -1 <= self.scanline < 240
    }

    /// Whether the next clock evaluates the sprites of the scanline.
    pub open spec fn evaluates_sprites(&self) -> bool {
        0 <= self.scanline < 240 && self.dot() == 257
    }

    /// Whether the next clock draws a pixel.
    pub open spec fn draws(&self) -> bool {
        1 <= self.dot() <= 256 && 0 <= self.scanline <= 239
    }

    /// The index of the pixel that the next clock draws.
    pub open spec fn pixel_index(&self) -> int {
        self.scanline * 256 + self.dot() - 1
    }

    /// This PPU as the pixel output sees it on the dot that the next clock
    /// processes: on that dot, with the background shifters stepped by its
    /// fetch.
    pub open spec fn fetched(&self) -> Ppu {
        Ppu { cycle: self.dot() as isize, ..self.shifted(self.dot()) }
    }

    /// The status register after the pre-render line's first dot clears
    /// vblank, sprite zero hit, and sprite overflow.
    pub open spec fn status_after_clear(&self) -> u8 {
        if self.scanline == -1 && self.dot() == 1 {
            with_bit8(with_bit8(with_bit8(self.status, 7, false), 6, false), 5, false)
        } else {
            self.status
        }
    }

    /// The work of a dot on a rendered line (scanlines -1 to 239): flag
    /// clearing, the background pipeline and scrolling, and sprite
    /// evaluation.
    fn render_line_dot(&mut self, cart: &mut Cart)
        requires
            old(self).wf(),
            old(cart).ppu_safe(),
            -1 <= old(self).scanline < 240,
        ensures
            final(self).wf(),
            final(cart).ppu_reads_from(&*old(cart)),
            final(self).vram_addr == vram_after_dot(
                old(self).vram_addr,
                old(self).tram_addr,
                old(self).mask,
                old(self).scanline as int,
                old(self).cycle as int,
            ),
            ({
                let sh = old(self).shifted(old(self).cycle as int);
                &&& final(self).bg_shifter_pattern_lo == sh.bg_shifter_pattern_lo
                &&& final(self).bg_shifter_pattern_hi == sh.bg_shifter_pattern_hi
                &&& final(self).bg_shifter_attrib_lo == sh.bg_shifter_attrib_lo
                &&& final(self).bg_shifter_attrib_hi == sh.bg_shifter_attrib_hi
            }),
            (
                final(self).bg_next_tile_id,
                final(self).bg_next_tile_attribute,
                final(self).bg_next_tile_addr_lsb,
                final(self).bg_next_tile_addr_msb,
            ) == old(self).next_tile_after_dot(*old(cart), old(self).cycle as int),
            final(cart).same_chr(*old(cart)),
            final(cart).latches() == old(self).fetch_latches(*old(cart), old(self).cycle as int),
            (old(self).cycle == 257 && old(self).scanline >= 0) ==> {
                &&& final(self).sprites_on_scanline@ == first_visible(
                    old(self).oam@,
                    old(self).scanline as int,
                    sprite_height(old(self).control),
                    8,
                )
                &&& final(self).sprites_on_scanline_contains_sprite_0 == sprite_visible(
                    old(self).oam@[0],
                    old(self).scanline as int,
                    sprite_height(old(self).control),
                )
            },
            !(old(self).cycle == 257 && old(self).scanline >= 0) ==> {
                &&& final(self).sprites_on_scanline == old(self).sprites_on_scanline
                &&& final(self).sprites_on_scanline_contains_sprite_0 == old(self).sprites_on_scanline_contains_sprite_0
            },
            ({
                let st0 = if old(self).scanline == -1 && old(self).cycle == 1 {
                    with_bit8(with_bit8(with_bit8(old(self).status, 7, false), 6, false), 5, false)
                } else {
                    old(self).status
                };
                let overflow = old(self).cycle == 257 && old(self).scanline >= 0 && count_visible(
                    old(self).oam@,
                    old(self).scanline as int,
                    sprite_height(old(self).control),
                ) >= 8;
                final(self).status == if overflow { with_bit8(st0, 5, true) } else { st0 }
            }),
            *final(self) == (Ppu {
                vram_addr: final(self).vram_addr,
                status: final(self).status,
                sprites_on_scanline: final(self).sprites_on_scanline,
                sprites_on_scanline_contains_sprite_0: final(self).sprites_on_scanline_contains_sprite_0,
                bg_next_tile_id: final(self).bg_next_tile_id,
                bg_next_tile_attribute: final(self).bg_next_tile_attribute,
                bg_next_tile_addr_lsb: final(self).bg_next_tile_addr_lsb,
                bg_next_tile_addr_msb: final(self).bg_next_tile_addr_msb,
                bg_shifter_pattern_lo: final(self).bg_shifter_pattern_lo,
                bg_shifter_pattern_hi: final(self).bg_shifter_pattern_hi,
                bg_shifter_attrib_lo: final(self).bg_shifter_attrib_lo,
                bg_shifter_attrib_hi: final(self).bg_shifter_attrib_hi,
                ..*old(self)
            }),
    {
        let ghost cart0: Cart = *old(cart);
        if self.scanline == -1 && self.cycle == 1 {
            // The pre-render line clears vblank, sprite zero hit and
            // sprite overflow.
            self.status = self.status.set_vblank(false).set_sprite_zero_hit(false).set_sprite_overflow(false);
        }
        if (self.cycle >= 2 && self.cycle < 258) || (self.cycle >= 321 && self.cycle < 338) {
            self.fetch_step(cart);
        }
        if self.cycle == 256 {
            self.increment_scroll_y();
        }
        if self.cycle == 257 {
            proof {
                // The tile loaded by this dot's fetch is loaded again.
                let o = *old(self);
                let sh = bit8(o.mask, 3);
                lemma_reload(
                    if sh { o.bg_shifter_pattern_lo << 1u16 } else { o.bg_shifter_pattern_lo },
                    o.bg_next_tile_addr_lsb as u16,
                );
                lemma_reload(
                    if sh { o.bg_shifter_pattern_hi << 1u16 } else { o.bg_shifter_pattern_hi },
                    o.bg_next_tile_addr_msb as u16,
                );
                lemma_reload(
                    if sh { o.bg_shifter_attrib_lo << 1u16 } else { o.bg_shifter_attrib_lo },
                    attribute_fill(o.bg_next_tile_attribute, 1),
                );
                lemma_reload(
                    if sh { o.bg_shifter_attrib_hi << 1u16 } else { o.bg_shifter_attrib_hi },
                    attribute_fill(o.bg_next_tile_attribute, 2),
                );
            }
            self.load_shift_registers();
            self.transfer_address_x();
        }
        // Superfluous reads of tile id at end of scanline
        if self.cycle == 338 || self.cycle == 340 {
            let tile_addr: u16 = 0x2000 | (self.vram_addr & 0x0FFF);
            proof {
                lemma_masks(0, self.vram_addr, 0, 0);
                cart.lemma_ppu_safe_reads(tile_addr & 0x3FFFu16);
            }
            self.bg_next_tile_id = self.ppu_read(tile_addr, cart);
        }
        if self.scanline == -1 && self.cycle >= 280 && self.cycle <= 304 {
            self.transfer_address_y();
        }
        // Foreground sprite evaluation
        if self.cycle == 257 && self.scanline >= 0 {
            self.evaluate_sprites();
        }
    }

    /// Advances the PPU by one dot: renders it and moves to the next dot.
    /// `new` and `new_cart` are this PPU and the cartridge `cart` after one
    /// PPU clock.
    pub open spec fn clocked(&self, cart: Cart, new: Ppu, new_cart: Cart) -> bool {
        &&& self.moved_to(new)
        &&& self.dot_effects(cart, new)
        &&& self.cart_after_dot(cart, new_cart)
    }

    /// `new` is at the position after the dot that this PPU processes, and
    /// has completed a frame when that dot was the last of scanline 260.
    pub open spec fn moved_to(&self, new: Ppu) -> bool {
        &&& (new.scanline == next_position(self.scanline as int, self.dot()).0)
        &&& (new.cycle == next_position(self.scanline as int, self.dot()).1)
        &&& (new.frame_complete == (self.dot() + 1 >= 341 && self.scanline + 1 >= 261))
    }

    /// What processing the dot does to everything but the position: the
    /// VRAM address, the status flags and the interrupt, sprite evaluation,
    /// the drawn pixel, the background pipeline, and the registers and
    /// memories that stay.
    pub open spec fn dot_effects(&self, cart: Cart, new: Ppu) -> bool {
        &&& (new.vram_addr == if self.rendered_line() {
                    vram_after_dot(
                        self.vram_addr,
                        self.tram_addr,
                        self.mask,
                        self.scanline as int,
                        self.dot(),
                    )
                } else {
                    self.vram_addr
                })
        &&& (bit8(new.status, 7) == if self.scanline == 241 && self.dot() == 1 {
                    true
                } else {
                    bit8(self.status_after_clear(), 7)
                })
        &&& (bit8(new.status, 5) == (bit8(self.status_after_clear(), 5) || (
                self.evaluates_sprites() && count_visible(
                    self.oam@,
                    self.scanline as int,
                    sprite_height(self.control)) >= 8)))
        &&& (!self.draws() ==> bit8(new.status, 6) == bit8(self.status_after_clear(), 6))
        &&& (self.draws() ==> {
                let f = self.fetched().sprite_found(cart, self.fetch_latches(cart, self.dot()));
                self.fetched().drawn(cart.mirroring_spec(), f.0, f.1, f.2, f.3, new)
            })
        &&& (new.status & 0x1Fu8 == self.status & 0x1Fu8)
        &&& (new.nmi == (self.nmi || (self.scanline == 241 && self.dot() == 1
                    && bit8(self.control, 7))))
        &&& (self.evaluates_sprites() ==> new.sprites_on_scanline@ == first_visible(
                    self.oam@,
                    self.scanline as int,
                    sprite_height(self.control),
                    8))
        &&& (self.evaluates_sprites() ==> new.sprites_on_scanline_contains_sprite_0
                    == sprite_visible(
                    self.oam@[0],
                    self.scanline as int,
                    sprite_height(self.control)))
        &&& (!self.evaluates_sprites() ==> new.sprites_on_scanline
                    == self.sprites_on_scanline)
        &&& (self.draws() ==> forall|j: int|
                    0 <= j < 61440 && j != self.pixel_index() ==> #[trigger] new.screen@[j]
                        == self.screen@[j])
        &&& (!self.draws() ==> new.screen == self.screen)
        &&& (self.rendered_line() ==> {
                let sh = self.shifted(self.dot());
                &&& new.bg_shifter_pattern_lo == sh.bg_shifter_pattern_lo
                &&& new.bg_shifter_pattern_hi == sh.bg_shifter_pattern_hi
                &&& new.bg_shifter_attrib_lo == sh.bg_shifter_attrib_lo
                &&& new.bg_shifter_attrib_hi == sh.bg_shifter_attrib_hi
                &&& (
                    new.bg_next_tile_id,
                    new.bg_next_tile_attribute,
                    new.bg_next_tile_addr_lsb,
                    new.bg_next_tile_addr_msb,
                ) == self.next_tile_after_dot(cart, self.dot())
            })
        &&& (!self.rendered_line() ==> {
                &&& new.bg_shifter_pattern_lo == self.bg_shifter_pattern_lo
                &&& new.bg_shifter_pattern_hi == self.bg_shifter_pattern_hi
                &&& new.bg_shifter_attrib_lo == self.bg_shifter_attrib_lo
                &&& new.bg_shifter_attrib_hi == self.bg_shifter_attrib_hi
                &&& new.bg_next_tile_id == self.bg_next_tile_id
                &&& new.bg_next_tile_attribute == self.bg_next_tile_attribute
                &&& new.bg_next_tile_addr_lsb == self.bg_next_tile_addr_lsb
                &&& new.bg_next_tile_addr_msb == self.bg_next_tile_addr_msb
            })
        &&& (new.tram_addr == self.tram_addr)
        &&& (new.fine_x == self.fine_x)
        &&& (new.control == self.control)
        &&& (new.mask == self.mask)
        &&& (new.oam == self.oam)
        &&& (new.oam_addr == self.oam_addr)
        &&& (new.palette == self.palette)
        &&& (new.name_tables == self.name_tables)
        &&& (new.pattern_tables == self.pattern_tables)
        &&& (new.address_latch == self.address_latch)
        &&& (new.data_buffer == self.data_buffer)
    }

    /// What the dot does to the cartridge: it stays as it was but for the
    /// scanline signal and, on an MMC2, for the latches that the dot's PPU
    /// reads move.
    pub open spec fn cart_after_dot(&self, cart: Cart, new_cart: Cart) -> bool {
        &&& (new_cart.cpu_mapper == cart.cpu_mapper)
        &&& (new_cart.ppu_mapper == cart.ppu_mapper)
        &&& (new_cart.mirroring == cart.mirroring)
        &&& (new_cart.mapper_code == cart.mapper_code)
        &&& (!(cart.mapper is M009) ==> if self.signals_scanline() {
                cart.mapper.scanline_post(new_cart.mapper)
            } else {
                new_cart.mapper == cart.mapper
            })
        &&& (cart.mapper is M009 ==> {
                &&& new_cart.same_chr(cart)
                &&& new_cart.latches() == self.dot_latches(cart)
            })
    }

    /// An MMC2's latches after the dot: the background read, then, on a
    /// drawn dot, the sprite search.
    pub open spec fn dot_latches(&self, cart: Cart) -> Seq<ChrLatch> {
        let l1 = if self.rendered_line() { self.fetch_latches(cart, self.dot()) } else { cart.latches() };
        if self.draws() {
            self.fetched().sprite_latches(cart, l1)
        } else {
            l1
        }
    }

    /// Whether the next clock tells the cartridge that a scanline is
    /// complete: at dot 260 of a rendered line while rendering is enabled.
    pub open spec fn signals_scanline(&self) -> bool {
        rendering(self.mask) && self.dot() == 259 && self.scanline < 240
    }

    /// Processes the dot at the current position, without moving on.
    #[verifier::rlimit(60)]
    fn render_dot(&mut self, cart: &mut Cart)
        requires
            old(self).wf(),
            old(cart).ppu_safe(),
        ensures
            final(self).wf(),
            final(cart).ppu_reads_from(&*old(cart)),
            final(cart).ppu_safe(),
            final(cart).same_chr(*old(cart)),
            final(cart).latches() == old(self).dot_latches(*old(cart)),
            old(self).dot_effects(*old(cart), *final(self)),
            final(self).scanline == old(self).scanline,
            final(self).cycle == old(self).dot(),
            !final(self).frame_complete,
    {
        let ghost cart0: Cart = *old(cart);
        if self.frame_complete {
            self.frame_complete = false;
        }
        if self.scanline >= -1 && self.scanline < 240 {
            if self.scanline == 0 && self.cycle == 0 {
                // "Odd frame": the first dot of scanline 0 is skipped.
                self.cycle = 1;
            }
            self.render_line_dot(cart);
        }
        let ghost st1: u8 = self.status;
        proof {
            let st = old(self).status;
            let c1 = with_bit8(st, 7, false);
            let c2 = with_bit8(c1, 6, false);
            crate::ppu_regs::lemma_with_bit8(st, 7, 5, false);
            crate::ppu_regs::lemma_with_bit8(c1, 6, 5, false);
            crate::ppu_regs::lemma_with_bit8(c1, 6, 7, false);
            crate::ppu_regs::lemma_with_bit8(c2, 5, 7, false);
            crate::ppu_regs::lemma_with_bit8(c2, 5, 6, false);
            let st0 = old(self).status_after_clear();
            crate::ppu_regs::lemma_with_bit8(st0, 5, 7, true);
            crate::ppu_regs::lemma_with_bit8(st0, 5, 6, true);
        }
        // Start of VBlank:
        if self.scanline == 241 && self.cycle == 1 {
            self.status = self.status.set_vblank(true);
            if self.control.enable_nmi() {
                self.nmi = true;
            }
        }
        let ghost st2: u8 = self.status;
        proof {
            crate::ppu_regs::lemma_with_bit8(st1, 7, 5, true);
            crate::ppu_regs::lemma_with_bit8(st1, 7, 6, true);
        }
        // The first opaque sprite pixel that the drawn dot found.
        let ghost mut found: (u8, u8, bool, bool) = (0, 0, false, false);
        let ghost mid: Ppu = *self;
        let ghost mid_cart: Cart = *cart;
        if self.cycle >= 1 && self.cycle <= 256 && self.scanline >= 0 && self.scanline <= 239 {
            self.draw_pixel(cart);
            proof {
                found = mid.sprite_found(mid_cart, mid_cart.latches());
            }
        }
        let ghost drawn_state: Ppu = *self;
        proof {
            crate::ppu_regs::lemma_with_bit8(st2, 6, 7, true);
            crate::ppu_regs::lemma_with_bit8(st2, 6, 5, true);
            if old(self).draws() {
                let l1 = old(self).fetch_latches(cart0, old(self).dot());
                assert(mid_cart.latches() == l1);
                lemma_sprite_from_same(mid, old(self).fetched(), mid_cart, cart0, l1, 0);
                lemma_drawn_transfer(
                    mid,
                    old(self).fetched(),
                    cart0.mirroring_spec(),
                    found,
                    drawn_state,
                    *self,
                );
            }
        }
    }

    /// Advances the PPU by one dot (see `clocked`).
    pub fn clock(&mut self, cart: &mut Cart)
        requires
            old(self).wf(),
            old(cart).ppu_safe(),
        ensures
            final(self).wf(),
            final(cart).ppu_safe(),
            old(self).clocked(*old(cart), *final(self), *final(cart)),
    {
        let ghost cart0: Cart = *old(cart);
        self.render_dot(cart);
        let ghost rendered: Ppu = *self;
        let ghost before_line: Cart = *cart;
        self.cycle = self.cycle + 1;
        if (self.mask.render_background() || self.mask.render_sprites()) && self.cycle == 260 && self.scanline
            < 240 {
            cart.scanline_complete();
        }
        if self.cycle >= 341 {
            self.cycle = 0;
            self.scanline = self.scanline + 1;
            if self.scanline >= 261 {
                self.scanline = -1;
                self.frame_complete = true;
            }
        }
        proof {
            if !(cart0.mapper is M009) {
                assert(before_line.mapper == cart0.mapper);
            } else {
                assert(cart.same_chr(cart0));
                assert(cart.latches() == before_line.latches());
            }
            lemma_dot_effects_kept(*old(self), cart0, rendered, *self);
        }
    }
}

/// The effects of a dot stay when only the position and the frame flag
/// change afterwards.
proof fn lemma_dot_effects_kept(p: Ppu, cart: Cart, new1: Ppu, new2: Ppu)
    requires
        p.dot_effects(cart, new1),
        new2 == (Ppu { cycle: new2.cycle, scanline: new2.scanline, frame_complete: new2.frame_complete, ..new1 }),
    ensures
        p.dot_effects(cart, new2),
{
    let m = cart.mirroring_spec();
    let q = p.fetched();
    if p.draws() {
        let f = q.sprite_found(cart, p.fetch_latches(cart, p.dot()));
        assert(q.drawn(m, f.0, f.1, f.2, f.3, new2));
    }
}

/// The VRAM address step after a $2007 access: 32 (one row) or 1.
pub open spec fn vram_increment(control: u8) -> int {
    if bit8(control, 2) { 32 } else { 1 }
}

impl Ppu {
    /// Whether a CPU access to the register at `addr` can be handled: a
    /// $2007 access reads or writes the PPU bus at the VRAM address, and
    /// the address must not run past $FFFF when it steps.
    pub open spec fn register_ok(&self, cart: Cart, addr: u16) -> bool {
        (0x2000 <= addr < 0x2008 && addr % 8 == 7) ==> {
            &&& cart.ppu_read_ok(self.vram_addr & 0x3FFFu16)
            &&& self.vram_addr + vram_increment(self.control) <= 0xFFFF
        }
    }

    /// What a CPU read of the register at `addr` answers (`r`) and leaves
    /// behind: the PPU `new` and the cartridge `new_cart`.
    pub open spec fn register_read(&self, cart: Cart, addr: u16, r: Option<u8>, new: Ppu, new_cart: Cart) -> bool {
        &&& (!(0x2000 <= addr < 0x2008) ==> r.is_none() && new == *self)
        &&& ((0x2000 <= addr < 0x2008 && addr % 8 == 2) ==> {
                    &&& r == Some(((self.status & 0xE0u8) | (self.data_buffer & 0x1Fu8)) as u8)
                    &&& new == (Ppu {
                        address_latch: false,
                        status: with_bit8(self.status, 7, false),
                        ..*self
                    })
                })
        &&& ((0x2000 <= addr < 0x2008 && addr % 8 == 4) ==> r == Some(self.oam_byte(self.oam_addr))
                    && new == *self)
        &&& ((0x2000 <= addr < 0x2008 && addr % 8 == 7) ==> {
                    let d = self.peek(cart, self.vram_addr);
                    &&& new.data_buffer == d
                    &&& self.vram_addr > 0x3F00 ==> r == Some(d) && new.vram_addr == self.vram_addr
                    &&& self.vram_addr <= 0x3F00 ==> r == Some(self.data_buffer) && new.vram_addr
                        == self.vram_addr + vram_increment(self.control)
                    &&& new == (Ppu {
                        data_buffer: new.data_buffer,
                        vram_addr: new.vram_addr,
                        ..*self
                    })
                    &&& cart.ppu_safe() ==> new_cart.ppu_reads_from(&cart)
                    &&& cart.ppu_read_effect(self.vram_addr & 0x3FFFu16, new_cart)
                })
        &&& ((0x2000 <= addr < 0x2008 && addr % 8 != 2 && addr % 8 != 4 && addr % 8 != 7) ==> r == Some(0u8)
                    && new == *self)
        &&& (addr % 8 != 7 ==> new_cart == cart)
    }

    /// What a CPU write of `data` to the register at `addr` answers (`r`) and
    /// leaves behind: the PPU `new` and the cartridge `new_cart`.
    pub open spec fn register_write(&self, cart: Cart, addr: u16, data: u8, r: Option<()>, new: Ppu, new_cart: Cart) -> bool {
        &&& (!(0x2000 <= addr < 0x2008) ==> r.is_none() && new == *self)
        &&& ((0x2000 <= addr < 0x2008) ==> r == Some(()))
        &&& ((0x2000 <= addr < 0x2008 && addr % 8 == 0) ==> new == (Ppu {
                    control: data,
                    tram_addr: with_bit16(with_bit16(self.tram_addr, 10, bit8(data, 0)), 11, bit8(data, 1)),
                    ..*self
                }))
        &&& ((0x2000 <= addr < 0x2008 && addr % 8 == 1) ==> new == (Ppu { mask: data, ..*self }))
        &&& ((0x2000 <= addr < 0x2008 && addr % 8 == 3) ==> new == (Ppu { oam_addr: data, ..*self }))
        &&& ((0x2000 <= addr < 0x2008 && addr % 8 == 4) ==> {
                    &&& new == (Ppu { oam: new.oam, ..*self })
                    &&& forall|a: u8| #[trigger] new.oam_byte(a) == self.oam_byte_after(self.oam_addr, data, a)
                    &&& new.oam@ == oam_written(self.oam@, self.oam_addr, data)
                })
        &&& ((0x2000 <= addr < 0x2008 && addr % 8 == 5 && !self.address_latch) ==> new == (Ppu {
                    fine_x: data & 0x07u8,
                    tram_addr: with_coarse_x(self.tram_addr, data >> 3u8),
                    address_latch: true,
                    ..*self
                }))
        &&& ((0x2000 <= addr < 0x2008 && addr % 8 == 5 && self.address_latch) ==> new == (Ppu {
                    tram_addr: with_coarse_y(with_fine_y(self.tram_addr, data & 0x07u8), data >> 3u8),
                    address_latch: false,
                    ..*self
                }))
        &&& ((0x2000 <= addr < 0x2008 && addr % 8 == 6 && !self.address_latch) ==> new == (Ppu {
                    tram_addr: (self.tram_addr & 0x00FFu16) | ((data as u16) << 8u16),
                    address_latch: true,
                    ..*self
                }))
        &&& ((0x2000 <= addr < 0x2008 && addr % 8 == 6 && self.address_latch) ==> new == (Ppu {
                    tram_addr: (self.tram_addr & 0xFF00u16) | (data as u16),
                    vram_addr: (self.tram_addr & 0xFF00u16) | (data as u16),
                    address_latch: false,
                    ..*self
                }))
        &&& ((0x2000 <= addr < 0x2008 && addr % 8 == 7) ==> {
                    let v = self.vram_addr;
                    let m = cart.mirroring_spec();
                    &&& new.vram_addr == v + vram_increment(self.control)
                    &&& cart.ppu_peek(v & 0x3FFFu16).is_some() ==> new == (Ppu {
                        vram_addr: new.vram_addr,
                        ..*self
                    })
                    &&& cart.ppu_peek(v & 0x3FFFu16).is_none() ==> self.vram_written(
                        m,
                        v,
                        data,
                        Ppu { vram_addr: self.vram_addr, ..new },
                    )
                    &&& cart.ppu_write_effect(v & 0x3FFFu16, data, new_cart)
                })
        &&& ((0x2000 <= addr < 0x2008 && addr % 8 == 2) ==> new == *self)
        &&& (addr % 8 != 7 ==> new_cart == cart)
    }

    /// Whether the PPU's invariant holds (see `wf`).
    pub fn check_wf(&self) -> (r: bool)
        ensures
            r == self.wf(),
    {
        self.name_tables.len() == 2048 && self.pattern_tables.len() == 8192 && self.screen.len() == SCREEN_W
            * SCREEN_H && self.sprites_on_scanline.len() <= 8 && self.fine_x < 8 && -1 <= self.scanline
            && self.scanline <= 260 && 0 <= self.cycle && self.cycle <= 340
    }

    /// Whether a CPU access to the register at `addr` can be handled (see
    /// `register_ok`).
    pub fn register_ready(&self, cart: &Cart, addr: u16) -> (r: bool)
        requires
            cart.wf(),
        ensures
            r == self.register_ok(*cart, addr),
    {
        if 0x2000 <= addr && addr < 0x2008 && addr % 8 == 7 {
            let step: u32 = if self.control.increment_mode() { 32 } else { 1 };
            cart.can_ppu_read(self.vram_addr & 0x3FFF) && (self.vram_addr as u32) + step <= 0xFFFF
        } else {
            true
        }
    }

    /// Reads a PPU register from the CPU bus ($2000-$2007): $2002 gives the
    /// status (and clears vblank and the address latch), $2004 the OAM byte,
    /// $2007 the buffered VRAM byte; the others read as zero.
    pub fn read(&mut self, addr: u16, cart: &mut Cart) -> (r: Option<u8>)
        requires
            old(self).wf(),
            old(cart).wf(),
            old(self).register_ok(*old(cart), addr),
        ensures
            final(self).wf(),
            final(cart).wf(),
            old(self).register_read(*old(cart), addr, r, *final(self), *final(cart)),
    {
        if !(addr >= 0x2000 && addr < 0x2008) {
            return None;
        }
        let reg: u16 = addr % 8;
        if reg == 2 {
            // Reading the status resets the address latch; the low five
            // bits hold whatever the PPU bus last carried.
            self.address_latch = false;
            let data: u8 = (self.status & 0b111_00000) | (self.data_buffer & 0b000_11111);
            // ...and clears the vblank flag.
            self.status = self.status.set_vblank(false);
            Some(data)
        } else if reg == 4 {
            Some(self.get_oam_data())
        } else if reg == 7 {
            // The read answers what the previous read fetched; this one
            // fetches the byte at the VRAM address.
            let data: u8 = self.data_buffer;
            let vram_addr: u16 = self.vram_addr;
            self.data_buffer = self.ppu_read(vram_addr, cart);
            // Palette memory answers right away.
            if self.vram_addr > 0x3F00 {
                return Some(self.data_buffer);
            }
            self.vram_addr = self.vram_addr + if self.control.increment_mode() { 32 } else { 1 };
            Some(data)
        } else {
            Some(0x00)
        }
    }

    /// Writes a PPU register from the CPU bus ($2000-$2007).
    pub fn write(&mut self, addr: u16, data: u8, cart: &mut Cart) -> (r: Option<()>)
        requires
            old(self).wf(),
            old(cart).wf(),
            old(self).register_ok(*old(cart), addr),
        ensures
            final(self).wf(),
            final(cart).wf(),
            old(self).register_write(*old(cart), addr, data, r, *final(self), *final(cart)),
    {
        if !(addr >= 0x2000 && addr < 0x2008) {
            return None;
        }
        let reg: u16 = addr % 8;
        proof {
            lemma_masks(data, 0, 0, 0);
        }
        if reg == 0 {
            // The nametable bits of the control register go to the
            // temporary address.
            self.control = data;
            self.tram_addr = self.tram_addr.set_nametable_x(self.control.nametable_x()).set_nametable_y(
                self.control.nametable_y(),
            );
        } else if reg == 1 {
            self.mask = data;
        } else if reg == 3 {
            self.oam_addr = data;
        } else if reg == 4 {
            self.set_oam_data(self.oam_addr, data);
        } else if reg == 5 {
            if self.address_latch == false {
                // First write: coarse X and fine X.
                self.fine_x = data & 0b0000_0111;
                self.tram_addr = self.tram_addr.set_coarse_x(data >> 3);
                self.address_latch = true;
            } else {
                // Second write: fine Y and coarse Y.
                self.tram_addr = self.tram_addr.set_fine_y(data & 0b0000_0111).set_coarse_y(data >> 3);
                self.address_latch = false;
            }
        } else if reg == 6 {
            if self.address_latch == false {
                // First write: the high byte of the address.
                self.tram_addr = (self.tram_addr & 0x00FF) | ((data as u16) << 8);
                self.address_latch = true;
            } else {
                // Second write: the low byte, and the address goes live.
                self.tram_addr = (self.tram_addr & 0xFF00) | data as u16;
                self.vram_addr = self.tram_addr;
                self.address_latch = false;
            }
        } else if reg == 7 {
            let vram_addr: u16 = self.vram_addr;
            self.ppu_write(vram_addr, data, cart);
            self.vram_addr = self.vram_addr + if self.control.increment_mode() { 32 } else { 1 };
        }
        Some(())
    }
}

/// The pixel of a rendered nametable at index `p` (256 x 240, row after
/// row): the pixel of the pattern table image (128 x 128, 16 x 16 tiles)
/// that the nametable's tile at that place selects, the tile's high nybble
/// being its row and its low nybble its column.
pub open spec fn name_table_pixel(nt: Seq<u8>, table: int, pattern: Seq<[u8; 4]>, p: int) -> [u8; 4] {
    let x = (p % 256) / 8;
    let y = (p / 256) / 8;
    let col = 7 - (p % 256) % 8;
    let row = (p / 256) % 8;
    let tile = nt[table * 1024 + y * 32 + x];
    let tile_y = (tile / 16) as int;
    let tile_x = (tile % 16) as int;
    pattern[(tile_y * 8 + row) * 128 + tile_x * 8 + (7 - col)]
}

impl Ppu {
    /// Renders nametable `name_table_idx` as a 256 x 240 image, from a
    /// rendered pattern table.
    pub fn render_name_table(&self, pattern_table: &Vec<[u8; 4]>, name_table_idx: usize) -> (r: Vec<[u8; 4]>)
        requires
            self.wf(),
            name_table_idx <= 1,
            pattern_table@.len() == 128 * 128,
        ensures
            r@.len() == 256 * 240,
            forall|p: int| 0 <= p < 256 * 240 ==> #[trigger] r@[p] == name_table_pixel(
                self.name_tables@,
                name_table_idx as int,
                pattern_table@,
                p,
            ),
    {
        let mut result: Vec<[u8; 4]> = Vec::with_capacity(256 * 240);
        let mut p: usize = 0;
        while p < 256 * 240
            invariant
                p <= 256 * 240,
                result@.len() == p,
                self.wf(),
                name_table_idx <= 1,
                pattern_table@.len() == 128 * 128,
                forall|q: int| 0 <= q < p ==> #[trigger] result@[q] == name_table_pixel(
                    self.name_tables@,
                    name_table_idx as int,
                    pattern_table@,
                    q,
                ),
            decreases 256 * 240 - p,
        {
            let x: usize = (p % 256) / 8;
            let y: usize = (p / 256) / 8;
            let col: usize = 7 - (p % 256) % 8;
            let row: usize = (p / 256) % 8;
            let tile: u8 = self.name_tables[name_table_idx * 1024 + y * 32 + x];
            // 0xA5 => tile_y = A, tile_x = 5
            let tile_y: usize = (tile / 16) as usize;
            let tile_x: usize = (tile % 16) as usize;
            let pt_pixel_x: usize = (tile_x * 8) + (7 - col);
            let pt_pixel_y: usize = (tile_y * 8) + row;
            result.push(pattern_table[pt_pixel_y * 128 + pt_pixel_x]);
            p = p + 1;
        }
        result
    }

    /// The colors of the eight palettes, four colors each, as RGBA: entry
    /// `palette * 4 + color`.
    pub fn get_palettes(&mut self, cart: &mut Cart) -> (r: Vec<[u8; 4]>)
        requires
            old(self).wf(),
            old(cart).ppu_safe(),
        ensures
            *final(self) == *old(self),
            final(cart).ppu_reads_from(&*old(cart)),
            r@.len() == 32,
            forall|i: int| 0 <= i < 32 ==> {
                let c = old(self).palette.colors@[(old(self).palette.map@[palette_index((0x3F00 + i) as u16)] % 64) as int];
                #[trigger] r@[i] == [c.r, c.g, c.b, 0xFFu8]
            },
    {
        let mut result: Vec<[u8; 4]> = Vec::with_capacity(32);
        let mut palette_num: u8 = 0;
        let ghost cart0: Cart = *old(cart);
        while palette_num < 8
            invariant
                palette_num <= 8,
                result@.len() == palette_num * 4,
                self.wf(),
                cart.ppu_reads_from(&cart0),
                cart0 == *old(cart),
                forall|i: int| 0 <= i < palette_num * 4 ==> {
                    let c = self.palette.colors@[(self.palette.map@[palette_index((0x3F00 + i) as u16)] % 64) as int];
                    #[trigger] result@[i] == [c.r, c.g, c.b, 0xFFu8]
                },
            decreases 8 - palette_num,
        {
            let mut color_num: u8 = 0;
            while color_num < 4
                invariant
                    palette_num < 8,
                    color_num <= 4,
                    result@.len() == palette_num * 4 + color_num,
                    self.wf(),
                    cart.ppu_reads_from(&cart0),
                    forall|i: int| 0 <= i < palette_num * 4 + color_num ==> {
                        let c = self.palette.colors@[(self.palette.map@[palette_index((0x3F00 + i) as u16)] % 64) as int];
                        #[trigger] result@[i] == [c.r, c.g, c.b, 0xFFu8]
                    },
                decreases 4 - color_num,
            {
                proof {
                    lemma_masks(palette_num, 0, 0, 0);
                    lemma_masks(0, (0x3F00 + palette_num * 4 + color_num) as u16, 0, 0);
                }
                let color: Color = self.get_color_from_palette_ram(palette_num, color_num, cart);
                assert(((palette_num << 2u8) + color_num) as int == palette_num * 4 + color_num);
                result.push([color.r, color.g, color.b, 0xFF]);
                color_num = color_num + 1;
            }
            palette_num = palette_num + 1;
        }
        result
    }
}

/// The position in the 128 x 128 pattern sheet of bit `bit` of row `row`
/// of tile (`tile_x`, `tile_y`): tiles of 8 x 8 pixels, 16 to a row, with
/// the bits of a pattern byte running right to left.
pub open spec fn sheet_index(tile_y: int, tile_x: int, row: int, bit: int) -> int {
    (tile_y * 8 + row) * 128 + tile_x * 8 + 7 - bit
}

/// Whether (`tile_y`, `tile_x`, `row`, `bit`) comes before (`y`, `x`, `r`,
/// `b`) in the order that the sheet is drawn.
pub open spec fn sheet_before(tile_y: int, tile_x: int, row: int, bit: int, y: int, x: int, r: int, b: int) -> bool {
    ||| tile_y < y
    ||| tile_y == y && tile_x < x
    ||| tile_y == y && tile_x == x && row < r
    ||| tile_y == y && tile_x == x && row == r && bit < b
}

/// Distinct pixels of the sheet lie at distinct positions.
proof fn lemma_sheet_index_distinct(a: int, b: int, c: int, d: int, a2: int, b2: int, c2: int, d2: int)
    requires
        0 <= a < 16,
        0 <= b < 16,
        0 <= c < 8,
        0 <= d < 8,
        0 <= a2 < 16,
        0 <= b2 < 16,
        0 <= c2 < 8,
        0 <= d2 < 8,
        sheet_before(a, b, c, d, a2, b2, c2, d2),
    ensures
        sheet_index(a, b, c, d) != sheet_index(a2, b2, c2, d2),
{
}

/// The address of the low pattern byte of row `row` of tile (`tile_x`,
/// `tile_y`) in pattern table `table`.
pub open spec fn sheet_row_addr(table: u16, tile_y: int, tile_x: int, row: int) -> u16 {
    (table * 0x1000 + tile_y * 256 + tile_x * 16 + row) as u16
}

/// An MMC2's latches `l` after the sheet reads row `row` of tile (`tile_x`,
/// `tile_y`): its low byte, then its high byte.
pub open spec fn sheet_row_read(cart: Cart, table: u16, l: Seq<ChrLatch>, tile_y: int, tile_x: int, row: int) -> Seq<
    ChrLatch,
> {
    let a = sheet_row_addr(table, tile_y, tile_x, row);
    cart.read_latches(cart.read_latches(l, a & 0x3FFFu16), ((a + 8) as u16) & 0x3FFFu16)
}

/// An MMC2's latches when the sheet comes to read row `row` of tile
/// (`tile_x`, `tile_y`), from latches `l` at the start: every row before
/// it, in drawing order, has been read. Row 8 of a tile stands for the end
/// of the tile, and tile 16 of a tile row for the end of that row.
pub open spec fn sheet_latches(cart: Cart, table: u16, l: Seq<ChrLatch>, tile_y: int, tile_x: int, row: int) -> Seq<
    ChrLatch,
>
    decreases tile_y, tile_x, row,
{
    if tile_y < 0 || tile_x < 0 || row < 0 {
        l
    } else if row > 0 {
        sheet_row_read(
            cart,
            table,
            sheet_latches(cart, table, l, tile_y, tile_x, row - 1),
            tile_y,
            tile_x,
            row - 1,
        )
    } else if tile_x > 0 {
        sheet_latches(cart, table, l, tile_y, tile_x - 1, 8)
    } else if tile_y > 0 {
        sheet_latches(cart, table, l, tile_y - 1, 16, 0)
    } else {
        l
    }
}

impl Ppu {
    /// The color of bit `bit` of row `row` of tile (`tile_x`, `tile_y`) of
    /// pattern table `table`, read with an MMC2's latches at `l`: the pixel
    /// value's low bit is that bit of the row's low pattern byte, and its
    /// high bit that bit of the high byte eight bytes later (read after the
    /// low byte's read moved the latches); it is shown in palette
    /// `palette`.
    pub open spec fn sheet_color(
        &self,
        cart: Cart,
        l: Seq<ChrLatch>,
        table: u16,
        palette: u8,
        tile_y: int,
        tile_x: int,
        row: int,
        bit: int,
    ) -> Color {
        let lo_addr = sheet_row_addr(table, tile_y, tile_x, row);
        let lo = self.peek_with(cart, l, lo_addr);
        let hi = self.peek_with(cart, cart.read_latches(l, lo_addr & 0x3FFFu16), (lo_addr + 8) as u16);
        let v = 2 * ((hi >> (bit as u8)) & 1u8) + ((lo >> (bit as u8)) & 1u8);
        self.color_of(cart.mirroring_spec(), (v as u8, palette))
    }
}

impl Ppu {
    /// Renders pattern table `table_number` as a 128 x 128 RGBA image of
    /// 16 x 16 tiles, coloring each pixel with palette `palette`. A tile is
    /// 16 bytes: eight bytes of low bits and eight of high bits, one byte
    /// per row, the leftmost pixel in the top bit; a pixel's value has the
    /// high byte's bit as its high bit and the low byte's bit as its low
    /// bit.
    pub fn render_pattern_table(&mut self, table_number: u16, palette: u8, cart: &mut Cart) -> (r: Vec<
        [u8; 4],
    >)
        requires
            old(self).wf(),
            old(cart).ppu_safe(),
            table_number < 16,
        ensures
            *final(self) == *old(self),
            final(cart).ppu_reads_from(&*old(cart)),
            r@.len() == 128 * 128,
            forall|p: int| 0 <= p < 128 * 128 ==> (#[trigger] r@[p])[3] == 0xFF,
            final(cart).same_chr(*old(cart)),
            forall|ty: int, tx: int, row: int, bit: int|
                #![trigger r@[sheet_index(ty, tx, row, bit)]]
                0 <= ty < 16 && 0 <= tx < 16 && 0 <= row < 8 && 0 <= bit < 8 ==> {
                    let c = old(self).sheet_color(
                        *old(cart),
                        sheet_latches(*old(cart), table_number, old(cart).latches(), ty, tx, row),
                        table_number,
                        palette,
                        ty,
                        tx,
                        row,
                        bit,
                    );
                    &&& r@[sheet_index(ty, tx, row, bit)][0] == c.r
                    &&& r@[sheet_index(ty, tx, row, bit)][1] == c.g
                    &&& r@[sheet_index(ty, tx, row, bit)][2] == c.b
                },
    {
        let mut result: Vec<[u8; 4]> = vec![[0x00u8, 0x00u8, 0x00u8, 0xFFu8]; 128 * 128];
        let ghost cart0: Cart = *old(cart);
        let ghost l0: Seq<ChrLatch> = cart0.latches();
        let mut tile_y: u16 = 0;
        while tile_y < 16
            invariant
                tile_y <= 16,
                table_number < 16,
                result@.len() == 128 * 128,
                forall|p: int| 0 <= p < 128 * 128 ==> (#[trigger] result@[p])[3] == 0xFF,
                self.wf(),
                cart.ppu_reads_from(&cart0),
                cart0 == *old(cart),
                cart.same_chr(cart0),
                tile_y < 16 ==> cart.latches() == sheet_latches(cart0, table_number, l0, tile_y as int, 0, 0),
                tile_y == 16 ==> cart.latches() == sheet_latches(cart0, table_number, l0, 15, 16, 0),
                l0 == cart0.latches(),
                forall|ty: int, tx: int, row: int, bit: int|
                    #![trigger result@[sheet_index(ty, tx, row, bit)]]
                    0 <= ty < 16 && 0 <= tx < 16 && 0 <= row < 8 && 0 <= bit < 8 && sheet_before(
                        ty, tx, row, bit, tile_y as int, 0, 0, 0) ==> {
                        let c = self.sheet_color(
 cart0,
 sheet_latches(cart0, table_number, l0, ty, tx, row),
 table_number,
 palette,
 ty,
 tx,
 row,
 bit,
 );
                        &&& result@[sheet_index(ty, tx, row, bit)][0] == c.r
                        &&& result@[sheet_index(ty, tx, row, bit)][1] == c.g
                        &&& result@[sheet_index(ty, tx, row, bit)][2] == c.b
                    },
            decreases 16 - tile_y,
        {
            let mut tile_x: u16 = 0;
            while tile_x < 16
                invariant
                    tile_y < 16,
                    tile_x <= 16,
                    table_number < 16,
                    cart.latches() == sheet_latches(cart0, table_number, l0, tile_y as int, tile_x as int, 0),
                    result@.len() == 128 * 128,
                    forall|p: int| 0 <= p < 128 * 128 ==> (#[trigger] result@[p])[3] == 0xFF,
                    self.wf(),
                    cart.ppu_reads_from(&cart0),
                    cart.same_chr(cart0),
                l0 == cart0.latches(),
                    forall|ty: int, tx: int, row: int, bit: int|
                        #![trigger result@[sheet_index(ty, tx, row, bit)]]
                        0 <= ty < 16 && 0 <= tx < 16 && 0 <= row < 8 && 0 <= bit < 8 && sheet_before(
                            ty, tx, row, bit, tile_y as int, tile_x as int, 0, 0) ==> {
                            let c = self.sheet_color(
 cart0,
 sheet_latches(cart0, table_number, l0, ty, tx, row),
 table_number,
 palette,
 ty,
 tx,
 row,
 bit,
 );
                            &&& result@[sheet_index(ty, tx, row, bit)][0] == c.r
                            &&& result@[sheet_index(ty, tx, row, bit)][1] == c.g
                            &&& result@[sheet_index(ty, tx, row, bit)][2] == c.b
                        },
                decreases 16 - tile_x,
            {
                // A tile is 16 bytes, and the sheet is 16 tiles wide.
                let offset: u16 = tile_y * (16 * 16) + tile_x * 16;
                let mut row: u16 = 0;
                while row < 8
                    invariant
                        tile_y < 16,
                        tile_x < 16,
                        row <= 8,
                        table_number < 16,
                        cart.latches() == sheet_latches(
                            cart0,
                            table_number,
                            l0,
                            tile_y as int,
                            tile_x as int,
                            row as int,
                        ),
                        offset == tile_y * 256 + tile_x * 16,
                        result@.len() == 128 * 128,
                        forall|p: int| 0 <= p < 128 * 128 ==> (#[trigger] result@[p])[3] == 0xFF,
                        self.wf(),
                        cart.ppu_reads_from(&cart0),
                        cart.same_chr(cart0),
                l0 == cart0.latches(),
                        forall|ty: int, tx: int, row2: int, bit: int|
                            #![trigger result@[sheet_index(ty, tx, row2, bit)]]
                            0 <= ty < 16 && 0 <= tx < 16 && 0 <= row2 < 8 && 0 <= bit < 8 && sheet_before(
                                ty, tx, row2, bit, tile_y as int, tile_x as int, row as int, 0) ==> {
                                let c = self.sheet_color(
 cart0,
 sheet_latches(cart0, table_number, l0, ty, tx, row2),
 table_number,
 palette,
 ty,
 tx,
 row2,
 bit,
 );
                                &&& result@[sheet_index(ty, tx, row2, bit)][0] == c.r
                                &&& result@[sheet_index(ty, tx, row2, bit)][1] == c.g
                                &&& result@[sheet_index(ty, tx, row2, bit)][2] == c.b
                            },
                    decreases 8 - row,
                {
                    // The low bits start at the tile, the high bits eight
                    // bytes later.
                    let lo_addr: u16 = table_number * 0x1000 + offset + row + 0;
                    proof {
                        cart.lemma_ppu_safe_reads(lo_addr & 0x3FFFu16);
                    }
                    let ghost cart1: Cart = *cart;
                    let tile_lsb: u8 = self.ppu_read(lo_addr, cart);
                    let hi_addr: u16 = table_number * 0x1000 + offset + row + 8;
                    proof {
                        cart.lemma_ppu_safe_reads(hi_addr & 0x3FFFu16);
                    }
                    let ghost cart2: Cart = *cart;
                    let tile_msb: u8 = self.ppu_read(hi_addr, cart);
                    let ghost ln: Seq<ChrLatch> = cart1.latches();
                    proof {
                        let a0: u16 = lo_addr & 0x3FFFu16;
                        let a1: u16 = hi_addr & 0x3FFFu16;
                        cart1.lemma_peek_with(cart1, ln, a0);
                        cart0.lemma_peek_with(cart1, ln, a0);
                        cart2.lemma_peek_with(cart2, cart2.latches(), a1);
                        cart0.lemma_peek_with(cart2, cart2.latches(), a1);
                        assert(lo_addr == sheet_row_addr(table_number, tile_y as int, tile_x as int, row as int));
                        assert(tile_lsb == self.peek_with(cart0, ln, lo_addr));
                        assert(cart2.latches() == cart0.read_latches(ln, a0));
                        assert(tile_msb == self.peek_with(cart0, cart2.latches(), hi_addr));
                        assert(cart.latches() == sheet_row_read(
                            cart0,
                            table_number,
                            ln,
                            tile_y as int,
                            tile_x as int,
                            row as int,
                        ));
                    }
                    let mut col: u16 = 0;
                    while col < 8
                        invariant
                            tile_y < 16,
                            tile_x < 16,
                            row < 8,
                            col <= 8,
                            table_number < 16,
                            offset == tile_y * 256 + tile_x * 16,
                            lo_addr == table_number * 0x1000 + offset + row,
                            hi_addr == lo_addr + 8,
                            ln == sheet_latches(cart0, table_number, l0, tile_y as int, tile_x as int, row as int),
                            tile_lsb == self.peek_with(cart0, ln, lo_addr),
                            tile_msb == self.peek_with(cart0, cart0.read_latches(ln, lo_addr & 0x3FFFu16), hi_addr),
                            cart.latches() == sheet_row_read(
                                cart0,
                                table_number,
                                ln,
                                tile_y as int,
                                tile_x as int,
                                row as int,
                            ),
                            result@.len() == 128 * 128,
                            forall|p: int| 0 <= p < 128 * 128 ==> (#[trigger] result@[p])[3] == 0xFF,
                            self.wf(),
                            cart.ppu_reads_from(&cart0),
                            cart.same_chr(cart0),
                l0 == cart0.latches(),
                            forall|ty: int, tx: int, row2: int, bit: int|
                                #![trigger result@[sheet_index(ty, tx, row2, bit)]]
                                0 <= ty < 16 && 0 <= tx < 16 && 0 <= row2 < 8 && 0 <= bit < 8 && sheet_before(
                                    ty, tx, row2, bit, tile_y as int, tile_x as int, row as int, col as int) ==> {
                                    let c = self.sheet_color(
 cart0,
 sheet_latches(cart0, table_number, l0, ty, tx, row2),
 table_number,
 palette,
 ty,
 tx,
 row2,
 bit,
 );
                                    &&& result@[sheet_index(ty, tx, row2, bit)][0] == c.r
                                    &&& result@[sheet_index(ty, tx, row2, bit)][1] == c.g
                                    &&& result@[sheet_index(ty, tx, row2, bit)][2] == c.b
                                },
                        decreases 8 - col,
                    {
                        proof {
                            lemma_masks(palette, 0, 0, 0);
                            lemma_masks(tile_lsb >> (col as u8), 0, 0, 0);
                            lemma_masks(tile_msb >> (col as u8), 0, 0, 0);
                        }
                        // Bit `col` of the high byte is the pixel value's high
                        // bit, bit `col` of the low byte its low bit.
                        let pixel_color_index: u8 = ((tile_msb >> (col as u8)) & 0x01) * 2 + ((tile_lsb >> (
                        col as u8)) & 0x01);
                        let ghost cart3: Cart = *cart;
                        let color: Color = self.get_color_from_palette_ram(palette, pixel_color_index, cart);
                        // Bits run right to left across the tile.
                        let pixel_x: u16 = (tile_x * 8) + (7 - col);
                        let pixel_y: u16 = (tile_y * 8) + row;
                        let pixel_idx: usize = (pixel_y * 128 + pixel_x) as usize;
                        proof {
                            assert(pixel_idx == sheet_index(tile_y as int, tile_x as int, row as int, col as int));
                            {
                                assert(cart3.mirroring_spec() == cart0.mirroring_spec());
                                assert(color == self.sheet_color(
                                    cart0,
                                    ln,
                                    table_number,
                                    palette,
                                    tile_y as int,
                                    tile_x as int,
                                    row as int,
                                    col as int,
                                ));
                            }
                            assert forall|ty: int, tx: int, row2: int, bit: int|
                                0 <= ty < 16 && 0 <= tx < 16 && 0 <= row2 < 8 && 0 <= bit < 8
                                    && sheet_before(ty, tx, row2, bit, tile_y as int, tile_x as int, row as int, col as int)
                                implies sheet_index(ty, tx, row2, bit) != pixel_idx by {
                                lemma_sheet_index_distinct(ty, tx, row2, bit, tile_y as int, tile_x as int, row as int, col as int);
                            }
                        }
                        result.set(pixel_idx, [color.r, color.g, color.b, 0xFF]);
                        col = col + 1;
                    }
                    row = row + 1;
                }
                tile_x = tile_x + 1;
            }
            tile_y = tile_y + 1;
        }
        result
    }
}

/// Bit `b` of a byte read by masking is the bit shifted down to the
/// bottom; flipping bit 6 of an attribute byte keeps its bit 7.
proof fn lemma_pattern_bit(x: u8, b: u8, a: u8)
    by (bit_vector)
    requires
        b < 8,
    ensures
        (x >> b) & 1u8 == if x & (1u8 << b) != 0 { 1u8 } else { 0u8 },
        ((a ^ 0x40u8) & (1u8 << 7u8) != 0) == (a & (1u8 << 7u8) != 0),
        ((a ^ 0x40u8) & 0x40u8 != 0) == (a & 0x40u8 == 0),
        (a & (1u8 << 6u8) != 0) == (a & 0x40u8 != 0),
        ((a ^ 0x80u8) & (1u8 << 7u8) != 0) == (a & (1u8 << 7u8) == 0),
        (a & (1u8 << 7u8) != 0) == (a & 0x80u8 != 0),
{
}

/// A sprite's pixel on a dot that it spans is one bit of its pattern row's
/// low byte (worth 1) plus the same bit of the high byte (worth 2). Drawn
/// as stored, column `x` of the sprite shows bit `7 - x`, so the leftmost
/// column shows the top bit; flipped horizontally (attribute bit 6) it
/// shows bit `x`. So the flipped sprite is the mirror image of the same
/// sprite unflipped: its pixel in column `x` is that sprite's pixel in
/// column `7 - x`.
pub proof fn law_sprite_pixel_columns(p: Ppu, cart: Cart, l: Seq<ChrLatch>, e: ObjectAttributeEntry)
    requires
        p.covers(e),
    ensures
        ({
            let x: int = p.cycle - e.x - 1;
            let addr = p.sprite_row_addr(e);
            let lo = p.peek_with(cart, l, addr);
            let hi = p.peek_with(cart, cart.read_latches(l, addr & 0x3FFFu16), (addr + 8) as u16);
            let b: u8 = (if e.attribute & 0x40u8 != 0 { x } else { 7 - x }) as u8;
            p.sprite_pixel_value(cart, l, e) == 2 * ((hi >> b) & 1u8) + ((lo >> b) & 1u8)
        }),
        ({
            let mirrored = ObjectAttributeEntry { attribute: e.attribute ^ 0x40u8, ..e };
            let q = Ppu { cycle: (2 * e.x + 9 - p.cycle) as isize, ..p };
            &&& q.covers(mirrored)
            &&& p.sprite_pixel_value(cart, l, e) == q.sprite_pixel_value(cart, l, mirrored)
        }),
{
    let x: int = p.cycle - e.x - 1;
    let a = e.attribute;
    let b: u8 = (if a & 0x40u8 != 0 { x } else { 7 - x }) as u8;
    let c: u8 = (7 - b) as u8;
    lemma_pattern_bit(0, b, a);
    let addr = p.sprite_row_addr(e);
    let lo = p.peek_with(cart, l, addr);
    let hi = p.peek_with(cart, cart.read_latches(l, addr & 0x3FFFu16), (addr + 8) as u16);
    lemma_pattern_bit(lo, b, a);
    lemma_pattern_bit(hi, b, a);
    assert(bit8(a, 6) == (a & 0x40u8 != 0));
    assert(p.sprite_pixel_value(cart, l, e) == 2 * ((hi >> b) & 1u8) + ((lo >> b) & 1u8));
    let mirrored = ObjectAttributeEntry { attribute: a ^ 0x40u8, ..e };
    let q = Ppu { cycle: (2 * e.x + 9 - p.cycle) as isize, ..p };
    assert(bit8(mirrored.attribute, 7) == bit8(a, 7));
    lemma_pattern_bit(0, b, a ^ 0x40u8);
    assert(bit8(mirrored.attribute, 6) == !bit8(a, 6));
    assert(q.sprite_row_addr(mirrored) == addr);
    assert(q.peek_with(cart, l, addr) == lo);
}

/// With 8x8 sprites (control bit 5 clear), line `y` of a sprite (counted
/// from its top, 0 to 7) reads row `y` of its tile, or row `7 - y` when the
/// sprite is flipped vertically (attribute bit 7); the row is the low three
/// bits of the pattern address. So the flipped sprite is the upside-down
/// image of the same sprite unflipped: its line `y` reads what that
/// sprite's line `7 - y` reads.
pub proof fn law_sprite_rows(p: Ppu, e: ObjectAttributeEntry)
    requires
        !bit8(p.control, 5),
        0 <= p.scanline - e.y - 1 < 8,
    ensures
        ({
            let y: int = p.scanline - e.y - 1;
            p.sprite_row_addr(e) & 7u16 == if e.attribute & 0x80u8 != 0 { 7 - y } else { y }
        }),
        ({
            let flipped = ObjectAttributeEntry { attribute: e.attribute ^ 0x80u8, ..e };
            let q = Ppu { scanline: (2 * e.y + 9 - p.scanline) as isize, ..p };
            &&& 0 <= q.scanline - e.y - 1 < 8
            &&& q.sprite_row_addr(flipped) == p.sprite_row_addr(e)
        }),
{
    let y: int = p.scanline - e.y - 1;
    let a = e.attribute;
    lemma_pattern_bit(0, 0, a);
    lemma_pattern_bit(0, 0, a ^ 0x80u8);
    let row: i16 = (if bit8(a, 7) { 7 - y } else { y }) as i16;
    let t: u16 = if bit8(p.control, 3) { 0x1000u16 } else { 0u16 };
    lemma_masks(e.tile_id, 0, t, row as u16);
}

/// A shifter bit chosen by a mask shifted right from the top is the bit
/// shifted down to the bottom.
proof fn lemma_shifter_bit(x: u16, f: u16, k: u16)
    by (bit_vector)
    requires
        f < 8,
        k + f == 15,
    ensures
        (x & (0x8000u16 >> f) > 0) == ((x >> k) & 1u16 == 1u16),
        (x >> k) & 1u16 <= 1,
{
}

/// Which pixel a dot shows: an opaque sprite pixel in front of the
/// background shows; one behind it shows only where the background is
/// transparent (zero); a transparent sprite pixel never hides the
/// background; and where both are transparent the dot shows the backdrop,
/// pixel 0 of palette 0.
pub proof fn law_pixel_priority(bg: u8, bg_pal: u8, fg: u8, fg_pal: u8, fg_front: bool)
    ensures
        fg != 0 && fg_front ==> mixed(bg, bg_pal, fg, fg_pal, fg_front) == (fg, fg_pal),
        fg != 0 && bg == 0 ==> mixed(bg, bg_pal, fg, fg_pal, fg_front) == (fg, fg_pal),
        fg != 0 && bg != 0 && !fg_front ==> mixed(bg, bg_pal, fg, fg_pal, fg_front) == (bg, bg_pal),
        fg == 0 && bg != 0 ==> mixed(bg, bg_pal, fg, fg_pal, fg_front) == (bg, bg_pal),
        fg == 0 && bg == 0 ==> mixed(bg, bg_pal, fg, fg_pal, fg_front) == (0u8, 0u8),
{
}

/// The background pixel of a dot, when the background shows there, is the
/// bit of the high pattern shifter (worth 2) and of the low one (worth 1)
/// at position `15 - fine_x`: with no fine scroll, the shifters' top bits.
/// Its palette comes from the attribute shifters in the same way. Where
/// the background does not show (disabled, or clipped at the left edge),
/// both are zero.
pub proof fn law_background_pixel(p: Ppu)
    requires
        p.fine_x < 8,
    ensures
        ({
            let k = (15 - p.fine_x) as u16;
            &&& p.shows_background() ==> p.bg_pixel() == 2 * ((p.bg_shifter_pattern_hi >> k) & 1u16) + ((
                p.bg_shifter_pattern_lo >> k) & 1u16)
            &&& p.shows_background() ==> p.bg_palette() == 2 * ((p.bg_shifter_attrib_hi >> k) & 1u16) + ((
                p.bg_shifter_attrib_lo >> k) & 1u16)
            &&& !p.shows_background() ==> p.bg_pixel() == 0 && p.bg_palette() == 0
        }),
{
    let f = p.fine_x as u16;
    let k = (15 - p.fine_x) as u16;
    lemma_shifter_bit(p.bg_shifter_pattern_hi, f, k);
    lemma_shifter_bit(p.bg_shifter_pattern_lo, f, k);
    lemma_shifter_bit(p.bg_shifter_attrib_hi, f, k);
    lemma_shifter_bit(p.bg_shifter_attrib_lo, f, k);
}

/// The color of pixel `px` (0 to 3) of palette `pal` (0 to 7) is the
/// system color that palette memory holds at $3F00 + 4 * `pal` + `px`
/// (taken modulo 64).
pub proof fn law_palette_entry(p: Ppu, m: Mirroring, px: u8, pal: u8)
    requires
        px <= 3,
        pal <= 7,
    ensures
        p.color_of(m, (px, pal)) == p.palette.colors@[(p.vram_byte(m, (0x3F00 + 4 * pal + px) as u16) % 64) as int],
{
    lemma_masks(pal, 0, 0, 0);
}

} // verus!
