use vstd::prelude::*;
use crate::bus_device::{BusDevice, BusDeviceRange};
use crate::cart::Cart;

verus! {

/// 24-bit sRGB color
#[derive(Debug, PartialEq, Eq, Clone, Copy, Structural)]
pub struct Color {
    pub r: u8,
    pub g: u8,
    pub b: u8,
}

/// NES color palette
pub struct Palette {
    /// The sRGB colors that the NES is capable of displaying.
    pub colors: [Color; 64],
    /// The live palette: each byte is an index into `colors`.
    pub map: [u8; 32],
}

/// The colors of a palette file: 64 colors of three bytes, red, green and
/// blue.
pub open spec fn colors_of(bytes: Seq<u8>) -> Seq<Color> {
    Seq::new(64, |i: int| Color { r: bytes[3 * i], g: bytes[3 * i + 1], b: bytes[3 * i + 2] })
}

/// The index into the palette map of a palette address: the low five bits,
/// where the backdrop entries of the sprite palettes ($10, $14, $18, $1C)
/// are those of the background palettes.
pub open spec fn palette_index(addr: u16) -> int {
    let a = addr & 0x001Fu16;
    if a == 0x10 || a == 0x14 || a == 0x18 || a == 0x1C {
        (a - 0x10) as int
    } else {
        a as int
    }
}

/// Palette memory has 32 entries, and the first entry of each sprite
/// palette ($3F10, $3F14, $3F18, $3F1C) is the first entry of the
/// background palette below it ($3F00, $3F04, $3F08, $3F0C).
pub proof fn law_palette_mirrors(addr: u16)
    ensures
        0 <= palette_index(addr) < 32,
        addr & 0x0013u16 == 0x0010 ==> palette_index(addr) == palette_index(addr ^ 0x0010u16),
{
    let a = addr & 0x001Fu16;
    let b = (addr ^ 0x0010u16) & 0x001Fu16;
    assert(a <= 31 && (addr & 0x0013u16 == 0x0010 ==> (a == 0x10 || a == 0x14 || a == 0x18 || a == 0x1C)
        && b == a - 0x10 && b != 0x10 && b != 0x14 && b != 0x18 && b != 0x1C)) by (bit_vector)
        requires
            a == addr & 0x001Fu16,
            b == (addr ^ 0x0010u16) & 0x001Fu16,
    ;
}

/// The index into the palette map of a palette address.
pub fn addr_to_palette_map_index(addr_: u16) -> (r: usize)
    ensures
        r == palette_index(addr_),
        r < 32,
{
    // Only the index within the 32 entries matters:
    let mut addr: u16 = addr_ & 0x001F;
    assert(addr_ & 0x001Fu16 < 32) by (bit_vector);
    // The sprite palettes share their backdrop entry with the background
    // palettes.
    if addr == 0x0010 {
        addr = 0x0000;
    }
    if addr == 0x0014 {
        addr = 0x0004;
    }
    if addr == 0x0018 {
        addr = 0x0008;
    }
    if addr == 0x001C {
        addr = 0x000C;
    }
    addr as usize
}

impl Palette {
    /// A palette whose colors are all black and whose map is all zero.
    pub fn new() -> (r: Palette)
        ensures
            forall|i: int| 0 <= i < 64 ==> r.colors@[i] == (Color { r: 0, g: 0, b: 0 }),
            forall|i: int| 0 <= i < 32 ==> r.map@[i] == 0,
    {
        Palette { colors: [Color { r: 0, g: 0, b: 0 }; 64], map: [0x00; 32] }
    }

    /// A palette from the contents of a palette file: 64 colors of three
    /// bytes each.
    pub fn from_bytes(contents: &Vec<u8>) -> (r: Result<Palette, &'static str>)
        ensures
            contents@.len() != 192 ==> r == Err::<Palette, &'static str>(
                "File had size other than 192 (3 * 64) bytes",
            ),
            contents@.len() == 192 ==> (r matches Ok(p) && p.colors@ == colors_of(contents@)
                && forall|i: int| 0 <= i < 32 ==> p.map@[i] == 0),
    {
        if contents.len() != 192 {
            return Err("File had size other than 192 (3 * 64) bytes");
        }
        let mut palette = Palette::new();
        let mut index: usize = 0;
        while index < 192
            invariant
                contents@.len() == 192,
                index % 3 == 0,
                index <= 192,
                forall|i: int| 0 <= i < 32 ==> palette.map@[i] == 0,
                forall|i: int|
                    0 <= i < index / 3 ==> palette.colors@[i] == colors_of(contents@)[i],
            decreases 192 - index,
        {
            palette.colors[index / 3] = Color {
                r: contents[index + 0],
                g: contents[index + 1],
                b: contents[index + 2],
            };
            index += 3;
        }
        assert(palette.colors@ =~= colors_of(contents@));
        Ok(palette)
    }
}

impl View for Palette {
    type V = Seq<u8>;

    /// The palette as the bus sees it: its map.
    open spec fn view(&self) -> Seq<u8> {
        self.map@
    }
}

/// The palette answers for $3F00-$3FFF.
impl BusDeviceRange for Palette {
    open spec fn start_spec(&self) -> u16 {
        0x3F00
    }

    open spec fn size_spec(&self) -> usize {
        0x100
    }

    fn start(&self) -> (r: u16) {
        0x3F00
    }

    fn size(&self) -> (r: usize) {
        (0x3FFF - 0x3F00) + 1
    }
}

impl BusDevice for Palette {
    open spec fn access_ok(s: Seq<u8>, addr: u16) -> bool {
        s.len() == 32
    }

    open spec fn read_spec(s: Seq<u8>, addr: u16) -> Option<u8> {
        Self::safe_read_spec(s, addr)
    }

    open spec fn after_read(s: Seq<u8>, addr: u16) -> Seq<u8> {
        s
    }

    open spec fn safe_read_spec(s: Seq<u8>, addr: u16) -> Option<u8> {
        if 0x3F00 <= addr < 0x4000 {
            Some(s[palette_index(addr)])
        } else {
            None
        }
    }

    open spec fn write_spec(s: Seq<u8>, addr: u16, data: u8) -> Option<()> {
        if 0x3F00 <= addr < 0x4000 {
            Some(())
        } else {
            None
        }
    }

    open spec fn after_write(s: Seq<u8>, addr: u16, data: u8) -> Seq<u8> {
        if 0x3F00 <= addr < 0x4000 {
            s.update(palette_index(addr), data)
        } else {
            s
        }
    }

    /// Reads the palette map; the colors stay.
    fn read(&mut self, addr: u16, cart: &Cart) -> (r: Option<u8>)
        ensures
            *final(self) == *old(self),
    {
        self.safe_read(addr, cart)
    }

    /// Writes the palette map; the colors stay.
    fn write(&mut self, addr: u16, data: u8, cart: &mut Cart) -> (r: Option<()>)
        ensures
            final(self).colors == old(self).colors,
    {
        if !self.in_range(addr) {
            return None;
        }
        self.map[addr_to_palette_map_index(addr)] = data;
        Some(())
    }

    fn safe_read(&self, addr: u16, cart: &Cart) -> (r: Option<u8>) {
        if !self.in_range(addr) {
            return None;
        }
        Some(self.map[addr_to_palette_map_index(addr)])
    }
}

} // verus!
