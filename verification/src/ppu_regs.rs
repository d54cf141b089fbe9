use vstd::prelude::*;

verus! {

/// Bit `pos` of `x`.
pub open spec fn bit8(x: u8, pos: u8) -> bool {
    x & (1u8 << pos) != 0
}

/// `x` with bit `pos` set to `v`.
pub open spec fn with_bit8(x: u8, pos: u8, v: bool) -> u8 {
    if v {
        x | (1u8 << pos)
    } else {
        x & !(1u8 << pos)
    }
}

/// Bit `pos` of `x`.
pub open spec fn bit16(x: u16, pos: u16) -> bool {
    x & (1u16 << pos) != 0
}

/// `x` with bit `pos` set to `v`.
pub open spec fn with_bit16(x: u16, pos: u16, v: bool) -> u16 {
    if v {
        x | (1u16 << pos)
    } else {
        x & !(1u16 << pos)
    }
}

/// Sets bit `pos` of a byte.
fn set8(x: u8, pos: u8, v: bool) -> (r: u8)
    requires
        pos < 8,
    ensures
        r == with_bit8(x, pos, v),
{
    let bit: u8 = 1u8 << pos;
    if v {
        x | bit
    } else {
        x & !bit
    }
}

/// Sets bit `pos` of a word.
fn set16(x: u16, pos: u16, v: bool) -> (r: u16)
    requires
        pos < 16,
    ensures
        r == with_bit16(x, pos, v),
{
    let bit: u16 = 1u16 << pos;
    if v {
        x | bit
    } else {
        x & !bit
    }
}

/// Setting a bit of a byte: the bit then reads back as what was set, and
/// every other bit is unchanged.
pub proof fn lemma_with_bit8(x: u8, pos: u8, other: u8, v: bool)
    by (bit_vector)
    requires
        pos < 8,
        other < 8,
        other != pos,
    ensures
        bit8(with_bit8(x, pos, v), pos) == v,
        bit8(with_bit8(x, pos, v), other) == bit8(x, other),
        pos >= 5 ==> with_bit8(x, pos, v) & 0x1Fu8 == x & 0x1Fu8,
{
}

/// PPUSTATUS ($2002): sprite overflow in bit 5, sprite zero hit in bit 6,
/// vertical blank in bit 7.
pub trait StatusRegister: Sized {
    fn sprite_overflow(self) -> bool;
    fn sprite_zero_hit(self) -> bool;
    fn vblank(self) -> bool;
    fn set_sprite_overflow(self, v: bool) -> Self;
    fn set_sprite_zero_hit(self, v: bool) -> Self;
    fn set_vblank(self, v: bool) -> Self;
}

impl StatusRegister for u8 {
    fn vblank(self) -> (r: bool)
        ensures
            r == bit8(self, 7),
    {
        self & (1u8 << 7u8) != 0
    }

    fn sprite_zero_hit(self) -> (r: bool)
        ensures
            r == bit8(self, 6),
    {
        self & (1u8 << 6u8) != 0
    }

    fn sprite_overflow(self) -> (r: bool)
        ensures
            r == bit8(self, 5),
    {
        self & (1u8 << 5u8) != 0
    }

    fn set_vblank(self, v: bool) -> (r: u8)
        ensures
            r == with_bit8(self, 7, v),
    {
        set8(self, 7, v)
    }

    fn set_sprite_zero_hit(self, v: bool) -> (r: u8)
        ensures
            r == with_bit8(self, 6, v),
    {
        set8(self, 6, v)
    }

    fn set_sprite_overflow(self, v: bool) -> (r: u8)
        ensures
            r == with_bit8(self, 5, v),
    {
        set8(self, 5, v)
    }
}

/// PPUMASK ($2001): one rendering switch per bit, grayscale in bit 0 up to
/// blue emphasis in bit 7.
pub trait MaskRegister: Sized {
    fn grayscale(self) -> bool;
    fn render_background_left(self) -> bool;
    fn render_sprites_left(self) -> bool;
    fn render_background(self) -> bool;
    fn render_sprites(self) -> bool;
    fn enhance_red(self) -> bool;
    fn enhance_green(self) -> bool;
    fn enhance_blue(self) -> bool;
    fn set_grayscale(self, v: bool) -> Self;
    fn set_render_background_left(self, v: bool) -> Self;
    fn set_render_sprites_left(self, v: bool) -> Self;
    fn set_render_background(self, v: bool) -> Self;
    fn set_render_sprites(self, v: bool) -> Self;
    fn set_enhance_red(self, v: bool) -> Self;
    fn set_enhance_green(self, v: bool) -> Self;
    fn set_enhance_blue(self, v: bool) -> Self;
}

impl MaskRegister for u8 {
    fn grayscale(self) -> (r: bool)
        ensures
            r == bit8(self, 0),
    {
        self & (1u8 << 0u8) != 0
    }

    fn render_background_left(self) -> (r: bool)
        ensures
            r == bit8(self, 1),
    {
        self & (1u8 << 1u8) != 0
    }

    fn render_sprites_left(self) -> (r: bool)
        ensures
            r == bit8(self, 2),
    {
        self & (1u8 << 2u8) != 0
    }

    fn render_background(self) -> (r: bool)
        ensures
            r == bit8(self, 3),
    {
        self & (1u8 << 3u8) != 0
    }

    fn render_sprites(self) -> (r: bool)
        ensures
            r == bit8(self, 4),
    {
        self & (1u8 << 4u8) != 0
    }

    fn enhance_red(self) -> (r: bool)
        ensures
            r == bit8(self, 5),
    {
        self & (1u8 << 5u8) != 0
    }

    fn enhance_green(self) -> (r: bool)
        ensures
            r == bit8(self, 6),
    {
        self & (1u8 << 6u8) != 0
    }

    fn enhance_blue(self) -> (r: bool)
        ensures
            r == bit8(self, 7),
    {
        self & (1u8 << 7u8) != 0
    }

    fn set_grayscale(self, v: bool) -> (r: u8)
        ensures
            r == with_bit8(self, 0, v),
    {
        set8(self, 0, v)
    }

    fn set_render_background_left(self, v: bool) -> (r: u8)
        ensures
            r == with_bit8(self, 1, v),
    {
        set8(self, 1, v)
    }

    fn set_render_sprites_left(self, v: bool) -> (r: u8)
        ensures
            r == with_bit8(self, 2, v),
    {
        set8(self, 2, v)
    }

    fn set_render_background(self, v: bool) -> (r: u8)
        ensures
            r == with_bit8(self, 3, v),
    {
        set8(self, 3, v)
    }

    fn set_render_sprites(self, v: bool) -> (r: u8)
        ensures
            r == with_bit8(self, 4, v),
    {
        set8(self, 4, v)
    }

    fn set_enhance_red(self, v: bool) -> (r: u8)
        ensures
            r == with_bit8(self, 5, v),
    {
        set8(self, 5, v)
    }

    fn set_enhance_green(self, v: bool) -> (r: u8)
        ensures
            r == with_bit8(self, 6, v),
    {
        set8(self, 6, v)
    }

    fn set_enhance_blue(self, v: bool) -> (r: u8)
        ensures
            r == with_bit8(self, 7, v),
    {
        set8(self, 7, v)
    }
}

/// PPUCTRL ($2000): base nametable in bits 0-1, VRAM increment in bit 2,
/// pattern tables in bits 3-4, sprite size in bit 5, slave mode in bit 6,
/// and the NMI enable in bit 7.
pub trait ControlRegister: Sized {
    fn nametable_x(self) -> bool;
    fn nametable_y(self) -> bool;
    fn increment_mode(self) -> bool;
    fn pattern_fg_table(self) -> bool;
    fn pattern_bg_table(self) -> bool;
    fn tall_sprites(self) -> bool;
    fn slave_mode(self) -> bool;
    fn enable_nmi(self) -> bool;
    fn set_nametable_x(self, v: bool) -> Self;
    fn set_nametable_y(self, v: bool) -> Self;
    fn set_increment_mode(self, v: bool) -> Self;
    fn set_pattern_fg_table(self, v: bool) -> Self;
    fn set_pattern_background(self, v: bool) -> Self;
    fn set_tall_sprites(self, v: bool) -> Self;
    fn set_slave_mode(self, v: bool) -> Self;
    fn set_enable_nmi(self, v: bool) -> Self;
}

impl ControlRegister for u8 {
    fn nametable_x(self) -> (r: bool)
        ensures
            r == bit8(self, 0),
    {
        self & (1u8 << 0u8) != 0
    }

    fn nametable_y(self) -> (r: bool)
        ensures
            r == bit8(self, 1),
    {
        self & (1u8 << 1u8) != 0
    }

    fn increment_mode(self) -> (r: bool)
        ensures
            r == bit8(self, 2),
    {
        self & (1u8 << 2u8) != 0
    }

    fn pattern_fg_table(self) -> (r: bool)
        ensures
            r == bit8(self, 3),
    {
        self & (1u8 << 3u8) != 0
    }

    fn pattern_bg_table(self) -> (r: bool)
        ensures
            r == bit8(self, 4),
    {
        self & (1u8 << 4u8) != 0
    }

    fn tall_sprites(self) -> (r: bool)
        ensures
            r == bit8(self, 5),
    {
        self & (1u8 << 5u8) != 0
    }

    fn slave_mode(self) -> (r: bool)
        ensures
            r == bit8(self, 6),
    {
        self & (1u8 << 6u8) != 0
    }

    fn enable_nmi(self) -> (r: bool)
        ensures
            r == bit8(self, 7),
    {
        self & (1u8 << 7u8) != 0
    }

    fn set_nametable_x(self, v: bool) -> (r: u8)
        ensures
            r == with_bit8(self, 0, v),
    {
        set8(self, 0, v)
    }

    fn set_nametable_y(self, v: bool) -> (r: u8)
        ensures
            r == with_bit8(self, 1, v),
    {
        set8(self, 1, v)
    }

    fn set_increment_mode(self, v: bool) -> (r: u8)
        ensures
            r == with_bit8(self, 2, v),
    {
        set8(self, 2, v)
    }

    fn set_pattern_fg_table(self, v: bool) -> (r: u8)
        ensures
            r == with_bit8(self, 3, v),
    {
        set8(self, 3, v)
    }

    fn set_pattern_background(self, v: bool) -> (r: u8)
        ensures
            r == with_bit8(self, 4, v),
    {
        set8(self, 4, v)
    }

    fn set_tall_sprites(self, v: bool) -> (r: u8)
        ensures
            r == with_bit8(self, 5, v),
    {
        set8(self, 5, v)
    }

    fn set_slave_mode(self, v: bool) -> (r: u8)
        ensures
            r == with_bit8(self, 6, v),
    {
        set8(self, 6, v)
    }

    fn set_enable_nmi(self, v: bool) -> (r: u8)
        ensures
            r == with_bit8(self, 7, v),
    {
        set8(self, 7, v)
    }
}

/// The fields of the PPU's internal VRAM address ("loopy" register):
/// coarse X in bits 0-4, coarse Y in bits 5-9, the nametable in bits 10
/// and 11, fine Y in bits 12-14, and an unused bit 15.
pub open spec fn coarse_x_of(x: u16) -> u8 {
    (x & 0x001Fu16) as u8
}

pub open spec fn coarse_y_of(x: u16) -> u8 {
    ((x & 0x03E0u16) >> 5u16) as u8
}

pub open spec fn fine_y_of(x: u16) -> u8 {
    ((x & 0x7000u16) >> 12u16) as u8
}

/// The loopy register with coarse X replaced by `v` (not masked: bits of
/// `v` above the field are or-ed into the fields above).
pub open spec fn with_coarse_x(x: u16, v: u8) -> u16 {
    (x & 0xFFE0u16) | (v as u16)
}

/// The loopy register with coarse Y replaced by `v` (not masked).
pub open spec fn with_coarse_y(x: u16, v: u8) -> u16 {
    (x & 0xFC1Fu16) | ((v as u16) << 5u16)
}

/// The loopy register with fine Y replaced by `v` (not masked).
pub open spec fn with_fine_y(x: u16, v: u8) -> u16 {
    (x & 0x8FFFu16) | ((v as u16) << 12u16)
}

/// The PPU's 15-bit VRAM address registers, as fields.
pub trait LoopyRegister: Sized {
    fn coarse_x(self) -> u8;
    fn coarse_y(self) -> u8;
    fn nametable_x(self) -> bool;
    fn nametable_y(self) -> bool;
    fn fine_y(self) -> u8;
    fn unused(self) -> bool;
    fn set_coarse_x(self, v: u8) -> Self;
    fn set_coarse_y(self, v: u8) -> Self;
    fn set_nametable_x(self, v: bool) -> Self;
    fn set_nametable_y(self, v: bool) -> Self;
    fn set_fine_y(self, v: u8) -> Self;
    fn set_unused(self, v: bool) -> Self;
}

impl LoopyRegister for u16 {
    fn coarse_x(self) -> (r: u8)
        ensures
            r == coarse_x_of(self),
    {
        (self & 0x001F) as u8
    }

    fn coarse_y(self) -> (r: u8)
        ensures
            r == coarse_y_of(self),
    {
        ((self & 0x03E0) >> 5) as u8
    }

    fn nametable_x(self) -> (r: bool)
        ensures
            r == bit16(self, 10),
    {
        self & (1u16 << 10u16) != 0
    }

    fn nametable_y(self) -> (r: bool)
        ensures
            r == bit16(self, 11),
    {
        self & (1u16 << 11u16) != 0
    }

    fn fine_y(self) -> (r: u8)
        ensures
            r == fine_y_of(self),
    {
        ((self & 0x7000) >> 12) as u8
    }

    fn unused(self) -> (r: bool)
        ensures
            r == bit16(self, 15),
    {
        self & (1u16 << 15u16) != 0
    }

    fn set_coarse_x(self, v: u8) -> (r: u16)
        ensures
            r == with_coarse_x(self, v),
    {
        (self & 0xFFE0) | (v as u16)
    }

    fn set_coarse_y(self, v: u8) -> (r: u16)
        ensures
            r == with_coarse_y(self, v),
    {
        (self & 0xFC1F) | ((v as u16) << 5)
    }

    fn set_nametable_x(self, v: bool) -> (r: u16)
        ensures
            r == with_bit16(self, 10, v),
    {
        set16(self, 10, v)
    }

    fn set_nametable_y(self, v: bool) -> (r: u16)
        ensures
            r == with_bit16(self, 11, v),
    {
        set16(self, 11, v)
    }

    fn set_fine_y(self, v: u8) -> (r: u16)
        ensures
            r == with_fine_y(self, v),
    {
        (self & 0x8FFF) | ((v as u16) << 12)
    }

    fn set_unused(self, v: bool) -> (r: u16)
        ensures
            r == with_bit16(self, 15, v),
    {
        set16(self, 15, v)
    }
}

/// Setting a loopy field to a value that fits it: the field reads back as
/// that value and every other field is unchanged.
pub proof fn lemma_loopy_fields(x: u16, v: u8)
    by (bit_vector)
    requires
        v < 32,
    ensures
        coarse_x_of(with_coarse_x(x, v)) == v,
        coarse_y_of(with_coarse_x(x, v)) == coarse_y_of(x),
        fine_y_of(with_coarse_x(x, v)) == fine_y_of(x),
        with_coarse_x(x, v) & 0x8C00u16 == x & 0x8C00u16,
        coarse_y_of(with_coarse_y(x, v)) == v,
        coarse_x_of(with_coarse_y(x, v)) == coarse_x_of(x),
        fine_y_of(with_coarse_y(x, v)) == fine_y_of(x),
        with_coarse_y(x, v) & 0x8C00u16 == x & 0x8C00u16,
        v < 8 ==> fine_y_of(with_fine_y(x, v)) == v,
        v < 8 ==> coarse_x_of(with_fine_y(x, v)) == coarse_x_of(x),
        v < 8 ==> coarse_y_of(with_fine_y(x, v)) == coarse_y_of(x),
        v < 8 ==> with_fine_y(x, v) & 0x8C00u16 == x & 0x8C00u16,
{
}

/// 0b0100_0001 -> 0b1000_0010: the bits of a byte in reverse order.
pub open spec fn flipped(bits: u8) -> u8 {
    0x00u8 | (bits & 0x80u8) >> 7u8 | (bits & 0x40u8) >> 5u8 | (bits & 0x20u8) >> 3u8 | (bits & 0x10u8)
        >> 1u8 | (bits & 0x08u8) << 1u8 | (bits & 0x04u8) << 3u8 | (bits & 0x02u8) << 5u8 | (bits
        & 0x01u8) << 7u8
}

/// Reverses the bits of a byte, to draw a sprite flipped horizontally.
pub fn flip(bits: u8) -> (r: u8)
    ensures
        r == flipped(bits),
{
    0x00 | (bits & 0b1000_0000) >> 7 | (bits & 0b0100_0000) >> 5 | (bits & 0b0010_0000) >> 3 | (bits
        & 0b0001_0000) >> 1 | (bits & 0b0000_1000) << 1 | (bits & 0b0000_0100) << 3 | (bits
        & 0b0000_0010) << 5 | (bits & 0b0000_0001) << 7
}

/// Flipping twice gives the byte back, and bit `i` of the flipped byte is
/// bit `7 - i` of the byte.
pub proof fn lemma_flip(bits: u8, i: u8)
    by (bit_vector)
    requires
        i < 8,
    ensures
        flipped(flipped(bits)) == bits,
        bit8(flipped(bits), i) == bit8(bits, (7 - i) as u8),
{
}

} // verus!
