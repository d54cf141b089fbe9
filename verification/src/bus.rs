use vstd::prelude::*;

verus! {

/// The 16-bit little-endian word made of two bytes.
pub open spec fn word(lo: u8, hi: u8) -> u16 {
    ((hi as u16) << 8u16) | (lo as u16)
}

/// A bus that a CPU reads from and writes to.
///
/// A bus is a deterministic machine: what a read returns, and the state that
/// a read or a write leaves behind, are functions of the bus state and of
/// the access. Reads may have effects (a device register that clears itself
/// when read), which is why a read takes `&mut self`; `safe_read` is the
/// side-effect free variant used by debuggers and tracers.
///
/// The state is observed through the bus's view (`@`); the four spec
/// functions below say what each access does to it.
pub trait Bus: View + Sized {
    /// The byte that `read` returns for `addr` in state `s`.
    spec fn peek(s: Self::V, addr: u16) -> u8;

    /// The byte that `safe_read` returns for `addr` in state `s`.
    spec fn safe_peek(s: Self::V, addr: u16) -> u8;

    /// The state that a `read` of `addr` leaves behind.
    spec fn after_read(s: Self::V, addr: u16) -> Self::V;

    /// The state that a `write` of `data` to `addr` leaves behind.
    spec fn after_write(s: Self::V, addr: u16, data: u8) -> Self::V;

    fn safe_read(&self, addr: u16) -> (r: u8)
        ensures
            r == Self::safe_peek(self@, addr),
    ;

    fn read(&mut self, addr: u16) -> (r: u8)
        ensures
            r == Self::peek(old(self)@, addr),
            final(self)@ == Self::after_read(old(self)@, addr),
    ;

    fn write(&mut self, addr: u16, data: u8)
        ensures
            final(self)@ == Self::after_write(old(self)@, addr, data),
    ;

    /// Reads the little-endian word at `addr` without side effects.
    fn safe_read16(&self, addr: u16) -> (r: u16)
        requires
            addr < 0xFFFF,
        ensures
            r == word(Self::safe_peek(self@, addr), Self::safe_peek(self@, (addr + 1) as u16)),
    {
        let lo: u8 = self.safe_read(addr);
        let hi: u8 = self.safe_read(addr + 1);
        ((hi as u16) << 8u16) | (lo as u16)
    }

    /// Reads the little-endian word at `addr`: the low byte first.
    fn read16(&mut self, addr: u16) -> (r: u16)
        requires
            addr < 0xFFFF,
        ensures
            r == word(
                Self::peek(old(self)@, addr),
                Self::peek(Self::after_read(old(self)@, addr), (addr + 1) as u16),
            ),
            final(self)@ == Self::after_read(
                Self::after_read(old(self)@, addr),
                (addr + 1) as u16,
            ),
    {
        let lo: u8 = self.read(addr);
        let hi: u8 = self.read(addr + 1);
        ((hi as u16) << 8u16) | (lo as u16)
    }

    /// Writes a little-endian word at `addr`: the low byte at `addr`, then
    /// the high byte at `addr + 1`.
    fn write16(&mut self, addr: u16, data: u16)
        requires
            addr < 0xFFFF,
        ensures
            final(self)@ == Self::after_write(
                Self::after_write(old(self)@, addr, (data & 0xFFu16) as u8),
                (addr + 1) as u16,
                (data >> 8u16) as u8,
            ),
    {
        let lo: u8 = (data & 0xFF) as u8;
        let hi: u8 = (data >> 8u16) as u8;
        self.write(addr, lo);
        self.write(addr + 1, hi);
    }
}

} // verus!
