use vstd::prelude::*;
use crate::cart::Cart;

verus! {

/// A device on the CPU bus that answers for some addresses.
///
/// A device answers `None` for an address it does not handle, so that the
/// bus can ask the next one. Its state is observed through its view; the
/// spec functions say what each access answers and leaves behind. No device
/// here reads or changes the cartridge that is handed to it.
pub trait BusDevice: View + Sized {
    /// An access to `addr` in state `s` is handled without a panic.
    spec fn access_ok(s: Self::V, addr: u16) -> bool;

    /// What `read` answers for `addr` in state `s`.
    spec fn read_spec(s: Self::V, addr: u16) -> Option<u8>;

    /// The state that a `read` of `addr` leaves behind.
    spec fn after_read(s: Self::V, addr: u16) -> Self::V;

    /// What `safe_read` answers for `addr` in state `s`.
    spec fn safe_read_spec(s: Self::V, addr: u16) -> Option<u8>;

    /// What `write` answers for a write of `data` to `addr`.
    spec fn write_spec(s: Self::V, addr: u16, data: u8) -> Option<()>;

    /// The state that a `write` of `data` to `addr` leaves behind.
    spec fn after_write(s: Self::V, addr: u16, data: u8) -> Self::V;

    fn read(&mut self, addr: u16, cart: &Cart) -> (r: Option<u8>)
        requires
            Self::access_ok(old(self)@, addr),
        ensures
            r == Self::read_spec(old(self)@, addr),
            final(self)@ == Self::after_read(old(self)@, addr),
    ;

    fn write(&mut self, addr: u16, data: u8, cart: &mut Cart) -> (r: Option<()>)
        requires
            Self::access_ok(old(self)@, addr),
        ensures
            r == Self::write_spec(old(self)@, addr, data),
            final(self)@ == Self::after_write(old(self)@, addr, data),
            *final(cart) == *old(cart),
    ;

    fn safe_read(&self, addr: u16, cart: &Cart) -> (r: Option<u8>)
        requires
            Self::access_ok(self@, addr),
        ensures
            r == Self::safe_read_spec(self@, addr),
    ;
}

/// A device that answers for a contiguous range of addresses.
pub trait BusDeviceRange {
    spec fn start_spec(&self) -> u16;

    spec fn size_spec(&self) -> usize;

    fn start(&self) -> (r: u16)
        ensures
            r == self.start_spec(),
    ;

    fn size(&self) -> (r: usize)
        ensures
            r == self.size_spec(),
    ;

    /// Whether `addr` falls in `start .. start + size`.
    fn in_range(&self, addr: u16) -> (r: bool)
        requires
            self.start_spec() + self.size_spec() <= usize::MAX,
        ensures
            r == (self.start_spec() <= addr && addr < self.start_spec() + self.size_spec()),
    {
        let start: u16 = self.start();
        let size: usize = self.size();
        addr >= start && (addr as usize) < (start as usize) + size
    }
}

} // verus!
