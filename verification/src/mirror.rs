use vstd::prelude::*;
use crate::bus_device::{BusDevice, BusDeviceRange};
use crate::cart::Cart;

verus! {

/// A bus device that also answers for a range of addresses.
pub trait RangedBusDevice: BusDevice + BusDeviceRange {}

impl<T: BusDevice + BusDeviceRange> RangedBusDevice for T {}

/// A range of addresses that repeats a smaller device: an address in the
/// range is sent to the device's start plus the address modulo the
/// device's size.
pub struct Mirror {
    pub start: u16,
    pub total_size: usize,
}

/// The address of the device behind a mirror that answers for `addr`.
pub open spec fn master_addr(master_start: u16, master_size: usize, addr: u16) -> int {
    master_start + addr % (master_size as u16)
}

impl Mirror {
    pub fn new(start: u16, total_size: usize) -> (r: Self)
        ensures
            r.start == start,
            r.total_size == total_size,
    {
        Mirror { start, total_size }
    }

    /// Whether the mirror answers for `addr`.
    pub open spec fn covers(&self, addr: u16) -> bool {
        self.start <= addr && addr < self.start + self.total_size
    }

    /// An access to `addr` through the mirror is handled without a panic:
    /// the mirror's range ends within a `usize`, and for an address in the
    /// range the device's size is not a multiple of $10000, the mirrored
    /// address is a `u16`, and the device can take an access to it.
    pub open spec fn access_ok<D: RangedBusDevice>(&self, master: &D, addr: u16) -> bool {
        &&& self.start + self.total_size <= usize::MAX
        &&& self.covers(addr) ==> {
            &&& (master.size_spec() as u16) != 0
            &&& master_addr(master.start_spec(), master.size_spec(), addr) <= 0xFFFF
            &&& D::access_ok(
                master@,
                master_addr(master.start_spec(), master.size_spec(), addr) as u16,
            )
        }
    }

    fn mirrored(&self, master_start: u16, master_size: usize, addr: u16) -> (r: u16)
        requires
            (master_size as u16) != 0,
            master_addr(master_start, master_size, addr) <= 0xFFFF,
        ensures
            r == master_addr(master_start, master_size, addr),
    {
        master_start + (addr % (master_size as u16))
    }

    /// Writes through the mirror: an address outside its range is declined,
    /// one inside is written to the device at the mirrored address.
    pub fn write<D: RangedBusDevice>(&mut self, master: &mut D, addr: u16, data: u8, cart: &mut Cart) -> (r: Option<()>)
        requires
            old(self).access_ok(&*old(master), addr),
        ensures
            *final(self) == *old(self),
            *final(cart) == *old(cart),
            !old(self).covers(addr) ==> r.is_none() && *final(master) == *old(master),
            old(self).covers(addr) ==> {
                let a = master_addr(old(master).start_spec(), old(master).size_spec(), addr) as u16;
                &&& r == D::write_spec(old(master)@, a, data)
                &&& final(master)@ == D::after_write(old(master)@, a, data)
            },
    {
        if !self.in_range(addr) {
            return None;
        }
        let master_addr: u16 = self.mirrored(master.start(), master.size(), addr);
        master.write(master_addr, data, cart)
    }

    /// Reads through the mirror.
    pub fn read<D: RangedBusDevice>(&mut self, master: &mut D, addr: u16, cart: &Cart) -> (r: Option<u8>)
        requires
            old(self).access_ok(&*old(master), addr),
        ensures
            *final(self) == *old(self),
            !old(self).covers(addr) ==> r.is_none() && *final(master) == *old(master),
            old(self).covers(addr) ==> {
                let a = master_addr(old(master).start_spec(), old(master).size_spec(), addr) as u16;
                &&& r == D::read_spec(old(master)@, a)
                &&& final(master)@ == D::after_read(old(master)@, a)
            },
    {
        if !self.in_range(addr) {
            return None;
        }
        let master_addr: u16 = self.mirrored(master.start(), master.size(), addr);
        master.read(master_addr, cart)
    }

    /// Reads through the mirror without side effects.
    pub fn safe_read<D: RangedBusDevice>(&self, master: &D, addr: u16, cart: &Cart) -> (r: Option<u8>)
        requires
            self.access_ok(master, addr),
        ensures
            !self.covers(addr) ==> r.is_none(),
            self.covers(addr) ==> r == D::safe_read_spec(
                master@,
                master_addr(master.start_spec(), master.size_spec(), addr) as u16,
            ),
    {
        if !self.in_range(addr) {
            return None;
        }
        let master_addr: u16 = self.mirrored(master.start(), master.size(), addr);
        master.safe_read(master_addr, cart)
    }
}

impl BusDeviceRange for Mirror {
    open spec fn start_spec(&self) -> u16 {
        self.start
    }

    open spec fn size_spec(&self) -> usize {
        self.total_size
    }

    fn start(&self) -> (r: u16) {
        self.start
    }

    fn size(&self) -> (r: usize) {
        self.total_size
    }
}

/// Addresses that lie a multiple of the device's size apart reach the same
/// address of the device through the mirror.
pub proof fn law_mirror_aliases(master_start: u16, master_size: usize, a: u16, k: int)
    requires
        (master_size as u16) != 0,
        0 <= a + k * (master_size as u16) <= 0xFFFF,
    ensures
        master_addr(master_start, master_size, a) == master_addr(
            master_start,
            master_size,
            (a + k * (master_size as u16)) as u16,
        ),
{
    let n: int = (master_size as u16) as int;
    vstd::arithmetic::div_mod::lemma_mod_multiples_vanish(k, a as int, n);
    assert(n * k == k * n) by (nonlinear_arith);
}

} // verus!
