use vstd::prelude::*;
use crate::bus_device::BusDevice;
use crate::cart::Cart;

verus! {

/// The buttons of a standard controller; `true` is pressed.
#[derive(Debug, PartialEq, Eq, Clone, Copy, Structural)]
pub struct Controller {
    pub a: bool,
    pub b: bool,
    pub select: bool,
    pub start: bool,
    pub up: bool,
    pub down: bool,
    pub left: bool,
    pub right: bool,
}

/// One bit for a button.
pub open spec fn bit(b: bool) -> u8 {
    if b { 1 } else { 0 }
}

/// The byte the controller's shift register is loaded with: A in bit 7,
/// then B, Select, Start, Up, Down, Left, and Right in bit 0.
pub open spec fn controller_byte(c: Controller) -> u8 {
    (bit(c.a) * 128 + bit(c.b) * 64 + bit(c.select) * 32 + bit(c.start) * 16 + bit(c.up) * 8
        + bit(c.down) * 4 + bit(c.left) * 2 + bit(c.right)) as u8
}

/// A controller with no button pressed.
pub open spec fn released() -> Controller {
    Controller {
        a: false,
        b: false,
        select: false,
        start: false,
        up: false,
        down: false,
        left: false,
        right: false,
    }
}

impl Controller {
    /// A controller with no button pressed.
    pub fn new() -> (r: Controller)
        ensures
            r == released(),
    {
        Controller {
            a: false,
            b: false,
            select: false,
            start: false,
            up: false,
            down: false,
            left: false,
            right: false,
        }
    }
}

fn bit_exec(b: bool) -> (r: u8)
    ensures
        r == bit(b),
{
    if b { 1 } else { 0 }
}

/// The byte that a controller loads into its shift register (see
/// `controller_byte`).
pub fn controller_to_byte(controller: Controller) -> (result: u8)
    ensures
        result == controller_byte(controller),
{
    // Each button is or-ed into the low bit and shifted up, A first.
        let a: u8 = bit_exec(controller.a);
        let b: u8 = bit_exec(controller.b);
        let select: u8 = bit_exec(controller.select);
        let start: u8 = bit_exec(controller.start);
        let up: u8 = bit_exec(controller.up);
        let down: u8 = bit_exec(controller.down);
        let left: u8 = bit_exec(controller.left);
        let right: u8 = bit_exec(controller.right);
        let mut result: u8 = 0b00000000;
        result = (result | a) << 1;
        let ghost r1: u8 = result;
        result = (result | b) << 1;
        let ghost r2: u8 = result;
        result = (result | select) << 1;
        let ghost r3: u8 = result;
        result = (result | start) << 1;
        let ghost r4: u8 = result;
        result = (result | up) << 1;
        let ghost r5: u8 = result;
        result = (result | down) << 1;
        let ghost r6: u8 = result;
        result = (result | left) << 1;
        let ghost r7: u8 = result;
        result = result | right;
        assert(result == (a * 128 + b * 64 + select * 32 + start * 16 + up * 8 + down * 4 + left * 2
            + right) as u8) by (bit_vector)
            requires
                r1 == (0u8 | a) << 1u8,
                r2 == (r1 | b) << 1u8,
                r3 == (r2 | select) << 1u8,
                r4 == (r3 | start) << 1u8,
                r5 == (r4 | up) << 1u8,
                r6 == (r5 | down) << 1u8,
                r7 == (r6 | left) << 1u8,
                result == r7 | right,
                a <= 1,
                b <= 1,
                select <= 1,
                start <= 1,
                up <= 1,
                down <= 1,
                left <= 1,
                right <= 1,
        ;
        assert(result == controller_byte(controller));
        result
}



/// The controller ports at $4016 and $4017.
pub struct Peripherals {
    pub controllers: [Controller; 2],
    pub controller_shifts: [u8; 2],
}

/// The state of the controller ports: the buttons held and the two shift
/// registers.
pub struct PeripheralsView {
    pub controllers: Seq<Controller>,
    pub shifts: Seq<u8>,
}

impl View for Peripherals {
    type V = PeripheralsView;

    open spec fn view(&self) -> PeripheralsView {
        PeripheralsView { controllers: self.controllers@, shifts: self.controller_shifts@ }
    }
}

/// The port that a read of $4016 or $4017 addresses.
pub open spec fn port_of(addr: u16) -> int {
    if addr == 0x4016 { 0 } else { 1 }
}

impl Peripherals {
    pub fn new() -> (r: Peripherals)
        ensures
            r.controllers@ == seq![released(), released()],
            r.controller_shifts@ == seq![0u8, 0u8],
    {
        let r = Peripherals {
            controllers: [Controller::new(), Controller::new()],
            controller_shifts: [0x00, 0x00],
        };
        assert(r.controller_shifts@ =~= seq![0u8, 0u8]);
        assert(r.controllers@ =~= seq![released(), released()]);
        r
    }
}

/// The controller ports on the bus: a write to $4016 latches both
/// controllers into their shift registers, and each read of $4016 or
/// $4017 shifts one button out of that port, A first.
impl BusDevice for Peripherals {
    open spec fn access_ok(s: PeripheralsView, addr: u16) -> bool {
        true
    }

    open spec fn read_spec(s: PeripheralsView, addr: u16) -> Option<u8> {
        if addr == 0x4016 || addr == 0x4017 {
            Some(if s.shifts[port_of(addr)] & 0x80u8 != 0 { 1u8 } else { 0u8 })
        } else {
            None
        }
    }

    open spec fn after_read(s: PeripheralsView, addr: u16) -> PeripheralsView {
        if addr == 0x4016 || addr == 0x4017 {
            PeripheralsView {
                shifts: s.shifts.update(port_of(addr), ((s.shifts[port_of(addr)] as u8) << 1u8) as u8),
                ..s
            }
        } else {
            s
        }
    }

    open spec fn safe_read_spec(s: PeripheralsView, addr: u16) -> Option<u8> {
        None
    }

    open spec fn write_spec(s: PeripheralsView, addr: u16, data: u8) -> Option<()> {
        if addr == 0x4016 {
            Some(())
        } else {
            None
        }
    }

    open spec fn after_write(s: PeripheralsView, addr: u16, data: u8) -> PeripheralsView {
        if addr == 0x4016 {
            PeripheralsView {
                shifts: seq![controller_byte(s.controllers[0]), controller_byte(s.controllers[1])],
                ..s
            }
        } else {
            s
        }
    }

    fn write(&mut self, addr: u16, data: u8, cart: &mut Cart) -> (r: Option<()>) {
        if addr == 0x4016 {
            // Store our controller state into the bit shift register buffer:
            self.controller_shifts[0] = controller_to_byte(self.controllers[0]);
            self.controller_shifts[1] = controller_to_byte(self.controllers[1]);
            assert(self.controller_shifts@ =~= seq![
                controller_byte(old(self).controllers@[0]),
                controller_byte(old(self).controllers@[1]),
            ]);
            return Some(());
        }
        None
    }

    fn read(&mut self, addr: u16, cart: &Cart) -> (r: Option<u8>) {
        if addr == 0x4016 || addr == 0x4017 {
            let num: usize = if addr == 0x4016 { 0 } else { 1 };
            // Read the high bit from the controller shift register:
            let bit: bool = (self.controller_shifts[num] & 0b1000_0000) != 0;
            // Shift the controller shift register:
            self.controller_shifts[num] = self.controller_shifts[num] << 1;
            assert(self.controller_shifts@ =~= old(self).controller_shifts@.update(
                num as int,
                ((old(self).controller_shifts@[num as int] as u8) << 1u8) as u8,
            ));
            // Bit 0 is the button's status.
            Some(if bit { 1 } else { 0 })
        } else {
            None
        }
    }

    fn safe_read(&self, addr: u16, cart: &Cart) -> (r: Option<u8>) {
        None
    }
}

/// Button `k` of a controller, in the order that its shift register sends
/// them: A, B, Select, Start, Up, Down, Left, Right.
pub open spec fn button(c: Controller, k: int) -> bool {
    if k == 0 {
        c.a
    } else if k == 1 {
        c.b
    } else if k == 2 {
        c.select
    } else if k == 3 {
        c.start
    } else if k == 4 {
        c.up
    } else if k == 5 {
        c.down
    } else if k == 6 {
        c.left
    } else {
        c.right
    }
}

/// The controller ports after `k` reads of `addr`.
pub open spec fn after_reads(s: PeripheralsView, addr: u16, k: nat) -> PeripheralsView
    decreases k,
{
    if k == 0 {
        s
    } else {
        Peripherals::after_read(after_reads(s, addr, (k - 1) as nat), addr)
    }
}

proof fn lemma_shift_bits(x: u8, k: u8)
    by (bit_vector)
    requires
        k < 8,
    ensures
        x << 0u8 == x,
        ((x << k) << 1u8) == x << ((k + 1) as u8),
{
}

/// Bit 7 of a controller's byte shifted left `k` times is button `k`.
proof fn lemma_button_bits(a: u8, b: u8, c: u8, d: u8, e: u8, f: u8, g: u8, h: u8, k: u8)
    by (bit_vector)
    requires
        a <= 1,
        b <= 1,
        c <= 1,
        d <= 1,
        e <= 1,
        f <= 1,
        g <= 1,
        h <= 1,
        k < 8,
    ensures
        ((((a * 128 + b * 64 + c * 32 + d * 16 + e * 8 + f * 4 + g * 2 + h) as u8) << k) & 0x80u8 != 0) == if k
            == 0 {
            a == 1
        } else if k == 1 {
            b == 1
        } else if k == 2 {
            c == 1
        } else if k == 3 {
            d == 1
        } else if k == 4 {
            e == 1
        } else if k == 5 {
            f == 1
        } else if k == 6 {
            g == 1
        } else {
            h == 1
        },
{
}

proof fn lemma_after_reads(t: PeripheralsView, port: u16, k: nat)
    requires
        port == 0x4016 || port == 0x4017,
        t.shifts.len() == 2,
        k < 8,
    ensures
        after_reads(t, port, k).shifts.len() == 2,
        after_reads(t, port, k).controllers == t.controllers,
        after_reads(t, port, k).shifts[port_of(port)] == (t.shifts[port_of(port)] as u8) << (k as u8),
    decreases k,
{
    lemma_shift_bits(t.shifts[port_of(port)], 0);
    if k > 0 {
        lemma_after_reads(t, port, (k - 1) as nat);
        lemma_shift_bits(t.shifts[port_of(port)], (k - 1) as u8);
    }
}

/// After a strobe (a write to $4016), the reads of $4016 answer the
/// buttons of the first controller one by one, and those of $4017 the
/// buttons of the second: A, B, Select, Start, Up, Down, Left, Right, 1
/// for a button that is held.
pub proof fn law_controller_reads(s: PeripheralsView, data: u8, port: u16, k: nat)
    requires
        port == 0x4016 || port == 0x4017,
        s.controllers.len() == 2,
        s.shifts.len() == 2,
        k < 8,
    ensures
        Peripherals::read_spec(after_reads(Peripherals::after_write(s, 0x4016, data), port, k), port) == Some(
            if button(s.controllers[port_of(port)], k as int) { 1u8 } else { 0u8 },
        ),
{
    let t = Peripherals::after_write(s, 0x4016, data);
    lemma_after_reads(t, port, k);
    let c = s.controllers[port_of(port)];
    lemma_button_bits(bit(c.a), bit(c.b), bit(c.select), bit(c.start), bit(c.up), bit(c.down), bit(c.left), bit(c.right), k as u8);
}

} // verus!
