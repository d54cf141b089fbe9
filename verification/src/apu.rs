use vstd::prelude::*;
use crate::cart::Cart;

verus! {

/// The length counter load value of a 5-bit length index (bits 7-3 of a
/// length register).
pub open spec fn length_table() -> Seq<u8> {
    seq![
        10u8, 254, 20, 2, 40, 4, 80, 6, 160, 8, 60, 10, 14, 12, 26, 14, 12, 16, 24, 18, 48, 20, 96, 22,
        192, 24, 72, 26, 16, 28, 32, 30,
    ]
}

/// The noise timer period of a 4-bit period index.
pub open spec fn noise_period_table() -> Seq<u16> {
    seq![4u16, 8, 16, 32, 64, 96, 128, 160, 202, 254, 380, 508, 762, 1016, 2034, 4068]
}

/// The DMC timer period of a 4-bit rate index.
pub open spec fn dmc_rate_table() -> Seq<u16> {
    seq![428u16, 380, 340, 320, 286, 254, 226, 214, 190, 160, 142, 128, 106, 84, 72, 54]
}

/// Bounds and identities of the masked register bits that the APU uses.
proof fn lemma_apu_bits(x: u8, r: u16, sh: u16)
    by (bit_vector)
    ensures
        r <= 0x7FF && sh <= 7 ==> r >> sh <= 0x7FF,
        x & 0x1Fu8 < 32,
        x & 0x0Fu8 < 16,
        x & 0x07u8 < 8,
        x & 0x7Fu8 < 128,
        (x & 0xF8u8) >> 3u8 == x >> 3u8,
        x >> 3u8 < 32,
        (x & 0x0Fu8) & 0x0Fu8 == x & 0x0Fu8,
        ((x & 0xF8u8) >> 3u8) & 0x1Fu8 == x >> 3u8,
        (x & 0xC0u8) >> 6u8 < 4,
        (x & 0x70u8) >> 4u8 < 8,
        r <= 0x7FF ==> (r & 0xFF00u16) | (x as u16) <= 0x7FF,
        (((x as u16) & 0x07u16) << 8u16) | (r & 0x00FFu16) <= 0x7FF,
        r <= 0x7FF ==> r >> ((x & 0x07u8) as u16) <= 0x7FF,
{
}

/// The length counter load value for a length index (its low five bits).
pub fn get_length_counter(pattern: u8) -> (r: u8)
    ensures
        r == length_table()[(pattern & 0x1Fu8) as int],
{
    let i: u8 = pattern & 0b0001_1111;
    proof {
        lemma_apu_bits(pattern, 0, 0);
    }
    // Odd indices load lengths for notes; even indices load lengths for
    // note values at two tempos.
    let r: u8 = if i == 0x1F { 30 } else if i == 0x1D { 28 } else if i == 0x1B { 26 } else if i == 0x19 {
        24
    } else if i == 0x17 { 22 } else if i == 0x15 { 20 } else if i == 0x13 { 18 } else if i == 0x11 {
        16
    } else if i == 0x0F { 14 } else if i == 0x0D { 12 } else if i == 0x0B { 10 } else if i == 0x09 {
        8
    } else if i == 0x07 { 6 } else if i == 0x05 { 4 } else if i == 0x03 { 2 } else if i == 0x01 {
        254
    } else if i == 0x1E { 32 } else if i == 0x1C { 16 } else if i == 0x1A { 72 } else if i == 0x18 {
        192
    } else if i == 0x16 { 96 } else if i == 0x14 { 48 } else if i == 0x12 { 24 } else if i == 0x10 {
        12
    } else if i == 0x0E { 26 } else if i == 0x0C { 14 } else if i == 0x0A { 60 } else if i == 0x08 {
        160
    } else if i == 0x06 { 80 } else if i == 0x04 { 40 } else if i == 0x02 { 20 } else { 10 };
    r
}

/// The noise timer period for a period index (its low four bits).
pub fn get_noise_sequencer_period(data: u8) -> (r: u16)
    ensures
        r == noise_period_table()[(data & 0x0Fu8) as int],
{
    let i: u8 = data & 0b0000_1111;
    proof {
        lemma_apu_bits(data, 0, 0);
    }
    if i == 0x0 { 4 } else if i == 0x1 { 8 } else if i == 0x2 { 16 } else if i == 0x3 { 32 } else if i
        == 0x4 { 64 } else if i == 0x5 { 96 } else if i == 0x6 { 128 } else if i == 0x7 { 160 } else if i
        == 0x8 { 202 } else if i == 0x9 { 254 } else if i == 0xA { 380 } else if i == 0xB { 508 } else if i
        == 0xC { 762 } else if i == 0xD { 1016 } else if i == 0xE { 2034 } else { 4068 }
}

/// The DMC timer period for a rate index (its low four bits).
pub fn get_dmc_rate(data: u8) -> (r: u16)
    ensures
        r == dmc_rate_table()[(data & 0x0Fu8) as int],
{
    let i: u8 = data & 0b0000_1111;
    proof {
        lemma_apu_bits(data, 0, 0);
    }
    if i == 0x0 { 428 } else if i == 0x1 { 380 } else if i == 0x2 { 340 } else if i == 0x3 { 320 } else if i
        == 0x4 { 286 } else if i == 0x5 { 254 } else if i == 0x6 { 226 } else if i == 0x7 { 214 } else if i
        == 0x8 { 190 } else if i == 0x9 { 160 } else if i == 0xA { 142 } else if i == 0xB { 128 } else if i
        == 0xC { 106 } else if i == 0xD { 84 } else if i == 0xE { 72 } else { 54 }
}

/// A timer that counts down from `reload` and, each time it passes zero,
/// advances a sequence.
#[derive(Debug, PartialEq, Eq, Clone, Copy, Structural)]
pub struct Sequencer {
    pub sequence: u32,
    pub timer: u16,
    pub reload: u16,
    pub output: u8,
}

impl Sequencer {
    pub fn new() -> (r: Self)
        ensures
            r == (Sequencer { sequence: 0, timer: 0, reload: 0, output: 0 }),
    {
        Sequencer { sequence: 0, timer: 0x0000, reload: 0x0000, output: 0x00 }
    }

    /// Counts the timer down when enabled. When it passes zero it restarts
    /// at `reload + 1`, and the caller advances the sequence (`advance`);
    /// the result says whether it did.
    pub fn clock(&mut self, enable: bool) -> (fired: bool)
        ensures
            (*final(self), fired) == old(self).step(enable),
            fired == (enable && old(self).timer == 0),
            final(self).timer == if !enable {
                old(self).timer
            } else if old(self).timer == 0 {
                old(self).reload.wrapping_add(1)
            } else {
                (old(self).timer - 1) as u16
            },
            final(self).sequence == old(self).sequence,
            final(self).reload == old(self).reload,
            final(self).output == old(self).output,
    {
        if enable {
            self.timer = self.timer.wrapping_sub(1);
            if self.timer == 0xFFFF {
                self.timer = self.reload.wrapping_add(1);
                return true;
            }
        }
        false
    }

    /// Stores the advanced sequence; its low bit is the output.
    pub fn advance(&mut self, sequence: u32) -> (r: u8)
        ensures
            *final(self) == old(self).advanced(sequence),
            final(self).sequence == sequence,
            final(self).output == (sequence as u8) & 1,
            r == final(self).output,
            final(self).timer == old(self).timer,
            final(self).reload == old(self).reload,
    {
        self.sequence = sequence;
        self.output = (self.sequence as u8) & 0b0000_0001;
        self.output
    }
}

/// A divider: outputs a clock every `reload + 1` input clocks.
#[derive(Debug, PartialEq, Eq, Clone, Copy, Structural)]
pub struct Divider {
    pub reload: u16,
    pub counter: u16,
    pub force_reload: bool,
}

impl Divider {
    pub fn new() -> (r: Self)
        ensures
            r == (Divider { reload: 0, counter: 0, force_reload: false }),
    {
        Divider { reload: 0x0000, counter: 0x0000, force_reload: false }
    }

    /// The divider after a clock, and whether it output a clock: at zero it
    /// reloads and outputs; a forced reload reloads without an output;
    /// otherwise it counts down.
    pub open spec fn step(self) -> (Divider, bool) {
        if self.counter == 0 {
            (Divider { counter: self.reload, force_reload: false, ..self }, true)
        } else if self.force_reload {
            (Divider { counter: self.reload, force_reload: false, ..self }, false)
        } else {
            (Divider { counter: (self.counter - 1) as u16, ..self }, false)
        }
    }

    /// The divider after `k` clocks.
    pub open spec fn after(self, k: nat) -> Divider
        decreases k,
    {
        if k == 0 {
            self
        } else {
            self.after((k - 1) as nat).step().0
        }
    }

    pub fn clock(&mut self) -> (r: bool)
        ensures
            (*final(self), r) == old(self).step(),
    {
        if self.counter == 0 {
            self.counter = self.reload;
            self.force_reload = false;
            true
        } else if self.force_reload {
            // A forced reload does not output a clock.
            self.counter = self.reload;
            self.force_reload = false;
            false
        } else {
            self.counter = self.counter - 1;
            false
        }
    }
}

/// From a reload, the divider counts down one a clock.
proof fn lemma_divider_counts_down(d: Divider, k: nat)
    requires
        d.counter == d.reload,
        !d.force_reload,
        k <= d.reload,
    ensures
        d.after(k) == (Divider { counter: (d.reload - k) as u16, ..d }),
    decreases k,
{
    if k > 0 {
        lemma_divider_counts_down(d, (k - 1) as nat);
    }
}

/// A divider's period is its reload value P plus one: from a reload (the
/// counter at P, no reload forced), P clocks output nothing, the next one
/// outputs, and the divider is back where it started.
pub proof fn law_divider_period(d: Divider)
    requires
        d.counter == d.reload,
        !d.force_reload,
    ensures
        forall|k: nat| k < d.reload ==> !(#[trigger] d.after(k)).step().1,
        d.after(d.reload as nat).step().1,
        d.after((d.reload + 1) as nat) == d,
{
    assert forall|k: nat| k < d.reload implies !(#[trigger] d.after(k)).step().1 by {
        lemma_divider_counts_down(d, k);
    }
    lemma_divider_counts_down(d, d.reload as nat);
    assert(d.after((d.reload + 1) as nat) == d.after(d.reload as nat).step().0);
}

/// A volume envelope: a constant volume, or a decay from 15 to 0 (looping
/// when the loop flag is set).
#[derive(Debug, PartialEq, Eq, Clone, Copy, Structural)]
pub struct Envelope {
    pub start_flag: bool,
    pub divider: Divider,
    pub decay_level: u8,
    pub loop_flag: bool,
    pub constant_volume_flag: bool,
}

impl Envelope {
    pub fn new() -> (r: Self)
        ensures
            r == (Envelope {
                start_flag: false,
                divider: Divider { reload: 0, counter: 0, force_reload: false },
                decay_level: 0,
                loop_flag: false,
                constant_volume_flag: false,
            }),
    {
        Envelope {
            start_flag: false,
            divider: Divider::new(),
            decay_level: 0x00,
            loop_flag: false,
            constant_volume_flag: false,
        }
    }

    /// The envelope after a quarter-frame clock: a start restarts the decay
    /// at 15; otherwise each divider clock lowers the decay level, which
    /// loops to 15 when the loop flag is set.
    pub open spec fn step(self) -> Envelope {
        if self.start_flag {
            Envelope {
                start_flag: false,
                decay_level: 15,
                divider: Divider { counter: self.divider.reload, ..self.divider },
                ..self
            }
        } else {
            let (d, out) = self.divider.step();
            let decay = if !out {
                self.decay_level
            } else if self.decay_level > 0 {
                (self.decay_level - 1) as u8
            } else if self.loop_flag {
                15u8
            } else {
                self.decay_level
            };
            Envelope { divider: d, decay_level: decay, ..self }
        }
    }

    pub fn clock(&mut self)
        ensures
            *final(self) == old(self).step(),
    {
        if self.start_flag {
            self.start_flag = false;
            self.decay_level = 15;
            self.divider.counter = self.divider.reload;
        } else {
            if self.divider.clock() {
                if self.decay_level > 0 {
                    self.decay_level = self.decay_level - 1;
                } else if self.loop_flag {
                    self.decay_level = 15;
                }
            }
        }
    }

    /// The volume in fifteenths: the constant volume, or the decay level.
    pub open spec fn volume_spec(self) -> u16 {
        if self.constant_volume_flag {
            self.divider.reload
        } else {
            self.decay_level as u16
        }
    }

    /// The volume in fifteenths: the constant volume, or the decay level.
    pub fn volume(&self) -> (r: u16)
        ensures
            r == self.volume_spec(),
    {
        if self.constant_volume_flag {
            self.divider.reload
        } else {
            self.decay_level as u16
        }
    }
}

/// A pulse channel's sweep unit, which bends the period up or down.
#[derive(Debug, PartialEq, Eq, Clone, Copy, Structural)]
pub struct Sweep {
    pub enabled: bool,
    pub divider: Divider,
    pub negate: bool,
    pub shift_count: u8,
    pub muting: bool,
}

/// The period that a sweep aims for: the period plus or minus itself
/// shifted right; pulse 1 negates in ones' complement (one more).
pub open spec fn sweep_target(current: u16, shift: u8, negate: bool, is_pulse_2: bool) -> u16 {
    let change = current >> (shift as u16);
    if negate {
        current.wrapping_sub((change + if is_pulse_2 { 0u16 } else { 1u16 }) as u16)
    } else {
        current.wrapping_add(change)
    }
}

impl Sweep {
    pub fn new() -> (r: Self)
        ensures
            r == (Sweep {
                enabled: false,
                divider: Divider { reload: 0, counter: 0, force_reload: false },
                negate: false,
                shift_count: 0,
                muting: false,
            }),
    {
        Sweep { enabled: false, divider: Divider::new(), negate: false, shift_count: 0, muting: false }
    }

    /// Clocks the sweep with the channel's period, and gives the new
    /// period: the target when the divider outputs, the sweep is enabled
    /// with a nonzero shift count, and the channel is not muted (a period
    /// below 8 or a target above $7FF mutes it); else the period unchanged.
    /// With a shift count of zero the period is never updated, but the
    /// muting still applies.
    pub fn clock(&mut self, current_period: u16, is_pulse_2: bool) -> (r: u16)
        requires
            old(self).shift_count < 16,
            !(old(self).negate && !is_pulse_2 && (current_period >> (old(self).shift_count as u16)) == 0xFFFF),
        ensures
            ({
                let target = sweep_target(current_period, old(self).shift_count, old(self).negate, is_pulse_2);
                let muting = current_period < 8 || target > 0x7FF;
                let (d, out) = old(self).divider.step();
                &&& *final(self) == (Sweep { muting, divider: d, ..*old(self) })
                &&& r == if out && old(self).enabled && old(self).shift_count != 0 && !muting {
                    target
                } else {
                    current_period
                }
            }),
    {
        let change_amount: u16 = current_period >> (self.shift_count as u16);
        let target_period: u16 = if self.negate {
            current_period.wrapping_sub(change_amount + if is_pulse_2 { 0 } else { 1 })
        } else {
            current_period.wrapping_add(change_amount)
        };
        self.muting = current_period < 8 || target_period > 0x7FF;
        if self.divider.clock() && self.enabled && self.shift_count != 0 && !self.muting {
            target_period
        } else {
            current_period
        }
    }
}

/// A pulse channel: a square wave whose period the sweep bends, with a
/// length counter and an envelope.
#[derive(Debug, PartialEq, Eq, Clone, Copy, Structural)]
pub struct Pulse {
    pub enable: bool,
    pub sequencer: Sequencer,
    /// The duty cycle in eighths (1, 2, 4 or 6).
    pub duty_eighths: u8,
    /// The oscillator's amplitude in sixtieths: a quarter of the envelope's
    /// volume, or zero when the channel is silenced.
    pub amplitude: u16,
    pub length_counter: u8,
    pub length_counter_halt: bool,
    pub envelope: Envelope,
    pub sweep: Sweep,
}

impl Pulse {
    /// A pulse channel at power on: disabled, every counter, register and
    /// flag at zero or clear, and the oscillator's amplitude at 60.
    pub open spec fn new_spec() -> Pulse {
        Pulse {
            enable: false,
            sequencer: Sequencer { sequence: 0, timer: 0, reload: 0, output: 0 },
            duty_eighths: 0,
            amplitude: 60,
            length_counter: 0,
            length_counter_halt: false,
            envelope: Envelope::new_spec(),
            sweep: Sweep {
                enabled: false,
                divider: Divider { reload: 0, counter: 0, force_reload: false },
                negate: false,
                shift_count: 0,
                muting: false,
            },
        }
    }

    pub fn new() -> (r: Self)
        ensures
            r == Pulse::new_spec(),
    {
        Pulse {
            enable: false,
            sequencer: Sequencer::new(),
            duty_eighths: 0,
            amplitude: 60,
            length_counter: 0x00,
            length_counter_halt: false,
            envelope: Envelope::new(),
            sweep: Sweep::new(),
        }
    }
}

impl Envelope {
    /// An envelope at power on.
    pub open spec fn new_spec() -> Envelope {
        Envelope {
            start_flag: false,
            divider: Divider { reload: 0, counter: 0, force_reload: false },
            decay_level: 0,
            loop_flag: false,
            constant_volume_flag: false,
        }
    }
}

/// The triangle channel: a 32-step triangle wave gated by a length counter
/// and a linear counter.
#[derive(Debug, PartialEq, Eq, Clone, Copy, Structural)]
pub struct Triangle {
    pub enable: bool,
    pub sequencer: Sequencer,
    pub length_counter: u8,
    pub linear_counter: u8,
    pub linear_counter_reload_value: u8,
    pub linear_counter_reload: bool,
    pub control: bool,
}

/// The level of step `s` of the triangle wave, in fifteenths: 15 down to
/// 0, then 0 up to 15.
pub open spec fn triangle_level(s: u32) -> u8 {
    let k = s % 32;
    if k < 16 { (15 - k) as u8 } else { (k - 16) as u8 }
}

impl Triangle {
    /// The triangle channel at power on: enabled, its counters at zero and
    /// its flags clear.
    pub open spec fn new_spec() -> Triangle {
        Triangle {
            enable: true,
            sequencer: Sequencer { sequence: 0, timer: 0, reload: 0, output: 0 },
            length_counter: 0,
            linear_counter: 0,
            linear_counter_reload_value: 0,
            linear_counter_reload: false,
            control: false,
        }
    }

    pub fn new() -> (r: Self)
        ensures
            r == Triangle::new_spec(),
    {
        Triangle {
            enable: true,
            sequencer: Sequencer::new(),
            length_counter: 0x00,
            linear_counter: 0x00,
            linear_counter_reload_value: 0x00,
            linear_counter_reload: false,
            control: false,
        }
    }

    /// The triangle after a quarter-frame clock of its linear counter: a
    /// pending reload loads it, else it counts down to zero; the reload
    /// flag clears unless the control flag is set.
    pub open spec fn linear_step(self) -> Triangle {
        Triangle {
            linear_counter: if self.linear_counter_reload {
                self.linear_counter_reload_value
            } else if self.linear_counter != 0 {
                (self.linear_counter - 1) as u8
            } else {
                0
            },
            linear_counter_reload: if !self.control { false } else { self.linear_counter_reload },
            ..self
        }
    }

    pub fn linear_counter_clock(&mut self)
        ensures
            *final(self) == old(self).linear_step(),
    {
        if self.linear_counter_reload {
            self.linear_counter = self.linear_counter_reload_value;
        } else if self.linear_counter != 0 {
            self.linear_counter = self.linear_counter - 1;
        }
        if !self.control {
            self.linear_counter_reload = false;
        }
    }

    /// The current output level, in fifteenths.
    pub fn level(&self) -> (r: u8)
        ensures
            r == triangle_level(self.sequencer.sequence),
    {
        let k: u32 = self.sequencer.sequence % 32;
        if k < 16 { (15 - k) as u8 } else { (k - 16) as u8 }
    }
}

/// The noise channel's 15-bit shift register.
#[derive(Debug, PartialEq, Eq, Clone, Copy, Structural)]
pub struct LinearFeedbackShiftRegister(pub u16);

/// The shift register after one step: the feedback bit, bit 0 xor bit 1
/// (or, in mode 1, bit 0 xor bit 6), enters at bit 14 as the register
/// shifts right.
pub open spec fn lfsr_step(lfsr: u16, mode_flag: bool) -> u16 {
    let feedback = (lfsr & 0x0001u16) ^ (if mode_flag {
        (lfsr >> 6u16) & 0x0001u16
    } else {
        (lfsr & 0x0002u16) >> 1u16
    });
    (lfsr >> 1u16) | (feedback << 14u16)
}

/// The noise channel: a pseudo-random bit stream from a shift register,
/// with a length counter and an envelope.
#[derive(Debug, PartialEq, Eq, Clone, Copy, Structural)]
pub struct Noise {
    pub enable: bool,
    pub sequencer: Sequencer,
    pub envelope: Envelope,
    pub mode_flag: bool,
    pub length_counter_halt: bool,
    pub length_counter: u8,
    pub lfsr: LinearFeedbackShiftRegister,
}

impl Noise {
    /// The noise channel at power on: enabled, its counters at zero, its
    /// flags clear, and the shift register at 1.
    pub open spec fn new_spec() -> Noise {
        Noise {
            enable: true,
            sequencer: Sequencer { sequence: 0, timer: 0, reload: 0, output: 0 },
            envelope: Envelope::new_spec(),
            mode_flag: false,
            length_counter_halt: false,
            length_counter: 0,
            lfsr: LinearFeedbackShiftRegister(1),
        }
    }

    pub fn new() -> (r: Self)
        ensures
            r == Noise::new_spec(),
    {
        Noise {
            enable: true,
            sequencer: Sequencer::new(),
            envelope: Envelope::new(),
            mode_flag: false,
            length_counter_halt: false,
            length_counter: 0x00,
            lfsr: LinearFeedbackShiftRegister(0b0000_0000_0000_0001),
        }
    }

    /// Steps the shift register and gives its new low bit.
    pub fn clock(lfsr: &mut LinearFeedbackShiftRegister, mode_flag: bool) -> (r: u16)
        ensures
            final(lfsr).0 == lfsr_step(old(lfsr).0, mode_flag),
            r == final(lfsr).0 & 0x0001u16,
    {
        let feedback: u16 = (lfsr.0 & 0b0000_0000_0000_0001) ^ (if mode_flag {
            (lfsr.0 >> 6) & 0b0000_0000_0000_0001
        } else {
            (lfsr.0 & 0b0000_0000_0000_0010) >> 1
        });
        lfsr.0 = (lfsr.0 >> 1) | (feedback << 14);
        lfsr.0 & 0b0000_0000_0000_0001
    }

    /// The current output level, in fifteenths: silent when the register's
    /// low bit is set or the length counter has run out, else the envelope.
    pub fn level(&self) -> (r: u16)
        ensures
            r == if (self.lfsr.0 & 0x0001u16) != 0 || self.length_counter == 0 {
                0
            } else {
                self.envelope.volume_spec()
            },
    {
        if (self.lfsr.0 & 0b0000_0000_0000_0001) != 0 || self.length_counter == 0 {
            0
        } else {
            self.envelope.volume()
        }
    }
}

/// The delta modulation channel: plays 1-bit deltas fetched from memory.
#[derive(Debug, PartialEq, Eq, Clone, Copy, Structural)]
pub struct Dmc {
    pub enable: bool,
    pub irq_enabled_flag: bool,
    pub interrupt_flag: bool,
    pub loop_flag: bool,
    pub sample_addr: u16,
    pub sample_len: u16,
    pub current_addr: u16,
    pub bytes_remaining: u16,
    pub sample_buffer: Option<u8>,
    pub silence_flag: bool,
    pub output_level: u8,
    pub output_shift_register: u8,
    pub output_bits_remaining: u8,
}

impl Dmc {
    /// The delta modulation channel at power on: disabled, with no sample,
    /// its addresses, counters and flags at zero.
    pub open spec fn new_spec() -> Dmc {
        Dmc {
            enable: false,
            irq_enabled_flag: false,
            interrupt_flag: false,
            loop_flag: false,
            sample_addr: 0,
            sample_len: 0,
            current_addr: 0,
            bytes_remaining: 0,
            sample_buffer: None,
            silence_flag: false,
            output_level: 0,
            output_shift_register: 0,
            output_bits_remaining: 0,
        }
    }

    pub fn new() -> (r: Self)
        ensures
            r == Dmc::new_spec(),
            r == (Dmc {
                enable: false,
                irq_enabled_flag: false,
                interrupt_flag: false,
                loop_flag: false,
                sample_addr: 0,
                sample_len: 0,
                current_addr: 0,
                bytes_remaining: 0,
                sample_buffer: None,
                silence_flag: false,
                output_level: 0,
                output_shift_register: 0,
                output_bits_remaining: 0,
            }),
    {
        Dmc {
            enable: false,
            irq_enabled_flag: false,
            interrupt_flag: false,
            loop_flag: false,
            sample_addr: 0x0000,
            sample_len: 0x0000,
            current_addr: 0x0000,
            bytes_remaining: 0x0000,
            sample_buffer: None,
            silence_flag: false,
            output_level: 0b00,
            output_shift_register: 0x00,
            output_bits_remaining: 0,
        }
    }

    /// Whether the next clock fetches a sample byte.
    pub open spec fn fetches(self) -> bool {
        self.sample_buffer.is_none() && self.bytes_remaining != 0
    }

    /// The reader after it fetched `byte`: the address steps (wrapping from
    /// $FFFF to $8000), and when the last byte was read the sample loops
    /// or raises the interrupt.
    pub open spec fn after_fetch(self, byte: u8) -> Dmc {
        let addr = if self.current_addr == 0xFFFF { 0x8000u16 } else { (self.current_addr + 1) as u16 };
        let remaining = (self.bytes_remaining - 1) as u16;
        let d = Dmc { sample_buffer: Some(byte), current_addr: addr, bytes_remaining: remaining, ..self };
        if remaining == 0 && self.loop_flag {
            Dmc { current_addr: self.sample_addr, bytes_remaining: self.sample_len, ..d }
        } else if remaining == 0 && self.irq_enabled_flag {
            Dmc { interrupt_flag: true, ..d }
        } else {
            d
        }
    }

    /// The output unit after a clock: a one bit raises the level by two
    /// (up to 127), a zero bit lowers it by two, unless silenced; the shift
    /// register moves on, and after eight bits the sample buffer refills
    /// it (or silences the channel when empty).
    pub open spec fn after_output(self) -> Dmc {
        let level = if self.silence_flag {
            self.output_level
        } else if (self.output_shift_register & 1u8) != 0 {
            if self.output_level <= 125 { (self.output_level + 2) as u8 } else { self.output_level }
        } else {
            if self.output_level >= 2 { (self.output_level - 2) as u8 } else { self.output_level }
        };
        let shifted = self.output_shift_register >> 1u8;
        let bits = if self.output_bits_remaining > 0 {
            (self.output_bits_remaining - 1) as u8
        } else {
            0u8
        };
        let d = Dmc { output_level: level, output_shift_register: shifted, output_bits_remaining: bits, ..self };
        if bits == 0 {
            match self.sample_buffer {
                None => Dmc { output_bits_remaining: 8, silence_flag: true, ..d },
                Some(sample) => Dmc {
                    output_bits_remaining: 8,
                    silence_flag: false,
                    output_shift_register: sample,
                    sample_buffer: None,
                    ..d
                },
            }
        } else {
            d
        }
    }

    /// Clocks the channel: fetches the next sample byte through the
    /// cartridge when the buffer is empty (an address the cartridge does
    /// not answer gives zero), then clocks the output unit.
    pub fn clock(&mut self, cart: &mut Cart)
        requires
            old(cart).wf(),
            old(self).fetches() ==> old(cart).cpu_read_ok(old(self).current_addr),
        ensures
            *final(cart) == *old(cart),
            *final(self) == if old(self).fetches() {
                old(self).after_fetch(
                    match old(cart).cpu_peek(old(self).current_addr) {
                        Some(d) => d,
                        None => 0u8,
                    },
                ).after_output()
            } else {
                old(self).after_output()
            },
    {
        if self.sample_buffer.is_none() && self.bytes_remaining != 0 {
            // The sample buffer is filled with the next byte, through
            // whatever mapping hardware is present.
            self.sample_buffer = match cart.cpu_read(self.current_addr) {
                Some(d) => Some(d),
                None => Some(0x00),
            };
            // The address wraps from $FFFF to $8000.
            if self.current_addr == 0xFFFF {
                self.current_addr = 0x8000;
            } else {
                self.current_addr = self.current_addr + 1;
            }
            // After the last byte the sample loops, or raises the interrupt.
            self.bytes_remaining = self.bytes_remaining - 1;
            if self.bytes_remaining == 0 {
                if self.loop_flag {
                    self.current_addr = self.sample_addr;
                    self.bytes_remaining = self.sample_len;
                } else {
                    if self.irq_enabled_flag {
                        self.interrupt_flag = true;
                    }
                }
            }
        }
        if !self.silence_flag {
            if (self.output_shift_register & 1) != 0 {
                if self.output_level <= 125 {
                    self.output_level = self.output_level + 2;
                }
            } else {
                if self.output_level >= 2 {
                    self.output_level = self.output_level - 2;
                }
            }
        }
        self.output_shift_register = self.output_shift_register >> 1;
        if self.output_bits_remaining > 0 {
            self.output_bits_remaining = self.output_bits_remaining - 1;
        }
        if self.output_bits_remaining == 0 {
            self.output_bits_remaining = 8;
            match self.sample_buffer {
                None => {
                    self.silence_flag = true;
                },
                Some(sample) => {
                    self.silence_flag = false;
                    self.output_shift_register = sample;
                    self.sample_buffer = None;
                },
            }
        }
    }
}

/// The audio processing unit: the channels and the frame sequencer, in
/// integer state. The audio samples themselves are computed from this
/// state outside the library.
pub struct Apu {
    pub pulse: [Pulse; 2],
    pub triangle: Triangle,
    pub noise: Noise,
    pub dmc: Dmc,
    /// The DMC's timer, clocked separately from the channel.
    pub dmc_sequencer: Sequencer,
    pub clock_counter: u32,
    pub frame_clock_counter: u32,
    pub five_step_mode: bool,
    pub frame_interrupt_flag: bool,
    pub frame_counter_reset_timer: u8,
}

/// A pulse channel's invariant: an 11-bit period and a 3-bit sweep shift.
pub open spec fn pulse_wf(p: Pulse) -> bool {
    p.sequencer.reload <= 0x7FF && p.sweep.shift_count <= 7
}

/// The pulse channel after a write of `data` to its register `reg` (0-3).
pub open spec fn pulse_written(p: Pulse, reg: int, data: u8) -> Pulse {
    if reg == 0 {
        let duty = (data & 0xC0u8) >> 6u8;
        Pulse {
            sequencer: Sequencer {
                sequence: if duty == 0 { 0x01u32 } else if duty == 1 { 0x03u32 } else if duty == 2 { 0x0Fu32 } else { 0xFCu32 },
                ..p.sequencer
            },
            duty_eighths: if duty == 0 { 1u8 } else if duty == 1 { 2u8 } else if duty == 2 { 4u8 } else { 6u8 },
            envelope: Envelope {
                constant_volume_flag: (data & 0x10u8) != 0,
                divider: Divider { reload: (data & 0x0Fu8) as u16, ..p.envelope.divider },
                ..p.envelope
            },
            length_counter_halt: (data & 0x20u8) != 0,
            ..p
        }
    } else if reg == 1 {
        Pulse {
            sweep: Sweep {
                enabled: (data & 0x80u8) != 0,
                divider: Divider {
                    reload: ((data & 0x70u8) >> 4u8) as u16,
                    force_reload: true,
                    ..p.sweep.divider
                },
                negate: (data & 0x08u8) != 0,
                shift_count: data & 0x07u8,
                ..p.sweep
            },
            ..p
        }
    } else if reg == 2 {
        Pulse {
            sequencer: Sequencer { reload: (p.sequencer.reload & 0xFF00u16) | (data as u16), ..p.sequencer },
            ..p
        }
    } else {
        let reload = (((data as u16) & 0x07u16) << 8u16) | (p.sequencer.reload & 0x00FFu16);
        Pulse {
            sequencer: Sequencer { reload, timer: reload, ..p.sequencer },
            envelope: if p.enable { Envelope { start_flag: true, ..p.envelope } } else { p.envelope },
            length_counter: if p.enable { length_table()[(data >> 3u8) as int] } else { p.length_counter },
            ..p
        }
    }
}

/// A pulse channel after a write of `data` to its register `reg` (0-3).
fn pulse_write(p: Pulse, reg: u16, data: u8) -> (r: Pulse)
    requires
        pulse_wf(p),
        reg < 4,
    ensures
        r == pulse_written(p, reg as int, data),
        pulse_wf(r),
{
    proof {
        lemma_apu_bits(data, p.sequencer.reload, 0);
    }
    let mut p: Pulse = p;
    if reg == 0 {
        // DDLC VVVV: duty cycle, length counter halt, constant volume
        // flag, and the volume or envelope period.
        let duty: u8 = (data & 0b1100_0000) >> 6;
        if duty == 0 {
            p.sequencer.sequence = 0b0000_0001;
            p.duty_eighths = 1;
        } else if duty == 1 {
            p.sequencer.sequence = 0b0000_0011;
            p.duty_eighths = 2;
        } else if duty == 2 {
            p.sequencer.sequence = 0b0000_1111;
            p.duty_eighths = 4;
        } else {
            p.sequencer.sequence = 0b1111_1100;
            p.duty_eighths = 6;
        }
        p.envelope.constant_volume_flag = (data & 0b0001_0000) != 0;
        p.envelope.divider.reload = (data & 0b0000_1111) as u16;
        p.length_counter_halt = (data & 0b0010_0000) != 0;
    } else if reg == 1 {
        // EPPP NSSS: sweep enable, period, negate, shift.
        p.sweep.enabled = (data & 0b1000_0000) != 0;
        p.sweep.divider.reload = ((data & 0b0111_0000) >> 4) as u16;
        p.sweep.negate = (data & 0b0000_1000) != 0;
        p.sweep.shift_count = data & 0b0000_0111;
        p.sweep.divider.force_reload = true;
    } else if reg == 2 {
        // The low eight bits of the timer period.
        p.sequencer.reload = (p.sequencer.reload & 0xFF00) | (data as u16);
    } else {
        // LLLL LTTT: length index and the high three timer bits; an
        // enabled channel starts a note.
        p.sequencer.reload = (((data as u16) & 0x07) << 8) | (p.sequencer.reload & 0x00FF);
        p.sequencer.timer = p.sequencer.reload;
        if p.enable {
            p.envelope.start_flag = true;
            p.length_counter = get_length_counter((data & 0b1111_1000) >> 3);
        }
    }
    p
}

/// A pulse channel enabled or disabled by $4015; disabling clears its
/// length counter.
fn pulse_enabled(p: Pulse, enable: bool) -> (r: Pulse)
    ensures
        r == (Pulse { enable, length_counter: if !enable { 0 } else { p.length_counter }, ..p }),
{
    let mut p: Pulse = p;
    p.enable = enable;
    if !p.enable {
        p.length_counter = 0;
    }
    p
}

impl Apu {
    /// The APU's invariant: the pulse channels' periods and shifts fit
    /// their registers, and the triangle's step is one of its 32.
    pub open spec fn wf(&self) -> bool {
        &&& pulse_wf(self.pulse[0])
        &&& pulse_wf(self.pulse[1])
        &&& self.triangle.sequencer.sequence < 32
    }

    /// Whether the APU's invariant holds (see `wf`).
    pub fn check_wf(&self) -> (r: bool)
        ensures
            r == self.wf(),
    {
        self.pulse[0].sequencer.reload <= 0x7FF && self.pulse[0].sweep.shift_count <= 7
            && self.pulse[1].sequencer.reload <= 0x7FF && self.pulse[1].sweep.shift_count <= 7
            && self.triangle.sequencer.sequence < 32
    }

    /// An APU as it is powered on: every channel as its `new` makes it, and
    /// the sequencers and counters at zero.
    pub open spec fn fresh(&self) -> bool {
        &&& self.pulse[0] == Pulse::new_spec()
        &&& self.pulse[1] == Pulse::new_spec()
        &&& self.triangle == Triangle::new_spec()
        &&& self.noise == Noise::new_spec()
        &&& self.dmc == Dmc::new_spec()
        &&& self.dmc_sequencer == (Sequencer { sequence: 0, timer: 0, reload: 0, output: 0 })
        &&& self.clock_counter == 0
        &&& self.frame_clock_counter == 0
        &&& !self.five_step_mode
        &&& !self.frame_interrupt_flag
        &&& self.frame_counter_reset_timer == 0
    }

    pub fn new() -> (r: Self)
        ensures
            r.wf(),
            r.fresh(),
    {
        Apu {
            pulse: [Pulse::new(), Pulse::new()],
            triangle: Triangle::new(),
            noise: Noise::new(),
            dmc: Dmc::new(),
            dmc_sequencer: Sequencer::new(),
            clock_counter: 0,
            frame_clock_counter: 0,
            five_step_mode: false,
            frame_interrupt_flag: false,
            frame_counter_reset_timer: 0,
        }
    }

    /// The $4015 status byte: bits 0-3 for the length counters of pulse 1,
    /// pulse 2, triangle and noise, bit 4 for DMC bytes remaining, bit 6
    /// for the frame interrupt, bit 7 for the DMC interrupt.
    pub open spec fn status_byte(&self) -> u8 {
        ((if self.pulse[0].length_counter > 0 { 0x01u8 } else { 0u8 }) | (if self.pulse[1].length_counter > 0 {
            0x02u8
        } else {
            0u8
        }) | (if self.triangle.length_counter > 0 { 0x04u8 } else { 0u8 }) | (if self.noise.length_counter > 0 {
            0x08u8
        } else {
            0u8
        }) | (if self.dmc.bytes_remaining > 0 { 0x10u8 } else { 0u8 }) | (if self.frame_interrupt_flag {
            0x40u8
        } else {
            0u8
        }) | (if self.dmc.interrupt_flag { 0x80u8 } else { 0u8 })) as u8
    }

    /// Reads an APU register: only $4015 answers, with the status byte; the
    /// read clears the frame interrupt flag.
    pub fn cpu_read(&mut self, addr: u16) -> (r: Option<u8>)
        ensures
            addr == 0x4015 ==> r == Some(old(self).status_byte()) && *final(self) == (Apu {
                frame_interrupt_flag: false,
                ..*old(self)
            }),
            addr != 0x4015 ==> r.is_none() && *final(self) == *old(self),
    {
        if addr == 0x4015 {
            // IF-D NT21: DMC interrupt, frame interrupt, DMC active, and
            // the length counters that are above zero.
            let data: u8 = (if self.pulse[0].length_counter > 0 { 0b0000_0001 } else { 0u8 }) | (if self.pulse[1].length_counter > 0 {
                0b0000_0010
            } else {
                0u8
            }) | (if self.triangle.length_counter > 0 { 0b0000_0100 } else { 0u8 }) | (if self.noise.length_counter
                > 0 {
                0b0000_1000
            } else {
                0u8
            }) | (if self.dmc.bytes_remaining > 0 { 0b0001_0000 } else { 0u8 }) | (if self.frame_interrupt_flag {
                0b0100_0000
            } else {
                0u8
            }) | (if self.dmc.interrupt_flag { 0b1000_0000 } else { 0u8 });
            // Reading clears the frame interrupt flag (not the DMC's).
            self.frame_interrupt_flag = false;
            Some(data)
        } else {
            None
        }
    }
}

impl Apu {
    /// The APU after a write of `data` to the register at `addr`.
    pub open spec fn written(&self, addr: u16, data: u8, new: Apu) -> bool {
        if 0x4000 <= addr <= 0x4007 {
            self.pulse_reg_written(addr, data, new)
        } else if addr == 0x4015 {
            self.status_written(data, new)
        } else {
            self.channel_reg_written(addr, data, new)
        }
    }

    /// The APU after a write to a pulse register ($4000-$4007).
    pub open spec fn pulse_reg_written(&self, addr: u16, data: u8, new: Apu) -> bool {
        let i = if addr < 0x4004 { 0int } else { 1int };
        &&& new.pulse[i] == pulse_written(self.pulse[i], (addr - 0x4000) % 4, data)
        &&& new.pulse[1 - i] == self.pulse[1 - i]
        &&& new == (Apu { pulse: new.pulse, ..*self })
    }

    /// The APU after a write of `data` to the status register ($4015).
    pub open spec fn status_written(&self, data: u8, new: Apu) -> bool {
        let dmc_on = (data & 0x10u8) != 0;
        let restart = dmc_on && self.dmc.bytes_remaining == 0;
        &&& new.pulse[0] == Pulse {
            enable: (data & 0x01u8) != 0,
            length_counter: if (data & 0x01u8) == 0 { 0 } else { self.pulse[0].length_counter },
            ..self.pulse[0]
        }
        &&& new.pulse[1] == Pulse {
            enable: (data & 0x02u8) != 0,
            length_counter: if (data & 0x02u8) == 0 { 0 } else { self.pulse[1].length_counter },
            ..self.pulse[1]
        }
        &&& new.triangle == Triangle {
            enable: (data & 0x04u8) != 0,
            length_counter: if (data & 0x04u8) == 0 { 0 } else { self.triangle.length_counter },
            ..self.triangle
        }
        &&& new.noise == Noise {
            enable: (data & 0x08u8) != 0,
            length_counter: if (data & 0x08u8) == 0 { 0 } else { self.noise.length_counter },
            ..self.noise
        }
        &&& new.dmc == Dmc {
            enable: dmc_on,
            bytes_remaining: if !dmc_on { 0 } else if restart { self.dmc.sample_len } else { self.dmc.bytes_remaining },
            current_addr: if restart { self.dmc.sample_addr } else { self.dmc.current_addr },
            interrupt_flag: false,
            ..self.dmc
        }
        &&& new == (Apu { pulse: new.pulse, triangle: new.triangle, noise: new.noise, dmc: new.dmc, ..*self })
    }

    /// The APU after a write to a triangle, noise, DMC or frame counter
    /// register.
    pub open spec fn channel_reg_written(&self, addr: u16, data: u8, new: Apu) -> bool {
        if addr == 0x4017 {
            new == (Apu {
                five_step_mode: (data & 0x80u8) != 0,
                frame_interrupt_flag: if (data & 0x80u8) != 0 { false } else { self.frame_interrupt_flag },
                frame_counter_reset_timer: if self.clock_counter % 6 == 0 { 3 } else { 4 },
                ..*self
            })
        } else if addr == 0x4008 {
            new == (Apu {
                triangle: Triangle {
                    control: (data & 0x80u8) != 0,
                    linear_counter_reload_value: data & 0x7Fu8,
                    ..self.triangle
                },
                ..*self
            })
        } else if addr == 0x400A {
            new == (Apu {
                triangle: Triangle {
                    sequencer: Sequencer {
                        reload: (self.triangle.sequencer.reload & 0xFF00u16) | (data as u16),
                        ..self.triangle.sequencer
                    },
                    ..self.triangle
                },
                ..*self
            })
        } else if addr == 0x400B {
            new == (Apu {
                triangle: Triangle {
                    sequencer: Sequencer {
                        reload: (((data as u16) & 0x07u16) << 8u16) | (self.triangle.sequencer.reload & 0x00FFu16),
                        ..self.triangle.sequencer
                    },
                    length_counter: length_table()[(data >> 3u8) as int],
                    linear_counter_reload: true,
                    ..self.triangle
                },
                ..*self
            })
        } else if addr == 0x400C {
            new == (Apu {
                noise: Noise {
                    length_counter_halt: (data & 0x20u8) != 0,
                    envelope: Envelope {
                        constant_volume_flag: (data & 0x10u8) != 0,
                        divider: Divider { reload: (data & 0x0Fu8) as u16, ..self.noise.envelope.divider },
                        ..self.noise.envelope
                    },
                    ..self.noise
                },
                ..*self
            })
        } else if addr == 0x400E {
            let period = noise_period_table()[(data & 0x0Fu8) as int];
            new == (Apu {
                noise: Noise {
                    mode_flag: (data & 0x80u8) != 0,
                    sequencer: Sequencer { reload: period, timer: period, ..self.noise.sequencer },
                    ..self.noise
                },
                ..*self
            })
        } else if addr == 0x400F {
            new == (Apu {
                noise: Noise {
                    length_counter: length_table()[(data >> 3u8) as int],
                    envelope: Envelope { start_flag: true, ..self.noise.envelope },
                    ..self.noise
                },
                ..*self
            })
        } else if addr == 0x4010 {
            let rate = dmc_rate_table()[(data & 0x0Fu8) as int];
            new == (Apu {
                dmc: Dmc {
                    irq_enabled_flag: (data & 0x80u8) != 0,
                    loop_flag: (data & 0x40u8) != 0,
                    ..self.dmc
                },
                dmc_sequencer: Sequencer { reload: rate, timer: rate, ..self.dmc_sequencer },
                ..*self
            })
        } else if addr == 0x4011 {
            new == (Apu { dmc: Dmc { output_level: data & 0x7Fu8, ..self.dmc }, ..*self })
        } else if addr == 0x4012 {
            let a = (0xC000 + data * 64) as u16;
            new == (Apu { dmc: Dmc { sample_addr: a, current_addr: a, ..self.dmc }, ..*self })
        } else if addr == 0x4013 {
            let l = (data * 16 + 1) as u16;
            new == (Apu { dmc: Dmc { sample_len: l, bytes_remaining: l, ..self.dmc }, ..*self })
        } else {
            new == *self
        }
    }

    /// Writes an APU register ($4000-$4013, $4015, $4017).
    pub fn cpu_write(&mut self, addr: u16, data: u8) -> (r: Option<()>)
        requires
            old(self).wf(),
        ensures
            final(self).wf(),
            r == if (0x4000 <= addr <= 0x4013) || addr == 0x4015 || addr == 0x4017 {
                Some(())
            } else {
                None::<()>
            },
            r.is_some() ==> old(self).written(addr, data, *final(self)),
            r.is_none() ==> *final(self) == *old(self),
    {
        if !((addr >= 0x4000 && addr <= 0x4013) || addr == 0x4015 || addr == 0x4017) {
            return None;
        }
        if addr == 0x4015 {
            self.write_status(data);
        } else if addr == 0x4017 {
            // Frame counter: bit 7 selects the 5-step sequence and clears
            // the frame interrupt; the sequencer resets after 3 or 4 CPU
            // cycles, by where the write falls in the APU cycle.
            self.five_step_mode = (data & 0b1000_0000) != 0;
            if (data & 0b1000_0000) != 0 {
                self.frame_interrupt_flag = false;
            }
            self.frame_counter_reset_timer = if self.clock_counter % 6 == 0 { 3 } else { 4 };
        } else if addr <= 0x4007 {
            self.write_pulse(addr, data);
        } else if addr <= 0x400B {
            self.write_triangle(addr, data);
        } else if addr <= 0x400F {
            self.write_noise(addr, data);
        } else {
            self.write_dmc(addr, data);
        }
        Some(())
    }

    /// Status ($4015): one enable bit per channel; a disabled channel's
    /// length counter is cleared.
    fn write_status(&mut self, data: u8)
        requires
            old(self).wf(),
        ensures
            final(self).wf(),
            old(self).status_written(data, *final(self)),
    {
        let p0: Pulse = pulse_enabled(self.pulse[0], (data & 0b0000_0001) != 0);
        let p1: Pulse = pulse_enabled(self.pulse[1], (data & 0b0000_0010) != 0);
        let mut triangle: Triangle = self.triangle;
        triangle.enable = (data & 0b0000_0100) != 0;
        if !triangle.enable {
            triangle.length_counter = 0;
        }
        let mut noise: Noise = self.noise;
        noise.enable = (data & 0b0000_1000) != 0;
        if !noise.enable {
            noise.length_counter = 0;
        }
        let mut dmc: Dmc = self.dmc;
        dmc.enable = (data & 0b0001_0000) != 0;
        if !dmc.enable {
            // A disabled DMC stops after the byte it is playing.
            dmc.bytes_remaining = 0;
        } else {
            // An enabled DMC restarts its sample only when it finished.
            if dmc.bytes_remaining == 0 {
                dmc.current_addr = dmc.sample_addr;
                dmc.bytes_remaining = dmc.sample_len;
            }
        }
        // Writing to this register clears the DMC interrupt flag.
        dmc.interrupt_flag = false;
        self.pulse = [p0, p1];
        self.triangle = triangle;
        self.noise = noise;
        self.dmc = dmc;
    }

    /// Pulse 1 ($4000-$4003) and pulse 2 ($4004-$4007).
    fn write_pulse(&mut self, addr: u16, data: u8)
        requires
            old(self).wf(),
            0x4000 <= addr <= 0x4007,
        ensures
            final(self).wf(),
            old(self).pulse_reg_written(addr, data, *final(self)),
    {
        let i: usize = if addr < 0x4004 { 0 } else { 1 };
        let reg: u16 = (addr - 0x4000) % 4;
        self.pulse[i] = pulse_write(self.pulse[i], reg, data);
    }

    /// Triangle ($4008-$400B).
    fn write_triangle(&mut self, addr: u16, data: u8)
        requires
            old(self).wf(),
            0x4008 <= addr <= 0x400B,
        ensures
            final(self).wf(),
            old(self).channel_reg_written(addr, data, *final(self)),
    {
        proof {
            lemma_apu_bits(data, 0, 0);
        }
        if addr == 0x4008 {
            // CRRR RRRR: control (also the length counter halt) and the
            // linear counter reload value.
            self.triangle.control = (data & 0b1000_0000) != 0;
            self.triangle.linear_counter_reload_value = data & 0b0111_1111;
        } else if addr == 0x400A {
            // Timer lower 8 bits
            self.triangle.sequencer.reload = (self.triangle.sequencer.reload & 0xFF00) | (data as u16);
        } else if addr == 0x400B {
            // Length index and the timer's high three bits
            self.triangle.sequencer.reload = (((data as u16) & 0x07) << 8) | (self.triangle.sequencer.reload
                & 0x00FF);
            self.triangle.length_counter = get_length_counter((data & 0b1111_1000) >> 3);
            self.triangle.linear_counter_reload = true;
        }
    }

    /// Noise ($400C-$400F).
    fn write_noise(&mut self, addr: u16, data: u8)
        requires
            old(self).wf(),
            0x400C <= addr <= 0x400F,
        ensures
            final(self).wf(),
            old(self).channel_reg_written(addr, data, *final(self)),
    {
        proof {
            lemma_apu_bits(data, 0, 0);
        }
        if addr == 0x400C {
            // --LC VVVV: length counter halt, constant volume, volume
            self.noise.length_counter_halt = (data & 0b0010_0000) != 0;
            self.noise.envelope.constant_volume_flag = (data & 0b0001_0000) != 0;
            self.noise.envelope.divider.reload = (data & 0b0000_1111) as u16;
        } else if addr == 0x400E {
            // M--- PPPP: mode and period index
            self.noise.mode_flag = (data & 0b1000_0000) != 0;
            self.noise.sequencer.reload = get_noise_sequencer_period(data & 0b0000_1111);
            self.noise.sequencer.timer = self.noise.sequencer.reload;
        } else if addr == 0x400F {
            // Length index; restarts the envelope.
            self.noise.length_counter = get_length_counter((data & 0b1111_1000) >> 3);
            self.noise.envelope.start_flag = true;
        }
    }

    /// DMC ($4010-$4013).
    fn write_dmc(&mut self, addr: u16, data: u8)
        requires
            old(self).wf(),
            0x4010 <= addr <= 0x4013,
        ensures
            final(self).wf(),
            old(self).channel_reg_written(addr, data, *final(self)),
    {
        proof {
            lemma_apu_bits(data, 0, 0);
        }
        if addr == 0x4010 {
            // IL-- RRRR: IRQ enable, loop, rate index
            self.dmc.irq_enabled_flag = (data & 0b1000_0000) != 0;
            self.dmc.loop_flag = (data & 0b0100_0000) != 0;
            self.dmc_sequencer.reload = get_dmc_rate(data & 0b0000_1111);
            self.dmc_sequencer.timer = self.dmc_sequencer.reload;
        } else if addr == 0x4011 {
            // Direct load of the output level
            self.dmc.output_level = data & 0b0111_1111;
        } else if addr == 0x4012 {
            // Sample address: $C000 + 64 * data
            self.dmc.sample_addr = 0xC000 + (data as u16) * 64;
            self.dmc.current_addr = self.dmc.sample_addr;
        } else {
            // Sample length: 16 * data + 1 bytes
            self.dmc.sample_len = (data as u16) * 16 + 1;
            self.dmc.bytes_remaining = self.dmc.sample_len;
        }
    }
}

impl Pulse {
    /// The pulse channel after a half-frame clock: the sweep may bend the
    /// period, the length counter counts down unless halted, and the
    /// amplitude follows the envelope unless the channel is silenced.
    pub open spec fn half_step(self, is_pulse_2: bool) -> Pulse {
        let period = self.sequencer.reload;
        let target = sweep_target(period, self.sweep.shift_count, self.sweep.negate, is_pulse_2);
        let muting = period < 8 || target > 0x7FF;
        let (d, out) = self.sweep.divider.step();
        let length = if !self.length_counter_halt && self.length_counter > 0 {
            (self.length_counter - 1) as u8
        } else {
            self.length_counter
        };
        Pulse {
            sequencer: Sequencer {
                reload: if out && self.sweep.enabled && self.sweep.shift_count != 0 && !muting {
                    target
                } else {
                    period
                },
                ..self.sequencer
            },
            sweep: Sweep { muting, divider: d, ..self.sweep },
            length_counter: length,
            amplitude: if length == 0 || muting { 0 } else { self.envelope.volume_spec() },
            ..self
        }
    }

    /// The pulse channel after a frame sequencer step with the given
    /// signals: the quarter frame clocks the envelope, then the half frame
    /// clocks the sweep and length counter.
    pub open spec fn frame_step(self, quarter: bool, half: bool, is_pulse_2: bool) -> Pulse {
        let q = if quarter { Pulse { envelope: self.envelope.step(), ..self } } else { self };
        if half { q.half_step(is_pulse_2) } else { q }
    }
}

/// Clocks a pulse channel's frame units.
fn pulse_frame_step(p: Pulse, quarter: bool, half: bool, is_pulse_2: bool) -> (r: Pulse)
    requires
        pulse_wf(p),
    ensures
        r == p.frame_step(quarter, half, is_pulse_2),
        pulse_wf(r),
{
    let mut p: Pulse = p;
    if quarter {
        p.envelope.clock();
    }
    if half {
        proof {
            lemma_apu_bits(0, p.sequencer.reload, p.sweep.shift_count as u16);
        }
        // Update the sweep
        p.sequencer.reload = p.sweep.clock(p.sequencer.reload, is_pulse_2);
        // Update the length counter
        if !p.length_counter_halt && p.length_counter > 0 {
            p.length_counter = p.length_counter - 1;
        }
        // Set the amplitude
        if p.length_counter == 0 || p.sweep.muting {
            p.amplitude = 0;
        } else {
            p.amplitude = p.envelope.volume();
        }
    }
    p
}

impl Apu {
    /// The frame sequencer's counter, reset timer, and quarter and half
    /// frame signals after a clock. The reset timer counts CPU cycles after
    /// a $4017 write and, when it runs out, restarts the sequence (and in
    /// 5-step mode signals both frames); on APU cycles the counter steps,
    /// signalling quarter frames at 3729, 7457, 11186, and at the end of
    /// the sequence (14915 in 4-step mode, 18641 in 5-step mode), where it
    /// also signals a half frame (as at 7457) and restarts.
    pub open spec fn frame_signals(&self) -> (u32, u8, bool, bool) {
        let cc = self.clock_counter;
        let reset = cc % 3 == 0 && self.frame_counter_reset_timer != 0;
        let rt = if reset { (self.frame_counter_reset_timer - 1) as u8 } else { self.frame_counter_reset_timer };
        let restarted = reset && rt == 0;
        let fc0 = if restarted { 0u32 } else { self.frame_clock_counter };
        let q0 = restarted && self.five_step_mode;
        if cc % 6 == 0 {
            let fc1 = (fc0 + 1) as u32;
            let end = (!self.five_step_mode && fc1 == 14915) || (self.five_step_mode && fc1 == 18641);
            let q = q0 || fc1 == 3729 || fc1 == 7457 || fc1 == 11186 || end;
            let h = q0 || fc1 == 7457 || end;
            (if end { 0u32 } else { fc1 }, rt, q, h)
        } else {
            (fc0, rt, q0, q0)
        }
    }

    /// Whether the DMC fetches a byte on this clock.
    pub open spec fn dmc_fetches(&self) -> bool {
        self.clock_counter % 3 == 0 && self.dmc.enable && self.dmc_sequencer.timer == 0 && self.dmc.fetches()
    }

    /// Whether `dmc_fetches` holds.
    pub fn check_dmc_fetches(&self) -> (r: bool)
        ensures
            r == self.dmc_fetches(),
    {
        self.clock_counter % 3 == 0 && self.dmc.enable && self.dmc_sequencer.timer == 0
            && self.dmc.sample_buffer.is_none() && self.dmc.bytes_remaining != 0
    }
}

impl Sequencer {
    /// The sequencer after a timer clock, and whether it fired.
    pub open spec fn step(self, enable: bool) -> (Sequencer, bool) {
        if !enable {
            (self, false)
        } else if self.timer == 0 {
            (Sequencer { timer: self.reload.wrapping_add(1), ..self }, true)
        } else {
            (Sequencer { timer: (self.timer - 1) as u16, ..self }, false)
        }
    }

    /// The sequencer with its sequence advanced to `s`.
    pub open spec fn advanced(self, s: u32) -> Sequencer {
        Sequencer { sequence: s, output: (s as u8) & 1u8, ..self }
    }

    /// Clocking a sequencer and, when its timer passes zero, advancing it to
    /// `f` of its sequence is one whole sequencer step: the timer counts down
    /// or restarts at `reload + 1`; `f` is applied only when the timer passes
    /// zero, to the sequence the sequencer had, and the output is then the
    /// low bit of what `f` gave; otherwise sequence and output stay.
    pub proof fn law_sequencer_clock_then_advance(s: Sequencer, enable: bool, f: spec_fn(u32) -> u32)
        ensures
            ({
                let (t, fired) = s.step(enable);
                let after = if fired { t.advanced(f(t.sequence)) } else { t };
                &&& fired == (enable && s.timer == 0)
                &&& after.sequence == if fired { f(s.sequence) } else { s.sequence }
                &&& after.output == if fired { (f(s.sequence) as u8) & 1u8 } else { s.output }
                &&& after.timer == if !enable {
                    s.timer
                } else if s.timer == 0 {
                    s.reload.wrapping_add(1)
                } else {
                    (s.timer - 1) as u16
                }
                &&& after.reload == s.reload
            }),
    {
    }

    /// Clocks the timer and, when it fires, advances the sequence to `s`.
    fn clock_to(&mut self, enable: bool, s: u32)
        ensures
            ({
                let (t, fired) = old(self).step(enable);
                *final(self) == if fired { t.advanced(s) } else { t }
            }),
    {
        if self.clock(enable) {
            self.advance(s);
        }
    }
}

impl Noise {
    /// The noise channel after a clock with the given frame signals; on
    /// APU cycles its timer runs, and each time it fires the shift register
    /// steps and its new low bit becomes the sequence.
    pub open spec fn step(self, quarter: bool, half: bool, apu_cycle: bool) -> Noise {
        if !apu_cycle {
            self
        } else {
            let e = if quarter { self.envelope.step() } else { self.envelope };
            let length = if half && !self.length_counter_halt && self.length_counter > 0 {
                (self.length_counter - 1) as u8
            } else {
                self.length_counter
            };
            let (t, fired) = self.sequencer.step(self.enable);
            let lfsr = if fired { lfsr_step(self.lfsr.0, self.mode_flag) } else { self.lfsr.0 };
            Noise {
                envelope: e,
                length_counter: length,
                sequencer: if fired { t.advanced((lfsr & 1u16) as u32) } else { t },
                lfsr: LinearFeedbackShiftRegister(lfsr),
                ..self
            }
        }
    }
}

impl Triangle {
    /// The triangle after a clock: on APU cycles the quarter frame clocks
    /// the linear counter and the half frame the length counter (unless
    /// the control flag halts it); every CPU cycle, while both counters are
    /// above zero, its timer runs and each time it fires the wave steps.
    pub open spec fn step(self, quarter: bool, half: bool, apu_cycle: bool, cpu_cycle: bool) -> Triangle {
        let a = if apu_cycle && quarter { self.linear_step() } else { self };
        let b = if apu_cycle && half && !a.control && a.length_counter > 0 {
            Triangle { length_counter: (a.length_counter - 1) as u8, ..a }
        } else {
            a
        };
        if cpu_cycle && b.length_counter != 0 && b.linear_counter != 0 {
            let (t, fired) = b.sequencer.step(b.enable);
            Triangle {
                sequencer: if fired { t.advanced(((b.sequencer.sequence + 1) % 32) as u32) } else { t },
                ..b
            }
        } else {
            b
        }
    }
}

impl Dmc {
    /// The channel after a clock with the cartridge `cart`.
    pub open spec fn clocked(self, cart: Cart) -> Dmc {
        if self.fetches() {
            self.after_fetch(
                match cart.cpu_peek(self.current_addr) {
                    Some(d) => d,
                    None => 0u8,
                },
            ).after_output()
        } else {
            self.after_output()
        }
    }
}

impl Apu {
    /// Clocks the APU once per PPU clock: the frame sequencer and the
    /// channel units run at their rates (every sixth call for the APU,
    /// every third for the CPU). The result says whether this was an APU
    /// cycle, on which the pulse oscillators are sampled.
    /// `new` is this APU after one clock with the cartridge `cart`, and `r`
    /// says whether it was an APU cycle.
    pub open spec fn clocked(&self, cart: Cart, new: Apu, r: bool) -> bool {
        &&& (({
                    let (fc, rt, q, h) = self.frame_signals();
                    let apu_cycle = self.clock_counter % 6 == 0;
                    let cpu_cycle = self.clock_counter % 3 == 0;
                    let (ds, fired) = self.dmc_sequencer.step(self.dmc.enable);
                    &&& r == apu_cycle
                    &&& new.clock_counter == self.clock_counter.wrapping_add(1)
                    &&& new.frame_clock_counter == fc
                    &&& new.frame_counter_reset_timer == rt
                    &&& new.five_step_mode == self.five_step_mode
                    &&& new.frame_interrupt_flag == self.frame_interrupt_flag
                    &&& new.pulse[0] == if apu_cycle { self.pulse[0].frame_step(q, h, false) } else { self.pulse[0] }
                    &&& new.pulse[1] == if apu_cycle { self.pulse[1].frame_step(q, h, true) } else { self.pulse[1] }
                    &&& new.noise == self.noise.step(q, h, apu_cycle)
                    &&& new.triangle == self.triangle.step(q, h, apu_cycle, cpu_cycle)
                    &&& new.dmc == if cpu_cycle && fired { self.dmc.clocked(cart) } else { self.dmc }
                    &&& new.dmc_sequencer == if !cpu_cycle {
                        self.dmc_sequencer
                    } else if fired {
                        ds.advanced(0)
                    } else {
                        ds
                    }
                }))
    }

    pub fn clock(&mut self, cart: &mut Cart) -> (r: bool)
        requires
            old(self).wf(),
            old(cart).wf(),
            old(self).frame_clock_counter < u32::MAX,
            old(self).dmc_fetches() ==> old(cart).cpu_read_ok(old(self).dmc.current_addr),
        ensures
            final(self).wf(),
            *final(cart) == *old(cart),
            old(self).clocked(*old(cart), *final(self), r),
    {
        let apu_cycle: bool = self.clock_counter % 6 == 0;
        let (quarter_frame, half_frame) = self.frame_tick();
        // The APU runs at half the CPU rate, a sixth of the PPU rate.
        if apu_cycle {
            self.apu_cycle_units(quarter_frame, half_frame);
        }
        // The triangle's timer and the DMC run at the CPU rate.
        if self.clock_counter % 3 == 0 {
            self.cpu_cycle_units(cart);
        }
        self.clock_counter = self.clock_counter.wrapping_add(1);
        apu_cycle
    }

    /// The frame sequencer's step: see `frame_signals`.
    fn frame_tick(&mut self) -> (r: (bool, bool))
        requires
            old(self).frame_clock_counter < u32::MAX,
        ensures
            ({
                let (fc, rt, q, h) = old(self).frame_signals();
                &&& r == (q, h)
                &&& *final(self) == (Apu {
                    frame_clock_counter: fc,
                    frame_counter_reset_timer: rt,
                    ..*old(self)
                })
            }),
    {
        let mut quarter_frame: bool = false;
        let mut half_frame: bool = false;
        // The reset timer counts the CPU cycles after a $4017 write; when it
        // runs out the sequence restarts, with both signals in 5-step mode.
        if self.clock_counter % 3 == 0 && self.frame_counter_reset_timer != 0 {
            self.frame_counter_reset_timer = self.frame_counter_reset_timer - 1;
            if self.frame_counter_reset_timer == 0 {
                self.frame_clock_counter = 0;
                if self.five_step_mode {
                    quarter_frame = true;
                    half_frame = true;
                }
            }
        }
        if self.clock_counter % 6 == 0 {
            self.frame_clock_counter = self.frame_clock_counter + 1;
            if self.frame_clock_counter == 3729 {
                quarter_frame = true;
            }
            if self.frame_clock_counter == 7457 {
                quarter_frame = true;
                half_frame = true;
            }
            if self.frame_clock_counter == 11186 {
                quarter_frame = true;
            }
            if (!self.five_step_mode && self.frame_clock_counter == 14915) || (self.five_step_mode
                && self.frame_clock_counter == 18641) {
                quarter_frame = true;
                half_frame = true;
                self.frame_clock_counter = 0;
            }
        }
        (quarter_frame, half_frame)
    }

    /// The units clocked on an APU cycle: the pulse, triangle and noise
    /// frame units and the noise timer.
    fn apu_cycle_units(&mut self, quarter_frame: bool, half_frame: bool)
        requires
            old(self).wf(),
        ensures
            final(self).wf(),
            final(self).pulse[0] == old(self).pulse[0].frame_step(quarter_frame, half_frame, false),
            final(self).pulse[1] == old(self).pulse[1].frame_step(quarter_frame, half_frame, true),
            final(self).noise == old(self).noise.step(quarter_frame, half_frame, true),
            final(self).triangle == old(self).triangle.step(quarter_frame, half_frame, true, false),
            *final(self) == (Apu {
                pulse: final(self).pulse,
                noise: final(self).noise,
                triangle: final(self).triangle,
                ..*old(self)
            }),
    {
        let p0: Pulse = pulse_frame_step(self.pulse[0], quarter_frame, half_frame, false);
        let p1: Pulse = pulse_frame_step(self.pulse[1], quarter_frame, half_frame, true);
        self.pulse = [p0, p1];
        let mut noise: Noise = self.noise;
        if quarter_frame {
            noise.envelope.clock();
        }
        let mut triangle: Triangle = self.triangle;
        if quarter_frame {
            triangle.linear_counter_clock();
        }
        if half_frame {
            if !triangle.control && triangle.length_counter > 0 {
                triangle.length_counter = triangle.length_counter - 1;
            }
            if !noise.length_counter_halt && noise.length_counter > 0 {
                noise.length_counter = noise.length_counter - 1;
            }
        }
        // The noise timer steps the shift register, whose low bit is the
        // sequence.
        if noise.sequencer.clock(noise.enable) {
            let bit: u16 = Noise::clock(&mut noise.lfsr, noise.mode_flag);
            noise.sequencer.advance(bit as u32);
        }
        self.noise = noise;
        self.triangle = triangle;
    }

    /// The units clocked on a CPU cycle: the triangle's timer, and the DMC
    /// with its timer.
    fn cpu_cycle_units(&mut self, cart: &mut Cart)
        requires
            old(self).wf(),
            old(cart).wf(),
            old(self).dmc.enable && old(self).dmc_sequencer.timer == 0 && old(self).dmc.fetches()
                ==> old(cart).cpu_read_ok(old(self).dmc.current_addr),
        ensures
            final(self).wf(),
            *final(cart) == *old(cart),
            final(self).triangle == old(self).triangle.step(false, false, false, true),
            ({
                let (ds, fired) = old(self).dmc_sequencer.step(old(self).dmc.enable);
                &&& final(self).dmc == if fired { old(self).dmc.clocked(*old(cart)) } else { old(self).dmc }
                &&& final(self).dmc_sequencer == if fired { ds.advanced(0) } else { ds }
            }),
            *final(self) == (Apu {
                triangle: final(self).triangle,
                dmc: final(self).dmc,
                dmc_sequencer: final(self).dmc_sequencer,
                ..*old(self)
            }),
    {
        if self.triangle.length_counter != 0 && self.triangle.linear_counter != 0 {
            let next: u32 = (self.triangle.sequencer.sequence + 1) % 32;
            let enable: bool = self.triangle.enable;
            self.triangle.sequencer.clock_to(enable, next);
        }
        if self.dmc_sequencer.clock(self.dmc.enable) {
            self.dmc.clock(cart);
            self.dmc_sequencer.advance(0);
        }
    }

    /// Silences all channels, as a write of zero to $4015.
    pub fn reset(&mut self)
        requires
            old(self).wf(),
        ensures
            final(self).wf(),
            old(self).written(0x4015, 0, *final(self)),
    {
        self.cpu_write(0x4015, 0x00);
    }
}

/// A byte made of one flag per bit reads each flag back from its bit.
proof fn lemma_status_flags(p0: bool, p1: bool, t: bool, n: bool, d: bool, f: bool, i: bool)
    by (bit_vector)
    ensures
        ({
            let s: u8 = (if p0 { 0x01u8 } else { 0u8 }) | (if p1 { 0x02u8 } else { 0u8 }) | (if t {
                0x04u8
            } else {
                0u8
            }) | (if n { 0x08u8 } else { 0u8 }) | (if d { 0x10u8 } else { 0u8 }) | (if f { 0x40u8 } else { 0u8 })
                | (if i { 0x80u8 } else { 0u8 });
            &&& (s & 0x01u8 != 0) == p0
            &&& (s & 0x02u8 != 0) == p1
            &&& (s & 0x04u8 != 0) == t
            &&& (s & 0x08u8 != 0) == n
            &&& (s & 0x10u8 != 0) == d
            &&& (s & 0x20u8) == 0
            &&& (s & 0x40u8 != 0) == f
            &&& (s & 0x80u8 != 0) == i
        }),
{
}

/// What a read of $4015 answers, bit by bit: bits 0 to 3 are set exactly
/// when the length counter of pulse 1, pulse 2, the triangle and the noise
/// channel, in that order, is above zero; bit 4 when the DMC has bytes
/// left; bit 5 is clear; bit 6 is the frame interrupt and bit 7 the DMC
/// interrupt.
pub proof fn law_status_bits(apu: Apu)
    ensures
        ({
            let s = apu.status_byte();
            &&& (s & 0x01u8 != 0) == (apu.pulse[0].length_counter > 0)
            &&& (s & 0x02u8 != 0) == (apu.pulse[1].length_counter > 0)
            &&& (s & 0x04u8 != 0) == (apu.triangle.length_counter > 0)
            &&& (s & 0x08u8 != 0) == (apu.noise.length_counter > 0)
            &&& (s & 0x10u8 != 0) == (apu.dmc.bytes_remaining > 0)
            &&& (s & 0x20u8) == 0
            &&& (s & 0x40u8 != 0) == apu.frame_interrupt_flag
            &&& (s & 0x80u8 != 0) == apu.dmc.interrupt_flag
        }),
{
    lemma_status_flags(
        apu.pulse[0].length_counter > 0,
        apu.pulse[1].length_counter > 0,
        apu.triangle.length_counter > 0,
        apu.noise.length_counter > 0,
        apu.dmc.bytes_remaining > 0,
        apu.frame_interrupt_flag,
        apu.dmc.interrupt_flag,
    );
}

/// Every length counter load value is above zero.
proof fn lemma_length_table_positive(i: int)
    requires
        0 <= i < 32,
    ensures
        length_table()[i] > 0,
{
}

/// A write to $4015 followed by a read of $4015: a channel reports a
/// running length counter only if the write enabled it (bit 0 for pulse 1,
/// 1 for pulse 2, 2 for the triangle, 3 for the noise channel) and its
/// counter was running before; a disabled channel reports zero. The write
/// acknowledges the DMC interrupt, and leaves the frame interrupt.
pub proof fn law_status_write_then_read(apu: Apu, data: u8, new: Apu)
    requires
        apu.written(0x4015, data, new),
    ensures
        ({
            let s = new.status_byte();
            &&& (s & 0x01u8 != 0) == (data & 0x01u8 != 0 && apu.pulse[0].length_counter > 0)
            &&& (s & 0x02u8 != 0) == (data & 0x02u8 != 0 && apu.pulse[1].length_counter > 0)
            &&& (s & 0x04u8 != 0) == (data & 0x04u8 != 0 && apu.triangle.length_counter > 0)
            &&& (s & 0x08u8 != 0) == (data & 0x08u8 != 0 && apu.noise.length_counter > 0)
            &&& (s & 0x10u8 != 0) ==> data & 0x10u8 != 0
            &&& (s & 0x40u8 != 0) == apu.frame_interrupt_flag
            &&& s & 0x80u8 == 0
        }),
{
    law_status_bits(new);
}

/// Loading a length counter makes $4015 report that channel, and only that
/// channel's bit changes: a write to $4003 (pulse 1) or $4007 (pulse 2)
/// while the channel is enabled, or to $400B (triangle) or $400F (noise),
/// sets bit 0, 1, 2 or 3 of the status, in that order.
pub proof fn law_length_load_then_read(apu: Apu, addr: u16, data: u8, new: Apu)
    requires
        addr == 0x4003 || addr == 0x4007 || addr == 0x400B || addr == 0x400F,
        addr == 0x4003 ==> apu.pulse[0].enable,
        addr == 0x4007 ==> apu.pulse[1].enable,
        apu.written(addr, data, new),
    ensures
        ({
            let bit: u8 = if addr == 0x4003 {
                0x01u8
            } else if addr == 0x4007 {
                0x02u8
            } else if addr == 0x400B {
                0x04u8
            } else {
                0x08u8
            };
            let s0 = apu.status_byte();
            let s = new.status_byte();
            &&& s & bit != 0
            &&& forall|b: u8|
                (b == 0x01u8 || b == 0x02u8 || b == 0x04u8 || b == 0x08u8 || b == 0x10u8 || b == 0x40u8 || b
                    == 0x80u8) && b != bit ==> (#[trigger] (s & b) != 0) == (s0 & b != 0)
        }),
{
    lemma_apu_bits(data, 0, 0);
    lemma_length_table_positive((data >> 3u8) as int);
    law_status_bits(apu);
    law_status_bits(new);
}

} // verus!
