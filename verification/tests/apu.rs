use nessers::apu::{
    get_dmc_rate, get_length_counter, get_noise_sequencer_period, Apu, Divider, Envelope, LinearFeedbackShiftRegister, Noise,
    Sequencer, Sweep,
};
use nessers::cart::{Cart, FLAG_HAS_RAM};

fn apu_test_cart() -> Cart {
    let mut data = vec![0x4E, 0x45, 0x53, 0x1A, 0x01, 0x01, FLAG_HAS_RAM, 0x00];
    data.resize(16, 0x00);
    data.resize(16 + 16 * 1024, 0x42);
    data.resize(16 + 16 * 1024 + 8 * 1024, 0x43);
    Cart::new(&data).unwrap()
}

#[test]
fn apu_tables() {
    assert_eq!(get_length_counter(0), 10);
    assert_eq!(get_length_counter(1), 254);
    assert_eq!(get_length_counter(0x1F), 30);
    // Only the low five bits select an entry.
    assert_eq!(get_length_counter(0x20), 10);
    assert_eq!(get_noise_sequencer_period(0), 4);
    assert_eq!(get_noise_sequencer_period(0x0F), 4068);
    assert_eq!(get_noise_sequencer_period(0x18), 202);
    assert_eq!(get_dmc_rate(0), 428);
    assert_eq!(get_dmc_rate(0x0F), 54);
}

#[test]
fn apu_sequencer_reloads_when_it_passes_zero() {
    let mut s = Sequencer::new();
    s.reload = 2;
    s.timer = 1;
    assert!(!s.clock(true));
    assert_eq!(s.timer, 0);
    assert!(s.clock(true));
    assert_eq!(s.timer, 3);
    // A disabled sequencer does not count.
    assert!(!s.clock(false));
    assert_eq!(s.timer, 3);
}

#[test]
fn apu_divider_outputs_at_zero() {
    let mut d = Divider::new();
    d.reload = 1;
    d.counter = 1;
    assert!(!d.clock());
    assert!(d.clock());
    assert_eq!(d.counter, 1);
}

#[test]
fn apu_envelope_decays_from_fifteen() {
    let mut e = Envelope::new();
    e.start_flag = true;
    e.clock();
    assert_eq!(e.decay_level, 15);
    assert_eq!(e.volume(), 15);
    e.constant_volume_flag = true;
    e.divider.reload = 7;
    assert_eq!(e.volume(), 7);
}

#[test]
fn apu_register_writes() {
    let mut apu = Apu::new();
    // $4000: duty 2 (half), constant volume 9.
    assert_eq!(apu.cpu_write(0x4000, 0b1001_1001), Some(()));
    assert_eq!(apu.pulse[0].duty_eighths, 4);
    assert!(apu.pulse[0].envelope.constant_volume_flag);
    assert_eq!(apu.pulse[0].envelope.divider.reload, 9);
    // $4002/$4003: the timer period, low then high bits.
    apu.cpu_write(0x4002, 0x34);
    apu.cpu_write(0x4003, 0x02);
    assert_eq!(apu.pulse[0].sequencer.reload, 0x234);
    // $4015 enables channels; $4003 then loads the length counter.
    apu.cpu_write(0x4015, 0x01);
    assert!(apu.pulse[0].enable);
    apu.cpu_write(0x4003, 0x08);
    assert_eq!(apu.pulse[0].length_counter, 254);
    // $4008: the triangle's linear counter.
    apu.cpu_write(0x4008, 0x85);
    assert!(apu.triangle.control);
    assert_eq!(apu.triangle.linear_counter_reload_value, 5);
    // $4012/$4013: the DMC sample address and length.
    apu.cpu_write(0x4012, 0x01);
    apu.cpu_write(0x4013, 0x02);
    assert_eq!(apu.dmc.sample_addr, 0xC040);
    assert_eq!(apu.dmc.sample_len, 33);
    // Other addresses are not the APU's.
    assert_eq!(apu.cpu_write(0x4014, 0x00), None);
    assert_eq!(apu.cpu_write(0x4016, 0x00), None);
}

#[test]
fn apu_status_read_clears_frame_interrupt() {
    let mut apu = Apu::new();
    apu.cpu_write(0x4015, 0x01);
    apu.cpu_write(0x4003, 0x08);
    apu.frame_interrupt_flag = true;
    let status = apu.cpu_read(0x4015).unwrap();
    assert_eq!(status & 0x01, 0x01);
    assert_eq!(status & 0x40, 0x40);
    assert!(!apu.frame_interrupt_flag);
    assert_eq!(apu.cpu_read(0x4000), None);
}

#[test]
fn apu_clock_counts_apu_cycles() {
    let mut apu = Apu::new();
    let mut cart = apu_test_cart();
    // The first clock is an APU cycle; the next five are not.
    assert!(apu.clock(&mut cart));
    for _ in 0..5 {
        assert!(!apu.clock(&mut cart));
    }
    assert!(apu.clock(&mut cart));
    assert_eq!(apu.clock_counter, 7);
}

#[test]
fn apu_reset_silences_channels() {
    let mut apu = Apu::new();
    apu.cpu_write(0x4015, 0x0F);
    apu.cpu_write(0x4003, 0x08);
    apu.reset();
    assert!(!apu.pulse[0].enable);
    assert_eq!(apu.pulse[0].length_counter, 0);
}

#[test]
fn apu_divider_period_is_reload_plus_one() {
    let mut d = Divider { reload: 3, counter: 3, force_reload: false };
    let outputs: Vec<bool> = (0..8).map(|_| d.clock()).collect();
    assert_eq!(outputs, vec![false, false, false, true, false, false, false, true]);
    assert_eq!(d, Divider { reload: 3, counter: 3, force_reload: false });
}

#[test]
fn apu_divider_forced_reload_does_not_output() {
    let mut d = Divider { reload: 5, counter: 2, force_reload: true };
    assert!(!d.clock());
    assert_eq!(d, Divider { reload: 5, counter: 5, force_reload: false });
    // At zero a forced reload outputs as any reload does.
    let mut d = Divider { reload: 5, counter: 0, force_reload: true };
    assert!(d.clock());
    assert_eq!(d.counter, 5);
}

#[test]
fn apu_noise_mode_one_feeds_back_bit_six() {
    let mut lfsr = LinearFeedbackShiftRegister(0x0041);
    assert_eq!(Noise::clock(&mut lfsr, true), 0);
    assert_eq!(lfsr.0, 0x0020);
    // Mode 0 feeds back bit 1.
    let mut lfsr = LinearFeedbackShiftRegister(0x0001);
    assert_eq!(Noise::clock(&mut lfsr, false), 0);
    assert_eq!(lfsr.0, 0x4000);
}

#[test]
fn apu_sweep_with_zero_shift_keeps_the_period() {
    let mut s = Sweep::new();
    s.enabled = true;
    s.shift_count = 0;
    // The divider is at zero, so it outputs; the period stays.
    assert_eq!(s.clock(0x100, true), 0x100);
    // With a shift of 1 the period grows by half.
    let mut s = Sweep::new();
    s.enabled = true;
    s.shift_count = 1;
    assert_eq!(s.clock(0x100, true), 0x180);
}

#[test]
fn apu_length_counter_counts_down_at_the_first_half_frame() {
    let mut apu = Apu::new();
    let mut cart = apu_test_cart();
    apu.cpu_write(0x4015, 0x01);
    apu.cpu_write(0x4003, 0xF8);
    assert_eq!(apu.pulse[0].length_counter, 30);
    for _ in 0..44736 {
        apu.clock(&mut cart);
    }
    assert_eq!(apu.pulse[0].length_counter, 30);
    apu.clock(&mut cart);
    assert_eq!(apu.pulse[0].length_counter, 29);
}

#[test]
fn apu_sequencer_output_is_low_bit_of_the_advanced_sequence() {
    let rotate = |s: u32| ((s & 1) << 7) | (s >> 1);
    let mut s = Sequencer { sequence: 0b0000_0011, timer: 1, reload: 4, output: 0 };
    // The timer has not passed zero: sequence and output stay.
    assert!(!s.clock(true));
    assert_eq!(s.sequence, 0b0000_0011);
    assert_eq!(s.output, 0);
    // It passes zero: the sequence advances once and its low bit is the output.
    assert!(s.clock(true));
    let out = s.advance(rotate(s.sequence));
    assert_eq!(s.sequence, 0b1000_0001);
    assert_eq!(out, 1);
    assert_eq!(s.output, 1);
    assert_eq!(s.timer, 5);
}
