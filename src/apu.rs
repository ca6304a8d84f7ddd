use vstd::prelude::*;
use crate::bits::{lemma_and_le, lemma_low_byte};
use crate::apu::pulse_sweep_channel::PulseSweepChannel;
use crate::apu::pulse_channel::PulseChannel;
use crate::apu::wave_channel::WaveChannel;
use crate::apu::noise_channel::NoiseChannel;

pub mod pulse_channel;
pub mod pulse_sweep_channel;
pub mod wave_channel;
pub mod noise_channel;

verus! {

/// Whether a frame-sequencer step clocks the length timers: the even steps.
pub open spec fn clocks_length(frame_step: u8) -> bool {
    frame_step % 2 == 0
}

/// Returns whether the next frame-sequencer step clocks the length timers.
pub fn next_step_clocks_length(frame_step: u8) -> (r: bool)
    ensures
        r == clocks_length(frame_step),
{
    frame_step % 2 == 0
}

/// The pulse duty waveforms: 12.5%, 25%, 50% and 75%.
pub open spec fn duty_bit(duty: u8, step: u8) -> u8 {
    if duty == 0 {
        if step == 7 { 1 } else { 0 }
    } else if duty == 1 {
        if step >= 6 { 1 } else { 0 }
    } else if duty == 2 {
        if step >= 4 { 1 } else { 0 }
    } else {
        if step < 6 { 1 } else { 0 }
    }
}

/// Returns one sample of a duty waveform.
pub fn duty_table_bit(duty: u8, step: u8) -> (r: u8)
    requires
        duty < 4,
        step < 8,
    ensures
        r == duty_bit(duty, step),
        r <= 1,
{
    if duty == 0 {
        if step == 7 { 1 } else { 0 }
    } else if duty == 1 {
        if step >= 6 { 1 } else { 0 }
    } else if duty == 2 {
        if step >= 4 { 1 } else { 0 }
    } else {
        if step < 6 { 1 } else { 0 }
    }
}

/// The volume after one envelope step: up or down by one within 0 to 15.
pub open spec fn envelope_volume(nrx2: u8, volume: u8) -> u8 {
    if nrx2 & 0x08 == 0x08 {
        if volume < 15 {
            (volume + 1) as u8
        } else {
            volume
        }
    } else if volume > 0 {
        (volume - 1) as u8
    } else {
        0
    }
}

/// The envelope timer and volume after one envelope clock.
pub open spec fn envelope_step(nrx2: u8, timer: u8, volume: u8) -> (u8, u8) {
    if nrx2 & 0x07 == 0 || timer == 0 {
        (timer, volume)
    } else if timer == 1 {
        (nrx2 & 0x07, envelope_volume(nrx2, volume))
    } else {
        ((timer - 1) as u8, volume)
    }
}

/// T-cycles between two audio samples: the clock rate over 44 100 Hz.
pub const SAMPLES_PER_CYCLE: u16 = 95;

/// T-cycles per frame-sequencer step.
pub const FRAME_SEQUENCER_CYCLES: u16 = 8192;

/// One stereo sample before the host's float conversion. Each side is the sum
/// of the panned channel outputs (0 to 15 each) times the side's volume plus
/// one (1 to 8): the host divides by 15 * 8 and applies its master volume.
#[derive(Debug, Clone, Copy, PartialEq, Eq, Structural)]
pub struct MixedSample {
    pub left: u16,
    pub right: u16,
}

/// The output of a channel when its pan bit is set.
pub open spec fn panned(nr51: u8, bit: u8, sample: u8) -> int {
    if nr51 & bit == bit {
        sample as int
    } else {
        0
    }
}

/// Mixes four channel outputs by the pan byte NR51 and the volume byte NR50.
pub open spec fn mix(nr50: u8, nr51: u8, s1: u8, s2: u8, s3: u8, s4: u8) -> MixedSample {
    let right = panned(nr51, 0x01, s1) + panned(nr51, 0x02, s2) + panned(nr51, 0x04, s3)
        + panned(nr51, 0x08, s4);
    let left = panned(nr51, 0x10, s1) + panned(nr51, 0x20, s2) + panned(nr51, 0x40, s3)
        + panned(nr51, 0x80, s4);
    MixedSample {
        left: (left * (((nr50 >> 4) & 0x07) + 1)) as u16,
        right: (right * ((nr50 & 0x07) + 1)) as u16,
    }
}

/// The sum of four outputs, each counted when its pan bit is set.
pub fn panned_sum(nr51: u8, m1: u8, m2: u8, m3: u8, m4: u8, s1: u8, s2: u8, s3: u8, s4: u8) -> (r: u16)
    requires
        s1 <= 15,
        s2 <= 15,
        s3 <= 15,
        s4 <= 15,
    ensures
        r == panned(nr51, m1, s1) + panned(nr51, m2, s2) + panned(nr51, m3, s3) + panned(nr51, m4, s4),
        r <= 60,
{
    let mut sum: u16 = 0;
    if nr51 & m1 == m1 {
        sum = sum + s1 as u16;
    }
    if nr51 & m2 == m2 {
        sum = sum + s2 as u16;
    }
    if nr51 & m3 == m3 {
        sum = sum + s3 as u16;
    }
    if nr51 & m4 == m4 {
        sum = sum + s4 as u16;
    }
    sum
}

/// Mixes four channel outputs into one stereo sample.
pub fn mix_channels(nr50: u8, nr51: u8, s1: u8, s2: u8, s3: u8, s4: u8) -> (r: MixedSample)
    requires
        s1 <= 15,
        s2 <= 15,
        s3 <= 15,
        s4 <= 15,
    ensures
        r == mix(nr50, nr51, s1, s2, s3, s4),
{
    let right = panned_sum(nr51, 0x01, 0x02, 0x04, 0x08, s1, s2, s3, s4);
    let left = panned_sum(nr51, 0x10, 0x20, 0x40, 0x80, s1, s2, s3, s4);
    let left_volume = (nr50 >> 4) & 0x07;
    let right_volume = nr50 & 0x07;
    proof {
        lemma_and_le(nr50 >> 4, 0x07);
        lemma_and_le(nr50, 0x07);
    }
    assert(left * (left_volume as u16 + 1) <= 480 && right * (right_volume as u16 + 1) <= 480)
        by (nonlinear_arith)
        requires
            left <= 60,
            right <= 60,
            left_volume <= 7,
            right_volume <= 7,
    ;
    MixedSample { left: left * (left_volume as u16 + 1), right: right * (right_volume as u16 + 1) }
}

/// The audio unit: four channels, the frame sequencer and the mixer.
#[derive(Debug)]
pub struct Apu {
    pub channel1: PulseSweepChannel,
    pub channel2: PulseChannel,
    pub channel3: WaveChannel,
    pub channel4: NoiseChannel,
    /// Master volume per side.
    pub nr50: u8,
    /// Panning.
    pub nr51: u8,
    /// Master enable, bit 7.
    pub nr52: u8,
    pub frame_sequencer_cycles: u16,
    pub frame_sequencer_step: u8,
    pub dots: u16,
    /// Samples produced and not yet taken by the host.
    pub samples: Vec<MixedSample>,
}

impl Apu {
    pub open spec fn wf(&self) -> bool {
        &&& self.channel1.wf()
        &&& self.channel2.wf()
        &&& self.channel3.wf()
        &&& self.channel4.wf()
        &&& self.frame_sequencer_cycles < 8192
        &&& self.frame_sequencer_step < 8
        &&& self.dots < 95
    }

    pub open spec fn is_on(&self) -> bool {
        self.nr52 & 0x80 == 0x80
    }

    /// The bitfield of enabled channels, read in NR52's low nibble.
    pub open spec fn channel_bits(&self) -> u8 {
        ((if self.channel1.enabled { 1int } else { 0 }) + (if self.channel2.enabled { 2int } else { 0 })
            + (if self.channel3.enabled { 4int } else { 0 }) + (if self.channel4.enabled { 8int } else { 0 })) as u8
    }

    /// The current mix of the four channels.
    pub open spec fn current_mix(&self) -> MixedSample {
        mix(
            self.nr50,
            self.nr51,
            if self.channel1.enabled {
                (duty_bit(self.channel1.nr11 >> 6, self.channel1.duty_step) * self.channel1.volume) as u8
            } else {
                0
            },
            if self.channel2.enabled {
                (duty_bit(self.channel2.nr21 >> 6, self.channel2.duty_step) * self.channel2.volume) as u8
            } else {
                0
            },
            if self.channel3.enabled {
                wave_channel::wave_level(
                    self.channel3.nr32,
                    wave_channel::wave_nibble(self.channel3.wave_ram@, self.channel3.wave_ram_index),
                )
            } else {
                0
            },
            if self.channel4.enabled && self.channel4.lsfr & 0x01 == 0 {
                self.channel4.volume
            } else {
                0
            },
        )
    }

    /// What a CPU read of an audio register or of wave RAM returns.
    pub open spec fn register_read(&self, address: u16) -> u8 {
        if 0xFF10 <= address < 0xFF15 {
            self.channel1.register_read(address)
        } else if 0xFF16 <= address < 0xFF1A {
            self.channel2.register_read(address)
        } else if 0xFF1A <= address < 0xFF1F {
            self.channel3.register_read(address)
        } else if 0xFF20 <= address < 0xFF24 {
            self.channel4.register_read(address)
        } else if address == 0xFF24 {
            self.nr50
        } else if address == 0xFF25 {
            self.nr51
        } else if address == 0xFF26 {
            self.nr52 | self.channel_bits() | 0x70
        } else if 0xFF30 <= address < 0xFF40 {
            self.channel3.wave_ram_read(address)
        } else {
            0xFF
        }
    }

    /// The frame sequencer advanced by one T-cycle: every 8192 it runs the
    /// length timers on even steps, the sweep on steps 2 and 6 and the
    /// envelopes on step 7.
    pub open spec fn sequencer_ticked(
        self,
        c1: PulseSweepChannel,
        c2: PulseChannel,
        c3: WaveChannel,
        c4: NoiseChannel,
        cycles: u16,
        step: u8,
    ) -> bool {
        if self.frame_sequencer_cycles + 1 == 8192 {
            let st = self.frame_sequencer_step;
            &&& cycles == 0
            &&& step == (st + 1) % 8
            &&& c1 == if st % 2 == 0 {
                if st == 2 || st == 6 {
                    self.channel1.length_stepped().sweep_stepped()
                } else {
                    self.channel1.length_stepped()
                }
            } else if st == 7 {
                self.channel1.envelope_stepped()
            } else {
                self.channel1
            }
            &&& c2 == if st % 2 == 0 {
                self.channel2.length_stepped()
            } else if st == 7 {
                self.channel2.envelope_stepped()
            } else {
                self.channel2
            }
            &&& c3 == if st % 2 == 0 {
                self.channel3.length_stepped()
            } else {
                self.channel3
            }
            &&& c4 == if st % 2 == 0 {
                self.channel4.length_stepped()
            } else if st == 7 {
                self.channel4.envelope_stepped()
            } else {
                self.channel4
            }
        } else {
            &&& cycles == self.frame_sequencer_cycles + 1
            &&& step == self.frame_sequencer_step
            &&& c1 == self.channel1
            &&& c2 == self.channel2
            &&& c3 == self.channel3
            &&& c4 == self.channel4
        }
    }

    /// `self` is `old` after one T-cycle while on: every channel stepped, the
    /// frame sequencer ticked, and every 95th T-cycle one more sample queued.
    pub open spec fn stepped_from(&self, old: &Apu) -> bool {
        old.is_on() ==> {
            let c1 = old.channel1.stepped();
            let c2 = old.channel2.stepped();
            let c3 = old.channel3.stepped();
            let c4 = old.channel4.stepped();
            let mid = Apu { channel1: c1, channel2: c2, channel3: c3, channel4: c4, ..*old };
            &&& mid.sequencer_ticked(
                self.channel1,
                self.channel2,
                self.channel3,
                self.channel4,
                self.frame_sequencer_cycles,
                self.frame_sequencer_step,
            )
            &&& self.nr50 == old.nr50
            &&& self.nr51 == old.nr51
            &&& self.nr52 == old.nr52
            &&& if old.dots + 1 >= 95 {
                &&& self.dots == 0
                &&& self.samples@ == old.samples@.push(self.current_mix())
            } else {
                &&& self.dots == old.dots + 1
                &&& self.samples@ == old.samples@
            }
        }
    }

    /// `self` is `old` after a CPU write to an audio register or wave RAM.
    pub open spec fn register_write_effect(&self, old: &Apu, address: u16, value: u8) -> bool {
        &&& (self.samples == old.samples)
        &&& (self.frame_sequencer_cycles == old.frame_sequencer_cycles)
        &&& (self.dots == old.dots)
        &&& (({
            let on = old.is_on();
            let fs = old.frame_sequencer_step;
            if 0xFF10 <= address < 0xFF15 {
                self.channel1 == old.channel1.written(on, address, value, fs)
            } else {
                0xFF16 <= address < 0xFF1A ==> self.channel2 == old.channel2.written(on, address, value, fs)
            }
        }))
        &&& (0xFF1A <= address < 0xFF1F ==> self.channel3 == old.channel3.written(
            old.is_on(), address, value, old.frame_sequencer_step))
        &&& (0xFF20 <= address < 0xFF24 ==> self.channel4 == old.channel4.written(
            old.is_on(), address, value, old.frame_sequencer_step))
        &&& (0xFF30 <= address < 0xFF40 ==> self.channel3.wave_ram_written(old.channel3, address, value))
        &&& (address == 0xFF24 ==> self.nr50 == if old.is_on() { value } else { old.nr50 })
        &&& (address == 0xFF25 ==> self.nr51 == if old.is_on() { value } else { old.nr51 })
        &&& (address == 0xFF26 ==> {
            let off = old.is_on() && value & 0x80 != 0x80;
            let on = !old.is_on() && value & 0x80 == 0x80;
            &&& self.nr52 == value & 0x80
            &&& self.channel1 == if off { old.channel1.cleared() } else { old.channel1 }
            &&& self.channel2 == if off { old.channel2.cleared() } else { old.channel2 }
            &&& self.channel3 == if off { old.channel3.cleared() } else { old.channel3 }
            &&& self.channel4 == if off { old.channel4.cleared() } else { old.channel4 }
            &&& self.nr50 == if off { 0 } else { old.nr50 }
            &&& self.nr51 == if off { 0 } else { old.nr51 }
            &&& self.frame_sequencer_step == if on { 0 } else { old.frame_sequencer_step }
        })
        &&& (address != 0xFF26 ==> self.nr52 == old.nr52 && self.frame_sequencer_step
            == old.frame_sequencer_step)
        &&& (!(0xFF10 <= address < 0xFF15) && address != 0xFF26 ==> self.channel1 == old.channel1)
        &&& (!(0xFF16 <= address < 0xFF1A) && address != 0xFF26 ==> self.channel2 == old.channel2)
        &&& (!(0xFF1A <= address < 0xFF1F) && !(0xFF30 <= address < 0xFF40) && address != 0xFF26
            ==> self.channel3 == old.channel3)
        &&& (!(0xFF20 <= address < 0xFF24) && address != 0xFF26 ==> self.channel4 == old.channel4)
        &&& (address != 0xFF24 && address != 0xFF26 ==> self.nr50 == old.nr50)
        &&& (address != 0xFF25 && address != 0xFF26 ==> self.nr51 == old.nr51)
    }

    /// Creates the audio unit, switched off.
    pub fn new() -> (r: Self)
        ensures
            r.wf(),
            r.nr50 == 0,
            r.nr51 == 0,
            r.nr52 == 0,
            r.frame_sequencer_cycles == 0,
            r.frame_sequencer_step == 0,
            r.dots == 0,
            r.samples@.len() == 0,
    {
        Apu {
            channel1: PulseSweepChannel::new(),
            channel2: PulseChannel::new(),
            channel3: WaveChannel::new(),
            channel4: NoiseChannel::new(),
            nr50: 0,
            nr51: 0,
            nr52: 0,
            frame_sequencer_cycles: 0,
            frame_sequencer_step: 0,
            dots: 0,
            samples: Vec::new(),
        }
    }

    /// Steps the audio unit by a T-cycle. While on, every channel steps, the
    /// frame sequencer ticks and every 95 T-cycles one mixed sample is queued.
    pub fn step(&mut self)
        requires
            old(self).wf(),
        ensures
            final(self).wf(),
            !old(self).is_on() ==> *final(self) == *old(self),
            final(self).stepped_from(&*old(self)),
    {
        if !self.is_enabled() {
            return;
        }
        self.channel1.step();
        self.channel2.step();
        self.channel3.step();
        self.channel4.step();
        self.step_frame_sequencer();
        self.dots = self.dots + 1;
        if self.dots >= SAMPLES_PER_CYCLE {
            self.dots = self.dots - SAMPLES_PER_CYCLE;
            self.push_audio_sample();
        }
    }

    /// Reads an audio register or wave RAM.
    pub fn read_register(&self, address: u16) -> (r: u8)
        requires
            0xFF10 <= address < 0xFF27 || 0xFF30 <= address < 0xFF40,
        ensures
            r == self.register_read(address),
    {
        proof {
            lemma_low_byte(address);
        }
        if 0xFF10 <= address && address < 0xFF15 {
            self.channel1.read_register(address)
        } else if 0xFF16 <= address && address < 0xFF1A {
            self.channel2.read_register(address)
        } else if 0xFF1A <= address && address < 0xFF1F {
            self.channel3.read_register(address)
        } else if 0xFF20 <= address && address < 0xFF24 {
            self.channel4.read_register(address)
        } else if address == 0xFF24 {
            self.nr50
        } else if address == 0xFF25 {
            self.nr51
        } else if address == 0xFF26 {
            self.nr52 | self.enabled_channels() | 0x70
        } else if 0xFF30 <= address && address < 0xFF40 {
            self.channel3.read_wave_ram(address)
        } else {
            0xFF
        }
    }

    /// Writes an audio register or wave RAM. While the unit is off only NR52,
    /// the length registers and wave RAM take writes; switching it off clears
    /// every register, switching it on resets the frame-sequencer step.
    pub fn write_register(&mut self, address: u16, value: u8)
        requires
            old(self).wf(),
            0xFF10 <= address < 0xFF27 || 0xFF30 <= address < 0xFF40,
        ensures
            final(self).wf(),
            final(self).register_write_effect(&*old(self), address, value),
    {
        proof {
            lemma_low_byte(address);
        }
        let apu_enabled = self.is_enabled();
        let fs = self.frame_sequencer_step;
        if 0xFF10 <= address && address < 0xFF15 {
            self.channel1.write_register(apu_enabled, address, value, fs);
        } else if address == 0xFF15 {
        } else if 0xFF16 <= address && address < 0xFF1A {
            self.channel2.write_register(apu_enabled, address, value, fs);
        } else if 0xFF1A <= address && address < 0xFF1F {
            self.channel3.write_register(apu_enabled, address, value, fs);
        } else if address == 0xFF1F {
        } else if 0xFF20 <= address && address < 0xFF24 {
            self.channel4.write_register(apu_enabled, address, value, fs);
        } else if address == 0xFF24 {
            if apu_enabled {
                self.nr50 = value;
            }
        } else if address == 0xFF25 {
            if apu_enabled {
                self.nr51 = value;
            }
        } else if address == 0xFF26 {
            let turning_off = apu_enabled && value & 0x80 != 0x80;
            let turning_on = !apu_enabled && value & 0x80 == 0x80;
            if turning_off {
                self.channel1.clear_registers();
                self.channel2.clear_registers();
                self.channel3.clear_registers();
                self.channel4.clear_registers();
                self.nr50 = 0;
                self.nr51 = 0;
            }
            if turning_on {
                self.frame_sequencer_step = 0;
            }
            self.nr52 = value & 0x80;
        } else {
            self.channel3.write_wave_ram(address, value);
        }
    }

    /// Hands the queued samples to the host, leaving the queue empty.
    pub fn take_samples(&mut self) -> (r: Vec<MixedSample>)
        ensures
            r@ == old(self).samples@,
            final(self).samples@.len() == 0,
            *final(self) == (Apu { samples: final(self).samples, ..*old(self) }),
    {
        let mut taken = Vec::new();
        std::mem::swap(&mut self.samples, &mut taken);
        taken
    }

    /// Queues the current mix.
    pub fn push_audio_sample(&mut self)
        requires
            old(self).wf(),
        ensures
            *final(self) == (Apu { samples: final(self).samples, ..*old(self) }),
            final(self).samples@ == old(self).samples@.push(old(self).current_mix()),
    {
        let ch1 = self.channel1.get_sample();
        let ch2 = self.channel2.get_sample();
        let ch3 = self.channel3.get_sample();
        let ch4 = self.channel4.get_sample();
        let sample = mix_channels(self.nr50, self.nr51, ch1, ch2, ch3, ch4);
        self.samples.push(sample);
    }

    /// Advances the frame sequencer by a T-cycle.
    pub fn step_frame_sequencer(&mut self)
        requires
            old(self).wf(),
        ensures
            final(self).wf(),
            old(self).sequencer_ticked(
                final(self).channel1,
                final(self).channel2,
                final(self).channel3,
                final(self).channel4,
                final(self).frame_sequencer_cycles,
                final(self).frame_sequencer_step,
            ),
            final(self).nr50 == old(self).nr50,
            final(self).nr51 == old(self).nr51,
            final(self).nr52 == old(self).nr52,
            final(self).dots == old(self).dots,
            final(self).samples == old(self).samples,
    {
        self.frame_sequencer_cycles = self.frame_sequencer_cycles + 1;
        if self.frame_sequencer_cycles == FRAME_SEQUENCER_CYCLES {
            let step = self.frame_sequencer_step;
            if step % 2 == 0 {
                self.channel1.step_length_timer();
                self.channel2.step_length_timer();
                self.channel3.step_length_timer();
                self.channel4.step_length_timer();
                if step == 2 || step == 6 {
                    self.channel1.step_sweep();
                }
            } else if step == 7 {
                self.channel1.step_envelope();
                self.channel2.step_envelope();
                self.channel4.step_envelope();
            }
            self.frame_sequencer_cycles = 0;
            self.frame_sequencer_step = (self.frame_sequencer_step + 1) % 8;
        }
    }

    /// Whether the unit is switched on.
    pub fn is_enabled(&self) -> (r: bool)
        ensures
            r == self.is_on(),
    {
        self.nr52 & 0x80 == 0x80
    }

    /// Returns the bitfield of enabled channels.
    pub fn enabled_channels(&self) -> (r: u8)
        ensures
            r == self.channel_bits(),
    {
        let mut bitfield: u8 = 0;
        if self.channel1.enabled() {
            bitfield = bitfield + 1;
        }
        if self.channel2.enabled() {
            bitfield = bitfield + 2;
        }
        if self.channel3.enabled() {
            bitfield = bitfield + 4;
        }
        if self.channel4.enabled() {
            bitfield = bitfield + 8;
        }
        bitfield
    }
}

} // verus!
