use vstd::prelude::*;
use crate::bits::{lemma_and_le, lemma_shr_le};
use crate::apu::{clocks_length, duty_bit, envelope_step, next_step_clocks_length};

verus! {

/// The number of ticks of a full length timer.
pub const MAX_CHANNEL_TIMER_LENGTH: u8 = 64;

/// The frequency timer counts down from 2048 minus the period.
pub const MAX_FREQUENCY: u16 = 2048;

/// T-cycles per frequency timer unit.
pub const DOTS_MULTIPLIER: u16 = 4;

/// A pulse channel without sweep (channel 2).
#[derive(Debug, Clone, Copy)]
pub struct PulseChannel {
    /// Length and wave duty.
    pub nr21: u8,
    /// Volume and envelope.
    pub nr22: u8,
    /// Period, low byte.
    pub nr23: u8,
    /// Period high bits, length enable and trigger.
    pub nr24: u8,
    pub frequency_timer: u16,
    pub duty_step: u8,
    pub volume: u8,
    pub length_timer: u8,
    pub envelope_timer: u8,
    pub enabled: bool,
}

impl PulseChannel {

    /// What a CPU read of one of the channel's registers returns.
    pub open spec fn register_read(&self, address: u16) -> u8 {
        let lo = address & 0xFF;
        if lo == 0x16 {
            self.nr21 | 0x3F
        } else if lo == 0x17 {
            self.nr22
        } else if lo == 0x18 {
            0xFF
        } else {
            self.nr24 | 0xBF
        }
    }

    /// The channel with its registers cleared and disabled.
    pub open spec fn cleared(self) -> PulseChannel {
        PulseChannel { nr21: 0, nr22: 0, nr23: 0, nr24: 0, enabled: false, ..self }
    }
    pub open spec fn wf(&self) -> bool {
        &&& self.frequency_timer <= 8192
        &&& self.duty_step < 8
        &&& self.volume <= 15
        &&& self.length_timer <= 64
        &&& self.envelope_timer <= 7
    }

    /// The 11-bit period.
    pub open spec fn period(&self) -> u16 {
        ((self.nr24 & 0x07) as u16 * 256 + self.nr23 as u16) as u16
    }

    /// The frequency timer's reload, in T-cycles.
    pub open spec fn reload(&self) -> u16 {
        ((2048 - self.period()) * 4) as u16
    }

    pub open spec fn dac_on(&self) -> bool {
        self.nr22 >> 3 != 0
    }

    pub open spec fn stepped(self) -> PulseChannel {
        if self.frequency_timer == 0 {
            PulseChannel {
                frequency_timer: (self.reload() - 1) as u16,
                duty_step: ((self.duty_step + 1) % 8) as u8,
                ..self
            }
        } else {
            PulseChannel { frequency_timer: (self.frequency_timer - 1) as u16, ..self }
        }
    }

    pub open spec fn length_stepped(self) -> PulseChannel {
        if self.nr24 & 0x40 != 0x40 || self.length_timer == 0 {
            self
        } else {
            PulseChannel {
                length_timer: (self.length_timer - 1) as u8,
                enabled: self.enabled && self.length_timer != 1,
                ..self
            }
        }
    }

    pub open spec fn envelope_stepped(self) -> PulseChannel {
        let (t, v) = envelope_step(self.nr22, self.envelope_timer, self.volume);
        PulseChannel { envelope_timer: t, volume: v, ..self }
    }

    pub open spec fn triggered(self) -> PulseChannel {
        PulseChannel {
            enabled: self.dac_on(),
            length_timer: if self.length_timer == 0 {
                64
            } else {
                self.length_timer
            },
            frequency_timer: self.reload(),
            envelope_timer: self.nr22 & 0x07,
            volume: self.nr22 >> 4,
            duty_step: 0,
            ..self
        }
    }

    /// The channel after a write to NR24, with the length-timer edge cases.
    pub open spec fn control_written(self, value: u8, frame_step: u8) -> PulseChannel {
        let prev_len = self.nr24 & 0x40 == 0x40;
        let curr_len = value & 0x40 == 0x40;
        let trig = value & 0x80 == 0x80;
        let odd = !clocks_length(frame_step);
        let s1 = PulseChannel { nr24: value, ..self };
        let s2 = if !prev_len && curr_len && odd && s1.length_timer > 0 {
            PulseChannel {
                length_timer: (s1.length_timer - 1) as u8,
                enabled: if s1.length_timer == 1 && !trig {
                    false
                } else {
                    s1.enabled
                },
                ..s1
            }
        } else {
            s1
        };
        let s3 = if trig {
            s2.triggered()
        } else {
            s2
        };
        if curr_len && s2.length_timer == 0 && s3.length_timer == 64 && odd {
            PulseChannel { length_timer: 63, ..s3 }
        } else {
            s3
        }
    }

    pub open spec fn written(self, apu_enabled: bool, address: u16, value: u8, frame_step: u8) -> PulseChannel {
        let lo = address & 0xFF;
        if !apu_enabled && lo != 0x16 {
            self
        } else if lo == 0x16 {
            let v = if apu_enabled {
                value
            } else {
                value & 0x3F
            };
            PulseChannel { nr21: v, length_timer: (64 - (v & 0x3F)) as u8, ..self }
        } else if lo == 0x17 {
            let s = PulseChannel { nr22: value, ..self };
            if !s.dac_on() {
                PulseChannel { enabled: false, ..s }
            } else {
                s
            }
        } else if lo == 0x18 {
            PulseChannel { nr23: value, ..self }
        } else {
            self.control_written(value, frame_step)
        }
    }

    /// Creates a silent, disabled channel.
    pub fn new() -> (r: Self)
        ensures
            r.wf(),
            r == (PulseChannel {
                nr21: 0,
                nr22: 0,
                nr23: 0,
                nr24: 0,
                frequency_timer: 0,
                duty_step: 0,
                volume: 0,
                length_timer: 0,
                envelope_timer: 0,
                enabled: false,
            }),
    {
        PulseChannel {
            nr21: 0,
            nr22: 0,
            nr23: 0,
            nr24: 0,
            frequency_timer: 0,
            duty_step: 0,
            volume: 0,
            length_timer: 0,
            envelope_timer: 0,
            enabled: false,
        }
    }

    /// Steps the frequency timer by a T-cycle, advancing the duty position on reload.
    pub fn step(&mut self)
        requires
            old(self).wf(),
        ensures
            final(self).wf(),
            *final(self) == old(self).stepped(),
    {
        if self.frequency_timer == 0 {
            self.frequency_timer = self.frequency_timer_reload() * DOTS_MULTIPLIER;
            self.duty_step = (self.duty_step + 1) % 8;
        }
        self.frequency_timer = self.frequency_timer - 1;
    }

    /// Clocks the length timer; reaching zero disables the channel.
    pub fn step_length_timer(&mut self)
        requires
            old(self).wf(),
        ensures
            final(self).wf(),
            *final(self) == old(self).length_stepped(),
    {
        if self.nr24 & 0x40 != 0x40 || self.length_timer == 0 {
            return;
        }
        self.length_timer = self.length_timer - 1;
        if self.length_timer == 0 {
            self.enabled = false;
        }
    }

    /// Clocks the volume envelope.
    pub fn step_envelope(&mut self)
        requires
            old(self).wf(),
        ensures
            final(self).wf(),
            *final(self) == old(self).envelope_stepped(),
    {
        let sweep_pace = self.nr22 & 0x07;
        if sweep_pace == 0 || self.envelope_timer == 0 {
            return;
        }
        self.envelope_timer = self.envelope_timer - 1;
        if self.envelope_timer == 0 {
            self.update_envelope_timer();
        }
    }

    /// Returns the current output, 0 to 15.
    pub fn get_sample(&self) -> (r: u8)
        requires
            self.wf(),
        ensures
            r == if self.enabled {
                duty_bit(self.nr21 >> 6, self.duty_step) * self.volume
            } else {
                0
            },
            r <= 15,
    {
        if !self.enabled {
            return 0;
        }
        let wave_duty = self.nr21 >> 6;
        proof {
            lemma_shr_le(self.nr21, 6);
        }
        crate::apu::duty_table_bit(wave_duty, self.duty_step) * self.volume
    }

    /// Reads NR21 to NR24; write-only bits read as set.
    pub fn read_register(&self, address: u16) -> (r: u8)
        requires
            0x16 <= address & 0xFF <= 0x19,
        ensures
            r == self.register_read(address),
    {
        let lo = address & 0xFF;
        if lo == 0x16 {
            self.nr21 | 0x3F
        } else if lo == 0x17 {
            self.nr22
        } else if lo == 0x18 {
            0xFF
        } else {
            self.nr24 | 0xBF
        }
    }

    /// Writes NR21 to NR24. While the APU is off only the length bits of NR21
    /// are written.
    pub fn write_register(&mut self, apu_enabled: bool, address: u16, value: u8, frame_step: u8)
        requires
            old(self).wf(),
            0x16 <= address & 0xFF <= 0x19,
        ensures
            final(self).wf(),
            *final(self) == old(self).written(apu_enabled, address, value, frame_step),
    {
        let lower_byte = address & 0xFF;
        if !apu_enabled && lower_byte != 0x16 {
            return;
        }
        if lower_byte == 0x16 {
            self.nr21 = if apu_enabled {
                value
            } else {
                value & 0x3F
            };
            self.reload_length_timer();
        } else if lower_byte == 0x17 {
            self.nr22 = value;
            if !self.is_dac_on() {
                self.enabled = false;
            }
        } else if lower_byte == 0x18 {
            self.nr23 = value;
        } else {
            let prev_length_enabled = self.nr24 & 0x40 == 0x40;
            let curr_length_enabled = value & 0x40 == 0x40;
            let should_trigger = value & 0x80 == 0x80;
            self.nr24 = value;
            let will_clock_length = next_step_clocks_length(frame_step);
            if !prev_length_enabled && curr_length_enabled && !will_clock_length
                && self.length_timer > 0 {
                self.length_timer = self.length_timer - 1;
                if self.length_timer == 0 && !should_trigger {
                    self.enabled = false;
                }
            }
            let old_length = self.length_timer;
            if should_trigger {
                self.trigger();
            }
            let timer_reloaded = old_length == 0 && self.length_timer == MAX_CHANNEL_TIMER_LENGTH;
            if curr_length_enabled && timer_reloaded && !will_clock_length {
                self.length_timer = self.length_timer - 1;
            }
        }
    }

    /// Clears the channel's registers and disables it.
    pub fn clear_registers(&mut self)
        requires
            old(self).wf(),
        ensures
            final(self).wf(),
            *final(self) == old(self).cleared(),
    {
        self.nr21 = 0;
        self.nr22 = 0;
        self.nr23 = 0;
        self.nr24 = 0;
        self.enabled = false;
    }

    /// Whether the channel is enabled.
    pub fn enabled(&self) -> (r: bool)
        ensures
            r == self.enabled,
    {
        self.enabled
    }

    /// Triggers the channel.
    pub fn trigger(&mut self)
        requires
            old(self).wf(),
        ensures
            final(self).wf(),
            *final(self) == old(self).triggered(),
    {
        self.enabled = self.is_dac_on();
        if self.length_timer == 0 {
            self.length_timer = MAX_CHANNEL_TIMER_LENGTH;
        }
        self.frequency_timer = self.frequency_timer_reload() * DOTS_MULTIPLIER;
        self.envelope_timer = self.nr22 & 0x07;
        self.volume = self.nr22 >> 4;
        self.duty_step = 0;
        proof {
            lemma_and_le(self.nr22, 0x07);
            lemma_shr_le(self.nr22, 4);
        }
    }

    /// Reloads the length timer from NR21's low six bits.
    pub fn reload_length_timer(&mut self)
        ensures
            *final(self) == (PulseChannel {
                length_timer: (64 - (old(self).nr21 & 0x3F)) as u8,
                ..*old(self)
            }),
            final(self).length_timer <= 64,
    {
        let length_timer = self.nr21 & 0x3F;
        proof {
            lemma_and_le(self.nr21, 0x3F);
        }
        self.length_timer = MAX_CHANNEL_TIMER_LENGTH - length_timer;
    }

    /// Reloads the envelope timer and moves the volume one step.
    pub fn update_envelope_timer(&mut self)
        requires
            old(self).volume <= 15,
        ensures
            final(self).volume <= 15,
            final(self).envelope_timer <= 7,
            *final(self) == (PulseChannel {
                envelope_timer: old(self).nr22 & 0x07,
                volume: crate::apu::envelope_volume(old(self).nr22, old(self).volume),
                ..*old(self)
            }),
    {
        self.envelope_timer = self.nr22 & 0x07;
        proof {
            lemma_and_le(self.nr22, 0x07);
        }
        if self.nr22 & 0x08 == 0x08 {
            if self.volume < 0x0F {
                self.volume = self.volume + 1;
            }
        } else {
            self.volume = self.volume.saturating_sub(1);
        }
    }

    /// Returns the 11-bit period.
    pub fn get_period(&self) -> (r: u16)
        ensures
            r == self.period(),
            r < 2048,
    {
        proof {
            lemma_and_le(self.nr24, 0x07);
        }
        ((self.nr24 & 0x07) as u16) * 256 + self.nr23 as u16
    }

    /// Returns the frequency timer reload, in units of four T-cycles.
    pub fn frequency_timer_reload(&self) -> (r: u16)
        ensures
            r == 2048 - self.period(),
            1 <= r <= 2048,
    {
        MAX_FREQUENCY - self.get_period()
    }

    /// Whether the channel's DAC is on: bits 3 to 7 of NR22 not all zero.
    pub fn is_dac_on(&self) -> (r: bool)
        ensures
            r == self.dac_on(),
    {
        (self.nr22 >> 3) != 0
    }
}

} // verus!
