use vstd::prelude::*;
use crate::bits::{lemma_and_le, lemma_shr_le, lemma_shr_le_u16};
use crate::apu::pulse_channel::{DOTS_MULTIPLIER, MAX_CHANNEL_TIMER_LENGTH, MAX_FREQUENCY};
use crate::apu::{clocks_length, duty_bit, envelope_step, next_step_clocks_length};

verus! {

/// The pulse channel with a frequency sweep (channel 1).
#[derive(Debug, Clone, Copy)]
pub struct PulseSweepChannel {
    /// Sweep pace, direction and step.
    pub nr10: u8,
    /// Length and wave duty.
    pub nr11: u8,
    /// Volume and envelope.
    pub nr12: u8,
    /// Period, low byte.
    pub nr13: u8,
    /// Period high bits, length enable and trigger.
    pub nr14: u8,
    pub frequency_timer: u16,
    pub duty_step: u8,
    pub volume: u8,
    pub length_timer: u8,
    pub envelope_timer: u8,
    pub enabled: bool,
    /// The sweep's working copy of the period.
    pub shadow_frequency: u16,
    pub sweep_timer: u8,
    pub sweep_enabled: bool,
    /// Whether a sweep calculation in the negative direction happened since the trigger.
    pub had_negative_sweep_calc: bool,
}

/// The next sweep frequency: the shadow plus or minus itself shifted by the step.
pub open spec fn sweep_target(shadow: u16, nr10: u8) -> int {
    if nr10 & 0x08 == 0x08 {
        shadow - (shadow >> ((nr10 & 0x07) as u16))
    } else {
        shadow + (shadow >> ((nr10 & 0x07) as u16))
    }
}

/// The sweep pace, zero read as eight.
pub open spec fn sweep_period(nr10: u8) -> u8 {
    if (nr10 >> 4) & 0x07 == 0 {
        8
    } else {
        (nr10 >> 4) & 0x07
    }
}

impl PulseSweepChannel {

    /// What a CPU read of one of the channel's registers returns.
    pub open spec fn register_read(&self, address: u16) -> u8 {
        let lo = address & 0xFF;
        if lo == 0x10 {
            self.nr10 | 0x80
        } else if lo == 0x11 {
            self.nr11 | 0x3F
        } else if lo == 0x12 {
            self.nr12
        } else if lo == 0x13 {
            0xFF
        } else {
            self.nr14 | 0xBF
        }
    }

    /// The channel with its registers cleared and disabled.
    pub open spec fn cleared(self) -> PulseSweepChannel {
        PulseSweepChannel { nr10: 0, nr11: 0, nr12: 0, nr13: 0, nr14: 0, enabled: false, ..self }
    }
    pub open spec fn wf(&self) -> bool {
        &&& self.frequency_timer <= 8192
        &&& self.duty_step < 8
        &&& self.volume <= 15
        &&& self.length_timer <= 64
        &&& self.envelope_timer <= 7
        &&& self.shadow_frequency <= 0x7FF
        &&& self.sweep_timer <= 8
    }

    /// One sweep calculation: the channel with the negative-calculation flag
    /// updated, and the new frequency.
    pub open spec fn sweep_calculated(self) -> (PulseSweepChannel, int) {
        (
            PulseSweepChannel {
                had_negative_sweep_calc: if self.nr10 & 0x08 == 0x08 {
                    true
                } else {
                    self.had_negative_sweep_calc
                },
                ..self
            },
            sweep_target(self.shadow_frequency, self.nr10),
        )
    }

    /// A sweep update: overflow past 11 bits disables the channel; otherwise,
    /// with a nonzero step, the new frequency is written back and checked again.
    pub open spec fn sweep_updated(self) -> PulseSweepChannel {
        let (s1, f) = self.sweep_calculated();
        if f > 0x7FF {
            PulseSweepChannel { enabled: false, ..s1 }
        } else if self.nr10 & 0x07 != 0 {
            let nf = f as u16;
            let s2 = PulseSweepChannel {
                shadow_frequency: nf,
                nr13: (nf & 0xFF) as u8,
                nr14: (s1.nr14 & 0xF8) | ((nf >> 8) as u8 & 0x07),
                ..s1
            };
            let (s3, f2) = s2.sweep_calculated();
            if f2 > 0x7FF {
                PulseSweepChannel { enabled: false, ..s3 }
            } else {
                s3
            }
        } else {
            s1
        }
    }

    /// The sweep timer reloaded, with a sweep update when the sweep is on.
    pub open spec fn sweep_timer_updated(self) -> PulseSweepChannel {
        let s1 = PulseSweepChannel { sweep_timer: sweep_period(self.nr10), ..self };
        if self.sweep_enabled && (self.nr10 >> 4) & 0x07 != 0 {
            s1.sweep_updated()
        } else {
            s1
        }
    }

    pub open spec fn sweep_stepped(self) -> PulseSweepChannel {
        if self.sweep_timer == 0 {
            self
        } else if self.sweep_timer == 1 {
            PulseSweepChannel { sweep_timer: 0, ..self }.sweep_timer_updated()
        } else {
            PulseSweepChannel { sweep_timer: (self.sweep_timer - 1) as u8, ..self }
        }
    }

    /// The 11-bit period.
    pub open spec fn period(&self) -> u16 {
        ((self.nr14 & 0x07) as u16 * 256 + self.nr13 as u16) as u16
    }

    /// The frequency timer's reload, in T-cycles.
    pub open spec fn reload(&self) -> u16 {
        ((2048 - self.period()) * 4) as u16
    }

    pub open spec fn dac_on(&self) -> bool {
        self.nr12 >> 3 != 0
    }

    pub open spec fn stepped(self) -> PulseSweepChannel {
        if self.frequency_timer == 0 {
            PulseSweepChannel {
                frequency_timer: (self.reload() - 1) as u16,
                duty_step: ((self.duty_step + 1) % 8) as u8,
                ..self
            }
        } else {
            PulseSweepChannel { frequency_timer: (self.frequency_timer - 1) as u16, ..self }
        }
    }

    pub open spec fn length_stepped(self) -> PulseSweepChannel {
        if self.nr14 & 0x40 != 0x40 || self.length_timer == 0 {
            self
        } else {
            PulseSweepChannel {
                length_timer: (self.length_timer - 1) as u8,
                enabled: self.enabled && self.length_timer != 1,
                ..self
            }
        }
    }

    pub open spec fn envelope_stepped(self) -> PulseSweepChannel {
        let (t, v) = envelope_step(self.nr12, self.envelope_timer, self.volume);
        PulseSweepChannel { envelope_timer: t, volume: v, ..self }
    }

    pub open spec fn triggered(self) -> PulseSweepChannel {
        PulseSweepChannel {
            enabled: self.dac_on(),
            length_timer: if self.length_timer == 0 {
                64
            } else {
                self.length_timer
            },
            frequency_timer: self.reload(),
            envelope_timer: self.nr12 & 0x07,
            volume: self.nr12 >> 4,
            duty_step: 0,
            ..self
        }.sweep_armed()
    }

    /// The sweep part of a trigger: shadow copied from the period, timer
    /// reloaded, and one overflow check when the step is nonzero.
    pub open spec fn sweep_armed(self) -> PulseSweepChannel {
        let pace = (self.nr10 >> 4) & 0x07;
        let step = self.nr10 & 0x07;
        let s1 = PulseSweepChannel {
            shadow_frequency: self.period(),
            sweep_timer: sweep_period(self.nr10),
            sweep_enabled: pace != 0 || step != 0,
            had_negative_sweep_calc: false,
            ..self
        };
        if step != 0 {
            let (s2, f) = s1.sweep_calculated();
            if f > 0x7FF {
                PulseSweepChannel { enabled: false, ..s2 }
            } else {
                s2
            }
        } else {
            s1
        }
    }

    /// The channel after a write to NR14, with the length-timer edge cases.
    pub open spec fn control_written(self, value: u8, frame_step: u8) -> PulseSweepChannel {
        let prev_len = self.nr14 & 0x40 == 0x40;
        let curr_len = value & 0x40 == 0x40;
        let trig = value & 0x80 == 0x80;
        let odd = !clocks_length(frame_step);
        let s1 = PulseSweepChannel { nr14: value, ..self };
        let s2 = if !prev_len && curr_len && odd && s1.length_timer > 0 {
            PulseSweepChannel {
                length_timer: (s1.length_timer - 1) as u8,
                enabled: if s1.length_timer == 1 && !trig {
                    false
                } else {
                    s1.enabled
                },
                ..s1
            }
        } else {
            s1
        };
        let s3 = if trig {
            s2.triggered()
        } else {
            s2
        };
        if curr_len && s2.length_timer == 0 && s3.length_timer == 64 && odd {
            PulseSweepChannel { length_timer: 63, ..s3 }
        } else {
            s3
        }
    }

    pub open spec fn written(self, apu_enabled: bool, address: u16, value: u8, frame_step: u8) -> PulseSweepChannel {
        let lo = address & 0xFF;
        if !apu_enabled && lo != 0x11 {
            self
        } else if lo == 0x10 {
            PulseSweepChannel {
                nr10: value,
                enabled: if self.had_negative_sweep_calc && self.nr10 & 0x08 == 0x08 && value
                    & 0x08 != 0x08 {
                    false
                } else {
                    self.enabled
                },
                ..self
            }
        } else if lo == 0x11 {
            let v = if apu_enabled {
                value
            } else {
                value & 0x3F
            };
            PulseSweepChannel { nr11: v, length_timer: (64 - (v & 0x3F)) as u8, ..self }
        } else if lo == 0x12 {
            let s = PulseSweepChannel { nr12: value, ..self };
            if !s.dac_on() {
                PulseSweepChannel { enabled: false, ..s }
            } else {
                s
            }
        } else if lo == 0x13 {
            PulseSweepChannel { nr13: value, ..self }
        } else {
            self.control_written(value, frame_step)
        }
    }

    /// Creates a silent, disabled channel.
    pub fn new() -> (r: Self)
        ensures
            r.wf(),
            r == (PulseSweepChannel {
                nr10: 0,
                nr11: 0,
                nr12: 0,
                nr13: 0,
                nr14: 0,
                frequency_timer: 0,
                duty_step: 0,
                volume: 0,
                length_timer: 0,
                envelope_timer: 0,
                enabled: false,
                shadow_frequency: 0,
                sweep_timer: 0,
                sweep_enabled: false,
                had_negative_sweep_calc: false,
            }),
    {
        PulseSweepChannel {
            nr10: 0,
            nr11: 0,
            nr12: 0,
            nr13: 0,
            nr14: 0,
            frequency_timer: 0,
            duty_step: 0,
            volume: 0,
            length_timer: 0,
            envelope_timer: 0,
            enabled: false,
            shadow_frequency: 0,
            sweep_timer: 0,
            sweep_enabled: false,
            had_negative_sweep_calc: false,
        }
    }

    /// Steps the frequency timer by a T-cycle, advancing the duty position on reload.
    pub fn step(&mut self)
        requires
            old(self).wf(),
        ensures
            final(self).wf(),
            *final(self) == old(self).stepped(),
    {
        if self.frequency_timer == 0 {
            self.frequency_timer = self.frequency_timer_reload() * DOTS_MULTIPLIER;
            self.duty_step = (self.duty_step + 1) % 8;
        }
        self.frequency_timer = self.frequency_timer - 1;
    }

    /// Clocks the length timer; reaching zero disables the channel.
    pub fn step_length_timer(&mut self)
        requires
            old(self).wf(),
        ensures
            final(self).wf(),
            *final(self) == old(self).length_stepped(),
    {
        if self.nr14 & 0x40 != 0x40 || self.length_timer == 0 {
            return;
        }
        self.length_timer = self.length_timer - 1;
        if self.length_timer == 0 {
            self.enabled = false;
        }
    }

    /// Clocks the volume envelope.
    pub fn step_envelope(&mut self)
        requires
            old(self).wf(),
        ensures
            final(self).wf(),
            *final(self) == old(self).envelope_stepped(),
    {
        let sweep_pace = self.nr12 & 0x07;
        if sweep_pace == 0 || self.envelope_timer == 0 {
            return;
        }
        self.envelope_timer = self.envelope_timer - 1;
        if self.envelope_timer == 0 {
            self.update_envelope_timer();
        }
    }

    /// Returns the current output, 0 to 15.
    pub fn get_sample(&self) -> (r: u8)
        requires
            self.wf(),
        ensures
            r == if self.enabled {
                duty_bit(self.nr11 >> 6, self.duty_step) * self.volume
            } else {
                0
            },
            r <= 15,
    {
        if !self.enabled {
            return 0;
        }
        let wave_duty = self.nr11 >> 6;
        proof {
            lemma_shr_le(self.nr11, 6);
        }
        crate::apu::duty_table_bit(wave_duty, self.duty_step) * self.volume
    }

    /// Reads NR11 to NR14; write-only bits read as set.
    pub fn read_register(&self, address: u16) -> (r: u8)
        requires
            0x10 <= address & 0xFF <= 0x14,
        ensures
            r == self.register_read(address),
    {
        let lo = address & 0xFF;
        if lo == 0x10 {
            self.nr10 | 0x80
        } else if lo == 0x11 {
            self.nr11 | 0x3F
        } else if lo == 0x12 {
            self.nr12
        } else if lo == 0x13 {
            0xFF
        } else {
            self.nr14 | 0xBF
        }
    }

    /// Writes NR11 to NR14. While the APU is off only the length bits of NR11
    /// are written.
    pub fn write_register(&mut self, apu_enabled: bool, address: u16, value: u8, frame_step: u8)
        requires
            old(self).wf(),
            0x10 <= address & 0xFF <= 0x14,
        ensures
            final(self).wf(),
            *final(self) == old(self).written(apu_enabled, address, value, frame_step),
    {
        let lower_byte = address & 0xFF;
        if !apu_enabled && lower_byte != 0x11 {
            return;
        }
        if lower_byte == 0x10 {
            if self.had_negative_sweep_calc && self.nr10 & 0x08 == 0x08 && value & 0x08 != 0x08 {
                self.enabled = false;
            }
            self.nr10 = value;
        } else if lower_byte == 0x11 {
            self.nr11 = if apu_enabled {
                value
            } else {
                value & 0x3F
            };
            self.reload_length_timer();
        } else if lower_byte == 0x12 {
            self.nr12 = value;
            if !self.is_dac_on() {
                self.enabled = false;
            }
        } else if lower_byte == 0x13 {
            self.nr13 = value;
        } else {
            let prev_length_enabled = self.nr14 & 0x40 == 0x40;
            let curr_length_enabled = value & 0x40 == 0x40;
            let should_trigger = value & 0x80 == 0x80;
            self.nr14 = value;
            let will_clock_length = next_step_clocks_length(frame_step);
            if !prev_length_enabled && curr_length_enabled && !will_clock_length
                && self.length_timer > 0 {
                self.length_timer = self.length_timer - 1;
                if self.length_timer == 0 && !should_trigger {
                    self.enabled = false;
                }
            }
            let old_length = self.length_timer;
            if should_trigger {
                self.trigger();
            }
            let timer_reloaded = old_length == 0 && self.length_timer == MAX_CHANNEL_TIMER_LENGTH;
            if curr_length_enabled && timer_reloaded && !will_clock_length {
                self.length_timer = self.length_timer - 1;
            }
        }
    }

    /// Clears the channel's registers and disables it.
    pub fn clear_registers(&mut self)
        requires
            old(self).wf(),
        ensures
            final(self).wf(),
            *final(self) == old(self).cleared(),
    {
        self.nr10 = 0;
        self.nr11 = 0;
        self.nr12 = 0;
        self.nr13 = 0;
        self.nr14 = 0;
        self.enabled = false;
    }

    /// Whether the channel is enabled.
    pub fn enabled(&self) -> (r: bool)
        ensures
            r == self.enabled,
    {
        self.enabled
    }

    /// Triggers the channel.
    pub fn trigger(&mut self)
        requires
            old(self).wf(),
        ensures
            final(self).wf(),
            *final(self) == old(self).triggered(),
    {
        self.enabled = self.is_dac_on();
        if self.length_timer == 0 {
            self.length_timer = MAX_CHANNEL_TIMER_LENGTH;
        }
        self.frequency_timer = self.frequency_timer_reload() * DOTS_MULTIPLIER;
        self.envelope_timer = self.nr12 & 0x07;
        self.volume = self.nr12 >> 4;
        self.duty_step = 0;
        proof {
            lemma_and_le(self.nr12, 0x07);
            lemma_shr_le(self.nr12, 4);
        }
        let sweep_pace = (self.nr10 >> 4) & 0x07;
        self.shadow_frequency = self.get_period();
        self.sweep_timer = sweep_pace;
        proof {
            lemma_and_le(self.nr10 >> 4, 0x07);
        }
        if self.sweep_timer == 0 {
            self.sweep_timer = 8;
        }
        let sweep_step = self.nr10 & 0x07;
        self.sweep_enabled = sweep_pace != 0 || sweep_step != 0;
        self.had_negative_sweep_calc = false;
        if sweep_step != 0 {
            let new_freq = self.calculate_next_sweep_frequency();
            if new_freq > 0x07FF {
                self.enabled = false;
            }
        }
    }

    /// Clocks the sweep timer; on reaching zero it reloads and may update the frequency.
    pub fn step_sweep(&mut self)
        requires
            old(self).wf(),
        ensures
            final(self).wf(),
            *final(self) == old(self).sweep_stepped(),
    {
        if self.sweep_timer == 0 {
            return;
        }
        self.sweep_timer = self.sweep_timer - 1;
        if self.sweep_timer == 0 {
            self.update_sweep_timer();
        }
    }

    /// Reloads the sweep timer (a pace of 0 counts as 8) and updates the
    /// frequency when the sweep is on.
    pub fn update_sweep_timer(&mut self)
        requires
            old(self).wf(),
        ensures
            final(self).wf(),
            *final(self) == old(self).sweep_timer_updated(),
    {
        let sweep_pace = (self.nr10 >> 4) & 0x07;
        proof {
            lemma_and_le(self.nr10 >> 4, 0x07);
        }
        self.sweep_timer = sweep_pace;
        if self.sweep_timer == 0 {
            self.sweep_timer = 8;
        }
        if self.sweep_enabled && sweep_pace != 0 {
            self.update_sweep_frequency();
        }
    }

    /// Computes the next sweep frequency, noting a negative calculation.
    pub fn calculate_next_sweep_frequency(&mut self) -> (r: u16)
        requires
            old(self).wf(),
        ensures
            final(self).wf(),
            (*final(self), r as int) == old(self).sweep_calculated(),
    {
        let sweep_shift = self.nr10 & 0x07;
        let sh = self.shadow_frequency;
        proof {
            lemma_shr_le_u16(sh, sweep_shift as u16);
            lemma_and_le(self.nr10, 0x07);
        }
        if self.nr10 & 0x08 == 0x08 {
            self.had_negative_sweep_calc = true;
            sh - (sh >> (sweep_shift as u16))
        } else {
            sh + (sh >> (sweep_shift as u16))
        }
    }

    /// Applies one sweep calculation to the period, disabling the channel on overflow.
    pub fn update_sweep_frequency(&mut self)
        requires
            old(self).wf(),
        ensures
            final(self).wf(),
            *final(self) == old(self).sweep_updated(),
    {
        let new_freq = self.calculate_next_sweep_frequency();
        let sweep_shift = self.nr10 & 0x07;
        if new_freq > 0x7FF {
            self.enabled = false;
            return;
        }
        if sweep_shift != 0 {
            self.shadow_frequency = new_freq;
            self.nr13 = (new_freq & 0xFF) as u8;
            self.nr14 = (self.nr14 & 0xF8) | ((new_freq >> 8) as u8 & 0x07);
            let new_freq = self.calculate_next_sweep_frequency();
            if new_freq > 0x7FF {
                self.enabled = false;
            }
        }
    }

    /// Reloads the length timer from NR11's low six bits.
    pub fn reload_length_timer(&mut self)
        ensures
            *final(self) == (PulseSweepChannel {
                length_timer: (64 - (old(self).nr11 & 0x3F)) as u8,
                ..*old(self)
            }),
            final(self).length_timer <= 64,
    {
        let length_timer = self.nr11 & 0x3F;
        proof {
            lemma_and_le(self.nr11, 0x3F);
        }
        self.length_timer = MAX_CHANNEL_TIMER_LENGTH - length_timer;
    }

    /// Reloads the envelope timer and moves the volume one step.
    pub fn update_envelope_timer(&mut self)
        requires
            old(self).volume <= 15,
        ensures
            final(self).volume <= 15,
            final(self).envelope_timer <= 7,
            *final(self) == (PulseSweepChannel {
                envelope_timer: old(self).nr12 & 0x07,
                volume: crate::apu::envelope_volume(old(self).nr12, old(self).volume),
                ..*old(self)
            }),
    {
        self.envelope_timer = self.nr12 & 0x07;
        proof {
            lemma_and_le(self.nr12, 0x07);
        }
        if self.nr12 & 0x08 == 0x08 {
            if self.volume < 0x0F {
                self.volume = self.volume + 1;
            }
        } else {
            self.volume = self.volume.saturating_sub(1);
        }
    }

    /// Returns the 11-bit period.
    pub fn get_period(&self) -> (r: u16)
        ensures
            r == self.period(),
            r < 2048,
    {
        proof {
            lemma_and_le(self.nr14, 0x07);
        }
        ((self.nr14 & 0x07) as u16) * 256 + self.nr13 as u16
    }

    /// Returns the frequency timer reload, in units of four T-cycles.
    pub fn frequency_timer_reload(&self) -> (r: u16)
        ensures
            r == 2048 - self.period(),
            1 <= r <= 2048,
    {
        MAX_FREQUENCY - self.get_period()
    }

    /// Whether the channel's DAC is on: bits 3 to 7 of NR12 not all zero.
    pub fn is_dac_on(&self) -> (r: bool)
        ensures
            r == self.dac_on(),
    {
        (self.nr12 >> 3) != 0
    }
}

} // verus!
