use vstd::prelude::*;
use crate::bits::{lemma_and_le, lemma_shr_le};
use crate::apu::{clocks_length, envelope_step, next_step_clocks_length};
use crate::apu::pulse_channel::MAX_CHANNEL_TIMER_LENGTH;

verus! {

/// The clock divisors selected by NR43's low three bits.
pub open spec fn noise_divisor(code: u8) -> u32 {
    if code == 0 {
        8
    } else {
        (16 * code) as u32
    }
}

/// The linear-feedback shift register after one clock: the XOR of its two low
/// bits is shifted into bit 14, and also stored in bit 6 in the short width mode.
pub open spec fn lfsr_next(lfsr: u16, nr43: u8) -> u16 {
    let xor = (lfsr & 0x01) ^ ((lfsr >> 1) & 0x01);
    let l = (lfsr >> 1) | (xor << 14u16);
    if nr43 & 0x08 == 0x08 {
        (l & !0x40u16) | (xor << 6u16)
    } else {
        l
    }
}

/// The noise channel (channel 4).
#[derive(Debug, Clone, Copy)]
pub struct NoiseChannel {
    /// Length.
    pub nr41: u8,
    /// Volume and envelope.
    pub nr42: u8,
    /// Clock shift, width mode and divisor.
    pub nr43: u8,
    /// Length enable and trigger.
    pub nr44: u8,
    pub frequency_timer: u32,
    pub volume: u8,
    pub envelope_timer: u8,
    pub length_timer: u8,
    pub lsfr: u16,
    pub enabled: bool,
}

impl NoiseChannel {

    /// What a CPU read of one of the channel's registers returns.
    pub open spec fn register_read(&self, address: u16) -> u8 {
        let lo = address & 0xFF;
        if lo == 0x20 {
            0xFF
        } else if lo == 0x21 {
            self.nr42
        } else if lo == 0x22 {
            self.nr43
        } else {
            self.nr44 | 0xBF
        }
    }

    /// The channel with its registers cleared and disabled.
    pub open spec fn cleared(self) -> NoiseChannel {
        NoiseChannel { nr41: 0, nr42: 0, nr43: 0, nr44: 0, enabled: false, ..self }
    }
    pub open spec fn wf(&self) -> bool {
        &&& self.volume <= 15
        &&& self.length_timer <= 64
        &&& self.envelope_timer <= 7
    }

    /// The frequency timer reload: divisor shifted left by the clock shift.
    pub open spec fn frequency(&self) -> u32 {
        noise_divisor(self.nr43 & 0x07) << ((self.nr43 >> 4) as u32)
    }

    pub open spec fn dac_on(&self) -> bool {
        self.nr42 >> 3 != 0
    }

    pub open spec fn stepped(self) -> NoiseChannel {
        if self.frequency_timer == 0 {
            NoiseChannel {
                frequency_timer: (self.frequency() - 1) as u32,
                lsfr: lfsr_next(self.lsfr, self.nr43),
                ..self
            }
        } else {
            NoiseChannel { frequency_timer: (self.frequency_timer - 1) as u32, ..self }
        }
    }

    pub open spec fn length_stepped(self) -> NoiseChannel {
        if self.nr44 & 0x40 != 0x40 || self.length_timer == 0 {
            self
        } else {
            NoiseChannel {
                length_timer: (self.length_timer - 1) as u8,
                enabled: self.enabled && self.length_timer != 1,
                ..self
            }
        }
    }

    pub open spec fn envelope_stepped(self) -> NoiseChannel {
        let (t, v) = envelope_step(self.nr42, self.envelope_timer, self.volume);
        NoiseChannel { envelope_timer: t, volume: v, ..self }
    }

    pub open spec fn triggered(self) -> NoiseChannel {
        NoiseChannel {
            enabled: self.dac_on(),
            length_timer: if self.length_timer == 0 {
                64
            } else {
                self.length_timer
            },
            frequency_timer: self.frequency(),
            envelope_timer: self.nr42 & 0x07,
            volume: (self.nr42 >> 4) & 0x0F,
            lsfr: 0x7FFF,
            ..self
        }
    }

    /// The channel after a write to NR44, with the length-timer edge cases.
    pub open spec fn control_written(self, value: u8, frame_step: u8) -> NoiseChannel {
        let prev_len = self.nr44 & 0x40 == 0x40;
        let curr_len = value & 0x40 == 0x40;
        let trig = value & 0x80 == 0x80;
        let odd = !clocks_length(frame_step);
        let s1 = NoiseChannel { nr44: value, ..self };
        let s2 = if !prev_len && curr_len && odd && s1.length_timer > 0 {
            NoiseChannel {
                length_timer: (s1.length_timer - 1) as u8,
                enabled: if s1.length_timer == 1 && !trig {
                    false
                } else {
                    s1.enabled
                },
                ..s1
            }
        } else {
            s1
        };
        let s3 = if trig {
            s2.triggered()
        } else {
            s2
        };
        if curr_len && s2.length_timer == 0 && s3.length_timer == 64 && odd {
            NoiseChannel { length_timer: 63, ..s3 }
        } else {
            s3
        }
    }

    pub open spec fn written(self, apu_enabled: bool, address: u16, value: u8, frame_step: u8) -> NoiseChannel {
        let lo = address & 0xFF;
        if !apu_enabled && lo != 0x20 {
            self
        } else if lo == 0x20 {
            NoiseChannel { nr41: value, length_timer: (64 - (value & 0x3F)) as u8, ..self }
        } else if lo == 0x21 {
            let s = NoiseChannel { nr42: value, ..self };
            if !s.dac_on() {
                NoiseChannel { enabled: false, ..s }
            } else {
                s
            }
        } else if lo == 0x22 {
            NoiseChannel { nr43: value, ..self }
        } else {
            self.control_written(value, frame_step)
        }
    }

    /// Creates a silent, disabled channel.
    pub fn new() -> (r: Self)
        ensures
            r.wf(),
            r == (NoiseChannel {
                nr41: 0,
                nr42: 0,
                nr43: 0,
                nr44: 0,
                frequency_timer: 0,
                volume: 0,
                envelope_timer: 0,
                length_timer: 0,
                lsfr: 0,
                enabled: false,
            }),
    {
        NoiseChannel {
            nr41: 0,
            nr42: 0,
            nr43: 0,
            nr44: 0,
            frequency_timer: 0,
            volume: 0,
            envelope_timer: 0,
            length_timer: 0,
            lsfr: 0,
            enabled: false,
        }
    }

    /// Steps the frequency timer by a T-cycle, clocking the shift register on reload.
    pub fn step(&mut self)
        requires
            old(self).wf(),
        ensures
            final(self).wf(),
            *final(self) == old(self).stepped(),
    {
        if self.frequency_timer == 0 {
            self.frequency_timer = self.get_frequency();
            let xor = (self.lsfr & 0x01) ^ ((self.lsfr >> 1) & 0x01);
            self.lsfr = (self.lsfr >> 1) | (xor << 14u16);
            if self.nr43 & 0x08 == 0x08 {
                self.lsfr = (self.lsfr & !0x40u16) | (xor << 6u16);
            }
        }
        self.frequency_timer = self.frequency_timer - 1;
    }

    /// Clocks the length timer; reaching zero disables the channel.
    pub fn step_length_timer(&mut self)
        requires
            old(self).wf(),
        ensures
            final(self).wf(),
            *final(self) == old(self).length_stepped(),
    {
        if self.nr44 & 0x40 != 0x40 || self.length_timer == 0 {
            return;
        }
        self.length_timer = self.length_timer - 1;
        if self.length_timer == 0 {
            self.enabled = false;
        }
    }

    /// Clocks the volume envelope.
    pub fn step_envelope(&mut self)
        requires
            old(self).wf(),
        ensures
            final(self).wf(),
            *final(self) == old(self).envelope_stepped(),
    {
        let sweep_pace = self.nr42 & 0x07;
        if sweep_pace == 0 || self.envelope_timer == 0 {
            return;
        }
        self.envelope_timer = self.envelope_timer - 1;
        if self.envelope_timer == 0 {
            self.update_envelope_timer();
        }
    }

    /// Reads NR41 to NR44; write-only bits read as set.
    pub fn read_register(&self, address: u16) -> (r: u8)
        requires
            0x20 <= address & 0xFF <= 0x23,
        ensures
            r == self.register_read(address),
    {
        let lo = address & 0xFF;
        if lo == 0x20 {
            0xFF
        } else if lo == 0x21 {
            self.nr42
        } else if lo == 0x22 {
            self.nr43
        } else {
            self.nr44 | 0xBF
        }
    }

    /// Writes NR41 to NR44. While the APU is off only NR41 is written.
    pub fn write_register(&mut self, apu_enabled: bool, address: u16, value: u8, frame_step: u8)
        requires
            old(self).wf(),
            0x20 <= address & 0xFF <= 0x23,
        ensures
            final(self).wf(),
            *final(self) == old(self).written(apu_enabled, address, value, frame_step),
    {
        let lower_byte = address & 0xFF;
        if !apu_enabled && lower_byte != 0x20 {
            return;
        }
        if lower_byte == 0x20 {
            self.nr41 = value;
            self.reload_length_timer();
        } else if lower_byte == 0x21 {
            self.nr42 = value;
            if !self.is_dac_on() {
                self.enabled = false;
            }
        } else if lower_byte == 0x22 {
            self.nr43 = value;
        } else {
            let prev_length_enabled = self.nr44 & 0x40 == 0x40;
            let curr_length_enabled = value & 0x40 == 0x40;
            let should_trigger = value & 0x80 == 0x80;
            self.nr44 = value;
            let will_clock_length = next_step_clocks_length(frame_step);
            if !prev_length_enabled && curr_length_enabled && !will_clock_length
                && self.length_timer > 0 {
                self.length_timer = self.length_timer - 1;
                if self.length_timer == 0 && !should_trigger {
                    self.enabled = false;
                }
            }
            let old_length = self.length_timer;
            if should_trigger {
                self.trigger();
            }
            let timer_reloaded = old_length == 0 && self.length_timer == MAX_CHANNEL_TIMER_LENGTH;
            if curr_length_enabled && timer_reloaded && !will_clock_length {
                self.length_timer = self.length_timer - 1;
            }
        }
    }

    /// Clears the channel's registers and disables it.
    pub fn clear_registers(&mut self)
        requires
            old(self).wf(),
        ensures
            final(self).wf(),
            *final(self) == old(self).cleared(),
    {
        self.nr41 = 0;
        self.nr42 = 0;
        self.nr43 = 0;
        self.nr44 = 0;
        self.enabled = false;
    }

    /// Returns the current output: the volume when the register's low bit is 0.
    pub fn get_sample(&self) -> (r: u8)
        requires
            self.wf(),
        ensures
            r == if self.enabled && self.lsfr & 0x01 == 0 {
                self.volume
            } else {
                0
            },
            r <= 15,
    {
        if !self.enabled {
            return 0;
        }
        if (self.lsfr & 0x01) == 0 {
            self.volume
        } else {
            0
        }
    }

    /// Whether the channel is enabled.
    pub fn enabled(&self) -> (r: bool)
        ensures
            r == self.enabled,
    {
        self.enabled
    }

    /// Triggers the channel.
    pub fn trigger(&mut self)
        requires
            old(self).wf(),
        ensures
            final(self).wf(),
            *final(self) == old(self).triggered(),
    {
        self.enabled = self.is_dac_on();
        if self.length_timer == 0 {
            self.length_timer = MAX_CHANNEL_TIMER_LENGTH;
        }
        self.frequency_timer = self.get_frequency();
        self.envelope_timer = self.nr42 & 0x07;
        self.volume = (self.nr42 >> 4) & 0x0F;
        self.lsfr = 0x7FFF;
        proof {
            lemma_and_le(self.nr42, 0x07);
            lemma_and_le(self.nr42 >> 4, 0x0F);
        }
    }

    /// Reloads the envelope timer and moves the volume one step.
    pub fn update_envelope_timer(&mut self)
        requires
            old(self).volume <= 15,
        ensures
            final(self).volume <= 15,
            final(self).envelope_timer <= 7,
            *final(self) == (NoiseChannel {
                envelope_timer: old(self).nr42 & 0x07,
                volume: crate::apu::envelope_volume(old(self).nr42, old(self).volume),
                ..*old(self)
            }),
    {
        self.envelope_timer = self.nr42 & 0x07;
        proof {
            lemma_and_le(self.nr42, 0x07);
        }
        if self.nr42 & 0x08 == 0x08 {
            if self.volume < 0x0F {
                self.volume = self.volume + 1;
            }
        } else {
            self.volume = self.volume.saturating_sub(1);
        }
    }

    /// Reloads the length timer from NR41's low six bits.
    pub fn reload_length_timer(&mut self)
        ensures
            *final(self) == (NoiseChannel {
                length_timer: (64 - (old(self).nr41 & 0x3F)) as u8,
                ..*old(self)
            }),
            final(self).length_timer <= 64,
    {
        let length_timer = self.nr41 & 0x3F;
        proof {
            lemma_and_le(self.nr41, 0x3F);
        }
        self.length_timer = MAX_CHANNEL_TIMER_LENGTH - length_timer;
    }

    /// Returns the frequency timer reload: the divisor shifted by the clock shift.
    pub fn get_frequency(&self) -> (r: u32)
        ensures
            r == self.frequency(),
            r >= 1,
    {
        let code = self.nr43 & 0x07;
        let clock_shift = (self.nr43 >> 4) as u32;
        proof {
            lemma_and_le(self.nr43, 0x07);
            lemma_shr_le(self.nr43, 4);
        }
        let clock_divider: u32 = if code == 0 {
            8
        } else {
            16 * code as u32
        };
        assert((clock_divider << clock_shift) >= 1) by (bit_vector)
            requires
                8 <= clock_divider <= 112,
                clock_shift < 16,
        ;
        clock_divider << clock_shift
    }

    /// Whether the channel's DAC is on: bits 3 to 7 of NR42 not all zero.
    pub fn is_dac_on(&self) -> (r: bool)
        ensures
            r == self.dac_on(),
    {
        (self.nr42 >> 3) != 0
    }
}

} // verus!
