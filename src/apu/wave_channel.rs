use vstd::prelude::*;
use crate::bits::{lemma_and_le, lemma_shr_le};
use crate::apu::{clocks_length, next_step_clocks_length};

verus! {

/// The number of ticks of a full wave length timer.
pub const WAVE_MAX_LENGTH: u16 = 256;

/// The wave channel (channel 3): thirty-two 4-bit samples in wave RAM.
#[derive(Debug, Clone, Copy)]
pub struct WaveChannel {
    /// DAC enable.
    pub nr30: u8,
    /// Length.
    pub nr31: u8,
    /// Output level.
    pub nr32: u8,
    /// Period, low byte.
    pub nr33: u8,
    /// Period high bits, length enable and trigger.
    pub nr34: u8,
    pub frequency_timer: u16,
    pub length_timer: u16,
    pub enabled: bool,
    pub wave_ram: [u8; 16],
    /// The current sample, 0 to 31.
    pub wave_ram_index: u8,
}

/// The 4-bit sample at `index` of wave RAM: high nibble first.
pub open spec fn wave_nibble(ram: Seq<u8>, index: u8) -> u8 {
    let b = ram[(index / 2) as int];
    if index % 2 == 0 {
        b >> 4
    } else {
        b & 0x0F
    }
}

/// A sample scaled by the output level: mute, full, half or quarter.
pub open spec fn wave_level(nr32: u8, sample: u8) -> u8 {
    let level = (nr32 >> 5) & 0x03;
    if level == 0 {
        0
    } else if level == 1 {
        sample
    } else if level == 2 {
        sample >> 1
    } else {
        sample >> 2
    }
}

impl WaveChannel {

    /// What a CPU read of one of the channel's registers returns.
    pub open spec fn register_read(&self, address: u16) -> u8 {
        let lo = address & 0xFF;
        if lo == 0x1A {
            self.nr30 | 0x7F
        } else if lo == 0x1B {
            0xFF
        } else if lo == 0x1C {
            self.nr32 | 0x9F
        } else if lo == 0x1D {
            0xFF
        } else {
            self.nr34 | 0xBF
        }
    }

    /// The channel with its registers cleared and disabled; wave RAM is kept.
    pub open spec fn cleared(self) -> WaveChannel {
        WaveChannel { nr30: 0, nr31: 0, nr32: 0, nr33: 0, nr34: 0, enabled: false, ..self }
    }
    pub open spec fn wf(&self) -> bool {
        &&& self.frequency_timer <= 4096
        &&& self.length_timer <= 256
        &&& self.wave_ram_index < 32
    }

    pub open spec fn period(&self) -> u16 {
        ((self.nr34 & 0x07) as u16 * 256 + self.nr33 as u16) as u16
    }

    pub open spec fn reload(&self) -> u16 {
        ((2048 - self.period()) * 2) as u16
    }

    pub open spec fn dac_on(&self) -> bool {
        self.nr30 & 0x80 == 0x80
    }

    /// What a CPU read of wave RAM returns: 0xFF while the channel plays.
    pub open spec fn wave_ram_read(&self, address: u16) -> u8 {
        if self.enabled {
            0xFF
        } else {
            self.wave_ram@[address - 0xFF30]
        }
    }

    /// `self` is `old` with one byte of wave RAM written and nothing else changed.
    pub open spec fn wave_ram_written(self, old: WaveChannel, address: u16, value: u8) -> bool {
        &&& self.wave_ram@ == old.wave_ram@.update(address - 0xFF30, value)
        &&& self == (WaveChannel { wave_ram: self.wave_ram, ..old })
    }

    pub open spec fn stepped(self) -> WaveChannel {
        if self.frequency_timer == 0 {
            WaveChannel {
                frequency_timer: (self.reload() - 1) as u16,
                wave_ram_index: ((self.wave_ram_index + 1) % 32) as u8,
                ..self
            }
        } else {
            WaveChannel { frequency_timer: (self.frequency_timer - 1) as u16, ..self }
        }
    }

    pub open spec fn length_stepped(self) -> WaveChannel {
        if self.nr34 & 0x40 != 0x40 || self.length_timer == 0 {
            self
        } else {
            WaveChannel {
                length_timer: (self.length_timer - 1) as u16,
                enabled: self.enabled && self.length_timer != 1,
                ..self
            }
        }
    }

    pub open spec fn triggered(self) -> WaveChannel {
        WaveChannel {
            enabled: self.dac_on(),
            length_timer: if self.length_timer == 0 {
                256
            } else {
                self.length_timer
            },
            frequency_timer: self.reload(),
            wave_ram_index: 0,
            ..self
        }
    }

    /// The channel after a write to NR34, with the length-timer edge cases.
    pub open spec fn control_written(self, value: u8, frame_step: u8) -> WaveChannel {
        let prev_len = self.nr34 & 0x40 == 0x40;
        let curr_len = value & 0x40 == 0x40;
        let trig = value & 0x80 == 0x80;
        let odd = !clocks_length(frame_step);
        let s1 = WaveChannel { nr34: value, ..self };
        let s2 = if !prev_len && curr_len && odd && s1.length_timer > 0 {
            WaveChannel {
                length_timer: (s1.length_timer - 1) as u16,
                enabled: if s1.length_timer == 1 && !trig {
                    false
                } else {
                    s1.enabled
                },
                ..s1
            }
        } else {
            s1
        };
        let s3 = if trig {
            s2.triggered()
        } else {
            s2
        };
        if curr_len && s2.length_timer == 0 && s3.length_timer == 256 && odd {
            WaveChannel { length_timer: 255, ..s3 }
        } else {
            s3
        }
    }

    pub open spec fn written(self, apu_enabled: bool, address: u16, value: u8, frame_step: u8) -> WaveChannel {
        let lo = address & 0xFF;
        if !apu_enabled && lo != 0x1B {
            self
        } else if lo == 0x1A {
            WaveChannel {
                nr30: value,
                enabled: if value & 0x80 != 0x80 {
                    false
                } else {
                    self.enabled
                },
                ..self
            }
        } else if lo == 0x1B {
            WaveChannel { nr31: value, length_timer: (256 - value) as u16, ..self }
        } else if lo == 0x1C {
            WaveChannel { nr32: value, ..self }
        } else if lo == 0x1D {
            WaveChannel { nr33: value, ..self }
        } else {
            self.control_written(value, frame_step)
        }
    }

    /// Creates a silent, disabled channel with zeroed wave RAM.
    pub fn new() -> (r: Self)
        ensures
            r.wf(),
            r == (WaveChannel {
                nr30: 0,
                nr31: 0,
                nr32: 0,
                nr33: 0,
                nr34: 0,
                frequency_timer: 0,
                length_timer: 0,
                enabled: false,
                wave_ram: r.wave_ram,
                wave_ram_index: 0,
            }),
            r.wave_ram@ == Seq::new(16, |i: int| 0u8),
    {
        let r = WaveChannel {
            nr30: 0,
            nr31: 0,
            nr32: 0,
            nr33: 0,
            nr34: 0,
            frequency_timer: 0,
            length_timer: 0,
            enabled: false,
            wave_ram: [0u8; 16],
            wave_ram_index: 0,
        };
        assert(r.wave_ram@ =~= Seq::new(16, |i: int| 0u8));
        r
    }

    /// Steps the frequency timer by a T-cycle, advancing the sample on reload.
    pub fn step(&mut self)
        requires
            old(self).wf(),
        ensures
            final(self).wf(),
            *final(self) == old(self).stepped(),
    {
        if self.frequency_timer == 0 {
            self.frequency_timer = self.frequency_timer_reload() * 2;
            self.wave_ram_index = (self.wave_ram_index + 1) % 32;
        }
        self.frequency_timer = self.frequency_timer - 1;
    }

    /// Clocks the length timer; reaching zero disables the channel.
    pub fn step_length_timer(&mut self)
        requires
            old(self).wf(),
        ensures
            final(self).wf(),
            *final(self) == old(self).length_stepped(),
    {
        if self.nr34 & 0x40 != 0x40 || self.length_timer == 0 {
            return;
        }
        self.length_timer = self.length_timer - 1;
        if self.length_timer == 0 {
            self.enabled = false;
        }
    }

    /// Reads NR30 to NR34; write-only bits read as set.
    pub fn read_register(&self, address: u16) -> (r: u8)
        requires
            0x1A <= address & 0xFF <= 0x1E,
        ensures
            r == self.register_read(address),
    {
        let lo = address & 0xFF;
        if lo == 0x1A {
            self.nr30 | 0x7F
        } else if lo == 0x1B {
            0xFF
        } else if lo == 0x1C {
            self.nr32 | 0x9F
        } else if lo == 0x1D {
            0xFF
        } else {
            self.nr34 | 0xBF
        }
    }

    /// Writes NR30 to NR34. While the APU is off only NR31 is written.
    pub fn write_register(&mut self, apu_enabled: bool, address: u16, value: u8, frame_step: u8)
        requires
            old(self).wf(),
            0x1A <= address & 0xFF <= 0x1E,
        ensures
            final(self).wf(),
            *final(self) == old(self).written(apu_enabled, address, value, frame_step),
    {
        let lower_byte = address & 0xFF;
        if !apu_enabled && lower_byte != 0x1B {
            return;
        }
        if lower_byte == 0x1A {
            self.nr30 = value;
            if !self.is_dac_on() {
                self.enabled = false;
            }
        } else if lower_byte == 0x1B {
            self.nr31 = value;
            self.reload_length_timer();
        } else if lower_byte == 0x1C {
            self.nr32 = value;
        } else if lower_byte == 0x1D {
            self.nr33 = value;
        } else {
            let prev_length_enabled = self.nr34 & 0x40 == 0x40;
            let curr_length_enabled = value & 0x40 == 0x40;
            let should_trigger = value & 0x80 == 0x80;
            self.nr34 = value;
            let will_clock_length = next_step_clocks_length(frame_step);
            if !prev_length_enabled && curr_length_enabled && !will_clock_length
                && self.length_timer > 0 {
                self.length_timer = self.length_timer - 1;
                if self.length_timer == 0 && !should_trigger {
                    self.enabled = false;
                }
            }
            let old_length = self.length_timer;
            if should_trigger {
                self.trigger();
            }
            let timer_reloaded = old_length == 0 && self.length_timer == WAVE_MAX_LENGTH;
            if curr_length_enabled && timer_reloaded && !will_clock_length {
                self.length_timer = self.length_timer - 1;
            }
        }
    }

    /// Clears the channel's registers and disables it; wave RAM is kept.
    pub fn clear_registers(&mut self)
        requires
            old(self).wf(),
        ensures
            final(self).wf(),
            *final(self) == old(self).cleared(),
    {
        self.nr30 = 0;
        self.nr31 = 0;
        self.nr32 = 0;
        self.nr33 = 0;
        self.nr34 = 0;
        self.enabled = false;
    }

    /// Writes a byte of wave RAM.
    pub fn write_wave_ram(&mut self, address: u16, value: u8)
        requires
            0xFF30 <= address < 0xFF40,
        ensures
            final(self).wave_ram_written(*old(self), address, value),
    {
        self.wave_ram[(address - 0xFF30) as usize] = value;
    }

    /// Reads a byte of wave RAM; 0xFF while the channel is playing.
    pub fn read_wave_ram(&self, address: u16) -> (r: u8)
        requires
            0xFF30 <= address < 0xFF40,
        ensures
            r == self.wave_ram_read(address),
    {
        if self.enabled {
            0xFF
        } else {
            self.wave_ram[(address - 0xFF30) as usize]
        }
    }

    /// Returns the current output, 0 to 15.
    pub fn get_sample(&self) -> (r: u8)
        requires
            self.wf(),
        ensures
            r == if self.enabled {
                wave_level(self.nr32, wave_nibble(self.wave_ram@, self.wave_ram_index))
            } else {
                0
            },
            r <= 15,
    {
        if !self.enabled {
            return 0;
        }
        let raw_byte = self.wave_ram[(self.wave_ram_index / 2) as usize];
        let wave_byte = if self.wave_ram_index % 2 == 0 {
            raw_byte >> 4
        } else {
            raw_byte & 0x0F
        };
        proof {
            lemma_shr_le(raw_byte, 4);
            lemma_and_le(raw_byte, 0x0F);
            lemma_shr_le(wave_byte, 1);
            lemma_shr_le(wave_byte, 2);
        }
        let level = (self.nr32 >> 5) & 0x03;
        if level == 0 {
            0
        } else if level == 1 {
            wave_byte
        } else if level == 2 {
            wave_byte >> 1
        } else {
            wave_byte >> 2
        }
    }

    /// Whether the channel is enabled.
    pub fn enabled(&self) -> (r: bool)
        ensures
            r == self.enabled,
    {
        self.enabled
    }

    /// Triggers the channel.
    pub fn trigger(&mut self)
        requires
            old(self).wf(),
        ensures
            final(self).wf(),
            *final(self) == old(self).triggered(),
    {
        self.enabled = self.is_dac_on();
        if self.length_timer == 0 {
            self.length_timer = WAVE_MAX_LENGTH;
        }
        self.frequency_timer = self.frequency_timer_reload() * 2;
        self.wave_ram_index = 0;
    }

    /// Returns the 11-bit period.
    pub fn get_period(&self) -> (r: u16)
        ensures
            r == self.period(),
            r < 2048,
    {
        proof {
            lemma_and_le(self.nr34, 0x07);
        }
        ((self.nr34 & 0x07) as u16) * 256 + self.nr33 as u16
    }

    /// Returns the frequency timer reload, in units of two T-cycles.
    pub fn frequency_timer_reload(&self) -> (r: u16)
        ensures
            r == 2048 - self.period(),
            1 <= r <= 2048,
    {
        2048 - self.get_period()
    }

    /// Whether the channel's DAC is on: bit 7 of NR30.
    pub fn is_dac_on(&self) -> (r: bool)
        ensures
            r == self.dac_on(),
    {
        self.nr30 & 0x80 == 0x80
    }

    /// Reloads the length timer from NR31.
    pub fn reload_length_timer(&mut self)
        ensures
            *final(self) == (WaveChannel {
                length_timer: (256 - old(self).nr31) as u16,
                ..*old(self)
            }),
    {
        self.length_timer = WAVE_MAX_LENGTH - self.nr31 as u16;
    }
}

/// While the wave channel is disabled, a read of wave RAM right after a write
/// to the same address returns the written byte.
pub proof fn lemma_wave_ram_round_trip(c: WaveChannel, n: WaveChannel, address: u16, value: u8)
    requires
        0xFF30 <= address < 0xFF40,
        !c.enabled,
        n.wave_ram_written(c, address, value),
    ensures
        n.wave_ram_read(address) == value,
{
}

} // verus!
