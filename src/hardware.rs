use vstd::prelude::*;
use crate::apu::Apu;
use crate::cartridge::{Cartridge, Mbc1, RomOnly};
use crate::clock::SystemClock;
use crate::interrupts::{Interrupt, Interrupts, first_interrupt};
use crate::joypad::{Button, ButtonAction, Joypad};
use crate::ppu::{DmaTransfer, DmaTransferProgress, Ppu, RestartedDmaTransfer};
use crate::timer::Timer;

verus! {

/// The size of work RAM.
pub const MEMORY_SIZE: usize = 0x2000;

/// The size of high RAM.
pub const HIGH_RAM_SIZE: usize = 0x7F;

/// The header offset of the cartridge type byte.
pub const CARTRIDGE_TYPE: usize = 0x147;

/// T-cycles between a DMA request and its first byte.
pub const DMA_TRANSFER_DELAY: u8 = 4;

/// T-cycles of a whole DMA transfer: 160 bytes, four T-cycles each.
pub const DMA_TRANSFER_DURATION: u16 = 640;

/// A cartridge image the engine can run: a supported type byte, and a full
/// 32 KiB ROM window for a cartridge without a bank controller.
pub open spec fn runnable_image(bytes: Seq<u8>) -> bool {
    &&& bytes.len() > 0x147
    &&& bytes[0x147] <= 3
    &&& bytes[0x147] == 0 ==> bytes.len() >= 0x8000
}

/// The interrupt latch after a CPU write: IE at 0xFFFF, IF (five bits) at 0xFF0F.
pub open spec fn interrupts_after_write(ints: Interrupts, address: u16, value: u8) -> Interrupts {
    if address == 0xFFFF {
        Interrupts { enabled: value, ..ints }
    } else if address == 0xFF0F {
        Interrupts { requested: value & 0x1F, ..ints }
    } else {
        ints
    }
}

/// Everything the CPU reaches through the bus.
#[derive(Debug)]
pub struct Hardware {
    /// Work RAM.
    pub memory: Vec<u8>,
    /// High RAM.
    pub high_ram: Vec<u8>,
    pub joypad: Joypad,
    pub cartridge: Cartridge,
    pub timer: Timer,
    pub ppu: Ppu,
    pub apu: Apu,
    pub sys_clock: SystemClock,
    pub interrupts: Interrupts,
}

impl Hardware {
    pub open spec fn dma_wf(&self) -> bool {
        &&& match self.ppu.dma_transfer {
            Some(t) => match t.progress {
                DmaTransferProgress::Requested { delay_ticks } => delay_ticks < 4,
                DmaTransferProgress::Transferring { ticks } => ticks <= 640,
            },
            None => true,
        }
        &&& match self.ppu.restarted_dma_transfer {
            Some(r) => r.delay_ticks < 4,
            None => true,
        }
    }

    pub open spec fn wf(&self) -> bool {
        &&& self.memory@.len() == MEMORY_SIZE
        &&& self.high_ram@.len() == HIGH_RAM_SIZE
        &&& self.cartridge.wf()
        &&& self.timer.wf()
        &&& self.ppu.wf()
        &&& self.apu.wf()
        &&& self.interrupts.wf()
        &&& self.dma_wf()
    }

    /// What a read of an I/O register returns.
    pub open spec fn io_read(&self, address: u16) -> u8 {
        if address == 0xFF00 {
            0xC0 | self.joypad.button_group | self.joypad.nibble()
        } else if address == 0xFF01 || address == 0xFF02 {
            0
        } else if 0xFF04 <= address < 0xFF08 {
            self.timer.register_read(address)
        } else if (0xFF10 <= address < 0xFF27) || (0xFF30 <= address < 0xFF40) {
            self.apu.register_read(address)
        } else if 0xFF40 <= address < 0xFF4C {
            self.ppu.register_read(address)
        } else if address == 0xFF0F {
            self.interrupts.requested | 0xE0
        } else {
            0xFF
        }
    }

    /// What a CPU read of `address` returns. Gated VRAM and OAM read 0xFF, the
    /// unused region reads 0, echo RAM mirrors work RAM.
    pub open spec fn bus_read(&self, address: u16) -> u8 {
        if address < 0x8000 {
            self.cartridge.rom_byte(address)
        } else if address < 0xA000 {
            if self.ppu.vram_accessible() {
                self.ppu.vram(address as int)
            } else {
                0xFF
            }
        } else if address < 0xC000 {
            self.cartridge.ram_byte(address)
        } else if address < 0xE000 {
            self.memory@[address - 0xC000]
        } else if address < 0xFE00 {
            self.memory@[address - 0xE000]
        } else if address < 0xFEA0 {
            if self.ppu.dma_running() || !self.ppu.oam_accessible() {
                0xFF
            } else {
                self.ppu.oam@[address - 0xFE00]
            }
        } else if address < 0xFF00 {
            0
        } else if address < 0xFF80 {
            self.io_read(address)
        } else if address < 0xFFFF {
            self.high_ram@[address - 0xFF80]
        } else {
            self.interrupts.enabled
        }
    }

    /// The pending interrupt of highest priority.
    pub open spec fn next_pending(&self) -> Option<Interrupt> {
        first_interrupt(self.interrupts.pending())
    }

    /// `self` is `old` after a CPU write of `value` at `address`: exactly the
    /// addressed component changes, and gated or unmapped writes change nothing.
    pub open spec fn write_effect(&self, old: &Hardware, address: u16, value: u8) -> bool {
        &&& address < 0x8000 ==> self.ppu == old.ppu
        &&& 0x8000 <= address < 0xA000 ==> {
            &&& old.ppu.vram_accessible() ==> self.ppu.memory@ == old.ppu.memory@.update(address - 0x8000, value)
            &&& !old.ppu.vram_accessible() ==> self.ppu.memory@ == old.ppu.memory@
            &&& self.ppu == (Ppu { memory: self.ppu.memory, ..old.ppu })
        }
        &&& 0xC000 <= address < 0xFE00 ==> self.memory@ == old.memory@.update(
            if address < 0xE000 { address - 0xC000 } else { address - 0xE000 },
            value,
        )
        &&& !(0xC000 <= address < 0xFE00) ==> self.memory@ == old.memory@
        &&& 0xFE00 <= address < 0xFEA0 ==> {
            &&& (old.ppu.oam_accessible() && !old.ppu.dma_running()) ==> self.ppu.oam@ == old.ppu.oam@.update(address - 0xFE00, value)
            &&& !(old.ppu.oam_accessible() && !old.ppu.dma_running()) ==> self.ppu.oam@ == old.ppu.oam@
            &&& self.ppu == (Ppu { oam: self.ppu.oam, ..old.ppu })
        }
        &&& 0xFEA0 <= address < 0xFF00 ==> self.ppu == old.ppu
        &&& 0xFF80 <= address < 0xFFFF ==> self.high_ram@ == old.high_ram@.update(address - 0xFF80, value)
        &&& !(0xFF80 <= address < 0xFFFF) ==> self.high_ram@ == old.high_ram@
        &&& self.interrupts == interrupts_after_write(old.interrupts, address, value)
        &&& ((0xFF10 <= address < 0xFF27) || (0xFF30 <= address < 0xFF40)) ==> self.apu.register_write_effect(&old.apu, address, value)
        &&& !((0xFF10 <= address < 0xFF27) || (0xFF30 <= address < 0xFF40)) ==> self.apu == old.apu
        &&& address == 0xFF00 ==> self.joypad.button_group == value & 0x30 && self.joypad.pressed == old.joypad.pressed
        &&& address != 0xFF00 ==> self.joypad == old.joypad
        &&& 0xFF04 <= address < 0xFF08 ==> self.timer == old.timer.written(address, value)
        &&& !(0xFF04 <= address < 0xFF08) ==> self.timer == old.timer
        &&& 0xFF40 <= address < 0xFF4C ==> self.ppu == old.ppu.register_written(address, value)
        &&& address < 0x8000 ==> match old.cartridge {
            Cartridge::RomOnly(c) => self.cartridge == Cartridge::RomOnly(c),
            Cartridge::Mbc1(c) => (self.cartridge matches Cartridge::Mbc1(n) && n == c.rom_written(address, value)),
        }
        &&& 0xA000 <= address < 0xC000 ==> match old.cartridge {
            Cartridge::RomOnly(c) => self.cartridge == Cartridge::RomOnly(c),
            Cartridge::Mbc1(c) => (self.cartridge matches Cartridge::Mbc1(n) && n.ram_written(c, address, value)),
        }
        &&& !(address < 0x8000) && !(0xA000 <= address < 0xC000) ==> self.cartridge == old.cartridge
    }

    /// `self` is `old` with DMA advanced by one T-cycle.
    pub open spec fn dma_stepped_from(&self, old: &Hardware) -> bool {
        &&& (self.ppu.oam@ == match old.dma_advanced().1 {
            Some((i, b)) => old.ppu.oam@.update(i, b),
            None => old.ppu.oam@,
        })
        &&& (self.ppu.dma_transfer == match old.ppu.restarted_dma_transfer {
            Some(r) => if r.delay_ticks + 1 == 4 {
                Some(DmaTransfer { source: r.source, progress: DmaTransferProgress::Transferring { ticks: 0 } })
            } else {
                old.dma_advanced().0
            },
            None => old.dma_advanced().0,
        })
        &&& (self.ppu.restarted_dma_transfer == match old.ppu.restarted_dma_transfer {
            Some(r) => if r.delay_ticks + 1 == 4 {
                None
            } else {
                Some(RestartedDmaTransfer { source: r.source, delay_ticks: (r.delay_ticks + 1) as u8 })
            },
            None => None,
        })
        &&& (self.ppu == (Ppu {
            oam: self.ppu.oam,
            dma_transfer: self.ppu.dma_transfer,
            restarted_dma_transfer: self.ppu.restarted_dma_transfer,
            ..old.ppu
        }))
        &&& (self.interrupts == old.interrupts)
        &&& (self.sys_clock == old.sys_clock)
        &&& (*self == (Hardware { ppu: self.ppu, ..*old }))
    }

    /// `self` is `old` with the timer stepped by one T-cycle.
    pub open spec fn timer_stepped_from(&self, old: &Hardware) -> bool {
        &&& (self.timer == old.timer.stepped(crate::clock::phase_of(old.sys_clock.0 as nat)).0)
        &&& (self.interrupts.requested == if old.timer.stepped(
            crate::clock::phase_of(old.sys_clock.0 as nat),
        ).1 {
            old.interrupts.requested | Interrupt::Timer.mask()
        } else {
            old.interrupts.requested
        })
        &&& (self.interrupts.enabled == old.interrupts.enabled)
        &&& (self.sys_clock == old.sys_clock)
        &&& (*self == (Hardware { timer: self.timer, interrupts: self.interrupts, ..*old }))
    }

    /// `self` is `old` with the PPU stepped by one T-cycle.
    pub open spec fn ppu_stepped_from(&self, old: &Hardware) -> bool {
        &&& (self.sys_clock == old.sys_clock)
        &&& (self.interrupts.requested == old.interrupts.requested | old.ppu.ticked().1)
        &&& (old.ppu.ticked().2 ==> self.ppu.rendered_from(&old.ppu.ticked().0))
        &&& (!old.ppu.ticked().2 ==> self.ppu == old.ppu.ticked().0)
        &&& (self.interrupts.enabled == old.interrupts.enabled)
        &&& (*self == (Hardware { ppu: self.ppu, interrupts: self.interrupts, ..*old }))
    }

    /// `self` is `old` with the APU stepped by one T-cycle.
    pub open spec fn apu_stepped_from(&self, old: &Hardware) -> bool {
        &&& (!old.apu.is_on() ==> self.apu == old.apu)
        &&& (self.apu.stepped_from(&old.apu))
        &&& (*self == (Hardware { apu: self.apu, ..*old }))
        &&& (self.sys_clock == old.sys_clock)
    }

    /// `self` is `old` with the system clock advanced by one T-cycle.
    pub open spec fn clock_stepped_from(&self, old: &Hardware) -> bool {
        &&& (self.sys_clock.0 == if old.sys_clock.0 == usize::MAX {
            0
        } else {
            (old.sys_clock.0 + 1) as usize
        })
        &&& (*self == (Hardware { sys_clock: self.sys_clock, ..*old }))
    }

    /// Builds the hardware around a cartridge image, choosing the bank
    /// controller by the cartridge type byte.
    pub fn new(bytes: Vec<u8>) -> (r: Self)
        requires
            runnable_image(bytes@),
        ensures
            r.wf(),
            r.sys_clock.0 == 0,
            bytes@[0x147] == 0 ==> (r.cartridge matches Cartridge::RomOnly(c) && c.rom@ == bytes@),
            bytes@[0x147] != 0 ==> (r.cartridge matches Cartridge::Mbc1(c) && c.rom@ == bytes@),
    {
        let kind = bytes[CARTRIDGE_TYPE];
        let cartridge = if kind == 0 {
            Cartridge::RomOnly(RomOnly::new(bytes))
        } else {
            Cartridge::Mbc1(Mbc1::new(bytes))
        };
        Hardware {
            memory: vec![0u8; MEMORY_SIZE],
            high_ram: vec![0u8; HIGH_RAM_SIZE],
            joypad: Joypad::new(),
            cartridge,
            timer: Timer::new(),
            ppu: Ppu::new(),
            apu: Apu::new(),
            sys_clock: SystemClock::new(),
            interrupts: Interrupts::new(),
        }
    }

    /// Reads a byte from the bus.
    pub fn read_byte(&self, address: u16) -> (r: u8)
        requires
            self.wf(),
        ensures
            r == self.bus_read(address),
    {
        if address < 0x8000 {
            self.cartridge.read_rom(address)
        } else if address < 0xA000 {
            if self.ppu.can_access_vram() {
                self.ppu.read_ram(address)
            } else {
                0xFF
            }
        } else if address < 0xC000 {
            self.cartridge.read_ram(address)
        } else if address < 0xE000 {
            self.memory[(address - 0xC000) as usize]
        } else if address < 0xFE00 {
            self.memory[(address - 0xE000) as usize]
        } else if address < 0xFEA0 {
            let ppu_blocked = !self.ppu.can_access_oam();
            let dma_blocked = self.ppu.dma_transfer_running();
            if dma_blocked || ppu_blocked {
                0xFF
            } else {
                self.ppu.read_oam(address)
            }
        } else if address < 0xFF00 {
            0
        } else if address < 0xFF80 {
            self.read_io_register(address)
        } else if address < 0xFFFF {
            self.high_ram[(address - 0xFF80) as usize]
        } else {
            self.interrupts.enabled_bitfield()
        }
    }

    /// Reads an I/O register; serial and unmapped ones read 0 and 0xFF.
    pub fn read_io_register(&self, address: u16) -> (r: u8)
        requires
            self.wf(),
            0xFF00 <= address < 0xFF80,
        ensures
            r == self.io_read(address),
    {
        if address == 0xFF00 {
            self.joypad.read_register()
        } else if address == 0xFF01 || address == 0xFF02 {
            0
        } else if 0xFF04 <= address && address < 0xFF08 {
            self.timer.read_register(address)
        } else if (0xFF10 <= address && address < 0xFF27) || (0xFF30 <= address && address < 0xFF40) {
            self.apu.read_register(address)
        } else if 0xFF40 <= address && address < 0xFF4C {
            self.ppu.read_register(address)
        } else if address == 0xFF0F {
            self.interrupts.requested_bitfield()
        } else {
            0xFF
        }
    }

    /// Writes a byte to the bus. Gated VRAM and OAM writes, writes to the
    /// unused region and to unmapped registers are dropped.
    pub fn write_byte(&mut self, address: u16, value: u8)
        requires
            old(self).wf(),
        ensures
            final(self).wf(),
            final(self).sys_clock == old(self).sys_clock,
            final(self).write_effect(&*old(self), address, value),
    {
        if address < 0x8000 {
            self.cartridge.write_rom(address, value);
        } else if address < 0xA000 {
            if self.ppu.can_access_vram() {
                self.ppu.write_ram(address, value);
            }
        } else if address < 0xC000 {
            self.cartridge.write_ram(address, value);
        } else if address < 0xE000 {
            self.memory.set((address - 0xC000) as usize, value);
        } else if address < 0xFE00 {
            self.memory.set((address - 0xE000) as usize, value);
        } else if address < 0xFEA0 {
            let ppu_blocked = !self.ppu.can_access_oam();
            let dma_blocked = self.ppu.dma_transfer_running();
            if !dma_blocked && !ppu_blocked {
                self.ppu.write_oam(address, value);
            }
        } else if address < 0xFF00 {
        } else if address < 0xFF80 {
            self.write_io_register(address, value);
        } else if address < 0xFFFF {
            self.high_ram.set((address - 0xFF80) as usize, value);
        } else {
            self.interrupts.set_enabled(value);
        }
    }

    /// Writes an I/O register; serial and unmapped ones drop the write.
    pub fn write_io_register(&mut self, address: u16, value: u8)
        requires
            old(self).wf(),
            0xFF00 <= address < 0xFF80,
        ensures
            final(self).wf(),
            final(self).sys_clock == old(self).sys_clock,
            final(self).memory == old(self).memory,
            final(self).high_ram == old(self).high_ram,
            final(self).cartridge == old(self).cartridge,
            address == 0xFF0F ==> final(self).interrupts.requested == value & 0x1F
                && final(self).interrupts.enabled == old(self).interrupts.enabled,
            address != 0xFF0F ==> final(self).interrupts == old(self).interrupts,
            address == 0xFF00 ==> final(self).joypad.button_group == value & 0x30
                && final(self).joypad.pressed == old(self).joypad.pressed,
            address != 0xFF00 ==> final(self).joypad == old(self).joypad,
            0xFF04 <= address < 0xFF08 ==> final(self).timer == old(self).timer.written(address, value),
            !(0xFF04 <= address < 0xFF08) ==> final(self).timer == old(self).timer,
            0xFF40 <= address < 0xFF4C ==> final(self).ppu == old(self).ppu.register_written(address, value),
            !(0xFF40 <= address < 0xFF4C) ==> final(self).ppu == old(self).ppu,
            !((0xFF10 <= address < 0xFF27) || (0xFF30 <= address < 0xFF40)) ==> final(self).apu == old(self).apu,
            ((0xFF10 <= address < 0xFF27) || (0xFF30 <= address < 0xFF40)) ==> final(self).apu.register_write_effect(&old(self).apu, address, value),
    {
        if address == 0xFF00 {
            self.joypad.write_register(value);
        } else if address == 0xFF01 || address == 0xFF02 {
        } else if 0xFF04 <= address && address < 0xFF08 {
            self.timer.write_register(address, value);
        } else if (0xFF10 <= address && address < 0xFF27) || (0xFF30 <= address && address < 0xFF40) {
            self.apu.write_register(address, value);
        } else if 0xFF40 <= address && address < 0xFF4C {
            self.ppu.write_register(address, value);
        } else if address == 0xFF0F {
            self.interrupts.set_requested(value);
        }
    }

    /// The DMA part after one T-cycle: the transfer as it advances, the OAM
    /// byte it copies on this cycle if any (index and value), read through the bus.
    pub open spec fn dma_advanced(&self) -> (Option<DmaTransfer>, Option<(int, u8)>) {
        match self.ppu.dma_transfer {
            Some(t) => match t.progress {
                DmaTransferProgress::Requested { delay_ticks } => if delay_ticks + 1 == 4 {
                    (Some(DmaTransfer { source: t.source, progress: DmaTransferProgress::Transferring { ticks: 0 } }), None)
                } else {
                    (Some(DmaTransfer { source: t.source, progress: DmaTransferProgress::Requested { delay_ticks: (delay_ticks + 1) as u8 } }), None)
                },
                DmaTransferProgress::Transferring { ticks } => if ticks == 640 {
                    (None, None)
                } else {
                    let copy = if (ticks + 1) % 4 == 0 {
                        Some(((ticks / 4) as int, self.bus_read((t.source * 256 + ticks / 4) as u16)))
                    } else {
                        None
                    };
                    (Some(DmaTransfer { source: t.source, progress: DmaTransferProgress::Transferring { ticks: (ticks + 1) as u16 } }), copy)
                },
            },
            None => (None, None),
        }
    }

    /// Steps DMA by a T-cycle: a request starts copying after four T-cycles,
    /// a copy moves byte `i` from `(source << 8) + i` to OAM every four and
    /// ends after 640; a restart replaces the transfer four T-cycles after its request.
    pub fn step_dma_transfer(&mut self)
        requires
            old(self).wf(),
        ensures
            final(self).wf(),
            final(self).ppu.oam@ == match old(self).dma_advanced().1 {
                Some((i, b)) => old(self).ppu.oam@.update(i, b),
                None => old(self).ppu.oam@,
            },
            final(self).ppu.dma_transfer == match old(self).ppu.restarted_dma_transfer {
                Some(r) => if r.delay_ticks + 1 == 4 {
                    Some(DmaTransfer { source: r.source, progress: DmaTransferProgress::Transferring { ticks: 0 } })
                } else {
                    old(self).dma_advanced().0
                },
                None => old(self).dma_advanced().0,
            },
            final(self).ppu.restarted_dma_transfer == match old(self).ppu.restarted_dma_transfer {
                Some(r) => if r.delay_ticks + 1 == 4 {
                    None
                } else {
                    Some(RestartedDmaTransfer { source: r.source, delay_ticks: (r.delay_ticks + 1) as u8 })
                },
                None => None,
            },
            final(self).ppu == (Ppu {
                oam: final(self).ppu.oam,
                dma_transfer: final(self).ppu.dma_transfer,
                restarted_dma_transfer: final(self).ppu.restarted_dma_transfer,
                ..old(self).ppu
            }),
            final(self).interrupts == old(self).interrupts,
            final(self).sys_clock == old(self).sys_clock,
            *final(self) == (Hardware { ppu: final(self).ppu, ..*old(self) }),
            final(self).dma_stepped_from(&*old(self)),
    {
        match self.ppu.dma_transfer {
            Some(t) => {
                let source = t.source;
                match t.progress {
                    DmaTransferProgress::Requested { delay_ticks } => {
                        let new_ticks = delay_ticks + 1;
                        if new_ticks == DMA_TRANSFER_DELAY {
                            self.ppu.dma_transfer = Some(DmaTransfer::starting(source));
                        } else {
                            self.ppu.dma_transfer = Some(DmaTransfer::requested_with_ticks(source, new_ticks));
                        }
                    },
                    DmaTransferProgress::Transferring { ticks } => {
                        if ticks == DMA_TRANSFER_DURATION {
                            self.ppu.dma_transfer = None;
                        } else {
                            let new_ticks = ticks + 1;
                            if new_ticks % 4 == 0 {
                                let starting_address = (source as u16) * 256;
                                let index = ticks / 4;
                                let src_byte = self.read_byte(starting_address + index);
                                self.ppu.write_oam(0xFE00 + index, src_byte);
                            }
                            self.ppu.dma_transfer = Some(DmaTransfer::starting_with_ticks(source, new_ticks));
                        }
                    },
                }
            },
            None => {},
        }
        if let Some(restarted_dma) = self.ppu.restarted_dma_transfer {
            let delay_ticks = restarted_dma.delay_ticks + 1;
            if delay_ticks == DMA_TRANSFER_DELAY {
                self.ppu.dma_transfer = Some(DmaTransfer::starting(restarted_dma.source));
                self.ppu.restarted_dma_transfer = None;
            } else {
                self.ppu.restarted_dma_transfer = Some(RestartedDmaTransfer { source: restarted_dma.source, delay_ticks });
            }
        }
    }

    /// Presses or releases a button.
    pub fn update_button(&mut self, button: Button, button_state: ButtonAction)
        requires
            old(self).wf(),
        ensures
            final(self).wf(),
            final(self).joypad.pressed == old(self).joypad.pressed_after(button, button_state),
            final(self).joypad.button_group == old(self).joypad.button_group,
            final(self).interrupts.enabled == old(self).interrupts.enabled,
            final(self).interrupts.requested == if old(self).joypad.nibble() & !final(self).joypad.nibble() != 0 {
                old(self).interrupts.requested | Interrupt::Joypad.mask()
            } else {
                old(self).interrupts.requested
            },
    {
        self.joypad.update_button_state(&mut self.interrupts, button, button_state);
    }

    /// Steps the timer by a T-cycle.
    pub fn step_timer(&mut self)
        requires
            old(self).wf(),
        ensures
            final(self).wf(),
            final(self).timer == old(self).timer.stepped(crate::clock::phase_of(old(self).sys_clock.0 as nat)).0,
            final(self).interrupts.requested == if old(self).timer.stepped(
                crate::clock::phase_of(old(self).sys_clock.0 as nat),
            ).1 {
                old(self).interrupts.requested | Interrupt::Timer.mask()
            } else {
                old(self).interrupts.requested
            },
            final(self).interrupts.enabled == old(self).interrupts.enabled,
            final(self).sys_clock == old(self).sys_clock,
            *final(self) == (Hardware { timer: final(self).timer, interrupts: final(self).interrupts, ..*old(self) }),
            final(self).timer_stepped_from(&*old(self)),
    {
        self.timer.step(&mut self.interrupts, &self.sys_clock);
    }

    /// Steps the PPU by a T-cycle.
    pub fn step_ppu(&mut self)
        requires
            old(self).wf(),
        ensures
            final(self).wf(),
            final(self).sys_clock == old(self).sys_clock,
            final(self).interrupts.requested == old(self).interrupts.requested | old(self).ppu.ticked().1,
            old(self).ppu.ticked().2 ==> final(self).ppu.rendered_from(&old(self).ppu.ticked().0),
            !old(self).ppu.ticked().2 ==> final(self).ppu == old(self).ppu.ticked().0,
            final(self).interrupts.enabled == old(self).interrupts.enabled,
            *final(self) == (Hardware { ppu: final(self).ppu, interrupts: final(self).interrupts, ..*old(self) }),
            final(self).ppu_stepped_from(&*old(self)),
    {
        self.ppu.step(&mut self.interrupts);
    }

    /// Steps the APU by a T-cycle.
    pub fn step_apu(&mut self)
        requires
            old(self).wf(),
        ensures
            final(self).wf(),
            !old(self).apu.is_on() ==> final(self).apu == old(self).apu,
            final(self).apu.stepped_from(&old(self).apu),
            *final(self) == (Hardware { apu: final(self).apu, ..*old(self) }),
            final(self).sys_clock == old(self).sys_clock,
            final(self).apu_stepped_from(&*old(self)),
    {
        self.apu.step();
    }

    /// Advances the system clock by a T-cycle.
    pub fn step_sys_clock(&mut self)
        requires
            old(self).wf(),
        ensures
            final(self).wf(),
            final(self).sys_clock.0 == if old(self).sys_clock.0 == usize::MAX {
                0
            } else {
                (old(self).sys_clock.0 + 1) as usize
            },
            *final(self) == (Hardware { sys_clock: final(self).sys_clock, ..*old(self) }),
            final(self).clock_stepped_from(&*old(self)),
    {
        self.sys_clock.increment_clock();
    }

    /// Hands the audio samples produced so far to the host.
    pub fn take_audio_samples(&mut self) -> (r: Vec<crate::apu::MixedSample>)
        requires
            old(self).wf(),
        ensures
            final(self).wf(),
            r@ == old(self).apu.samples@,
            final(self).sys_clock == old(self).sys_clock,
    {
        self.apu.take_samples()
    }

    /// The frame buffer: 144 rows of 160 color indices, row by row.
    pub fn frame_buffer(&self) -> (r: &Vec<u8>)
        ensures
            r == &self.ppu.buffer,
    {
        self.ppu.buffer()
    }

    /// Whether any enabled interrupt is requested.
    pub fn has_pending_interrupts(&self) -> (r: bool)
        ensures
            r == (self.interrupts.pending() != 0),
    {
        self.interrupts.pending_bitfield() != 0
    }

    /// The pending interrupt of highest priority, if any.
    pub fn next_pending_interrupt(&self) -> (r: Option<Interrupt>)
        ensures
            r == self.next_pending(),
    {
        let pending = self.interrupts.pending_bitfield();
        Interrupts::next_interrupt_from_bitfield(pending)
    }

    /// Clears a requested interrupt.
    pub fn clear_interrupt(&mut self, interrupt: Interrupt)
        requires
            old(self).wf(),
        ensures
            final(self).wf(),
            final(self).interrupts.requested == old(self).interrupts.requested & !interrupt.mask(),
            final(self).interrupts.enabled == old(self).interrupts.enabled,
            final(self).sys_clock == old(self).sys_clock,
            final(self).ppu == old(self).ppu,
            *final(self) == (Hardware { interrupts: final(self).interrupts, ..*old(self) }),
    {
        self.interrupts.clear_interrupt(interrupt);
    }
}

/// Gated video memory reads as 0xFF: VRAM while the PPU draws with the LCD
/// on, OAM while it scans or draws, and OAM while a DMA transfer copies.
pub proof fn lemma_gated_reads(h: &Hardware, address: u16)
    requires
        h.wf(),
    ensures
        0x8000 <= address < 0xA000 && !h.ppu.vram_accessible() ==> h.bus_read(address) == 0xFF,
        0xFE00 <= address < 0xFEA0 && (!h.ppu.oam_accessible() || h.ppu.dma_running())
            ==> h.bus_read(address) == 0xFF,
{
}

/// The unused region 0xFEA0 to 0xFEFF reads 0.
pub proof fn lemma_unused_reads_zero(h: &Hardware, address: u16)
    requires
        0xFEA0 <= address < 0xFF00,
    ensures
        h.bus_read(address) == 0,
{
}

} // verus!
