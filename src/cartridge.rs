use vstd::prelude::*;
use crate::bits::lemma_and_le;

verus! {

/// The size of a ROM bank.
pub const ROM_BANK_SIZE: usize = 0x4000;

/// The size of a RAM bank.
pub const RAM_BANK_SIZE: usize = 0x2000;

/// A byte of `bytes`, or 0xFF past its end.
pub open spec fn byte_or_ff(bytes: Seq<u8>, i: int) -> u8 {
    if 0 <= i < bytes.len() {
        bytes[i]
    } else {
        0xFF
    }
}

/// A game cartridge, by bank controller.
#[derive(Debug)]
pub enum Cartridge {
    /// A cartridge with 32 KiB of ROM and no RAM.
    RomOnly(RomOnly),
    /// A cartridge with the first-family memory bank controller.
    Mbc1(Mbc1),
}

impl Cartridge {
    pub open spec fn wf(&self) -> bool {
        match self {
            Cartridge::RomOnly(c) => c.wf(),
            Cartridge::Mbc1(c) => c.wf(),
        }
    }

    /// What a ROM read at `address` returns.
    pub open spec fn rom_byte(&self, address: u16) -> u8 {
        match self {
            Cartridge::RomOnly(c) => c.rom@[address as int],
            Cartridge::Mbc1(c) => c.rom_byte(address),
        }
    }

    /// What a RAM read at `address` returns.
    pub open spec fn ram_byte(&self, address: u16) -> u8 {
        match self {
            Cartridge::RomOnly(_) => 0xFF,
            Cartridge::Mbc1(c) => c.ram_byte(address),
        }
    }

    /// Reads ROM.
    pub fn read_rom(&self, address: u16) -> (r: u8)
        requires
            self.wf(),
            address < 0x8000,
        ensures
            r == self.rom_byte(address),
    {
        match self {
            Cartridge::RomOnly(c) => c.read_rom(address),
            Cartridge::Mbc1(c) => c.read_rom(address),
        }
    }

    /// Writes to ROM: a control register write on a bank controller, ignored otherwise.
    pub fn write_rom(&mut self, address: u16, value: u8)
        requires
            old(self).wf(),
        ensures
            final(self).wf(),
            match *old(self) {
                Cartridge::RomOnly(c) => *final(self) == Cartridge::RomOnly(c),
                Cartridge::Mbc1(c) => *final(self) matches Cartridge::Mbc1(n) && n == c.rom_written(
                    address,
                    value,
                ),
            },
    {
        match self {
            Cartridge::RomOnly(_) => {},
            Cartridge::Mbc1(c) => c.write_rom(address, value),
        }
    }

    /// Reads external RAM; a cartridge without RAM reads 0xFF.
    pub fn read_ram(&self, address: u16) -> (r: u8)
        requires
            self.wf(),
        ensures
            r == self.ram_byte(address),
    {
        match self {
            Cartridge::RomOnly(_) => 0xFF,
            Cartridge::Mbc1(c) => c.read_ram(address),
        }
    }

    /// Writes external RAM; ignored on a cartridge without RAM.
    pub fn write_ram(&mut self, address: u16, value: u8)
        requires
            old(self).wf(),
        ensures
            final(self).wf(),
            match *old(self) {
                Cartridge::RomOnly(c) => *final(self) == Cartridge::RomOnly(c),
                Cartridge::Mbc1(c) => *final(self) matches Cartridge::Mbc1(n) && n.ram_written(
                    c,
                    address,
                    value,
                ),
            },
    {
        match self {
            Cartridge::RomOnly(_) => {},
            Cartridge::Mbc1(c) => c.write_ram(address, value),
        }
    }
}

/// The banking mode latch of the first-family controller.
#[derive(Debug, Clone, Copy, PartialEq, Eq, Structural)]
pub enum BankingMode {
    /// The upper two bits select high ROM bank bits.
    Simple,
    /// The upper two bits select the RAM bank.
    Advanced,
}

/// A cartridge with the first-family memory bank controller.
#[derive(Debug)]
pub struct Mbc1 {
    pub rom: Vec<u8>,
    pub ram: Vec<u8>,
    /// The composed ROM bank: five low bits and two high bits.
    pub rom_bank: usize,
    /// The RAM bank.
    pub ram_bank: usize,
    pub ram_enabled: bool,
    pub banking_mode: BankingMode,
}

impl Mbc1 {
    pub open spec fn wf(&self) -> bool {
        &&& self.rom_bank < 0x80
        &&& self.ram_bank < 4
        &&& self.ram@.len() == 0x8000
    }

    pub open spec fn rom_byte(&self, address: u16) -> u8 {
        let bank = if address < 0x4000 {
            0
        } else {
            self.rom_bank as int
        };
        byte_or_ff(self.rom@, bank * 0x4000 + (address as int) % 0x4000)
    }

    pub open spec fn ram_byte(&self, address: u16) -> u8 {
        if self.ram_enabled {
            byte_or_ff(self.ram@, self.ram_bank as int * 0x2000 + (address as int) % 0x2000)
        } else {
            0xFF
        }
    }

    /// The controller after a write to its control registers.
    pub open spec fn rom_written(self, address: u16, value: u8) -> Mbc1 {
        if address < 0x2000 {
            Mbc1 { ram_enabled: value & 0x0F == 0x0A, ..self }
        } else if address < 0x4000 {
            let low = if value & 0x1F == 0 {
                1
            } else {
                value & 0x1F
            };
            Mbc1 { rom_bank: ((self.rom_bank & 0x60) | low as usize) as usize, ..self }
        } else if address < 0x6000 {
            let bits = (value & 0x03) as usize;
            match self.banking_mode {
                BankingMode::Simple => Mbc1 {
                    rom_bank: ((self.rom_bank & 0x1F) | (bits << 5usize)) as usize,
                    ..self
                },
                BankingMode::Advanced => Mbc1 { ram_bank: bits, ..self },
            }
        } else if address < 0x8000 {
            Mbc1 {
                banking_mode: if value & 0x01 == 0 {
                    BankingMode::Advanced
                } else {
                    BankingMode::Simple
                },
                ..self
            }
        } else {
            self
        }
    }

    /// `self` is `old` after a RAM write: the addressed byte changes only when
    /// RAM is enabled.
    pub open spec fn ram_written(self, old: Mbc1, address: u16, value: u8) -> bool {
        let i = old.ram_bank as int * 0x2000 + (address as int) % 0x2000;
        &&& self.rom == old.rom
        &&& self.rom_bank == old.rom_bank
        &&& self.ram_bank == old.ram_bank
        &&& self.ram_enabled == old.ram_enabled
        &&& self.banking_mode == old.banking_mode
        &&& self.ram@ == if old.ram_enabled {
            old.ram@.update(i, value)
        } else {
            old.ram@
        }
    }

    /// Creates the controller over a ROM image, with 32 KiB of RAM and bank 1 selected.
    pub fn new(rom: Vec<u8>) -> (r: Self)
        ensures
            r.wf(),
            r.rom@ == rom@,
            r.ram@ == Seq::new(0x8000, |i: int| 0u8),
            r.rom_bank == 1,
            r.ram_bank == 0,
            !r.ram_enabled,
            r.banking_mode == BankingMode::Simple,
    {
        let ram = vec![0u8; 0x8000];
        assert(ram@ =~= Seq::new(0x8000, |i: int| 0u8));
        Mbc1 {
            rom,
            ram,
            rom_bank: 1,
            ram_bank: 0,
            ram_enabled: false,
            banking_mode: BankingMode::Simple,
        }
    }

    /// Reads ROM: bank 0 below 0x4000, the selected bank above; 0xFF past the image.
    pub fn read_rom(&self, address: u16) -> (r: u8)
        requires
            self.wf(),
        ensures
            r == self.rom_byte(address),
    {
        let bank: usize = if address < 0x4000 {
            0
        } else {
            self.rom_bank
        };
        let offset: usize = (address as usize) % ROM_BANK_SIZE;
        let i: usize = bank * ROM_BANK_SIZE + offset;
        if i < self.rom.len() {
            self.rom[i]
        } else {
            0xFF
        }
    }

    /// Writes a control register: RAM enable, low bank, upper bits, mode.
    pub fn write_rom(&mut self, address: u16, value: u8)
        requires
            old(self).wf(),
        ensures
            final(self).wf(),
            *final(self) == old(self).rom_written(address, value),
    {
        if address < 0x2000 {
            self.ram_enabled = value & 0x0F == 0x0A;
        } else if address < 0x4000 {
            let low: u8 = if value & 0x1F == 0 {
                1
            } else {
                value & 0x1F
            };
            let rb = self.rom_bank;
            proof {
                lemma_and_le(value, 0x1F);
            }
            assert((rb & 0x60) | (low as usize) < 0x80) by (bit_vector)
                requires
                    low < 0x20,
            ;
            self.rom_bank = (self.rom_bank & 0x60) | low as usize;
        } else if address < 0x6000 {
            let bits = (value & 0x03) as usize;
            proof {
                lemma_and_le(value, 0x03);
            }
            match self.banking_mode {
                BankingMode::Simple => {
                    let rb = self.rom_bank;
                    assert((rb & 0x1F) | (bits << 5usize) < 0x80) by (bit_vector)
                        requires
                            bits < 4,
                    ;
                    self.rom_bank = (self.rom_bank & 0x1F) | (bits << 5);
                },
                BankingMode::Advanced => self.ram_bank = bits,
            }
        } else if address < 0x8000 {
            self.banking_mode = if value & 0x01 == 0 {
                BankingMode::Advanced
            } else {
                BankingMode::Simple
            };
        }
    }

    /// Reads external RAM; 0xFF while RAM is disabled.
    pub fn read_ram(&self, address: u16) -> (r: u8)
        requires
            self.wf(),
        ensures
            r == self.ram_byte(address),
    {
        if self.ram_enabled {
            let i: usize = self.ram_bank * RAM_BANK_SIZE + (address as usize) % RAM_BANK_SIZE;
            if i < self.ram.len() {
                self.ram[i]
            } else {
                0xFF
            }
        } else {
            0xFF
        }
    }

    /// Writes external RAM; discarded while RAM is disabled.
    pub fn write_ram(&mut self, address: u16, value: u8)
        requires
            old(self).wf(),
        ensures
            final(self).wf(),
            final(self).ram_written(*old(self), address, value),
    {
        if !self.ram_enabled {
            return;
        }
        let i: usize = self.ram_bank * RAM_BANK_SIZE + (address as usize) % RAM_BANK_SIZE;
        if i < self.ram.len() {
            self.ram.set(i, value);
        }
    }
}

/// A cartridge that only has ROM.
#[derive(Debug)]
pub struct RomOnly {
    /// The ROM of the cartridge.
    pub rom: Vec<u8>,
}

impl RomOnly {
    /// The image covers the whole 32 KiB ROM window.
    pub open spec fn wf(&self) -> bool {
        self.rom@.len() >= 0x8000
    }

    /// Creates the cartridge over a ROM image.
    pub fn new(rom: Vec<u8>) -> (r: Self)
        ensures
            r.rom@ == rom@,
    {
        RomOnly { rom }
    }

    /// Reads ROM.
    pub fn read_rom(&self, address: u16) -> (r: u8)
        requires
            (address as int) < self.rom@.len(),
        ensures
            r == self.rom@[address as int],
    {
        self.rom[address as usize]
    }
}

/// Writing 0 to the low bank-select latch selects bank 1 in its low five bits.
pub proof fn lemma_bank_zero_selects_one(c: Mbc1, address: u16)
    requires
        c.wf(),
        0x2000 <= address < 0x4000,
    ensures
        c.rom_written(address, 0).rom_bank & 0x1F == 1,
{
    let rb = c.rom_bank;
    lemma_and_le(0, 0x1F);
    assert(((rb & 0x60) | 1usize) & 0x1F == 1) by (bit_vector);
}

} // verus!
