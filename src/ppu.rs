use vstd::prelude::*;
use crate::bits::{lemma_and_le, lemma_or_assoc, lemma_shr_le, lemma_stat_bits};
use crate::interrupts::{Interrupt, Interrupts};
use crate::ppu::sprites::{draw_all, lemma_draw_ignore_wly, lemma_selected_ignore_wly, sprite_order};

pub mod sprites;

verus! {

/// The size of video RAM.
pub const VIDEO_RAM_SIZE: usize = 0x2000;

/// The size of the sprite attribute table.
pub const OAM_SIZE: usize = 0xA0;

/// The screen width in pixels.
pub const SCREEN_WIDTH: usize = 160;

/// The screen height in pixels.
pub const SCREEN_HEIGHT: usize = 144;

/// One of the PPU's four modes, stored in STAT's low two bits.
#[derive(Debug, Clone, Copy, PartialEq, Eq, Structural)]
pub enum PpuMode {
    HBlank,
    VBlank,
    OamScan,
    PixelTransfer,
}

impl PpuMode {
    pub open spec fn bits(self) -> u8 {
        match self {
            PpuMode::HBlank => 0,
            PpuMode::VBlank => 1,
            PpuMode::OamScan => 2,
            PpuMode::PixelTransfer => 3,
        }
    }

    pub open spec fn from_bits(b: u8) -> PpuMode {
        if b == 0 {
            PpuMode::HBlank
        } else if b == 1 {
            PpuMode::VBlank
        } else if b == 2 {
            PpuMode::OamScan
        } else {
            PpuMode::PixelTransfer
        }
    }

    /// Returns the mode's STAT bits.
    pub fn to_bits(self) -> (r: u8)
        ensures
            r == self.bits(),
            r < 4,
    {
        match self {
            PpuMode::HBlank => 0,
            PpuMode::VBlank => 1,
            PpuMode::OamScan => 2,
            PpuMode::PixelTransfer => 3,
        }
    }
}

/// The interrupt-source and coincidence bits of STAT.
#[derive(Debug, Clone, Copy, PartialEq, Eq, Structural)]
pub enum StatFlag {
    Coincidence,
    HBlankInterrupt,
    VBlankInterrupt,
    OamInterrupt,
    LycInterrupt,
}

impl StatFlag {
    pub open spec fn mask(self) -> u8 {
        match self {
            StatFlag::Coincidence => 0x04,
            StatFlag::HBlankInterrupt => 0x08,
            StatFlag::VBlankInterrupt => 0x10,
            StatFlag::OamInterrupt => 0x20,
            StatFlag::LycInterrupt => 0x40,
        }
    }

    /// Returns the flag's bit in STAT.
    pub fn bit_mask(self) -> (r: u8)
        ensures
            r == self.mask(),
    {
        match self {
            StatFlag::Coincidence => 0x04,
            StatFlag::HBlankInterrupt => 0x08,
            StatFlag::VBlankInterrupt => 0x10,
            StatFlag::OamInterrupt => 0x20,
            StatFlag::LycInterrupt => 0x40,
        }
    }
}

/// How far a DMA transfer has come.
#[derive(Debug, Clone, Copy, PartialEq, Eq, Structural)]
pub enum DmaTransferProgress {
    /// Requested `delay_ticks` T-cycles ago; transferring starts after four.
    Requested { delay_ticks: u8 },
    /// Transferring for `ticks` T-cycles; one byte every four.
    Transferring { ticks: u16 },
}

/// A DMA transfer from page `source` to OAM.
#[derive(Debug, Clone, Copy, PartialEq, Eq, Structural)]
pub struct DmaTransfer {
    pub source: u8,
    pub progress: DmaTransferProgress,
}

impl DmaTransfer {
    /// A transfer just requested.
    pub fn new(source: u8) -> (r: Self)
        ensures
            r == (DmaTransfer { source, progress: DmaTransferProgress::Requested { delay_ticks: 0 } }),
    {
        DmaTransfer { source, progress: DmaTransferProgress::Requested { delay_ticks: 0 } }
    }

    /// A requested transfer `ticks` T-cycles in.
    pub fn requested_with_ticks(source: u8, ticks: u8) -> (r: Self)
        ensures
            r == (DmaTransfer { source, progress: DmaTransferProgress::Requested { delay_ticks: ticks } }),
    {
        DmaTransfer { source, progress: DmaTransferProgress::Requested { delay_ticks: ticks } }
    }

    /// A transfer starting to copy.
    pub fn starting(source: u8) -> (r: Self)
        ensures
            r == (DmaTransfer { source, progress: DmaTransferProgress::Transferring { ticks: 0 } }),
    {
        DmaTransfer { source, progress: DmaTransferProgress::Transferring { ticks: 0 } }
    }

    /// A copying transfer `ticks` T-cycles in.
    pub fn starting_with_ticks(source: u8, ticks: u16) -> (r: Self)
        ensures
            r == (DmaTransfer { source, progress: DmaTransferProgress::Transferring { ticks } }),
    {
        DmaTransfer { source, progress: DmaTransferProgress::Transferring { ticks } }
    }
}

/// A DMA request made while another transfer runs; it replaces that one after four T-cycles.
#[derive(Debug, Clone, Copy, PartialEq, Eq, Structural)]
pub struct RestartedDmaTransfer {
    pub source: u8,
    pub delay_ticks: u8,
}

impl RestartedDmaTransfer {
    /// A restart just requested.
    pub fn new(source: u8) -> (r: Self)
        ensures
            r == (RestartedDmaTransfer { source, delay_ticks: 0 }),
    {
        RestartedDmaTransfer { source, delay_ticks: 0 }
    }
}

/// The number of dots a mode lasts on one line.
pub open spec fn mode_length(mode: u8) -> nat {
    if mode == 2 {
        80
    } else if mode == 3 {
        172
    } else if mode == 0 {
        204
    } else {
        456
    }
}

/// STAT with its mode bits replaced; bit 7 reads as clear.
pub open spec fn with_mode(stat: u8, mode: u8) -> u8 {
    (stat & 0x7C) | mode
}

/// The LCD interrupt bit when a STAT source is enabled.
pub open spec fn lcd_irq(stat: u8, flag: u8) -> u8 {
    if stat & flag == flag {
        2
    } else {
        0
    }
}

/// A palette lookup: two bits per color.
pub open spec fn palette_color(palette: u8, color: u8) -> u8 {
    (palette >> (color * 2) as u8) & 0x03
}

/// The 2-bit color at bit `bit` of a pair of bitplane bytes.
pub open spec fn plane_color(lower: u8, upper: u8, bit: u8) -> u8 {
    (((upper >> bit) & 1) << 1u8) | ((lower >> bit) & 1)
}

/// The pixel processing unit.
#[derive(Debug)]
pub struct Ppu {
    /// Video RAM, 0x8000 to 0x9FFF.
    pub memory: Vec<u8>,
    /// Sprite attribute table, 0xFE00 to 0xFE9F.
    pub oam: Vec<u8>,
    /// The frame, row by row, 160 color indices per row.
    pub buffer: Vec<u8>,
    pub lcdc: u8,
    pub stat: u8,
    pub scy: u8,
    pub scx: u8,
    /// The current scanline.
    pub ly: u8,
    /// The window's own line counter.
    pub wly: u8,
    pub lyc: u8,
    pub bgp: u8,
    pub obp0: u8,
    pub obp1: u8,
    pub wy: u8,
    pub wx: u8,
    /// Dots spent in the current mode.
    pub counter: usize,
    /// The last value written to the DMA register.
    pub dma: u8,
    pub dma_transfer: Option<DmaTransfer>,
    pub restarted_dma_transfer: Option<RestartedDmaTransfer>,
}

impl Ppu {
    pub open spec fn wf(&self) -> bool {
        &&& self.memory@.len() == VIDEO_RAM_SIZE
        &&& self.oam@.len() == OAM_SIZE
        &&& self.buffer@.len() == SCREEN_WIDTH * SCREEN_HEIGHT
        &&& self.ly <= 153
        &&& (self.stat & 0x03 != 1 ==> self.ly < 144)
        &&& self.counter < mode_length(self.stat & 0x03)
    }

    pub open spec fn mode(&self) -> PpuMode {
        PpuMode::from_bits(self.stat & 0x03)
    }

    pub open spec fn lcd_on(&self) -> bool {
        self.lcdc & 0x80 == 0x80
    }

    /// The CPU may read and write OAM: LCD off, or neither scanning OAM nor drawing.
    pub open spec fn oam_accessible(&self) -> bool {
        !self.lcd_on() || !(self.mode() == PpuMode::OamScan || self.mode() == PpuMode::PixelTransfer)
    }

    /// The CPU may read and write video RAM: LCD off, or not drawing.
    pub open spec fn vram_accessible(&self) -> bool {
        !self.lcd_on() || self.mode() != PpuMode::PixelTransfer
    }

    pub open spec fn dma_running(&self) -> bool {
        self.dma_transfer matches Some(t) && t.progress is Transferring
    }

    /// A byte of video RAM by bus address.
    pub open spec fn vram(&self, address: int) -> u8 {
        self.memory@[address - 0x8000]
    }

    /// What a read of a PPU register returns.
    pub open spec fn register_read(&self, address: u16) -> u8 {
        if address == 0xFF40 {
            self.lcdc
        } else if address == 0xFF41 {
            self.stat
        } else if address == 0xFF42 {
            self.scy
        } else if address == 0xFF43 {
            self.scx
        } else if address == 0xFF44 {
            self.ly
        } else if address == 0xFF45 {
            self.lyc
        } else if address == 0xFF46 {
            self.dma
        } else if address == 0xFF47 {
            self.bgp
        } else if address == 0xFF48 {
            self.obp0
        } else if address == 0xFF49 {
            self.obp1
        } else if address == 0xFF4A {
            self.wy
        } else {
            self.wx
        }
    }

    /// The PPU after a write to one of its registers.
    pub open spec fn register_written(self, address: u16, value: u8) -> Ppu {
        if address == 0xFF40 {
            if self.lcdc & 0x80 == 0x80 && value & 0x80 != 0x80 {
                Ppu { ly: 0, wly: 0, stat: self.stat & !0x04u8, lcdc: value, ..self }
            } else {
                Ppu { lcdc: value, ..self }
            }
        } else if address == 0xFF41 {
            Ppu { stat: (value & 0x7C) | (self.stat & 0x03), ..self }
        } else if address == 0xFF42 {
            Ppu { scy: value, ..self }
        } else if address == 0xFF43 {
            Ppu { scx: value, ..self }
        } else if address == 0xFF44 {
            self
        } else if address == 0xFF45 {
            Ppu { lyc: value, ..self }
        } else if address == 0xFF46 {
            if self.dma_transfer is Some {
                Ppu {
                    dma: value,
                    restarted_dma_transfer: Some(RestartedDmaTransfer { source: value, delay_ticks: 0 }),
                    ..self
                }
            } else {
                Ppu {
                    dma: value,
                    dma_transfer: Some(
                        DmaTransfer { source: value, progress: DmaTransferProgress::Requested { delay_ticks: 0 } },
                    ),
                    ..self
                }
            }
        } else if address == 0xFF47 {
            Ppu { bgp: value, ..self }
        } else if address == 0xFF48 {
            Ppu { obp0: value, ..self }
        } else if address == 0xFF49 {
            Ppu { obp1: value, ..self }
        } else if address == 0xFF4A {
            Ppu { wy: value, ..self }
        } else {
            Ppu { wx: value, ..self }
        }
    }

    /// The 2-bit color of a background or window tile at a row and column,
    /// with the tile data area chosen by LCDC bit 4.
    pub open spec fn tile_color(&self, tile_index: u8, row: u8, x: u8) -> u8 {
        let (base, idx) = if self.lcdc & 0x10 == 0x10 {
            (0x8000int, tile_index as int)
        } else if tile_index < 128 {
            (0x9000int, tile_index as int)
        } else {
            (0x8800int, tile_index - 128)
        };
        let addr = base + idx * 16 + row * 2;
        plane_color(self.vram(addr), self.vram(addr + 1), (7 - x % 8) as u8)
    }

    /// The background color of screen column `x` on the current line.
    pub open spec fn background_pixel(&self, x: int) -> u8 {
        let map = if self.lcdc & 0x08 == 0x08 { 0x9C00int } else { 0x9800int };
        let y = self.ly + self.scy;
        let tile_row = (y / 8) % 32 * 32;
        let x_pos = x + self.scx;
        let tile_col = (x_pos / 8) % 32;
        let tile_index = self.vram(map + tile_row + tile_col);
        palette_color(self.bgp, self.tile_color(tile_index, (y % 8) as u8, (x_pos % 8) as u8))
    }

    /// The window's first screen column: WX minus 7, saturating.
    pub open spec fn window_left(&self) -> int {
        if self.wx >= 7 { self.wx - 7 } else { 0 }
    }

    /// Whether the window is drawn on the current line.
    pub open spec fn window_shown(&self) -> bool {
        self.lcdc & 0x20 == 0x20 && self.ly >= self.wy && self.window_left() < 160
    }

    /// The window color of screen column `x`, at or right of the window's left column.
    pub open spec fn window_pixel(&self, x: int) -> u8 {
        let map = if self.lcdc & 0x40 == 0x40 { 0x9C00int } else { 0x9800int };
        let wxp = x - self.window_left();
        let tile_row = (self.wly / 8) * 32;
        let tile_index = self.vram(map + tile_row + wxp / 8);
        palette_color(self.bgp, self.tile_color(tile_index, (self.wly % 8) as u8, (wxp % 8) as u8))
    }

    /// The current line with background (when LCDC bit 0 is set) and window.
    pub open spec fn line_without_sprites(&self) -> Seq<u8> {
        let bg = if self.lcdc & 0x01 == 0x01 {
            Seq::new(160, |x: int| self.background_pixel(x))
        } else {
            Seq::new(160, |x: int| 0u8)
        };
        if self.window_shown() {
            Seq::new(160, |x: int| if x >= self.window_left() { self.window_pixel(x) } else { bg[x] })
        } else {
            bg
        }
    }

    /// `line` is the current line as drawn, sprites included when LCDC bit 1 is set.
    pub open spec fn is_rendered_line(&self, line: Seq<u8>) -> bool {
        if self.lcdc & 0x02 == 0x02 {
            exists|ks: Seq<u64>| sprite_order(self, ks) && line == draw_all(self, self.line_without_sprites(), ks)
        } else {
            line == self.line_without_sprites()
        }
    }

    /// `self` is `old` with the current line drawn into the frame, the window
    /// line counter advanced when the window was drawn; nothing when the LCD is off.
    pub open spec fn rendered_from(&self, old: &Ppu) -> bool {
        if !old.lcd_on() {
            *self == *old
        } else {
            let row = old.ly * 160;
            &&& self.buffer@.len() == old.buffer@.len()
            &&& old.is_rendered_line(self.buffer@.subrange(row, row + 160))
            &&& forall|j: int| 0 <= j < old.buffer@.len() && !(row <= j < row + 160) ==> self.buffer@[j] == old.buffer@[j]
            &&& *self == (Ppu {
                buffer: self.buffer,
                wly: if old.window_shown() { ((old.wly + 1) % 256) as u8 } else { old.wly },
                ..*old
            })
        }
    }

    /// One dot of the mode state machine, without the scanline drawing: the
    /// PPU after it, the interrupt bits it requests (VBlank 0x01, LCD 0x02),
    /// and whether pixel transfer ended on it, so that the line is drawn.
    pub open spec fn ticked(self) -> (Ppu, u8, bool) {
        let counter = (self.counter + 1) as usize;
        let coinc = self.ly == self.lyc;
        let stat1 = if coinc {
            self.stat | 0x04
        } else {
            self.stat & !0x04u8
        };
        let irq1: u8 = if coinc && self.stat & 0x04 != 0x04 && self.stat & 0x40 == 0x40 {
            2
        } else {
            0
        };
        let p = Ppu { counter, stat: stat1, ..self };
        let mode = stat1 & 0x03;
        if mode == 2 {
            if counter >= 80 {
                (Ppu { counter: (counter - 80) as usize, stat: with_mode(stat1, 3), ..p }, irq1 | lcd_irq(stat1, 0x20), false)
            } else {
                (p, irq1, false)
            }
        } else if mode == 3 {
            if counter >= 172 {
                (Ppu { counter: (counter - 172) as usize, stat: with_mode(stat1, 0), ..p }, irq1 | lcd_irq(stat1, 0x08), true)
            } else {
                (p, irq1, false)
            }
        } else if mode == 0 {
            if counter >= 204 {
                let ly = ((self.ly + 1) % 256) as u8;
                if ly == 144 {
                    (
                        Ppu { counter: (counter - 204) as usize, ly, stat: with_mode(stat1, 1), ..p },
                        irq1 | 1 | lcd_irq(stat1, 0x10),
                        false,
                    )
                } else {
                    (Ppu { counter: (counter - 204) as usize, ly, stat: with_mode(stat1, 2), ..p }, irq1, false)
                }
            } else {
                (p, irq1, false)
            }
        } else {
            if counter >= 456 {
                let ly = ((self.ly + 1) % 256) as u8;
                if ly > 153 {
                    (Ppu { counter: (counter - 456) as usize, ly: 0, wly: 0, stat: with_mode(stat1, 2), ..p }, irq1, false)
                } else {
                    (Ppu { counter: (counter - 456) as usize, ly, ..p }, irq1, false)
                }
            } else {
                (p, irq1, false)
            }
        }
    }
}

impl Ppu {
    /// Creates the pixel unit: LCD off, OAM scan mode, memories zeroed.
    pub fn new() -> (r: Self)
        ensures
            r.wf(),
            r.lcdc == 0,
            r.stat == 2,
            r.ly == 0,
            r.wly == 0,
            r.counter == 0,
            r.dma_transfer is None,
            r.restarted_dma_transfer is None,
            r.memory@ == Seq::new(0x2000, |i: int| 0u8),
            r.oam@ == Seq::new(0xA0, |i: int| 0u8),
            r.buffer@ == Seq::new(160 * 144, |i: int| 0u8),
    {
        let r = Ppu {
            memory: vec![0u8; VIDEO_RAM_SIZE],
            oam: vec![0u8; OAM_SIZE],
            buffer: vec![0u8; SCREEN_WIDTH * SCREEN_HEIGHT],
            lcdc: 0,
            stat: 2,
            scy: 0,
            scx: 0,
            ly: 0,
            wly: 0,
            lyc: 0,
            bgp: 0,
            obp0: 0,
            obp1: 0,
            wy: 0,
            wx: 0,
            counter: 0,
            dma: 0,
            dma_transfer: None,
            restarted_dma_transfer: None,
        };
        assert(r.memory@ =~= Seq::new(0x2000, |i: int| 0u8));
        assert(r.oam@ =~= Seq::new(0xA0, |i: int| 0u8));
        assert(r.buffer@ =~= Seq::new(160 * 144, |i: int| 0u8));
        assert(2u8 & 0x03 == 2) by (bit_vector);
        r
    }

    /// Steps the PPU by a dot: coincidence check, mode timing, interrupts,
    /// and drawing the line when pixel transfer ends.
    pub fn step(&mut self, interrupts: &mut Interrupts)
        requires
            old(self).wf(),
            old(interrupts).wf(),
        ensures
            final(self).wf(),
            old(self).ticked().2 ==> final(self).rendered_from(&old(self).ticked().0),
            !old(self).ticked().2 ==> *final(self) == old(self).ticked().0,
            final(interrupts).requested == old(interrupts).requested | old(self).ticked().1,
            final(interrupts).wf(),
            final(interrupts).enabled == old(interrupts).enabled,
    {
        let ghost r0 = interrupts.requested;
        let ghost s0 = self.stat;
        proof {
            lemma_or_assoc(r0, 0, 0);
            lemma_stat_bits(s0, 0);
        }
        self.counter = self.counter + 1;
        let mut irq: u8 = 0;
        let coinc = self.ly == self.lyc;
        if coinc {
            if self.stat & 0x04 != 0x04 {
                self.stat = self.stat | 0x04;
                if self.stat & 0x40 == 0x40 {
                    interrupts.request_interrupt(Interrupt::Lcd);
                    irq = 2;
                }
            }
        } else {
            self.stat = self.stat & !0x04u8;
        }
        let st = self.stat;
        assert(st & 0x40 == s0 & 0x40 && st & 0x03 == s0 & 0x03 && st == if coinc {
            s0 | 0x04
        } else {
            s0 & !0x04u8
        }) by (bit_vector)
            requires
                (coinc && s0 & 0x04 != 0x04) ==> st == s0 | 0x04,
                (coinc && s0 & 0x04 == 0x04) ==> st == s0,
                !coinc ==> st == s0 & !0x04u8,
        ;
        let ghost stat1 = self.stat;
        let ghost r1 = interrupts.requested;
        let mode = self.current_mode();
        proof {
            lemma_stat_bits(stat1, 0);
            lemma_stat_bits(stat1, 1);
            lemma_stat_bits(stat1, 2);
            lemma_stat_bits(stat1, 3);
            lemma_or_assoc(r0, irq, 2);
            lemma_or_assoc(r0, irq, 1);
            lemma_or_assoc(r0, irq | 1, 2);
            lemma_or_assoc(irq, 1, 2);
            lemma_or_assoc(irq | 1, 0, 0);
        }
        match mode {
            PpuMode::OamScan => {
                if self.counter >= 80 {
                    self.counter = self.counter - 80;
                    self.set_current_mode(PpuMode::PixelTransfer);
                    if self.stat & 0x20 == 0x20 {
                        interrupts.request_interrupt(Interrupt::Lcd);
                    }
                }
            },
            PpuMode::PixelTransfer => {
                if self.counter >= 172 {
                    self.counter = self.counter - 172;
                    self.set_current_mode(PpuMode::HBlank);
                    self.render_scanline();
                    if self.stat & 0x08 == 0x08 {
                        interrupts.request_interrupt(Interrupt::Lcd);
                    }
                }
            },
            PpuMode::HBlank => {
                if self.counter >= 204 {
                    self.counter = self.counter - 204;
                    self.ly = self.ly.wrapping_add(1);
                    if self.ly == 144 {
                        interrupts.request_interrupt(Interrupt::VBlank);
                        self.set_current_mode(PpuMode::VBlank);
                        if self.stat & 0x10 == 0x10 {
                            interrupts.request_interrupt(Interrupt::Lcd);
                        }
                    } else {
                        self.set_current_mode(PpuMode::OamScan);
                    }
                }
            },
            PpuMode::VBlank => {
                if self.counter >= 456 {
                    self.counter = self.counter - 456;
                    self.ly = self.ly.wrapping_add(1);
                    if self.ly > 153 {
                        self.ly = 0;
                        self.wly = 0;
                        self.set_current_mode(PpuMode::OamScan);
                    }
                }
            },
        }
    }

    /// Reads a PPU register.
    pub fn read_register(&self, address: u16) -> (r: u8)
        requires
            0xFF40 <= address < 0xFF4C,
        ensures
            r == self.register_read(address),
    {
        if address == 0xFF40 {
            self.lcdc
        } else if address == 0xFF41 {
            self.stat
        } else if address == 0xFF42 {
            self.scy
        } else if address == 0xFF43 {
            self.scx
        } else if address == 0xFF44 {
            self.ly
        } else if address == 0xFF45 {
            self.lyc
        } else if address == 0xFF46 {
            self.dma
        } else if address == 0xFF47 {
            self.bgp
        } else if address == 0xFF48 {
            self.obp0
        } else if address == 0xFF49 {
            self.obp1
        } else if address == 0xFF4A {
            self.wy
        } else {
            self.wx
        }
    }

    /// Writes a PPU register. LY ignores writes; switching the LCD off resets
    /// LY, the window line and the coincidence flag; STAT keeps its mode bits;
    /// the DMA register starts a transfer, or a restart while one exists.
    pub fn write_register(&mut self, address: u16, value: u8)
        requires
            old(self).wf(),
            0xFF40 <= address < 0xFF4C,
        ensures
            final(self).wf(),
            *final(self) == old(self).register_written(address, value),
    {
        proof {
            lemma_stat_bits(self.stat, 0);
        }
        if address == 0xFF40 {
            if self.lcdc & 0x80 == 0x80 && value & 0x80 != 0x80 {
                self.ly = 0;
                self.wly = 0;
                self.stat = self.stat & !0x04u8;
            }
            self.lcdc = value;
        } else if address == 0xFF41 {
            let mode = self.stat & 0x03;
            let s = self.stat;
            assert(((value & 0x7C) | (s & 0x03)) & 0x03 == s & 0x03) by (bit_vector);
            self.stat = (value & 0x7C) | mode;
        } else if address == 0xFF42 {
            self.scy = value;
        } else if address == 0xFF43 {
            self.scx = value;
        } else if address == 0xFF44 {
        } else if address == 0xFF45 {
            self.lyc = value;
        } else if address == 0xFF46 {
            self.dma = value;
            if self.dma_transfer.is_some() {
                self.restarted_dma_transfer = Some(RestartedDmaTransfer::new(self.dma));
            } else {
                self.dma_transfer = Some(DmaTransfer::new(self.dma));
            }
        } else if address == 0xFF47 {
            self.bgp = value;
        } else if address == 0xFF48 {
            self.obp0 = value;
        } else if address == 0xFF49 {
            self.obp1 = value;
        } else if address == 0xFF4A {
            self.wy = value;
        } else {
            self.wx = value;
        }
    }

    /// Reads video RAM by bus address.
    pub fn read_ram(&self, address: u16) -> (r: u8)
        requires
            self.wf(),
            0x8000 <= address < 0xA000,
        ensures
            r == self.vram(address as int),
    {
        self.memory[(address - 0x8000) as usize]
    }

    /// Writes video RAM by bus address.
    pub fn write_ram(&mut self, address: u16, value: u8)
        requires
            old(self).wf(),
            0x8000 <= address < 0xA000,
        ensures
            final(self).wf(),
            final(self).memory@ == old(self).memory@.update(address - 0x8000, value),
            *final(self) == (Ppu { memory: final(self).memory, ..*old(self) }),
    {
        self.memory.set((address - 0x8000) as usize, value);
    }

    /// Reads OAM by bus address.
    pub fn read_oam(&self, address: u16) -> (r: u8)
        requires
            self.wf(),
            0xFE00 <= address < 0xFEA0,
        ensures
            r == self.oam@[address - 0xFE00],
    {
        self.oam[(address - 0xFE00) as usize]
    }

    /// Writes OAM by bus address.
    pub fn write_oam(&mut self, address: u16, value: u8)
        requires
            old(self).wf(),
            0xFE00 <= address < 0xFEA0,
        ensures
            final(self).wf(),
            final(self).oam@ == old(self).oam@.update(address - 0xFE00, value),
            *final(self) == (Ppu { oam: final(self).oam, ..*old(self) }),
    {
        self.oam.set((address - 0xFE00) as usize, value);
    }

    /// Returns the current mode, from STAT's low two bits.
    pub fn current_mode(&self) -> (r: PpuMode)
        ensures
            r == self.mode(),
            r.bits() == self.stat & 0x03,
    {
        let bits = self.stat & 0x03;
        proof {
            lemma_stat_bits(self.stat, 0);
        }
        if bits == 0 {
            PpuMode::HBlank
        } else if bits == 1 {
            PpuMode::VBlank
        } else if bits == 2 {
            PpuMode::OamScan
        } else {
            PpuMode::PixelTransfer
        }
    }

    /// Whether the LCD is on.
    pub fn display_enabled(&self) -> (r: bool)
        ensures
            r == self.lcd_on(),
    {
        self.lcdc & 0x80 == 0x80
    }

    /// Whether the CPU may access OAM now.
    pub fn can_access_oam(&self) -> (r: bool)
        ensures
            r == self.oam_accessible(),
    {
        let mode = self.current_mode();
        !self.display_enabled() || !(mode == PpuMode::OamScan || mode == PpuMode::PixelTransfer)
    }

    /// Whether a DMA transfer exists, requested or copying.
    pub fn dma_transfer_exists(&self) -> (r: bool)
        ensures
            r == self.dma_transfer is Some,
    {
        self.dma_transfer.is_some()
    }

    /// Whether a DMA transfer is copying bytes.
    pub fn dma_transfer_running(&self) -> (r: bool)
        ensures
            r == self.dma_running(),
    {
        match self.dma_transfer {
            Some(t) => match t.progress {
                DmaTransferProgress::Transferring { .. } => true,
                DmaTransferProgress::Requested { .. } => false,
            },
            None => false,
        }
    }

    /// Whether the CPU may access video RAM now.
    pub fn can_access_vram(&self) -> (r: bool)
        ensures
            r == self.vram_accessible(),
    {
        !self.display_enabled() || self.current_mode() != PpuMode::PixelTransfer
    }

    /// The frame: 144 rows of 160 color indices.
    pub fn buffer(&self) -> (r: &Vec<u8>)
        ensures
            r == &self.buffer,
    {
        &self.buffer
    }

    /// Sets the mode bits of STAT; bit 7 is cleared.
    pub fn set_current_mode(&mut self, mode: PpuMode)
        ensures
            final(self).stat == with_mode(old(self).stat, mode.bits()),
            *final(self) == (Ppu { stat: final(self).stat, ..*old(self) }),
    {
        self.stat = (self.stat & 0x7C) | mode.to_bits();
    }

    /// Fetches the color of a background or window tile at a row and column.
    pub fn get_tile_pixel(&self, tile_index: u8, row: u8, x: u8) -> (r: u8)
        requires
            self.wf(),
            row < 8,
        ensures
            r == self.tile_color(tile_index, row, x),
            r < 4,
    {
        let (base, idx): (usize, usize) = if self.lcdc & 0x10 == 0x10 {
            (0x0000, tile_index as usize)
        } else if tile_index < 128 {
            (0x1000, tile_index as usize)
        } else {
            (0x0800, (tile_index - 128) as usize)
        };
        let offset = base + idx * 16 + row as usize * 2;
        let lower = self.memory[offset];
        let upper = self.memory[offset + 1];
        let bit: u8 = 7 - (x % 8);
        let r = (((upper >> bit) & 1) << 1u8) | ((lower >> bit) & 1);
        assert(r < 4) by (bit_vector)
            requires
                r == (((upper >> bit) & 1) << 1u8) | ((lower >> bit) & 1),
        ;
        r
    }

    /// Draws the background of the current line.
    #[verifier::loop_isolation(false)]
    pub fn render_background(&self, scanline: &mut [u8; 160])
        requires
            self.wf(),
        ensures
            final(scanline)@ == Seq::new(160, |x: int| self.background_pixel(x)),
    {
        let bg_tile_map: usize = if self.lcdc & 0x08 == 0x08 {
            0x1C00
        } else {
            0x1800
        };
        let y: usize = self.ly as usize + self.scy as usize;
        let tile_row: usize = (y / 8) % 32 * 32;
        let mut x: usize = 0;
        while x < 160
            invariant
                x <= 160,
                forall|j: int| 0 <= j < x ==> scanline@[j] == self.background_pixel(j),
            decreases 160 - x,
        {
            let x_pos = x + self.scx as usize;
            let tile_col = (x_pos / 8) % 32;
            let tile_index = self.memory[bg_tile_map + tile_row + tile_col];
            let raw_pixel = self.get_tile_pixel(tile_index, (y % 8) as u8, (x_pos % 8) as u8);
            scanline[x] = (self.bgp >> (raw_pixel * 2)) & 0x03;
            x = x + 1;
        }
        assert(scanline@ =~= Seq::new(160, |x: int| self.background_pixel(x)));
    }

    /// Draws the window over the current line, from its left column on,
    /// advancing the window line counter when it is drawn; returns whether it was.
    #[verifier::loop_isolation(false)]
    pub fn render_window(&mut self, scanline: &mut [u8; 160]) -> (drawn: bool)
        requires
            old(self).wf(),
        ensures
            final(self).wf(),
            drawn == (old(self).ly >= old(self).wy && old(self).window_left() < 160),
            drawn ==> final(scanline)@ == Seq::new(
                160,
                |x: int|
                    if x >= old(self).window_left() {
                        old(self).window_pixel(x)
                    } else {
                        old(scanline)@[x]
                    },
            ),
            drawn ==> *final(self) == (Ppu { wly: ((old(self).wly + 1) % 256) as u8, ..*old(self) }),
            !drawn ==> final(scanline)@ == old(scanline)@ && *final(self) == *old(self),
    {
        if self.ly < self.wy {
            return false;
        }
        let window_x: u8 = self.wx.saturating_sub(7);
        if window_x >= 160 {
            return false;
        }
        let window_tile_map: usize = if self.lcdc & 0x40 == 0x40 {
            0x1C00
        } else {
            0x1800
        };
        let window_y = self.wly as usize;
        let tile_row = (window_y / 8) * 32;
        let ghost before = scanline@;
        let mut x: u8 = window_x;
        while x < 160
            invariant
                window_x <= x <= 160,
                forall|j: int| 0 <= j < 160 ==> scanline@[j] == if window_x <= j < x {
                    self.window_pixel(j)
                } else {
                    before[j]
                },
            decreases 160 - x,
        {
            let wxp = (x - window_x) as usize;
            let tile_col = wxp / 8;
            let tile_index = self.memory[window_tile_map + tile_row + tile_col];
            let raw_pixel = self.get_tile_pixel(tile_index, (window_y % 8) as u8, (wxp % 8) as u8);
            scanline[x as usize] = (self.bgp >> (raw_pixel * 2)) & 0x03;
            x = x + 1;
        }
        assert(scanline@ =~= Seq::new(
            160,
            |j: int|
                if j >= self.window_left() {
                    self.window_pixel(j)
                } else {
                    before[j]
                },
        ));
        self.wly = self.wly.wrapping_add(1);
        true
    }

    /// Draws the current line into the frame, when the LCD is on.
    #[verifier::loop_isolation(false)]
    pub fn render_scanline(&mut self)
        requires
            old(self).wf(),
            old(self).ly < 144,
        ensures
            final(self).wf(),
            final(self).rendered_from(&*old(self)),
    {
        if self.lcdc & 0x80 != 0x80 {
            return;
        }
        let mut scanline = [0u8; 160];
        if self.lcdc & 0x01 == 0x01 {
            self.render_background(&mut scanline);
        }
        let ghost p0 = *self;
        if self.lcdc & 0x20 == 0x20 {
            self.render_window(&mut scanline);
        }
        assert(scanline@ =~= p0.line_without_sprites());
        let ghost line = scanline@;
        if self.lcdc & 0x02 == 0x02 {
            self.render_sprites(&mut scanline);
            proof {
                let ks = choose|ks: Seq<u64>| sprite_order(self, ks) && scanline@ == draw_all(self, line, ks);
                lemma_selected_ignore_wly(&p0, self, 40);
                lemma_draw_ignore_wly(&p0, self, line, ks);
                assert(sprite_order(&p0, ks) && scanline@ == draw_all(&p0, line, ks));
            }
        }
        let row: usize = self.ly as usize * 160;
        assert(row + 160 <= 160 * 144) by (nonlinear_arith)
            requires
                row == self.ly * 160,
                self.ly < 144,
        ;
        let ghost old_buffer = self.buffer@;
        let ghost before = *self;
        let mut j: usize = 0;
        while j < 160
            invariant
                j <= 160,
                *self == (Ppu { buffer: self.buffer, ..before }),
                self.buffer@.len() == old_buffer.len(),
                forall|k: int| 0 <= k < old_buffer.len() ==> self.buffer@[k] == if row <= k < row + j {
                    scanline@[k - row]
                } else {
                    old_buffer[k]
                },
            decreases 160 - j,
        {
            self.buffer.set(row + j, scanline[j]);
            j = j + 1;
        }
        assert(self.buffer@.subrange(row as int, row + 160) =~= scanline@);
    }
}

/// Writes to LY are ignored; switching the LCD on and then off leaves LY at 0.
pub proof fn lemma_ly_register(p: Ppu, v: u8, on: u8, off: u8)
    requires
        on & 0x80 == 0x80,
        off & 0x80 != 0x80,
    ensures
        p.register_written(0xFF44, v) == p,
        p.register_written(0xFF40, on).register_written(0xFF40, off).ly == 0,
{
}

} // verus!
