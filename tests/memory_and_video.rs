use gameboy::cartridge::{Cartridge, Mbc1, RomOnly};
use gameboy::hardware::Hardware;
use gameboy::interrupts::Interrupts;
use gameboy::joypad::{Button, ButtonAction, Joypad};
use gameboy::ppu::{DmaTransfer, DmaTransferProgress, Ppu, PpuMode};

fn rom_only_image() -> Vec<u8> {
    let mut rom = vec![0u8; 0x8000];
    for (i, b) in rom.iter_mut().enumerate() {
        *b = (i % 251) as u8;
    }
    rom[0x147] = 0;
    rom
}

#[test]
fn gated_vram_and_oam() {
    let mut hw = Hardware::new(rom_only_image());
    hw.write_byte(0x8000, 0x12);
    hw.write_byte(0xFE00, 0x34);
    assert_eq!(hw.read_byte(0x8000), 0x12);
    assert_eq!(hw.read_byte(0xFE00), 0x34);
    // LCD on, drawing: both gated.
    hw.ppu.lcdc = 0x80;
    hw.ppu.stat = 0x03;
    assert_eq!(hw.read_byte(0x8000), 0xFF);
    assert_eq!(hw.read_byte(0xFE00), 0xFF);
    hw.write_byte(0x8000, 0x99);
    hw.write_byte(0xFE00, 0x99);
    assert_eq!(hw.ppu.memory[0], 0x12);
    assert_eq!(hw.ppu.oam[0], 0x34);
    // OAM scan: VRAM open, OAM gated.
    hw.ppu.stat = 0x02;
    assert_eq!(hw.read_byte(0x8000), 0x12);
    assert_eq!(hw.read_byte(0xFE00), 0xFF);
    // HBlank with a running DMA: OAM gated by the transfer.
    hw.ppu.stat = 0x00;
    hw.ppu.dma_transfer = Some(DmaTransfer::starting(0xC0));
    assert_eq!(hw.read_byte(0xFE00), 0xFF);
    hw.ppu.dma_transfer = Some(DmaTransfer::new(0xC0));
    assert_eq!(hw.read_byte(0xFE00), 0x34);
}

#[test]
fn unused_region_reads_zero_and_echo_mirrors() {
    let mut hw = Hardware::new(rom_only_image());
    hw.write_byte(0xFEA5, 0x77);
    assert_eq!(hw.read_byte(0xFEA5), 0);
    assert_eq!(hw.read_byte(0xFEFF), 0);
    hw.write_byte(0xC123, 0x5A);
    assert_eq!(hw.read_byte(0xE123), 0x5A);
    hw.write_byte(0xE200, 0xA5);
    assert_eq!(hw.read_byte(0xC200), 0xA5);
    hw.write_byte(0xFF90, 0x42);
    assert_eq!(hw.read_byte(0xFF90), 0x42);
    assert_eq!(hw.read_byte(0xFF01), 0);
    assert_eq!(hw.read_byte(0xFF03), 0xFF);
    assert_eq!(hw.read_byte(0x0100), (0x100 % 251) as u8);
    assert_eq!(hw.read_byte(0xA000), 0xFF);
    hw.write_byte(0xFFFF, 0x1F);
    assert_eq!(hw.read_byte(0xFFFF), 0x1F);
    hw.write_byte(0xFF0F, 0xFF);
    assert_eq!(hw.read_byte(0xFF0F), 0xFF);
    assert!(hw.has_pending_interrupts());
}

#[test]
fn mbc1_bank_zero_selects_one() {
    let mut rom = vec![0u8; 0x4000 * 4];
    rom[0x4000] = 0x11;
    rom[0x8000] = 0x22;
    rom[0x147] = 1;
    let mut mbc = Mbc1::new(rom);
    assert_eq!(mbc.read_rom(0x4000), 0x11);
    mbc.write_rom(0x2000, 0x02);
    assert_eq!(mbc.read_rom(0x4000), 0x22);
    mbc.write_rom(0x2000, 0x00);
    assert_eq!(mbc.rom_bank & 0x1F, 1);
    assert_eq!(mbc.read_rom(0x4000), 0x11);
    mbc.write_rom(0x2000, 0x1F);
    assert_eq!(mbc.read_rom(0x4000), 0xFF);
}

#[test]
fn mbc1_ram_enable_and_banking() {
    let mut rom = vec![0u8; 0x8000];
    rom[0x147] = 3;
    let mut cart = Cartridge::Mbc1(Mbc1::new(rom));
    cart.write_ram(0xA000, 0x55);
    assert_eq!(cart.read_ram(0xA000), 0xFF);
    cart.write_rom(0x0000, 0x0A);
    cart.write_ram(0xA000, 0x55);
    assert_eq!(cart.read_ram(0xA000), 0x55);
    cart.write_rom(0x6000, 0x00);
    cart.write_rom(0x4000, 0x01);
    assert_eq!(cart.read_ram(0xA000), 0x00);
    cart.write_rom(0x4000, 0x00);
    assert_eq!(cart.read_ram(0xA000), 0x55);
    cart.write_rom(0x0000, 0x00);
    assert_eq!(cart.read_ram(0xA000), 0xFF);
    let rom_only = Cartridge::RomOnly(RomOnly::new(vec![7u8; 0x8000]));
    assert_eq!(rom_only.read_rom(0x7FFF), 7);
    assert_eq!(rom_only.read_ram(0xA000), 0xFF);
}

#[test]
fn ly_register_ignores_writes_and_lcd_off_resets() {
    let mut ppu = Ppu::new();
    ppu.write_register(0xFF40, 0x80);
    ppu.ly = 42;
    ppu.write_register(0xFF44, 7);
    assert_eq!(ppu.read_register(0xFF44), 42);
    ppu.write_register(0xFF40, 0x00);
    assert_eq!(ppu.read_register(0xFF44), 0);
    ppu.write_register(0xFF41, 0xFF);
    assert_eq!(ppu.read_register(0xFF41), 0x7C | 0x02);
    assert_eq!(ppu.current_mode(), PpuMode::OamScan);
}

#[test]
fn ppu_mode_timing_and_vblank_interrupt() {
    let mut ppu = Ppu::new();
    let mut ints = Interrupts::new();
    ppu.write_register(0xFF40, 0x80);
    ppu.lyc = 200;
    for _ in 0..80 {
        ppu.step(&mut ints);
    }
    assert_eq!(ppu.current_mode(), PpuMode::PixelTransfer);
    for _ in 0..172 {
        ppu.step(&mut ints);
    }
    assert_eq!(ppu.current_mode(), PpuMode::HBlank);
    for _ in 0..204 {
        ppu.step(&mut ints);
    }
    assert_eq!(ppu.ly, 1);
    assert_eq!(ppu.current_mode(), PpuMode::OamScan);
    for _ in 0..(143 * 456) {
        ppu.step(&mut ints);
    }
    assert_eq!(ppu.ly, 144);
    assert_eq!(ppu.current_mode(), PpuMode::VBlank);
    assert_eq!(ints.requested & 0x01, 0x01);
    for _ in 0..(10 * 456) {
        ppu.step(&mut ints);
    }
    assert_eq!(ppu.ly, 0);
    assert_eq!(ppu.current_mode(), PpuMode::OamScan);
}

#[test]
fn coincidence_raises_stat_interrupt_once() {
    let mut ppu = Ppu::new();
    let mut ints = Interrupts::new();
    ppu.write_register(0xFF41, 0x40);
    ppu.lyc = 0;
    ppu.step(&mut ints);
    assert_eq!(ints.requested & 0x02, 0x02);
    assert_eq!(ppu.stat & 0x04, 0x04);
    ints.set_requested(0);
    ppu.step(&mut ints);
    assert_eq!(ints.requested & 0x02, 0);
}

fn sprite_ppu() -> Ppu {
    let mut ppu = Ppu::new();
    ppu.lcdc = 0x80 | 0x02;
    ppu.ly = 40;
    // Tile 0, row 0: color 1 in every column.
    ppu.memory[0] = 0xFF;
    ppu.memory[1] = 0x00;
    ppu.obp0 = 0b0000_0100;
    ppu.obp1 = 0b0000_1100;
    ppu
}

#[test]
fn sprite_priority_equal_x_lower_index_on_top() {
    let mut ppu = sprite_ppu();
    // Entry 0 with OBP0, entry 1 with OBP1, both at X = 20 on line 40.
    ppu.oam[0..4].copy_from_slice(&[56, 20, 0, 0x00]);
    ppu.oam[4..8].copy_from_slice(&[56, 20, 0, 0x10]);
    let mut line = [0u8; 160];
    ppu.render_sprites(&mut line);
    for x in 12..20 {
        assert_eq!(line[x], 1);
    }
    assert_eq!(line[11], 0);
    assert_eq!(line[20], 0);
}

#[test]
fn sprite_priority_smaller_x_on_top() {
    let mut ppu = sprite_ppu();
    ppu.oam[0..4].copy_from_slice(&[56, 24, 0, 0x00]);
    ppu.oam[4..8].copy_from_slice(&[56, 20, 0, 0x10]);
    let mut line = [0u8; 160];
    ppu.render_sprites(&mut line);
    for x in 12..20 {
        assert_eq!(line[x], 3);
    }
    for x in 20..24 {
        assert_eq!(line[x], 1);
    }
}

#[test]
fn sprite_limit_and_hidden_rows() {
    let mut ppu = sprite_ppu();
    // Raw Y of 0 takes no slot; then eleven visible sprites: the eleventh is dropped.
    ppu.oam[0..4].copy_from_slice(&[0, 8, 0, 0]);
    for i in 1..12usize {
        let x = (8 + 8 * i) as u8;
        ppu.oam[4 * i..4 * i + 4].copy_from_slice(&[56, x, 0, 0]);
    }
    let mut line = [0u8; 160];
    ppu.render_sprites(&mut line);
    assert_eq!(line[0], 0);
    assert_eq!(line[8], 1);
    assert_eq!(line[8 * 10], 1);
    assert_eq!(line[8 * 11], 0);
}

#[test]
fn background_rendering_through_a_frame() {
    let mut ppu = Ppu::new();
    let mut ints = Interrupts::new();
    // Tile 1 row data: color 3 everywhere; map entry (0, 0) uses tile 1.
    for row in 0..8 {
        ppu.memory[16 + 2 * row] = 0xFF;
        ppu.memory[16 + 2 * row + 1] = 0xFF;
    }
    ppu.memory[0x1800] = 1;
    ppu.bgp = 0b1110_0100;
    ppu.write_register(0xFF40, 0x80 | 0x10 | 0x01);
    for _ in 0..(80 + 172) {
        ppu.step(&mut ints);
    }
    let buffer = ppu.buffer();
    assert_eq!(buffer[0], 3);
    assert_eq!(buffer[7], 3);
    assert_eq!(buffer[8], 0);
}

#[test]
fn window_rendering_and_line_counter() {
    let mut ppu = Ppu::new();
    for row in 0..8 {
        ppu.memory[2 * row] = 0xFF;
    }
    ppu.bgp = 0b1110_0100;
    ppu.lcdc = 0x80 | 0x10 | 0x20;
    ppu.wx = 7 + 100;
    ppu.wy = 0;
    let mut line = [0u8; 160];
    assert!(ppu.render_window(&mut line));
    assert_eq!(ppu.wly, 1);
    assert_eq!(line[99], 0);
    assert_eq!(line[100], 1);
    assert_eq!(line[159], 1);
    ppu.wly = 0;
    ppu.render_scanline();
    assert_eq!(ppu.wly, 1);
    ppu.wy = 10;
    let mut untouched = [7u8; 160];
    assert!(!ppu.render_window(&mut untouched));
    assert_eq!(untouched, [7u8; 160]);
    assert_eq!(ppu.wly, 1);
    assert_eq!(ppu.buffer()[100], 1);
}

#[test]
fn tile_pixel_addressing_modes() {
    let mut ppu = Ppu::new();
    ppu.memory[0x1000] = 0x80;
    ppu.memory[0x0800] = 0x00;
    ppu.memory[0x0801] = 0x80;
    ppu.lcdc = 0x00;
    assert_eq!(ppu.get_tile_pixel(0, 0, 0), 1);
    assert_eq!(ppu.get_tile_pixel(128, 0, 0), 2);
    ppu.lcdc = 0x10;
    assert_eq!(ppu.get_tile_pixel(0, 0, 0), 0);
    assert_eq!(ppu.get_sprite_pixel(128, 0, 7, true), 2);
}

#[test]
fn dma_copies_after_delay() {
    let mut hw = Hardware::new(rom_only_image());
    for i in 0..160u16 {
        hw.write_byte(0xC000 + i, i as u8 ^ 0x5A);
    }
    hw.write_byte(0xFF46, 0xC0);
    assert!(hw.ppu.dma_transfer_exists());
    for _ in 0..4 {
        hw.step_dma_transfer();
    }
    assert!(hw.ppu.dma_transfer_running());
    for _ in 0..640 {
        hw.step_dma_transfer();
    }
    assert_eq!(hw.ppu.oam[0], 0x5A);
    assert_eq!(hw.ppu.oam[159], 159u8 ^ 0x5A);
    hw.step_dma_transfer();
    assert!(!hw.ppu.dma_transfer_exists());
}

#[test]
fn dma_restart_replaces_transfer() {
    let mut hw = Hardware::new(rom_only_image());
    hw.write_byte(0xFF46, 0xC0);
    for _ in 0..10 {
        hw.step_dma_transfer();
    }
    hw.write_byte(0xFF46, 0xC1);
    assert!(hw.ppu.restarted_dma_transfer.is_some());
    for _ in 0..4 {
        hw.step_dma_transfer();
    }
    assert!(hw.ppu.restarted_dma_transfer.is_none());
    assert_eq!(
        hw.ppu.dma_transfer,
        Some(DmaTransfer { source: 0xC1, progress: DmaTransferProgress::Transferring { ticks: 0 } })
    );
}

#[test]
fn joypad_interrupt_on_falling_edge() {
    let mut pad = Joypad::new();
    let mut ints = Interrupts::new();
    pad.write_register(0x20);
    assert_eq!(pad.read_register(), 0xC0 | 0x20 | 0x0F);
    pad.update_button_state(&mut ints, Button::Up, ButtonAction::Pressed);
    assert_eq!(ints.requested & 0x10, 0x10);
    assert_eq!(pad.read_register() & 0x0F, 0x0B);
    ints.set_requested(0);
    pad.update_button_state(&mut ints, Button::Up, ButtonAction::Pressed);
    assert_eq!(ints.requested & 0x10, 0);
    // An action button is not in the selected group.
    pad.update_button_state(&mut ints, Button::A, ButtonAction::Pressed);
    assert_eq!(ints.requested & 0x10, 0);
    pad.update_button_state(&mut ints, Button::Up, ButtonAction::Released);
    assert_eq!(pad.read_register() & 0x0F, 0x0F);
    pad.write_register(0x00);
    assert_eq!(pad.read_register() & 0x0F, 0x0E);
    assert_eq!(Button::Down.bit_mask(), 0x80);
}

#[test]
fn hardware_button_update_requests_interrupt() {
    let mut hw = Hardware::new(rom_only_image());
    hw.write_byte(0xFF00, 0x10);
    hw.update_button(Button::Start, ButtonAction::Pressed);
    assert_eq!(hw.read_byte(0xFF0F) & 0x10, 0x10);
    assert_eq!(hw.read_byte(0xFF00) & 0x0F, 0x07);
}
