use gameboy::apu::noise_channel::NoiseChannel;
use gameboy::apu::pulse_channel::PulseChannel;
use gameboy::apu::pulse_sweep_channel::PulseSweepChannel;
use gameboy::apu::wave_channel::WaveChannel;
use gameboy::apu::{Apu, MixedSample, mix_channels};
use gameboy::cartridge_header::{CartridgeHeader, CartridgeType, GameBoyError, Licensee};
use gameboy::cpu::alu::{Flags, alu, daa, dec8, flags_of_byte, flags_to_byte, inc8, shift};
use gameboy::cpu::{ConditionalFlag, Cpu, CpuState, Flag};
use gameboy::emulator::Emulator;
use gameboy::hardware::Hardware;
use gameboy::ppu::DmaTransfer;

const NO_FLAGS: Flags = Flags { z: false, n: false, h: false, c: false };

fn program(code: &[u8]) -> Vec<u8> {
    let mut rom = vec![0u8; 0x8000];
    rom[0x100..0x100 + code.len()].copy_from_slice(code);
    rom
}

fn run_ticks(emu: &mut Emulator, ticks: usize) {
    for _ in 0..ticks {
        emu.step_tick();
    }
}

#[test]
fn daa_after_bcd_add() {
    let added = alu(0, 0x19, 0x28, NO_FLAGS);
    assert_eq!(added.value, 0x41);
    assert!(added.flags.h);
    assert!(!added.flags.n && !added.flags.c && !added.flags.z);
    let adjusted = daa(added.value, added.flags);
    assert_eq!(adjusted.value, 0x47);
    assert_eq!(adjusted.flags, NO_FLAGS);
}

#[test]
fn daa_after_bcd_add_on_the_cpu() {
    // ADD A, 0x28; DAA
    let mut emu = Emulator::new(Cpu::with_register_defaults(), Hardware::new(program(&[0xC6, 0x28, 0x27])));
    emu.cpu.registers.a = 0x19;
    emu.cpu.flags = NO_FLAGS;
    run_ticks(&mut emu, 3 + 4 * 2);
    assert_eq!(emu.cpu.registers.a, 0x41);
    assert!(emu.cpu.is_flag_set(Flag::H));
    run_ticks(&mut emu, 4);
    assert_eq!(emu.cpu.registers.a, 0x47);
    assert_eq!(emu.cpu.flags, NO_FLAGS);
}

#[test]
fn daa_then_compare_zero() {
    let d = daa(0x9A, NO_FLAGS);
    assert_eq!(d.value, 0x00);
    assert!(d.flags.c);
    assert!(alu(7, d.value, 0, d.flags).flags.z);
    let e = daa(0x00, Flags { z: false, n: true, h: false, c: false });
    assert!(alu(7, e.value, 0, e.flags).flags.z);
    let f = daa(0x15, NO_FLAGS);
    assert!(!alu(7, f.value, 0, f.flags).flags.z);
}

#[test]
fn alu_flag_rules() {
    let sub = alu(2, 0x10, 0x01, NO_FLAGS);
    assert_eq!(sub.value, 0x0F);
    assert!(sub.flags.n && sub.flags.h && !sub.flags.c);
    let sbc = alu(3, 0x00, 0x00, Flags { c: true, ..NO_FLAGS });
    assert_eq!(sbc.value, 0xFF);
    assert!(sbc.flags.c && sbc.flags.h);
    let adc = alu(1, 0xFF, 0x00, Flags { c: true, ..NO_FLAGS });
    assert_eq!(adc.value, 0x00);
    assert!(adc.flags.z && adc.flags.c && adc.flags.h);
    let cp = alu(7, 0x42, 0x42, NO_FLAGS);
    assert_eq!(cp.value, 0x42);
    assert!(cp.flags.z);
    assert_eq!(alu(4, 0xF0, 0x3C, NO_FLAGS).value, 0x30);
    assert!(alu(4, 0xF0, 0x3C, NO_FLAGS).flags.h);
    assert_eq!(alu(5, 0xFF, 0xFF, NO_FLAGS).value, 0);
    assert_eq!(alu(6, 0x0F, 0xF0, NO_FLAGS).value, 0xFF);
    let inc = inc8(0x0F, Flags { c: true, ..NO_FLAGS });
    assert_eq!(inc.value, 0x10);
    assert!(inc.flags.h && inc.flags.c);
    let dec = dec8(0x00, NO_FLAGS);
    assert_eq!(dec.value, 0xFF);
    assert!(dec.flags.h && dec.flags.n);
}

#[test]
fn shift_operations() {
    assert_eq!(shift(0, 0x85, NO_FLAGS).value, 0x0B);
    assert!(shift(0, 0x85, NO_FLAGS).flags.c);
    assert_eq!(shift(1, 0x01, NO_FLAGS).value, 0x80);
    assert_eq!(shift(2, 0x80, Flags { c: true, ..NO_FLAGS }).value, 0x01);
    assert_eq!(shift(3, 0x01, NO_FLAGS).value, 0x00);
    assert!(shift(3, 0x01, NO_FLAGS).flags.z);
    assert_eq!(shift(4, 0xC0, NO_FLAGS).value, 0x80);
    assert_eq!(shift(5, 0x81, NO_FLAGS).value, 0xC0);
    assert_eq!(shift(6, 0xA5, NO_FLAGS).value, 0x5A);
    assert_eq!(shift(7, 0x81, NO_FLAGS).value, 0x40);
}

#[test]
fn pop_af_masks_low_nibble() {
    let mut cpu = Cpu::new();
    cpu.write_register_pair(3, 0x12FF, true);
    assert_eq!(cpu.read_register_pair(3, true), 0x12F0);
    assert_eq!(flags_to_byte(cpu.flags), 0xF0);
    assert_eq!(flags_of_byte(0x9F), Flags { z: true, n: false, h: false, c: true });
    cpu.write_register_pair(3, 0xBEEF, false);
    assert_eq!(cpu.registers.sp, 0xBEEF);
}

#[test]
fn push_then_pop_restores_pairs() {
    // PUSH BC; PUSH AF; LD BC, 0; POP AF; POP BC
    let code = [0xC5, 0xF5, 0x01, 0x00, 0x00, 0xF1, 0xC1];
    let mut emu = Emulator::new(Cpu::with_register_defaults(), Hardware::new(program(&code)));
    run_ticks(&mut emu, 3 + 4 * (4 + 4 + 3 + 3 + 3));
    assert_eq!(emu.cpu.read_register_pair(0, false), 0x0013);
    assert_eq!(emu.cpu.read_register_pair(3, true), 0x01B0);
    assert_eq!(emu.cpu.registers.sp, 0xFFFE);
}

#[test]
fn dma_bus_steal_fetch() {
    let mut hw = Hardware::new(program(&[]));
    for i in 0..0x100usize {
        hw.ppu.memory[i] = i as u8;
    }
    hw.write_byte(0xC000, 0x00);
    hw.ppu.dma_transfer = Some(DmaTransfer::starting_with_ticks(0x80, 40));
    let mut cpu = Cpu::new();
    cpu.registers.pc = 0xC000;
    cpu.complete_cycle(&hw);
    assert_eq!(cpu.registers.ir, 10);
    assert_eq!(cpu.registers.pc, 0xC001);
    // High RAM fetches are not stolen.
    hw.write_byte(0xFF80, 0x3C);
    cpu.registers.pc = 0xFF80;
    assert_eq!(cpu.fetch_byte(&hw), 0x3C);
}

#[test]
fn halt_bug_repeats_next_fetch() {
    // HALT with IME clear and a pending interrupt: PC does not advance once.
    let mut emu = Emulator::new(Cpu::with_register_defaults(), Hardware::new(program(&[0x76, 0x3C])));
    emu.hardware.write_byte(0xFFFF, 0x01);
    emu.hardware.write_byte(0xFF0F, 0x01);
    run_ticks(&mut emu, 3 + 4);
    assert_eq!(emu.cpu.state, CpuState::Running);
    assert_eq!(emu.cpu.registers.pc, 0x101);
    run_ticks(&mut emu, 4);
    assert_eq!(emu.cpu.registers.a, 0x02);
    run_ticks(&mut emu, 4);
    assert_eq!(emu.cpu.registers.a, 0x03);
}

#[test]
fn interrupt_dispatch_jumps_to_vector() {
    // EI; NOP; NOP with a pending timer interrupt.
    let mut emu = Emulator::new(Cpu::with_register_defaults(), Hardware::new(program(&[0xFB, 0x00, 0x00, 0x00])));
    emu.hardware.write_byte(0xFFFF, 0x04);
    emu.hardware.write_byte(0xFF0F, 0x04);
    run_ticks(&mut emu, 3 + 4 * 8);
    assert_eq!(emu.hardware.interrupts.requested & 0x04, 0);
    assert!(!emu.cpu.interrupt_master_enabled);
    assert!(emu.cpu.registers.pc >= 0x50 && emu.cpu.registers.pc <= 0x52);
}

#[test]
fn dispatch_cancelled_when_stack_write_clears_the_request() {
    let mut hw = Hardware::new(program(&[]));
    hw.write_byte(0xFFFF, 0x04);
    hw.write_byte(0xFF0F, 0x04);
    let mut cpu = Cpu::new();
    cpu.state = CpuState::HandlingInterrupts;
    cpu.registers.pc = 0x0102;
    cpu.registers.sp = 0x0000;
    for _ in 0..4 {
        cpu.step_interrupts(&mut hw);
    }
    // The high byte of PC (0x01) landed in IE: only VBlank is enabled now.
    assert_eq!(hw.read_byte(0xFFFF), 0x01);
    assert_eq!(cpu.registers.pc, 0x0000);
    assert_eq!(hw.read_byte(0xFF0F) & 0x04, 0x04);
    assert!(!cpu.interrupt_master_enabled);
}

#[test]
fn conditional_flags() {
    let mut cpu = Cpu::new();
    cpu.toggle_flag(Flag::Z, true);
    assert!(cpu.is_conditional_flag_set(ConditionalFlag::Z));
    assert!(!cpu.is_conditional_flag_set(ConditionalFlag::NZ));
    assert!(cpu.is_conditional_flag_set(ConditionalFlag::NC));
    cpu.toggle_flag(Flag::C, true);
    assert!(cpu.is_conditional_flag_set(ConditionalFlag::C));
    assert_eq!(gameboy::cpu::conditional_flag(0x38), ConditionalFlag::C);
    assert_eq!(gameboy::cpu::conditional_flag(0xC2), ConditionalFlag::NZ);
}

#[test]
fn frame_is_70224_ticks() {
    let mut emu = Emulator::new(Cpu::with_register_defaults(), Hardware::new(program(&[0x18, 0xFE])));
    let start = emu.hardware.sys_clock.0;
    emu.step();
    assert_eq!(emu.hardware.sys_clock.0, start + 70224);
}

#[test]
fn wave_ram_round_trip_while_disabled() {
    let mut apu = Apu::new();
    apu.write_register(0xFF30, 0xAB);
    assert_eq!(apu.read_register(0xFF30), 0xAB);
    apu.channel3.enabled = true;
    assert_eq!(apu.read_register(0xFF30), 0xFF);
    let mut wave = WaveChannel::new();
    wave.write_wave_ram(0xFF3F, 0x12);
    assert_eq!(wave.read_wave_ram(0xFF3F), 0x12);
}

#[test]
fn apu_power_gates_writes() {
    let mut apu = Apu::new();
    apu.write_register(0xFF24, 0x77);
    assert_eq!(apu.read_register(0xFF24), 0);
    apu.write_register(0xFF26, 0x80);
    apu.write_register(0xFF24, 0x77);
    assert_eq!(apu.read_register(0xFF24), 0x77);
    assert_eq!(apu.read_register(0xFF26), 0xF0);
    apu.write_register(0xFF12, 0xF0);
    apu.write_register(0xFF14, 0x80);
    assert_eq!(apu.read_register(0xFF26), 0xF1);
    apu.write_register(0xFF26, 0x00);
    assert_eq!(apu.read_register(0xFF24), 0);
    assert_eq!(apu.read_register(0xFF26), 0x70);
    apu.write_register(0xFF11, 0x3F);
    assert_eq!(apu.channel1.length_timer, 1);
}

#[test]
fn apu_produces_mixed_samples() {
    let mut apu = Apu::new();
    apu.write_register(0xFF26, 0x80);
    apu.write_register(0xFF25, 0xFF);
    apu.write_register(0xFF24, 0x77);
    for _ in 0..95 {
        apu.step();
    }
    let samples = apu.take_samples();
    assert_eq!(samples, vec![MixedSample { left: 0, right: 0 }]);
    assert_eq!(mix_channels(0x70, 0x11, 15, 0, 0, 0), MixedSample { left: 120, right: 15 });
    assert_eq!(mix_channels(0x07, 0xF0, 1, 2, 3, 4), MixedSample { left: 10, right: 0 });
}

#[test]
fn pulse_channel_trigger_and_duty() {
    let mut ch = PulseChannel::new();
    ch.write_register(true, 0xFF16, 0xC0, 0);
    ch.write_register(true, 0xFF17, 0xF0, 0);
    ch.write_register(true, 0xFF18, 0xFF, 0);
    ch.write_register(true, 0xFF19, 0x87, 0);
    assert!(ch.enabled());
    assert_eq!(ch.frequency_timer, 4);
    assert_eq!(ch.get_sample(), 15);
    assert_eq!(ch.read_register(0xFF16), 0xFF);
    ch.write_register(true, 0xFF17, 0x00, 0);
    assert!(!ch.enabled());
}

#[test]
fn length_enable_on_odd_step_clocks_once() {
    let mut ch = PulseChannel::new();
    ch.write_register(true, 0xFF17, 0xF0, 1);
    ch.write_register(true, 0xFF16, 0x3F, 1);
    ch.write_register(true, 0xFF19, 0x80, 1);
    assert!(ch.enabled());
    assert_eq!(ch.length_timer, 1);
    ch.write_register(true, 0xFF19, 0x40, 1);
    assert_eq!(ch.length_timer, 0);
    assert!(!ch.enabled());
    let mut even = PulseChannel::new();
    even.write_register(true, 0xFF17, 0xF0, 0);
    even.write_register(true, 0xFF16, 0x3E, 0);
    even.write_register(true, 0xFF19, 0xC0, 0);
    assert_eq!(even.length_timer, 2);
    even.step_length_timer();
    even.step_length_timer();
    assert!(!even.enabled());
}

#[test]
fn sweep_overflow_disables_channel() {
    let mut ch = PulseSweepChannel::new();
    ch.write_register(true, 0xFF12, 0xF0, 0);
    ch.write_register(true, 0xFF13, 0xFF, 0);
    ch.write_register(true, 0xFF10, 0x11, 0);
    ch.write_register(true, 0xFF14, 0x87, 0);
    assert!(!ch.enabled());
    let mut ok = PulseSweepChannel::new();
    ok.write_register(true, 0xFF12, 0xF0, 0);
    ok.write_register(true, 0xFF13, 0x00, 0);
    ok.write_register(true, 0xFF10, 0x11, 0);
    ok.write_register(true, 0xFF14, 0x81, 0);
    assert!(ok.enabled());
    assert_eq!(ok.shadow_frequency, 0x100);
    ok.step_sweep();
    assert_eq!(ok.shadow_frequency, 0x180);
    assert_eq!(ok.read_register(0xFF10), 0x91);
}

#[test]
fn noise_lfsr_and_frequency() {
    let mut ch = NoiseChannel::new();
    ch.write_register(true, 0xFF21, 0xF0, 0);
    ch.write_register(true, 0xFF22, 0x21, 0);
    ch.write_register(true, 0xFF23, 0x80, 0);
    assert_eq!(ch.get_frequency(), 64);
    assert_eq!(ch.lsfr, 0x7FFF);
    ch.frequency_timer = 0;
    ch.step();
    assert_eq!(ch.lsfr, 0x3FFF);
    assert_eq!(ch.get_sample(), 0);
    ch.write_register(true, 0xFF22, 0x08, 0);
    ch.lsfr = 0x0001;
    ch.frequency_timer = 0;
    ch.step();
    assert_eq!(ch.lsfr, 0x4040);
}

#[test]
fn envelope_steps_volume() {
    let mut ch = NoiseChannel::new();
    ch.write_register(true, 0xFF21, 0x51, 0);
    ch.write_register(true, 0xFF23, 0x80, 0);
    assert_eq!(ch.volume, 5);
    ch.step_envelope();
    assert_eq!(ch.volume, 4);
    let mut up = PulseChannel::new();
    up.write_register(true, 0xFF17, 0xF9, 0);
    up.write_register(true, 0xFF19, 0x80, 0);
    up.step_envelope();
    assert_eq!(up.volume, 15);
}

fn valid_header() -> Vec<u8> {
    let mut rom = vec![0u8; 0x8000];
    let logo = gameboy::cartridge_header::logo_bytes();
    rom[0x104..0x134].copy_from_slice(&logo);
    rom[0x134..0x138].copy_from_slice(b"TEST");
    rom[0x147] = 0x01;
    rom[0x14B] = 0x33;
    rom[0x144] = b'0';
    rom[0x145] = b'1';
    fix_checksums(&mut rom);
    rom
}

fn fix_checksums(rom: &mut Vec<u8>) {
    let mut h: u8 = 0;
    for b in &rom[0x134..0x14D] {
        h = h.wrapping_sub(*b).wrapping_sub(1);
    }
    rom[0x14D] = h;
    let mut g: u16 = 0;
    for (i, b) in rom.iter().enumerate() {
        if i != 0x14E && i != 0x14F {
            g = g.wrapping_add(*b as u16);
        }
    }
    rom[0x14E] = (g >> 8) as u8;
    rom[0x14F] = g as u8;
}

#[test]
fn header_accepts_valid_image() {
    let rom = valid_header();
    let header = CartridgeHeader::new(&rom).unwrap();
    assert_eq!(header.title, b"TEST".to_vec());
    assert_eq!(header.cartridge_type, CartridgeType::RomMbc1);
    assert_eq!(header.licensee, Licensee::New(0x3031));
    assert!(!header.is_color);
}

#[test]
fn header_errors() {
    assert_eq!(CartridgeHeader::new(&vec![0u8; 0x100]).unwrap_err(), GameBoyError::InvalidHeader);
    let mut bad_global = valid_header();
    bad_global[0x14F] ^= 1;
    assert_eq!(CartridgeHeader::new(&bad_global).unwrap_err(), GameBoyError::InvalidChecksum);
    let mut bad_header = valid_header();
    bad_header[0x14D] ^= 1;
    let g = bad_header.clone();
    fix_global_only(&mut bad_header, &g);
    assert_eq!(CartridgeHeader::new(&bad_header).unwrap_err(), GameBoyError::InvalidComplementChecksum);
    let mut bad_logo = valid_header();
    bad_logo[0x110] ^= 0xFF;
    fix_checksums(&mut bad_logo);
    assert_eq!(CartridgeHeader::new(&bad_logo).unwrap_err(), GameBoyError::InvalidHeader);
    let mut bad_title = valid_header();
    bad_title[0x13A] = b'X';
    fix_checksums(&mut bad_title);
    assert_eq!(CartridgeHeader::new(&bad_title).unwrap_err(), GameBoyError::InvalidHeader);
    let mut bad_type = valid_header();
    bad_type[0x147] = 0x13;
    fix_checksums(&mut bad_type);
    assert_eq!(CartridgeHeader::new(&bad_type).unwrap_err(), GameBoyError::UnsupportedCartridgeType);
}

fn fix_global_only(rom: &mut Vec<u8>, source: &[u8]) {
    let mut g: u16 = 0;
    for (i, b) in source.iter().enumerate() {
        if i != 0x14E && i != 0x14F {
            g = g.wrapping_add(*b as u16);
        }
    }
    rom[0x14E] = (g >> 8) as u8;
    rom[0x14F] = g as u8;
}
