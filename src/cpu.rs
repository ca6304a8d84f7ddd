use vstd::prelude::*;
use crate::cpu::alu::{Flags, flags_byte};
use crate::hardware::Hardware;
use crate::interrupts::{Interrupt, Interrupts, bit_set, first_interrupt, lemma_first_interrupt};
use crate::hardware::interrupts_after_write;
use crate::ppu::DmaTransferProgress;
use crate::registers::Registers;

pub mod alu;
pub mod exec;
pub mod blocks;
pub mod control;

verus! {

/// What the CPU is doing.
#[derive(Debug, Clone, Copy, PartialEq, Eq, Structural)]
pub enum CpuState {
    Running,
    Halted,
    Stopped,
    HandlingInterrupts,
}

/// The M-cycle within the current instruction or interrupt dispatch.
#[derive(Debug, Clone, Copy, PartialEq, Eq, Structural)]
pub enum CpuCycle {
    M1,
    M2,
    M3,
    M4,
    M5,
    M6,
}

/// One of the four CPU flags.
#[derive(Debug, Clone, Copy, PartialEq, Eq, Structural)]
pub enum Flag {
    Z,
    N,
    H,
    C,
}

/// A branch condition.
#[derive(Debug, Clone, Copy, PartialEq, Eq, Structural)]
pub enum ConditionalFlag {
    Z,
    C,
    NZ,
    NC,
}

/// The condition encoded in opcode bits 3 and 4: NZ, Z, NC, C.
pub open spec fn condition_of_bits(cc: u8) -> ConditionalFlag {
    if cc % 4 == 0 {
        ConditionalFlag::NZ
    } else if cc % 4 == 1 {
        ConditionalFlag::Z
    } else if cc % 4 == 2 {
        ConditionalFlag::NC
    } else {
        ConditionalFlag::C
    }
}

/// Whether a branch condition holds under the flags.
pub open spec fn condition_holds(f: Flags, cc: ConditionalFlag) -> bool {
    match cc {
        ConditionalFlag::NZ => !f.z,
        ConditionalFlag::Z => f.z,
        ConditionalFlag::NC => !f.c,
        ConditionalFlag::C => f.c,
    }
}

/// The flag's value.
pub open spec fn flag_value(f: Flags, flag: Flag) -> bool {
    match flag {
        Flag::Z => f.z,
        Flag::N => f.n,
        Flag::H => f.h,
        Flag::C => f.c,
    }
}

/// Decodes the branch condition of an opcode from its bits 3 and 4.
pub fn conditional_flag(opcode: u8) -> (r: ConditionalFlag)
    ensures
        r == condition_of_bits(opcode / 8),
{
    let cc = (opcode / 8) % 4;
    if cc == 0 {
        ConditionalFlag::NZ
    } else if cc == 1 {
        ConditionalFlag::Z
    } else if cc == 2 {
        ConditionalFlag::NC
    } else {
        ConditionalFlag::C
    }
}

/// The 16-bit value of a high and a low byte.
pub open spec fn word(hi: u8, lo: u8) -> u16 {
    (hi * 256 + lo) as u16
}

/// The address jumped to for a served interrupt, or 0x0000 when none is left.
pub open spec fn dispatch_vector(i: Option<Interrupt>) -> u16 {
    match i {
        Some(i) => (0x40 + 8 * i.index()) as u16,
        None => 0,
    }
}

/// The bus address a fetch reads: while DMA copies, fetches below high RAM
/// see the byte being copied.
pub open spec fn fetch_address(hw: &Hardware, pc: u16) -> u16 {
    match hw.ppu.dma_transfer {
        Some(t) => match t.progress {
            DmaTransferProgress::Transferring { ticks } => if pc < 0xFF80 {
                (t.source * 256 + if ticks / 4 < 160 { ticks / 4 } else { 159 }) as u16
            } else {
                pc
            },
            DmaTransferProgress::Requested { .. } => pc,
        },
        None => pc,
    }
}

/// The CPU.
#[derive(Debug)]
pub struct Cpu {
    pub flags: Flags,
    pub registers: Registers,
    pub state: CpuState,
    /// Set by a HALT with interrupts disabled and pending: the next fetch does not advance PC.
    pub halt_bug: bool,
    /// The master interrupt enable.
    pub interrupt_master_enabled: bool,
    /// T-cycles elapsed.
    pub t_cycles: usize,
    pub cycle: CpuCycle,
    /// Latched on T3: serve interrupts on the next M-cycle.
    pub should_handle_interrupts: bool,
    /// The last opcode was the 0xCB prefix.
    pub saw_prefix_opcode: bool,
    /// The opcode of the instruction that completed last.
    pub last_instruction: u8,
    pub initial_fetch: bool,
    /// Scratch bytes of multi-cycle instructions.
    pub data_buffer: [u8; 2],
}

impl Cpu {
    /// Creates a running CPU with zeroed registers.
    pub fn new() -> (r: Self)
        ensures
            r.registers == (Registers { a: 0, b: 0, c: 0, d: 0, e: 0, h: 0, l: 0, pc: 0, sp: 0xFFFF, ir: 0 }),
            r.flags == (Flags { z: false, n: false, h: false, c: false }),
            r.state == CpuState::Running,
            r.cycle == CpuCycle::M1,
            !r.halt_bug,
            !r.interrupt_master_enabled,
            !r.should_handle_interrupts,
            !r.saw_prefix_opcode,
            !r.initial_fetch,
            r.t_cycles == 0,
            r.last_instruction == 0,
    {
        Cpu {
            flags: Flags { z: false, n: false, h: false, c: false },
            registers: Registers::default(),
            state: CpuState::Running,
            halt_bug: false,
            interrupt_master_enabled: false,
            t_cycles: 0,
            cycle: CpuCycle::M1,
            should_handle_interrupts: false,
            saw_prefix_opcode: false,
            last_instruction: 0,
            initial_fetch: false,
            data_buffer: [0u8; 2],
        }
    }

    /// Creates a CPU with the register values left by the boot program.
    pub fn with_register_defaults() -> (r: Self)
        ensures
            r.registers == (Registers { a: 0x01, b: 0x00, c: 0x13, d: 0x00, e: 0xD8, h: 0x01, l: 0x4D, pc: 0x100, sp: 0xFFFE, ir: 0 }),
            flags_byte(r.flags) == 0xB0,
            r.state == CpuState::Running,
            r.cycle == CpuCycle::M1,
            !r.interrupt_master_enabled,
            !r.initial_fetch,
            r.t_cycles == 0,
    {
        let mut cpu = Cpu::new();
        cpu.set_register_defaults();
        cpu
    }

    /// Sets the register values left by the boot program.
    pub fn set_register_defaults(&mut self)
        ensures
            final(self).registers == (Registers { a: 0x01, b: 0x00, c: 0x13, d: 0x00, e: 0xD8, h: 0x01, l: 0x4D, pc: 0x100, sp: 0xFFFE, ir: old(self).registers.ir }),
            final(self).flags == (Flags { z: true, n: false, h: true, c: true }),
            final(self).state == old(self).state,
            final(self).cycle == old(self).cycle,
            final(self).interrupt_master_enabled == old(self).interrupt_master_enabled,
            final(self).initial_fetch == old(self).initial_fetch,
            final(self).t_cycles == old(self).t_cycles,
    {
        self.registers.a = 0x01;
        self.flags = Flags { z: true, n: false, h: true, c: true };
        self.registers.b = 0x00;
        self.registers.c = 0x13;
        self.registers.d = 0x00;
        self.registers.e = 0xD8;
        self.registers.h = 0x01;
        self.registers.l = 0x4D;
        self.registers.sp = 0xFFFE;
        self.registers.pc = 0x100;
    }

    /// The CPU after ending an instruction: back to M1, the next opcode fetched.
    pub open spec fn completed(self, hw: &Hardware) -> Cpu {
        Cpu {
            cycle: CpuCycle::M1,
            last_instruction: self.registers.ir,
            registers: Registers {
                ir: hw.bus_read(fetch_address(hw, self.registers.pc)),
                pc: if self.halt_bug {
                    self.registers.pc
                } else {
                    ((self.registers.pc + 1) % 65536) as u16
                },
                ..self.registers
            },
            halt_bug: false,
            ..self
        }
    }

    /// The CPU after ending an instruction and latching interrupt service.
    pub open spec fn fetched_next(self, hw: &Hardware) -> Cpu {
        Cpu {
            should_handle_interrupts: self.interrupt_master_enabled && hw.interrupts.pending() != 0,
            ..self.completed(hw)
        }
    }

    /// The CPU with a register pair written; for AF, F takes the upper nibble of the low byte.
    pub open spec fn with_pair(self, rp: u8, value: u16, af: bool) -> Cpu {
        let hi = (value / 256) as u8;
        let lo = (value % 256) as u8;
        let r = self.registers;
        if rp == 0 {
            Cpu { registers: Registers { b: hi, c: lo, ..r }, ..self }
        } else if rp == 1 {
            Cpu { registers: Registers { d: hi, e: lo, ..r }, ..self }
        } else if rp == 2 {
            Cpu { registers: Registers { h: hi, l: lo, ..r }, ..self }
        } else if af {
            Cpu { registers: Registers { a: hi, ..r }, flags: alu::flags_from_byte(lo), ..self }
        } else {
            Cpu { registers: Registers { sp: value, ..r }, ..self }
        }
    }

    /// `self` and `hw` follow `old` and `old_hw` by one M-cycle of interrupt dispatch.
    pub open spec fn interrupt_effect(&self, old: &Cpu, hw: &Hardware, old_hw: &Hardware) -> bool {
        let r = old.registers;
        &&& hw.wf()
        &&& hw.sys_clock == old_hw.sys_clock
        &&& old.cycle == CpuCycle::M1 ==> *hw == *old_hw && *self == (Cpu {
            registers: Registers { pc: ((r.pc + 65535) % 65536) as u16, ..r },
            cycle: CpuCycle::M2,
            ..*old
        })
        &&& old.cycle == CpuCycle::M2 ==> *hw == *old_hw && *self == (Cpu {
            registers: Registers { sp: ((r.sp + 65535) % 65536) as u16, ..r },
            cycle: CpuCycle::M3,
            ..*old
        })
        &&& old.cycle == CpuCycle::M3 ==> hw.write_effect(old_hw, r.sp, (r.pc / 256) as u8) && *self == (Cpu {
            registers: Registers { sp: ((r.sp + 65535) % 65536) as u16, ..r },
            cycle: CpuCycle::M4,
            ..*old
        })
        &&& old.cycle == CpuCycle::M4 ==> {
            let ints = interrupts_after_write(old_hw.interrupts, r.sp, (r.pc % 256) as u8);
            let i = first_interrupt(ints.pending());
            &&& (Hardware { interrupts: ints, ..*hw }).write_effect(old_hw, r.sp, (r.pc % 256) as u8)
            &&& hw.interrupts == match i {
                Some(x) => Interrupts { requested: ints.requested & !x.mask(), ..ints },
                None => ints,
            }
            &&& *self == (Cpu {
                registers: Registers { pc: dispatch_vector(i), ..r },
                interrupt_master_enabled: false,
                cycle: CpuCycle::M5,
                ..*old
            })
        }
        &&& old.cycle == CpuCycle::M5 ==> *hw == *old_hw && *self == (Cpu { state: CpuState::Running, ..*old }).fetched_next(old_hw)
        &&& old.cycle == CpuCycle::M6 ==> *hw == *old_hw && *self == *old
    }

    /// `self` and `hw` follow `old` and `old_hw` by one T-cycle of the CPU. T1
    /// and T2 do nothing. T3 makes the very first fetch and latches interrupt
    /// service. T4 first sets IME when the last instruction was EI, then runs
    /// an M-cycle of the instruction or of interrupt dispatch, or wakes a
    /// halted CPU when an interrupt is pending.
    pub open spec fn step_effect(&self, old: &Cpu, hw: &Hardware, old_hw: &Hardware) -> bool {
        let t = if old.t_cycles == usize::MAX { 0 } else { (old.t_cycles + 1) as usize };
        let c0 = Cpu { t_cycles: t, ..*old };
        let c1 = Cpu { interrupt_master_enabled: old.interrupt_master_enabled || old.last_instruction == 0xFB, ..c0 };
        let pending = old_hw.interrupts.pending() != 0;
        &&& hw.wf()
        &&& hw.sys_clock == old_hw.sys_clock
        &&& self.t_cycles == t
        &&& (t % 4 == 1 || t % 4 == 2) ==> *self == c0 && *hw == *old_hw
        &&& t % 4 == 3 ==> *hw == *old_hw && {
            let c2 = if old.initial_fetch { c0 } else { Cpu { initial_fetch: true, ..c0.fetched_next(old_hw) } };
            *self == (Cpu {
                state: if c2.should_handle_interrupts { CpuState::HandlingInterrupts } else { c2.state },
                ..c2
            })
        }
        &&& t % 4 == 0 && old.state == CpuState::Running ==> self.instruction_effect(&c1, hw, old_hw)
        &&& t % 4 == 0 && old.state == CpuState::HandlingInterrupts ==> self.interrupt_effect(&c1, hw, old_hw)
        &&& t % 4 == 0 && old.state == CpuState::Halted ==> *hw == *old_hw && *self == if pending {
            if c1.interrupt_master_enabled {
                Cpu { should_handle_interrupts: true, ..c1 }
            } else {
                Cpu { state: CpuState::Running, ..c1 }
            }
        } else {
            c1
        }
        &&& t % 4 == 0 && old.state == CpuState::Stopped ==> *hw == *old_hw && *self == c1
    }

    /// The value of an 8-bit register by its opcode code (B, C, D, E, H, L, -, A).
    pub open spec fn reg(&self, code: u8) -> u8 {
        if code == 0 {
            self.registers.b
        } else if code == 1 {
            self.registers.c
        } else if code == 2 {
            self.registers.d
        } else if code == 3 {
            self.registers.e
        } else if code == 4 {
            self.registers.h
        } else if code == 5 {
            self.registers.l
        } else {
            self.registers.a
        }
    }

    /// The registers with an 8-bit register replaced.
    pub open spec fn regs_with(r: Registers, code: u8, v: u8) -> Registers {
        if code == 0 {
            Registers { b: v, ..r }
        } else if code == 1 {
            Registers { c: v, ..r }
        } else if code == 2 {
            Registers { d: v, ..r }
        } else if code == 3 {
            Registers { e: v, ..r }
        } else if code == 4 {
            Registers { h: v, ..r }
        } else if code == 5 {
            Registers { l: v, ..r }
        } else {
            Registers { a: v, ..r }
        }
    }

    /// HL as an address.
    pub open spec fn hl(&self) -> u16 {
        word(self.registers.h, self.registers.l)
    }

    /// A register pair by its opcode code: BC, DE, HL, then SP, or AF when `af`.
    pub open spec fn pair(&self, rp: u8, af: bool) -> u16 {
        if rp == 0 {
            word(self.registers.b, self.registers.c)
        } else if rp == 1 {
            word(self.registers.d, self.registers.e)
        } else if rp == 2 {
            word(self.registers.h, self.registers.l)
        } else if af {
            word(self.registers.a, flags_byte(self.flags))
        } else {
            self.registers.sp
        }
    }

    /// Reads an 8-bit register by its opcode code.
    pub fn read_register(&self, code: u8) -> (r: u8)
        requires
            code < 8,
            code != 6,
        ensures
            r == self.reg(code),
    {
        if code == 0 {
            self.registers.b
        } else if code == 1 {
            self.registers.c
        } else if code == 2 {
            self.registers.d
        } else if code == 3 {
            self.registers.e
        } else if code == 4 {
            self.registers.h
        } else if code == 5 {
            self.registers.l
        } else {
            self.registers.a
        }
    }

    /// Writes an 8-bit register by its opcode code.
    pub fn write_register(&mut self, code: u8, value: u8)
        requires
            code < 8,
            code != 6,
        ensures
            final(self).registers == Cpu::regs_with(old(self).registers, code, value),
            *final(self) == (Cpu { registers: final(self).registers, ..*old(self) }),
    {
        if code == 0 {
            self.registers.b = value;
        } else if code == 1 {
            self.registers.c = value;
        } else if code == 2 {
            self.registers.d = value;
        } else if code == 3 {
            self.registers.e = value;
        } else if code == 4 {
            self.registers.h = value;
        } else if code == 5 {
            self.registers.l = value;
        } else {
            self.registers.a = value;
        }
    }

    /// Reads a register pair; code 3 is AF when `af`, SP otherwise.
    pub fn read_register_pair(&self, rp: u8, af: bool) -> (r: u16)
        requires
            rp < 4,
        ensures
            r == self.pair(rp, af),
    {
        if rp == 0 {
            self.registers.b as u16 * 256 + self.registers.c as u16
        } else if rp == 1 {
            self.registers.d as u16 * 256 + self.registers.e as u16
        } else if rp == 2 {
            self.registers.h as u16 * 256 + self.registers.l as u16
        } else if af {
            self.registers.a as u16 * 256 + alu::flags_to_byte(self.flags) as u16
        } else {
            self.registers.sp
        }
    }

    /// Writes a register pair; code 3 is AF when `af` (F keeps only its upper
    /// nibble), SP otherwise.
    #[verifier::rlimit(40)]
    pub fn write_register_pair(&mut self, rp: u8, value: u16, af: bool)
        requires
            rp < 4,
        ensures
            rp == 3 && af ==> final(self).pair(rp, af) == value - value % 16,
            !(rp == 3 && af) ==> final(self).pair(rp, af) == value,
            *final(self) == old(self).with_pair(rp, value, af),
    {
        let hi = (value / 256) as u8;
        let lo = (value % 256) as u8;
        if rp == 0 {
            self.registers.b = hi;
            self.registers.c = lo;
        } else if rp == 1 {
            self.registers.d = hi;
            self.registers.e = lo;
        } else if rp == 2 {
            self.registers.h = hi;
            self.registers.l = lo;
        } else if af {
            self.registers.a = hi;
            self.flags = alu::flags_of_byte(lo);
        } else {
            self.registers.sp = value;
        }
    }

    /// Whether a branch condition holds.
    pub fn is_conditional_flag_set(&self, cc: ConditionalFlag) -> (r: bool)
        ensures
            r == condition_holds(self.flags, cc),
    {
        match cc {
            ConditionalFlag::NZ => !self.flags.z,
            ConditionalFlag::Z => self.flags.z,
            ConditionalFlag::NC => !self.flags.c,
            ConditionalFlag::C => self.flags.c,
        }
    }

    /// Whether a flag is set.
    pub fn is_flag_set(&self, flag: Flag) -> (r: bool)
        ensures
            r == flag_value(self.flags, flag),
    {
        match flag {
            Flag::Z => self.flags.z,
            Flag::N => self.flags.n,
            Flag::H => self.flags.h,
            Flag::C => self.flags.c,
        }
    }

    /// Sets a flag when `condition` holds and clears it otherwise.
    pub fn toggle_flag(&mut self, flag: Flag, condition: bool)
        ensures
            flag_value(final(self).flags, flag) == condition,
            forall|other: Flag| other != flag ==> flag_value(final(self).flags, other) == flag_value(old(self).flags, other),
            *final(self) == (Cpu { flags: final(self).flags, ..*old(self) }),
    {
        match flag {
            Flag::Z => self.flags.z = condition,
            Flag::N => self.flags.n = condition,
            Flag::H => self.flags.h = condition,
            Flag::C => self.flags.c = condition,
        }
    }

    /// Reads the byte at HL.
    pub fn read_memory_register(&self, hardware: &Hardware) -> (r: u8)
        requires
            hardware.wf(),
        ensures
            r == hardware.bus_read(self.hl()),
    {
        let address = self.registers.h as u16 * 256 + self.registers.l as u16;
        hardware.read_byte(address)
    }

    /// Writes the byte at HL.
    pub fn write_memory_register(&self, hardware: &mut Hardware, value: u8)
        requires
            old(hardware).wf(),
        ensures
            final(hardware).wf(),
            final(hardware).write_effect(&*old(hardware), self.hl(), value),
            final(hardware).sys_clock == old(hardware).sys_clock,
    {
        let address = self.registers.h as u16 * 256 + self.registers.l as u16;
        hardware.write_byte(address, value);
    }

    /// Fetches the byte at PC and advances PC, except right after a bugged
    /// HALT. While DMA copies, a fetch below high RAM reads the byte being copied.
    pub fn fetch_byte(&mut self, hardware: &Hardware) -> (r: u8)
        requires
            hardware.wf(),
        ensures
            r == hardware.bus_read(fetch_address(hardware, old(self).registers.pc)),
            final(self).registers.pc == if old(self).halt_bug {
                old(self).registers.pc
            } else {
                ((old(self).registers.pc + 1) % 65536) as u16
            },
            !final(self).halt_bug,
            *final(self) == (Cpu {
                registers: Registers { pc: final(self).registers.pc, ..old(self).registers },
                halt_bug: false,
                ..*old(self)
            }),
    {
        let pc = self.registers.pc;
        let mut address = pc;
        if pc < 0xFF80 {
            if let Some(t) = hardware.ppu.dma_transfer {
                if let DmaTransferProgress::Transferring { ticks } = t.progress {
                    let index: u16 = if ticks / 4 < 160 {
                        ticks / 4
                    } else {
                        159
                    };
                    address = t.source as u16 * 256 + index;
                }
            }
        }
        let byte = hardware.read_byte(address);
        if self.halt_bug {
            self.halt_bug = false;
        } else {
            self.registers.pc = self.registers.pc.wrapping_add(1);
        }
        byte
    }

    /// Ends the current instruction: back to M1 and fetch the next opcode.
    pub fn complete_cycle(&mut self, hardware: &Hardware)
        requires
            hardware.wf(),
        ensures
            *final(self) == old(self).completed(hardware),
    {
        self.cycle = CpuCycle::M1;
        self.last_instruction = self.registers.ir;
        self.registers.ir = self.fetch_byte(hardware);
    }

    /// Ends the current instruction and latches whether interrupts are served next.
    pub fn fetch_cycle(&mut self, hardware: &Hardware)
        requires
            hardware.wf(),
        ensures
            *final(self) == old(self).fetched_next(hardware),
    {
        self.complete_cycle(hardware);
        self.should_handle_interrupts = self.interrupt_master_enabled && hardware.has_pending_interrupts();
    }

    /// Steps the CPU by a T-cycle. T1 and T2 do nothing; T3 latches interrupt
    /// service (and makes the very first fetch); T4 runs one M-cycle.
    #[verifier::rlimit(80)]
    pub fn step(&mut self, hardware: &mut Hardware)
        requires
            old(hardware).wf(),
        ensures
            final(self).step_effect(&*old(self), &*final(hardware), &*old(hardware)),
    {
        self.t_cycles = if self.t_cycles == usize::MAX {
            0
        } else {
            self.t_cycles + 1
        };
        let phase = self.t_cycles % 4;
        if phase == 3 {
            if !self.initial_fetch {
                self.fetch_cycle(hardware);
                self.initial_fetch = true;
            }
            if self.should_handle_interrupts {
                self.state = CpuState::HandlingInterrupts;
            }
        } else if phase == 0 {
            if self.last_instruction == 0xFB {
                self.interrupt_master_enabled = true;
            }
            let ghost c1 = *self;
            assert(c1 == (Cpu {
                interrupt_master_enabled: old(self).interrupt_master_enabled || old(self).last_instruction == 0xFB,
                t_cycles: self.t_cycles,
                ..*old(self)
            }));
            match self.state {
                CpuState::Running => self.step_instruction(hardware),
                CpuState::HandlingInterrupts => self.step_interrupts(hardware),
                CpuState::Halted => {
                    if hardware.has_pending_interrupts() {
                        if self.interrupt_master_enabled {
                            self.should_handle_interrupts = true;
                        } else {
                            self.state = CpuState::Running;
                        }
                    }
                },
                CpuState::Stopped => {},
            }
        }
    }

    /// Runs one M-cycle of interrupt dispatch: PC back by one, SP down, PC's
    /// high byte pushed, then PC's low byte pushed and the jump to the pending
    /// interrupt of highest priority seen after that write (its IF bit
    /// cleared), or to 0x0000 when none is left; then running again.
    pub fn step_interrupts(&mut self, hardware: &mut Hardware)
        requires
            old(hardware).wf(),
        ensures
            final(self).interrupt_effect(&*old(self), &*final(hardware), &*old(hardware)),
    {
        if self.cycle == CpuCycle::M1 {
            self.registers.pc = self.registers.pc.wrapping_sub(1);
            self.cycle = CpuCycle::M2;
        } else if self.cycle == CpuCycle::M2 {
            self.registers.sp = self.registers.sp.wrapping_sub(1);
            self.cycle = CpuCycle::M3;
        } else if self.cycle == CpuCycle::M3 {
            let pc_high = (self.registers.pc / 256) as u8;
            hardware.write_byte(self.registers.sp, pc_high);
            self.registers.sp = self.registers.sp.wrapping_sub(1);
            self.cycle = CpuCycle::M4;
        } else if self.cycle == CpuCycle::M4 {
            let pc_low = (self.registers.pc % 256) as u8;
            hardware.write_byte(self.registers.sp, pc_low);
            let interrupt = hardware.next_pending_interrupt();
            self.registers.pc = interrupt_vector(interrupt);
            if let Some(i) = interrupt {
                hardware.clear_interrupt(i);
            }
            self.interrupt_master_enabled = false;
            self.cycle = CpuCycle::M5;
        } else if self.cycle == CpuCycle::M5 {
            self.state = CpuState::Running;
            self.fetch_cycle(hardware);
        }
    }
}

/// Interrupt dispatch jumps to `0x40 + 8 * k` for the lowest set bit `k` of
/// the pending set seen after the stack write, and to 0x0000 when that set
/// has become empty.
pub proof fn lemma_dispatch_vector(pending: u8)
    ensures
        ({
            let i = first_interrupt(pending);
            &&& i is None <==> pending & 0x1F == 0
            &&& i is None ==> dispatch_vector(i) == 0
            &&& i matches Some(x) ==> {
                &&& dispatch_vector(i) == 0x40 + 8 * x.index()
                &&& bit_set(pending, x.index())
                &&& forall|j: nat| j < x.index() ==> !bit_set(pending, j)
            }
        }),
{
    lemma_first_interrupt(pending);
}

/// PUSH writes a pair's high byte then its low byte; POP reassembles them:
/// the pair comes back, and for AF the low nibble of F comes back cleared.
pub proof fn lemma_push_pop_round_trip(c: Cpu, rp: u8, af: bool)
    requires
        rp < 4,
    ensures
        ({
            let v = c.pair(rp, af);
            let hi = (v / 256) as u8;
            let lo = (v % 256) as u8;
            let popped = word(hi, lo);
            &&& popped == v
            &&& rp == 3 && af ==> popped % 16 == 0 && popped / 256 == c.registers.a
        }),
{
    assert(flags_byte(c.flags) % 16 == 0);
}

/// EI takes effect one M-cycle late: the T4 that runs EI leaves IME clear and
/// records EI as the last instruction, so that the next T4 sets IME before
/// its own M-cycle of work.
pub proof fn lemma_ei_delay(c1: &Cpu, c0: &Cpu, h1: &Hardware, h0: &Hardware)
    requires
        c1.step_effect(c0, h1, h0),
        c0.state == CpuState::Running,
        c0.registers.ir == 0xFB,
        !c0.saw_prefix_opcode,
        c0.cycle == CpuCycle::M1,
        !c0.interrupt_master_enabled,
        c0.last_instruction != 0xFB,
        c0.t_cycles < usize::MAX,
        (c0.t_cycles + 1) % 4 == 0,
    ensures
        !c1.interrupt_master_enabled,
        c1.last_instruction == 0xFB,
        c1.state == CpuState::Running,
{
}

/// The T4 after EI sets IME first and then runs the next M-cycle from there.
pub proof fn lemma_ei_takes_effect(c2: &Cpu, c1: &Cpu, h2: &Hardware, h1: &Hardware)
    requires
        c2.step_effect(c1, h2, h1),
        c1.state == CpuState::Running,
        c1.last_instruction == 0xFB,
        c1.t_cycles < usize::MAX,
        (c1.t_cycles + 1) % 4 == 0,
    ensures
        c2.instruction_effect(
            &(Cpu { interrupt_master_enabled: true, t_cycles: (c1.t_cycles + 1) as usize, ..*c1 }),
            h2,
            h1,
        ),
{
}

/// POP AF puts the high byte in A and the low byte's upper nibble in F: the
/// low nibble of F reads as zero whatever was on the stack.
pub proof fn lemma_pop_af_masks_flags(new: &Cpu, old: &Cpu, hw: &Hardware, old_hw: &Hardware)
    requires
        new.pop_effect(old, hw, old_hw, 3),
        old.cycle == CpuCycle::M3,
    ensures
        new.registers.a == old_hw.bus_read(old.registers.sp),
        flags_byte(new.flags) == old.data_buffer@[0] - old.data_buffer@[0] % 16,
        flags_byte(new.flags) % 16 == 0,
{
    alu::lemma_flags_round_trip(old.data_buffer@[0]);
}

/// PUSH rr and then POP rr, each run through all its M-cycles with the
/// stack in work RAM or high RAM, restore the pair (for AF with F's low
/// nibble cleared) and SP, and keep the other pairs.
#[verifier::rlimit(100)]
pub proof fn lemma_push_then_pop(
    c: Seq<Cpu>,
    h: Seq<Hardware>,
    p: u8,
)
    requires
        p < 4,
        c.len() == 8,
        h.len() == 8,
        h[0].wf(),
        h[1].wf(),
        h[2].wf(),
        h[3].wf(),
        h[4].wf(),
        c[0].cycle == CpuCycle::M1,
        (0xC002 <= c[0].registers.sp <= 0xE000) || (0xFF82 <= c[0].registers.sp <= 0xFFFF),
        c[1].push_effect(&c[0], &h[1], &h[0], p),
        c[2].push_effect(&c[1], &h[2], &h[1], p),
        c[3].push_effect(&c[2], &h[3], &h[2], p),
        c[4].push_effect(&c[3], &h[4], &h[3], p),
        c[5].pop_effect(&c[4], &h[5], &h[4], p),
        c[6].pop_effect(&c[5], &h[6], &h[5], p),
        c[7].pop_effect(&c[6], &h[7], &h[6], p),
    ensures
        c[7].registers.sp == c[0].registers.sp,
        p == 3 ==> c[7].pair(p, true) == c[0].pair(p, true) - c[0].pair(p, true) % 16,
        p != 3 ==> c[7].pair(p, true) == c[0].pair(p, true),
        forall|q: u8| q < 3 && q != p ==> c[7].pair(q, true) == c[0].pair(q, true),
        p != 3 ==> c[7].registers.a == c[0].registers.a && c[7].flags == c[0].flags,
{
    let v = c[0].pair(p, true);
    let sp = c[0].registers.sp;
    let hi = (v / 256) as u8;
    let lo = (v % 256) as u8;
    let s1 = (sp - 1) as u16;
    let s2 = (sp - 2) as u16;
    assert(c[2].registers.sp == s1 && c[2].pair(p, true) == v);
    assert(c[3].registers.sp == s2 && c[3].pair(p, true) == v);
    lemma_ram_write_read(&h[3], &h[2], s1, hi);
    lemma_ram_write_read(&h[4], &h[3], s2, lo);
    lemma_ram_write_other(&h[4], &h[3], s2, s1, lo);
    assert(h[4].bus_read(s1) == hi);
    assert(c[4].registers.sp == s2 && c[4].cycle == CpuCycle::M1);
    assert(c[5].registers.sp == s2 && c[5].cycle == CpuCycle::M2 && h[5] == h[4]);
    assert(c[6].data_buffer@[0] == lo && c[6].registers.sp == s1 && h[6] == h[5]);
    lemma_push_pop_round_trip(c[0], p, true);
    alu::lemma_flags_round_trip(lo);
}

/// A byte written to work RAM or high RAM reads back.
pub proof fn lemma_ram_write_read(new: &Hardware, old: &Hardware, address: u16, value: u8)
    requires
        old.wf(),
        new.write_effect(old, address, value),
        (0xC000 <= address < 0xE000) || (0xFF80 <= address < 0xFFFF),
    ensures
        new.bus_read(address) == value,
{
}

/// A write to work RAM or high RAM leaves another such address as it was.
pub proof fn lemma_ram_write_other(new: &Hardware, old: &Hardware, address: u16, other: u16, value: u8)
    requires
        old.wf(),
        new.write_effect(old, address, value),
        (0xC000 <= address < 0xE000) || (0xFF80 <= address < 0xFFFF),
        (0xC000 <= other < 0xE000) || (0xFF80 <= other < 0xFFFF),
        other != address,
    ensures
        new.bus_read(other) == old.bus_read(other),
{
}


/// The dispatch address of a served interrupt, 0x0000 for none.
pub fn interrupt_vector(i: Option<Interrupt>) -> (r: u16)
    ensures
        r == dispatch_vector(i),
{
    match i {
        Some(i) => i.to_vector(),
        None => 0,
    }
}

} // verus!
