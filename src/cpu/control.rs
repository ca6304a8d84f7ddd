use vstd::prelude::*;
use crate::cpu::alu;
use crate::cpu::{Cpu, CpuCycle, CpuState, condition_holds, condition_of_bits};
use crate::cpu::exec::buffer_word;
use crate::hardware::Hardware;

verus! {

impl Cpu {
    /// Opcodes 0xC0 to 0xFF: returns, pops and pushes, jumps and calls,
    /// restarts, high-page loads, immediate arithmetic, SP arithmetic, DI,
    /// EI, the prefix and the unused opcodes (which leave the CPU where it is).
    pub fn step_high_block(&mut self, hardware: &mut Hardware, opcode: u8)
        requires
            old(hardware).wf(),
            0xC0 <= opcode,
        ensures
            opcode % 8 == 5 && (opcode / 8) % 2 == 0 ==> final(self).push_effect(&*old(self), &*final(hardware), &*old(hardware), ((opcode / 8) % 8) / 2),
            opcode % 8 == 1 && (opcode / 8) % 2 == 0 ==> final(self).pop_effect(&*old(self), &*final(hardware), &*old(hardware), ((opcode / 8) % 8) / 2),
            opcode % 8 == 6 ==> final(self).alu_immediate_effect(&*old(self), &*final(hardware), &*old(hardware), (opcode / 8) % 8),
            opcode == 0xFB && old(self).cycle == CpuCycle::M1 ==> *final(hardware) == *old(hardware)
                && *final(self) == old(self).fetched_next(&*old(hardware)),
            opcode == 0xF3 && old(self).cycle == CpuCycle::M1 ==> *final(hardware) == *old(hardware)
                && *final(self) == (Cpu { interrupt_master_enabled: false, ..*old(self) }).completed(&*old(hardware)),
            final(hardware).wf(),
            final(hardware).sys_clock == old(hardware).sys_clock,
            final(self).t_cycles == old(self).t_cycles,
    {
        let z = opcode % 8;
        let y = (opcode / 8) % 8;
        let p = y / 2;
        let q = y % 2;
        let m1 = self.cycle == CpuCycle::M1;
        let m2 = self.cycle == CpuCycle::M2;
        if z == 0 {
            if y < 4 {
                self.step_return(hardware, true, opcode, false);
            } else if y == 5 || y == 7 {
                self.step_sp_offset(hardware, y == 7);
            } else {
                self.step_high_page_immediate(hardware, y == 6);
            }
        } else if z == 1 {
            if q == 0 {
                self.step_pop(hardware, p);
            } else if p == 0 || p == 1 {
                self.step_return(hardware, false, 0, p == 1);
            } else if p == 2 {
                if m1 {
                    self.registers.pc = self.read_register_pair(2, false);
                    self.fetch_cycle(hardware);
                }
            } else {
                if m1 {
                    self.cycle = CpuCycle::M2;
                } else if m2 {
                    self.registers.sp = self.read_register_pair(2, false);
                    self.fetch_cycle(hardware);
                }
            }
        } else if z == 2 {
            if y < 4 {
                self.step_absolute_jump(hardware, true, opcode);
            } else if y == 5 || y == 7 {
                self.step_absolute_access(hardware, y == 7);
            } else {
                if m1 {
                    self.cycle = CpuCycle::M2;
                } else if m2 {
                    let address = 0xFF00u16 + self.registers.c as u16;
                    if y == 4 {
                        hardware.write_byte(address, self.registers.a);
                    } else {
                        self.registers.a = hardware.read_byte(address);
                    }
                    self.fetch_cycle(hardware);
                }
            }
        } else if z == 3 {
            if y == 0 {
                self.step_absolute_jump(hardware, false, 0);
            } else if y == 1 {
                self.saw_prefix_opcode = true;
                self.complete_cycle(hardware);
            } else if y == 6 {
                if m1 {
                    self.interrupt_master_enabled = false;
                    self.complete_cycle(hardware);
                }
            } else if y == 7 {
                if m1 {
                    self.fetch_cycle(hardware);
                }
            }
        } else if z == 4 {
            if y < 4 {
                self.step_call(hardware, true, opcode);
            }
        } else if z == 5 {
            if q == 0 {
                self.step_push(hardware, p);
            } else if p == 0 {
                self.step_call(hardware, false, 0);
            }
        } else if z == 6 {
            if m1 {
                self.cycle = CpuCycle::M2;
            } else if m2 {
                let imm8 = self.fetch_byte(hardware);
                self.apply_alu(y, imm8);
                self.fetch_cycle(hardware);
            }
        } else {
            self.step_restart(hardware, y * 8);
        }
    }

    /// RET (4 M-cycles), RETI (also sets IME) and RET cc (5 taken, 2 not).
    pub fn step_return(&mut self, hardware: &mut Hardware, conditional: bool, opcode: u8, enable_interrupts: bool)
        requires
            old(hardware).wf(),
        ensures
            final(hardware).wf(),
            final(hardware).sys_clock == old(hardware).sys_clock,
            final(self).t_cycles == old(self).t_cycles,
            conditional && old(self).cycle == CpuCycle::M2 ==> final(self).cycle == if condition_holds(
                old(self).flags,
                condition_of_bits(opcode / 8),
            ) {
                CpuCycle::M3
            } else {
                CpuCycle::M1
            },
            (if conditional { old(self).cycle == CpuCycle::M5 } else { old(self).cycle == CpuCycle::M4 })
                && !old(self).halt_bug ==> final(self).cycle == CpuCycle::M1 && final(self).registers.pc
                == ((buffer_word(old(self).data_buffer) + 1) % 65536) as u16 && final(self).interrupt_master_enabled == (old(self).interrupt_master_enabled || (enable_interrupts && !conditional)),
    {
        let c = self.cycle;
        if conditional {
            if c == CpuCycle::M1 {
                self.cycle = CpuCycle::M2;
            } else if c == CpuCycle::M2 {
                if self.is_conditional_flag_set(crate::cpu::conditional_flag(opcode)) {
                    self.cycle = CpuCycle::M3;
                } else {
                    self.fetch_cycle(hardware);
                }
            } else if c == CpuCycle::M3 {
                self.data_buffer[0] = hardware.read_byte(self.registers.sp);
                self.registers.sp = self.registers.sp.wrapping_add(1);
                self.cycle = CpuCycle::M4;
            } else if c == CpuCycle::M4 {
                self.data_buffer[1] = hardware.read_byte(self.registers.sp);
                self.registers.sp = self.registers.sp.wrapping_add(1);
                self.cycle = CpuCycle::M5;
            } else if c == CpuCycle::M5 {
                self.registers.pc = self.data_buffer[1] as u16 * 256 + self.data_buffer[0] as u16;
                self.fetch_cycle(hardware);
            }
        } else {
            if c == CpuCycle::M1 {
                self.cycle = CpuCycle::M2;
            } else if c == CpuCycle::M2 {
                self.data_buffer[0] = hardware.read_byte(self.registers.sp);
                self.registers.sp = self.registers.sp.wrapping_add(1);
                self.cycle = CpuCycle::M3;
            } else if c == CpuCycle::M3 {
                self.data_buffer[1] = hardware.read_byte(self.registers.sp);
                self.registers.sp = self.registers.sp.wrapping_add(1);
                self.cycle = CpuCycle::M4;
            } else if c == CpuCycle::M4 {
                self.registers.pc = self.data_buffer[1] as u16 * 256 + self.data_buffer[0] as u16;
                if enable_interrupts {
                    self.interrupt_master_enabled = true;
                }
                self.fetch_cycle(hardware);
            }
        }
    }

    /// POP rr: low byte then high byte; AF keeps F's upper nibble only.
    #[verifier::rlimit(50)]
    pub fn step_pop(&mut self, hardware: &mut Hardware, p: u8)
        requires
            old(hardware).wf(),
            p < 4,
        ensures
            final(self).pop_effect(&*old(self), &*final(hardware), &*old(hardware), p),
            final(hardware).wf(),
            final(hardware).sys_clock == old(hardware).sys_clock,
            final(self).t_cycles == old(self).t_cycles,
    {
        if self.cycle == CpuCycle::M1 {
            self.cycle = CpuCycle::M2;
        } else if self.cycle == CpuCycle::M2 {
            self.data_buffer[0] = hardware.read_byte(self.registers.sp);
            self.registers.sp = self.registers.sp.wrapping_add(1);
            self.cycle = CpuCycle::M3;
        } else if self.cycle == CpuCycle::M3 {
            let hi = hardware.read_byte(self.registers.sp);
            self.registers.sp = self.registers.sp.wrapping_add(1);
            let v = hi as u16 * 256 + self.data_buffer[0] as u16;
            self.write_register_pair(p, v, true);
            self.fetch_cycle(hardware);
        }
    }

    /// PUSH rr: SP down, high byte, SP down, low byte (AF pushes A and F).
    pub fn step_push(&mut self, hardware: &mut Hardware, p: u8)
        requires
            old(hardware).wf(),
            p < 4,
        ensures
            final(self).push_effect(&*old(self), &*final(hardware), &*old(hardware), p),
            final(hardware).wf(),
            final(hardware).sys_clock == old(hardware).sys_clock,
            final(self).t_cycles == old(self).t_cycles,
    {
        if self.cycle == CpuCycle::M1 {
            self.cycle = CpuCycle::M2;
        } else if self.cycle == CpuCycle::M2 {
            self.registers.sp = self.registers.sp.wrapping_sub(1);
            self.cycle = CpuCycle::M3;
        } else if self.cycle == CpuCycle::M3 {
            let v = self.read_register_pair(p, true);
            hardware.write_byte(self.registers.sp, (v / 256) as u8);
            self.registers.sp = self.registers.sp.wrapping_sub(1);
            self.cycle = CpuCycle::M4;
        } else if self.cycle == CpuCycle::M4 {
            let v = self.read_register_pair(p, true);
            hardware.write_byte(self.registers.sp, (v % 256) as u8);
            self.fetch_cycle(hardware);
        }
    }

    /// JP a16 and JP cc, a16 (4 M-cycles taken, 3 not).
    pub fn step_absolute_jump(&mut self, hardware: &mut Hardware, conditional: bool, opcode: u8)
        requires
            old(hardware).wf(),
        ensures
            final(hardware).wf(),
            final(hardware).sys_clock == old(hardware).sys_clock,
            final(self).t_cycles == old(self).t_cycles,
            old(self).cycle == CpuCycle::M3 ==> final(self).cycle == if !conditional || condition_holds(
                old(self).flags,
                condition_of_bits(opcode / 8),
            ) {
                CpuCycle::M4
            } else {
                CpuCycle::M1
            },
            old(self).cycle == CpuCycle::M4 && !old(self).halt_bug ==> final(self).registers.pc == ((
            buffer_word(old(self).data_buffer) + 1) % 65536) as u16,
    {
        if self.cycle == CpuCycle::M1 {
            self.cycle = CpuCycle::M2;
        } else if self.cycle == CpuCycle::M2 {
            self.data_buffer[0] = self.fetch_byte(hardware);
            self.cycle = CpuCycle::M3;
        } else if self.cycle == CpuCycle::M3 {
            self.data_buffer[1] = self.fetch_byte(hardware);
            if !conditional || self.is_conditional_flag_set(crate::cpu::conditional_flag(opcode)) {
                self.cycle = CpuCycle::M4;
            } else {
                self.fetch_cycle(hardware);
            }
        } else if self.cycle == CpuCycle::M4 {
            self.registers.pc = self.data_buffer[1] as u16 * 256 + self.data_buffer[0] as u16;
            self.fetch_cycle(hardware);
        }
    }

    /// CALL a16 and CALL cc, a16 (6 M-cycles taken, 3 not).
    pub fn step_call(&mut self, hardware: &mut Hardware, conditional: bool, opcode: u8)
        requires
            old(hardware).wf(),
        ensures
            final(hardware).wf(),
            final(hardware).sys_clock == old(hardware).sys_clock,
            final(self).t_cycles == old(self).t_cycles,
            old(self).cycle == CpuCycle::M3 ==> final(self).cycle == if !conditional || condition_holds(
                old(self).flags,
                condition_of_bits(opcode / 8),
            ) {
                CpuCycle::M4
            } else {
                CpuCycle::M1
            },
            old(self).cycle == CpuCycle::M6 && !old(self).halt_bug ==> final(self).registers.pc == ((
            buffer_word(old(self).data_buffer) + 1) % 65536) as u16 && final(self).registers.sp
                == old(self).registers.sp,
            old(self).cycle == CpuCycle::M4 ==> final(self).registers.sp == ((old(self).registers.sp
                + 65535) % 65536) as u16,
    {
        let c = self.cycle;
        if c == CpuCycle::M1 {
            self.cycle = CpuCycle::M2;
        } else if c == CpuCycle::M2 {
            self.data_buffer[0] = self.fetch_byte(hardware);
            self.cycle = CpuCycle::M3;
        } else if c == CpuCycle::M3 {
            self.data_buffer[1] = self.fetch_byte(hardware);
            if !conditional || self.is_conditional_flag_set(crate::cpu::conditional_flag(opcode)) {
                self.cycle = CpuCycle::M4;
            } else {
                self.fetch_cycle(hardware);
            }
        } else if c == CpuCycle::M4 {
            self.registers.sp = self.registers.sp.wrapping_sub(1);
            self.cycle = CpuCycle::M5;
        } else if c == CpuCycle::M5 {
            hardware.write_byte(self.registers.sp, (self.registers.pc / 256) as u8);
            self.registers.sp = self.registers.sp.wrapping_sub(1);
            self.cycle = CpuCycle::M6;
        } else {
            hardware.write_byte(self.registers.sp, (self.registers.pc % 256) as u8);
            self.registers.pc = self.data_buffer[1] as u16 * 256 + self.data_buffer[0] as u16;
            self.fetch_cycle(hardware);
        }
    }

    /// RST: push PC and jump to one of the eight fixed vectors.
    pub fn step_restart(&mut self, hardware: &mut Hardware, vector: u8)
        requires
            old(hardware).wf(),
        ensures
            final(hardware).wf(),
            final(hardware).sys_clock == old(hardware).sys_clock,
            final(self).t_cycles == old(self).t_cycles,
            old(self).cycle == CpuCycle::M4 && !old(self).halt_bug ==> final(self).registers.pc == (
            vector + 1) as u16 && final(hardware).write_effect(
                &*old(hardware),
                old(self).registers.sp,
                (old(self).registers.pc % 256) as u8,
            ),
    {
        if self.cycle == CpuCycle::M1 {
            self.cycle = CpuCycle::M2;
        } else if self.cycle == CpuCycle::M2 {
            self.registers.sp = self.registers.sp.wrapping_sub(1);
            self.cycle = CpuCycle::M3;
        } else if self.cycle == CpuCycle::M3 {
            hardware.write_byte(self.registers.sp, (self.registers.pc / 256) as u8);
            self.registers.sp = self.registers.sp.wrapping_sub(1);
            self.cycle = CpuCycle::M4;
        } else if self.cycle == CpuCycle::M4 {
            hardware.write_byte(self.registers.sp, (self.registers.pc % 256) as u8);
            self.registers.pc = vector as u16;
            self.fetch_cycle(hardware);
        }
    }

    /// ADD SP, e and LD HL, SP+e, with the flags of the low-byte sums.
    pub fn step_sp_offset(&mut self, hardware: &mut Hardware, into_hl: bool)
        requires
            old(hardware).wf(),
        ensures
            old(self).cycle == CpuCycle::M3 ==> final(self).flags == alu::sp_offset_flags(
                old(self).registers.sp,
                old(self).data_buffer@[0],
            ),
            old(self).cycle == CpuCycle::M3 && into_hl ==> final(self).pair(2, false) == alu::sp_offset(
                old(self).registers.sp,
                old(self).data_buffer@[0],
            ),
            old(self).cycle == CpuCycle::M4 ==> final(self).registers.sp == alu::sp_offset(
                old(self).registers.sp,
                old(self).data_buffer@[0],
            ),
            final(hardware).wf(),
            final(hardware).sys_clock == old(hardware).sys_clock,
            final(self).t_cycles == old(self).t_cycles,
    {
        if self.cycle == CpuCycle::M1 {
            self.cycle = CpuCycle::M2;
        } else if self.cycle == CpuCycle::M2 {
            self.data_buffer[0] = self.fetch_byte(hardware);
            self.cycle = CpuCycle::M3;
        } else if self.cycle == CpuCycle::M3 {
            let (result, flags) = alu::add_sp_offset(self.registers.sp, self.data_buffer[0]);
            self.flags = flags;
            if into_hl {
                self.write_register_pair(2, result, false);
                self.fetch_cycle(hardware);
            } else {
                self.cycle = CpuCycle::M4;
            }
        } else if self.cycle == CpuCycle::M4 {
            let (result, _) = alu::add_sp_offset(self.registers.sp, self.data_buffer[0]);
            self.registers.sp = result;
            self.fetch_cycle(hardware);
        }
    }

    /// LDH [0xFF00 + a8], A and LDH A, [0xFF00 + a8].
    pub fn step_high_page_immediate(&mut self, hardware: &mut Hardware, load: bool)
        requires
            old(hardware).wf(),
        ensures
            final(hardware).wf(),
            final(hardware).sys_clock == old(hardware).sys_clock,
            final(self).t_cycles == old(self).t_cycles,
    {
        if self.cycle == CpuCycle::M1 {
            self.cycle = CpuCycle::M2;
        } else if self.cycle == CpuCycle::M2 {
            self.data_buffer[0] = self.fetch_byte(hardware);
            self.cycle = CpuCycle::M3;
        } else if self.cycle == CpuCycle::M3 {
            let address = 0xFF00u16 + self.data_buffer[0] as u16;
            if load {
                self.registers.a = hardware.read_byte(address);
            } else {
                hardware.write_byte(address, self.registers.a);
            }
            self.fetch_cycle(hardware);
        }
    }

    /// LD [a16], A and LD A, [a16].
    pub fn step_absolute_access(&mut self, hardware: &mut Hardware, load: bool)
        requires
            old(hardware).wf(),
        ensures
            final(hardware).wf(),
            final(hardware).sys_clock == old(hardware).sys_clock,
            final(self).t_cycles == old(self).t_cycles,
    {
        if self.cycle == CpuCycle::M1 {
            self.cycle = CpuCycle::M2;
        } else if self.cycle == CpuCycle::M2 {
            self.data_buffer[0] = self.fetch_byte(hardware);
            self.cycle = CpuCycle::M3;
        } else if self.cycle == CpuCycle::M3 {
            self.data_buffer[1] = self.fetch_byte(hardware);
            self.cycle = CpuCycle::M4;
        } else if self.cycle == CpuCycle::M4 {
            let address = self.data_buffer[1] as u16 * 256 + self.data_buffer[0] as u16;
            if load {
                self.registers.a = hardware.read_byte(address);
            } else {
                hardware.write_byte(address, self.registers.a);
            }
            self.fetch_cycle(hardware);
        }
    }
}

} // verus!
