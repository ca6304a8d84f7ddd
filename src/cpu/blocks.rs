use vstd::prelude::*;
use crate::cpu::alu::{self, Flags};
use crate::cpu::{Cpu, CpuCycle, CpuState, condition_holds, condition_of_bits, fetch_address, word};
use crate::hardware::Hardware;

verus! {

impl Cpu {
    /// Opcodes 0x00 to 0x3F: loads, 8 and 16-bit increments, ADD HL,
    /// relative jumps, accumulator rotates and flag operations.
    #[verifier::rlimit(40)]
    pub fn step_low_block(&mut self, hardware: &mut Hardware, opcode: u8)
        requires
            old(hardware).wf(),
            opcode < 0x40,
        ensures
            final(hardware).wf(),
            final(hardware).sys_clock == old(hardware).sys_clock,
            final(self).t_cycles == old(self).t_cycles,
            ({
                let z = opcode % 8;
                let y = opcode / 8;
                let p = y / 2;
                let fetched = old(hardware).bus_read(fetch_address(&*old(hardware), old(self).registers.pc));
                let address = if p < 2 { old(self).pair(p, false) } else { old(self).pair(2, false) };
                &&& z == 1 && y % 2 == 0 && old(self).cycle == CpuCycle::M3 ==> final(self).pair(p, false)
                    == word(fetched, old(self).data_buffer@[0])
                &&& z == 1 && y % 2 == 1 && old(self).cycle == CpuCycle::M2 ==> (final(self).pair(2, false), final(self).flags)
                    == alu::add16_spec(old(self).pair(2, false), old(self).pair(p, false), old(self).flags)
                &&& z == 3 && old(self).cycle == CpuCycle::M1 ==> final(self).pair(p, false) == if y % 2 == 0 {
                    ((old(self).pair(p, false) + 1) % 65536) as u16
                } else {
                    ((old(self).pair(p, false) + 65535) % 65536) as u16
                }
                &&& z == 2 && y % 2 == 1 && old(self).cycle == CpuCycle::M2 ==> final(self).registers.a
                    == old(hardware).bus_read(address)
                &&& z == 2 && y % 2 == 0 && old(self).cycle == CpuCycle::M2 ==> final(hardware).write_effect(
                    &*old(hardware),
                    address,
                    old(self).registers.a,
                )
                &&& z == 2 && p == 2 && old(self).cycle == CpuCycle::M2 ==> final(self).pair(2, false) == ((
                address + 1) % 65536) as u16
                &&& z == 2 && p == 3 && old(self).cycle == CpuCycle::M2 ==> final(self).pair(2, false) == ((
                address + 65535) % 65536) as u16
                &&& z == 6 && y != 6 && old(self).cycle == CpuCycle::M2 ==> final(self).reg(y) == fetched
            }),
            opcode == 0x27 && old(self).cycle == CpuCycle::M1 ==> {
                let d = alu::daa_spec(old(self).registers.a, old(self).flags);
                &&& *final(hardware) == *old(hardware)
                &&& *final(self) == (Cpu {
                    registers: crate::registers::Registers { a: d.value, ..old(self).registers },
                    flags: d.flags,
                    ..*old(self)
                }).fetched_next(&*old(hardware))
            },
    {
        let z = opcode % 8;
        let y = opcode / 8;
        let p = y / 2;
        let q = y % 2;
        let m1 = self.cycle == CpuCycle::M1;
        let m2 = self.cycle == CpuCycle::M2;
        let m3 = self.cycle == CpuCycle::M3;
        if z == 0 {
            if y == 0 {
                if m1 {
                    self.fetch_cycle(hardware);
                }
            } else if y == 1 {
                self.step_store_sp(hardware);
            } else if y == 2 {
                if m1 {
                    self.fetch_byte(hardware);
                    self.state = CpuState::Stopped;
                    self.fetch_cycle(hardware);
                }
            } else {
                self.step_relative_jump(hardware, y);
            }
        } else if z == 1 {
            if q == 0 {
                if m1 {
                    self.cycle = CpuCycle::M2;
                } else if m2 {
                    self.data_buffer[0] = self.fetch_byte(hardware);
                    self.cycle = CpuCycle::M3;
                } else if m3 {
                    let hi = self.fetch_byte(hardware);
                    let v = hi as u16 * 256 + self.data_buffer[0] as u16;
                    self.write_register_pair(p, v, false);
                    self.fetch_cycle(hardware);
                }
            } else {
                if m1 {
                    self.cycle = CpuCycle::M2;
                } else if m2 {
                    let hl = self.read_register_pair(2, false);
                    let rr = self.read_register_pair(p, false);
                    let (sum, flags) = alu::add16(hl, rr, self.flags);
                    self.write_register_pair(2, sum, false);
                    self.flags = flags;
                    self.fetch_cycle(hardware);
                }
            }
        } else if z == 2 {
            if m1 {
                self.cycle = CpuCycle::M2;
            } else if m2 {
                let address = if p < 2 {
                    self.read_register_pair(p, false)
                } else {
                    self.read_register_pair(2, false)
                };
                if q == 0 {
                    hardware.write_byte(address, self.registers.a);
                } else {
                    self.registers.a = hardware.read_byte(address);
                }
                if p == 2 {
                    self.write_register_pair(2, address.wrapping_add(1), false);
                } else if p == 3 {
                    self.write_register_pair(2, address.wrapping_sub(1), false);
                }
                self.fetch_cycle(hardware);
            }
        } else if z == 3 {
            if m1 {
                let v = self.read_register_pair(p, false);
                let r = if q == 0 {
                    v.wrapping_add(1)
                } else {
                    v.wrapping_sub(1)
                };
                self.write_register_pair(p, r, false);
                self.cycle = CpuCycle::M2;
            } else if m2 {
                self.fetch_cycle(hardware);
            }
        } else if z == 4 || z == 5 {
            self.step_inc_dec(hardware, y, z == 4);
        } else if z == 6 {
            if m1 {
                self.cycle = CpuCycle::M2;
            } else if m2 {
                let imm8 = self.fetch_byte(hardware);
                if y == 6 {
                    self.data_buffer[0] = imm8;
                    self.cycle = CpuCycle::M3;
                } else {
                    self.write_register(y, imm8);
                    self.fetch_cycle(hardware);
                }
            } else if m3 {
                let imm8 = self.data_buffer[0];
                self.write_memory_register(hardware, imm8);
                self.fetch_cycle(hardware);
            }
        } else if m1 {
            self.step_accumulator_op(y);
            self.fetch_cycle(hardware);
        }
    }

    /// RLCA, RRCA, RLA, RRA (Z cleared), DAA, CPL, SCF and CCF, by opcode bits 3 to 5.
    pub fn step_accumulator_op(&mut self, y: u8)
        requires
            y < 8,
        ensures
            y < 4 ==> final(self).registers.a == alu::shift_spec(y, old(self).registers.a, old(self).flags).value
                && final(self).flags == (Flags { z: false, ..alu::shift_spec(y, old(self).registers.a, old(self).flags).flags }),
            y == 4 ==> final(self).registers.a == alu::daa_spec(old(self).registers.a, old(self).flags).value
                && final(self).flags == alu::daa_spec(old(self).registers.a, old(self).flags).flags,
            y == 5 ==> final(self).registers.a == !old(self).registers.a
                && final(self).flags == (Flags { n: true, h: true, ..old(self).flags }),
            y == 6 ==> final(self).flags == (Flags { n: false, h: false, c: true, ..old(self).flags }),
            y == 7 ==> final(self).flags == (Flags { n: false, h: false, c: !old(self).flags.c, ..old(self).flags }),
            y >= 6 ==> final(self).registers.a == old(self).registers.a,
            final(self).t_cycles == old(self).t_cycles,
            final(self).cycle == old(self).cycle,
            final(self).state == old(self).state,
            final(self).registers.pc == old(self).registers.pc,
            final(self).halt_bug == old(self).halt_bug,
            *final(self) == (Cpu {
                registers: crate::registers::Registers { a: final(self).registers.a, ..old(self).registers },
                flags: final(self).flags,
                ..*old(self)
            }),
    {
        if y < 4 {
            let r = alu::shift(y, self.registers.a, self.flags);
            self.registers.a = r.value;
            self.flags = Flags { z: false, ..r.flags };
        } else if y == 4 {
            let r = alu::daa(self.registers.a, self.flags);
            self.registers.a = r.value;
            self.flags = r.flags;
        } else if y == 5 {
            self.registers.a = !self.registers.a;
            self.flags = Flags { n: true, h: true, ..self.flags };
        } else if y == 6 {
            self.flags = Flags { n: false, h: false, c: true, ..self.flags };
        } else {
            self.flags = Flags { n: false, h: false, c: !self.flags.c, ..self.flags };
        }
    }

    /// INC r or DEC r, and their [HL] forms, by register code.
    pub fn step_inc_dec(&mut self, hardware: &mut Hardware, code: u8, inc: bool)
        requires
            old(hardware).wf(),
            code < 8,
        ensures
            final(hardware).wf(),
            final(hardware).sys_clock == old(hardware).sys_clock,
            final(self).t_cycles == old(self).t_cycles,
            old(self).cycle == CpuCycle::M1 && code != 6 ==> final(self).reg(code) == if inc {
                alu::inc_spec(old(self).reg(code), old(self).flags).value
            } else {
                alu::dec_spec(old(self).reg(code), old(self).flags).value
            },
    {
        if self.cycle == CpuCycle::M1 {
            if code == 6 {
                self.cycle = CpuCycle::M2;
            } else {
                let v = self.read_register(code);
                let r = if inc {
                    alu::inc8(v, self.flags)
                } else {
                    alu::dec8(v, self.flags)
                };
                self.write_register(code, r.value);
                self.flags = r.flags;
                self.fetch_cycle(hardware);
            }
        } else if self.cycle == CpuCycle::M2 {
            let v = self.read_memory_register(hardware);
            let r = if inc {
                alu::inc8(v, self.flags)
            } else {
                alu::dec8(v, self.flags)
            };
            self.data_buffer[0] = r.value;
            self.data_buffer[1] = alu::flags_to_byte(r.flags);
            self.cycle = CpuCycle::M3;
        } else if self.cycle == CpuCycle::M3 {
            let v = self.data_buffer[0];
            self.write_memory_register(hardware, v);
            self.flags = alu::flags_of_byte(self.data_buffer[1]);
            self.fetch_cycle(hardware);
        }
    }

    /// LD [a16], SP.
    pub fn step_store_sp(&mut self, hardware: &mut Hardware)
        requires
            old(hardware).wf(),
        ensures
            final(hardware).wf(),
            final(hardware).sys_clock == old(hardware).sys_clock,
            final(self).t_cycles == old(self).t_cycles,
    {
        if self.cycle == CpuCycle::M1 {
            self.cycle = CpuCycle::M2;
        } else if self.cycle == CpuCycle::M2 {
            self.data_buffer[0] = self.fetch_byte(hardware);
            self.cycle = CpuCycle::M3;
        } else if self.cycle == CpuCycle::M3 {
            self.data_buffer[1] = self.fetch_byte(hardware);
            self.cycle = CpuCycle::M4;
        } else if self.cycle == CpuCycle::M4 {
            let address = self.data_buffer[1] as u16 * 256 + self.data_buffer[0] as u16;
            hardware.write_byte(address, (self.registers.sp % 256) as u8);
            self.cycle = CpuCycle::M5;
        } else if self.cycle == CpuCycle::M5 {
            let address = self.data_buffer[1] as u16 * 256 + self.data_buffer[0] as u16;
            hardware.write_byte(address.wrapping_add(1), (self.registers.sp / 256) as u8);
            self.fetch_cycle(hardware);
        }
    }

    /// JR e (y = 3) and JR cc, e (y = 4 to 7): one fewer M-cycle when not taken.
    pub fn step_relative_jump(&mut self, hardware: &mut Hardware, y: u8)
        requires
            old(hardware).wf(),
            3 <= y < 8,
        ensures
            final(hardware).wf(),
            final(hardware).sys_clock == old(hardware).sys_clock,
            final(self).t_cycles == old(self).t_cycles,
            old(self).cycle == CpuCycle::M2 ==> final(self).cycle == if y == 3 || condition_holds(
                old(self).flags,
                condition_of_bits(y),
            ) {
                CpuCycle::M3
            } else {
                CpuCycle::M1
            },
            old(self).cycle == CpuCycle::M3 && !old(self).halt_bug ==> final(self).registers.pc == ((
            alu::sp_offset(old(self).registers.pc, old(self).data_buffer@[0]) + 1) % 65536) as u16,
    {
        if self.cycle == CpuCycle::M1 {
            self.cycle = CpuCycle::M2;
        } else if self.cycle == CpuCycle::M2 {
            self.data_buffer[0] = self.fetch_byte(hardware);
            if y == 3 || self.is_conditional_flag_set(crate::cpu::conditional_flag(y * 8)) {
                self.cycle = CpuCycle::M3;
            } else {
                self.fetch_cycle(hardware);
            }
        } else if self.cycle == CpuCycle::M3 {
            let (target, _) = alu::add_sp_offset(self.registers.pc, self.data_buffer[0]);
            self.registers.pc = target;
            self.fetch_cycle(hardware);
        }
    }
}

} // verus!
