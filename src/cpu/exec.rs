use vstd::prelude::*;
use crate::cpu::alu::{self, AluResult, Flags, alu_spec, daa_spec, shift_spec};
use crate::cpu::{Cpu, CpuCycle, CpuState, fetch_address, word};
use crate::registers::Registers;
use crate::hardware::Hardware;

verus! {

/// The two bytes of the scratch buffer as a little-endian address.
pub open spec fn buffer_word(b: [u8; 2]) -> u16 {
    (b@[1] * 256 + b@[0]) as u16
}

/// BIT: Z from the tested bit, N cleared, H set, C kept.
pub open spec fn bit_flags(v: u8, bit: u8, f: Flags) -> Flags {
    Flags { z: (v >> bit) & 1 == 0, n: false, h: true, c: f.c }
}

impl Cpu {
    /// `self` and `hw` follow `old` and `old_hw` by one M-cycle of the
    /// instruction in the instruction register. EI itself leaves IME as it is:
    /// the next T4 sets it, having seen EI as the last instruction.
    pub open spec fn instruction_effect(&self, old: &Cpu, hw: &Hardware, old_hw: &Hardware) -> bool {
        let op = old.registers.ir;
        let pre = old.saw_prefix_opcode;
        let y = (op / 8) % 8;
        &&& hw.wf()
        &&& hw.sys_clock == old_hw.sys_clock
        &&& self.t_cycles == old.t_cycles
        &&& old.cycle == CpuCycle::M1 && !pre && 0x80 <= op < 0xC0 && op % 8 != 6 ==> {
            let r = alu_spec(y, old.registers.a, old.reg(op % 8), old.flags);
            &&& self.registers.a == r.value
            &&& self.flags == r.flags
        }
        &&& !pre && op == 0x76 ==> self.halt_effect(old, hw, old_hw)
        &&& old.cycle == CpuCycle::M1 && pre && op % 8 != 6 ==> {
            let z = op % 8;
            let v = old.reg(z);
            &&& !self.saw_prefix_opcode
            &&& op < 0x40 ==> self.reg(z) == shift_spec(y, v, old.flags).value && self.flags == shift_spec(y, v, old.flags).flags
            &&& 0x40 <= op < 0x80 ==> self.flags == bit_flags(v, y, old.flags)
            &&& 0x80 <= op < 0xC0 ==> self.reg(z) == v & !(1u8 << y)
            &&& 0xC0 <= op ==> self.reg(z) == v | (1u8 << y)
        }
        &&& !pre && op >= 0xC0 && op % 8 == 5 && y % 2 == 0 ==> self.push_effect(old, hw, old_hw, y / 2)
        &&& !pre && op >= 0xC0 && op % 8 == 1 && y % 2 == 0 ==> self.pop_effect(old, hw, old_hw, y / 2)
        &&& !pre && op >= 0xC0 && op % 8 == 6 ==> self.alu_immediate_effect(old, hw, old_hw, y)
        &&& !pre && op == 0xFB && old.cycle == CpuCycle::M1 ==> *hw == *old_hw && *self == old.fetched_next(old_hw)
        &&& !pre && op == 0xF3 && old.cycle == CpuCycle::M1 ==> *hw == *old_hw && *self == (Cpu {
            interrupt_master_enabled: false,
            ..*old
        }).completed(old_hw)
        &&& !pre && op == 0x27 && old.cycle == CpuCycle::M1 ==> {
            let d = daa_spec(old.registers.a, old.flags);
            &&& *hw == *old_hw
            &&& *self == (Cpu { registers: Registers { a: d.value, ..old.registers }, flags: d.flags, ..*old }).fetched_next(old_hw)
        }
    }

    /// One M-cycle of HALT: with IME clear and an interrupt pending it does not
    /// halt, and the fetch it ends with leaves PC where it was.
    pub open spec fn halt_effect(&self, old: &Cpu, hw: &Hardware, old_hw: &Hardware) -> bool {
        let bugged = !old.interrupt_master_enabled && old_hw.interrupts.pending() != 0;
        &&& *hw == *old_hw
        &&& old.cycle == CpuCycle::M1 ==> *self == if bugged {
            (Cpu { halt_bug: true, state: CpuState::Running, ..*old }).fetched_next(old_hw)
        } else {
            (Cpu { state: CpuState::Halted, ..*old }).fetched_next(old_hw)
        }
        &&& old.cycle != CpuCycle::M1 ==> *self == *old
    }

    /// One M-cycle of PUSH rr: SP down; high byte written, SP down; low byte written.
    pub open spec fn push_effect(&self, old: &Cpu, hw: &Hardware, old_hw: &Hardware, p: u8) -> bool {
        let r = old.registers;
        let down = ((r.sp + 65535) % 65536) as u16;
        let v = old.pair(p, true);
        &&& old.cycle == CpuCycle::M1 ==> *hw == *old_hw && *self == (Cpu { cycle: CpuCycle::M2, ..*old })
        &&& old.cycle == CpuCycle::M2 ==> *hw == *old_hw && *self == (Cpu {
            registers: Registers { sp: down, ..r },
            cycle: CpuCycle::M3,
            ..*old
        })
        &&& old.cycle == CpuCycle::M3 ==> hw.write_effect(old_hw, r.sp, (v / 256) as u8) && *self == (Cpu {
            registers: Registers { sp: down, ..r },
            cycle: CpuCycle::M4,
            ..*old
        })
        &&& old.cycle == CpuCycle::M4 ==> hw.write_effect(old_hw, r.sp, (v % 256) as u8) && *self == old.fetched_next(hw)
    }

    /// One M-cycle of POP rr: low byte read, SP up; high byte read, SP up and
    /// the pair written (for AF, F keeps the upper nibble only).
    pub open spec fn pop_effect(&self, old: &Cpu, hw: &Hardware, old_hw: &Hardware, p: u8) -> bool {
        let r = old.registers;
        let up = ((r.sp + 1) % 65536) as u16;
        &&& *hw == *old_hw
        &&& old.cycle == CpuCycle::M1 ==> *self == (Cpu { cycle: CpuCycle::M2, ..*old })
        &&& old.cycle == CpuCycle::M2 ==> {
            &&& self.data_buffer@ == old.data_buffer@.update(0, old_hw.bus_read(r.sp))
            &&& *self == (Cpu {
                registers: Registers { sp: up, ..r },
                cycle: CpuCycle::M3,
                data_buffer: self.data_buffer,
                ..*old
            })
        }
        &&& old.cycle == CpuCycle::M3 ==> *self == (Cpu { registers: Registers { sp: up, ..r }, ..*old }).with_pair(
            p,
            word(old_hw.bus_read(r.sp), old.data_buffer@[0]),
            true,
        ).fetched_next(old_hw)
    }

    /// One M-cycle of an accumulator operation with an immediate operand.
    pub open spec fn alu_immediate_effect(&self, old: &Cpu, hw: &Hardware, old_hw: &Hardware, op: u8) -> bool {
        let r = old.registers;
        let operand = old_hw.bus_read(fetch_address(old_hw, r.pc));
        let pc = if old.halt_bug { r.pc } else { ((r.pc + 1) % 65536) as u16 };
        let res = alu_spec(op, r.a, operand, old.flags);
        &&& *hw == *old_hw
        &&& old.cycle == CpuCycle::M1 ==> *self == (Cpu { cycle: CpuCycle::M2, ..*old })
        &&& old.cycle == CpuCycle::M2 ==> *self == (Cpu {
            registers: Registers { a: res.value, pc, ..r },
            flags: res.flags,
            halt_bug: false,
            ..*old
        }).fetched_next(old_hw)
    }
    /// Runs one M-cycle of the current instruction, decoding the opcode in
    /// the instruction register (in the prefixed table after 0xCB).
    pub fn step_instruction(&mut self, hardware: &mut Hardware)
        requires
            old(hardware).wf(),
        ensures
            final(self).instruction_effect(&*old(self), &*final(hardware), &*old(hardware)),
    {
        let opcode = self.registers.ir;
        if self.saw_prefix_opcode {
            self.step_prefixed(hardware, opcode);
        } else if opcode == 0x76 {
            self.step_halt(hardware);
        } else if 0x40 <= opcode && opcode < 0x80 {
            self.step_load_register(hardware, opcode);
        } else if 0x80 <= opcode && opcode < 0xC0 {
            self.step_alu_register(hardware, opcode);
        } else if opcode < 0x40 {
            self.step_low_block(hardware, opcode);
        } else {
            self.step_high_block(hardware, opcode);
        }
    }

    /// HALT: halts until an interrupt is pending; with IME clear and an
    /// interrupt already pending it does not halt and the next fetch repeats.
    pub fn step_halt(&mut self, hardware: &mut Hardware)
        requires
            old(hardware).wf(),
        ensures
            final(hardware).wf(),
            final(hardware).sys_clock == old(hardware).sys_clock,
            final(self).t_cycles == old(self).t_cycles,
            final(self).halt_effect(&*old(self), &*final(hardware), &*old(hardware)),
    {
        if self.cycle == CpuCycle::M1 {
            if !self.interrupt_master_enabled && hardware.has_pending_interrupts() {
                self.halt_bug = true;
                self.state = CpuState::Running;
            } else {
                self.state = CpuState::Halted;
            }
            self.fetch_cycle(hardware);
        }
    }

    /// Applies an accumulator operation to A and the flags.
    pub fn apply_alu(&mut self, op: u8, operand: u8)
        requires
            op < 8,
        ensures
            ({
                let r = alu_spec(op, old(self).registers.a, operand, old(self).flags);
                &&& final(self).registers.a == r.value
                &&& final(self).flags == r.flags
            }),
            *final(self) == (Cpu { registers: Registers { a: final(self).registers.a, ..old(self).registers }, flags: final(self).flags, ..*old(self) }),
            final(self).t_cycles == old(self).t_cycles,
            final(self).cycle == old(self).cycle,
            final(self).state == old(self).state,
    {
        let r = alu::alu(op, self.registers.a, operand, self.flags);
        self.registers.a = r.value;
        self.flags = r.flags;
    }

    /// LD r, r' and the forms through [HL] (opcodes 0x40 to 0x7F but HALT).
    pub fn step_load_register(&mut self, hardware: &mut Hardware, opcode: u8)
        requires
            old(hardware).wf(),
            0x40 <= opcode < 0x80,
            opcode != 0x76,
        ensures
            final(hardware).wf(),
            final(hardware).sys_clock == old(hardware).sys_clock,
            final(self).t_cycles == old(self).t_cycles,
            old(self).cycle == CpuCycle::M1 && opcode % 8 != 6 && (opcode / 8) % 8 != 6 ==> final(self).registers.a == if (opcode / 8) % 8 == 7 {
                old(self).reg(opcode % 8)
            } else {
                old(self).registers.a
            },
    {
        let src = opcode % 8;
        let dst = (opcode / 8) % 8;
        if self.cycle == CpuCycle::M1 {
            if src == 6 || dst == 6 {
                self.cycle = CpuCycle::M2;
            } else {
                let v = self.read_register(src);
                self.write_register(dst, v);
                self.fetch_cycle(hardware);
            }
        } else if self.cycle == CpuCycle::M2 {
            if src == 6 {
                let v = self.read_memory_register(hardware);
                self.write_register(dst, v);
            } else {
                let v = self.read_register(src);
                self.write_memory_register(hardware, v);
            }
            self.fetch_cycle(hardware);
        }
    }

    /// ADD, ADC, SUB, SBC, AND, XOR, OR and CP on A with a register or [HL]
    /// (opcodes 0x80 to 0xBF).
    pub fn step_alu_register(&mut self, hardware: &mut Hardware, opcode: u8)
        requires
            old(hardware).wf(),
            0x80 <= opcode < 0xC0,
        ensures
            final(hardware).wf(),
            final(hardware).sys_clock == old(hardware).sys_clock,
            final(self).t_cycles == old(self).t_cycles,
            old(self).cycle == CpuCycle::M1 && opcode % 8 != 6 ==> ({
                let r = alu_spec((opcode / 8) % 8, old(self).registers.a, old(self).reg(opcode % 8), old(self).flags);
                &&& final(self).registers.a == r.value
                &&& final(self).flags == r.flags
            }),
    {
        let src = opcode % 8;
        let op = (opcode / 8) % 8;
        if self.cycle == CpuCycle::M1 {
            if src == 6 {
                self.cycle = CpuCycle::M2;
            } else {
                let v = self.read_register(src);
                self.apply_alu(op, v);
                self.fetch_cycle(hardware);
            }
        } else if self.cycle == CpuCycle::M2 {
            let v = self.read_memory_register(hardware);
            self.apply_alu(op, v);
            self.fetch_cycle(hardware);
        }
    }

    /// The prefixed table: rotates and shifts, BIT, RES and SET, on a register or [HL].
    pub fn step_prefixed(&mut self, hardware: &mut Hardware, opcode: u8)
        requires
            old(hardware).wf(),
        ensures
            final(hardware).wf(),
            final(hardware).sys_clock == old(hardware).sys_clock,
            final(self).t_cycles == old(self).t_cycles,
            old(self).cycle == CpuCycle::M1 && opcode % 8 != 6 ==> {
                let z = opcode % 8;
                let y = (opcode / 8) % 8;
                let v = old(self).reg(z);
                &&& !final(self).saw_prefix_opcode
                &&& opcode < 0x40 ==> final(self).reg(z) == shift_spec(y, v, old(self).flags).value
                    && final(self).flags == shift_spec(y, v, old(self).flags).flags
                &&& 0x40 <= opcode < 0x80 ==> final(self).flags == bit_flags(v, y, old(self).flags)
                &&& 0x80 <= opcode < 0xC0 ==> final(self).reg(z) == v & !(1u8 << y)
                &&& 0xC0 <= opcode ==> final(self).reg(z) == v | (1u8 << y)
            },
    {
        let z = opcode % 8;
        let y = (opcode / 8) % 8;
        let group = opcode / 64;
        if self.cycle == CpuCycle::M1 {
            if z == 6 {
                self.cycle = CpuCycle::M2;
            } else {
                let v = self.read_register(z);
                if group == 0 {
                    let r = alu::shift(y, v, self.flags);
                    self.write_register(z, r.value);
                    self.flags = r.flags;
                } else if group == 1 {
                    self.flags = Flags { z: (v >> y) & 1 == 0, n: false, h: true, c: self.flags.c };
                } else if group == 2 {
                    self.write_register(z, v & !(1u8 << y));
                } else {
                    self.write_register(z, v | (1u8 << y));
                }
                self.saw_prefix_opcode = false;
                self.fetch_cycle(hardware);
            }
        } else if self.cycle == CpuCycle::M2 {
            let v = self.read_memory_register(hardware);
            if group == 1 {
                self.flags = Flags { z: (v >> y) & 1 == 0, n: false, h: true, c: self.flags.c };
                self.saw_prefix_opcode = false;
                self.fetch_cycle(hardware);
            } else {
                if group == 0 {
                    let r = alu::shift(y, v, self.flags);
                    self.data_buffer[0] = r.value;
                    self.data_buffer[1] = alu::flags_to_byte(r.flags);
                } else if group == 2 {
                    self.data_buffer[0] = v & !(1u8 << y);
                    self.data_buffer[1] = alu::flags_to_byte(self.flags);
                } else {
                    self.data_buffer[0] = v | (1u8 << y);
                    self.data_buffer[1] = alu::flags_to_byte(self.flags);
                }
                self.cycle = CpuCycle::M3;
            }
        } else if self.cycle == CpuCycle::M3 {
            let res = self.data_buffer[0];
            self.write_memory_register(hardware, res);
            self.flags = alu::flags_of_byte(self.data_buffer[1]);
            self.saw_prefix_opcode = false;
            self.fetch_cycle(hardware);
        }
    }
}

/// DAA followed by CP A, 0 (0xFE 0x00) reports zero exactly when the
/// adjusted accumulator is zero, and leaves A at the adjusted value.
pub proof fn lemma_daa_then_compare(c0: &Cpu, c1: &Cpu, c2: &Cpu, c3: &Cpu, h0: &Hardware, h1: &Hardware, h2: &Hardware, h3: &Hardware)
    requires
        c0.registers.ir == 0x27,
        !c0.saw_prefix_opcode,
        c0.cycle == CpuCycle::M1,
        c1.instruction_effect(c0, h1, h0),
        c2.registers.a == c1.registers.a,
        c2.flags == c1.flags,
        c2.cycle == CpuCycle::M2,
        c3.alu_immediate_effect(c2, h3, h2, 7),
        h2.bus_read(fetch_address(h2, c2.registers.pc)) == 0,
    ensures
        c3.registers.a == daa_spec(c0.registers.a, c0.flags).value,
        c3.flags.z <==> daa_spec(c0.registers.a, c0.flags).value == 0,
        c3.flags.n,
{
}

} // verus!
