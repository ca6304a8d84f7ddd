use vstd::prelude::*;

verus! {

/// The four CPU flags: zero, subtract, half-carry, carry.
#[derive(Debug, Clone, Copy, PartialEq, Eq, Structural)]
pub struct Flags {
    pub z: bool,
    pub n: bool,
    pub h: bool,
    pub c: bool,
}

/// The F register: the flags in its upper nibble, the lower nibble zero.
pub open spec fn flags_byte(f: Flags) -> u8 {
    ((if f.z { 0x80int } else { 0 }) + (if f.n { 0x40int } else { 0 }) + (if f.h { 0x20int } else { 0 }) + (
    if f.c { 0x10int } else { 0 })) as u8
}

/// The flags held in the upper nibble of a byte: bits 7, 6, 5 and 4.
pub open spec fn flags_from_byte(b: u8) -> Flags {
    Flags { z: b / 128 % 2 == 1, n: b / 64 % 2 == 1, h: b / 32 % 2 == 1, c: b / 16 % 2 == 1 }
}

/// An 8-bit result with its flags.
#[derive(Debug, Clone, Copy, PartialEq, Eq, Structural)]
pub struct AluResult {
    pub value: u8,
    pub flags: Flags,
}

/// The eight accumulator operations, by their opcode bits 3 to 5:
/// ADD, ADC, SUB, SBC, AND, XOR, OR, CP.
pub open spec fn alu_spec(op: u8, a: u8, b: u8, f: Flags) -> AluResult {
    let cin: int = if f.c { 1 } else { 0 };
    if op == 0 || op == 1 {
        let ci = if op == 1 { cin } else { 0 };
        let v = ((a + b + ci) % 256) as u8;
        AluResult {
            value: v,
            flags: Flags { z: v == 0, n: false, h: a % 16 + b % 16 + ci > 15, c: a + b + ci > 255 },
        }
    } else if op == 2 || op == 3 || op == 7 {
        let ci = if op == 3 { cin } else { 0 };
        let v = ((a - b - ci + 512) % 256) as u8;
        AluResult {
            value: if op == 7 { a } else { v },
            flags: Flags { z: v == 0, n: true, h: a % 16 < b % 16 + ci, c: a < b + ci },
        }
    } else if op == 4 {
        let v = a & b;
        AluResult { value: v, flags: Flags { z: v == 0, n: false, h: true, c: false } }
    } else if op == 5 {
        let v = a ^ b;
        AluResult { value: v, flags: Flags { z: v == 0, n: false, h: false, c: false } }
    } else {
        let v = a | b;
        AluResult { value: v, flags: Flags { z: v == 0, n: false, h: false, c: false } }
    }
}

/// Unpacking a byte into flags and packing them again keeps its upper nibble
/// and clears the lower one.
pub proof fn lemma_flags_round_trip(b: u8)
    ensures
        flags_byte(flags_from_byte(b)) == b - b % 16,
        flags_byte(flags_from_byte(b)) % 16 == 0,
{
}

/// Packs the flags into the F register.
pub fn flags_to_byte(f: Flags) -> (r: u8)
    ensures
        r == flags_byte(f),
        r % 16 == 0,
        flags_from_byte(r) == f,
{
    (if f.z { 0x80u8 } else { 0 }) + (if f.n { 0x40u8 } else { 0 }) + (if f.h { 0x20u8 } else { 0 }) + (
    if f.c { 0x10u8 } else { 0 })
}

/// Unpacks the flags from the upper nibble of a byte; the lower nibble is dropped.
pub fn flags_of_byte(b: u8) -> (r: Flags)
    ensures
        r == flags_from_byte(b),
        flags_byte(r) == b - b % 16,
{
    proof {
        lemma_flags_round_trip(b);
    }
    Flags { z: b / 128 % 2 == 1, n: b / 64 % 2 == 1, h: b / 32 % 2 == 1, c: b / 16 % 2 == 1 }
}

/// Runs one of the eight accumulator operations.
pub fn alu(op: u8, a: u8, b: u8, f: Flags) -> (r: AluResult)
    requires
        op < 8,
    ensures
        r == alu_spec(op, a, b, f),
{
    let cin: u16 = if f.c { 1 } else { 0 };
    if op == 0 || op == 1 {
        let ci: u16 = if op == 1 { cin } else { 0 };
        let sum: u16 = a as u16 + b as u16 + ci;
        let v = (sum % 256) as u8;
        AluResult {
            value: v,
            flags: Flags { z: v == 0, n: false, h: (a % 16) as u16 + (b % 16) as u16 + ci > 15, c: sum > 255 },
        }
    } else if op == 2 || op == 3 || op == 7 {
        let ci: u16 = if op == 3 { cin } else { 0 };
        let v = ((a as u16 + 512 - b as u16 - ci) % 256) as u8;
        AluResult {
            value: if op == 7 { a } else { v },
            flags: Flags { z: v == 0, n: true, h: ((a % 16) as u16) < (b % 16) as u16 + ci, c: (a as u16) < b as u16 + ci },
        }
    } else if op == 4 {
        let v = a & b;
        AluResult { value: v, flags: Flags { z: v == 0, n: false, h: true, c: false } }
    } else if op == 5 {
        let v = a ^ b;
        AluResult { value: v, flags: Flags { z: v == 0, n: false, h: false, c: false } }
    } else {
        let v = a | b;
        AluResult { value: v, flags: Flags { z: v == 0, n: false, h: false, c: false } }
    }
}

/// INC: carry kept, half-carry out of bit 3.
pub open spec fn inc_spec(v: u8, f: Flags) -> AluResult {
    let r = ((v + 1) % 256) as u8;
    AluResult { value: r, flags: Flags { z: r == 0, n: false, h: v % 16 == 15, c: f.c } }
}

/// DEC: carry kept, half-borrow from bit 4.
pub open spec fn dec_spec(v: u8, f: Flags) -> AluResult {
    let r = ((v + 255) % 256) as u8;
    AluResult { value: r, flags: Flags { z: r == 0, n: true, h: v % 16 == 0, c: f.c } }
}

/// Increments a byte.
pub fn inc8(v: u8, f: Flags) -> (r: AluResult)
    ensures
        r == inc_spec(v, f),
{
    let r = ((v as u16 + 1) % 256) as u8;
    AluResult { value: r, flags: Flags { z: r == 0, n: false, h: v % 16 == 15, c: f.c } }
}

/// Decrements a byte.
pub fn dec8(v: u8, f: Flags) -> (r: AluResult)
    ensures
        r == dec_spec(v, f),
{
    let r = ((v as u16 + 255) % 256) as u8;
    AluResult { value: r, flags: Flags { z: r == 0, n: true, h: v % 16 == 0, c: f.c } }
}

/// DAA: the correction after BCD arithmetic, from N, H and C.
pub open spec fn daa_spec(a: u8, f: Flags) -> AluResult {
    let low = f.h || (!f.n && a % 16 > 9);
    let high = f.c || (!f.n && a > 0x99);
    let corr: int = (if low { 0x06int } else { 0 }) + (if high { 0x60int } else { 0 });
    let v = if f.n { ((a - corr + 256) % 256) as u8 } else { ((a + corr) % 256) as u8 };
    AluResult { value: v, flags: Flags { z: v == 0, n: f.n, h: false, c: high } }
}

/// Decimal-adjusts the accumulator.
pub fn daa(a: u8, f: Flags) -> (r: AluResult)
    ensures
        r == daa_spec(a, f),
{
    let mut correction: u16 = 0;
    let mut carried = f.c;
    if f.h || (!f.n && a % 16 > 9) {
        correction = correction + 0x06;
    }
    if f.c || (!f.n && a > 0x99) {
        correction = correction + 0x60;
        carried = true;
    }
    let v = if f.n {
        ((a as u16 + 256 - correction) % 256) as u8
    } else {
        ((a as u16 + correction) % 256) as u8
    };
    AluResult { value: v, flags: Flags { z: v == 0, n: f.n, h: false, c: carried } }
}

/// The eight rotate and shift operations of the prefixed table, by opcode
/// bits 3 to 5: RLC, RRC, RL, RR, SLA, SRA, SWAP, SRL.
pub open spec fn shift_spec(op: u8, v: u8, f: Flags) -> AluResult {
    let cin: int = if f.c { 1 } else { 0 };
    let (r, c): (int, bool) = if op == 0 {
        ((v % 128) * 2 + (v / 128) as int, v / 128 == 1)
    } else if op == 1 {
        ((v / 2) as int + (v % 2) * 128, v % 2 == 1)
    } else if op == 2 {
        ((v % 128) * 2 + cin, v / 128 == 1)
    } else if op == 3 {
        ((v / 2) as int + cin * 128, v % 2 == 1)
    } else if op == 4 {
        ((v % 128) * 2 as int, v / 128 == 1)
    } else if op == 5 {
        ((v / 2) as int + (v / 128) * 128, v % 2 == 1)
    } else if op == 6 {
        ((v % 16) * 16 + (v / 16) as int, false)
    } else {
        ((v / 2) as int, v % 2 == 1)
    };
    AluResult { value: r as u8, flags: Flags { z: r == 0, n: false, h: false, c } }
}

/// Runs one rotate or shift operation.
pub fn shift(op: u8, v: u8, f: Flags) -> (r: AluResult)
    requires
        op < 8,
    ensures
        r == shift_spec(op, v, f),
{
    let cin: u8 = if f.c { 1 } else { 0 };
    let (r, c): (u8, bool) = if op == 0 {
        ((v % 128) * 2 + v / 128, v / 128 == 1)
    } else if op == 1 {
        (v / 2 + (v % 2) * 128, v % 2 == 1)
    } else if op == 2 {
        ((v % 128) * 2 + cin, v / 128 == 1)
    } else if op == 3 {
        (v / 2 + cin * 128, v % 2 == 1)
    } else if op == 4 {
        ((v % 128) * 2, v / 128 == 1)
    } else if op == 5 {
        (v / 2 + (v / 128) * 128, v % 2 == 1)
    } else if op == 6 {
        ((v % 16) * 16 + v / 16, false)
    } else {
        (v / 2, v % 2 == 1)
    };
    AluResult { value: r, flags: Flags { z: r == 0, n: false, h: false, c } }
}

/// The carry and half-carry of adding a signed byte to SP: both from the
/// unsigned low-byte sums, with Z and N cleared.
pub open spec fn sp_offset_flags(sp: u16, e: u8) -> Flags {
    Flags { z: false, n: false, h: sp % 16 + e % 16 > 15, c: sp % 256 + e > 255 }
}

/// SP plus a signed byte.
pub open spec fn sp_offset(sp: u16, e: u8) -> u16 {
    (if e < 128 { (sp + e) % 65536 } else { (sp + e + 65280) % 65536 }) as u16
}

/// Adds a signed byte to SP, with the flags of ADD SP and LD HL, SP+e.
pub fn add_sp_offset(sp: u16, e: u8) -> (r: (u16, Flags))
    ensures
        r.0 == sp_offset(sp, e),
        r.1 == sp_offset_flags(sp, e),
{
    let v: u16 = if e < 128 {
        ((sp as u32 + e as u32) % 65536) as u16
    } else {
        ((sp as u32 + e as u32 + 65280) % 65536) as u16
    };
    (v, Flags { z: false, n: false, h: sp % 16 + (e % 16) as u16 > 15, c: sp % 256 + e as u16 > 255 })
}

/// ADD HL, rr: the sum and flags; Z is kept.
pub open spec fn add16_spec(hl: u16, rr: u16, f: Flags) -> (u16, Flags) {
    (((hl + rr) % 65536) as u16, Flags { z: f.z, n: false, h: hl % 4096 + rr % 4096 > 4095, c: hl + rr > 65535 })
}

/// Adds two 16-bit values for ADD HL, rr.
pub fn add16(hl: u16, rr: u16, f: Flags) -> (r: (u16, Flags))
    ensures
        r == add16_spec(hl, rr, f),
{
    let sum: u32 = hl as u32 + rr as u32;
    (((sum % 65536) as u16), Flags { z: f.z, n: false, h: hl % 4096 + rr % 4096 > 4095, c: sum > 65535 })
}

/// DAA then CP 0 reports zero exactly when the adjusted accumulator is zero.
pub proof fn lemma_daa_then_compare_zero(a: u8, f: Flags)
    ensures
        ({
            let d = daa_spec(a, f);
            let cmp = alu_spec(7, d.value, 0, d.flags);
            cmp.flags.z <==> d.value == 0
        }),
{
}

} // verus!
