use vstd::prelude::*;

verus! {

/// A source of interrupts, in priority order.
#[derive(Debug, Clone, Copy, PartialEq, Eq, Structural)]
pub enum Interrupt {
    VBlank,
    Lcd,
    Timer,
    Serial,
    Joypad,
}

impl Interrupt {
    /// The bit index of this interrupt in the IE and IF registers.
    pub open spec fn index(self) -> nat {
        match self {
            Interrupt::VBlank => 0,
            Interrupt::Lcd => 1,
            Interrupt::Timer => 2,
            Interrupt::Serial => 3,
            Interrupt::Joypad => 4,
        }
    }

    /// The bit mask of this interrupt in the IE and IF registers.
    pub open spec fn mask(self) -> u8 {
        match self {
            Interrupt::VBlank => 0x01,
            Interrupt::Lcd => 0x02,
            Interrupt::Timer => 0x04,
            Interrupt::Serial => 0x08,
            Interrupt::Joypad => 0x10,
        }
    }

    /// Returns the bit mask of this interrupt.
    pub fn bit_mask(self) -> (r: u8)
        ensures
            r == self.mask(),
    {
        match self {
            Interrupt::VBlank => 0x01,
            Interrupt::Lcd => 0x02,
            Interrupt::Timer => 0x04,
            Interrupt::Serial => 0x08,
            Interrupt::Joypad => 0x10,
        }
    }

    /// Converts the interrupt to its vector address.
    pub fn to_vector(self) -> (r: u16)
        ensures
            r == 0x40 + 8 * self.index(),
    {
        match self {
            Interrupt::VBlank => 0x40,
            Interrupt::Lcd => 0x48,
            Interrupt::Timer => 0x50,
            Interrupt::Serial => 0x58,
            Interrupt::Joypad => 0x60,
        }
    }
}

/// Whether bit `i` of `b` is set.
pub open spec fn bit_set(b: u8, i: nat) -> bool {
    i < 8 && (b >> (i as u8)) & 1 == 1
}

/// The interrupt of highest priority in a bitfield, if any of the low five bits is set.
pub open spec fn first_interrupt(bits: u8) -> Option<Interrupt> {
    if bits & 0x01 != 0 {
        Some(Interrupt::VBlank)
    } else if bits & 0x02 != 0 {
        Some(Interrupt::Lcd)
    } else if bits & 0x04 != 0 {
        Some(Interrupt::Timer)
    } else if bits & 0x08 != 0 {
        Some(Interrupt::Serial)
    } else if bits & 0x10 != 0 {
        Some(Interrupt::Joypad)
    } else {
        None
    }
}

/// The enabled (IE) and requested (IF) interrupts.
#[derive(Debug, Clone, Copy)]
pub struct Interrupts {
    /// The `IF` register: the requested interrupts, low five bits only.
    pub requested: u8,
    /// The `IE` register: the enabled interrupts, all eight bits.
    pub enabled: u8,
}

impl Interrupts {
    /// Only the low five bits of IF are ever stored.
    pub open spec fn wf(&self) -> bool {
        self.requested & 0xE0 == 0
    }

    /// The pending interrupts: enabled and requested, low five bits.
    pub open spec fn pending(&self) -> u8 {
        self.enabled & self.requested & 0x1F
    }

    /// Creates the latch with nothing enabled or requested.
    pub fn new() -> (r: Self)
        ensures
            r.requested == 0,
            r.enabled == 0,
            r.wf(),
    {
        assert(0u8 & 0xE0 == 0) by (bit_vector);
        Interrupts { requested: 0, enabled: 0 }
    }

    /// Sets IE.
    pub fn set_enabled(&mut self, value: u8)
        ensures
            final(self).enabled == value,
            final(self).requested == old(self).requested,
    {
        self.enabled = value;
    }

    /// Returns IE.
    pub fn enabled_bitfield(&self) -> (r: u8)
        ensures
            r == self.enabled,
    {
        self.enabled
    }

    /// Requests an interrupt.
    pub fn request_interrupt(&mut self, interrupt: Interrupt)
        requires
            old(self).wf(),
        ensures
            final(self).requested == old(self).requested | interrupt.mask(),
            final(self).enabled == old(self).enabled,
            final(self).wf(),
    {
        let m = interrupt.bit_mask();
        let r = self.requested;
        self.requested = r | m;
        assert((r | m) & 0xE0 == 0) by (bit_vector)
            requires
                r & 0xE0 == 0,
                m == 1 || m == 2 || m == 4 || m == 8 || m == 16,
        ;
    }

    /// Sets IF; only its low five bits are kept.
    pub fn set_requested(&mut self, value: u8)
        ensures
            final(self).requested == value & 0x1F,
            final(self).enabled == old(self).enabled,
            final(self).wf(),
    {
        self.requested = value & 0x1F;
        assert((value & 0x1F) & 0xE0 == 0) by (bit_vector);
    }

    /// Clears a requested interrupt.
    pub fn clear_interrupt(&mut self, interrupt: Interrupt)
        requires
            old(self).wf(),
        ensures
            final(self).requested == old(self).requested & !interrupt.mask(),
            final(self).enabled == old(self).enabled,
            final(self).wf(),
    {
        let m = interrupt.bit_mask();
        let r = self.requested;
        self.requested = r & !m;
        assert((r & !m) & 0xE0 == 0) by (bit_vector)
            requires
                r & 0xE0 == 0,
        ;
    }

    /// Returns IF as read by the CPU: the upper three bits read as set.
    pub fn requested_bitfield(&self) -> (r: u8)
        ensures
            r == self.requested | 0xE0,
    {
        self.requested | 0xE0
    }

    /// Returns the pending interrupts.
    pub fn pending_bitfield(&self) -> (r: u8)
        ensures
            r == self.pending(),
    {
        let r = self.enabled & (self.requested | 0xE0) & 0x1F;
        let (e, q) = (self.enabled, self.requested);
        assert(e & (q | 0xE0) & 0x1F == e & q & 0x1F) by (bit_vector);
        r
    }

    /// Returns the interrupt of highest priority in the low five bits of a bitfield.
    ///
    /// The chosen interrupt's bit is set, and no bit of lower index is:
    /// the lowest set bit wins.
    pub fn next_interrupt_from_bitfield(bitfield: u8) -> (r: Option<Interrupt>)
        ensures
            r == first_interrupt(bitfield),
            r is None <==> bitfield & 0x1F == 0,
            r matches Some(i) ==> bit_set(bitfield, i.index()) && forall|j: nat|
                j < i.index() ==> !bit_set(bitfield, j),
    {
        proof {
            lemma_first_interrupt(bitfield);
        }
        if bitfield & 0x01 != 0 {
            Some(Interrupt::VBlank)
        } else if bitfield & 0x02 != 0 {
            Some(Interrupt::Lcd)
        } else if bitfield & 0x04 != 0 {
            Some(Interrupt::Timer)
        } else if bitfield & 0x08 != 0 {
            Some(Interrupt::Serial)
        } else if bitfield & 0x10 != 0 {
            Some(Interrupt::Joypad)
        } else {
            None
        }
    }
}

/// The interrupt of highest priority in a bitfield is the one of its lowest
/// set bit among the low five; there is none exactly when those are all clear.
pub proof fn lemma_first_interrupt(b: u8)
    ensures
        first_interrupt(b) is None <==> b & 0x1F == 0,
        first_interrupt(b) matches Some(i) ==> bit_set(b, i.index()) && forall|j: nat|
            j < i.index() ==> !bit_set(b, j),
        b & 0x1F == 0 ==> forall|j: nat| j < 5 ==> !bit_set(b, j),
{
    assert(b & 0x01 != 0 <==> (b >> 0u8) & 1 == 1) by (bit_vector);
    assert(b & 0x02 != 0 <==> (b >> 1u8) & 1 == 1) by (bit_vector);
    assert(b & 0x04 != 0 <==> (b >> 2u8) & 1 == 1) by (bit_vector);
    assert(b & 0x08 != 0 <==> (b >> 3u8) & 1 == 1) by (bit_vector);
    assert(b & 0x10 != 0 <==> (b >> 4u8) & 1 == 1) by (bit_vector);
    assert(b & 0x1F == 0 <==> (b & 0x01 == 0 && b & 0x02 == 0 && b & 0x04 == 0 && b & 0x08 == 0
        && b & 0x10 == 0)) by (bit_vector);
    assert forall|j: nat| j < 5 && !bit_set(b, j) implies (j != 0 || b & 0x01 == 0) && (j != 1
        || b & 0x02 == 0) && (j != 2 || b & 0x04 == 0) && (j != 3 || b & 0x08 == 0) && (j != 4
        || b & 0x10 == 0) by {}
}

} // verus!
