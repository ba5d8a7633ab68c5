use vstd::prelude::*;

verus! {

/// Bit mask of the carry flag C.
pub const CARRY: u8 = 0x01;

/// Bit mask of the zero flag Z.
pub const ZERO: u8 = 0x02;

/// Bit mask of the interrupt-disable flag I.
pub const IRQ_DISABLE: u8 = 0x04;

/// Bit mask of the decimal flag D (settable, but arithmetic ignores it).
pub const DECIMAL: u8 = 0x08;

/// Bit mask of the break flag B.
pub const BREAK: u8 = 0x10;

/// Bit mask of the unused flag U, which reads as 1 in every pushed copy of P.
pub const UNUSED: u8 = 0x20;

/// Bit mask of the overflow flag V.
pub const OVERFLOW: u8 = 0x40;

/// Bit mask of the negative flag N.
pub const NEGATIVE: u8 = 0x80;

/// `p` with the bits of `mask` set when `on`, cleared otherwise.
pub open spec fn with_flag(p: u8, mask: u8, on: bool) -> u8 {
    if on {
        p | mask
    } else {
        p & !mask
    }
}

/// Whether every bit of `mask` is set in `p`.
pub open spec fn has_flag(p: u8, mask: u8) -> bool {
    p & mask == mask
}

/// `p` with Z and N updated from the value `v`.
pub open spec fn with_nz(p: u8, v: u8) -> u8 {
    with_flag(with_flag(p, ZERO, v == 0), NEGATIVE, v >= 0x80)
}

/// The processor status register P. Every bit pattern is a valid status.
#[derive(Clone, Copy, Debug, PartialEq, Eq, Structural)]
pub struct Flags {
    pub bits: u8,
}

impl Flags {
    /// No flag set.
    pub fn none() -> (r: Flags)
        ensures
            r.bits == 0,
    {
        Flags { bits: 0 }
    }

    pub fn carry() -> (r: Flags)
        ensures
            r.bits == CARRY,
    {
        Flags { bits: CARRY }
    }

    pub fn zero() -> (r: Flags)
        ensures
            r.bits == ZERO,
    {
        Flags { bits: ZERO }
    }

    pub fn irq_disable() -> (r: Flags)
        ensures
            r.bits == IRQ_DISABLE,
    {
        Flags { bits: IRQ_DISABLE }
    }

    pub fn decimal() -> (r: Flags)
        ensures
            r.bits == DECIMAL,
    {
        Flags { bits: DECIMAL }
    }

    pub fn brk() -> (r: Flags)
        ensures
            r.bits == BREAK,
    {
        Flags { bits: BREAK }
    }

    pub fn unused() -> (r: Flags)
        ensures
            r.bits == UNUSED,
    {
        Flags { bits: UNUSED }
    }

    pub fn overflow() -> (r: Flags)
        ensures
            r.bits == OVERFLOW,
    {
        Flags { bits: OVERFLOW }
    }

    pub fn negative() -> (r: Flags)
        ensures
            r.bits == NEGATIVE,
    {
        Flags { bits: NEGATIVE }
    }

    /// The status whose bits are `bits`; all eight bits name a flag, so none is dropped.
    pub fn from_bits_truncate(bits: u8) -> (r: Flags)
        ensures
            r.bits == bits,
    {
        Flags { bits }
    }

    pub fn bits(&self) -> (r: u8)
        ensures
            r == self.bits,
    {
        self.bits
    }

    /// Whether every flag of `other` is set in `self`.
    pub fn contains(&self, other: Flags) -> (r: bool)
        ensures
            r == (self.bits & other.bits == other.bits),
    {
        self.bits & other.bits == other.bits
    }

    /// The flags set in either.
    pub fn union(self, other: Flags) -> (r: Flags)
        ensures
            r.bits == self.bits | other.bits,
    {
        Flags { bits: self.bits | other.bits }
    }

    /// Sets the flags of `other` when `value`, clears them otherwise.
    pub fn set(&mut self, other: Flags, value: bool)
        ensures
            final(self).bits == with_flag(old(self).bits, other.bits, value),
    {
        if value {
            self.bits = self.bits | other.bits;
        } else {
            self.bits = self.bits & !other.bits;
        }
    }

    pub fn insert(&mut self, other: Flags)
        ensures
            final(self).bits == old(self).bits | other.bits,
    {
        self.bits = self.bits | other.bits;
    }

    pub fn remove(&mut self, other: Flags)
        ensures
            final(self).bits == old(self).bits & !other.bits,
    {
        self.bits = self.bits & !other.bits;
    }
}

impl core::ops::BitOr for Flags {
    type Output = Flags;

    fn bitor(self, other: Flags) -> (r: Flags)
        ensures
            r.bits == self.bits | other.bits,
    {
        Flags { bits: self.bits | other.bits }
    }
}

impl vstd::std_specs::ops::BitOrSpecImpl for Flags {
    open spec fn obeys_bitor_spec() -> bool {
        true
    }

    open spec fn bitor_req(self, rhs: Flags) -> bool {
        true
    }

    open spec fn bitor_spec(self, rhs: Flags) -> Flags {
        Flags { bits: self.bits | rhs.bits }
    }
}

} // verus!
