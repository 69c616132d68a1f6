use vstd::prelude::*;

verus! {

/// Bit of the carry (borrow, collision) condition in the packed form.
pub const CARRY: u8 = 0b0000_0010;

/// Bit of the zero condition in the packed form.
pub const ZERO: u8 = 0b0000_0100;

/// Bit of the overflow condition in the packed form.
pub const OVERFLOW: u8 = 0b0100_0000;

/// Bit of the negative condition in the packed form.
pub const NEGATIVE: u8 = 0b1000_0000;

/// Every bit that a packed flag set may hold.
pub const ALL: u8 = 0b1100_0110;

/// One of the four condition bits.
#[derive(Clone, Copy, Debug, PartialEq, Eq, Structural)]
pub enum Flag {
    Carry,
    Zero,
    Overflow,
    Negative,
}

/// The four condition bits of the processor.
#[derive(Clone, Copy, Debug, PartialEq, Eq, Structural)]
pub struct Flags {
    pub carry: bool,
    pub zero: bool,
    pub overflow: bool,
    pub negative: bool,
}

impl Flag {
    /// The bit that stands for this condition in the packed form.
    pub open spec fn mask_spec(self) -> u8 {
        match self {
            Flag::Carry => CARRY,
            Flag::Zero => ZERO,
            Flag::Overflow => OVERFLOW,
            Flag::Negative => NEGATIVE,
        }
    }

    /// The bit that stands for this condition in the packed form.
    #[verifier::when_used_as_spec(mask_spec)]
    pub fn mask(self) -> (m: u8)
        ensures
            m == self.mask_spec(),
    {
        match self {
            Flag::Carry => CARRY,
            Flag::Zero => ZERO,
            Flag::Overflow => OVERFLOW,
            Flag::Negative => NEGATIVE,
        }
    }
}

impl Flags {
    /// The set with no condition raised.
    pub open spec fn clear_spec() -> Flags {
        Flags { carry: false, zero: false, overflow: false, negative: false }
    }

    /// Whether `flag` is raised.
    pub open spec fn has(self, flag: Flag) -> bool {
        match flag {
            Flag::Carry => self.carry,
            Flag::Zero => self.zero,
            Flag::Overflow => self.overflow,
            Flag::Negative => self.negative,
        }
    }

    /// This set with `flag` raised (`on`) or lowered, the other three kept.
    pub open spec fn with(self, flag: Flag, on: bool) -> Flags {
        match flag {
            Flag::Carry => Flags { carry: on, ..self },
            Flag::Zero => Flags { zero: on, ..self },
            Flag::Overflow => Flags { overflow: on, ..self },
            Flag::Negative => Flags { negative: on, ..self },
        }
    }

    /// The packed form: the sum of the bits of the raised conditions.
    pub open spec fn bits_spec(self) -> u8 {
        ((if self.carry { CARRY as int } else { 0 })
            + (if self.zero { ZERO as int } else { 0 })
            + (if self.overflow { OVERFLOW as int } else { 0 })
            + (if self.negative { NEGATIVE as int } else { 0 })) as u8
    }

    /// The set with no condition raised.
    #[verifier::when_used_as_spec(clear_spec)]
    pub fn clear() -> (f: Flags)
        ensures
            f == Flags::clear_spec(),
    {
        Flags { carry: false, zero: false, overflow: false, negative: false }
    }

    /// Whether `flag` is raised.
    pub fn contains(&self, flag: Flag) -> (b: bool)
        ensures
            b == self.has(flag),
    {
        match flag {
            Flag::Carry => self.carry,
            Flag::Zero => self.zero,
            Flag::Overflow => self.overflow,
            Flag::Negative => self.negative,
        }
    }

    /// Raises `flag` and keeps the other three.
    pub fn insert(&mut self, flag: Flag)
        ensures
            *final(self) == old(self).with(flag, true),
    {
        self.set(flag, true);
    }

    /// Lowers `flag` and keeps the other three.
    pub fn remove(&mut self, flag: Flag)
        ensures
            *final(self) == old(self).with(flag, false),
    {
        self.set(flag, false);
    }

    /// Raises `flag` when `on` holds, lowers it otherwise, and keeps the
    /// other three.
    pub fn set(&mut self, flag: Flag, on: bool)
        ensures
            *final(self) == old(self).with(flag, on),
    {
        match flag {
            Flag::Carry => {
                self.carry = on;
            },
            Flag::Zero => {
                self.zero = on;
            },
            Flag::Overflow => {
                self.overflow = on;
            },
            Flag::Negative => {
                self.negative = on;
            },
        }
    }

    /// The packed form of this set.
    #[verifier::when_used_as_spec(bits_spec)]
    pub fn bits(self) -> (b: u8)
        ensures
            b == self.bits_spec(),
            b & !ALL == 0,
    {
        let c: u8 = if self.carry { CARRY } else { 0 };
        let z: u8 = if self.zero { ZERO } else { 0 };
        let o: u8 = if self.overflow { OVERFLOW } else { 0 };
        let n: u8 = if self.negative { NEGATIVE } else { 0 };
        assert((c | z | o | n) == c + z + o + n && (c | z | o | n) & !0b1100_0110u8 == 0) by (bit_vector)
            requires
                c == 0 || c == 0b0000_0010u8,
                z == 0 || z == 0b0000_0100u8,
                o == 0 || o == 0b0100_0000u8,
                n == 0 || n == 0b1000_0000u8,
        ;
        c | z | o | n
    }

    /// Reads a packed form back: `None` when `bits` holds a bit that stands
    /// for no condition, otherwise the set whose packed form is `bits`.
    pub fn from_bits(bits: u8) -> (r: Option<Flags>)
        ensures
            r is None <==> bits & !ALL != 0,
            r matches Some(f) ==> f.bits_spec() == bits,
    {
        if bits & !ALL != 0 {
            None
        } else {
            let f = Flags {
                carry: bits & CARRY != 0,
                zero: bits & ZERO != 0,
                overflow: bits & OVERFLOW != 0,
                negative: bits & NEGATIVE != 0,
            };
            assert((if bits & 0b10u8 != 0 { 2int } else { 0 })
                + (if bits & 0b100u8 != 0 { 4int } else { 0 })
                + (if bits & 0b0100_0000u8 != 0 { 64int } else { 0 })
                + (if bits & 0b1000_0000u8 != 0 { 128int } else { 0 }) == bits) by (bit_vector)
                requires
                    bits & !0b1100_0110u8 == 0,
            ;
            Some(f)
        }
    }
}

/// Packing is injective: two sets with the same packed form are the same
/// set.
pub proof fn lemma_bits_injective(a: Flags, b: Flags)
    requires
        a.bits_spec() == b.bits_spec(),
    ensures
        a == b,
{
}

} // verus!
