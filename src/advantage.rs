use vstd::prelude::*;

verus! {

/// The type-advantage table: `type_modifier[a][d]` is the damage multiplier
/// of an attacker of element `a` against a defender of element `d`, in
/// hundredths (150 stands for 1.5, 50 for 0.5). Integer multipliers keep
/// both peers' results bit-identical on every platform.
#[derive(Clone, Copy, Debug)]
pub struct TypeSystem {
    pub type_modifier: [[u16; 8]; 8],
}

/// Denominator of the multipliers in a [`TypeSystem`].
pub const MODIFIER_SCALE: u16 = 100;

impl TypeSystem {
    /// The multiplier, in hundredths, of attacker element `a` against
    /// defender element `d`.
    pub open spec fn modifier(self, a: int, d: int) -> u16 {
        self.type_modifier@[a]@[d]
    }

    /// Looks up the multiplier of attacker element `a` against defender
    /// element `d`.
    pub fn modifier_of(&self, a: u8, d: u8) -> (r: u16)
        requires
            a < 8,
            d < 8,
        ensures
            r == self.modifier(a as int, d as int),
    {
        self.type_modifier[a as usize][d as usize]
    }
}

/// `x` multiplied by the multiplier `m` (in hundredths), truncated toward zero.
pub open spec fn apply_modifier(m: u16, x: int) -> int {
    (m as int * x) / (MODIFIER_SCALE as int)
}

} // verus!
