//! Potion metadata carried by potion item stacks.

use vstd::prelude::*;

verus! {

/// The effect a potion gives.
#[derive(Debug, Clone, Copy, PartialEq, Eq, Hash, Structural)]
pub enum PotionKind {
    Water,
    Awkward,
    Speed,
    Strength,
    Healing,
    Regeneration,
    FireResistance,
    NightVision,
    Poison,
    Weakness,
}

/// What a potion stack holds: its effect, strength, duration and whether it is thrown.
#[derive(Debug, Clone, Copy, PartialEq, Eq, Hash, Structural)]
pub struct PotionData {
    pub kind: PotionKind,
    pub level: u8,
    pub duration_seconds: u32,
    pub splash: bool,
}

impl PotionData {
    pub open spec fn spec_water() -> PotionData {
        PotionData { kind: PotionKind::Water, level: 0, duration_seconds: 0, splash: false }
    }

    /// A plain bottle of water: no effect, not thrown.
    pub fn water() -> (r: PotionData)
        ensures
            r == Self::spec_water(),
    {
        PotionData { kind: PotionKind::Water, level: 0, duration_seconds: 0, splash: false }
    }
}

} // verus!
