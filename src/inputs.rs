//! The three ballistic inputs held by the calculator.
use vstd::prelude::*;

use crate::ratio::Ratio;

verus! {

/// Projectile weight in grains, muzzle velocity in fps, rifle weight in lbs.
#[derive(Clone, Copy, Debug)]
pub struct BallisticInputs {
    pub projectile_weight: Ratio,
    pub muzzle_velocity: Ratio,
    pub rifle_weight: Ratio,
}

/// Range of the projectile weight, in grains.
pub const PROJECTILE_MIN: u128 = 50;
pub const PROJECTILE_MAX: u128 = 500;

/// Range of the muzzle velocity, in fps.
pub const VELOCITY_MIN: u128 = 500;
pub const VELOCITY_MAX: u128 = 5000;

/// Range of the rifle weight, in lbs.
pub const RIFLE_MIN: u128 = 5;
pub const RIFLE_MAX: u128 = 50;

impl BallisticInputs {
    /// Each input lies in its range.
    pub open spec fn wf(self) -> bool {
        &&& self.projectile_weight.within(PROJECTILE_MIN as int, PROJECTILE_MAX as int)
        &&& self.muzzle_velocity.within(VELOCITY_MIN as int, VELOCITY_MAX as int)
        &&& self.rifle_weight.within(RIFLE_MIN as int, RIFLE_MAX as int)
    }

    /// Start-up values: 168 gr, 2650 fps, 12 lbs.
    pub fn new() -> (r: BallisticInputs)
        ensures
            r.wf(),
            r.projectile_weight@ == (168int, 1int),
            r.muzzle_velocity@ == (2650int, 1int),
            r.rifle_weight@ == (12int, 1int),
    {
        BallisticInputs {
            projectile_weight: Ratio::whole(168),
            muzzle_velocity: Ratio::whole(2650),
            rifle_weight: Ratio::whole(12),
        }
    }
}

} // verus!
