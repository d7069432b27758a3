//! The three ballistic inputs, as tags.
use vstd::prelude::*;

verus! {

/// One of the three ballistic inputs. As the graphed axis it is the free
/// variable; the other two are held at their current values.
#[derive(Clone, Copy, Debug, PartialEq, Eq, Structural)]
pub enum GraphVariable {
    RifleWeight,
    Velocity,
    ProjectileWeight,
}

impl GraphVariable {
    /// Human-readable name of the variable.
    pub fn label(&self) -> (r: &'static str)
        ensures
            *self == GraphVariable::RifleWeight ==> r@ == "Rifle Weight"@,
            *self == GraphVariable::Velocity ==> r@ == "Velocity"@,
            *self == GraphVariable::ProjectileWeight ==> r@ == "Projectile Weight"@,
    {
        match self {
            GraphVariable::RifleWeight => "Rifle Weight",
            GraphVariable::Velocity => "Velocity",
            GraphVariable::ProjectileWeight => "Projectile Weight",
        }
    }
}

} // verus!
