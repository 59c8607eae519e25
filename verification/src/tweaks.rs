//! The switch that says whether the host should tune its physics engine for the controller.

use vstd::prelude::*;

verus! {

/// Whether the host should adjust the physics engine's solver settings so that the controller
/// behaves well. A host that finds no such value behaves as if it held `true`.
pub struct WanderlustPhysicsTweaks(pub bool);

impl WanderlustPhysicsTweaks {
    /// A switch that asks for the tweaks exactly when `do_tweaks` is set.
    pub fn new(do_tweaks: bool) -> (tweaks: Self)
        ensures
            tweaks.0 == do_tweaks,
    {
        WanderlustPhysicsTweaks(do_tweaks)
    }

    /// Whether the tweaks are asked for.
    pub fn should_do_tweaks(&self) -> (wanted: bool)
        ensures
            wanted == self.0,
    {
        self.0
    }
}

} // verus!
