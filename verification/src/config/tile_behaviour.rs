//! Behaviour codes of the 48 tiles (`behs[]`).

use vstd::prelude::*;

verus! {

/// Behaviour codes of the 48 tiles (`behs[]`).
#[derive(Clone, Debug)]
pub struct TileBehaviourConfig {
    pub behs: Vec<u8>,
}

impl TileBehaviourConfig {
    /// The settings of a new project.
    pub open spec fn is_default(&self) -> bool {
        &&& self.behs@ == seq![0u8, 8, 8, 0, 1, 8, 0, 1, 1, 1, 1, 8, 8, 8, 8, 10, 0, 0, 0, 8, 8, 8, 24, 24, 8, 8, 8, 8, 8, 8, 8, 8, 0, 0, 0, 0, 0, 0, 0, 0, 0, 0, 0, 0, 0, 0, 0, 0,]
    }
}

impl Default for TileBehaviourConfig {
    fn default() -> (r: TileBehaviourConfig)
        ensures
            r.is_default(),
    {
        let behs: Vec<u8> = vec![0, 8, 8, 0, 1, 8, 0, 1, 1, 1, 1, 8, 8, 8, 8, 10, 0, 0, 0, 8, 8, 8, 24, 24, 8, 8, 8, 8, 8, 8, 8, 8, 0, 0, 0, 0, 0, 0, 0, 0, 0, 0, 0, 0, 0, 0, 0, 0,];
        assert(behs@ =~= seq![0u8, 8, 8, 0, 1, 8, 0, 1, 1, 1, 1, 8, 8, 8, 8, 10, 0, 0, 0, 8, 8, 8, 24, 24, 8, 8, 8, 8, 8, 8, 8, 8, 0, 0, 0, 0, 0, 0, 0, 0, 0, 0, 0, 0, 0, 0, 0, 0,]);
        TileBehaviourConfig {
            behs,
        }
    }
}

} // verus!
