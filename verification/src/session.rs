use vstd::prelude::*;

verus! {

/// A champion-select phase in progress.
#[derive(Clone, Copy, Debug, PartialEq, Eq, Structural)]
pub struct ChampSelectSession {
    /// The identifier of the game that the phase belongs to.
    pub game_id: u64,
}

} // verus!
