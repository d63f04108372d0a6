use vstd::prelude::*;

verus! {

/// A player's mark.
#[derive(Debug, Clone, Copy, PartialEq, Eq, Structural)]
pub enum PlayerSymbol {
    X,
    O,
}

/// A participant of a session, identified by the mark it places.
pub struct Player {
    pub symbol: PlayerSymbol,
}

} // verus!
