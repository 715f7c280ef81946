use vstd::prelude::*;

verus! {

/// The recoverable errors the engine can report: querying player data while
/// the match is over, and playing an action card where a philosopher card is
/// required. Both abort only the current operation, never the match.
#[derive(Clone, Copy, Debug, PartialEq, Eq, Structural)]
pub enum GameError {
    InvalidPhase,
    WrongCardKind,
}

} // verus!
