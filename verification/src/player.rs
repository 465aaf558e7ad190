//! Finding the one car that the keys drive.

use vstd::prelude::*;

verus! {

/// Why no car could be picked to drive.
#[derive(Clone, Copy, Debug, PartialEq, Eq, Structural)]
pub enum PlayerError {
    /// Nothing in the scene is marked as the player.
    NoPlayer,
    /// More than one thing in the scene is marked as the player.
    MultiplePlayers,
}

impl PlayerError {
    /// A short description of the error.
    pub fn message(&self) -> (text: &'static str)
        ensures
            *self == PlayerError::NoPlayer ==> text@ == "no player entity"@,
            *self == PlayerError::MultiplePlayers ==> text@ == "multiple player entities"@,
    {
        match self {
            PlayerError::NoPlayer => "no player entity",
            PlayerError::MultiplePlayers => "multiple player entities",
        }
    }
}

/// Picks the player from the entities that are marked as one: there must be
/// exactly one.
pub fn single_player<T>(matches: Vec<T>) -> (found: Result<T, PlayerError>)
    ensures
        matches@.len() == 1 <==> found is Ok,
        found is Ok ==> found->Ok_0 == matches@[0],
        matches@.len() == 0 <==> found is Err && found->Err_0 == PlayerError::NoPlayer,
        matches@.len() > 1 <==> found is Err && found->Err_0 == PlayerError::MultiplePlayers,
{
    let mut rest = matches;
    if rest.len() > 1 {
        return Err(PlayerError::MultiplePlayers);
    }
    match rest.pop() {
        Some(player) => Ok(player),
        None => Err(PlayerError::NoPlayer),
    }
}

} // verus!
