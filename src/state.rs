//! The playback state that the worker publishes and callers poll.

use vstd::prelude::*;

verus! {

/// What the player is doing, as published to callers.
#[derive(Debug, Clone, Copy, PartialEq, Eq, Structural, Hash)]
pub enum State {
    Playing,
    Paused,
    Stopped,
}

impl State {
    /// The byte that stands for the state in the published cell.
    pub open spec fn code(self) -> u8 {
        match self {
            State::Playing => 0,
            State::Paused => 1,
            State::Stopped => 2,
        }
    }

    /// Encodes the state for the published cell.
    pub fn to_u8(self) -> (r: u8)
        ensures
            r == self.code(),
    {
        match self {
            State::Playing => 0,
            State::Paused => 1,
            State::Stopped => 2,
        }
    }

    /// Decodes a published byte; only the three codes of `to_u8` are states.
    pub fn from_u8(v: u8) -> (r: Option<State>)
        ensures
            r.is_some() <==> v < 3,
            r matches Some(s) ==> s.code() == v,
    {
        match v {
            0 => Some(State::Playing),
            1 => Some(State::Paused),
            2 => Some(State::Stopped),
            _ => None,
        }
    }
}

} // verus!
