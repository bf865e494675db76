//! Error types for the game engine. Every error carries a short message;
//! errors coming from outside collaborators (the configuration loader) are
//! converted to these variants at the boundary.

use vstd::prelude::*;

verus! {

/// Main error type for the game engine.
#[derive(Debug, Clone)]
pub enum GameError {
    InvalidGameState(String),
    InvalidCardOperation(String),
    InvalidJokerOperation(String),
    InvalidDeckOperation(String),
    InvalidBlindOperation(String),
    SerializationError(String),
    IoError(String),
    Generic(String),
}

impl GameError {
    /// The message carried by the error.
    pub fn message(&self) -> (r: &String)
        ensures
            r@ == self.spec_message(),
    {
        match self {
            GameError::InvalidGameState(m) => m,
            GameError::InvalidCardOperation(m) => m,
            GameError::InvalidJokerOperation(m) => m,
            GameError::InvalidDeckOperation(m) => m,
            GameError::InvalidBlindOperation(m) => m,
            GameError::SerializationError(m) => m,
            GameError::IoError(m) => m,
            GameError::Generic(m) => m,
        }
    }

    /// The message carried by the error, as a sequence of characters.
    pub open spec fn spec_message(self) -> Seq<char> {
        match self {
            GameError::InvalidGameState(m) => m@,
            GameError::InvalidCardOperation(m) => m@,
            GameError::InvalidJokerOperation(m) => m@,
            GameError::InvalidDeckOperation(m) => m@,
            GameError::InvalidBlindOperation(m) => m@,
            GameError::SerializationError(m) => m@,
            GameError::IoError(m) => m@,
            GameError::Generic(m) => m@,
        }
    }

    /// True of the variant for operations attempted in a state that does not
    /// allow them (empty selection, out-of-range index, full hand).
    pub open spec fn is_invalid_game_state(self) -> bool {
        self is InvalidGameState
    }
}

/// Result type alias for game operations.
pub type GameResult<T> = Result<T, GameError>;

} // verus!
