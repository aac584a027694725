use vstd::prelude::*;

verus! {

/// Why an action on a table was rejected. A rejected action leaves the
/// table as it was.
#[derive(Debug, Clone, Copy, PartialEq, Eq, Structural)]
pub enum ErrorCode {
    NotBiddingPhase,
    NotYourTurn,
    NotPlaying,
    InvalidWinner,
    PlayerNotFound,
}

/// The coarse class of a rejection.
#[derive(Debug, Clone, Copy, PartialEq, Eq, Structural)]
pub enum ErrorKind {
    /// The action is not allowed in the table's current phase.
    PhaseViolation,
    /// The acting seat does not hold the turn.
    TurnViolation,
    /// The acting identity holds no seat.
    IdentityViolation,
    /// An argument is out of range.
    ArgumentViolation,
}

pub open spec fn kind_of(e: ErrorCode) -> ErrorKind {
    match e {
        ErrorCode::NotBiddingPhase => ErrorKind::PhaseViolation,
        ErrorCode::NotPlaying => ErrorKind::PhaseViolation,
        ErrorCode::NotYourTurn => ErrorKind::TurnViolation,
        ErrorCode::PlayerNotFound => ErrorKind::IdentityViolation,
        ErrorCode::InvalidWinner => ErrorKind::ArgumentViolation,
    }
}

impl ErrorCode {
    pub fn kind(&self) -> (r: ErrorKind)
        ensures
            r == kind_of(*self),
    {
        match self {
            ErrorCode::NotBiddingPhase => ErrorKind::PhaseViolation,
            ErrorCode::NotPlaying => ErrorKind::PhaseViolation,
            ErrorCode::NotYourTurn => ErrorKind::TurnViolation,
            ErrorCode::PlayerNotFound => ErrorKind::IdentityViolation,
            ErrorCode::InvalidWinner => ErrorKind::ArgumentViolation,
        }
    }
}

} // verus!
