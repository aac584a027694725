use vstd::prelude::*;
use crate::identity::Identity;

verus! {

/// A seat was taken.
#[derive(Debug, Clone, Copy, PartialEq, Eq)]
pub struct PlayerJoined {
    pub table_id: u64,
    /// The identity that now occupies the seat.
    pub burner: Identity,
    /// Where a payout for the seat goes.
    pub beneficiary: Identity,
    pub seat_index: u8,
}

/// All three seats are taken and bidding begins.
#[derive(Debug, Clone, Copy, PartialEq, Eq, Structural)]
pub struct GameStarted {
    pub table_id: u64,
}

/// Bidding is over: the landlord is known and the hole cards are shown.
#[derive(Debug, Clone, Copy, PartialEq, Eq)]
pub struct LandlordElected {
    pub table_id: u64,
    pub landlord_index: u8,
    pub hole_cards: [u8; 3],
}

/// A seat played cards.
#[derive(Debug, Clone, PartialEq, Eq)]
pub struct PlayerPlayed {
    pub table_id: u64,
    pub player_index: u8,
    pub cards: Vec<u8>,
}

/// The game was settled.
#[derive(Debug, Clone, Copy, PartialEq, Eq)]
pub struct GameEnded {
    pub table_id: u64,
    pub winner_index: u8,
    pub winner_burner: Identity,
    pub winner_beneficiary: Identity,
    /// What the winner's beneficiary receives.
    pub win_amount: u64,
    /// What the protocol keeps.
    pub protocol_fee: u64,
    /// Whether the winning seat is the landlord's.
    pub is_landlord_win: bool,
}

} // verus!
