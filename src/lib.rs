//! A three-seat "landlord" card game engine: seating and wager pooling, a
//! bidding round that elects the landlord, turn-ordered play, and a
//! settlement that splits the pot between a protocol fee and the winner.

pub mod cards;
pub mod error;
pub mod events;
pub mod identity;
pub mod laws;
pub mod registry;
pub mod settlement;
pub mod table;

pub use cards::{deal_hole_cards, DECK_SIZE};
pub use error::{ErrorCode, ErrorKind};
pub use events::{GameEnded, GameStarted, LandlordElected, PlayerJoined, PlayerPlayed};
pub use identity::Identity;
pub use laws::{
    lemma_bidding_lap, lemma_ended_is_terminal, lemma_joins_fill_in_order, lemma_phase_monotonic, lemma_settles_once,
    lemma_split_conserves_pot, lemma_turn_holder_may_act, lemma_turn_order, lemma_winner_in_range,
};
pub use registry::{initialize, GameState};
pub use settlement::{split_pot, Settlement};
pub use table::{GamePhase, Table};
