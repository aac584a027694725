use vstd::prelude::*;
use crate::cards::{deal_hole_cards, dealt};
use crate::error::ErrorCode;
use crate::events::{GameEnded, GameStarted, LandlordElected, PlayerJoined, PlayerPlayed};
use crate::identity::Identity;
use crate::settlement::{fee_of, reward_of, split_pot};

verus! {

/// The coarse state of a table. Phases only move forward:
/// Waiting, Bidding, Playing, Ended.
#[derive(Debug, Clone, Copy, PartialEq, Eq, Structural)]
pub enum GamePhase {
    Waiting,
    Bidding,
    Playing,
    Ended,
}

impl GamePhase {
    /// The position of the phase in the order in which a table goes through them.
    pub open spec fn rank(self) -> int {
        match self {
            GamePhase::Waiting => 0,
            GamePhase::Bidding => 1,
            GamePhase::Playing => 2,
            GamePhase::Ended => 3,
        }
    }
}

/// Whether a seat is occupied by `who`.
pub open spec fn held_by(seat: Option<Identity>, who: Identity) -> bool {
    seat matches Some(id) && id@ == who@
}

/// The lowest seat that `who` occupies, if any.
pub open spec fn first_seat_of(seats: [Option<Identity>; 3], who: Identity) -> Option<u8> {
    if held_by(seats[0], who) {
        Some(0u8)
    } else if held_by(seats[1], who) {
        Some(1u8)
    } else if held_by(seats[2], who) {
        Some(2u8)
    } else {
        None
    }
}

/// The lowest empty seat; the last seat when none is empty.
pub open spec fn first_empty_seat(seats: [Option<Identity>; 3]) -> u8 {
    if seats[0] is None {
        0
    } else if seats[1] is None {
        1
    } else {
        2
    }
}

/// The seat that acts after seat `i`.
pub open spec fn next_seat(i: u8) -> u8 {
    ((i + 1) % 3) as u8
}

/// One game: its seats, pot, phase, turn cursor, bidding result and last play.
#[derive(Debug, Clone)]
pub struct Table {
    pub id: u64,
    pub phase: GamePhase,
    /// Who sits in each seat.
    pub seats: [Option<Identity>; 3],
    /// Where the payout of each seat goes.
    pub beneficiaries: [Option<Identity>; 3],
    /// The three face-down cards, dealt when bidding starts.
    pub hole_cards: [u8; 3],
    /// The seat whose action is valid now.
    pub current_turn: u8,
    pub landlord_index: u8,
    /// The last nonzero bid.
    pub highest_bid: u8,
    /// The cards of the most recent play.
    pub last_hand_cards: Vec<u8>,
    /// The seat that made the most recent play.
    pub last_hand_player_index: u8,
    /// The sum of the wagers of the seated players.
    pub pot: u64,
}

impl Table {
    /// The table's invariant.
    pub open spec fn wf(&self) -> bool {
        &&& self.current_turn < 3
        &&& self.landlord_index < 3
        &&& self.last_hand_player_index < 3
        // seats fill from the lowest index up
        &&& (self.seats[1] is Some ==> self.seats[0] is Some)
        &&& (self.seats[2] is Some ==> self.seats[1] is Some)
        &&& (self.seats[0] is Some <==> self.beneficiaries[0] is Some)
        &&& (self.seats[1] is Some <==> self.beneficiaries[1] is Some)
        &&& (self.seats[2] is Some <==> self.beneficiaries[2] is Some)
        // the table waits exactly as long as a seat is free
        &&& (self.phase == GamePhase::Waiting <==> self.seats[2] is None)
        &&& (self.phase == GamePhase::Waiting ==> self.current_turn == 0 && self.landlord_index == 0
            && self.highest_bid == 0)
        &&& (self.phase == GamePhase::Bidding ==> (self.highest_bid == 0 ==> self.landlord_index
            == 0))
        &&& (self.phase == GamePhase::Bidding && self.current_turn == 0 ==> self.highest_bid == 0)
    }

    /// A table with this id that nobody has joined yet.
    pub open spec fn is_fresh(&self, id: u64) -> bool {
        &&& self.id == id
        &&& self.phase == GamePhase::Waiting
        &&& self.seats[0] is None && self.seats[1] is None && self.seats[2] is None
        &&& self.beneficiaries[0] is None && self.beneficiaries[1] is None
            && self.beneficiaries[2] is None
        &&& self.hole_cards@ == seq![0u8, 0u8, 0u8]
        &&& self.current_turn == 0
        &&& self.landlord_index == 0
        &&& self.highest_bid == 0
        &&& self.last_hand_cards@.len() == 0
        &&& self.last_hand_player_index == 0
        &&& self.pot == 0
    }

    /// The table after `joiner` takes the lowest empty seat with a wager;
    /// bidding starts when that was the last seat.
    pub open spec fn after_join(self, joiner: Identity, beneficiary: Identity, wager: u64, seed: u64) -> Table {
        let k = first_empty_seat(self.seats) as int;
        let seated = Table {
            seats: vstd::array::spec_array_update(self.seats, k, Some(joiner)),
            beneficiaries: vstd::array::spec_array_update(self.beneficiaries, k, Some(beneficiary)),
            pot: (self.pot + wager) as u64,
            ..self
        };
        if k == 2 {
            seated.after_start(seed)
        } else {
            seated
        }
    }

    /// The table as bidding starts: hole cards dealt, seat 0 to act.
    pub open spec fn after_start(self, seed: u64) -> Table {
        Table { phase: GamePhase::Bidding, hole_cards: dealt(seed), current_turn: 0, ..self }
    }

    /// Why a bid by `who` is rejected, if it is.
    pub open spec fn bid_rejection(self, who: Identity) -> Option<ErrorCode> {
        if self.phase != GamePhase::Bidding {
            Some(ErrorCode::NotBiddingPhase)
        } else {
            match first_seat_of(self.seats, who) {
                None => Some(ErrorCode::PlayerNotFound),
                Some(i) => if i != self.current_turn {
                    Some(ErrorCode::NotYourTurn)
                } else {
                    None
                },
            }
        }
    }

    /// The table after the seat at the turn bids `score`. A nonzero score
    /// makes that seat the landlord candidate whatever was bid before; when
    /// the turn comes back to seat 0 the landlord is elected (seat 0 if
    /// nobody bid) and play starts with the landlord.
    pub open spec fn after_bid(self, score: u8) -> Table {
        let seat = self.current_turn;
        let highest_bid = if score > 0 { score } else { self.highest_bid };
        let candidate = if score > 0 { seat } else { self.landlord_index };
        let next = next_seat(seat);
        if next == 0 {
            let landlord = if highest_bid == 0 { 0u8 } else { candidate };
            Table {
                highest_bid,
                landlord_index: landlord,
                phase: GamePhase::Playing,
                current_turn: landlord,
                ..self
            }
        } else {
            Table { highest_bid, landlord_index: candidate, current_turn: next, ..self }
        }
    }

    /// The notice of the landlord's election, when the table has just entered play.
    pub open spec fn election(self) -> Option<LandlordElected> {
        if self.phase == GamePhase::Playing {
            Some(
                LandlordElected {
                    table_id: self.id,
                    landlord_index: self.landlord_index,
                    hole_cards: self.hole_cards,
                },
            )
        } else {
            None
        }
    }

    /// Why a play by `who` is rejected, if it is.
    pub open spec fn play_rejection(self, who: Identity) -> Option<ErrorCode> {
        if self.phase != GamePhase::Playing {
            Some(ErrorCode::NotPlaying)
        } else {
            match first_seat_of(self.seats, who) {
                None => Some(ErrorCode::PlayerNotFound),
                Some(i) => if i != self.current_turn {
                    Some(ErrorCode::NotYourTurn)
                } else {
                    None
                },
            }
        }
    }

    /// The table after the seat at the turn plays `cards`.
    pub open spec fn after_play(self, cards: Vec<u8>) -> Table {
        Table {
            last_hand_cards: cards,
            last_hand_player_index: self.current_turn,
            current_turn: next_seat(self.current_turn),
            ..self
        }
    }

    /// Why settling with `winner_index` is rejected, if it is.
    pub open spec fn end_rejection(self, winner_index: u8) -> Option<ErrorCode> {
        if winner_index >= 3 {
            Some(ErrorCode::InvalidWinner)
        } else if self.phase != GamePhase::Playing {
            Some(ErrorCode::NotPlaying)
        } else {
            None
        }
    }

    /// The settled table.
    pub open spec fn after_end(self) -> Table {
        Table { phase: GamePhase::Ended, ..self }
    }

    /// The notice of settlement with seat `winner_index` as the winner.
    pub open spec fn settlement(self, winner_index: u8) -> GameEnded {
        GameEnded {
            table_id: self.id,
            winner_index,
            winner_burner: self.seats[winner_index as int]->0,
            winner_beneficiary: self.beneficiaries[winner_index as int]->0,
            win_amount: reward_of(self.pot as int) as u64,
            protocol_fee: fee_of(self.pot as int) as u64,
            is_landlord_win: winner_index == self.landlord_index,
        }
    }
}

impl Table {
    /// A table with this id, before anyone joins.
    pub fn new(id: u64) -> (t: Table)
        ensures
            t.is_fresh(id),
            t.wf(),
    {
        let t = Table {
            id,
            phase: GamePhase::Waiting,
            seats: [None, None, None],
            beneficiaries: [None, None, None],
            hole_cards: [0, 0, 0],
            current_turn: 0,
            landlord_index: 0,
            highest_bid: 0,
            last_hand_cards: Vec::new(),
            last_hand_player_index: 0,
            pot: 0,
        };
        assert(t.hole_cards@ =~= seq![0u8, 0u8, 0u8]);
        t
    }

    /// The lowest seat that `player` occupies.
    pub fn get_player_index(&self, player: &Identity) -> (r: Result<u8, ErrorCode>)
        ensures
            r == (match first_seat_of(self.seats, *player) {
                Some(i) => Ok::<u8, ErrorCode>(i),
                None => Err(ErrorCode::PlayerNotFound),
            }),
    {
        let mut i: usize = 0;
        while i < 3
            invariant
                0 <= i <= 3,
                forall|j: int| 0 <= j < i ==> !held_by(#[trigger] self.seats[j], *player),
            decreases 3 - i,
        {
            match &self.seats[i] {
                Some(id) => {
                    if *id == *player {
                        return Ok(i as u8);
                    }
                },
                None => {},
            }
            i = i + 1;
        }
        Err(ErrorCode::PlayerNotFound)
    }

    /// The lowest empty seat; the last seat when none is empty.
    fn first_empty(&self) -> (r: usize)
        ensures
            r == first_empty_seat(self.seats),
    {
        if self.seats[0].is_none() {
            0
        } else if self.seats[1].is_none() {
            1
        } else {
            2
        }
    }

    /// Seats `joiner` at the lowest empty seat, records where its payout
    /// goes and adds its wager to the pot. When that fills the table,
    /// bidding starts, with hole cards dealt from `seed`.
    pub fn join_game(&mut self, joiner: Identity, beneficiary: Identity, wager: u64, seed: u64) -> (r: (PlayerJoined, Option<GameStarted>))
        requires
            old(self).wf(),
            old(self).phase == GamePhase::Waiting,
            old(self).pot + wager <= u64::MAX,
        ensures
            final(self).wf(),
            *final(self) == old(self).after_join(joiner, beneficiary, wager, seed),
            r.0 == (PlayerJoined {
                table_id: old(self).id,
                burner: joiner,
                beneficiary,
                seat_index: first_empty_seat(old(self).seats),
            }),
            r.1 == (if first_empty_seat(old(self).seats) == 2 {
                Some(GameStarted { table_id: old(self).id })
            } else {
                None
            }),
    {
        let seat_index = self.first_empty();
        self.seats[seat_index] = Some(joiner);
        self.beneficiaries[seat_index] = Some(beneficiary);
        self.pot = self.pot + wager;
        let joined = PlayerJoined {
            table_id: self.id,
            burner: joiner,
            beneficiary,
            seat_index: seat_index as u8,
        };
        if self.seats[0].is_some() && self.seats[1].is_some() && self.seats[2].is_some() {
            let started = self.start_game(seed);
            (joined, Some(started))
        } else {
            (joined, None)
        }
    }

    /// Opens bidding: deals the hole cards and gives the turn to seat 0.
    fn start_game(&mut self, seed: u64) -> (r: GameStarted)
        ensures
            *final(self) == old(self).after_start(seed),
            r == (GameStarted { table_id: old(self).id }),
    {
        self.phase = GamePhase::Bidding;
        self.hole_cards = deal_hole_cards(seed);
        self.current_turn = 0;
        GameStarted { table_id: self.id }
    }

    /// A bid by `player`; a score of 0 passes. When the turn comes back to
    /// seat 0 the landlord is elected and play starts.
    pub fn bid(&mut self, player: &Identity, score: u8) -> (r: Result<Option<LandlordElected>, ErrorCode>)
        requires
            old(self).wf(),
        ensures
            final(self).wf(),
            match old(self).bid_rejection(*player) {
                Some(e) => r == Err::<Option<LandlordElected>, ErrorCode>(e) && *final(self)
                    == *old(self),
                None => *final(self) == old(self).after_bid(score) && r == Ok::<
                    Option<LandlordElected>,
                    ErrorCode,
                >(final(self).election()),
            },
    {
        if self.phase != GamePhase::Bidding {
            return Err(ErrorCode::NotBiddingPhase);
        }
        let player_index = match self.get_player_index(player) {
            Ok(i) => i,
            Err(e) => return Err(e),
        };
        if player_index != self.current_turn {
            return Err(ErrorCode::NotYourTurn);
        }
        if score > 0 {
            self.highest_bid = score;
            self.landlord_index = player_index;
        }
        self.current_turn = (self.current_turn + 1) % 3;
        if self.current_turn == 0 {
            if self.highest_bid == 0 {
                self.landlord_index = 0;
            }
            let elected = self.finalize_landlord();
            return Ok(Some(elected));
        }
        Ok(None)
    }

    /// Closes bidding: play starts with the landlord.
    fn finalize_landlord(&mut self) -> (r: LandlordElected)
        ensures
            *final(self) == (Table {
                phase: GamePhase::Playing,
                current_turn: old(self).landlord_index,
                ..*old(self)
            }),
            r == (LandlordElected {
                table_id: old(self).id,
                landlord_index: old(self).landlord_index,
                hole_cards: old(self).hole_cards,
            }),
    {
        self.phase = GamePhase::Playing;
        self.current_turn = self.landlord_index;
        LandlordElected {
            table_id: self.id,
            landlord_index: self.landlord_index,
            hole_cards: self.hole_cards,
        }
    }

    /// A play of `cards` by `player`. The cards are recorded, not judged.
    pub fn play_hand(&mut self, player: &Identity, cards: Vec<u8>) -> (r: Result<PlayerPlayed, ErrorCode>)
        requires
            old(self).wf(),
        ensures
            final(self).wf(),
            match old(self).play_rejection(*player) {
                Some(e) => r == Err::<PlayerPlayed, ErrorCode>(e) && *final(self) == *old(self),
                None => {
                    &&& *final(self) == old(self).after_play(cards)
                    &&& r matches Ok(ev)
                    &&& ev.table_id == old(self).id
                    &&& ev.player_index == old(self).current_turn
                    &&& ev.cards@ == cards@
                },
            },
    {
        if self.phase != GamePhase::Playing {
            return Err(ErrorCode::NotPlaying);
        }
        let player_index = match self.get_player_index(player) {
            Ok(i) => i,
            Err(e) => return Err(e),
        };
        if player_index != self.current_turn {
            return Err(ErrorCode::NotYourTurn);
        }
        let shown = cards.clone();
        assert(shown@ =~= cards@);
        self.last_hand_cards = cards;
        self.last_hand_player_index = player_index;
        let played = PlayerPlayed { table_id: self.id, player_index, cards: shown };
        self.current_turn = (self.current_turn + 1) % 3;
        Ok(played)
    }

    /// Settles the game with seat `winner_index` as the winner.
    pub fn end_game(&mut self, winner_index: u8) -> (r: Result<GameEnded, ErrorCode>)
        requires
            old(self).wf(),
        ensures
            final(self).wf(),
            match old(self).end_rejection(winner_index) {
                Some(e) => r == Err::<GameEnded, ErrorCode>(e) && *final(self) == *old(self),
                None => *final(self) == old(self).after_end() && r == Ok::<GameEnded, ErrorCode>(
                    old(self).settlement(winner_index),
                ),
            },
    {
        if winner_index >= 3 {
            return Err(ErrorCode::InvalidWinner);
        }
        if self.phase != GamePhase::Playing {
            return Err(ErrorCode::NotPlaying);
        }
        let ended = self.settle_game(winner_index as usize);
        Ok(ended)
    }

    /// Ends the game and declares the payout to the winner's beneficiary.
    fn settle_game(&mut self, winner_index: usize) -> (r: GameEnded)
        requires
            old(self).wf(),
            old(self).phase == GamePhase::Playing,
            winner_index < 3,
        ensures
            *final(self) == old(self).after_end(),
            r == old(self).settlement(winner_index as u8),
    {
        self.phase = GamePhase::Ended;
        let is_landlord_win = winner_index == self.landlord_index as usize;
        let split = split_pot(self.pot);
        GameEnded {
            table_id: self.id,
            winner_index: winner_index as u8,
            winner_burner: self.seats[winner_index].unwrap(),
            winner_beneficiary: self.beneficiaries[winner_index].unwrap(),
            win_amount: split.reward_pool,
            protocol_fee: split.protocol_fee,
            is_landlord_win,
        }
    }
}

} // verus!
