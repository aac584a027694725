use vstd::prelude::*;
use crate::cards::dealt;
use crate::error::{kind_of, ErrorCode, ErrorKind};
use crate::identity::Identity;
use crate::settlement::{fee_of, reward_of};
use crate::table::{first_empty_seat, first_seat_of, held_by, GamePhase, Table};

verus! {

/// The seat of the last nonzero bid of a lap, or seat 0 when every seat passed.
pub open spec fn last_nonzero_bidder(s0: u8, s1: u8, s2: u8) -> u8 {
    if s2 > 0 {
        2
    } else if s1 > 0 {
        1
    } else {
        0
    }
}

/// Three joins to a fresh table fill the seats in call order, from seat 0
/// up; the third join starts bidding, and the pot is then the sum of the
/// three wagers.
pub proof fn lemma_joins_fill_in_order(
    t: Table,
    a: Identity,
    a_to: Identity,
    a_wager: u64,
    a_seed: u64,
    b: Identity,
    b_to: Identity,
    b_wager: u64,
    b_seed: u64,
    c: Identity,
    c_to: Identity,
    c_wager: u64,
    c_seed: u64,
)
    requires
        t.is_fresh(t.id),
        a_wager + b_wager + c_wager <= u64::MAX,
    ensures
        ({
            let t1 = t.after_join(a, a_to, a_wager, a_seed);
            let t2 = t1.after_join(b, b_to, b_wager, b_seed);
            let t3 = t2.after_join(c, c_to, c_wager, c_seed);
            &&& first_empty_seat(t.seats) == 0
            &&& first_empty_seat(t1.seats) == 1
            &&& first_empty_seat(t2.seats) == 2
            &&& t1.seats@ == seq![Some(a), None, None]
            &&& t1.phase == GamePhase::Waiting && t1.pot == a_wager
            &&& t2.seats@ == seq![Some(a), Some(b), None]
            &&& t2.phase == GamePhase::Waiting && t2.pot == a_wager + b_wager
            &&& t3.seats@ == seq![Some(a), Some(b), Some(c)]
            &&& t3.beneficiaries@ == seq![Some(a_to), Some(b_to), Some(c_to)]
            &&& t3.phase == GamePhase::Bidding
            &&& t3.pot == a_wager + b_wager + c_wager
            &&& t3.current_turn == 0
            &&& t3.hole_cards == dealt(c_seed)
        }),
{
    let t1 = t.after_join(a, a_to, a_wager, a_seed);
    let t2 = t1.after_join(b, b_to, b_wager, b_seed);
    let t3 = t2.after_join(c, c_to, c_wager, c_seed);
    assert(t1.seats@ =~= seq![Some(a), None, None]);
    assert(t2.seats@ =~= seq![Some(a), Some(b), None]);
    assert(t3.seats@ =~= seq![Some(a), Some(b), Some(c)]);
    assert(t3.beneficiaries@ =~= seq![Some(a_to), Some(b_to), Some(c_to)]);
}

/// A bidding lap gives the turn to seats 0, 1 and 2, once each, and then
/// elects the landlord: the seat of the last nonzero bid, or seat 0 when
/// all three passed. Play then starts with the landlord.
pub proof fn lemma_bidding_lap(t: Table, s0: u8, s1: u8, s2: u8)
    requires
        t.wf(),
        t.phase == GamePhase::Bidding,
        t.current_turn == 0,
    ensures
        ({
            let t1 = t.after_bid(s0);
            let t2 = t1.after_bid(s1);
            let t3 = t2.after_bid(s2);
            &&& t1.phase == GamePhase::Bidding && t1.current_turn == 1
            &&& t2.phase == GamePhase::Bidding && t2.current_turn == 2
            &&& t3.phase == GamePhase::Playing
            &&& t3.landlord_index == last_nonzero_bidder(s0, s1, s2)
            &&& t3.current_turn == t3.landlord_index
            &&& t3.election() == Some(
                crate::events::LandlordElected {
                    table_id: t.id,
                    landlord_index: last_nonzero_bidder(s0, s1, s2),
                    hole_cards: t.hole_cards,
                },
            )
        }),
{
}

/// While seats hold three distinct identities, the occupant of the seat
/// at the turn may bid in the bidding phase and play in the playing phase.
pub proof fn lemma_turn_holder_may_act(t: Table)
    requires
        t.wf(),
        t.phase == GamePhase::Bidding || t.phase == GamePhase::Playing,
        t.seats[0]->0@ != t.seats[1]->0@,
        t.seats[0]->0@ != t.seats[2]->0@,
        t.seats[1]->0@ != t.seats[2]->0@,
    ensures
        t.phase == GamePhase::Bidding ==> t.bid_rejection(t.seats[t.current_turn as int]->0)
            is None,
        t.phase == GamePhase::Playing ==> t.play_rejection(t.seats[t.current_turn as int]->0)
            is None,
{
}

/// A bid or a play by a seated identity that does not occupy the seat at
/// the turn is refused as a turn violation, in the phase where that action
/// belongs.
pub proof fn lemma_turn_order(t: Table, who: Identity)
    requires
        t.wf(),
        first_seat_of(t.seats, who) is Some,
        !held_by(t.seats[t.current_turn as int], who),
    ensures
        t.phase == GamePhase::Bidding ==> t.bid_rejection(who) == Some(ErrorCode::NotYourTurn),
        t.phase == GamePhase::Playing ==> t.play_rejection(who) == Some(ErrorCode::NotYourTurn),
        kind_of(ErrorCode::NotYourTurn) == ErrorKind::TurnViolation,
{
}

/// The fee and the reward add up to the pot, and neither is negative.
pub proof fn lemma_split_conserves_pot(pot: u64)
    ensures
        fee_of(pot as int) + reward_of(pot as int) == pot,
        0 <= fee_of(pot as int) <= pot,
        0 <= reward_of(pot as int) <= pot,
{
}

/// A table is settled at most once: once a settlement went through, every
/// further one is refused, as a phase violation for any seat index.
pub proof fn lemma_settles_once(t: Table, first: u8, second: u8)
    requires
        t.wf(),
        t.end_rejection(first) is None,
    ensures
        t.after_end().wf(),
        t.after_end().end_rejection(second) is Some,
        second < 3 ==> t.after_end().end_rejection(second) == Some(ErrorCode::NotPlaying),
        kind_of(ErrorCode::NotPlaying) == ErrorKind::PhaseViolation,
{
}

/// A winner index outside the seats is refused as such, in every phase.
pub proof fn lemma_winner_in_range(t: Table, winner_index: u8)
    requires
        winner_index >= 3,
    ensures
        t.end_rejection(winner_index) == Some(ErrorCode::InvalidWinner),
{
}

/// No action moves a table back to an earlier phase.
pub proof fn lemma_phase_monotonic(
    t: Table,
    joiner: Identity,
    beneficiary: Identity,
    wager: u64,
    seed: u64,
    score: u8,
    cards: Vec<u8>,
)
    requires
        t.wf(),
    ensures
        t.phase == GamePhase::Waiting ==> t.after_join(joiner, beneficiary, wager, seed).phase.rank()
            >= t.phase.rank(),
        t.phase == GamePhase::Bidding ==> t.after_bid(score).phase.rank() >= t.phase.rank(),
        t.after_play(cards).phase == t.phase,
        t.after_end().phase == GamePhase::Ended,
{
}

/// A settled table takes no further action: bids, plays and settlements
/// are all refused.
pub proof fn lemma_ended_is_terminal(t: Table, who: Identity, winner_index: u8)
    requires
        t.phase == GamePhase::Ended,
    ensures
        t.bid_rejection(who) == Some(ErrorCode::NotBiddingPhase),
        t.play_rejection(who) == Some(ErrorCode::NotPlaying),
        t.end_rejection(winner_index) is Some,
{
}

} // verus!
