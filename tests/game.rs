use chain_landlord::{
    deal_hole_cards, initialize, split_pot, ErrorCode, ErrorKind, GamePhase, GameStarted,
    Identity, LandlordElected, Table,
};

fn who(b: u8) -> Identity {
    Identity::new([b; 32])
}

/// A table with seats 1, 2 and 3 filled, each paying out to 11, 12 and 13.
fn full_table(wagers: [u64; 3], seed: u64) -> Table {
    let mut t = Table::new(9);
    for (i, w) in wagers.iter().enumerate() {
        let b = i as u8 + 1;
        t.join_game(who(b), who(b + 10), *w, seed);
    }
    t
}

fn playing_table(landlord_bids: [u8; 3]) -> Table {
    let mut t = full_table([100, 100, 100], 0);
    for (i, s) in landlord_bids.iter().enumerate() {
        t.bid(&who(i as u8 + 1), *s).unwrap();
    }
    t
}

#[test]
fn fresh_table_is_waiting_and_empty() {
    let t = Table::new(4);
    assert_eq!(t.id, 4);
    assert_eq!(t.phase, GamePhase::Waiting);
    assert_eq!(t.seats, [None, None, None]);
    assert_eq!(t.pot, 0);
    assert_eq!(t.current_turn, 0);
}

#[test]
fn joins_fill_seats_in_call_order() {
    let mut t = Table::new(5);
    let (j, s) = t.join_game(who(7), who(17), 10, 0);
    assert_eq!(j.seat_index, 0);
    assert_eq!(j.burner, who(7));
    assert_eq!(j.beneficiary, who(17));
    assert_eq!(j.table_id, 5);
    assert_eq!(s, None);
    assert_eq!(t.phase, GamePhase::Waiting);
    let (j, s) = t.join_game(who(8), who(18), 20, 0);
    assert_eq!(j.seat_index, 1);
    assert_eq!(s, None);
    assert_eq!(t.seats, [Some(who(7)), Some(who(8)), None]);
    let (j, s) = t.join_game(who(9), who(19), 30, 197121);
    assert_eq!(j.seat_index, 2);
    assert_eq!(s, Some(GameStarted { table_id: 5 }));
    assert_eq!(t.seats, [Some(who(7)), Some(who(8)), Some(who(9))]);
    assert_eq!(t.beneficiaries, [Some(who(17)), Some(who(18)), Some(who(19))]);
    assert_eq!(t.pot, 60);
    assert_eq!(t.phase, GamePhase::Bidding);
    assert_eq!(t.current_turn, 0);
    assert_eq!(t.hole_cards, [21, 14, 3]);
}

#[test]
fn hole_cards_come_from_the_seed_bytes() {
    assert_eq!(deal_hole_cards(197121), [21, 14, 3]);
    assert_eq!(deal_hole_cards(0), [0, 0, 0]);
    assert_eq!(deal_hole_cards(u64::MAX), [51, 3, 45]);
    assert_eq!(deal_hole_cards(12345678901), [19, 14, 28]);
}

#[test]
fn three_hundred_pot_second_seat_landlord() {
    let mut t = full_table([100, 100, 100], 0);
    assert_eq!(t.pot, 300);
    assert_eq!(t.phase, GamePhase::Bidding);
    assert_eq!(t.bid(&who(1), 0), Ok(None));
    assert_eq!(t.current_turn, 1);
    assert_eq!(t.bid(&who(2), 5), Ok(None));
    assert_eq!(t.current_turn, 2);
    let r = t.bid(&who(3), 0);
    assert_eq!(
        r,
        Ok(Some(LandlordElected { table_id: 9, landlord_index: 1, hole_cards: [0, 0, 0] }))
    );
    assert_eq!(t.landlord_index, 1);
    assert_eq!(t.phase, GamePhase::Playing);
    assert_eq!(t.current_turn, 1);
    let ended = t.end_game(1).unwrap();
    assert_eq!(ended.protocol_fee, 15);
    assert_eq!(ended.win_amount, 285);
    assert_eq!(ended.winner_index, 1);
    assert_eq!(ended.winner_burner, who(2));
    assert_eq!(ended.winner_beneficiary, who(12));
    assert!(ended.is_landlord_win);
    assert_eq!(t.phase, GamePhase::Ended);
}

#[test]
fn all_pass_makes_seat_zero_landlord() {
    let t = playing_table([0, 0, 0]);
    assert_eq!(t.landlord_index, 0);
    assert_eq!(t.phase, GamePhase::Playing);
    assert_eq!(t.current_turn, 0);
    assert_eq!(t.highest_bid, 0);
}

#[test]
fn last_nonzero_bid_wins_not_the_largest() {
    let t = playing_table([9, 2, 0]);
    assert_eq!(t.landlord_index, 1);
    assert_eq!(t.highest_bid, 2);
    assert_eq!(t.current_turn, 1);
    let t = playing_table([3, 0, 1]);
    assert_eq!(t.landlord_index, 2);
    let t = playing_table([4, 0, 0]);
    assert_eq!(t.landlord_index, 0);
}

#[test]
fn end_game_with_winner_three_is_invalid_in_every_phase() {
    let mut t = Table::new(1);
    assert_eq!(t.end_game(3), Err(ErrorCode::InvalidWinner));
    let mut t = full_table([1, 2, 3], 0);
    assert_eq!(t.end_game(3), Err(ErrorCode::InvalidWinner));
    let mut t = playing_table([0, 0, 0]);
    assert_eq!(t.end_game(3), Err(ErrorCode::InvalidWinner));
    assert_eq!(t.end_game(255), Err(ErrorCode::InvalidWinner));
    assert_eq!(t.phase, GamePhase::Playing);
    t.end_game(0).unwrap();
    assert_eq!(t.end_game(3), Err(ErrorCode::InvalidWinner));
    assert_eq!(ErrorCode::InvalidWinner.kind(), ErrorKind::ArgumentViolation);
}

#[test]
fn second_settlement_is_refused() {
    let mut t = playing_table([0, 1, 0]);
    let first = t.end_game(2).unwrap();
    assert_eq!(first.winner_beneficiary, who(13));
    assert!(!first.is_landlord_win);
    let before = t.clone();
    let r = t.end_game(2);
    assert_eq!(r, Err(ErrorCode::NotPlaying));
    assert_eq!(r.unwrap_err().kind(), ErrorKind::PhaseViolation);
    assert_eq!(t.phase, before.phase);
    assert_eq!(t.pot, before.pot);
}

#[test]
fn end_game_before_play_is_refused() {
    let mut t = full_table([1, 2, 3], 0);
    assert_eq!(t.end_game(0), Err(ErrorCode::NotPlaying));
    assert_eq!(t.phase, GamePhase::Bidding);
}

#[test]
fn bid_out_of_turn_is_refused() {
    let mut t = full_table([1, 1, 1], 0);
    assert_eq!(t.bid(&who(2), 3), Err(ErrorCode::NotYourTurn));
    assert_eq!(t.bid(&who(3), 0), Err(ErrorCode::NotYourTurn));
    assert_eq!(ErrorCode::NotYourTurn.kind(), ErrorKind::TurnViolation);
    assert_eq!(t.current_turn, 0);
    assert_eq!(t.highest_bid, 0);
    assert_eq!(t.landlord_index, 0);
}

#[test]
fn bid_by_a_stranger_is_refused() {
    let mut t = full_table([1, 1, 1], 0);
    assert_eq!(t.bid(&who(42), 3), Err(ErrorCode::PlayerNotFound));
    assert_eq!(ErrorCode::PlayerNotFound.kind(), ErrorKind::IdentityViolation);
    assert_eq!(t.current_turn, 0);
}

#[test]
fn bid_outside_bidding_is_refused() {
    let mut t = Table::new(1);
    t.join_game(who(1), who(1), 5, 0);
    assert_eq!(t.bid(&who(1), 3), Err(ErrorCode::NotBiddingPhase));
    let mut t = playing_table([0, 0, 0]);
    assert_eq!(t.bid(&who(1), 3), Err(ErrorCode::NotBiddingPhase));
    assert_eq!(ErrorCode::NotBiddingPhase.kind(), ErrorKind::PhaseViolation);
}

#[test]
fn plays_follow_the_turn_from_the_landlord() {
    let mut t = playing_table([0, 0, 7]);
    assert_eq!(t.current_turn, 2);
    assert_eq!(t.play_hand(&who(1), vec![1]), Err(ErrorCode::NotYourTurn));
    let p = t.play_hand(&who(3), vec![4, 5, 6]).unwrap();
    assert_eq!(p.table_id, 9);
    assert_eq!(p.player_index, 2);
    assert_eq!(p.cards, vec![4, 5, 6]);
    assert_eq!(t.last_hand_cards, vec![4, 5, 6]);
    assert_eq!(t.last_hand_player_index, 2);
    assert_eq!(t.current_turn, 0);
    let p = t.play_hand(&who(1), vec![]).unwrap();
    assert_eq!(p.player_index, 0);
    assert!(t.last_hand_cards.is_empty());
    assert_eq!(t.current_turn, 1);
    assert_eq!(t.play_hand(&who(9), vec![1]), Err(ErrorCode::PlayerNotFound));
}

#[test]
fn play_outside_playing_is_refused() {
    let mut t = full_table([1, 1, 1], 0);
    assert_eq!(t.play_hand(&who(1), vec![1]), Err(ErrorCode::NotPlaying));
    let mut t = playing_table([0, 0, 0]);
    t.end_game(0).unwrap();
    assert_eq!(t.play_hand(&who(1), vec![1]), Err(ErrorCode::NotPlaying));
}

#[test]
fn player_index_is_the_lowest_seat_held() {
    let mut t = Table::new(1);
    assert_eq!(t.get_player_index(&who(1)), Err(ErrorCode::PlayerNotFound));
    t.join_game(who(1), who(2), 0, 0);
    t.join_game(who(3), who(4), 0, 0);
    t.join_game(who(1), who(5), 0, 0);
    assert_eq!(t.get_player_index(&who(1)), Ok(0));
    assert_eq!(t.get_player_index(&who(3)), Ok(1));
    assert_eq!(t.get_player_index(&who(2)), Err(ErrorCode::PlayerNotFound));
}

#[test]
fn split_pot_takes_five_percent_rounded_down() {
    let s = split_pot(300);
    assert_eq!((s.protocol_fee, s.reward_pool), (15, 285));
    let s = split_pot(0);
    assert_eq!((s.protocol_fee, s.reward_pool), (0, 0));
    let s = split_pot(19);
    assert_eq!((s.protocol_fee, s.reward_pool), (0, 19));
    let s = split_pot(39);
    assert_eq!((s.protocol_fee, s.reward_pool), (1, 38));
    let s = split_pot(u64::MAX);
    assert_eq!(s.protocol_fee, u64::MAX / 20);
    assert_eq!(s.protocol_fee + s.reward_pool, u64::MAX);
}

#[test]
fn settlement_pays_the_whole_pot_out() {
    let mut t = full_table([7, 11, 13], 0);
    t.bid(&who(1), 1).unwrap();
    t.bid(&who(2), 0).unwrap();
    t.bid(&who(3), 0).unwrap();
    let e = t.end_game(0).unwrap();
    assert_eq!(e.protocol_fee, 1);
    assert_eq!(e.win_amount, 30);
    assert_eq!(e.protocol_fee + e.win_amount, 31);
    assert!(e.is_landlord_win);
}

#[test]
fn largest_pot_is_accepted() {
    let mut t = full_table([u64::MAX - 2, 1, 1], 0);
    assert_eq!(t.pot, u64::MAX);
    t.bid(&who(1), 0).unwrap();
    t.bid(&who(2), 0).unwrap();
    t.bid(&who(3), 0).unwrap();
    let e = t.end_game(1).unwrap();
    assert_eq!(e.protocol_fee, u64::MAX / 20);
    assert_eq!(e.protocol_fee + e.win_amount, u64::MAX);
}

#[test]
fn registry_hands_out_increasing_ids() {
    let mut g = initialize(who(99));
    assert_eq!(g.owner, who(99));
    assert_eq!(g.next_table_id, 1);
    let a = g.create_table();
    let b = g.create_table();
    assert_eq!(a.id, 1);
    assert_eq!(b.id, 2);
    assert_eq!(g.next_table_id, 3);
    assert_eq!(b.phase, GamePhase::Waiting);
}

#[test]
fn identities_compare_by_every_byte() {
    let mut bytes = [0u8; 32];
    bytes[31] = 1;
    assert_ne!(Identity::new(bytes), Identity::new([0; 32]));
    assert_eq!(Identity::new(bytes), Identity::new(bytes));
    bytes[0] = 1;
    assert_ne!(Identity::new(bytes), Identity::new([1; 32]));
}

#[test]
fn settled_table_refuses_every_action() {
    let mut t = playing_table([0, 0, 0]);
    t.end_game(0).unwrap();
    assert_eq!(t.bid(&who(1), 1), Err(ErrorCode::NotBiddingPhase));
    assert_eq!(t.play_hand(&who(1), vec![2]), Err(ErrorCode::NotPlaying));
    assert_eq!(t.end_game(1), Err(ErrorCode::NotPlaying));
    assert_eq!(t.phase, GamePhase::Ended);
    assert_eq!(t.current_turn, 0);
}
