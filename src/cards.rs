use vstd::prelude::*;

verus! {

/// The number of distinct card codes in a deck.
pub const DECK_SIZE: u64 = 54;

/// The card code dealt as the `k`-th hole card from `seed`: byte `k` of the
/// seed, reduced to a card code.
pub open spec fn hole_card(seed: u64, k: nat) -> u8 {
    ((seed as nat / pow256(k)) % 54) as u8
}

pub open spec fn pow256(k: nat) -> nat
    decreases k,
{
    if k == 0 {
        1
    } else {
        256 * pow256((k - 1) as nat)
    }
}

/// The three hole cards dealt from `seed`.
pub open spec fn dealt(seed: u64) -> [u8; 3] {
    [hole_card(seed, 0), hole_card(seed, 1), hole_card(seed, 2)]
}

/// Deals the three hole cards from a seed.
pub fn deal_hole_cards(seed: u64) -> (r: [u8; 3])
    ensures
        r == dealt(seed),
        r@ == seq![hole_card(seed, 0), hole_card(seed, 1), hole_card(seed, 2)],
{
    proof {
        reveal_with_fuel(pow256, 3);
    }
    let c0 = (seed % DECK_SIZE) as u8;
    let c1 = (seed / 256 % DECK_SIZE) as u8;
    let c2 = (seed / 65536 % DECK_SIZE) as u8;
    assert(pow256(0) == 1 && pow256(1) == 256 && pow256(2) == 65536);
    assert(c0 == hole_card(seed, 0));
    assert(c1 == hole_card(seed, 1));
    assert(c2 == hole_card(seed, 2));
    let r = [c0, c1, c2];
    assert(r@ =~= seq![c0, c1, c2]);
    r
}

} // verus!
