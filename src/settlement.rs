use vstd::prelude::*;

verus! {

/// The protocol's share of a pot: five percent, rounded down.
pub open spec fn fee_of(pot: int) -> int {
    pot * 5 / 100
}

/// What is left of a pot for the winner once the fee is taken.
pub open spec fn reward_of(pot: int) -> int {
    pot - fee_of(pot)
}

/// How a pot is divided at settlement.
#[derive(Debug, Clone, Copy, PartialEq, Eq, Structural)]
pub struct Settlement {
    pub protocol_fee: u64,
    pub reward_pool: u64,
}

/// Splits a pot into the protocol fee and the winner's reward.
pub fn split_pot(pot: u64) -> (r: Settlement)
    ensures
        r.protocol_fee == fee_of(pot as int),
        r.reward_pool == reward_of(pot as int),
        r.protocol_fee + r.reward_pool == pot,
{
    let protocol_fee = pot / 20;
    assert(pot / 20 == pot * 5 / 100) by (nonlinear_arith);
    Settlement { protocol_fee, reward_pool: pot - protocol_fee }
}

} // verus!
