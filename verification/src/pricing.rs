//! Pricing engine: the demand-adjusted, tier-discounted price of one
//! ticket. The demand multiplier is the ratio of tickets sold to capacity
//! plus one half; all rounding truncates toward zero, carried out in scaled
//! integer arithmetic so every platform reproduces the same price.

use crate::loyalty::LoyaltyTier;
use vstd::arithmetic::div_mod::{lemma_div_is_ordered, lemma_div_multiples_vanish};
use vstd::arithmetic::mul::lemma_mul_inequality;
use vstd::prelude::*;

verus! {

/// The base price scaled by the demand multiplier
/// `tickets_sold / total_tickets + 1/2`, truncated toward zero:
/// `ticket_price * (2 * tickets_sold + total_tickets) / (2 * total_tickets)`.
pub open spec fn spec_dynamic_price(ticket_price: int, total_tickets: int, tickets_sold: int) -> int
    recommends
        total_tickets > 0,
{
    ticket_price * (2 * tickets_sold + total_tickets) / (2 * total_tickets)
}

/// Percentage of the dynamic price a buyer of the given tier pays; a buyer
/// without a loyalty account pays the full dynamic price.
pub open spec fn spec_discount_percent(tier: Option<LoyaltyTier>) -> int {
    match tier {
        Some(LoyaltyTier::Platinum) => 80,
        Some(LoyaltyTier::Gold) => 85,
        Some(LoyaltyTier::Silver) => 90,
        Some(LoyaltyTier::Bronze) => 95,
        None => 100,
    }
}

/// The final ticket price: the dynamic price with the tier discount
/// applied, truncated toward zero.
pub open spec fn spec_final_price(
    ticket_price: int,
    total_tickets: int,
    tickets_sold: int,
    tier: Option<LoyaltyTier>,
) -> int
    recommends
        total_tickets > 0,
{
    spec_dynamic_price(ticket_price, total_tickets, tickets_sold) * spec_discount_percent(tier)
        / 100
}

/// Discounting never raises a price: scaling a non-negative value by at
/// most 100 percent, truncated, stays at or below the value.
pub proof fn lemma_discounted_le(value: int, percent: int)
    requires
        0 <= value,
        0 <= percent <= 100,
    ensures
        0 <= value * percent / 100 <= value,
{
    lemma_mul_inequality(percent, 100, value);
    lemma_div_is_ordered(value * percent, value * 100, 100);
    lemma_div_multiples_vanish(value, 100);
}

/// The demand-adjusted, tier-discounted price of one ticket of the event,
/// computed in 128-bit integer arithmetic with truncating division.
pub fn final_price(
    ticket_price: u64,
    total_tickets: u64,
    tickets_sold: u64,
    tier: Option<LoyaltyTier>,
) -> (r: u64)
    requires
        total_tickets > 0,
        tickets_sold <= total_tickets,
        ticket_price * (2 * tickets_sold + total_tickets) <= u128::MAX,
        spec_dynamic_price(ticket_price as int, total_tickets as int, tickets_sold as int)
            <= u64::MAX,
    ensures
        r == spec_final_price(
            ticket_price as int,
            total_tickets as int,
            tickets_sold as int,
            tier,
        ),
{
    let tp: u128 = ticket_price as u128;
    let ts: u128 = tickets_sold as u128;
    let tt: u128 = total_tickets as u128;
    let numerator: u128 = tp * (2 * ts + tt);
    let denominator: u128 = 2 * tt;
    let dynamic: u128 = numerator / denominator;
    assert(dynamic == spec_dynamic_price(
        ticket_price as int,
        total_tickets as int,
        tickets_sold as int,
    ));
    let percent: u128 = match tier {
        Some(LoyaltyTier::Platinum) => 80,
        Some(LoyaltyTier::Gold) => 85,
        Some(LoyaltyTier::Silver) => 90,
        Some(LoyaltyTier::Bronze) => 95,
        None => 100,
    };
    proof {
        lemma_discounted_le(dynamic as int, percent as int);
        lemma_mul_inequality(percent as int, 100, dynamic as int);
    }
    let discounted: u128 = dynamic * percent / 100;
    discounted as u64
}

} // verus!
