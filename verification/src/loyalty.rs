//! Loyalty engine: the points earned from a purchase amount and the tier
//! that a point total places an account in. Both are pure, total and
//! deterministic; tier thresholds sit at 2000, 5000 and 10000 points.

use vstd::arithmetic::div_mod::lemma_div_is_ordered;
use vstd::prelude::*;

verus! {

/// Discrete loyalty level, determined solely by cumulative points.
#[derive(Clone, Copy, PartialEq, Eq, Structural, Debug)]
pub enum LoyaltyTier {
    Bronze,
    Silver,
    Gold,
    Platinum,
}

impl Default for LoyaltyTier {
    /// A freshly created account starts at the lowest tier.
    fn default() -> (t: Self)
        ensures
            t == LoyaltyTier::Bronze,
    {
        LoyaltyTier::Bronze
    }
}

/// Points earned for a purchase: one point per ten units spent, plus a
/// bonus bracket chosen by the amount alone (highest threshold first):
/// half the base from 1000 up, a quarter from 500, a tenth from 200.
pub open spec fn spec_points_for_purchase(amount: int) -> int
    recommends
        0 <= amount,
{
    let base = amount / 10;
    let bonus = if amount >= 1000 {
        base / 2
    } else if amount >= 500 {
        base / 4
    } else if amount >= 200 {
        base / 10
    } else {
        0
    };
    base + bonus
}

/// The tier a point total earns: Platinum from 10000 points, Gold from
/// 5000, Silver from 2000, Bronze below that.
pub open spec fn spec_tier_for_points(points: int) -> LoyaltyTier {
    if points >= 10000 {
        LoyaltyTier::Platinum
    } else if points >= 5000 {
        LoyaltyTier::Gold
    } else if points >= 2000 {
        LoyaltyTier::Silver
    } else {
        LoyaltyTier::Bronze
    }
}

/// Position of a tier in the Bronze-to-Platinum order, used to state that
/// the tier of a point total only ever rises with the total.
pub open spec fn spec_tier_rank(t: LoyaltyTier) -> int {
    match t {
        LoyaltyTier::Bronze => 0,
        LoyaltyTier::Silver => 1,
        LoyaltyTier::Gold => 2,
        LoyaltyTier::Platinum => 3,
    }
}

/// Points earned from a purchase of the given amount.
pub fn calculate_points(purchase_amount: u64) -> (r: u64)
    ensures
        r == spec_points_for_purchase(purchase_amount as int),
{
    let base: u64 = purchase_amount / 10;
    let bonus: u64 = if purchase_amount >= 1000 {
        base / 2
    } else if purchase_amount >= 500 {
        base / 4
    } else if purchase_amount >= 200 {
        base / 10
    } else {
        0
    };
    base + bonus
}

/// Tier for a cumulative point total.
pub fn tier_for_points(points: u64) -> (t: LoyaltyTier)
    ensures
        t == spec_tier_for_points(points as int),
{
    if points >= 10000 {
        LoyaltyTier::Platinum
    } else if points >= 5000 {
        LoyaltyTier::Gold
    } else if points >= 2000 {
        LoyaltyTier::Silver
    } else {
        LoyaltyTier::Bronze
    }
}

/// Earned points never exceed the amount spent, and for any 64-bit amount
/// they stay below the signed 64-bit bound, so the signed delta recorded in
/// an account's history cannot overflow.
pub proof fn lemma_points_for_purchase_fit(amount: int)
    requires
        0 <= amount <= u64::MAX,
    ensures
        0 <= spec_points_for_purchase(amount) <= amount,
        spec_points_for_purchase(amount) <= i64::MAX,
{
    lemma_div_is_ordered(amount, u64::MAX as int, 10);
}

/// Awarding is monotone: a larger purchase never earns fewer points.
pub proof fn lemma_points_for_purchase_monotonic(a1: int, a2: int)
    requires
        0 <= a1 <= a2,
    ensures
        spec_points_for_purchase(a1) <= spec_points_for_purchase(a2),
{
    lemma_div_is_ordered(a1, a2, 10);
    let b1 = a1 / 10;
    let b2 = a2 / 10;
    lemma_div_is_ordered(b1, b2, 2);
    lemma_div_is_ordered(b1, b2, 4);
    lemma_div_is_ordered(b1, b2, 10);
    if a2 >= 1000 && a1 < 1000 {
        // At most 99 + 24 on the left, at least 100 + 50 on the right.
        lemma_div_is_ordered(a1, 999, 10);
        lemma_div_is_ordered(100, b2, 2);
    } else if a2 >= 500 && a1 < 500 {
        // At most 49 + 4 on the left, at least 50 + 12 on the right.
        lemma_div_is_ordered(a1, 499, 10);
        lemma_div_is_ordered(50, b2, 4);
    } else if a2 >= 200 && a1 < 200 {
        // At most 19 on the left, at least 20 + 2 on the right.
        lemma_div_is_ordered(a1, 199, 10);
        lemma_div_is_ordered(20, b2, 10);
    }
}

/// The tier of a point total only ever rises with the total.
pub proof fn lemma_tier_for_points_monotonic(p1: int, p2: int)
    requires
        p1 <= p2,
    ensures
        spec_tier_rank(spec_tier_for_points(p1)) <= spec_tier_rank(spec_tier_for_points(p2)),
{
}

} // verus!
