//! Loyalty accounts and their append-only transaction history. Each
//! account's invariant ties its tier to its point total; the mathematical
//! model of an account ([`AccountModel`]) is what the store contracts
//! speak of.

use crate::loyalty::{spec_points_for_purchase, spec_tier_for_points, LoyaltyTier};
use vstd::prelude::*;

verus! {

/// One immutable entry of an account's history: a signed point delta
/// (positive for an award, negative for a redemption) with the time it was
/// applied and a free-text label.
pub struct PointsTransaction {
    pub timestamp: u64,
    pub points: i64,
    pub description: String,
}

/// Mathematical model of a [`PointsTransaction`].
#[verifier::ext_equal]
pub struct TransactionModel {
    pub timestamp: u64,
    pub points: i64,
    pub description: Seq<char>,
}

impl View for PointsTransaction {
    type V = TransactionModel;

    open spec fn view(&self) -> TransactionModel {
        TransactionModel {
            timestamp: self.timestamp,
            points: self.points,
            description: self.description@,
        }
    }
}

impl Clone for PointsTransaction {
    fn clone(&self) -> (res: Self)
        ensures
            res == *self,
    {
        PointsTransaction {
            timestamp: self.timestamp,
            points: self.points,
            description: self.description.clone(),
        }
    }
}

/// One user's loyalty account: cumulative points, the tier those points
/// earn, and the ordered history of every point mutation.
pub struct LoyaltyAccount {
    pub user_id: u64,
    pub points: u64,
    pub tier: LoyaltyTier,
    pub history: Vec<PointsTransaction>,
}

/// Mathematical model of a [`LoyaltyAccount`].
#[verifier::ext_equal]
pub struct AccountModel {
    pub user_id: u64,
    pub points: u64,
    pub tier: LoyaltyTier,
    pub history: Seq<TransactionModel>,
}

/// The model of a transaction history, entry by entry.
pub open spec fn spec_history(h: Seq<PointsTransaction>) -> Seq<TransactionModel> {
    h.map_values(|t: PointsTransaction| t@)
}

impl View for LoyaltyAccount {
    type V = AccountModel;

    open spec fn view(&self) -> AccountModel {
        AccountModel {
            user_id: self.user_id,
            points: self.points,
            tier: self.tier,
            history: spec_history(self.history@),
        }
    }
}

impl Clone for LoyaltyAccount {
    fn clone(&self) -> (res: Self)
        ensures
            res@ == self@,
    {
        let history = clone_history(&self.history);
        LoyaltyAccount { user_id: self.user_id, points: self.points, tier: self.tier, history }
    }
}

/// Copies a transaction history entry by entry.
fn clone_history(h: &Vec<PointsTransaction>) -> (res: Vec<PointsTransaction>)
    ensures
        res@ == h@,
{
    let res = h.clone();
    proof {
        assert forall|i: int| 0 <= i < h@.len() implies res@[i] == h@[i] by {
            assert(cloned::<PointsTransaction>(h@[i], res@[i]));
        }
        assert(res@ =~= h@);
    }
    res
}

/// An account is well formed under its store key when the key is its user
/// identifier and its tier is exactly the tier its point total earns.
pub open spec fn spec_account_wf(m: AccountModel, user_id: u64) -> bool {
    &&& m.user_id == user_id
    &&& m.tier == spec_tier_for_points(m.points as int)
}

/// The account a first award creates: zero points, lowest tier, empty
/// history.
pub open spec fn spec_new_account(user_id: u64) -> AccountModel {
    AccountModel {
        user_id,
        points: 0,
        tier: LoyaltyTier::Bronze,
        history: Seq::empty(),
    }
}

/// Label recorded with every award.
pub open spec fn spec_earn_label() -> Seq<char> {
    "Points earned from purchase"@
}

/// Label recorded with every redemption.
pub open spec fn spec_redeem_label() -> Seq<char> {
    "Points redemption"@
}

/// The account after an award: the earned points are added, the tier is
/// recomputed from the new total, and the positive delta is appended to
/// the history.
pub open spec fn spec_awarded(m: AccountModel, amount: int, now: u64) -> AccountModel
    recommends
        0 <= amount,
        m.points + spec_points_for_purchase(amount) <= u64::MAX,
{
    let earned = spec_points_for_purchase(amount);
    let new_points = (m.points + earned) as u64;
    AccountModel {
        user_id: m.user_id,
        points: new_points,
        tier: spec_tier_for_points(new_points as int),
        history: m.history.push(
            TransactionModel {
                timestamp: now,
                points: earned as i64,
                description: spec_earn_label(),
            },
        ),
    }
}

/// The account after a successful redemption: the amount is subtracted,
/// the tier is recomputed from the new total, and the negative delta is
/// appended to the history.
pub open spec fn spec_redeemed(m: AccountModel, amount: u64, now: u64) -> AccountModel
    recommends
        amount <= m.points,
        amount <= i64::MAX,
{
    let new_points = (m.points - amount) as u64;
    AccountModel {
        user_id: m.user_id,
        points: new_points,
        tier: spec_tier_for_points(new_points as int),
        history: m.history.push(
            TransactionModel {
                timestamp: now,
                points: (-(amount as int)) as i64,
                description: spec_redeem_label(),
            },
        ),
    }
}

/// Appending a transaction appends its model to the history's model.
pub proof fn lemma_spec_history_push(h: Seq<PointsTransaction>, t: PointsTransaction)
    ensures
        spec_history(h.push(t)) == spec_history(h).push(t@),
{
    assert(spec_history(h.push(t)) =~= spec_history(h).push(t@));
}

impl LoyaltyAccount {
    /// A fresh zero-point Bronze account for the given user.
    pub fn new(user_id: u64) -> (a: Self)
        ensures
            a@ == spec_new_account(user_id),
    {
        let a = LoyaltyAccount {
            user_id,
            points: 0,
            tier: LoyaltyTier::Bronze,
            history: Vec::new(),
        };
        proof {
            assert(a@ =~= spec_new_account(user_id));
        }
        a
    }
}

} // verus!
