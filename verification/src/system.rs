//! The stores and the operations over them: awarding points, redeeming
//! points, and the single-writer purchase transaction that reads an event,
//! prices a ticket from current demand and the buyer's tier, persists the
//! ticket, bumps the event's sold counter and credits loyalty points — all
//! of it, or on failure none of it.

use crate::ledger::{
    spec_account_wf, spec_awarded, spec_new_account, spec_redeemed, LoyaltyAccount,
    PointsTransaction,
};
use crate::loyalty::{
    calculate_points, lemma_points_for_purchase_fit, spec_points_for_purchase,
    spec_tier_for_points, tier_for_points, LoyaltyTier,
};
use crate::pricing::{final_price, spec_dynamic_price, spec_final_price};
use std::collections::HashMap;
use vstd::prelude::*;

verus! {

/// An event's counters, as far as ticketing reads and writes them: the
/// base price, the capacity, and how many tickets have been sold so far.
#[derive(Clone, Copy, PartialEq, Eq, Structural, Debug)]
pub struct Event {
    pub event_id: u64,
    pub ticket_price: u64,
    pub total_tickets: u64,
    pub tickets_sold: u64,
}

impl Event {
    /// A sellable event has room for at least one ticket and never more
    /// sold than its capacity.
    pub open spec fn valid(self) -> bool {
        &&& self.total_tickets > 0
        &&& self.tickets_sold <= self.total_tickets
    }
}

/// A sold ticket, immutable once created.
#[derive(PartialEq, Eq, Debug)]
pub struct Ticket {
    pub id: u64,
    pub event_id: u64,
    pub user_id: u64,
    pub purchase_date: u64,
    pub seat_number: String,
    pub price: u64,
}

/// Mathematical model of a [`Ticket`].
#[verifier::ext_equal]
pub struct TicketModel {
    pub id: u64,
    pub event_id: u64,
    pub user_id: u64,
    pub purchase_date: u64,
    pub seat_number: Seq<char>,
    pub price: u64,
}

impl View for Ticket {
    type V = TicketModel;

    open spec fn view(&self) -> TicketModel {
        TicketModel {
            id: self.id,
            event_id: self.event_id,
            user_id: self.user_id,
            purchase_date: self.purchase_date,
            seat_number: self.seat_number@,
            price: self.price,
        }
    }
}

impl Clone for Ticket {
    fn clone(&self) -> (res: Self)
        ensures
            res@ == self@,
    {
        Ticket {
            id: self.id,
            event_id: self.event_id,
            user_id: self.user_id,
            purchase_date: self.purchase_date,
            seat_number: self.seat_number.clone(),
            price: self.price,
        }
    }
}

/// A purchase request: which event, for whom, and which seat label the
/// ticket is to carry.
pub struct PurchaseTicketPayload {
    pub event_id: u64,
    pub user_id: u64,
    pub seat_number: String,
}

/// The typed failures the operations return. A failed operation leaves
/// every store unchanged.
#[derive(Clone, Copy, PartialEq, Eq, Structural, Debug)]
pub enum LoyaltyError {
    /// The event or loyalty account looked up does not exist.
    NotFound,
    /// A redemption asked for more points than the account holds.
    InsufficientBalance,
    /// The event has already sold every ticket of its capacity.
    EventFull,
}

/// The three stores, mutated only by the operations below under
/// single-writer semantics.
pub struct TicketingSystem {
    pub ledger: HashMap<u64, LoyaltyAccount>,
    pub events: HashMap<u64, Event>,
    pub tickets: HashMap<u64, Ticket>,
}

/// The account under a key, or the fresh account a first award would
/// create for it.
pub open spec fn spec_account_or_new(
    ledger: Map<u64, LoyaltyAccount>,
    user_id: u64,
) -> crate::ledger::AccountModel {
    if ledger.contains_key(user_id) {
        ledger[user_id]@
    } else {
        spec_new_account(user_id)
    }
}

/// The buyer's tier, if the buyer has a loyalty account.
pub open spec fn spec_tier_of(ledger: Map<u64, LoyaltyAccount>, user_id: u64) -> Option<
    LoyaltyTier,
> {
    if ledger.contains_key(user_id) {
        Some(ledger[user_id].tier)
    } else {
        None
    }
}

/// Exactly when and why a redemption fails: `NotFound` when no account
/// exists for the user, `InsufficientBalance` when the account holds fewer
/// points than asked; otherwise it succeeds.
pub open spec fn spec_redeem_error(
    ledger: Map<u64, LoyaltyAccount>,
    user_id: u64,
    amount: u64,
) -> Option<LoyaltyError> {
    if !ledger.contains_key(user_id) {
        Some(LoyaltyError::NotFound)
    } else if ledger[user_id].points < amount {
        Some(LoyaltyError::InsufficientBalance)
    } else {
        None
    }
}

/// A failed redemption changes nothing, so repeating the identical call
/// observes the same ledger and has the same observable effect: the same
/// error, and again no mutation.
pub proof fn lemma_failed_redeem_idempotent(
    before: Map<u64, LoyaltyAccount>,
    after: Map<u64, LoyaltyAccount>,
    user_id: u64,
    amount: u64,
)
    requires
        spec_redeem_error(before, user_id, amount) is Some,
        after == before,
    ensures
        spec_redeem_error(after, user_id, amount) == spec_redeem_error(before, user_id, amount),
        spec_redeem_error(after, user_id, amount) is Some,
{
}

impl TicketingSystem {
    /// Every stored event is sellable and keyed by its own identifier.
    pub open spec fn events_wf(self) -> bool {
        forall|e: u64|
            #[trigger] self.events@.contains_key(e) ==> self.events@[e].valid()
                && self.events@[e].event_id == e
    }

    /// Every stored account is keyed by its own user and carries exactly
    /// the tier its point total earns.
    pub open spec fn ledger_wf(self) -> bool {
        forall|u: u64|
            #[trigger] self.ledger@.contains_key(u) ==> spec_account_wf(self.ledger@[u]@, u)
    }

    /// Well-formedness of the whole system; established empty and
    /// preserved by every operation.
    pub open spec fn wf(self) -> bool {
        &&& self.events_wf()
        &&& self.ledger_wf()
    }

    /// An empty system: no accounts, no events, no tickets.
    pub fn new() -> (s: Self)
        ensures
            s.wf(),
            s.ledger@ == Map::<u64, LoyaltyAccount>::empty(),
            s.events@ == Map::<u64, Event>::empty(),
            s.tickets@ == Map::<u64, Ticket>::empty(),
    {
        TicketingSystem { ledger: HashMap::new(), events: HashMap::new(), tickets: HashMap::new() }
    }

    /// Stores an event under its identifier, replacing any previous
    /// record of it. Zero-capacity or oversold events are rejected at
    /// this boundary and so never reach pricing.
    pub fn put_event(&mut self, event: Event)
        requires
            event.valid(),
        ensures
            final(self).events@ == old(self).events@.insert(event.event_id, event),
            final(self).ledger@ == old(self).ledger@,
            final(self).tickets@ == old(self).tickets@,
            old(self).wf() ==> final(self).wf(),
    {
        self.events.insert(event.event_id, event);
    }

    /// The event stored under an identifier, if any.
    pub fn get_event(&self, event_id: u64) -> (r: Option<Event>)
        ensures
            r == (if self.events@.contains_key(event_id) {
                Some(self.events@[event_id])
            } else {
                None::<Event>
            }),
    {
        match self.events.get(&event_id) {
            Some(e) => Some(*e),
            None => None,
        }
    }

    /// The loyalty account stored under a user identifier, if any.
    pub fn get_account(&self, user_id: u64) -> (r: Option<&LoyaltyAccount>)
        ensures
            match r {
                Some(a) => self.ledger@.contains_key(user_id) && *a == self.ledger@[user_id],
                None => !self.ledger@.contains_key(user_id),
            },
    {
        self.ledger.get(&user_id)
    }

    /// The ticket stored under a ticket identifier, if any.
    pub fn get_ticket(&self, ticket_id: u64) -> (r: Option<&Ticket>)
        ensures
            match r {
                Some(t) => self.tickets@.contains_key(ticket_id) && *t == self.tickets@[ticket_id],
                None => !self.tickets@.contains_key(ticket_id),
            },
    {
        self.tickets.get(&ticket_id)
    }

    /// Credits a purchase to a user's account: loads the account (or
    /// creates the default zero-point Bronze one), adds the points the
    /// amount earns, appends the positive delta to the history, recomputes
    /// the tier from the new total, persists, and returns the updated
    /// account. Always succeeds.
    pub fn award_loyalty_points(&mut self, user_id: u64, purchase_amount: u64, now: u64) -> (r:
        LoyaltyAccount)
        requires
            spec_account_or_new(old(self).ledger@, user_id).points + spec_points_for_purchase(
                purchase_amount as int,
            ) <= u64::MAX,
        ensures
            r@ == spec_awarded(
                spec_account_or_new(old(self).ledger@, user_id),
                purchase_amount as int,
                now,
            ),
            r.tier == spec_tier_for_points(r.points as int),
            final(self).ledger@.contains_key(user_id),
            final(self).ledger@[user_id]@ == r@,
            final(self).ledger@.remove(user_id) == old(self).ledger@.remove(user_id),
            final(self).events@ == old(self).events@,
            final(self).tickets@ == old(self).tickets@,
            old(self).wf() ==> final(self).wf(),
    {
        let ghost prev = spec_account_or_new(self.ledger@, user_id);
        proof {
            lemma_points_for_purchase_fit(purchase_amount as int);
        }
        let earned: u64 = calculate_points(purchase_amount);
        let mut acct: LoyaltyAccount = match self.ledger.remove(&user_id) {
            Some(a) => a,
            None => LoyaltyAccount::new(user_id),
        };
        acct.points = acct.points + earned;
        acct.tier = tier_for_points(acct.points);
        let ghost history_before = acct.history@;
        let tx = PointsTransaction {
            timestamp: now,
            points: earned as i64,
            description: "Points earned from purchase".to_string(),
        };
        acct.history.push(tx);
        proof {
            crate::ledger::lemma_spec_history_push(history_before, tx);
            assert(acct@ =~= spec_awarded(prev, purchase_amount as int, now));
        }
        let r = acct.clone();
        self.ledger.insert(user_id, acct);
        proof {
            assert(self.ledger@.remove(user_id) =~= old(self).ledger@.remove(user_id));
            if old(self).wf() {
                assert forall|u: u64| #[trigger] self.ledger@.contains_key(u) implies
                    spec_account_wf(self.ledger@[u]@, u) by {
                    if u != user_id {
                        assert(old(self).ledger@.contains_key(u));
                        assert(self.ledger@[u] == old(self).ledger@[u]);
                    }
                }
            }
        }
        r
    }

    /// Redeems points from a user's account. Fails with `NotFound` when
    /// the account does not exist and with `InsufficientBalance` when it
    /// holds fewer points than asked — in either case no store changes.
    /// Otherwise it subtracts the amount, appends the negative delta to
    /// the history, recomputes the tier from the new total, persists, and
    /// reports success.
    pub fn redeem_points(&mut self, user_id: u64, points_to_redeem: u64, now: u64) -> (r: Result<
        String,
        LoyaltyError,
    >)
        requires
            spec_redeem_error(old(self).ledger@, user_id, points_to_redeem) is None
                ==> points_to_redeem <= i64::MAX,
        ensures
            match spec_redeem_error(old(self).ledger@, user_id, points_to_redeem) {
                Some(e) => {
                    &&& r == Err::<String, LoyaltyError>(e)
                    &&& final(self).ledger@ == old(self).ledger@
                },
                None => {
                    &&& r is Ok
                    &&& r->Ok_0@ == "Points successfully redeemed!"@
                    &&& final(self).ledger@.contains_key(user_id)
                    &&& final(self).ledger@[user_id]@ == spec_redeemed(
                        old(self).ledger@[user_id]@,
                        points_to_redeem,
                        now,
                    )
                    &&& final(self).ledger@[user_id].tier == spec_tier_for_points(
                        final(self).ledger@[user_id].points as int,
                    )
                    &&& final(self).ledger@.remove(user_id) == old(self).ledger@.remove(user_id)
                },
            },
            final(self).events@ == old(self).events@,
            final(self).tickets@ == old(self).tickets@,
            old(self).wf() ==> final(self).wf(),
    {
        let has_enough: bool = match self.ledger.get(&user_id) {
            None => {
                return Err(LoyaltyError::NotFound);
            },
            Some(a) => a.points >= points_to_redeem,
        };
        if !has_enough {
            return Err(LoyaltyError::InsufficientBalance);
        }
        let mut acct: LoyaltyAccount = match self.ledger.remove(&user_id) {
            Some(a) => a,
            None => {
                proof {
                    assert(false);
                }
                LoyaltyAccount::new(user_id)
            },
        };
        acct.points = acct.points - points_to_redeem;
        acct.tier = tier_for_points(acct.points);
        let ghost history_before = acct.history@;
        let tx = PointsTransaction {
            timestamp: now,
            points: -(points_to_redeem as i64),
            description: "Points redemption".to_string(),
        };
        acct.history.push(tx);
        proof {
            crate::ledger::lemma_spec_history_push(history_before, tx);
            assert(acct@ =~= spec_redeemed(old(self).ledger@[user_id]@, points_to_redeem, now));
        }
        self.ledger.insert(user_id, acct);
        proof {
            assert(self.ledger@.remove(user_id) =~= old(self).ledger@.remove(user_id));
            if old(self).wf() {
                assert forall|u: u64| #[trigger] self.ledger@.contains_key(u) implies
                    spec_account_wf(self.ledger@[u]@, u) by {
                    if u != user_id {
                        assert(old(self).ledger@.contains_key(u));
                        assert(self.ledger@[u] == old(self).ledger@[u]);
                    }
                }
            }
        }
        Ok("Points successfully redeemed!".to_string())
    }

    /// The event can sell one more ticket: it exists and is not at
    /// capacity.
    pub open spec fn spec_can_sell(self, event_id: u64) -> bool {
        &&& self.events@.contains_key(event_id)
        &&& self.events@[event_id].tickets_sold < self.events@[event_id].total_tickets
    }

    /// The price the purchase below charges: the event's dynamic price
    /// with the buyer's current tier discount.
    pub open spec fn spec_purchase_price(self, event_id: u64, user_id: u64) -> int {
        let ev = self.events@[event_id];
        spec_final_price(
            ev.ticket_price as int,
            ev.total_tickets as int,
            ev.tickets_sold as int,
            spec_tier_of(self.ledger@, user_id),
        )
    }

    /// The machine limits a purchase needs when it would go through: the
    /// scaled price arithmetic fits 128 bits, the dynamic price fits the
    /// ticket's price field, and crediting the earned points does not
    /// overflow the buyer's balance.
    pub open spec fn spec_purchase_fits(self, event_id: u64, user_id: u64) -> bool {
        self.spec_can_sell(event_id) ==> {
            let ev = self.events@[event_id];
            &&& ev.ticket_price * (2 * ev.tickets_sold + ev.total_tickets) <= u128::MAX
            &&& spec_dynamic_price(
                ev.ticket_price as int,
                ev.total_tickets as int,
                ev.tickets_sold as int,
            ) <= u64::MAX
            &&& spec_account_or_new(self.ledger@, user_id).points + spec_points_for_purchase(
                self.spec_purchase_price(event_id, user_id),
            ) <= u64::MAX
        }
    }

    /// One logical purchase transaction. Fails with `NotFound` when the
    /// event does not exist and with `EventFull` when it is at capacity —
    /// in either case no store changes. Otherwise it prices the ticket
    /// from the event's current counters and the buyer's tier, persists
    /// the ticket under the caller-supplied fresh identifier, increments
    /// the event's sold counter, credits the buyer with the points the
    /// price earns, and returns the ticket. The credit succeeds whenever
    /// the purchase does: ticket and points are never split.
    pub fn purchase_ticket_with_dynamic_pricing(
        &mut self,
        payload: PurchaseTicketPayload,
        ticket_id: u64,
        now: u64,
    ) -> (r: Result<Ticket, LoyaltyError>)
        requires
            old(self).wf(),
            !old(self).tickets@.contains_key(ticket_id),
            old(self).spec_purchase_fits(payload.event_id, payload.user_id),
        ensures
            !old(self).events@.contains_key(payload.event_id) ==> {
                &&& r == Err::<Ticket, LoyaltyError>(LoyaltyError::NotFound)
                &&& final(self).ledger@ == old(self).ledger@
                &&& final(self).events@ == old(self).events@
                &&& final(self).tickets@ == old(self).tickets@
            },
            (old(self).events@.contains_key(payload.event_id) && !old(self).spec_can_sell(
                payload.event_id,
            )) ==> {
                &&& r == Err::<Ticket, LoyaltyError>(LoyaltyError::EventFull)
                &&& final(self).ledger@ == old(self).ledger@
                &&& final(self).events@ == old(self).events@
                &&& final(self).tickets@ == old(self).tickets@
            },
            old(self).spec_can_sell(payload.event_id) ==> {
                let ev = old(self).events@[payload.event_id];
                let price = old(self).spec_purchase_price(payload.event_id, payload.user_id);
                &&& r is Ok
                &&& r->Ok_0@ == (TicketModel {
                    id: ticket_id,
                    event_id: payload.event_id,
                    user_id: payload.user_id,
                    purchase_date: now,
                    seat_number: payload.seat_number@,
                    price: price as u64,
                })
                &&& final(self).events@ == old(self).events@.insert(
                    payload.event_id,
                    Event {
                        event_id: ev.event_id,
                        ticket_price: ev.ticket_price,
                        total_tickets: ev.total_tickets,
                        tickets_sold: (ev.tickets_sold + 1) as u64,
                    },
                )
                &&& final(self).tickets@.contains_key(ticket_id)
                &&& final(self).tickets@[ticket_id]@ == r->Ok_0@
                &&& final(self).tickets@.remove(ticket_id) == old(self).tickets@
                &&& final(self).ledger@.contains_key(payload.user_id)
                &&& final(self).ledger@[payload.user_id]@ == spec_awarded(
                    spec_account_or_new(old(self).ledger@, payload.user_id),
                    price,
                    now,
                )
                &&& final(self).ledger@.remove(payload.user_id) == old(self).ledger@.remove(
                    payload.user_id,
                )
            },
            final(self).wf(),
    {
        let event: Event = match self.events.get(&payload.event_id) {
            None => {
                return Err(LoyaltyError::NotFound);
            },
            Some(e) => *e,
        };
        if event.tickets_sold >= event.total_tickets {
            return Err(LoyaltyError::EventFull);
        }
        let tier: Option<LoyaltyTier> = match self.ledger.get(&payload.user_id) {
            Some(a) => Some(a.tier),
            None => None,
        };
        let price: u64 = final_price(event.ticket_price, event.total_tickets, event.tickets_sold, tier);
        let ticket = Ticket {
            id: ticket_id,
            event_id: payload.event_id,
            user_id: payload.user_id,
            purchase_date: now,
            seat_number: payload.seat_number,
            price,
        };
        let stored = ticket.clone();
        self.tickets.insert(ticket_id, stored);
        proof {
            assert(self.tickets@.remove(ticket_id) =~= old(self).tickets@);
        }
        let updated = Event {
            event_id: event.event_id,
            ticket_price: event.ticket_price,
            total_tickets: event.total_tickets,
            tickets_sold: event.tickets_sold + 1,
        };
        self.events.insert(payload.event_id, updated);
        let _credited = self.award_loyalty_points(payload.user_id, price, now);
        Ok(ticket)
    }
}

} // verus!
