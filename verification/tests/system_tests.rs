use loyalty_ticketing::loyalty::LoyaltyTier;
use loyalty_ticketing::system::{
    Event, LoyaltyError, PurchaseTicketPayload, TicketingSystem,
};

fn event(event_id: u64, ticket_price: u64, total_tickets: u64, tickets_sold: u64) -> Event {
    Event { event_id, ticket_price, total_tickets, tickets_sold }
}

#[test]
fn award_creates_default_account() {
    let mut s = TicketingSystem::new();
    let a = s.award_loyalty_points(1, 1000, 11);
    assert_eq!(a.user_id, 1);
    assert_eq!(a.points, 150);
    assert_eq!(a.tier, LoyaltyTier::Bronze);
    assert_eq!(a.history.len(), 1);
    assert_eq!(a.history[0].timestamp, 11);
    assert_eq!(a.history[0].points, 150);
    assert_eq!(a.history[0].description, "Points earned from purchase");
    let stored = s.get_account(1).expect("account was created");
    assert_eq!(stored.points, 150);
}

#[test]
fn award_accumulates_and_promotes() {
    let mut s = TicketingSystem::new();
    // 34000 spent earns 3400 + 1700 = 5100 points: Gold at once.
    let a = s.award_loyalty_points(2, 34000, 1);
    assert_eq!(a.points, 5100);
    assert_eq!(a.tier, LoyaltyTier::Gold);
    // A further 40000 earns 6000 more: 11100 points, Platinum.
    let a = s.award_loyalty_points(2, 40000, 2);
    assert_eq!(a.points, 11100);
    assert_eq!(a.tier, LoyaltyTier::Platinum);
    assert_eq!(a.history.len(), 2);
}

#[test]
fn tier_always_matches_points_after_mutations() {
    let mut s = TicketingSystem::new();
    let amounts = [100u64, 1500, 34000, 200, 40000];
    for (i, amt) in amounts.iter().enumerate() {
        let a = s.award_loyalty_points(3, *amt, i as u64);
        let expected = loyalty_ticketing::loyalty::tier_for_points(a.points);
        assert_eq!(a.tier, expected);
    }
    // A successful redemption below a boundary demotes the tier.
    let a = s.get_account(3).expect("account exists");
    let points = a.points;
    assert!(points > 10000);
    s.redeem_points(3, points - 1999, 99).expect("balance suffices");
    let a = s.get_account(3).expect("account exists");
    assert_eq!(a.points, 1999);
    assert_eq!(a.tier, LoyaltyTier::Bronze);
}

#[test]
fn redeem_from_missing_account_not_found() {
    let mut s = TicketingSystem::new();
    let r = s.redeem_points(42, 1, 0);
    assert_eq!(r, Err(LoyaltyError::NotFound));
    assert!(s.get_account(42).is_none());
}

#[test]
fn redeem_more_than_balance_fails_unchanged() {
    let mut s = TicketingSystem::new();
    s.award_loyalty_points(4, 1000, 0);
    let r = s.redeem_points(4, 151, 1);
    assert_eq!(r, Err(LoyaltyError::InsufficientBalance));
    let a = s.get_account(4).expect("account exists");
    assert_eq!(a.points, 150);
    assert_eq!(a.history.len(), 1);
}

#[test]
fn redeem_success_subtracts_and_records() {
    let mut s = TicketingSystem::new();
    s.award_loyalty_points(5, 1000, 0);
    let r = s.redeem_points(5, 50, 7);
    assert_eq!(r, Ok("Points successfully redeemed!".to_string()));
    let a = s.get_account(5).expect("account exists");
    assert_eq!(a.points, 100);
    assert_eq!(a.history.len(), 2);
    assert_eq!(a.history[1].timestamp, 7);
    assert_eq!(a.history[1].points, -50);
    assert_eq!(a.history[1].description, "Points redemption");
}

#[test]
fn redeem_exact_balance_to_zero() {
    let mut s = TicketingSystem::new();
    s.award_loyalty_points(15, 34000, 0); // 5100 points, Gold
    let r = s.redeem_points(15, 5100, 1);
    assert!(r.is_ok());
    let a = s.get_account(15).expect("account exists");
    assert_eq!(a.points, 0);
    assert_eq!(a.tier, LoyaltyTier::Bronze);
    assert_eq!(a.history.len(), 2);
    assert_eq!(a.history[1].points, -5100);
}

#[test]
fn failed_redeem_is_idempotent() {
    let mut s = TicketingSystem::new();
    s.award_loyalty_points(6, 1000, 0);
    let first = s.redeem_points(6, 151, 1);
    let balance_after_first = s.get_account(6).expect("account exists").points;
    let second = s.redeem_points(6, 151, 2);
    let balance_after_second = s.get_account(6).expect("account exists").points;
    assert_eq!(first, second);
    assert_eq!(first, Err(LoyaltyError::InsufficientBalance));
    assert_eq!(balance_after_first, 150);
    assert_eq!(balance_after_second, 150);
    assert_eq!(s.get_account(6).expect("account exists").history.len(), 1);
}

#[test]
fn purchase_gold_buyer_half_demand() {
    let mut s = TicketingSystem::new();
    s.put_event(event(10, 100, 100, 50));
    // 34000 spent makes user 7 a Gold member.
    s.award_loyalty_points(7, 34000, 0);
    let payload = PurchaseTicketPayload {
        event_id: 10,
        user_id: 7,
        seat_number: "A1".to_string(),
    };
    let t = s.purchase_ticket_with_dynamic_pricing(payload, 900, 5).expect("event has room");
    assert_eq!(t.id, 900);
    assert_eq!(t.event_id, 10);
    assert_eq!(t.user_id, 7);
    assert_eq!(t.purchase_date, 5);
    assert_eq!(t.seat_number, "A1");
    assert_eq!(t.price, 85);
    // The sold counter moved, the ticket is stored, the buyer was credited.
    let ev = s.get_event(10).expect("event exists");
    assert_eq!(ev.tickets_sold, 51);
    let stored = s.get_ticket(900).expect("ticket stored");
    assert_eq!(stored.price, 85);
    let a = s.get_account(7).expect("account exists");
    assert_eq!(a.points, 5100 + 8); // 85 spent earns 8 points
    assert_eq!(a.history.len(), 2);
}

#[test]
fn purchase_without_account_full_price() {
    let mut s = TicketingSystem::new();
    s.put_event(event(11, 100, 100, 50));
    let payload = PurchaseTicketPayload {
        event_id: 11,
        user_id: 8,
        seat_number: "B2".to_string(),
    };
    let t = s.purchase_ticket_with_dynamic_pricing(payload, 901, 1).expect("event has room");
    assert_eq!(t.price, 100);
    // The purchase itself creates the buyer's account.
    let a = s.get_account(8).expect("account created by the credit");
    assert_eq!(a.points, 10);
    assert_eq!(a.tier, LoyaltyTier::Bronze);
}

#[test]
fn purchase_missing_event_not_found_no_mutation() {
    let mut s = TicketingSystem::new();
    s.award_loyalty_points(9, 1000, 0);
    let payload = PurchaseTicketPayload {
        event_id: 99,
        user_id: 9,
        seat_number: "C3".to_string(),
    };
    let r = s.purchase_ticket_with_dynamic_pricing(payload, 902, 1);
    assert_eq!(r, Err(LoyaltyError::NotFound));
    assert!(s.get_ticket(902).is_none());
    assert!(s.get_event(99).is_none());
    let a = s.get_account(9).expect("account exists");
    assert_eq!(a.points, 150);
    assert_eq!(a.history.len(), 1);
}

#[test]
fn purchase_at_capacity_event_full_no_mutation() {
    let mut s = TicketingSystem::new();
    s.put_event(event(12, 100, 10, 10));
    let payload = PurchaseTicketPayload {
        event_id: 12,
        user_id: 9,
        seat_number: "D4".to_string(),
    };
    let r = s.purchase_ticket_with_dynamic_pricing(payload, 903, 1);
    assert_eq!(r, Err(LoyaltyError::EventFull));
    assert!(s.get_ticket(903).is_none());
    assert_eq!(s.get_event(12).expect("event exists").tickets_sold, 10);
    assert!(s.get_account(9).is_none());
}

#[test]
fn purchase_raises_price_as_event_fills() {
    let mut s = TicketingSystem::new();
    s.put_event(event(13, 100, 4, 0));
    let mut prices = Vec::new();
    for i in 0..4u64 {
        let payload = PurchaseTicketPayload {
            event_id: 13,
            user_id: 50 + i, // fresh buyer each time: no discount
            seat_number: format!("E{}", i),
        };
        let t = s.purchase_ticket_with_dynamic_pricing(payload, 910 + i, i).expect("room left");
        prices.push(t.price);
    }
    // Multipliers 0.5, 0.75, 1.0, 1.25 over a base price of 100.
    assert_eq!(prices, vec![50, 75, 100, 125]);
    let payload = PurchaseTicketPayload {
        event_id: 13,
        user_id: 60,
        seat_number: "E5".to_string(),
    };
    let r = s.purchase_ticket_with_dynamic_pricing(payload, 920, 9);
    assert_eq!(r, Err(LoyaltyError::EventFull));
}

#[test]
fn put_event_overwrites_record() {
    let mut s = TicketingSystem::new();
    s.put_event(event(14, 100, 10, 0));
    s.put_event(event(14, 200, 20, 5));
    let ev = s.get_event(14).expect("event exists");
    assert_eq!(ev.ticket_price, 200);
    assert_eq!(ev.total_tickets, 20);
    assert_eq!(ev.tickets_sold, 5);
}
