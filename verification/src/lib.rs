//! A loyalty ledger combined with dynamic-priced event-ticket purchases.
//!
//! Accounts accrue points for purchases and are placed in a tier by their
//! point total; tickets are priced from an event's current demand and the
//! buyer's tier. The stores, the pure engines, and the purchase transaction
//! that ties them together live here, each with a verified contract.

pub mod ledger;
pub mod loyalty;
pub mod pricing;
pub mod system;
