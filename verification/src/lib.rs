//! A fungible-token ledger: balances, delegated allowances, total supply,
//! a pause switch and a single owner, with every operation verified.
//!
//! [`TokenBalance`] is the ledger. It implements [`TokenBalanceView`] for
//! reading and [`TokenBalanceMut`] for operating; both state what they do
//! over the mathematical [`model::Ledger`]. The module [`laws`] proves what
//! holds of every ledger: that value is conserved, that a paused ledger
//! moves nothing, that only the owner administers it.
//!
//! The ledger knows of no environment. The caller of an operation is an
//! argument, and notifications are recorded in the ledger for whoever hosts
//! it to deliver.

pub mod account;
pub mod errors;
pub mod events;
pub mod history;
pub mod interfaces;
pub mod laws;
pub mod ledger;
pub mod model;
pub mod table;
pub mod totals;

pub use account::AccountId;
pub use errors::{AppResult, TokenBalanceError};
pub use events::Event;
pub use interfaces::{TokenBalanceMut, TokenBalanceView};
pub use ledger::TokenBalance;
