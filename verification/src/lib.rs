//! State core of a terminal dashboard for prediction markets: bounded trade
//! logs, the registry of live trade subscriptions, the order book cache and
//! the scan for near-certain outcomes, together with the forms, lists and
//! selections of the dashboard.
//!
//! Every amount is a whole number: prices, sizes, volumes and dollars in
//! millionths, the shares of a recorded trade in hundredths, returns in
//! millionths of a percent. Every operation is verified against a contract
//! over the views of the types; what the library takes from other crates
//! (task handles, column widths, dates, the clock) stands behind a few small
//! functions whose contracts are stated, not proved.

pub mod auth;
pub mod dates;
pub mod decimal;
pub mod events;
pub mod favorites;
pub mod logs;
pub mod market;
pub mod navigation;
pub mod orderbook;
pub mod pagination;
pub mod popup;
pub mod search;
pub mod seq_facts;
pub mod sorting;
pub mod state;
pub mod text;
pub mod trade;
pub mod trades_ws;
pub mod units;
pub mod view;
pub mod yield_state;
