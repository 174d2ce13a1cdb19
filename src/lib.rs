//! A conditional asset-custody engine: escrow records that hold native or token
//! balances and release them by refund, binary-outcome payout or fixed-price sale.
//! Every operation is a pure decision: it returns the next record together with the
//! ledger transfers that must all succeed before that record is adopted.

pub mod error;
pub mod stage;
pub mod settlement;
pub mod record;
pub mod registry;
pub mod counter;
pub mod transfers;
