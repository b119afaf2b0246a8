pub mod account;
pub mod balance_change;
pub mod daily_ledger;
pub mod ledger;
pub mod payment;
pub mod transaction;
