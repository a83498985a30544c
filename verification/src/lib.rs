//! Stake-backed catalog library: share pricing, lock pricing, subscriptions, farms, storage
//! accounting and the validator settlement pipeline, each stated over plain values.

pub mod u256;
pub mod pricing;
pub mod types;
pub mod strvec;
pub mod errors;
pub mod validators;
pub mod epoch;
pub mod withdraw;
pub mod catalog;
pub mod subscriptions;
pub mod ids;
pub mod storage;
pub mod governance;
pub mod lock;
pub mod farm;
pub mod payments;
pub mod rewards;
pub mod cli;
pub mod oracle;
pub mod versions;
pub mod bootstrap;
pub mod bootstrap_config;
pub mod paging;
