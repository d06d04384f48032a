//! Core of a market-tick pipeline: a bounded price window, a moving-average
//! strategy with a hysteresis band, a paper-trading ledger and a metrics
//! aggregator, each stated over a mathematical model and verified against it.

pub mod decimal;
pub mod event;
pub mod feed;
pub mod histogram;
pub mod ledger;
pub mod metrics;
pub mod queue;
pub mod replay;
pub mod signal;
pub mod strategy;
pub mod window;
