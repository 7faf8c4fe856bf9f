//! Verified core of the sniper trading bot: the fixed-capacity history
//! buffer, the signal, trade-gate and exit rules, and the feed configuration.

pub mod ring_buffer;
pub mod strategy;
pub mod execution;
pub mod regime;
pub mod decision;
pub mod aggregator;
pub mod simulation;
pub mod paper_trade;
pub mod reconnect;
pub mod mode;
pub mod text;
pub mod feed;
