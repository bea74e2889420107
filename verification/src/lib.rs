//! Risk-scoring engine for a live registry of token-market snapshots.
//!
//! The library keeps the latest known snapshot per token identifier,
//! synthesizes per-holder and per-trade model inputs from a snapshot's
//! declared aggregates, scores concentration and bot-like trading, and
//! classifies the result into discrete risk tiers.  All quantities that
//! arrive as decimal numbers on the wire (prices, volumes,
//! percentages, scores) are carried as integer counts of millionths
//! ("micro-units"), so that every computation is exact and verified.

pub mod analysis;
pub mod bot;
pub mod decode;
pub mod fixed;
pub mod holdings;
pub mod ingest;
pub mod json;
pub mod math;
pub mod metrics;
pub mod registry;
pub mod risk;
pub mod settings;
pub mod time;
pub mod token;
pub mod trades;
