//! Synthetic change-point sample sequences drawn from normal regimes.
//!
//! The library holds the decisions of the generators: which steps to draw,
//! when an X-bar/s control chart has signalled, what the output sequence is,
//! how a batch of generations is aggregated, and how seeds are drawn and
//! written as text. Drawing the samples and estimating their parameters is the
//! work of the caller, who feeds the outcomes back as events.

pub mod error;
pub mod sequence;
pub mod chart;
pub mod batch;
pub mod scenario;
pub mod text;
