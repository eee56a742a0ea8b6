//! A sale controller for a fixed-supply batch-mint event.
//!
//! The crate tracks a single active sale configuration, enforces a time
//! window and an exact-payment rule on every purchase, splits each payment
//! between a partner address and the configured withdrawal address, and
//! produces a contiguous, gap-free sequence of mint instructions for an
//! external collection issuer.

pub mod api;
pub mod contract;
pub mod error;
pub mod numeral;
