//! A resource-metering and pricing engine for block execution.
//!
//! A [`policy::ResourceControlPolicy`] is an immutable record of unit prices
//! and per-block limits. Its pricing functions turn raw resource quantities
//! (bytes, fuel units, operation and message counts) into monetary
//! [`amount::Amount`]s using checked arithmetic that reports overflow
//! instead of wrapping.

pub mod amount;
pub mod codec;
pub mod policy;
pub mod presets;
