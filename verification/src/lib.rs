//! A vesting controller for a tokenized asset.
//!
//! The controller releases a bounded share of a locked reserve over time.
//! The bound is a dynamic cap expressed as a percentage of the asset's
//! circulating supply, which is derived by subtracting externally queried
//! non-circulating pools from the total supply. An emergency override lets
//! an authorized party recover the full remaining reserve once an
//! activation condition holds.
//!
//! All amounts are fixed-point decimals ([`decimal::Decimal`]). External
//! reads (total supply, pool balances, the clock) are performed by the host
//! and handed to the library as plain values, so every decision the
//! controller makes is verified.

pub mod decimal;
pub mod laws;
pub mod override_state;
pub mod registry;
pub mod vester;
