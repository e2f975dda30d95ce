//! A zero-coupon bond issuance: a fixed supply of indivisible bond units is
//! minted once, sold one unit at a time for a fixed price, and bought back at
//! `notional_principal + discount` per unit.
//!
//! All currency amounts are unsigned integers in the smallest unit of the
//! configured currency; timestamps are seconds since an epoch. Custody of
//! balances is modelled by [`vault::Vault`] (issuer-side) and
//! [`bucket::BondBucket`] (holder-side); the current time is an explicit
//! argument of the read-only queries, so the clock stays outside the library.

pub mod bucket;
pub mod issuance;
pub mod laws;
pub mod vault;
