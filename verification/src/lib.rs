//! A verified model of a small runtime module that registers delayed,
//! named price lookups with a scheduling service and emits notification
//! events about price-path lookups.
//!
//! The module's own logic — origin checking, schedule-name derivation,
//! the registry bookkeeping the scheduler performs on its behalf, and the
//! notification rules — is specified and proved here. The surrounding
//! runtime (transaction dispatch, the price-routing service's internals)
//! supplies the inputs: the caller's origin, the lookup results, and the
//! current block number.

pub mod origin;
pub mod schedule;
pub mod name;
pub mod price;
pub mod scheduler;
pub mod pallet;
