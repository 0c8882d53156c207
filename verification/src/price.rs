//! Plain-value forms of the price-routing collaborator's payloads.
//!
//! The module forwards monitoring operations to the price-routing service
//! and receives lookup results from it; it never inspects a price path
//! beyond carrying it into a notification. These types hold exactly what
//! crosses that boundary.

use vstd::prelude::*;

verus! {

/// Whether a provider pair is to start or stop being monitored.
#[derive(Clone, Copy, PartialEq, Eq, Debug)]
pub enum OperationKind {
    Add,
    Delete,
}

/// One monitoring operation forwarded to the price-routing service:
/// a (source, target) identifier pair, the provider it is quoted by, and
/// whether to add or delete it.
#[derive(Clone, PartialEq, Eq, Debug)]
pub struct ProviderPairOperation {
    pub source: Vec<u8>,
    pub target: Vec<u8>,
    pub provider: u64,
    pub operation: OperationKind,
}

/// One hop of a price path: a quoted pair, its provider, and its cost.
#[derive(Clone, PartialEq, Eq, Debug)]
pub struct PathStep {
    pub source: Vec<u8>,
    pub target: Vec<u8>,
    pub provider: u64,
    pub cost: u64,
}

/// A price path as the price-routing service reports it: the overall cost
/// and the hops that make it up.
#[derive(Clone, PartialEq, Eq, Debug)]
pub struct PricePath {
    pub total_cost: u64,
    pub steps: Vec<PathStep>,
}

} // verus!
