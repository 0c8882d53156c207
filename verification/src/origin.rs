//! Caller identities, as the host runtime presents them to a dispatchable
//! operation.

use vstd::prelude::*;

verus! {

/// The identity under which an operation is invoked.
///
/// `Root` is the administrative identity; `Signed` carries the account that
/// signed the transaction; `Anonymous` is an unauthenticated caller, which
/// every operation rejects.
#[derive(Clone, Copy, PartialEq, Eq, Debug)]
pub enum Origin {
    /// The administrative (elevated) identity.
    Root,
    /// An authenticated account.
    Signed(u64),
    /// No identity at all.
    Anonymous,
}

impl Origin {
    /// The origin is an authenticated account.
    pub open spec fn is_signed(&self) -> bool {
        match *self {
            Origin::Signed(_) => true,
            _ => false,
        }
    }

    /// The origin is the administrative identity.
    pub open spec fn is_root(&self) -> bool {
        match *self {
            Origin::Root => true,
            _ => false,
        }
    }

    /// The origin may invoke operations open to accounts and to the
    /// administrative identity alike.
    pub open spec fn is_signed_or_root(&self) -> bool {
        self.is_signed() || self.is_root()
    }
}

} // verus!
