use vstd::prelude::*;

use crate::club::AccountId;

verus! {

/// An amount of currency.
pub type Balance = u64;

/// Whether a transfer may leave the payer's account empty and so remove it.
#[derive(Clone, Copy, Debug, PartialEq, Eq)]
pub enum ExistenceRequirement {
    KeepAlive,
    AllowDeath,
}

/// The currency that dues are settled in, supplied by the runtime that hosts
/// the registry.
pub trait Ledger {
    /// Moves `amount` from `from` to `to`. Returns false, having moved
    /// nothing, when `from` cannot pay it under `existence`.
    fn transfer(
        &mut self,
        from: AccountId,
        to: AccountId,
        amount: Balance,
        existence: ExistenceRequirement,
    ) -> bool;
}

} // verus!
