//! The cross-contract surfaces this farm relies on, stated as traits: its
//! own asynchronous callback entry points, and the transfer primitive each
//! external asset service exposes. The surrounding runtime implements
//! them; the library only shapes the calls.

use vstd::prelude::*;

verus! {

/// The farm's own asynchronous entry points, invoked later by the runtime
/// as chained callbacks.
pub trait ExtFarm {
    /// Second-stage notification that a transfer completed.
    fn on_transfer(&mut self, sender: Vec<u8>, receiver: Vec<u8>, amount: u128);

    /// Registration of the farm's identity with an asset service.
    fn register_account(&mut self, account_id: Vec<u8>);
}

/// The transfer primitive of an external asset service.
pub trait FungibleToken {
    /// Move `amount` to `receiver_id`, with an optional memo.
    fn ft_transfer(&mut self, receiver_id: Vec<u8>, amount: u128, memo: Option<Vec<u8>>);
}

} // verus!
