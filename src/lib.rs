//! A virtual pet whose vitals decay over time and are restored by care actions,
//! with owner-gated custody and token operations and a dispatcher for requests.
use vstd::prelude::*;

pub mod action;
pub mod identity;
pub mod ledger;
pub mod pet;

pub use action::{handle, AttributeId, TmgAction, TmgEvent};
pub use identity::{require_owner, ActorId, TmgError};
pub use ledger::apply_decay_and_refill;
pub use pet::Tamagotchi;

verus! {

} // verus!
