//! Bookkeeping core of a staking registry: entities and their members,
//! checked stake-intent deposits, and the activation state machine that
//! decides an entity's reward eligibility from its aggregate stake.

use vstd::prelude::*;

pub mod access_control;
pub mod entity;
pub mod error;
pub mod ledger;
pub mod member;
pub mod pubkey;
pub mod registrar;
pub mod stake_intent;
pub mod vault;
