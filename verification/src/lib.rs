//! A peer-to-peer marketplace whose listings move through a small life cycle
//! (posted, sold, reviewed by both parties, settled) and whose trust signal
//! comes from a reputation engine behind a narrow interface.
//!
//! Every operation is a deterministic transition of an explicit state value;
//! the contracts state each transition over a mathematical model of that state.

use vstd::prelude::*;

pub mod allocator;
pub mod beta_feedback;
pub mod laws;
pub mod marketplace;
pub mod registry;
pub mod reputation_trait;
pub mod simple_feedback;

verus! {

/// The identity of an authenticated caller.
pub type AccountId = u64;

} // verus!
