//! Transaction-processing core of a ledger-resident hero catalog.
//!
//! The catalog is an array of fixed-width record slots kept in a single
//! repository account owned by the issuing program.  An administrator, proven
//! by a deterministic address derivation rather than a stored roster, creates
//! records; owners re-price them; a purchase moves the bound token, retires the
//! old token's metadata, settles the recorded price and pays the seller.
//!
//! The handlers here are pure state transitions over plain models of the
//! accounts a call touches.  The delegated steps of a purchase (token move,
//! metadata rewrite, native payment) are returned as a [`processor::Settlement`]
//! order list; the surrounding host performs them and guarantees that either
//! every effect of one invocation persists or none does.

pub mod adapters;
pub mod codec;
pub mod error;
pub mod instruction;
pub mod processor;
pub mod state;
