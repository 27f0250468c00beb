//! A request dispatcher for a small group-membership service.
//!
//! A decoded request (a set of typed fields) is validated, gated on session
//! authentication, and routed to one of a fixed set of actions; the result is
//! always exactly one status-coded outcome.

use vstd::prelude::*;

pub mod dispatch;
pub mod laws;
pub mod outcome;
pub mod request;
pub mod state;
pub mod text;

verus! {

} // verus!
