//! Session routing for a modmail relay: a bidirectional index between end
//! users and their dedicated staff channels, the decisions that turn inbound
//! chat events into index updates and outbound sends, and the snapshot format
//! that keeps the index across restarts.
use vstd::prelude::*;

pub mod json;
pub mod laws;
pub mod router;
pub mod storage;

verus! {

} // verus!
