//! Launches a primary program and its helper programs so that they all end
//! together: every child is attached to one Windows job object whose handle
//! kills its members when it is closed.
//!
//! The library holds the decisions; the caller performs the system calls that
//! they name and hands the outcomes back.
use vstd::prelude::*;

pub mod job;
pub mod launch;

verus! {

} // verus!
