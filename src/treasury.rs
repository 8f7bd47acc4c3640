//! The treasury that collects boost fees across all boards.

use vstd::prelude::*;
use crate::address::Address;

verus! {

/// The single fee collector: its authority and everything collected so far.
#[derive(Clone, Copy, Debug)]
pub struct Treasury {
    pub authority: Address,
    pub total_collected: u64,
}

/// Opens the treasury with nothing collected.
pub fn initialize_treasury(authority: Address) -> (t: Treasury)
    ensures
        t.authority == authority,
        t.total_collected == 0,
{
    Treasury { authority, total_collected: 0 }
}

} // verus!
