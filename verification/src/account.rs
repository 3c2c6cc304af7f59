use vstd::prelude::*;

use crate::address::Address;

verus! {

/// What the processor reads of one account handle: its address, the program
/// that owns it, and its stored data. Handles are borrowed for one call and
/// never retained past it.
pub struct Account {
    pub key: Address,
    pub owner: Address,
    pub data: Vec<u8>,
}

} // verus!
