use vstd::prelude::*;

verus! {

/// A 32-byte account address, held as two 128-bit halves: `lo` holds bytes
/// 0..16 and `hi` bytes 16..32, each in little-endian order.
#[derive(Clone, Copy, PartialEq, Eq, Structural, Debug)]
pub struct Address {
    pub lo: u128,
    pub hi: u128,
}

} // verus!
