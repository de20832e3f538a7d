//! A flash address: a 24-bit offset carried in a 32-bit container.

use vstd::prelude::*;

verus! {

/// A byte position in the target flash device's address space. The wire
/// carries it as a 3-byte little-endian field, so decoded addresses fit in
/// 24 bits.
#[derive(Clone, Copy, Debug, PartialEq, Eq, Structural)]
pub struct Address(pub u32);

impl From<u32> for Address {
    fn from(value: u32) -> (r: Address) {
        Address(value)
    }
}

impl vstd::std_specs::convert::FromSpecImpl<u32> for Address {
    open spec fn obeys_from_spec() -> bool {
        true
    }

    open spec fn from_spec(value: u32) -> Address {
        Address(value)
    }
}

} // verus!
