use vstd::prelude::*;

verus! {

/// An authenticated account identifier (a principal).
///
/// On the host ledger a principal is an opaque address; the only thing the
/// vault's logic ever does with one is compare it for equality, so it is
/// modelled here as a plain numeric identifier. The hosting environment is
/// responsible for authentication: a principal handed to a mutating
/// operation stands for a caller the host has already verified.
#[derive(Clone, Copy, PartialEq, Eq, Structural, Debug, Hash)]
pub struct Address {
    pub id: u64,
}

impl Address {
    pub fn new(id: u64) -> (a: Address)
        ensures
            a.id == id,
    {
        Address { id }
    }
}

} // verus!
