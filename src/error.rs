use vstd::prelude::*;

verus! {

/// An index that is not below the dimension it addresses.
#[derive(Clone, Copy, Debug, PartialEq, Eq)]
pub struct IndexOutOfRange {
    /// The index that was asked for.
    pub index: usize,
    /// The number of valid indices.
    pub len: usize,
}

} // verus!
