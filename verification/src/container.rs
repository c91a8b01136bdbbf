//! From the address of a field to the address of the struct around it.

use vstd::prelude::*;

verus! {

/// The address of the struct whose field at `offset` lies at `field`.
///
/// Both addresses belong to one allocation, which the caller knows and this
/// function cannot see; so the field does not lie below its own offset.
pub fn container_of(field: usize, offset: usize) -> (container: usize)
    requires
        offset <= field,
    ensures
        container == field - offset,
        container + offset == field,
{
    field - offset
}

} // verus!
