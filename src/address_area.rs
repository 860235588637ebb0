//! A fixed-capacity store of values, keyed by unique addresses.

use vstd::prelude::*;
use crate::data::Data;
use crate::data_area::{first_free, free_slots, holds_address, placement, Placement, Slot};

verus! {

/// A store of up to `L` values, each under a unique address.
pub struct AddressArea<T: Ord + Copy, F: Fn(&T) -> bool, const L: usize> {
    slots: Vec<Slot<T, F>>,
}

impl<T: Ord + Copy, F: Fn(&T) -> bool, const L: usize> AddressArea<T, F, L> {
    /// The slots, in order.
    pub closed spec fn spec_slots(&self) -> Seq<Slot<T, F>> {
        self.slots@
    }

    /// A store with `L` free slots.
    pub fn new() -> (r: AddressArea<T, F, L>)
        ensures
            r.spec_slots().len() == L,
            forall|i: int| 0 <= i < L ==> #[trigger] r.spec_slots()[i] is None,
    {
        AddressArea { slots: free_slots(L) }
    }

    /// Adds `address` with an unconstrained initial value in the first free
    /// slot. Fails when the address is present or no slot is free.
    pub fn add(&mut self, address: u16, initial_value: T) -> (r: Result<(), ()>)
        ensures
            holds_address(old(self).spec_slots(), address) ==> r is Err && final(self).spec_slots()
                == old(self).spec_slots(),
            !holds_address(old(self).spec_slots(), address) ==> match r {
                Ok(()) => exists|i: int|
                    first_free(old(self).spec_slots(), i) && final(self).spec_slots()
                        == old(self).spec_slots().update(
                        i,
                        Some((address, Data::spec_new(initial_value))),
                    ),
                Err(()) => final(self).spec_slots() == old(self).spec_slots() && forall|j: int|
                    0 <= j < old(self).spec_slots().len() ==> #[trigger] old(self).spec_slots()[j] is Some,
            },
    {
        match placement(&self.slots, address) {
            Placement::Duplicate => Err(()),
            Placement::Free(i) => {
                self.slots.set(i, Some((address, Data::new(initial_value))));
                Ok(())
            },
            Placement::Full => Err(()),
        }
    }
}

} // verus!
