//! Fixed-capacity stores of constrained values, keyed by unique addresses.

use vstd::prelude::*;
use crate::data::Data;

verus! {

/// One slot of a store: free, or an address with its data.
pub type Slot<T, F> = Option<(u16, Data<T, F>)>;

/// The slot holds `address`.
pub open spec fn slot_has<T: Ord + Copy, F: Fn(&T) -> bool>(slot: Slot<T, F>, address: u16) -> bool {
    match slot {
        Some(e) => e.0 == address,
        None => false,
    }
}

/// Some slot holds `address`.
pub open spec fn holds_address<T: Ord + Copy, F: Fn(&T) -> bool>(
    slots: Seq<Slot<T, F>>,
    address: u16,
) -> bool {
    exists|i: int| 0 <= i < slots.len() && slot_has(#[trigger] slots[i], address)
}

/// Slot `i` is the first free slot.
pub open spec fn first_free<T: Ord + Copy, F: Fn(&T) -> bool>(slots: Seq<Slot<T, F>>, i: int) -> bool {
    &&& 0 <= i < slots.len()
    &&& slots[i] is None
    &&& forall|j: int| 0 <= j < i ==> #[trigger] slots[j] is Some
}

/// Where a new address would go.
pub(crate) enum Placement {
    /// The address is already present.
    Duplicate,
    /// The first free slot.
    Free(usize),
    /// Every slot is taken.
    Full,
}

/// Finds where `address` would go among `slots`.
pub(crate) fn placement<T: Ord + Copy, F: Fn(&T) -> bool>(slots: &Vec<Slot<T, F>>, address: u16) -> (r: Placement)
    ensures
        r is Duplicate <==> holds_address(slots@, address),
        r matches Placement::Free(i) ==> first_free(slots@, i as int),
        r is Full ==> forall|j: int| 0 <= j < slots@.len() ==> #[trigger] slots@[j] is Some,
{
    let mut free: Option<usize> = None;
    let mut i: usize = 0;
    while i < slots.len()
        invariant
            i <= slots@.len(),
            !holds_address(slots@.subrange(0, i as int), address),
            match free {
                Some(k) => first_free(slots@, k as int) && k < i,
                None => forall|j: int| 0 <= j < i ==> #[trigger] slots@[j] is Some,
            },
        decreases slots.len() - i,
    {
        match &slots[i] {
            Some(entry) => {
                if entry.0 == address {
                    proof {
                        assert(slot_has(slots@[i as int], address));
                    }
                    return Placement::Duplicate;
                }
            },
            None => {
                if free.is_none() {
                    free = Some(i);
                }
            },
        }
        proof {
            let s = slots@.subrange(0, i + 1);
            if holds_address(s, address) {
                let k = choose|k: int| 0 <= k < s.len() && slot_has(#[trigger] s[k], address);
                if k < i {
                    assert(slots@.subrange(0, i as int)[k] == s[k]);
                }
            }
        }
        i = i + 1;
    }
    proof {
        assert(slots@.subrange(0, slots@.len() as int) =~= slots@);
    }
    match free {
        Some(k) => Placement::Free(k),
        None => Placement::Full,
    }
}

/// Why data could not be added to a store.
#[derive(Debug, Clone, Copy, PartialEq, Eq, Structural)]
pub enum DataAreaError {
    /// The address is already present.
    DuplicatedAddress(u16),
    /// Every slot is taken; holds the capacity.
    SlotsAreFull(usize),
}

/// A store of up to `L` constrained values, each under a unique address.
pub struct DataArea<T: Ord + Copy, F: Fn(&T) -> bool, const L: usize> {
    slots: Vec<Slot<T, F>>,
}

impl<T: Ord + Copy, F: Fn(&T) -> bool, const L: usize> DataArea<T, F, L> {
    /// The slots, in order.
    pub closed spec fn spec_slots(&self) -> Seq<Slot<T, F>> {
        self.slots@
    }

    /// A store with `L` free slots.
    pub fn new() -> (r: DataArea<T, F, L>)
        ensures
            r.spec_slots().len() == L,
            forall|i: int| 0 <= i < L ==> #[trigger] r.spec_slots()[i] is None,
    {
        DataArea { slots: free_slots(L) }
    }

    /// Puts `data` under `address` in the first free slot.
    ///
    /// Fails when the address is already present, or when no slot is free.
    pub fn put(&mut self, address: u16, data: Data<T, F>) -> (r: Result<(), DataAreaError>)
        ensures
            holds_address(old(self).spec_slots(), address) ==> r == Err::<(), DataAreaError>(
                DataAreaError::DuplicatedAddress(address),
            ) && final(self).spec_slots() == old(self).spec_slots(),
            !holds_address(old(self).spec_slots(), address) ==> match r {
                Ok(()) => exists|i: int|
                    first_free(old(self).spec_slots(), i) && final(self).spec_slots()
                        == old(self).spec_slots().update(i, Some((address, data))),
                Err(e) => e == DataAreaError::SlotsAreFull(old(self).spec_slots().len() as usize)
                    && final(self).spec_slots() == old(self).spec_slots() && forall|j: int|
                    0 <= j < old(self).spec_slots().len() ==> #[trigger] old(self).spec_slots()[j] is Some,
            },
    {
        match placement(&self.slots, address) {
            Placement::Duplicate => Err(DataAreaError::DuplicatedAddress(address)),
            Placement::Free(i) => {
                self.slots.set(i, Some((address, data)));
                Ok(())
            },
            Placement::Full => Err(DataAreaError::SlotsAreFull(self.slots.len())),
        }
    }
}

/// `n` free slots.
pub(crate) fn free_slots<T: Ord + Copy, F: Fn(&T) -> bool>(n: usize) -> (r: Vec<Slot<T, F>>)
    ensures
        r@.len() == n,
        forall|i: int| 0 <= i < n ==> #[trigger] r@[i] is None,
{
    let mut slots: Vec<Slot<T, F>> = Vec::new();
    let mut i: usize = 0;
    while i < n
        invariant
            i <= n,
            slots@.len() == i,
            forall|j: int| 0 <= j < i ==> #[trigger] slots@[j] is None,
        decreases n - i,
    {
        slots.push(None);
        i = i + 1;
    }
    slots
}

} // verus!
