//! A register bank: an address set paired with one value per address.

use vstd::prelude::*;
use crate::slave::structure::{strictly_increasing, DataStructure};

verus! {

/// Values stored at the addresses of a [`DataStructure`]; value `i` belongs
/// to address `i` of the structure.
#[derive(Debug, Clone, Copy)]
pub struct DataModel<const L: usize, T: Copy> {
    structure: DataStructure<L>,
    values: [T; L],
}

impl<const L: usize, T: Copy> DataModel<L, T> {
    /// The addresses of the bank, in increasing order.
    pub closed spec fn addresses(&self) -> Seq<u16> {
        self.structure@
    }

    /// The values of the bank, one per address.
    pub closed spec fn values(&self) -> Seq<T> {
        self.values@
    }

    /// Creates a bank on `structure` with the given initial values.
    pub fn new(structure: DataStructure<L>, initial_values: [T; L]) -> (r: DataModel<L, T>)
        ensures
            r.addresses() == structure@,
            r.values() == initial_values@,
    {
        DataModel { structure, values: initial_values }
    }

    /// The value at an address known to be in the bank.
    pub fn get_value(&self, address: u16) -> (r: T)
        requires
            self.addresses().contains(address),
        ensures
            forall|i: int|
                0 <= i < self.addresses().len() && self.addresses()[i] == address ==> r
                    == self.values()[i],
    {
        let index = self.structure.get(address);
        proof {
            assert forall|i: int|
                0 <= i < self.addresses().len() && self.addresses()[i] == address implies i
                == index by {
                if i < index {
                    assert(self.addresses()[i] < self.addresses()[index as int]);
                } else if i > index {
                    assert(self.addresses()[index as int] < self.addresses()[i]);
                }
            }
        }
        self.values[index]
    }

    /// The value at an address, or `None` when the address is not in the bank.
    pub fn find_value(&self, address: u16) -> (r: Option<T>)
        ensures
            r is Some <==> self.addresses().contains(address),
            forall|i: int|
                0 <= i < self.addresses().len() && self.addresses()[i] == address ==> r == Some(
                    self.values()[i],
                ),
    {
        match self.structure.find(address) {
            Some(index) => {
                proof {
                    assert(self.addresses()[index as int] == address);
                    assert forall|i: int|
                        0 <= i < self.addresses().len() && self.addresses()[i] == address implies i
                        == index by {
                        if i < index {
                            assert(self.addresses()[i] < self.addresses()[index as int]);
                        } else if i > index {
                            assert(self.addresses()[index as int] < self.addresses()[i]);
                        }
                    }
                }
                Some(self.values[index])
            },
            None => None,
        }
    }

    /// Overwrites the value at an index obtained from a lookup.
    pub fn set_value(&mut self, index: usize, value: T)
        requires
            index < L,
        ensures
            final(self).addresses() == old(self).addresses(),
            final(self).values() == old(self).values().update(index as int, value),
    {
        self.values[index] = value;
    }

    /// The index of an address known to be in the bank.
    pub fn get_index(&self, address: u16) -> (r: usize)
        requires
            self.addresses().contains(address),
        ensures
            r < L,
            self.addresses()[r as int] == address,
            strictly_increasing(self.addresses()),
            self.addresses().len() == L,
    {
        self.structure.get(address)
    }

    /// The index of an address, or `None` when it is not in the bank.
    pub fn find_index(&self, address: u16) -> (r: Option<usize>)
        ensures
            match r {
                Some(i) => i < L && self.addresses()[i as int] == address,
                None => !self.addresses().contains(address),
            },
            strictly_increasing(self.addresses()),
            self.addresses().len() == L,
    {
        self.structure.find(address)
    }

    /// Returns `true` when the bank has no address.
    pub fn is_empty(&self) -> (r: bool)
        ensures
            r == (self.addresses().len() == 0),
    {
        self.structure.len() == 0
    }
}

impl<T: Copy> DataModel<0, T> {
    /// A bank with no address, for a function the device does not offer.
    pub fn empty() -> (r: DataModel<0, T>)
        ensures
            r.addresses() == Seq::<u16>::empty(),
    {
        DataModel { structure: DataStructure::<0>::empty(), values: [] }
    }
}

} // verus!
