//! The sorted, duplicate-free set of addresses of a register bank.

use vstd::prelude::*;

verus! {

/// Every address is smaller than every address after it.
pub open spec fn strictly_increasing(s: Seq<u16>) -> bool {
    forall|i: int, j: int| 0 <= i < j < s.len() ==> s[i] < s[j]
}

/// Why an address list was refused.
#[derive(Debug, Clone, Copy, PartialEq, Eq, Structural)]
pub enum AddressError {
    /// `addresses[index]` is not smaller than `addresses[index + 1]`.
    NotIncreasing { index: usize },
}

/// A fixed set of `L` register addresses, strictly increasing, fixed once
/// built. Index `i` of a bank built on it belongs to the `i`-th address.
#[derive(Debug, Clone, Copy)]
pub struct DataStructure<const L: usize> {
    addresses: [u16; L],
}

impl<const L: usize> View for DataStructure<L> {
    type V = Seq<u16>;

    closed spec fn view(&self) -> Seq<u16> {
        self.addresses@
    }
}

impl<const L: usize> DataStructure<L> {
    #[verifier::type_invariant]
    spec fn inv(self) -> bool {
        strictly_increasing(self.addresses@)
    }

    /// Builds the set, refusing addresses that are not strictly increasing;
    /// the error names the first pair out of order.
    pub fn new(addresses: [u16; L]) -> (r: Result<DataStructure<L>, AddressError>)
        ensures
            r is Ok <==> strictly_increasing(addresses@),
            r matches Ok(s) ==> s@ == addresses@,
            r matches Err(AddressError::NotIncreasing { index }) ==> index + 1 < L
                && addresses@[index as int] >= addresses@[index + 1],
    {
        let mut i: usize = 0;
        while i + 1 < L
            invariant
                i == 0 || i < L,
                forall|a: int, b: int| 0 <= a < b <= i && b < L ==> addresses@[a] < addresses@[b],
            decreases L - i,
        {
            if addresses[i] >= addresses[i + 1] {
                return Err(AddressError::NotIncreasing { index: i });
            }
            i = i + 1;
        }
        Ok(DataStructure { addresses })
    }

    /// Index of an address known to be in the set.
    pub fn get(&self, address: u16) -> (r: usize)
        requires
            self@.contains(address),
        ensures
            r < L,
            self@[r as int] == address,
            strictly_increasing(self@),
            self@.len() == L,
    {
        proof {
            use_type_invariant(self);
        }
        match self.find(address) {
            Some(i) => i,
            None => {
                proof {
                    assert(false);
                }
                0
            },
        }
    }

    /// Index of an address by binary search; `None` when it is not in the
    /// set.
    pub fn find(&self, address: u16) -> (r: Option<usize>)
        ensures
            match r {
                Some(i) => i < L && self@[i as int] == address,
                None => !self@.contains(address),
            },
            strictly_increasing(self@),
            self@.len() == L,
    {
        proof {
            use_type_invariant(self);
        }
        let mut lo: usize = 0;
        let mut hi: usize = L;
        while lo < hi
            invariant
                lo <= hi <= L,
                self@.len() == L,
                strictly_increasing(self@),
                forall|k: int| 0 <= k < lo ==> self@[k] < address,
                forall|k: int| hi <= k < L ==> self@[k] > address,
            decreases hi - lo,
        {
            let mid = lo + (hi - lo) / 2;
            let value = self.addresses[mid];
            if value == address {
                return Some(mid);
            } else if value < address {
                lo = mid + 1;
            } else {
                hi = mid;
            }
        }
        None
    }

    /// The address at an index.
    pub fn get_address_by_index(&self, index: usize) -> (r: u16)
        requires
            index < L,
        ensures
            r == self@[index as int],
    {
        self.addresses[index]
    }

    /// The number of addresses.
    pub fn len(&self) -> (r: usize)
        ensures
            r == self@.len(),
            r == L,
    {
        L
    }
}

impl DataStructure<0> {
    /// The set with no address.
    pub fn empty() -> (r: DataStructure<0>)
        ensures
            r@ == Seq::<u16>::empty(),
    {
        let r = DataStructure::<0> { addresses: [] };
        proof {
            assert(r.addresses@ =~= Seq::<u16>::empty());
        }
        r
    }

}

} // verus!
