//! Constraints on values written by a master.

use vstd::prelude::*;
use vstd::std_specs::cmp::{PartialEqIs, PartialEqSpec, PartialOrdIs, PartialOrdSpec};

verus! {

/// A rule that a value written by a master must satisfy. A custom rule is a
/// predicate supplied by the device's code.
#[derive(Debug, Clone, Copy)]
pub enum DataConstraint<T: Ord + Copy, F: Fn(&T) -> bool> {
    /// Only this value is allowed.
    Only(T),
    /// Values from `min` to `max`, both included, are allowed.
    Range { min: T, max: T },
    /// Values for which the predicate returns `true` are allowed.
    Custom(F),
}

impl<T: Ord + Copy, F: Fn(&T) -> bool> DataConstraint<T, F> {
    /// The predicate of a custom rule accepts to be asked about `value`.
    pub open spec fn can_check(&self, value: &T) -> bool {
        match *self {
            DataConstraint::Custom(f) => f.requires((value,)),
            _ => true,
        }
    }

    /// Whether `value` satisfies the constraint, for a type whose `==` and
    /// `<=` follow their specifications.
    pub open spec fn allows(&self, value: &T, r: bool) -> bool {
        match *self {
            DataConstraint::Only(expected) => T::obeys_eq_spec() ==> r == value.is_eq(&expected),
            DataConstraint::Range { min, max } => T::obeys_partial_cmp_spec() ==> r == (min.is_le(
                value,
            ) && value.is_le(&max)),
            DataConstraint::Custom(f) => f.ensures((value,), r),
        }
    }

    /// Whether `value` satisfies the constraint.
    pub fn validate(&self, value: &T) -> (r: bool)
        requires
            self.can_check(value),
        ensures
            self.allows(value, r),
    {
        match self {
            DataConstraint::Only(expected) => *value == *expected,
            DataConstraint::Range { min, max } => *min <= *value && *value <= *max,
            DataConstraint::Custom(func) => func(value),
        }
    }
}

} // verus!
