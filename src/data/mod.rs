//! A value with an optional constraint on writes.

pub mod constraint;

use vstd::prelude::*;
use constraint::DataConstraint;

verus! {

/// A value and the constraint that writes to it must satisfy, if any.
#[derive(Debug, Clone, Copy)]
pub struct Data<T: Ord + Copy, F: Fn(&T) -> bool> {
    value: T,
    constraint: Option<DataConstraint<T, F>>,
}

impl<T: Ord + Copy, F: Fn(&T) -> bool> Data<T, F> {
    /// The value held.
    pub closed spec fn spec_value(&self) -> T {
        self.value
    }

    /// The constraint on writes, if any.
    pub closed spec fn spec_constraint(&self) -> Option<DataConstraint<T, F>> {
        self.constraint
    }

    /// A value without constraint.
    pub closed spec fn spec_new(initial_value: T) -> Data<T, F> {
        Data { value: initial_value, constraint: None }
    }

    /// A value without constraint.
    pub fn new(initial_value: T) -> (r: Data<T, F>)
        ensures
            r == Data::<T, F>::spec_new(initial_value),
            r.spec_value() == initial_value,
            r.spec_constraint() is None,
    {
        Data { value: initial_value, constraint: None }
    }

    /// Replaces the constraint, unless the value breaks the constraint already
    /// in place.
    pub fn with_constraint(self, constraint: DataConstraint<T, F>) -> (r: Result<Data<T, F>, ()>)
        requires
            self.spec_constraint() matches Some(c) ==> c.can_check(&self.spec_value()),
        ensures
            match self.spec_constraint() {
                None => r is Ok,
                Some(c) => c.allows(&self.spec_value(), r is Ok),
            },
            r matches Ok(d) ==> d.spec_value() == self.spec_value() && d.spec_constraint() == Some(
                constraint,
            ),
    {
        let mut data = self;
        if let Some(current) = &data.constraint {
            if !current.validate(&data.value) {
                return Err(());
            }
        }
        data.constraint = Some(constraint);
        Ok(data)
    }

    /// The value held.
    pub fn get_value(&self) -> (r: T)
        ensures
            r == self.spec_value(),
    {
        self.value
    }

    /// Writes `value` if the constraint allows it; the value stays as it was
    /// otherwise.
    pub fn set_value(&mut self, value: &T) -> (r: Result<(), ()>)
        requires
            old(self).spec_constraint() matches Some(c) ==> c.can_check(value),
        ensures
            final(self).spec_constraint() == old(self).spec_constraint(),
            match old(self).spec_constraint() {
                None => r is Ok && final(self).spec_value() == *value,
                Some(c) => c.allows(value, r is Ok) && (r is Ok ==> final(self).spec_value()
                    == *value) && (r is Err ==> final(self).spec_value() == old(self).spec_value()),
            },
    {
        if let Some(current) = &self.constraint {
            if !current.validate(value) {
                return Err(());
            }
        }
        self.value = *value;
        Ok(())
    }
}

} // verus!
