//! Gauge cells for the metric values the scraper reports: a plain
//! boolean, and a tri-state boolean kept as its raw wire byte so that
//! out-of-band codes stay observable.  The registry and exposition
//! server that render them live with the caller.

use vstd::prelude::*;

use crate::model::{spec_number_bool_to_byte, NumberBool};

verus! {

/// A gauge holding a boolean, exposed as `0` or `1`.
#[derive(Debug, Clone, Copy, PartialEq, Eq, Structural)]
pub struct BooleanGauge {
    value: bool,
}

impl BooleanGauge {
    /// The held value.
    pub closed spec fn spec_value(&self) -> bool {
        self.value
    }

    /// Overwrites the held value.
    pub fn set(&mut self, value: bool)
        ensures
            final(self).spec_value() == value,
    {
        self.value = value;
    }

    /// Flips the held value.
    pub fn toggle(&mut self)
        ensures
            final(self).spec_value() == !old(self).spec_value(),
    {
        self.value = !self.value;
    }

    /// Reads the held value.
    pub fn get(&self) -> (r: bool)
        ensures
            r == self.spec_value(),
    {
        self.value
    }
}

impl Default for BooleanGauge {
    /// Starts false, like an untouched gauge.
    fn default() -> (r: Self)
        ensures
            r.spec_value() == false,
    {
        BooleanGauge { value: false }
    }
}

/// A gauge holding a tri-state boolean as its raw wire byte, so a
/// collaborator reading the metric sees exactly the code the service
/// sent.
#[derive(Debug, Clone, Copy, PartialEq, Eq, Structural)]
pub struct NumberBooleanGauge {
    value: u8,
}

impl NumberBooleanGauge {
    /// The held wire byte.
    pub closed spec fn spec_value(&self) -> u8 {
        self.value
    }

    /// Overwrites the held value with the tri-state boolean's wire
    /// byte.
    pub fn set(&mut self, value: NumberBool)
        ensures
            final(self).spec_value() == spec_number_bool_to_byte(value),
    {
        self.value = u8::from(value);
    }

    /// Reads the held wire byte.
    pub fn get(&self) -> (r: u8)
        ensures
            r == self.spec_value(),
    {
        self.value
    }
}

impl Default for NumberBooleanGauge {
    /// Starts at zero, the wire byte of false.
    fn default() -> (r: Self)
        ensures
            r.spec_value() == 0,
    {
        NumberBooleanGauge { value: 0 }
    }
}

} // verus!
