//! The order of the status codes: that of their numeric codes.

use std::cmp::Ordering;
use vstd::prelude::*;
use vstd::std_specs::cmp::PartialOrdSpec;
use vstd::std_specs::cmp::PartialOrdSpecImpl;

use crate::code::KafkaCode;

verus! {

impl PartialOrd for KafkaCode {
    /// Compares two entries by their numeric codes.
    fn partial_cmp(&self, other: &KafkaCode) -> (order: Option<Ordering>) {
        let a: i16 = self.code();
        let b: i16 = other.code();
        if a < b {
            Some(Ordering::Less)
        } else if a > b {
            Some(Ordering::Greater)
        } else {
            Some(Ordering::Equal)
        }
    }
}

impl PartialOrdSpecImpl for KafkaCode {
    open spec fn obeys_partial_cmp_spec() -> bool {
        true
    }

    open spec fn partial_cmp_spec(&self, other: &KafkaCode) -> Option<Ordering> {
        if self.spec_code() < other.spec_code() {
            Some(Ordering::Less)
        } else if self.spec_code() > other.spec_code() {
            Some(Ordering::Greater)
        } else {
            Some(Ordering::Equal)
        }
    }
}

/// Two entries compare as equal only if they are one entry, and one entry is
/// below another exactly if its numeric code is the smaller one.
pub proof fn order_is_that_of_the_codes(a: KafkaCode, b: KafkaCode)
    ensures
        PartialOrdSpec::partial_cmp_spec(&a, &b) == Some(Ordering::Equal) <==> a == b,
        PartialOrdSpec::partial_cmp_spec(&a, &b) == Some(Ordering::Less) <==> a.spec_code() < b.spec_code(),
        PartialOrdSpec::partial_cmp_spec(&a, &b) == Some(Ordering::Greater) <==> a.spec_code() > b.spec_code(),
{
    KafkaCode::code_round_trip(a);
    KafkaCode::code_round_trip(b);
}

} // verus!
