//! Numbers of the root ports of a controller.
use vstd::prelude::*;

verus! {

/// The number of a root port: a four-bit value.
#[derive(Debug, Clone, Copy, PartialEq, Eq, PartialOrd, Ord)]
pub struct RootPortNumber(u8);

/// A number too large for a root port.
#[derive(Debug, Clone, Copy, PartialEq, Eq, Structural)]
pub struct OutOfRange;

impl View for RootPortNumber {
    type V = u8;

    closed spec fn view(&self) -> u8 {
        self.0
    }
}

impl RootPortNumber {
    #[verifier::type_invariant]
    spec fn fits(self) -> bool {
        self.0 <= 15
    }

    /// The port numbered `value`, or `OutOfRange` when `value` does not fit in four bits.
    pub fn try_from_bits(value: u8) -> (r: Result<Self, OutOfRange>)
        ensures
            r is Ok <==> value <= 15,
            r matches Ok(p) ==> p@ == value,
    {
        if value <= 15 {
            Ok(RootPortNumber(value))
        } else {
            Err(OutOfRange)
        }
    }

    /// The four-bit number of this port.
    pub fn bits(self) -> (r: u8)
        ensures
            r == self@,
            r <= 15,
    {
        proof {
            use_type_invariant(&self);
        }
        self.0
    }

    /// The four-bit number of this port, as an index.
    pub fn index(self) -> (r: usize)
        ensures
            r == self@,
            r <= 15,
    {
        proof {
            use_type_invariant(&self);
        }
        self.0 as usize
    }
}

} // verus!
