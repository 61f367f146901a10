//! Speeds of USB endpoints.
use vstd::prelude::*;

verus! {

/// The speed of an endpoint.
#[derive(Debug, Clone, Copy, PartialEq, Eq, Structural, PartialOrd, Ord)]
pub enum EndpointSpeed {
    Full,
    Low,
    High,
}

impl EndpointSpeed {
    /// The two-bit code of this speed in the endpoint characteristics of a queue head.
    pub open spec fn bits_spec(self) -> u8 {
        match self {
            EndpointSpeed::Full => 0,
            EndpointSpeed::Low => 1,
            EndpointSpeed::High => 2,
        }
    }

    /// The two-bit code of this speed in the endpoint characteristics of a queue head.
    pub fn bits(self) -> (r: u8)
        ensures
            r == self.bits_spec(),
            r <= 3,
    {
        match self {
            EndpointSpeed::Full => 0,
            EndpointSpeed::Low => 1,
            EndpointSpeed::High => 2,
        }
    }
}

} // verus!
