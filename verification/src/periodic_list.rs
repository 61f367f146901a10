//! The periodic frame list.
use vstd::prelude::*;

use crate::bitfield::{
    disjoint_fields, get_bit, get_field, is_field, lemma_field_mask_values, read_bit, read_field,
    set_bit, set_field, write_bit, write_field,
};

verus! {

/// One element of the periodic frame list.
#[derive(Clone, Copy, Debug, PartialEq, Eq, Structural)]
pub struct PeriodicFrameListElement {
    raw: u32,
}

impl View for PeriodicFrameListElement {
    type V = u32;

    closed spec fn view(&self) -> u32 {
        self.raw
    }
}

impl PeriodicFrameListElement {
    /// The register value whose bits are `raw`.
    pub fn new_with_raw_value(raw: u32) -> (r: Self)
        ensures
            r@ == raw,
    {
        Self { raw }
    }

    /// The bits of this value.
    pub fn raw_value(&self) -> (r: u32)
        ensures
            r == self@,
    {
        self.raw
    }

    /// The value with every bit clear.
    pub fn zero() -> (r: Self)
        ensures
            r@ == 0,
    {
        Self { raw: 0 }
    }

    /// Terminate: 0 the element is valid, 1 it is invalid and will not be used.
    pub fn t(&self) -> (r: bool)
        ensures
            r == get_bit(self@, 0),
    {
        read_bit(self.raw, 0)
    }

    /// This value with `t` set to `value`.
    pub fn with_t(self, value: bool) -> (r: Self)
        ensures
            r@ == set_bit(self@, 0, value),
            get_bit(r@, 0) == value,
            forall|low: u32, width: u32|
                is_field(low, width) && disjoint_fields(0, 1, low, width)
                    ==> #[trigger] get_field(r@, low, width) == get_field(self@, low, width),
    {
        Self { raw: write_bit(self.raw, 0, value) }
    }

    /// The type of the data structure the element points to.
    pub fn typ(&self) -> (r: u8)
        ensures
            r == get_field(self@, 1, 2),
            r <= 0x3,
    {
        proof {
            lemma_field_mask_values();
        }
        read_field(self.raw, 1, 2) as u8
    }

    /// This value with `typ` set to `value`.
    pub fn with_typ(self, value: u8) -> (r: Self)
        requires
            value <= 0x3,
        ensures
            r@ == set_field(self@, 1, 2, value as u32),
            get_field(r@, 1, 2) == value,
            forall|low2: u32, width2: u32|
                is_field(low2, width2) && disjoint_fields(1, 2, low2, width2)
                    ==> #[trigger] get_field(r@, low2, width2) == get_field(self@, low2, width2),
    {
        proof {
            lemma_field_mask_values();
        }
        Self { raw: write_field(self.raw, 1, 2, value as u32) }
    }

    /// Reserved; must be 0.
    pub fn reserved(&self) -> (r: u8)
        ensures
            r == get_field(self@, 3, 2),
            r <= 0x3,
    {
        proof {
            lemma_field_mask_values();
        }
        read_field(self.raw, 3, 2) as u8
    }

    /// This value with `reserved` set to `value`.
    pub fn with_reserved(self, value: u8) -> (r: Self)
        requires
            value <= 0x3,
        ensures
            r@ == set_field(self@, 3, 2, value as u32),
            get_field(r@, 3, 2) == value,
            forall|low2: u32, width2: u32|
                is_field(low2, width2) && disjoint_fields(3, 2, low2, width2)
                    ==> #[trigger] get_field(r@, low2, width2) == get_field(self@, low2, width2),
    {
        proof {
            lemma_field_mask_values();
        }
        Self { raw: write_field(self.raw, 3, 2, value as u32) }
    }

    /// Bits 5 to 31 of the address of the data structure.
    pub fn addr_upper_bits(&self) -> (r: u32)
        ensures
            r == get_field(self@, 5, 27),
            r <= 0x7ff_ffff,
    {
        proof {
            lemma_field_mask_values();
        }
        read_field(self.raw, 5, 27)
    }

    /// This value with `addr_upper_bits` set to `value`.
    pub fn with_addr_upper_bits(self, value: u32) -> (r: Self)
        requires
            value <= 0x7ff_ffff,
        ensures
            r@ == set_field(self@, 5, 27, value as u32),
            get_field(r@, 5, 27) == value,
            forall|low2: u32, width2: u32|
                is_field(low2, width2) && disjoint_fields(5, 27, low2, width2)
                    ==> #[trigger] get_field(r@, low2, width2) == get_field(self@, low2, width2),
    {
        proof {
            lemma_field_mask_values();
        }
        Self { raw: write_field(self.raw, 5, 27, value) }
    }
}

/// The number of elements of the periodic frame list.
pub const FRAME_LIST_LEN: usize = 1024;

impl PeriodicFrameListElement {
    /// The element that schedules nothing: terminate set, reserved bits 0.
    pub fn unused() -> (r: Self)
        ensures
            r@ == set_field(set_bit(0, 0, true), 3, 2, 0),
            get_bit(r@, 0),
            get_field(r@, 3, 2) == 0,
    {
        proof {
            lemma_field_mask_values();
        }
        Self::zero().with_t(true).with_reserved(0)
    }
}

/// The periodic frame list: one element per frame.
#[derive(Debug, Clone, Copy)]
pub struct PeriodicFrameList {
    pub elements: [PeriodicFrameListElement; 1024],
}

impl PeriodicFrameList {
    /// The frame list in which no frame schedules anything.
    pub fn all_unused() -> (r: Self)
        ensures
            forall|i: int| 0 <= i < 1024 ==> (#[trigger] r.elements[i])@ == set_field(
                set_bit(0, 0, true),
                3,
                2,
                0,
            ),
    {
        let e = PeriodicFrameListElement::unused();
        let r = PeriodicFrameList { elements: [e; 1024] };
        r
    }
}

} // verus!
