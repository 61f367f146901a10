//! Capability registers of the host controller.
use vstd::prelude::*;

use crate::bitfield::{get_bit, get_field, lemma_field_mask_values, read_bit, read_field};

verus! {

/// HCSPARAMS: structural parameters.
#[derive(Clone, Copy, Debug, PartialEq, Eq, Structural)]
pub struct HcsParams {
    raw: u32,
}

impl View for HcsParams {
    type V = u32;

    closed spec fn view(&self) -> u32 {
        self.raw
    }
}

impl HcsParams {
    /// The register value whose bits are `raw`.
    pub fn new_with_raw_value(raw: u32) -> (r: Self)
        ensures
            r@ == raw,
    {
        Self { raw }
    }

    /// The bits of this value.
    pub fn raw_value(&self) -> (r: u32)
        ensures
            r == self@,
    {
        self.raw
    }

    /// Number of root ports.
    pub fn n_ports(&self) -> (r: u8)
        ensures
            r == get_field(self@, 0, 4),
            r <= 0xf,
    {
        proof {
            lemma_field_mask_values();
        }
        read_field(self.raw, 0, 4) as u8
    }

    /// The ports have power switches.
    pub fn port_power_control(&self) -> (r: bool)
        ensures
            r == get_bit(self@, 4),
    {
        read_bit(self.raw, 4)
    }

    /// The first ports are routed by the port routing table.
    pub fn port_routing_rules(&self) -> (r: bool)
        ensures
            r == get_bit(self@, 7),
    {
        read_bit(self.raw, 7)
    }

    /// Number of ports per companion controller.
    pub fn n_pcc(&self) -> (r: u8)
        ensures
            r == get_field(self@, 8, 4),
            r <= 0xf,
    {
        proof {
            lemma_field_mask_values();
        }
        read_field(self.raw, 8, 4) as u8
    }

    /// Number of companion controllers.
    pub fn n_cc(&self) -> (r: u8)
        ensures
            r == get_field(self@, 12, 4),
            r <= 0xf,
    {
        proof {
            lemma_field_mask_values();
        }
        read_field(self.raw, 12, 4) as u8
    }

    /// The ports support port indicators.
    pub fn port_indicators(&self) -> (r: bool)
        ensures
            r == get_bit(self@, 16),
    {
        read_bit(self.raw, 16)
    }

    /// The port that is the debug port.
    pub fn debug_port_number(&self) -> (r: u8)
        ensures
            r == get_field(self@, 20, 4),
            r <= 0xf,
    {
        proof {
            lemma_field_mask_values();
        }
        read_field(self.raw, 20, 4) as u8
    }
}

/// HCCPARAMS: capability parameters.
#[derive(Clone, Copy, Debug, PartialEq, Eq, Structural)]
pub struct HccParams {
    raw: u32,
}

impl View for HccParams {
    type V = u32;

    closed spec fn view(&self) -> u32 {
        self.raw
    }
}

impl HccParams {
    /// The register value whose bits are `raw`.
    pub fn new_with_raw_value(raw: u32) -> (r: Self)
        ensures
            r@ == raw,
    {
        Self { raw }
    }

    /// The bits of this value.
    pub fn raw_value(&self) -> (r: u32)
        ensures
            r == self@,
    {
        self.raw
    }

    /// The controller supports 64-bit addresses in its data structures.
    pub fn _64_bit_addressing_cap(&self) -> (r: bool)
        ensures
            r == get_bit(self@, 0),
    {
        read_bit(self.raw, 0)
    }

    /// The frame list size is programmable.
    pub fn programmable_frame_list_flag(&self) -> (r: bool)
        ensures
            r == get_bit(self@, 1),
    {
        read_bit(self.raw, 1)
    }

    /// The controller supports park mode on high-speed queue heads.
    pub fn async_sched_park_cap(&self) -> (r: bool)
        ensures
            r == get_bit(self@, 2),
    {
        read_bit(self.raw, 2)
    }

    /// Isochronous scheduling threshold.
    pub fn isochronous_sched_threshold(&self) -> (r: u8)
        ensures
            r == get_field(self@, 4, 4),
            r <= 0xf,
    {
        proof {
            lemma_field_mask_values();
        }
        read_field(self.raw, 4, 4) as u8
    }

    /// Offset of the first extended capability in PCI configuration space, or 0.
    pub fn eecp(&self) -> (r: u8)
        ensures
            r == get_field(self@, 8, 8),
            r <= 0xff,
    {
        proof {
            lemma_field_mask_values();
        }
        read_field(self.raw, 8, 8) as u8
    }
}

/// HCIVERSION: the version of the EHCI specification that the controller implements.
#[derive(Clone, Copy, Debug, PartialEq, Eq, Structural)]
pub struct HciVersion {
    raw: u16,
}

impl View for HciVersion {
    type V = u16;

    closed spec fn view(&self) -> u16 {
        self.raw
    }
}

impl HciVersion {
    /// The register value whose bits are `raw`.
    pub fn new_with_raw_value(raw: u16) -> (r: Self)
        ensures
            r@ == raw,
    {
        Self { raw }
    }

    /// The bits of this value.
    pub fn raw_value(&self) -> (r: u16)
        ensures
            r == self@,
    {
        self.raw
    }

    /// Minor revision (binary coded decimal).
    pub fn minor_revision(&self) -> (r: u8)
        ensures
            r == get_field(self@ as u32, 0, 8),
    {
        proof {
            lemma_field_mask_values();
        }
        read_field(self.raw as u32, 0, 8) as u8
    }

    /// Major revision (binary coded decimal).
    pub fn major_revision(&self) -> (r: u8)
        ensures
            r == get_field(self@ as u32, 8, 8),
    {
        proof {
            lemma_field_mask_values();
        }
        read_field(self.raw as u32, 8, 8) as u8
    }
}

} // verus!
