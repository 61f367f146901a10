//! The chain of EHCI extended capabilities in PCI configuration space.
use vstd::prelude::*;

use crate::capability_regs::HccParams;
use crate::pci::{read_access, PciAccess};
use crate::bitfield::{
    disjoint_fields, get_field, is_field, lemma_field_mask_values, read_field, set_field,
    write_field,
};

verus! {

/// The first word of an extended capability.
#[derive(Clone, Copy, Debug, PartialEq, Eq, Structural)]
pub struct ExtendedCapabilityPointerReg {
    raw: u32,
}

impl View for ExtendedCapabilityPointerReg {
    type V = u32;

    closed spec fn view(&self) -> u32 {
        self.raw
    }
}

impl ExtendedCapabilityPointerReg {
    /// The register value whose bits are `raw`.
    pub fn new_with_raw_value(raw: u32) -> (r: Self)
        ensures
            r@ == raw,
    {
        Self { raw }
    }

    /// The bits of this value.
    pub fn raw_value(&self) -> (r: u32)
        ensures
            r == self@,
    {
        self.raw
    }

    /// What the capability is.
    pub fn capability_id(&self) -> (r: u8)
        ensures
            r == get_field(self@, 0, 8),
            r <= 0xff,
    {
        proof {
            lemma_field_mask_values();
        }
        read_field(self.raw, 0, 8) as u8
    }

    /// Offset of the next capability in PCI configuration space, or 0.
    pub fn next_cap_pointer(&self) -> (r: u8)
        ensures
            r == get_field(self@, 8, 8),
            r <= 0xff,
    {
        proof {
            lemma_field_mask_values();
        }
        read_field(self.raw, 8, 8) as u8
    }

    /// Depends on the capability.
    pub fn capability_specific(&self) -> (r: u16)
        ensures
            r == get_field(self@, 16, 16),
            r <= 0xffff,
    {
        proof {
            lemma_field_mask_values();
        }
        read_field(self.raw, 16, 16) as u16
    }

    /// This value with `capability_specific` set to `value`.
    pub fn with_capability_specific(self, value: u16) -> (r: Self)
        requires
            value <= 0xffff,
        ensures
            r@ == set_field(self@, 16, 16, value as u32),
            get_field(r@, 16, 16) == value,
            forall|low2: u32, width2: u32|
                is_field(low2, width2) && disjoint_fields(16, 16, low2, width2)
                    ==> #[trigger] get_field(r@, low2, width2) == get_field(self@, low2, width2),
    {
        proof {
            lemma_field_mask_values();
        }
        Self { raw: write_field(self.raw, 16, 16, value as u32) }
    }
}

/// One extended capability: where it is and what it is.
#[derive(Debug, Clone, Copy, PartialEq, Eq, Structural)]
pub struct CapabilityInfo {
    /// The offset in bytes of the capability in PCI configuration space; never 0.
    pub offset: u8,
    /// What the capability is.
    pub id: u8,
}

/// The extended capabilities that this driver knows.
#[derive(Debug, Clone, Copy, PartialEq, Eq, Structural)]
pub enum ExtendedCapability {
    /// USB legacy support: the BIOS may own the controller.
    UsbLegSup,
}

impl ExtendedCapability {
    /// The capability id.
    pub open spec fn id_spec(self) -> u8 {
        match self {
            ExtendedCapability::UsbLegSup => 1,
        }
    }

    /// The capability id.
    pub fn id(self) -> (r: u8)
        ensures
            r == self.id_spec(),
    {
        match self {
            ExtendedCapability::UsbLegSup => 1,
        }
    }
}

impl CapabilityInfo {
    /// The offset of this capability if it is the legacy support capability.
    pub fn usb_leg_sup_offset(&self) -> (r: Option<u8>)
        ensures
            self.id == ExtendedCapability::UsbLegSup.id_spec() ==> r == Some(self.offset),
            self.id != ExtendedCapability::UsbLegSup.id_spec() ==> r is None,
    {
        if self.id == ExtendedCapability::UsbLegSup.id() {
            Some(self.offset)
        } else {
            None
        }
    }
}

/// The offset `v` as a link: 0 ends the chain.
pub open spec fn nonzero_offset(v: u8) -> Option<u8> {
    if v == 0 {
        None
    } else {
        Some(v)
    }
}

/// The capability at `offset` whose first word is `reg`, and the link to the next one.
pub open spec fn capability_step(offset: u8, reg: u32) -> (CapabilityInfo, Option<u8>) {
    (
        CapabilityInfo { offset, id: get_field(reg, 0, 8) as u8 },
        nonzero_offset(get_field(reg, 8, 8) as u8),
    )
}

/// Decodes the first word `reg` of the capability at `offset`: the capability
/// and the offset of the next one, if any.
pub fn decode_capability(offset: u8, reg: ExtendedCapabilityPointerReg) -> (r: (
    CapabilityInfo,
    Option<u8>,
))
    ensures
        r == capability_step(offset, reg@),
{
    let next = reg.next_cap_pointer();
    (
        CapabilityInfo { offset, id: reg.capability_id() },
        if next == 0 {
            None
        } else {
            Some(next)
        },
    )
}

/// Walks the chain of extended capabilities in PCI configuration space.
pub struct ExtendedCapabilitiesIterator<P: PciAccess> {
    pci_access: P,
    /// The offset of the next capability; 0 at the end of the chain.
    capability_pointer: u8,
}

impl<P: PciAccess> ExtendedCapabilitiesIterator<P> {
    /// The offset of the next capability to visit, if any.
    pub closed spec fn pointer(self) -> Option<u8> {
        nonzero_offset(self.capability_pointer)
    }

    /// The access to PCI configuration space.
    pub closed spec fn pci(self) -> P {
        self.pci_access
    }

    /// The walk that starts at the capability that HCCPARAMS points at.
    pub fn new(pci_access: P, hcc_params: HccParams) -> (r: Self)
        ensures
            r.pointer() == nonzero_offset(get_field(hcc_params@, 8, 8) as u8),
            r.pci() == pci_access,
    {
        Self { pci_access, capability_pointer: hcc_params.eecp() }
    }

    /// Ends the walk and gives the access to PCI configuration space back.
    pub fn into_pci(self) -> (r: P)
        ensures
            r == self.pci(),
    {
        self.pci_access
    }

    /// Reads the first dword of the next capability and moves past it. At the
    /// end of the chain it returns `None`, touches nothing and stays as it is.
    pub fn next(&mut self) -> (r: Option<CapabilityInfo>)
        ensures
            old(self).pointer() is None ==> r is None && *final(self) == *old(self),
            old(self).pointer() is Some ==> r is Some && exists|value: u32|
                {
                    &&& final(self).pci().accesses() == old(self).pci().accesses().push(
                        read_access(old(self).pointer()->Some_0, value),
                    )
                    &&& #[trigger] capability_step(old(self).pointer()->Some_0, value) == (
                        r->Some_0,
                        final(self).pointer(),
                    )
                },
            r matches Some(info) ==> info.offset != 0,
    {
        if self.capability_pointer == 0 {
            None
        } else {
            let capability_pointer = self.capability_pointer;
            let raw = self.pci_access.read_u32(capability_pointer);
            let reg = ExtendedCapabilityPointerReg::new_with_raw_value(raw);
            let (info, next) = decode_capability(capability_pointer, reg);
            self.capability_pointer = reg.next_cap_pointer();
            let r = Some(info);
            proof {
                assert(nonzero_offset(self.capability_pointer) == next);
                assert(old(self).pointer()->Some_0 == capability_pointer);
                assert(capability_step(capability_pointer, raw) == (r->Some_0, self.pointer()));
            }
            r
        }
    }
}

} // verus!
