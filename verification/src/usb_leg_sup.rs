//! USB legacy support: handing the controller over from the BIOS to the operating system.
use vstd::prelude::*;

use crate::pci::{read_access, ConfigAccess, PciAccess};
use crate::bitfield::{disjoint_fields, get_bit, get_field, is_field, read_bit, set_bit, write_bit};

verus! {

/// USBLEGSUP: the legacy support extended capability register.
#[derive(Clone, Copy, Debug, PartialEq, Eq, Structural)]
pub struct UsbLegSupReg {
    raw: u32,
}

impl View for UsbLegSupReg {
    type V = u32;

    closed spec fn view(&self) -> u32 {
        self.raw
    }
}

impl UsbLegSupReg {
    /// The register value whose bits are `raw`.
    pub fn new_with_raw_value(raw: u32) -> (r: Self)
        ensures
            r@ == raw,
    {
        Self { raw }
    }

    /// The bits of this value.
    pub fn raw_value(&self) -> (r: u32)
        ensures
            r == self@,
    {
        self.raw
    }

    /// The BIOS owns the controller.
    pub fn bios_owned_semaphore(&self) -> (r: bool)
        ensures
            r == get_bit(self@, 16),
    {
        read_bit(self.raw, 16)
    }

    /// The operating system requests or owns the controller.
    pub fn os_owned_semaphor(&self) -> (r: bool)
        ensures
            r == get_bit(self@, 24),
    {
        read_bit(self.raw, 24)
    }

    /// This value with `os_owned_semaphor` set to `value`.
    pub fn with_os_owned_semaphor(self, value: bool) -> (r: Self)
        ensures
            r@ == set_bit(self@, 24, value),
            get_bit(r@, 24) == value,
            forall|low: u32, width: u32|
                is_field(low, width) && disjoint_fields(24, 1, low, width)
                    ==> #[trigger] get_field(r@, low, width) == get_field(self@, low, width),
    {
        Self { raw: write_bit(self.raw, 24, value) }
    }
}

/// USBLEGCTLSTS: legacy support control and status.
#[derive(Clone, Copy, Debug, PartialEq, Eq, Structural)]
pub struct UsbLegCtlStsReg {
    raw: u32,
}

impl View for UsbLegCtlStsReg {
    type V = u32;

    closed spec fn view(&self) -> u32 {
        self.raw
    }
}

impl UsbLegCtlStsReg {
    /// The register value whose bits are `raw`.
    pub fn new_with_raw_value(raw: u32) -> (r: Self)
        ensures
            r@ == raw,
    {
        Self { raw }
    }

    /// The bits of this value.
    pub fn raw_value(&self) -> (r: u32)
        ensures
            r == self@,
    {
        self.raw
    }

    /// SMI on USB interrupt.
    pub fn usb_smi_enable(&self) -> (r: bool)
        ensures
            r == get_bit(self@, 0),
    {
        read_bit(self.raw, 0)
    }

    /// This value with `usb_smi_enable` set to `value`.
    pub fn with_usb_smi_enable(self, value: bool) -> (r: Self)
        ensures
            r@ == set_bit(self@, 0, value),
            get_bit(r@, 0) == value,
            forall|low: u32, width: u32|
                is_field(low, width) && disjoint_fields(0, 1, low, width)
                    ==> #[trigger] get_field(r@, low, width) == get_field(self@, low, width),
    {
        Self { raw: write_bit(self.raw, 0, value) }
    }

    /// SMI on USB error.
    pub fn smi_on_usb_error_enable(&self) -> (r: bool)
        ensures
            r == get_bit(self@, 1),
    {
        read_bit(self.raw, 1)
    }

    /// This value with `smi_on_usb_error_enable` set to `value`.
    pub fn with_smi_on_usb_error_enable(self, value: bool) -> (r: Self)
        ensures
            r@ == set_bit(self@, 1, value),
            get_bit(r@, 1) == value,
            forall|low: u32, width: u32|
                is_field(low, width) && disjoint_fields(1, 1, low, width)
                    ==> #[trigger] get_field(r@, low, width) == get_field(self@, low, width),
    {
        Self { raw: write_bit(self.raw, 1, value) }
    }

    /// SMI on port change.
    pub fn smi_on_port_change_enable(&self) -> (r: bool)
        ensures
            r == get_bit(self@, 2),
    {
        read_bit(self.raw, 2)
    }

    /// This value with `smi_on_port_change_enable` set to `value`.
    pub fn with_smi_on_port_change_enable(self, value: bool) -> (r: Self)
        ensures
            r@ == set_bit(self@, 2, value),
            get_bit(r@, 2) == value,
            forall|low: u32, width: u32|
                is_field(low, width) && disjoint_fields(2, 1, low, width)
                    ==> #[trigger] get_field(r@, low, width) == get_field(self@, low, width),
    {
        Self { raw: write_bit(self.raw, 2, value) }
    }

    /// SMI on frame list rollover.
    pub fn smi_on_frame_list_rollover_enable(&self) -> (r: bool)
        ensures
            r == get_bit(self@, 3),
    {
        read_bit(self.raw, 3)
    }

    /// This value with `smi_on_frame_list_rollover_enable` set to `value`.
    pub fn with_smi_on_frame_list_rollover_enable(self, value: bool) -> (r: Self)
        ensures
            r@ == set_bit(self@, 3, value),
            get_bit(r@, 3) == value,
            forall|low: u32, width: u32|
                is_field(low, width) && disjoint_fields(3, 1, low, width)
                    ==> #[trigger] get_field(r@, low, width) == get_field(self@, low, width),
    {
        Self { raw: write_bit(self.raw, 3, value) }
    }

    /// SMI on host system error.
    pub fn smi_on_host_system_error_enable(&self) -> (r: bool)
        ensures
            r == get_bit(self@, 4),
    {
        read_bit(self.raw, 4)
    }

    /// This value with `smi_on_host_system_error_enable` set to `value`.
    pub fn with_smi_on_host_system_error_enable(self, value: bool) -> (r: Self)
        ensures
            r@ == set_bit(self@, 4, value),
            get_bit(r@, 4) == value,
            forall|low: u32, width: u32|
                is_field(low, width) && disjoint_fields(4, 1, low, width)
                    ==> #[trigger] get_field(r@, low, width) == get_field(self@, low, width),
    {
        Self { raw: write_bit(self.raw, 4, value) }
    }

    /// SMI on async advance.
    pub fn smi_on_async_event_enable(&self) -> (r: bool)
        ensures
            r == get_bit(self@, 5),
    {
        read_bit(self.raw, 5)
    }

    /// This value with `smi_on_async_event_enable` set to `value`.
    pub fn with_smi_on_async_event_enable(self, value: bool) -> (r: Self)
        ensures
            r@ == set_bit(self@, 5, value),
            get_bit(r@, 5) == value,
            forall|low: u32, width: u32|
                is_field(low, width) && disjoint_fields(5, 1, low, width)
                    ==> #[trigger] get_field(r@, low, width) == get_field(self@, low, width),
    {
        Self { raw: write_bit(self.raw, 5, value) }
    }

    /// SMI on OS ownership change.
    pub fn smi_on_os_ownership_enable(&self) -> (r: bool)
        ensures
            r == get_bit(self@, 13),
    {
        read_bit(self.raw, 13)
    }

    /// This value with `smi_on_os_ownership_enable` set to `value`.
    pub fn with_smi_on_os_ownership_enable(self, value: bool) -> (r: Self)
        ensures
            r@ == set_bit(self@, 13, value),
            get_bit(r@, 13) == value,
            forall|low: u32, width: u32|
                is_field(low, width) && disjoint_fields(13, 1, low, width)
                    ==> #[trigger] get_field(r@, low, width) == get_field(self@, low, width),
    {
        Self { raw: write_bit(self.raw, 13, value) }
    }

    /// SMI on PCI command.
    pub fn smi_on_pci_command_enable(&self) -> (r: bool)
        ensures
            r == get_bit(self@, 14),
    {
        read_bit(self.raw, 14)
    }

    /// This value with `smi_on_pci_command_enable` set to `value`.
    pub fn with_smi_on_pci_command_enable(self, value: bool) -> (r: Self)
        ensures
            r@ == set_bit(self@, 14, value),
            get_bit(r@, 14) == value,
            forall|low: u32, width: u32|
                is_field(low, width) && disjoint_fields(14, 1, low, width)
                    ==> #[trigger] get_field(r@, low, width) == get_field(self@, low, width),
    {
        Self { raw: write_bit(self.raw, 14, value) }
    }

    /// SMI on BAR write.
    pub fn smi_on_bar_enable(&self) -> (r: bool)
        ensures
            r == get_bit(self@, 15),
    {
        read_bit(self.raw, 15)
    }

    /// This value with `smi_on_bar_enable` set to `value`.
    pub fn with_smi_on_bar_enable(self, value: bool) -> (r: Self)
        ensures
            r@ == set_bit(self@, 15, value),
            get_bit(r@, 15) == value,
            forall|low: u32, width: u32|
                is_field(low, width) && disjoint_fields(15, 1, low, width)
                    ==> #[trigger] get_field(r@, low, width) == get_field(self@, low, width),
    {
        Self { raw: write_bit(self.raw, 15, value) }
    }

    /// SMI caused by USB interrupt.
    pub fn smi_on_usb_complete(&self) -> (r: bool)
        ensures
            r == get_bit(self@, 16),
    {
        read_bit(self.raw, 16)
    }

    /// SMI caused by USB error.
    pub fn smi_on_usb_error(&self) -> (r: bool)
        ensures
            r == get_bit(self@, 17),
    {
        read_bit(self.raw, 17)
    }

    /// SMI caused by port change.
    pub fn smi_on_port_change_detect(&self) -> (r: bool)
        ensures
            r == get_bit(self@, 18),
    {
        read_bit(self.raw, 18)
    }

    /// SMI caused by frame list rollover.
    pub fn smi_on_frame_list_rollover(&self) -> (r: bool)
        ensures
            r == get_bit(self@, 19),
    {
        read_bit(self.raw, 19)
    }

    /// SMI caused by host system error.
    pub fn smi_on_host_system_error(&self) -> (r: bool)
        ensures
            r == get_bit(self@, 20),
    {
        read_bit(self.raw, 20)
    }

    /// SMI caused by async advance.
    pub fn smi_on_async_advance(&self) -> (r: bool)
        ensures
            r == get_bit(self@, 21),
    {
        read_bit(self.raw, 21)
    }

    /// SMI caused by OS ownership change.
    pub fn smi_on_os_ownership(&self) -> (r: bool)
        ensures
            r == get_bit(self@, 29),
    {
        read_bit(self.raw, 29)
    }

    /// This value with `smi_on_os_ownership` set to `value`.
    pub fn with_smi_on_os_ownership(self, value: bool) -> (r: Self)
        ensures
            r@ == set_bit(self@, 29, value),
            get_bit(r@, 29) == value,
            forall|low: u32, width: u32|
                is_field(low, width) && disjoint_fields(29, 1, low, width)
                    ==> #[trigger] get_field(r@, low, width) == get_field(self@, low, width),
    {
        Self { raw: write_bit(self.raw, 29, value) }
    }

    /// SMI caused by PCI command.
    pub fn smi_on_pci_command(&self) -> (r: bool)
        ensures
            r == get_bit(self@, 30),
    {
        read_bit(self.raw, 30)
    }

    /// This value with `smi_on_pci_command` set to `value`.
    pub fn with_smi_on_pci_command(self, value: bool) -> (r: Self)
        ensures
            r@ == set_bit(self@, 30, value),
            get_bit(r@, 30) == value,
            forall|low: u32, width: u32|
                is_field(low, width) && disjoint_fields(30, 1, low, width)
                    ==> #[trigger] get_field(r@, low, width) == get_field(self@, low, width),
    {
        Self { raw: write_bit(self.raw, 30, value) }
    }

    /// SMI caused by BAR write.
    pub fn smi_on_bar(&self) -> (r: bool)
        ensures
            r == get_bit(self@, 31),
    {
        read_bit(self.raw, 31)
    }

    /// This value with `smi_on_bar` set to `value`.
    pub fn with_smi_on_bar(self, value: bool) -> (r: Self)
        ensures
            r@ == set_bit(self@, 31, value),
            get_bit(r@, 31) == value,
            forall|low: u32, width: u32|
                is_field(low, width) && disjoint_fields(31, 1, low, width)
                    ==> #[trigger] get_field(r@, low, width) == get_field(self@, low, width),
    {
        Self { raw: write_bit(self.raw, 31, value) }
    }
}

/// A controller whose legacy support capability, at `usb_leg_sup_offset` in
/// PCI configuration space, says that the BIOS may own it. `B` is the
/// mapping of the controller's registers, which is carried along.
pub struct BiosOwnedEhci<P: PciAccess, B> {
    mapped_bar: B,
    pci_access: P,
    usb_leg_sup_offset: u8,
}

impl<P: PciAccess, B> BiosOwnedEhci<P, B> {
    #[verifier::type_invariant]
    spec fn offset_nonzero(self) -> bool {
        self.usb_leg_sup_offset != 0
    }

    /// The mapping of the registers.
    pub closed spec fn bar(self) -> B {
        self.mapped_bar
    }

    /// The access to PCI configuration space.
    pub closed spec fn pci(self) -> P {
        self.pci_access
    }

    /// The offset of the legacy support capability.
    pub closed spec fn offset_spec(self) -> u8 {
        self.usb_leg_sup_offset
    }

    /// The controller mapped at `mapped_bar` whose legacy support capability is
    /// at `usb_leg_sup_offset`.
    pub fn new(mapped_bar: B, pci_access: P, usb_leg_sup_offset: u8) -> (r: Self)
        requires
            usb_leg_sup_offset != 0,
        ensures
            r.bar() == mapped_bar,
            r.pci() == pci_access,
            r.offset_spec() == usb_leg_sup_offset,
    {
        Self { mapped_bar, pci_access, usb_leg_sup_offset }
    }

    /// The offset of the legacy support capability in PCI configuration space.
    pub fn usb_leg_sup_offset(&self) -> (r: u8)
        ensures
            r == self.offset_spec(),
            r != 0,
    {
        proof {
            use_type_invariant(self);
        }
        self.usb_leg_sup_offset
    }

    /// Asks the BIOS to hand the controller over: writes 1 to the HC OS Owned
    /// Semaphore, which is byte 3 of USBLEGSUP (the other bits of that byte
    /// are reserved and written 0). Nothing else is written.
    pub fn take_ownership(self) -> (r: TakingOwnershipEhci<P, B>)
        requires
            self.offset_spec() + 3 <= 0xff,
        ensures
            r.bar() == self.bar(),
            r.offset_spec() == self.offset_spec(),
            r.pci().accesses() == self.pci().accesses().push(
                ConfigAccess::WriteU8((self.offset_spec() + 3) as u8, 0x1),
            ),
    {
        proof {
            use_type_invariant(&self);
        }
        let BiosOwnedEhci { mapped_bar, mut pci_access, usb_leg_sup_offset } = self;
        pci_access.write_u8(usb_leg_sup_offset + 3, 0x1);
        TakingOwnershipEhci { mapped_bar, pci_access, usb_leg_sup_offset }
    }
}

/// A controller that the operating system has asked the BIOS to hand over.
pub struct TakingOwnershipEhci<P: PciAccess, B> {
    mapped_bar: B,
    pci_access: P,
    usb_leg_sup_offset: u8,
}

/// What came of asking whether the BIOS has handed the controller over.
pub enum TryTakeOutput<P: PciAccess, B> {
    /// The BIOS still owns the controller; ask again later.
    NotYet(TakingOwnershipEhci<P, B>),
    /// The operating system owns the controller, mapped at the first value;
    /// the second gives the access to PCI configuration space back.
    Taken(B, P),
}

impl<P: PciAccess, B> TakingOwnershipEhci<P, B> {
    #[verifier::type_invariant]
    spec fn offset_nonzero(self) -> bool {
        self.usb_leg_sup_offset != 0
    }

    /// The mapping of the registers.
    pub closed spec fn bar(self) -> B {
        self.mapped_bar
    }

    /// The access to PCI configuration space.
    pub closed spec fn pci(self) -> P {
        self.pci_access
    }

    /// The offset of the legacy support capability.
    pub closed spec fn offset_spec(self) -> u8 {
        self.usb_leg_sup_offset
    }

    /// The offset of the legacy support capability in PCI configuration space.
    pub fn usb_leg_sup_offset(&self) -> (r: u8)
        ensures
            r == self.offset_spec(),
            r != 0,
    {
        proof {
            use_type_invariant(self);
        }
        self.usb_leg_sup_offset
    }

    /// Decides from USBLEGSUP, as read from PCI configuration space, whether
    /// the BIOS has released the controller: it has when the HC BIOS Owned
    /// Semaphore is clear.
    pub fn try_take_with(self, reg: UsbLegSupReg) -> (r: TryTakeOutput<P, B>)
        ensures
            get_bit(reg@, 16) ==> r == TryTakeOutput::NotYet(self),
            !get_bit(reg@, 16) ==> r == TryTakeOutput::<P, B>::Taken(self.bar(), self.pci()),
    {
        if reg.bios_owned_semaphore() {
            TryTakeOutput::NotYet(self)
        } else {
            TryTakeOutput::Taken(self.mapped_bar, self.pci_access)
        }
    }

    /// Reads USBLEGSUP and decides, as `try_take_with` does, whether the BIOS
    /// has released the controller. One dword is read, at the offset of the
    /// capability; nothing is written.
    pub fn try_take(self) -> (r: TryTakeOutput<P, B>)
        ensures
            r matches TryTakeOutput::NotYet(s) ==> {
                &&& s.bar() == self.bar()
                &&& s.offset_spec() == self.offset_spec()
                &&& exists|value: u32|
                    get_bit(value, 16) && s.pci().accesses() == self.pci().accesses().push(
                        #[trigger] read_access(self.offset_spec(), value),
                    )
            },
            r matches TryTakeOutput::Taken(b, p) ==> {
                &&& b == self.bar()
                &&& exists|value: u32|
                    !get_bit(value, 16) && p.accesses() == self.pci().accesses().push(
                        #[trigger] read_access(self.offset_spec(), value),
                    )
            },
    {
        proof {
            use_type_invariant(&self);
        }
        let TakingOwnershipEhci { mapped_bar, mut pci_access, usb_leg_sup_offset } = self;
        let raw = pci_access.read_u32(usb_leg_sup_offset);
        let s = TakingOwnershipEhci { mapped_bar, pci_access, usb_leg_sup_offset };
        let reg = UsbLegSupReg::new_with_raw_value(raw);
        let r = s.try_take_with(reg);
        proof {
            assert(read_access(self.offset_spec(), raw) == ConfigAccess::ReadU32(
                usb_leg_sup_offset,
                raw,
            ));
        }
        r
    }
}

} // verus!
