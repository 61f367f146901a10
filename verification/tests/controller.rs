use ehci::capability_regs::HccParams;
use ehci::extended_capabilities::{
    decode_capability, CapabilityInfo, ExtendedCapabilitiesIterator, ExtendedCapability,
    ExtendedCapabilityPointerReg,
};
use ehci::initialized_ehci::{
    check_port_before_reset, check_port_enabled, descriptor_bytes_transferred,
    first_connected_port, get_descriptor_transfer, insert_after_anchor, port_reset_write,
    respond_to_interrupt, set_address_transfer, InitDeviceError, ADDRESS_TO_SET,
};
use ehci::new_ehci::{find_usb_leg_sup, list_capabilities, new_ehci, AnyEhci, MAX_CAPABILITY_READS};
use ehci::operational_regs::{PortScReg, UsbIntrReg, UsbStsReg};
use ehci::os_owned_ehci::{anchor_queue_head, interrupts_to_enable, pending_interrupts_to_clear};
use ehci::pci::{ConfigAccess, PciAccess};
use ehci::queue_head::QueueHeadHorizontalLinkPtr;
use ehci::root_port_number::{OutOfRange, RootPortNumber};
use ehci::transfer_token::TransferToken;
use ehci::usb_leg_sup::{BiosOwnedEhci, TryTakeOutput};

#[derive(Debug, PartialEq, Eq, Clone, Copy)]
enum Write {
    U8(u8, u8),
    U16(u8, u16),
    U32(u8, u32),
}

/// PCI configuration space with fixed contents that records the writes made.
struct FakePci {
    dwords: Vec<(u8, u32)>,
    reads: Vec<u8>,
    writes: Vec<Write>,
}

impl FakePci {
    fn new(dwords: Vec<(u8, u32)>) -> Self {
        Self { dwords, reads: Vec::new(), writes: Vec::new() }
    }
}

impl PciAccess for FakePci {
    /// The model of the accesses, which only the verifier reads.
    fn accesses(&self) -> vstd::seq::Seq<ConfigAccess> {
        panic!("the record of accesses is a model for proofs")
    }

    fn read_u32(&mut self, offset: u8) -> u32 {
        self.reads.push(offset);
        self.dwords.iter().find(|(o, _)| *o == offset).map(|(_, v)| *v).unwrap_or(0)
    }

    fn write_u8(&mut self, offset: u8, value: u8) {
        self.writes.push(Write::U8(offset, value));
    }

    fn write_u16(&mut self, offset: u8, value: u16) {
        self.writes.push(Write::U16(offset, value));
    }

    fn write_u32(&mut self, offset: u8, value: u32) {
        self.writes.push(Write::U32(offset, value));
    }
}

#[test]
fn capability_chain_is_walked_in_order() {
    let mut pci = FakePci::new(vec![(0x68, 0x0000_7001), (0x70, 0x0000_000A)]);
    let mut capabilities = ExtendedCapabilitiesIterator::new(&mut pci, HccParams::new_with_raw_value(0x6800));
    assert_eq!(capabilities.next(), Some(CapabilityInfo { offset: 0x68, id: 1 }));
    assert_eq!(capabilities.next(), Some(CapabilityInfo { offset: 0x70, id: 0x0A }));
    assert_eq!(capabilities.next(), None);
    assert_eq!(capabilities.next(), None);
    assert!(pci.writes.is_empty());
}

#[test]
fn legacy_support_is_found_along_the_chain() {
    let mut pci = FakePci::new(vec![(0x68, 0x0000_700A), (0x70, 0x0000_7801), (0x78, 0x0000_0001)]);
    let mut capabilities = ExtendedCapabilitiesIterator::new(&mut pci, HccParams::new_with_raw_value(0x6800));
    assert_eq!(find_usb_leg_sup(&mut capabilities), Some(0x70));
    assert_eq!(pci.reads, vec![0x68, 0x70]);
    assert!(pci.writes.is_empty());
}

#[test]
fn chain_without_legacy_support() {
    let mut pci = FakePci::new(vec![(0x68, 0x0000_700A), (0x70, 0x0000_0002)]);
    let mut capabilities = ExtendedCapabilitiesIterator::new(&mut pci, HccParams::new_with_raw_value(0x6800));
    assert_eq!(find_usb_leg_sup(&mut capabilities), None);
    assert_eq!(capabilities.next(), None);
    assert_eq!(pci.reads, vec![0x68, 0x70]);
}

#[test]
fn no_search_without_capabilities() {
    let mut pci = FakePci::new(vec![(0x68, 0x0000_0001)]);
    let mut capabilities = ExtendedCapabilitiesIterator::new(&mut pci, HccParams::new_with_raw_value(0));
    assert_eq!(find_usb_leg_sup(&mut capabilities), None);
    assert!(pci.reads.is_empty());
}

#[test]
fn search_gives_up_on_a_cyclic_chain() {
    let mut pci = FakePci::new(vec![(0x68, 0x0000_700A), (0x70, 0x0000_680B)]);
    let mut capabilities = ExtendedCapabilitiesIterator::new(&mut pci, HccParams::new_with_raw_value(0x6800));
    assert_eq!(find_usb_leg_sup(&mut capabilities), None);
    assert_eq!(pci.reads.len(), MAX_CAPABILITY_READS as usize);
    assert_eq!(&pci.reads[..4], &[0x68, 0x70, 0x68, 0x70]);
}

#[test]
fn capabilities_are_listed_in_chain_order() {
    let mut pci = FakePci::new(vec![(0x68, 0x0000_700A), (0x70, 0x0000_0001)]);
    let mut capabilities = ExtendedCapabilitiesIterator::new(&mut pci, HccParams::new_with_raw_value(0x6800));
    assert_eq!(
        list_capabilities(&mut capabilities),
        vec![CapabilityInfo { offset: 0x68, id: 0x0A }, CapabilityInfo { offset: 0x70, id: 1 }]
    );
    assert_eq!(pci.reads, vec![0x68, 0x70]);
}

#[test]
fn listing_gives_up_on_a_cyclic_chain() {
    let mut pci = FakePci::new(vec![(0x68, 0x0000_700A), (0x70, 0x0000_680B)]);
    let mut capabilities = ExtendedCapabilitiesIterator::new(&mut pci, HccParams::new_with_raw_value(0x6800));
    assert_eq!(list_capabilities(&mut capabilities).len(), MAX_CAPABILITY_READS as usize);
}

#[test]
fn new_controller_with_legacy_support_is_bios_owned() {
    let pci = FakePci::new(vec![(0x68, 0x0000_700A), (0x70, 0x0000_7801), (0x78, 0x0000_0002)]);
    let (ehci, capabilities) = new_ehci(7u32, pci, HccParams::new_with_raw_value(0x6800));
    assert_eq!(capabilities.len(), 3);
    assert_eq!(capabilities[1], CapabilityInfo { offset: 0x70, id: 1 });
    match ehci {
        AnyEhci::BiosOwned(ehci) => {
            assert_eq!(ehci.usb_leg_sup_offset(), 0x70);
            match ehci.take_ownership().try_take() {
                TryTakeOutput::Taken(bar, pci) => {
                    assert_eq!(bar, 7);
                    // The listing walk, the search, then the handshake.
                    assert_eq!(pci.reads, vec![0x68, 0x70, 0x78, 0x68, 0x70, 0x70]);
                    assert_eq!(pci.writes, vec![Write::U8(0x73, 1)]);
                }
                TryTakeOutput::NotYet(_) => panic!("the BIOS does not own the controller"),
            }
        }
        AnyEhci::OsOwned(_) => panic!("expected a BIOS owned controller"),
    }
}

#[test]
fn new_controller_without_legacy_support_is_os_owned() {
    let pci = FakePci::new(vec![(0x68, 0x0000_000A)]);
    let (ehci, capabilities) = new_ehci(7u32, pci, HccParams::new_with_raw_value(0x6800));
    assert_eq!(capabilities, vec![CapabilityInfo { offset: 0x68, id: 0x0A }]);
    assert!(matches!(ehci, AnyEhci::OsOwned(7)));
}

#[test]
fn no_capabilities_when_eecp_is_zero() {
    let mut pci = FakePci::new(vec![(0x68, 0x0000_7001)]);
    let mut capabilities = ExtendedCapabilitiesIterator::new(&mut pci, HccParams::new_with_raw_value(0));
    assert_eq!(capabilities.next(), None);
}

#[test]
fn capability_decoding() {
    let (info, next) = decode_capability(0x40, ExtendedCapabilityPointerReg::new_with_raw_value(0x1234_5001));
    assert_eq!(info, CapabilityInfo { offset: 0x40, id: 1 });
    assert_eq!(next, Some(0x50));
    assert_eq!(info.usb_leg_sup_offset(), Some(0x40));
    let (other, end) = decode_capability(0x50, ExtendedCapabilityPointerReg::new_with_raw_value(0x0000_0002));
    assert_eq!(end, None);
    assert_eq!(other.usb_leg_sup_offset(), None);
    assert_eq!(ExtendedCapability::UsbLegSup.id(), 1);
}

#[test]
fn controller_without_legacy_support_is_os_owned() {
    let pci = FakePci::new(vec![]);
    match AnyEhci::new(7u32, pci, None) {
        AnyEhci::OsOwned(bar) => assert_eq!(bar, 7),
        AnyEhci::BiosOwned(_) => panic!("expected an OS owned controller"),
    }
}

#[test]
fn ownership_handshake() {
    let pci = FakePci::new(vec![(0x68, 0x0001_0001)]);
    let ehci = match AnyEhci::new(7u32, pci, Some(0x68)) {
        AnyEhci::BiosOwned(ehci) => ehci,
        AnyEhci::OsOwned(_) => panic!("expected a BIOS owned controller"),
    };
    assert_eq!(ehci.usb_leg_sup_offset(), 0x68);
    let taking = ehci.take_ownership();
    assert_eq!(taking.usb_leg_sup_offset(), 0x68);
    // The BIOS owned semaphore is still set.
    let taking = match taking.try_take() {
        TryTakeOutput::NotYet(taking) => taking,
        TryTakeOutput::Taken(_, _) => panic!("the BIOS still owns the controller"),
    };
    let released = ehci::usb_leg_sup::UsbLegSupReg::new_with_raw_value(0x0100_0001);
    match taking.try_take_with(released) {
        TryTakeOutput::Taken(bar, pci) => {
            assert_eq!(bar, 7);
            assert_eq!(pci.reads, vec![0x68]);
            assert_eq!(pci.writes, vec![Write::U8(0x6B, 1)]);
        }
        TryTakeOutput::NotYet(_) => panic!("the BIOS released the controller"),
    }
}

#[test]
fn taking_ownership_writes_the_os_owned_semaphore() {
    let mut pci = FakePci::new(vec![(0x68, 0x0000_0001)]);
    let ehci = BiosOwnedEhci::new(7u32, &mut pci, 0x68);
    match ehci.take_ownership().try_take() {
        TryTakeOutput::Taken(bar, _) => assert_eq!(bar, 7),
        TryTakeOutput::NotYet(_) => panic!("the BIOS does not own the controller"),
    }
    assert_eq!(pci.writes, vec![Write::U8(0x6B, 1)]);
}

#[test]
fn root_port_numbers() {
    let port = RootPortNumber::try_from_bits(15).unwrap();
    assert_eq!(port.bits(), 15);
    assert_eq!(port.index(), 15);
    assert_eq!(RootPortNumber::try_from_bits(16), Err(OutOfRange));
    for bits in 0..16u8 {
        assert_eq!(RootPortNumber::try_from_bits(bits).unwrap().bits(), bits);
    }
}

#[test]
fn first_connected_port_is_found() {
    let ports: Vec<PortScReg> =
        [0x1000, 0x1002, 0x1001, 0x1001].iter().map(|raw| PortScReg::new_with_raw_value(*raw)).collect();
    assert_eq!(first_connected_port(&ports).map(|p| p.bits()), Some(2));
    let none: Vec<PortScReg> = [0x1000, 0x2].iter().map(|raw| PortScReg::new_with_raw_value(*raw)).collect();
    assert!(first_connected_port(&none).is_none());
    assert!(first_connected_port(&Vec::new()).is_none());
}

#[test]
fn port_checks() {
    let disconnected = PortScReg::new_with_raw_value(0x1000);
    assert_eq!(check_port_before_reset(disconnected), Err(InitDeviceError::NotConncected));
    let low_speed = PortScReg::new_with_raw_value(0x1401);
    assert_eq!(check_port_before_reset(low_speed), Err(InitDeviceError::IsLowSpeed));
    assert_eq!(check_port_before_reset(PortScReg::new_with_raw_value(0x1001)), Ok(()));
    assert_eq!(check_port_before_reset(PortScReg::new_with_raw_value(0x1801)), Ok(()));
    assert_eq!(check_port_enabled(PortScReg::new_with_raw_value(0x1005)), Ok(()));
    assert_eq!(check_port_enabled(PortScReg::new_with_raw_value(0x1001)), Err(InitDeviceError::IsFullSpeed));
}

#[test]
fn port_reset_does_not_acknowledge_changes() {
    let port_sc = PortScReg::new_with_raw_value(0x102B);
    assert_eq!(port_reset_write(port_sc, true).raw_value(), 0x1101);
    assert_eq!(port_reset_write(PortScReg::new_with_raw_value(0x1107), false).raw_value(), 0x1005);
}

#[test]
fn interrupt_acknowledges_what_it_handles() {
    let response = respond_to_interrupt(UsbStsReg::new_with_raw_value(0x0000_1025));
    assert_eq!(response.clear.raw_value(), 0x2D);
    assert!(response.wake_port_change_waiter);
    assert!(response.wake_transfer_waiters);
    let quiet = respond_to_interrupt(UsbStsReg::new_with_raw_value(0));
    assert_eq!(quiet.clear.raw_value(), 0x8);
    assert!(!quiet.wake_port_change_waiter);
    assert!(!quiet.wake_transfer_waiters);
    let port_change = respond_to_interrupt(UsbStsReg::new_with_raw_value(0x4));
    assert_eq!(port_change.clear.raw_value(), 0xC);
    assert!(port_change.wake_port_change_waiter);
    assert!(!port_change.wake_transfer_waiters);
}

#[test]
fn initialization_register_values() {
    assert_eq!(interrupts_to_enable(UsbIntrReg::new_with_raw_value(0)).raw_value(), 0x17);
    assert_eq!(interrupts_to_enable(UsbIntrReg::new_with_raw_value(0x28)).raw_value(), 0x3F);
    assert_eq!(pending_interrupts_to_clear().raw_value(), 0x9);
}

#[test]
fn anchor_queue_head_links_to_itself() {
    let anchor = anchor_queue_head(0x0010_2000);
    assert_eq!(anchor.queue_head_horizontal_link_ptr.raw_value(), 0x0010_2002);
    assert_eq!(anchor.endpoint_charactersistics.raw_value(), 0x8000);
    assert_eq!(anchor.endpoint_capabilities.raw_value(), 0);
    assert_eq!(anchor.next_qtd_pointer.raw_value(), 1);
    assert_eq!(anchor.alternate_qtd_pointer.raw_value(), 1);
    assert_eq!(anchor.transfer_token.raw_value(), 0);
}

#[test]
fn queue_head_is_inserted_after_the_anchor() {
    let anchor_link = QueueHeadHorizontalLinkPtr::new_with_raw_value(0x0010_2002);
    let insertion = insert_after_anchor(anchor_link, 0x0010_3140);
    assert_eq!(insertion.queue_head_link.raw_value(), 0x0010_2002);
    assert_eq!(insertion.anchor_link.raw_value(), 0x0010_3142);
}

#[test]
fn set_address_transfer_layout() {
    let transfer = set_address_transfer(0x0010_0000, ADDRESS_TO_SET);
    assert_eq!(transfer.qtds.len(), 2);
    assert_eq!(transfer.first_qtd_index, 0);
    assert_eq!(transfer.queue_head_index, 0);
    assert_eq!(transfer.queue_head_phys_addr, 0x0010_0140);
    assert_eq!(transfer.setup_packet.to_bytes(), [0, 5, 0x67, 0, 0, 0, 0, 0]);
    assert_eq!(transfer.setup_packet_offset, 512);
    let qh = transfer.queue_head;
    assert_eq!(qh.queue_head_horizontal_link_ptr.raw_value(), 1);
    assert_eq!(qh.endpoint_charactersistics.raw_value(), 0x0040_2000);
    assert_eq!(qh.endpoint_capabilities.raw_value(), 0);
    assert_eq!(qh.next_qtd_pointer.raw_value(), 0x0010_0000);
    let setup = transfer.qtds[0];
    assert_eq!(setup.qtd_token.raw_value(), 0x0008_8280);
    assert_eq!(setup.buffer_pointer_page_0.raw_value(), 0x0010_0200);
    assert_eq!(setup.buffer_pointer_page_1.raw_value(), 0x0010_1000);
    assert_eq!(setup.next_qtd_ptr.raw_value(), 0x0010_0040);
    let status = transfer.qtds[1];
    assert_eq!(status.qtd_token.raw_value(), 0x8000_8180);
    assert_eq!(status.buffer_pointer_page_0.raw_value(), 0);
    assert_eq!(status.next_qtd_ptr.raw_value(), 1);
}

#[test]
fn get_descriptor_transfer_layout() {
    let transfer = get_descriptor_transfer(0x0010_0000, ADDRESS_TO_SET);
    assert_eq!(transfer.qtds.len(), 3);
    assert_eq!(transfer.first_qtd_index, 2);
    assert_eq!(transfer.queue_head_index, 1);
    assert_eq!(transfer.queue_head_phys_addr, 0x0010_01A0);
    assert_eq!(transfer.setup_packet.to_bytes(), [0x80, 6, 0, 1, 0, 0, 64, 0]);
    assert_eq!(transfer.setup_packet_offset, 520);
    let qh = transfer.queue_head;
    assert_eq!(qh.endpoint_charactersistics.raw_value(), 0x0040_2067);
    assert_eq!(qh.next_qtd_pointer.raw_value(), 0x0010_0080);
    let setup = transfer.qtds[0];
    assert_eq!(setup.qtd_token.raw_value(), 0x0008_8280);
    assert_eq!(setup.buffer_pointer_page_0.raw_value(), 0x0010_0208);
    assert_eq!(setup.next_qtd_ptr.raw_value(), 0x0010_00C0);
    let data = transfer.qtds[1];
    assert_eq!(data.qtd_token.raw_value(), 0x8040_8180);
    assert_eq!(data.buffer_pointer_page_0.raw_value(), 0x0010_0210);
    assert_eq!(data.next_qtd_ptr.raw_value(), 0x0010_0100);
    let status = transfer.qtds[2];
    assert_eq!(status.qtd_token.raw_value(), 0x8000_8080);
    assert_eq!(status.next_qtd_ptr.raw_value(), 1);
}

#[test]
fn descriptor_bytes_are_counted() {
    let token = TransferToken::new_with_raw_value(46 << 16);
    assert_eq!(descriptor_bytes_transferred(token), 18);
    assert_eq!(descriptor_bytes_transferred(TransferToken::new_with_raw_value(0)), 64);
    assert_eq!(descriptor_bytes_transferred(TransferToken::new_with_raw_value(64 << 16)), 0);
}
