use ehci::bitfield::{read_bit, read_field, write_bit, write_field};
use ehci::capability_regs::{HccParams, HciVersion, HcsParams};
use ehci::operational_regs::{
    AsyncListAddrReg, ConfigFlagReg, LineStatus, PortScReg, UsbCmdReg, UsbIntrReg, UsbStsReg,
};
use ehci::periodic_list::{PeriodicFrameList, PeriodicFrameListElement};
use ehci::usb_leg_sup::{UsbLegCtlStsReg, UsbLegSupReg};

#[test]
fn field_read_and_write() {
    assert_eq!(read_field(0xABCD_1234, 8, 8), 0x12);
    assert_eq!(read_field(0xABCD_1234, 28, 4), 0xA);
    assert_eq!(write_field(0, 5, 27, 3), 0x60);
    assert_eq!(write_field(0xFFFF_FFFF, 4, 4, 0), 0xFFFF_FF0F);
    assert!(read_bit(0x8000_0000, 31));
    assert!(!read_bit(0x7FFF_FFFF, 31));
    assert_eq!(write_bit(0, 12, true), 0x1000);
    assert_eq!(write_bit(0xFFFF_FFFF, 0, false), 0xFFFF_FFFE);
}

#[test]
fn field_written_reads_back_and_leaves_others() {
    let raw = 0x1234_5678;
    let written = write_field(raw, 12, 20, 0xABCDE);
    assert_eq!(read_field(written, 12, 20), 0xABCDE);
    assert_eq!(read_field(written, 0, 12), 0x678);
    assert_eq!(write_field(raw, 12, 20, read_field(raw, 12, 20)), raw);
    assert_eq!(write_field(write_field(raw, 4, 4, 1), 4, 4, 9), write_field(raw, 4, 4, 9));
}

#[test]
fn usb_cmd_fields() {
    let cmd = UsbCmdReg::new_with_raw_value(0);
    assert_eq!(cmd.with_rs(true).raw_value(), 0x1);
    assert_eq!(cmd.with_hc_reset(true).raw_value(), 0x2);
    assert_eq!(cmd.with_frame_list_size(3).raw_value(), 0xC);
    assert_eq!(cmd.with_async_schedule_enable(true).raw_value(), 0x20);
    let running = UsbCmdReg::new_with_raw_value(0x0008_0021);
    assert!(running.rs());
    assert!(running.async_schedule_enable());
    assert_eq!(running.with_rs(false).raw_value(), 0x0008_0020);
    assert!(!UsbCmdReg::new_with_raw_value(0x1).hc_reset());
}

#[test]
fn usb_sts_fields() {
    let sts = UsbStsReg::new_with_raw_value(0x0000_D025);
    assert!(sts.usb_int());
    assert!(!sts.usb_err_int());
    assert!(sts.port_change_detect());
    assert!(sts.interrupt_on_async_advance());
    assert!(sts.hc_halted());
    assert!(sts.periodic_schedule_status());
    assert!(sts.async_schedule_status());
    let mut clear = UsbStsReg::new_with_raw_value(0);
    clear.set_usb_int(true);
    clear.set_port_change_detect(true);
    clear.set_interrupt_on_async_advance(true);
    assert_eq!(clear.raw_value(), 0x25);
}

#[test]
fn usb_intr_and_config_flag() {
    let intr = UsbIntrReg::new_with_raw_value(0)
        .with_frame_list_rollover_interrupt_enable(true)
        .with_interrupt_on_async_advance_enable(true);
    assert_eq!(intr.raw_value(), 0x28);
    assert_eq!(ConfigFlagReg::new_with_raw_value(0).with_configure_flag(true).raw_value(), 1);
}

#[test]
fn async_list_addr_drops_low_bits() {
    assert_eq!(AsyncListAddrReg::new(0x1234_5678).raw_value(), 0x1234_5660);
    assert_eq!(AsyncListAddrReg::new(0x1234_5678).link_pointer_low(), 0x1234_5678 >> 5);
    assert_eq!(AsyncListAddrReg::new(0x1F).raw_value(), 0);
}

#[test]
fn port_sc_change_bits_are_not_written_back() {
    let port_sc = PortScReg::new_with_raw_value(0x0000_112F);
    assert!(port_sc.connect_status_change());
    let cleaned = port_sc.without_write_to_clear_bits();
    assert_eq!(cleaned.raw_value(), 0x0000_1105);
    assert!(!cleaned.connect_status_change());
    assert!(!cleaned.port_enable_change());
    assert!(!cleaned.over_current_change());
    assert!(cleaned.current_connect_status());
    assert!(cleaned.port_enabled());
}

#[test]
fn port_sc_fields() {
    let port_sc = PortScReg::new_with_raw_value(0x0070_3D01);
    assert!(port_sc.current_connect_status());
    assert_eq!(port_sc.line_status(), 3);
    assert!(port_sc.port_power());
    assert!(port_sc.port_owner());
    assert_eq!(port_sc.port_indicator_control(), 0);
    assert!(port_sc.port_reset());
    assert!(port_sc.wake_on_connect_enable());
    assert!(port_sc.wake_on_disconnect_enable());
    assert!(port_sc.wake_on_over_current_enable());
    assert_eq!(port_sc.with_port_test_control(0x5).raw_value(), 0x0075_3D01);
}

#[test]
fn line_status_codes() {
    assert_eq!(LineStatus::from_bits(0), LineStatus::Se0);
    assert_eq!(LineStatus::from_bits(1), LineStatus::KState);
    assert_eq!(LineStatus::from_bits(2), LineStatus::JState);
    assert_eq!(LineStatus::from_bits(3), LineStatus::Undefined);
    for bits in 0..4u8 {
        assert_eq!(LineStatus::from_bits(bits).bits(), bits);
    }
    let port_sc = PortScReg::new_with_raw_value(0x400);
    assert_eq!(LineStatus::from_bits(port_sc.line_status()), LineStatus::KState);
}

#[test]
fn capability_params() {
    let hcs = HcsParams::new_with_raw_value(0x0030_1294);
    assert_eq!(hcs.n_ports(), 4);
    assert!(hcs.port_power_control());
    assert!(hcs.port_routing_rules());
    assert_eq!(hcs.n_pcc(), 2);
    assert_eq!(hcs.n_cc(), 1);
    assert!(!hcs.port_indicators());
    assert_eq!(hcs.debug_port_number(), 3);
    let hcc = HccParams::new_with_raw_value(0x0000_A016);
    assert_eq!(hcc.eecp(), 0xA0);
    assert!(!hcc._64_bit_addressing_cap());
    assert!(hcc.programmable_frame_list_flag());
    assert!(hcc.async_sched_park_cap());
    assert_eq!(hcc.isochronous_sched_threshold(), 1);
    let version = HciVersion::new_with_raw_value(0x0100);
    assert_eq!(version.major_revision(), 1);
    assert_eq!(version.minor_revision(), 0);
}

#[test]
fn legacy_support_registers() {
    let leg_sup = UsbLegSupReg::new_with_raw_value(0x0101_0001);
    assert!(leg_sup.bios_owned_semaphore());
    assert!(leg_sup.os_owned_semaphor());
    assert_eq!(UsbLegSupReg::new_with_raw_value(0).with_os_owned_semaphor(true).raw_value(), 0x0100_0000);
    let ctl = UsbLegCtlStsReg::new_with_raw_value(0xE000_0001);
    assert!(ctl.usb_smi_enable());
    assert!(ctl.smi_on_bar());
    assert!(ctl.smi_on_pci_command());
    assert!(ctl.smi_on_os_ownership());
    assert!(!ctl.smi_on_usb_complete());
}

#[test]
fn periodic_frame_list_is_unused() {
    assert_eq!(PeriodicFrameListElement::unused().raw_value(), 1);
    let list = PeriodicFrameList::all_unused();
    assert_eq!(list.elements.len(), 1024);
    assert!(list.elements.iter().all(|element| element.raw_value() == 1));
    let element = PeriodicFrameListElement::zero()
        .with_typ(1)
        .with_addr_upper_bits(0x1234_5660 >> 5);
    assert_eq!(element.raw_value(), 0x1234_5662);
    assert!(!element.t());
}
