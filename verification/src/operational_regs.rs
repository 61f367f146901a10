//! Operational registers of the host controller.
use vstd::prelude::*;

use crate::bitfield::{
    disjoint_fields, get_bit, get_field, is_field, lemma_field_mask_values, lemma_set_frame,
    lemma_zero_fields, link_pointer_bits, read_bit, read_field, set_bit, set_field, write_bit,
    write_field,
};

verus! {

/// USBCMD: the command register.
#[derive(Clone, Copy, Debug, PartialEq, Eq, Structural)]
pub struct UsbCmdReg {
    raw: u32,
}

impl View for UsbCmdReg {
    type V = u32;

    closed spec fn view(&self) -> u32 {
        self.raw
    }
}

impl UsbCmdReg {
    /// The register value whose bits are `raw`.
    pub fn new_with_raw_value(raw: u32) -> (r: Self)
        ensures
            r@ == raw,
    {
        Self { raw }
    }

    /// The bits of this value.
    pub fn raw_value(&self) -> (r: u32)
        ensures
            r == self@,
    {
        self.raw
    }

    /// Run/stop: the controller runs the schedules while this is set.
    pub fn rs(&self) -> (r: bool)
        ensures
            r == get_bit(self@, 0),
    {
        read_bit(self.raw, 0)
    }

    /// This value with `rs` set to `value`.
    pub fn with_rs(self, value: bool) -> (r: Self)
        ensures
            r@ == set_bit(self@, 0, value),
            get_bit(r@, 0) == value,
            forall|low: u32, width: u32|
                is_field(low, width) && disjoint_fields(0, 1, low, width)
                    ==> #[trigger] get_field(r@, low, width) == get_field(self@, low, width),
    {
        Self { raw: write_bit(self.raw, 0, value) }
    }

    /// Host controller reset: write 1 to reset; it reads 1 until the reset is done.
    pub fn hc_reset(&self) -> (r: bool)
        ensures
            r == get_bit(self@, 1),
    {
        read_bit(self.raw, 1)
    }

    /// This value with `hc_reset` set to `value`.
    pub fn with_hc_reset(self, value: bool) -> (r: Self)
        ensures
            r@ == set_bit(self@, 1, value),
            get_bit(r@, 1) == value,
            forall|low: u32, width: u32|
                is_field(low, width) && disjoint_fields(1, 1, low, width)
                    ==> #[trigger] get_field(r@, low, width) == get_field(self@, low, width),
    {
        Self { raw: write_bit(self.raw, 1, value) }
    }

    /// Frame list size.
    pub fn frame_list_size(&self) -> (r: u8)
        ensures
            r == get_field(self@, 2, 2),
            r <= 0x3,
    {
        proof {
            lemma_field_mask_values();
        }
        read_field(self.raw, 2, 2) as u8
    }

    /// This value with `frame_list_size` set to `value`.
    pub fn with_frame_list_size(self, value: u8) -> (r: Self)
        requires
            value <= 0x3,
        ensures
            r@ == set_field(self@, 2, 2, value as u32),
            get_field(r@, 2, 2) == value,
            forall|low2: u32, width2: u32|
                is_field(low2, width2) && disjoint_fields(2, 2, low2, width2)
                    ==> #[trigger] get_field(r@, low2, width2) == get_field(self@, low2, width2),
    {
        proof {
            lemma_field_mask_values();
        }
        Self { raw: write_field(self.raw, 2, 2, value as u32) }
    }

    /// Periodic schedule enable.
    pub fn periodic_schedule_enable(&self) -> (r: bool)
        ensures
            r == get_bit(self@, 4),
    {
        read_bit(self.raw, 4)
    }

    /// This value with `periodic_schedule_enable` set to `value`.
    pub fn with_periodic_schedule_enable(self, value: bool) -> (r: Self)
        ensures
            r@ == set_bit(self@, 4, value),
            get_bit(r@, 4) == value,
            forall|low: u32, width: u32|
                is_field(low, width) && disjoint_fields(4, 1, low, width)
                    ==> #[trigger] get_field(r@, low, width) == get_field(self@, low, width),
    {
        Self { raw: write_bit(self.raw, 4, value) }
    }

    /// Asynchronous schedule enable.
    pub fn async_schedule_enable(&self) -> (r: bool)
        ensures
            r == get_bit(self@, 5),
    {
        read_bit(self.raw, 5)
    }

    /// This value with `async_schedule_enable` set to `value`.
    pub fn with_async_schedule_enable(self, value: bool) -> (r: Self)
        ensures
            r@ == set_bit(self@, 5, value),
            get_bit(r@, 5) == value,
            forall|low: u32, width: u32|
                is_field(low, width) && disjoint_fields(5, 1, low, width)
                    ==> #[trigger] get_field(r@, low, width) == get_field(self@, low, width),
    {
        Self { raw: write_bit(self.raw, 5, value) }
    }

    /// Interrupt on async advance doorbell.
    pub fn interrupt_on_async_advance_doorbell(&self) -> (r: bool)
        ensures
            r == get_bit(self@, 6),
    {
        read_bit(self.raw, 6)
    }

    /// This value with `interrupt_on_async_advance_doorbell` set to `value`.
    pub fn with_interrupt_on_async_advance_doorbell(self, value: bool) -> (r: Self)
        ensures
            r@ == set_bit(self@, 6, value),
            get_bit(r@, 6) == value,
            forall|low: u32, width: u32|
                is_field(low, width) && disjoint_fields(6, 1, low, width)
                    ==> #[trigger] get_field(r@, low, width) == get_field(self@, low, width),
    {
        Self { raw: write_bit(self.raw, 6, value) }
    }

    /// Light host controller reset.
    pub fn light_host_controller_reset(&self) -> (r: bool)
        ensures
            r == get_bit(self@, 7),
    {
        read_bit(self.raw, 7)
    }

    /// This value with `light_host_controller_reset` set to `value`.
    pub fn with_light_host_controller_reset(self, value: bool) -> (r: Self)
        ensures
            r@ == set_bit(self@, 7, value),
            get_bit(r@, 7) == value,
            forall|low: u32, width: u32|
                is_field(low, width) && disjoint_fields(7, 1, low, width)
                    ==> #[trigger] get_field(r@, low, width) == get_field(self@, low, width),
    {
        Self { raw: write_bit(self.raw, 7, value) }
    }
}

/// USBSTS: the status register.
#[derive(Clone, Copy, Debug, PartialEq, Eq, Structural)]
pub struct UsbStsReg {
    raw: u32,
}

impl View for UsbStsReg {
    type V = u32;

    closed spec fn view(&self) -> u32 {
        self.raw
    }
}

impl UsbStsReg {
    /// The register value whose bits are `raw`.
    pub fn new_with_raw_value(raw: u32) -> (r: Self)
        ensures
            r@ == raw,
    {
        Self { raw }
    }

    /// The bits of this value.
    pub fn raw_value(&self) -> (r: u32)
        ensures
            r == self@,
    {
        self.raw
    }

    /// A transfer completed with interrupt on complete.
    pub fn usb_int(&self) -> (r: bool)
        ensures
            r == get_bit(self@, 0),
    {
        read_bit(self.raw, 0)
    }

    /// This value with `usb_int` set to `value`.
    pub fn with_usb_int(self, value: bool) -> (r: Self)
        ensures
            r@ == set_bit(self@, 0, value),
            get_bit(r@, 0) == value,
            forall|low: u32, width: u32|
                is_field(low, width) && disjoint_fields(0, 1, low, width)
                    ==> #[trigger] get_field(r@, low, width) == get_field(self@, low, width),
    {
        Self { raw: write_bit(self.raw, 0, value) }
    }

    /// Sets `usb_int` to `value`.
    pub fn set_usb_int(&mut self, value: bool)
        ensures
            final(self)@ == set_bit(old(self)@, 0, value),
    {
        self.raw = write_bit(self.raw, 0, value);
    }

    /// A transfer completed with an error.
    pub fn usb_err_int(&self) -> (r: bool)
        ensures
            r == get_bit(self@, 1),
    {
        read_bit(self.raw, 1)
    }

    /// This value with `usb_err_int` set to `value`.
    pub fn with_usb_err_int(self, value: bool) -> (r: Self)
        ensures
            r@ == set_bit(self@, 1, value),
            get_bit(r@, 1) == value,
            forall|low: u32, width: u32|
                is_field(low, width) && disjoint_fields(1, 1, low, width)
                    ==> #[trigger] get_field(r@, low, width) == get_field(self@, low, width),
    {
        Self { raw: write_bit(self.raw, 1, value) }
    }

    /// A port changed.
    pub fn port_change_detect(&self) -> (r: bool)
        ensures
            r == get_bit(self@, 2),
    {
        read_bit(self.raw, 2)
    }

    /// This value with `port_change_detect` set to `value`.
    pub fn with_port_change_detect(self, value: bool) -> (r: Self)
        ensures
            r@ == set_bit(self@, 2, value),
            get_bit(r@, 2) == value,
            forall|low: u32, width: u32|
                is_field(low, width) && disjoint_fields(2, 1, low, width)
                    ==> #[trigger] get_field(r@, low, width) == get_field(self@, low, width),
    {
        Self { raw: write_bit(self.raw, 2, value) }
    }

    /// Sets `port_change_detect` to `value`.
    pub fn set_port_change_detect(&mut self, value: bool)
        ensures
            final(self)@ == set_bit(old(self)@, 2, value),
    {
        self.raw = write_bit(self.raw, 2, value);
    }

    /// The frame index rolled over.
    pub fn frame_list_rollover(&self) -> (r: bool)
        ensures
            r == get_bit(self@, 3),
    {
        read_bit(self.raw, 3)
    }

    /// This value with `frame_list_rollover` set to `value`.
    pub fn with_frame_list_rollover(self, value: bool) -> (r: Self)
        ensures
            r@ == set_bit(self@, 3, value),
            get_bit(r@, 3) == value,
            forall|low: u32, width: u32|
                is_field(low, width) && disjoint_fields(3, 1, low, width)
                    ==> #[trigger] get_field(r@, low, width) == get_field(self@, low, width),
    {
        Self { raw: write_bit(self.raw, 3, value) }
    }

    /// A serious error occurred during a host system access.
    pub fn host_system_error(&self) -> (r: bool)
        ensures
            r == get_bit(self@, 4),
    {
        read_bit(self.raw, 4)
    }

    /// This value with `host_system_error` set to `value`.
    pub fn with_host_system_error(self, value: bool) -> (r: Self)
        ensures
            r@ == set_bit(self@, 4, value),
            get_bit(r@, 4) == value,
            forall|low: u32, width: u32|
                is_field(low, width) && disjoint_fields(4, 1, low, width)
                    ==> #[trigger] get_field(r@, low, width) == get_field(self@, low, width),
    {
        Self { raw: write_bit(self.raw, 4, value) }
    }

    /// The asynchronous schedule advanced after a doorbell.
    pub fn interrupt_on_async_advance(&self) -> (r: bool)
        ensures
            r == get_bit(self@, 5),
    {
        read_bit(self.raw, 5)
    }

    /// This value with `interrupt_on_async_advance` set to `value`.
    pub fn with_interrupt_on_async_advance(self, value: bool) -> (r: Self)
        ensures
            r@ == set_bit(self@, 5, value),
            get_bit(r@, 5) == value,
            forall|low: u32, width: u32|
                is_field(low, width) && disjoint_fields(5, 1, low, width)
                    ==> #[trigger] get_field(r@, low, width) == get_field(self@, low, width),
    {
        Self { raw: write_bit(self.raw, 5, value) }
    }

    /// Sets `interrupt_on_async_advance` to `value`.
    pub fn set_interrupt_on_async_advance(&mut self, value: bool)
        ensures
            final(self)@ == set_bit(old(self)@, 5, value),
    {
        self.raw = write_bit(self.raw, 5, value);
    }

    /// The controller is halted.
    pub fn hc_halted(&self) -> (r: bool)
        ensures
            r == get_bit(self@, 12),
    {
        read_bit(self.raw, 12)
    }

    /// The periodic schedule is enabled.
    pub fn periodic_schedule_status(&self) -> (r: bool)
        ensures
            r == get_bit(self@, 14),
    {
        read_bit(self.raw, 14)
    }

    /// The asynchronous schedule is enabled.
    pub fn async_schedule_status(&self) -> (r: bool)
        ensures
            r == get_bit(self@, 15),
    {
        read_bit(self.raw, 15)
    }
}

/// USBINTR: the interrupt enable register.
#[derive(Clone, Copy, Debug, PartialEq, Eq, Structural)]
pub struct UsbIntrReg {
    raw: u32,
}

impl View for UsbIntrReg {
    type V = u32;

    closed spec fn view(&self) -> u32 {
        self.raw
    }
}

impl UsbIntrReg {
    /// The register value whose bits are `raw`.
    pub fn new_with_raw_value(raw: u32) -> (r: Self)
        ensures
            r@ == raw,
    {
        Self { raw }
    }

    /// The bits of this value.
    pub fn raw_value(&self) -> (r: u32)
        ensures
            r == self@,
    {
        self.raw
    }

    /// Interrupt on transfer completion.
    pub fn usb_interrupt_enable(&self) -> (r: bool)
        ensures
            r == get_bit(self@, 0),
    {
        read_bit(self.raw, 0)
    }

    /// This value with `usb_interrupt_enable` set to `value`.
    pub fn with_usb_interrupt_enable(self, value: bool) -> (r: Self)
        ensures
            r@ == set_bit(self@, 0, value),
            get_bit(r@, 0) == value,
            forall|low: u32, width: u32|
                is_field(low, width) && disjoint_fields(0, 1, low, width)
                    ==> #[trigger] get_field(r@, low, width) == get_field(self@, low, width),
    {
        Self { raw: write_bit(self.raw, 0, value) }
    }

    /// Interrupt on transfer error.
    pub fn usb_error_interrupt_enable(&self) -> (r: bool)
        ensures
            r == get_bit(self@, 1),
    {
        read_bit(self.raw, 1)
    }

    /// This value with `usb_error_interrupt_enable` set to `value`.
    pub fn with_usb_error_interrupt_enable(self, value: bool) -> (r: Self)
        ensures
            r@ == set_bit(self@, 1, value),
            get_bit(r@, 1) == value,
            forall|low: u32, width: u32|
                is_field(low, width) && disjoint_fields(1, 1, low, width)
                    ==> #[trigger] get_field(r@, low, width) == get_field(self@, low, width),
    {
        Self { raw: write_bit(self.raw, 1, value) }
    }

    /// Interrupt on port change.
    pub fn port_change_interrupt_enable(&self) -> (r: bool)
        ensures
            r == get_bit(self@, 2),
    {
        read_bit(self.raw, 2)
    }

    /// This value with `port_change_interrupt_enable` set to `value`.
    pub fn with_port_change_interrupt_enable(self, value: bool) -> (r: Self)
        ensures
            r@ == set_bit(self@, 2, value),
            get_bit(r@, 2) == value,
            forall|low: u32, width: u32|
                is_field(low, width) && disjoint_fields(2, 1, low, width)
                    ==> #[trigger] get_field(r@, low, width) == get_field(self@, low, width),
    {
        Self { raw: write_bit(self.raw, 2, value) }
    }

    /// Interrupt on frame list rollover.
    pub fn frame_list_rollover_interrupt_enable(&self) -> (r: bool)
        ensures
            r == get_bit(self@, 3),
    {
        read_bit(self.raw, 3)
    }

    /// This value with `frame_list_rollover_interrupt_enable` set to `value`.
    pub fn with_frame_list_rollover_interrupt_enable(self, value: bool) -> (r: Self)
        ensures
            r@ == set_bit(self@, 3, value),
            get_bit(r@, 3) == value,
            forall|low: u32, width: u32|
                is_field(low, width) && disjoint_fields(3, 1, low, width)
                    ==> #[trigger] get_field(r@, low, width) == get_field(self@, low, width),
    {
        Self { raw: write_bit(self.raw, 3, value) }
    }

    /// Interrupt on host system error.
    pub fn host_system_error_interrupt_enable(&self) -> (r: bool)
        ensures
            r == get_bit(self@, 4),
    {
        read_bit(self.raw, 4)
    }

    /// This value with `host_system_error_interrupt_enable` set to `value`.
    pub fn with_host_system_error_interrupt_enable(self, value: bool) -> (r: Self)
        ensures
            r@ == set_bit(self@, 4, value),
            get_bit(r@, 4) == value,
            forall|low: u32, width: u32|
                is_field(low, width) && disjoint_fields(4, 1, low, width)
                    ==> #[trigger] get_field(r@, low, width) == get_field(self@, low, width),
    {
        Self { raw: write_bit(self.raw, 4, value) }
    }

    /// Interrupt on async advance.
    pub fn interrupt_on_async_advance_enable(&self) -> (r: bool)
        ensures
            r == get_bit(self@, 5),
    {
        read_bit(self.raw, 5)
    }

    /// This value with `interrupt_on_async_advance_enable` set to `value`.
    pub fn with_interrupt_on_async_advance_enable(self, value: bool) -> (r: Self)
        ensures
            r@ == set_bit(self@, 5, value),
            get_bit(r@, 5) == value,
            forall|low: u32, width: u32|
                is_field(low, width) && disjoint_fields(5, 1, low, width)
                    ==> #[trigger] get_field(r@, low, width) == get_field(self@, low, width),
    {
        Self { raw: write_bit(self.raw, 5, value) }
    }
}

/// FRINDEX: the frame index register.
#[derive(Clone, Copy, Debug, PartialEq, Eq, Structural)]
pub struct UsbFrIndexReg {
    raw: u32,
}

impl View for UsbFrIndexReg {
    type V = u32;

    closed spec fn view(&self) -> u32 {
        self.raw
    }
}

impl UsbFrIndexReg {
    /// The register value whose bits are `raw`.
    pub fn new_with_raw_value(raw: u32) -> (r: Self)
        ensures
            r@ == raw,
    {
        Self { raw }
    }

    /// The bits of this value.
    pub fn raw_value(&self) -> (r: u32)
        ensures
            r == self@,
    {
        self.raw
    }
}

/// ASYNCLISTADDR: the address of the next queue head of the asynchronous schedule.
#[derive(Clone, Copy, Debug, PartialEq, Eq, Structural)]
pub struct AsyncListAddrReg {
    raw: u32,
}

impl View for AsyncListAddrReg {
    type V = u32;

    closed spec fn view(&self) -> u32 {
        self.raw
    }
}

impl AsyncListAddrReg {
    /// The register value whose bits are `raw`.
    pub fn new_with_raw_value(raw: u32) -> (r: Self)
        ensures
            r@ == raw,
    {
        Self { raw }
    }

    /// The bits of this value.
    pub fn raw_value(&self) -> (r: u32)
        ensures
            r == self@,
    {
        self.raw
    }

    /// Bits 5 to 31 of the link pointer.
    pub fn link_pointer_low(&self) -> (r: u32)
        ensures
            r == get_field(self@, 5, 27),
            r <= 0x7ff_ffff,
    {
        proof {
            lemma_field_mask_values();
        }
        read_field(self.raw, 5, 27)
    }

    /// This value with `link_pointer_low` set to `value`.
    pub fn with_link_pointer_low(self, value: u32) -> (r: Self)
        requires
            value <= 0x7ff_ffff,
        ensures
            r@ == set_field(self@, 5, 27, value as u32),
            get_field(r@, 5, 27) == value,
            forall|low2: u32, width2: u32|
                is_field(low2, width2) && disjoint_fields(5, 27, low2, width2)
                    ==> #[trigger] get_field(r@, low2, width2) == get_field(self@, low2, width2),
    {
        proof {
            lemma_field_mask_values();
        }
        Self { raw: write_field(self.raw, 5, 27, value) }
    }
}

/// CONFIGFLAG: port routing.
#[derive(Clone, Copy, Debug, PartialEq, Eq, Structural)]
pub struct ConfigFlagReg {
    raw: u32,
}

impl View for ConfigFlagReg {
    type V = u32;

    closed spec fn view(&self) -> u32 {
        self.raw
    }
}

impl ConfigFlagReg {
    /// The register value whose bits are `raw`.
    pub fn new_with_raw_value(raw: u32) -> (r: Self)
        ensures
            r@ == raw,
    {
        Self { raw }
    }

    /// The bits of this value.
    pub fn raw_value(&self) -> (r: u32)
        ensures
            r == self@,
    {
        self.raw
    }

    /// 0: ports are routed to the companion controllers; 1: ports are routed to this controller.
    pub fn configure_flag(&self) -> (r: bool)
        ensures
            r == get_bit(self@, 0),
    {
        read_bit(self.raw, 0)
    }

    /// This value with `configure_flag` set to `value`.
    pub fn with_configure_flag(self, value: bool) -> (r: Self)
        ensures
            r@ == set_bit(self@, 0, value),
            get_bit(r@, 0) == value,
            forall|low: u32, width: u32|
                is_field(low, width) && disjoint_fields(0, 1, low, width)
                    ==> #[trigger] get_field(r@, low, width) == get_field(self@, low, width),
    {
        Self { raw: write_bit(self.raw, 0, value) }
    }
}

/// PORTSC: the status and control register of one root port.
#[derive(Clone, Copy, Debug, PartialEq, Eq, Structural)]
pub struct PortScReg {
    raw: u32,
}

impl View for PortScReg {
    type V = u32;

    closed spec fn view(&self) -> u32 {
        self.raw
    }
}

impl PortScReg {
    /// The register value whose bits are `raw`.
    pub fn new_with_raw_value(raw: u32) -> (r: Self)
        ensures
            r@ == raw,
    {
        Self { raw }
    }

    /// The bits of this value.
    pub fn raw_value(&self) -> (r: u32)
        ensures
            r == self@,
    {
        self.raw
    }

    /// A device is connected.
    pub fn current_connect_status(&self) -> (r: bool)
        ensures
            r == get_bit(self@, 0),
    {
        read_bit(self.raw, 0)
    }

    /// The connect status changed (write 1 to clear).
    pub fn connect_status_change(&self) -> (r: bool)
        ensures
            r == get_bit(self@, 1),
    {
        read_bit(self.raw, 1)
    }

    /// This value with `connect_status_change` set to `value`.
    pub fn with_connect_status_change(self, value: bool) -> (r: Self)
        ensures
            r@ == set_bit(self@, 1, value),
            get_bit(r@, 1) == value,
            forall|low: u32, width: u32|
                is_field(low, width) && disjoint_fields(1, 1, low, width)
                    ==> #[trigger] get_field(r@, low, width) == get_field(self@, low, width),
    {
        Self { raw: write_bit(self.raw, 1, value) }
    }

    /// The port is enabled.
    pub fn port_enabled(&self) -> (r: bool)
        ensures
            r == get_bit(self@, 2),
    {
        read_bit(self.raw, 2)
    }

    /// This value with `port_enabled` set to `value`.
    pub fn with_port_enabled(self, value: bool) -> (r: Self)
        ensures
            r@ == set_bit(self@, 2, value),
            get_bit(r@, 2) == value,
            forall|low: u32, width: u32|
                is_field(low, width) && disjoint_fields(2, 1, low, width)
                    ==> #[trigger] get_field(r@, low, width) == get_field(self@, low, width),
    {
        Self { raw: write_bit(self.raw, 2, value) }
    }

    /// The port enable status changed (write 1 to clear).
    pub fn port_enable_change(&self) -> (r: bool)
        ensures
            r == get_bit(self@, 3),
    {
        read_bit(self.raw, 3)
    }

    /// This value with `port_enable_change` set to `value`.
    pub fn with_port_enable_change(self, value: bool) -> (r: Self)
        ensures
            r@ == set_bit(self@, 3, value),
            get_bit(r@, 3) == value,
            forall|low: u32, width: u32|
                is_field(low, width) && disjoint_fields(3, 1, low, width)
                    ==> #[trigger] get_field(r@, low, width) == get_field(self@, low, width),
    {
        Self { raw: write_bit(self.raw, 3, value) }
    }

    /// The port is in over-current.
    pub fn over_current_active(&self) -> (r: bool)
        ensures
            r == get_bit(self@, 4),
    {
        read_bit(self.raw, 4)
    }

    /// The over-current status changed (write 1 to clear).
    pub fn over_current_change(&self) -> (r: bool)
        ensures
            r == get_bit(self@, 5),
    {
        read_bit(self.raw, 5)
    }

    /// This value with `over_current_change` set to `value`.
    pub fn with_over_current_change(self, value: bool) -> (r: Self)
        ensures
            r@ == set_bit(self@, 5, value),
            get_bit(r@, 5) == value,
            forall|low: u32, width: u32|
                is_field(low, width) && disjoint_fields(5, 1, low, width)
                    ==> #[trigger] get_field(r@, low, width) == get_field(self@, low, width),
    {
        Self { raw: write_bit(self.raw, 5, value) }
    }

    /// Force port resume.
    pub fn force_port_resume(&self) -> (r: bool)
        ensures
            r == get_bit(self@, 6),
    {
        read_bit(self.raw, 6)
    }

    /// This value with `force_port_resume` set to `value`.
    pub fn with_force_port_resume(self, value: bool) -> (r: Self)
        ensures
            r@ == set_bit(self@, 6, value),
            get_bit(r@, 6) == value,
            forall|low: u32, width: u32|
                is_field(low, width) && disjoint_fields(6, 1, low, width)
                    ==> #[trigger] get_field(r@, low, width) == get_field(self@, low, width),
    {
        Self { raw: write_bit(self.raw, 6, value) }
    }

    /// The port is suspended.
    pub fn suspend(&self) -> (r: bool)
        ensures
            r == get_bit(self@, 7),
    {
        read_bit(self.raw, 7)
    }

    /// This value with `suspend` set to `value`.
    pub fn with_suspend(self, value: bool) -> (r: Self)
        ensures
            r@ == set_bit(self@, 7, value),
            get_bit(r@, 7) == value,
            forall|low: u32, width: u32|
                is_field(low, width) && disjoint_fields(7, 1, low, width)
                    ==> #[trigger] get_field(r@, low, width) == get_field(self@, low, width),
    {
        Self { raw: write_bit(self.raw, 7, value) }
    }

    /// The port is in reset.
    pub fn port_reset(&self) -> (r: bool)
        ensures
            r == get_bit(self@, 8),
    {
        read_bit(self.raw, 8)
    }

    /// This value with `port_reset` set to `value`.
    pub fn with_port_reset(self, value: bool) -> (r: Self)
        ensures
            r@ == set_bit(self@, 8, value),
            get_bit(r@, 8) == value,
            forall|low: u32, width: u32|
                is_field(low, width) && disjoint_fields(8, 1, low, width)
                    ==> #[trigger] get_field(r@, low, width) == get_field(self@, low, width),
    {
        Self { raw: write_bit(self.raw, 8, value) }
    }

    /// The logical levels of the D+ and D- lines.
    pub fn line_status(&self) -> (r: u8)
        ensures
            r == get_field(self@, 10, 2),
            r <= 0x3,
    {
        proof {
            lemma_field_mask_values();
        }
        read_field(self.raw, 10, 2) as u8
    }

    /// Port power.
    pub fn port_power(&self) -> (r: bool)
        ensures
            r == get_bit(self@, 12),
    {
        read_bit(self.raw, 12)
    }

    /// This value with `port_power` set to `value`.
    pub fn with_port_power(self, value: bool) -> (r: Self)
        ensures
            r@ == set_bit(self@, 12, value),
            get_bit(r@, 12) == value,
            forall|low: u32, width: u32|
                is_field(low, width) && disjoint_fields(12, 1, low, width)
                    ==> #[trigger] get_field(r@, low, width) == get_field(self@, low, width),
    {
        Self { raw: write_bit(self.raw, 12, value) }
    }

    /// 0: owned by this controller; 1: owned by a companion controller.
    pub fn port_owner(&self) -> (r: bool)
        ensures
            r == get_bit(self@, 13),
    {
        read_bit(self.raw, 13)
    }

    /// This value with `port_owner` set to `value`.
    pub fn with_port_owner(self, value: bool) -> (r: Self)
        ensures
            r@ == set_bit(self@, 13, value),
            get_bit(r@, 13) == value,
            forall|low: u32, width: u32|
                is_field(low, width) && disjoint_fields(13, 1, low, width)
                    ==> #[trigger] get_field(r@, low, width) == get_field(self@, low, width),
    {
        Self { raw: write_bit(self.raw, 13, value) }
    }

    /// Port indicator control.
    pub fn port_indicator_control(&self) -> (r: u8)
        ensures
            r == get_field(self@, 14, 2),
            r <= 0x3,
    {
        proof {
            lemma_field_mask_values();
        }
        read_field(self.raw, 14, 2) as u8
    }

    /// This value with `port_indicator_control` set to `value`.
    pub fn with_port_indicator_control(self, value: u8) -> (r: Self)
        requires
            value <= 0x3,
        ensures
            r@ == set_field(self@, 14, 2, value as u32),
            get_field(r@, 14, 2) == value,
            forall|low2: u32, width2: u32|
                is_field(low2, width2) && disjoint_fields(14, 2, low2, width2)
                    ==> #[trigger] get_field(r@, low2, width2) == get_field(self@, low2, width2),
    {
        proof {
            lemma_field_mask_values();
        }
        Self { raw: write_field(self.raw, 14, 2, value as u32) }
    }

    /// Port test control.
    pub fn port_test_control(&self) -> (r: u8)
        ensures
            r == get_field(self@, 16, 4),
            r <= 0xf,
    {
        proof {
            lemma_field_mask_values();
        }
        read_field(self.raw, 16, 4) as u8
    }

    /// This value with `port_test_control` set to `value`.
    pub fn with_port_test_control(self, value: u8) -> (r: Self)
        requires
            value <= 0xf,
        ensures
            r@ == set_field(self@, 16, 4, value as u32),
            get_field(r@, 16, 4) == value,
            forall|low2: u32, width2: u32|
                is_field(low2, width2) && disjoint_fields(16, 4, low2, width2)
                    ==> #[trigger] get_field(r@, low2, width2) == get_field(self@, low2, width2),
    {
        proof {
            lemma_field_mask_values();
        }
        Self { raw: write_field(self.raw, 16, 4, value as u32) }
    }

    /// Wake on connect.
    pub fn wake_on_connect_enable(&self) -> (r: bool)
        ensures
            r == get_bit(self@, 20),
    {
        read_bit(self.raw, 20)
    }

    /// This value with `wake_on_connect_enable` set to `value`.
    pub fn with_wake_on_connect_enable(self, value: bool) -> (r: Self)
        ensures
            r@ == set_bit(self@, 20, value),
            get_bit(r@, 20) == value,
            forall|low: u32, width: u32|
                is_field(low, width) && disjoint_fields(20, 1, low, width)
                    ==> #[trigger] get_field(r@, low, width) == get_field(self@, low, width),
    {
        Self { raw: write_bit(self.raw, 20, value) }
    }

    /// Wake on disconnect.
    pub fn wake_on_disconnect_enable(&self) -> (r: bool)
        ensures
            r == get_bit(self@, 21),
    {
        read_bit(self.raw, 21)
    }

    /// This value with `wake_on_disconnect_enable` set to `value`.
    pub fn with_wake_on_disconnect_enable(self, value: bool) -> (r: Self)
        ensures
            r@ == set_bit(self@, 21, value),
            get_bit(r@, 21) == value,
            forall|low: u32, width: u32|
                is_field(low, width) && disjoint_fields(21, 1, low, width)
                    ==> #[trigger] get_field(r@, low, width) == get_field(self@, low, width),
    {
        Self { raw: write_bit(self.raw, 21, value) }
    }

    /// Wake on over-current.
    pub fn wake_on_over_current_enable(&self) -> (r: bool)
        ensures
            r == get_bit(self@, 22),
    {
        read_bit(self.raw, 22)
    }

    /// This value with `wake_on_over_current_enable` set to `value`.
    pub fn with_wake_on_over_current_enable(self, value: bool) -> (r: Self)
        ensures
            r@ == set_bit(self@, 22, value),
            get_bit(r@, 22) == value,
            forall|low: u32, width: u32|
                is_field(low, width) && disjoint_fields(22, 1, low, width)
                    ==> #[trigger] get_field(r@, low, width) == get_field(self@, low, width),
    {
        Self { raw: write_bit(self.raw, 22, value) }
    }
}

impl AsyncListAddrReg {
    /// The register value that points at the queue head at `addr`; the low
    /// five bits of `addr` are dropped, as queue heads are 32-byte aligned.
    pub fn new(addr: u32) -> (r: Self)
        ensures
            r@ == set_field(0, 5, 27, addr >> 5),
            get_field(r@, 5, 27) == addr / 32,
            get_field(r@, 0, 5) == 0,
    {
        proof {
            lemma_zero_fields();
        }
        let bits = link_pointer_bits(addr);
        Self { raw: write_field(0, 5, 27, bits) }
    }
}

impl PortScReg {
    /// This value with the three write-one-to-clear change bits (connect
    /// status change, port enable change, over-current change) cleared, so that
    /// writing it back updates the port without acknowledging a change.
    pub fn without_write_to_clear_bits(&self) -> (r: Self)
        ensures
            r@ == set_bit(set_bit(set_bit(self@, 1, false), 3, false), 5, false),
            !r.connect_status_change_spec(),
            !r.port_enable_change_spec(),
            !r.over_current_change_spec(),
            forall|low: u32, width: u32|
                is_field(low, width) && disjoint_fields(1, 1, low, width) && disjoint_fields(
                    3,
                    1,
                    low,
                    width,
                ) && disjoint_fields(5, 1, low, width) ==> #[trigger] get_field(r@, low, width)
                    == get_field(self@, low, width),
    {
        let a = write_bit(self.raw, 1, false);
        let b = write_bit(a, 3, false);
        let c = write_bit(b, 5, false);
        proof {
            lemma_field_mask_values();
            assert(!get_bit(c, 3)) by {
                lemma_set_frame(b, 5, 1, 0, 3, 1);
            }
            assert(!get_bit(c, 1)) by {
                lemma_set_frame(b, 5, 1, 0, 1, 1);
                lemma_set_frame(a, 3, 1, 0, 1, 1);
            }
        }
        Self { raw: c }
    }

    /// The connect status change bit of this value.
    pub open spec fn connect_status_change_spec(&self) -> bool {
        get_bit(self@, 1)
    }

    /// The port enable change bit of this value.
    pub open spec fn port_enable_change_spec(&self) -> bool {
        get_bit(self@, 3)
    }

    /// The over-current change bit of this value.
    pub open spec fn over_current_change_spec(&self) -> bool {
        get_bit(self@, 5)
    }
}

/// The state of the D+ and D- lines of a port, as reported by PORTSC.
#[derive(Debug, Clone, Copy, PartialEq, Eq, Structural, PartialOrd, Ord)]
pub enum LineStatus {
    /// Not a low-speed device: perform the EHCI reset.
    Se0,
    /// Low-speed device: release ownership of the port.
    KState,
    /// Not a low-speed device: perform the EHCI reset.
    JState,
    /// Not a low-speed device: perform the EHCI reset.
    Undefined,
}

/// The line status that the two bits `value` encode.
pub open spec fn line_status_of(value: u8) -> LineStatus {
    if value == 0 {
        LineStatus::Se0
    } else if value == 1 {
        LineStatus::KState
    } else if value == 2 {
        LineStatus::JState
    } else {
        LineStatus::Undefined
    }
}

impl LineStatus {
    /// Decodes the two line status bits of PORTSC.
    pub fn from_bits(value: u8) -> (r: Self)
        requires
            value <= 3,
        ensures
            r == line_status_of(value),
    {
        if value == 0 {
            LineStatus::Se0
        } else if value == 1 {
            LineStatus::KState
        } else if value == 2 {
            LineStatus::JState
        } else {
            LineStatus::Undefined
        }
    }

    /// The two bits that encode this line status.
    pub open spec fn bits_spec(self) -> u8 {
        match self {
            LineStatus::Se0 => 0,
            LineStatus::KState => 1,
            LineStatus::JState => 2,
            LineStatus::Undefined => 3,
        }
    }

    /// The two bits that encode this line status.
    pub fn bits(self) -> (r: u8)
        ensures
            r == self.bits_spec(),
            r <= 3,
            line_status_of(r) == self,
    {
        match self {
            LineStatus::Se0 => 0,
            LineStatus::KState => 1,
            LineStatus::JState => 2,
            LineStatus::Undefined => 3,
        }
    }
}

/// Decoding the bits of a line status gives it back, and every two-bit value
/// is the encoding of what it decodes to.
pub proof fn lemma_line_status_codes(x: LineStatus, value: u8)
    ensures
        line_status_of(x.bits_spec()) == x,
        value <= 3 ==> line_status_of(value).bits_spec() == value,
{
}

} // verus!
