//! Verified core of a driver for USB 2.0 EHCI host controllers.
pub mod bitfield;
pub mod buffer_ptrs;
pub mod capability_regs;
pub mod device_init;
pub mod endpoint_speed;
pub mod extended_capabilities;
pub mod initialized_ehci;
pub mod new_ehci;
pub mod operational_regs;
pub mod os_owned_ehci;
pub mod pci;
pub mod periodic_list;
pub mod qtd;
pub mod queue_head;
pub mod root_port_number;
pub mod setup_packet;
pub mod transfer_token;
pub mod usb_leg_sup;
