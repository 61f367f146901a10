//! The order of the steps that give a newly connected high-speed device its
//! address and read its device descriptor: each step says what to do next
//! from what the last one gave back; the driver performs it and waits.
use vstd::prelude::*;

use crate::bitfield::{get_bit, get_field};
use crate::initialized_ehci::{
    check_port_before_reset, check_port_enabled, descriptor_bytes_transferred,
    get_descriptor_transfer, is_get_descriptor_transfer, is_set_address_transfer,
    port_connected, set_address_transfer, ControlTransfer,
    InitDeviceError, ADDRESS_TO_SET, INIT_BUFFER_QHS_OFFSET, PAYLOAD_BUFFER_LEN,
};
use crate::operational_regs::PortScReg;
use crate::transfer_token::TransferToken;

verus! {

/// How many times the port is left to settle, 2 ms each, before it is looked at.
pub const SETTLE_DELAYS: u8 = 10;

/// How long, in milliseconds, the port reset is held.
pub const PORT_RESET_MS: u32 = 50;

/// How long, in milliseconds, the short waits last.
pub const SHORT_DELAY_MS: u32 = 2;

/// Where the initialization of a device stands.
#[derive(Debug, Clone, Copy, PartialEq, Eq, Structural)]
pub enum DeviceInitStep {
    /// The port has been left to settle this many times.
    Settling(u8),
    /// PORTSC was asked for, to check the port before its reset.
    CheckingPort,
    /// The port reset was started.
    ResetStarted,
    /// The port reset has been held long enough.
    ResetHeld,
    /// The port reset was ended.
    ResetEnded,
    /// The port has had time to be enabled.
    WaitedForEnable,
    /// PORTSC was asked for, to check that the port is enabled.
    CheckingEnabled,
    /// The SET_ADDRESS transfer was put on the schedule.
    AddressTransferStarted,
    /// Waiting for the transfer descriptor of this index to complete.
    WaitingQtd(u8),
    /// The device has its address and has had time to take it.
    AddressSet,
    /// The GET_DESCRIPTOR transfer was put on the schedule.
    DescriptorTransferStarted,
    /// The device descriptor has been read.
    DescriptorRead,
    /// Nothing more is done.
    Finished,
}

/// What the driver is asked to do next.
pub enum DeviceInitAction {
    /// Wait this many milliseconds.
    Delay(u32),
    /// Read PORTSC of the port and hand it back.
    ReadPortSc,
    /// Read PORTSC of the port and write back `port_reset_write` of it with
    /// the reset bit as given.
    WritePortReset(bool),
    /// Write the transfer to the buffer and put its queue head on the
    /// asynchronous schedule.
    StartTransfer(ControlTransfer),
    /// Wait for the transfer descriptor of this index to complete and hand
    /// back its token.
    WaitQtd(usize),
    /// The device descriptor is this many bytes at the start of the
    /// descriptor buffer.
    ReadDescriptor(u16),
    /// The device cannot be initialized.
    Fail(InitDeviceError),
    /// The buffer's physical address is so high that the address of one of
    /// its parts overflows.
    AddressOverflow,
    /// The controller reports more bytes left of the data stage than it was
    /// given.
    ByteCountOverflow,
    /// Initialization goes no further.
    Stop,
}

/// What the last action gave back.
#[derive(Debug, Clone, Copy)]
pub enum DeviceInitEvent {
    /// The last action was done.
    Done,
    /// PORTSC as read.
    PortSc(PortScReg),
    /// The token of the awaited transfer descriptor, as read.
    QtdToken(TransferToken),
}

/// The next step of device initialization after `state`, given what the last
/// action gave back (`event`), for the device initialization buffer at
/// physical address `buffer_phys`. The port settles ten times 2 ms; PORTSC is
/// read and checked before anything is written; the reset is started, held
/// 50 ms and ended; after 2 ms PORTSC is read again and the port must be
/// enabled. Only then is SET_ADDRESS put on the schedule; its two
/// descriptors (0 and 1) must complete, and 2 ms pass, before
/// GET_DESCRIPTOR is put on the schedule; its descriptors 2, 3 and 4 are
/// awaited in turn, and after descriptor 3 the bytes that arrived are read.
/// A descriptor whose token is still active is waited for again, and a step
/// that waits for a value and gets another asks for it again.
pub fn device_init_step(state: DeviceInitStep, event: DeviceInitEvent, buffer_phys: u32) -> (r: (
    DeviceInitStep,
    DeviceInitAction,
))
    ensures
        state matches DeviceInitStep::Settling(n) ==> if n < SETTLE_DELAYS {
            r.0 == DeviceInitStep::Settling((n + 1) as u8) && r.1 == DeviceInitAction::Delay(
                SHORT_DELAY_MS,
            )
        } else {
            r.0 == DeviceInitStep::CheckingPort && r.1 == DeviceInitAction::ReadPortSc
        },
        state == DeviceInitStep::CheckingPort ==> match event {
            DeviceInitEvent::PortSc(port_sc) => if !port_connected(port_sc@) {
                r.0 == DeviceInitStep::Finished && r.1 == DeviceInitAction::Fail(
                    InitDeviceError::NotConncected,
                )
            } else if get_field(port_sc@, 10, 2) == 1 {
                r.0 == DeviceInitStep::Finished && r.1 == DeviceInitAction::Fail(
                    InitDeviceError::IsLowSpeed,
                )
            } else {
                r.0 == DeviceInitStep::ResetStarted && r.1 == DeviceInitAction::WritePortReset(
                    true,
                )
            },
            _ => r.0 == DeviceInitStep::CheckingPort && r.1 == DeviceInitAction::ReadPortSc,
        },
        state == DeviceInitStep::ResetStarted ==> r.0 == DeviceInitStep::ResetHeld && r.1
            == DeviceInitAction::Delay(PORT_RESET_MS),
        state == DeviceInitStep::ResetHeld ==> r.0 == DeviceInitStep::ResetEnded && r.1
            == DeviceInitAction::WritePortReset(false),
        state == DeviceInitStep::ResetEnded ==> r.0 == DeviceInitStep::WaitedForEnable && r.1
            == DeviceInitAction::Delay(SHORT_DELAY_MS),
        state == DeviceInitStep::WaitedForEnable ==> r.0 == DeviceInitStep::CheckingEnabled && r.1
            == DeviceInitAction::ReadPortSc,
        state == DeviceInitStep::CheckingEnabled ==> match event {
            DeviceInitEvent::PortSc(port_sc) => if !get_bit(port_sc@, 2) {
                r.0 == DeviceInitStep::Finished && r.1 == DeviceInitAction::Fail(
                    InitDeviceError::IsFullSpeed,
                )
            } else if buffer_phys + INIT_BUFFER_QHS_OFFSET > u32::MAX {
                r.0 == DeviceInitStep::Finished && r.1 == DeviceInitAction::AddressOverflow
            } else {
                &&& r.0 == DeviceInitStep::AddressTransferStarted
                &&& r.1 matches DeviceInitAction::StartTransfer(t)
                &&& is_set_address_transfer(t, buffer_phys, ADDRESS_TO_SET)
            },
            _ => r.0 == DeviceInitStep::CheckingEnabled && r.1 == DeviceInitAction::ReadPortSc,
        },
        state == DeviceInitStep::AddressTransferStarted ==> r.0 == DeviceInitStep::WaitingQtd(0)
            && r.1 == DeviceInitAction::WaitQtd(0),
        state == DeviceInitStep::AddressSet ==> if buffer_phys + INIT_BUFFER_QHS_OFFSET + 96
            > u32::MAX {
            r.0 == DeviceInitStep::Finished && r.1 == DeviceInitAction::AddressOverflow
        } else {
            &&& r.0 == DeviceInitStep::DescriptorTransferStarted
            &&& r.1 matches DeviceInitAction::StartTransfer(t)
            &&& is_get_descriptor_transfer(t, buffer_phys, ADDRESS_TO_SET)
        },
        state == DeviceInitStep::DescriptorTransferStarted ==> r.0 == DeviceInitStep::WaitingQtd(2)
            && r.1 == DeviceInitAction::WaitQtd(2),
        state matches DeviceInitStep::WaitingQtd(i) ==> match event {
            DeviceInitEvent::QtdToken(token) => if get_bit(token@, 7) {
                r.0 == state && r.1 == DeviceInitAction::WaitQtd(i as usize)
            } else if i == 0 {
                r.0 == DeviceInitStep::WaitingQtd(1) && r.1 == DeviceInitAction::WaitQtd(1)
            } else if i == 1 {
                r.0 == DeviceInitStep::AddressSet && r.1 == DeviceInitAction::Delay(
                    SHORT_DELAY_MS,
                )
            } else if i == 2 {
                r.0 == DeviceInitStep::WaitingQtd(3) && r.1 == DeviceInitAction::WaitQtd(3)
            } else if i == 3 {
                if get_field(token@, 16, 15) > PAYLOAD_BUFFER_LEN {
                    r.0 == DeviceInitStep::Finished && r.1 == DeviceInitAction::ByteCountOverflow
                } else {
                    r.0 == DeviceInitStep::DescriptorRead && r.1
                        == DeviceInitAction::ReadDescriptor(
                        (PAYLOAD_BUFFER_LEN - get_field(token@, 16, 15)) as u16,
                    )
                }
            } else {
                r.0 == DeviceInitStep::Finished && r.1 == DeviceInitAction::Stop
            },
            _ => r.0 == state && r.1 == DeviceInitAction::WaitQtd(i as usize),
        },
        state == DeviceInitStep::DescriptorRead ==> r.0 == DeviceInitStep::WaitingQtd(4) && r.1
            == DeviceInitAction::WaitQtd(4),
        state == DeviceInitStep::Finished ==> r.0 == DeviceInitStep::Finished && r.1
            == DeviceInitAction::Stop,
{
    match state {
        DeviceInitStep::Settling(n) => {
            if n < SETTLE_DELAYS {
                (DeviceInitStep::Settling(n + 1), DeviceInitAction::Delay(SHORT_DELAY_MS))
            } else {
                (DeviceInitStep::CheckingPort, DeviceInitAction::ReadPortSc)
            }
        },
        DeviceInitStep::CheckingPort => match event {
            DeviceInitEvent::PortSc(port_sc) => match check_port_before_reset(port_sc) {
                Err(e) => (DeviceInitStep::Finished, DeviceInitAction::Fail(e)),
                Ok(()) => (DeviceInitStep::ResetStarted, DeviceInitAction::WritePortReset(true)),
            },
            _ => (DeviceInitStep::CheckingPort, DeviceInitAction::ReadPortSc),
        },
        DeviceInitStep::ResetStarted => (
            DeviceInitStep::ResetHeld,
            DeviceInitAction::Delay(PORT_RESET_MS),
        ),
        DeviceInitStep::ResetHeld => (
            DeviceInitStep::ResetEnded,
            DeviceInitAction::WritePortReset(false),
        ),
        DeviceInitStep::ResetEnded => (
            DeviceInitStep::WaitedForEnable,
            DeviceInitAction::Delay(SHORT_DELAY_MS),
        ),
        DeviceInitStep::WaitedForEnable => (
            DeviceInitStep::CheckingEnabled,
            DeviceInitAction::ReadPortSc,
        ),
        DeviceInitStep::CheckingEnabled => match event {
            DeviceInitEvent::PortSc(port_sc) => match check_port_enabled(port_sc) {
                Err(e) => (DeviceInitStep::Finished, DeviceInitAction::Fail(e)),
                Ok(()) => {
                    if buffer_phys > u32::MAX - INIT_BUFFER_QHS_OFFSET {
                        (DeviceInitStep::Finished, DeviceInitAction::AddressOverflow)
                    } else {
                        (
                            DeviceInitStep::AddressTransferStarted,
                            DeviceInitAction::StartTransfer(
                                set_address_transfer(buffer_phys, ADDRESS_TO_SET),
                            ),
                        )
                    }
                },
            },
            _ => (DeviceInitStep::CheckingEnabled, DeviceInitAction::ReadPortSc),
        },
        DeviceInitStep::AddressTransferStarted => (
            DeviceInitStep::WaitingQtd(0),
            DeviceInitAction::WaitQtd(0),
        ),
        DeviceInitStep::AddressSet => {
            if buffer_phys > u32::MAX - INIT_BUFFER_QHS_OFFSET - 96 {
                (DeviceInitStep::Finished, DeviceInitAction::AddressOverflow)
            } else {
                (
                    DeviceInitStep::DescriptorTransferStarted,
                    DeviceInitAction::StartTransfer(
                        get_descriptor_transfer(buffer_phys, ADDRESS_TO_SET),
                    ),
                )
            }
        },
        DeviceInitStep::DescriptorTransferStarted => (
            DeviceInitStep::WaitingQtd(2),
            DeviceInitAction::WaitQtd(2),
        ),
        DeviceInitStep::WaitingQtd(i) => match event {
            DeviceInitEvent::QtdToken(token) => {
                if token.active() {
                    (DeviceInitStep::WaitingQtd(i), DeviceInitAction::WaitQtd(i as usize))
                } else if i == 0 {
                    (DeviceInitStep::WaitingQtd(1), DeviceInitAction::WaitQtd(1))
                } else if i == 1 {
                    (DeviceInitStep::AddressSet, DeviceInitAction::Delay(SHORT_DELAY_MS))
                } else if i == 2 {
                    (DeviceInitStep::WaitingQtd(3), DeviceInitAction::WaitQtd(3))
                } else if i == 3 {
                    if token.total_bytes_to_transfer() > PAYLOAD_BUFFER_LEN {
                        (DeviceInitStep::Finished, DeviceInitAction::ByteCountOverflow)
                    } else {
                        (
                            DeviceInitStep::DescriptorRead,
                            DeviceInitAction::ReadDescriptor(descriptor_bytes_transferred(token)),
                        )
                    }
                } else {
                    (DeviceInitStep::Finished, DeviceInitAction::Stop)
                }
            },
            _ => (DeviceInitStep::WaitingQtd(i), DeviceInitAction::WaitQtd(i as usize)),
        },
        DeviceInitStep::DescriptorRead => (
            DeviceInitStep::WaitingQtd(4),
            DeviceInitAction::WaitQtd(4),
        ),
        DeviceInitStep::Finished => (DeviceInitStep::Finished, DeviceInitAction::Stop),
    }
}

} // verus!
