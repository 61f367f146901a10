use ehci::device_init::{device_init_step, DeviceInitAction, DeviceInitEvent, DeviceInitStep};
use ehci::initialized_ehci::InitDeviceError;
use ehci::operational_regs::PortScReg;
use ehci::transfer_token::TransferToken;

const BUFFER: u32 = 0x0010_0000;

/// PORTSC of a port with a device connected and its lines in the SE0 state.
const CONNECTED: u32 = 0x0000_1001;
/// PORTSC of a port with a high-speed device connected and enabled.
const ENABLED: u32 = 0x0000_1005;

fn port_sc(raw: u32) -> DeviceInitEvent {
    DeviceInitEvent::PortSc(PortScReg::new_with_raw_value(raw))
}

fn done_qtd(raw: u32) -> DeviceInitEvent {
    DeviceInitEvent::QtdToken(TransferToken::new_with_raw_value(raw))
}

/// Runs the steps from `Settling(0)` up to the first check of the port.
fn settle() -> DeviceInitStep {
    let mut state = DeviceInitStep::Settling(0);
    for n in 1..=10u8 {
        let (next, action) = device_init_step(state, DeviceInitEvent::Done, BUFFER);
        assert_eq!(next, DeviceInitStep::Settling(n));
        assert!(matches!(action, DeviceInitAction::Delay(2)));
        state = next;
    }
    let (next, action) = device_init_step(state, DeviceInitEvent::Done, BUFFER);
    assert_eq!(next, DeviceInitStep::CheckingPort);
    assert!(matches!(action, DeviceInitAction::ReadPortSc));
    next
}

#[test]
fn device_initialization_sequence() {
    let state = settle();
    // PORTSC is asked for again until it comes.
    let (state, action) = device_init_step(state, DeviceInitEvent::Done, BUFFER);
    assert_eq!(state, DeviceInitStep::CheckingPort);
    assert!(matches!(action, DeviceInitAction::ReadPortSc));
    let (state, action) = device_init_step(state, port_sc(CONNECTED), BUFFER);
    assert_eq!(state, DeviceInitStep::ResetStarted);
    assert!(matches!(action, DeviceInitAction::WritePortReset(true)));
    let (state, action) = device_init_step(state, DeviceInitEvent::Done, BUFFER);
    assert_eq!(state, DeviceInitStep::ResetHeld);
    assert!(matches!(action, DeviceInitAction::Delay(50)));
    let (state, action) = device_init_step(state, DeviceInitEvent::Done, BUFFER);
    assert_eq!(state, DeviceInitStep::ResetEnded);
    assert!(matches!(action, DeviceInitAction::WritePortReset(false)));
    let (state, action) = device_init_step(state, DeviceInitEvent::Done, BUFFER);
    assert_eq!(state, DeviceInitStep::WaitedForEnable);
    assert!(matches!(action, DeviceInitAction::Delay(2)));
    let (state, action) = device_init_step(state, DeviceInitEvent::Done, BUFFER);
    assert_eq!(state, DeviceInitStep::CheckingEnabled);
    assert!(matches!(action, DeviceInitAction::ReadPortSc));
    let (state, action) = device_init_step(state, port_sc(ENABLED), BUFFER);
    assert_eq!(state, DeviceInitStep::AddressTransferStarted);
    match action {
        DeviceInitAction::StartTransfer(t) => {
            assert_eq!(t.first_qtd_index, 0);
            assert_eq!(t.qtds.len(), 2);
            assert_eq!(t.queue_head_phys_addr, BUFFER + 320);
            assert_eq!(t.setup_packet.to_bytes(), [0x00, 5, 0x67, 0, 0, 0, 0, 0]);
        }
        _ => panic!("expected the SET_ADDRESS transfer"),
    }
    let (state, action) = device_init_step(state, DeviceInitEvent::Done, BUFFER);
    assert_eq!(state, DeviceInitStep::WaitingQtd(0));
    assert!(matches!(action, DeviceInitAction::WaitQtd(0)));
    // The descriptor is waited for again until its token comes.
    let (state, action) = device_init_step(state, DeviceInitEvent::Done, BUFFER);
    assert_eq!(state, DeviceInitStep::WaitingQtd(0));
    assert!(matches!(action, DeviceInitAction::WaitQtd(0)));
    // A descriptor that is still active is waited for again.
    let (state, action) = device_init_step(state, done_qtd(0x80), BUFFER);
    assert_eq!(state, DeviceInitStep::WaitingQtd(0));
    assert!(matches!(action, DeviceInitAction::WaitQtd(0)));
    let (state, action) = device_init_step(state, done_qtd(0), BUFFER);
    assert_eq!(state, DeviceInitStep::WaitingQtd(1));
    assert!(matches!(action, DeviceInitAction::WaitQtd(1)));
    let (state, action) = device_init_step(state, done_qtd(0), BUFFER);
    assert_eq!(state, DeviceInitStep::AddressSet);
    assert!(matches!(action, DeviceInitAction::Delay(2)));
    let (state, action) = device_init_step(state, DeviceInitEvent::Done, BUFFER);
    assert_eq!(state, DeviceInitStep::DescriptorTransferStarted);
    match action {
        DeviceInitAction::StartTransfer(t) => {
            assert_eq!(t.first_qtd_index, 2);
            assert_eq!(t.qtds.len(), 3);
            assert_eq!(t.queue_head_phys_addr, BUFFER + 416);
            assert_eq!(t.queue_head.endpoint_charactersistics.device_addr(), 0x67);
            assert_eq!(t.setup_packet.to_bytes(), [0x80, 6, 0, 1, 0, 0, 64, 0]);
        }
        _ => panic!("expected the GET_DESCRIPTOR transfer"),
    }
    let (state, action) = device_init_step(state, DeviceInitEvent::Done, BUFFER);
    assert_eq!(state, DeviceInitStep::WaitingQtd(2));
    assert!(matches!(action, DeviceInitAction::WaitQtd(2)));
    let (state, action) = device_init_step(state, done_qtd(0), BUFFER);
    assert_eq!(state, DeviceInitStep::WaitingQtd(3));
    assert!(matches!(action, DeviceInitAction::WaitQtd(3)));
    // 46 of the 64 bytes were left over: the descriptor is 18 bytes.
    let (state, action) = device_init_step(state, done_qtd(46 << 16), BUFFER);
    assert_eq!(state, DeviceInitStep::DescriptorRead);
    assert!(matches!(action, DeviceInitAction::ReadDescriptor(18)));
    let (state, action) = device_init_step(state, DeviceInitEvent::Done, BUFFER);
    assert_eq!(state, DeviceInitStep::WaitingQtd(4));
    assert!(matches!(action, DeviceInitAction::WaitQtd(4)));
    let (state, action) = device_init_step(state, done_qtd(0), BUFFER);
    assert_eq!(state, DeviceInitStep::Finished);
    assert!(matches!(action, DeviceInitAction::Stop));
}

#[test]
fn disconnected_port_fails_before_any_write() {
    let (state, action) = device_init_step(settle(), port_sc(0), BUFFER);
    assert_eq!(state, DeviceInitStep::Finished);
    assert!(matches!(action, DeviceInitAction::Fail(InitDeviceError::NotConncected)));
}

#[test]
fn low_speed_device_fails_before_any_write() {
    // Connected, lines in the K state.
    let (state, action) = device_init_step(settle(), port_sc(0x0000_0401), BUFFER);
    assert_eq!(state, DeviceInitStep::Finished);
    assert!(matches!(action, DeviceInitAction::Fail(InitDeviceError::IsLowSpeed)));
}

#[test]
fn port_left_disabled_after_reset_is_full_speed() {
    let (state, action) = device_init_step(DeviceInitStep::CheckingEnabled, port_sc(CONNECTED), BUFFER);
    assert_eq!(state, DeviceInitStep::Finished);
    assert!(matches!(action, DeviceInitAction::Fail(InitDeviceError::IsFullSpeed)));
}

#[test]
fn buffer_addresses_that_overflow() {
    let (state, action) = device_init_step(DeviceInitStep::CheckingEnabled, port_sc(ENABLED), u32::MAX - 319);
    assert_eq!(state, DeviceInitStep::Finished);
    assert!(matches!(action, DeviceInitAction::AddressOverflow));
    let (state, action) =
        device_init_step(DeviceInitStep::CheckingEnabled, port_sc(ENABLED), u32::MAX - 320);
    assert_eq!(state, DeviceInitStep::AddressTransferStarted);
    assert!(matches!(action, DeviceInitAction::StartTransfer(_)));
    let (state, action) = device_init_step(DeviceInitStep::AddressSet, DeviceInitEvent::Done, u32::MAX - 415);
    assert_eq!(state, DeviceInitStep::Finished);
    assert!(matches!(action, DeviceInitAction::AddressOverflow));
    let (state, action) = device_init_step(DeviceInitStep::AddressSet, DeviceInitEvent::Done, u32::MAX - 416);
    assert_eq!(state, DeviceInitStep::DescriptorTransferStarted);
    assert!(matches!(action, DeviceInitAction::StartTransfer(_)));
}

#[test]
fn more_bytes_left_than_asked_for() {
    let (state, action) = device_init_step(DeviceInitStep::WaitingQtd(3), done_qtd(65 << 16), BUFFER);
    assert_eq!(state, DeviceInitStep::Finished);
    assert!(matches!(action, DeviceInitAction::ByteCountOverflow));
    let (state, action) = device_init_step(DeviceInitStep::WaitingQtd(3), done_qtd(64 << 16), BUFFER);
    assert_eq!(state, DeviceInitStep::DescriptorRead);
    assert!(matches!(action, DeviceInitAction::ReadDescriptor(0)));
}
