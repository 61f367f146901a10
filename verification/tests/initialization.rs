use ehci::operational_regs::{ConfigFlagReg, UsbCmdReg, UsbStsReg};
use ehci::os_owned_ehci::{
    anchor_queue_head, init_step, route_ports_to_controller, InitAction, InitEvent, InitStep,
    UsbCmdUpdate,
};

#[test]
fn usb_cmd_updates() {
    let cmd = UsbCmdReg::new_with_raw_value(0x0008_0001);
    assert_eq!(UsbCmdUpdate::Halt.apply(cmd).raw_value(), 0x0008_0000);
    assert_eq!(UsbCmdUpdate::Reset.apply(cmd).raw_value(), 0x0008_0003);
    assert_eq!(UsbCmdUpdate::Run.apply(UsbCmdReg::new_with_raw_value(0)).raw_value(), 0x1);
    assert_eq!(UsbCmdUpdate::EnableAsyncSchedule.apply(cmd).raw_value(), 0x0008_0021);
    assert_eq!(route_ports_to_controller(ConfigFlagReg::new_with_raw_value(0)).raw_value(), 1);
}

#[test]
fn initialization_sequence() {
    let frame_list = 0x0020_0000;
    let anchor = 0x0030_0000;
    let mut state = InitStep::Start;
    let mut step = |event: InitEvent| {
        let (next, action) = init_step(state, event, frame_list, anchor);
        state = next;
        (next, action)
    };
    assert_eq!(step(InitEvent::Done), (InitStep::WaitHalted, InitAction::UpdateUsbCmd(UsbCmdUpdate::Halt)));
    assert_eq!(step(InitEvent::Done), (InitStep::WaitHalted, InitAction::PollUsbSts));
    // Not halted yet: poll again.
    assert_eq!(
        step(InitEvent::UsbSts(UsbStsReg::new_with_raw_value(0x0000_0001))),
        (InitStep::WaitHalted, InitAction::PollUsbSts)
    );
    assert_eq!(
        step(InitEvent::UsbSts(UsbStsReg::new_with_raw_value(0x0000_1000))),
        (InitStep::WaitReset, InitAction::UpdateUsbCmd(UsbCmdUpdate::Reset))
    );
    assert_eq!(step(InitEvent::Done), (InitStep::WaitReset, InitAction::PollUsbCmd));
    // Still resetting.
    assert_eq!(
        step(InitEvent::UsbCmd(UsbCmdReg::new_with_raw_value(0x2))),
        (InitStep::WaitReset, InitAction::PollUsbCmd)
    );
    assert_eq!(
        step(InitEvent::UsbCmd(UsbCmdReg::new_with_raw_value(0x0008_0000))),
        (InitStep::SegmentSet, InitAction::WriteCtrlDsSegment(0))
    );
    assert_eq!(step(InitEvent::Done), (InitStep::InterruptsEnabled, InitAction::UpdateUsbIntr));
    match step(InitEvent::Done) {
        (InitStep::InterruptsCleared, InitAction::WriteUsbSts(clear)) => assert_eq!(clear.raw_value(), 0x9),
        other => panic!("unexpected step {other:?}"),
    }
    assert_eq!(step(InitEvent::Done), (InitStep::FrameListWritten, InitAction::WritePeriodicFrameList));
    assert_eq!(
        step(InitEvent::Done),
        (InitStep::FrameListBaseSet, InitAction::WritePeriodicListBase(frame_list))
    );
    assert_eq!(step(InitEvent::Done), (InitStep::Running, InitAction::UpdateUsbCmd(UsbCmdUpdate::Run)));
    assert_eq!(step(InitEvent::Done), (InitStep::PortsRouted, InitAction::UpdateConfigFlag));
    assert_eq!(
        step(InitEvent::Done),
        (InitStep::AnchorWritten, InitAction::WriteAnchorQueueHead(anchor_queue_head(anchor)))
    );
    match step(InitEvent::Done) {
        (InitStep::AsyncListSet, InitAction::WriteAsyncListAddr(addr)) => assert_eq!(addr.raw_value(), anchor),
        other => panic!("unexpected step {other:?}"),
    }
    assert_eq!(
        step(InitEvent::Done),
        (InitStep::Done, InitAction::UpdateUsbCmd(UsbCmdUpdate::EnableAsyncSchedule))
    );
    assert_eq!(step(InitEvent::Done), (InitStep::Done, InitAction::Finished));
}
