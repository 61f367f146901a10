//! Initialization of a controller that the operating system owns.
use vstd::prelude::*;

use crate::bitfield::{get_bit, get_field, set_bit, set_field};
use crate::operational_regs::{
    AsyncListAddrReg, ConfigFlagReg, UsbCmdReg, UsbIntrReg, UsbStsReg,
};
use crate::queue_head::{
    horizontal_link, EndpointCapabilities, EndpointCharacteristics, QueueHead,
    QueueHeadHorizontalLinkPtr, SelectType,
};

verus! {

/// USBINTR as initialization leaves it: `intr` with interrupts enabled on
/// transfer completion, transfer error, port change and host system error.
pub fn interrupts_to_enable(intr: UsbIntrReg) -> (r: UsbIntrReg)
    ensures
        r@ == set_bit(set_bit(set_bit(set_bit(intr@, 0, true), 1, true), 2, true), 4, true),
        get_bit(r@, 0),
        get_bit(r@, 1),
        get_bit(r@, 2),
        get_bit(r@, 4),
        get_bit(r@, 3) == get_bit(intr@, 3),
        get_field(r@, 5, 27) == get_field(intr@, 5, 27),
{
    let a = intr.with_usb_interrupt_enable(true);
    let b = a.with_usb_error_interrupt_enable(true);
    let c = b.with_port_change_interrupt_enable(true);
    let d = c.with_host_system_error_interrupt_enable(true);
    assert(get_field(d@, 0, 1) == get_field(c@, 0, 1));
    assert(get_field(c@, 0, 1) == get_field(b@, 0, 1));
    assert(get_field(b@, 0, 1) == get_field(a@, 0, 1));
    assert(get_field(d@, 1, 1) == get_field(c@, 1, 1));
    assert(get_field(c@, 1, 1) == get_field(b@, 1, 1));
    assert(get_field(d@, 2, 1) == get_field(c@, 2, 1));
    assert(get_field(d@, 3, 1) == get_field(c@, 3, 1));
    assert(get_field(c@, 3, 1) == get_field(b@, 3, 1));
    assert(get_field(b@, 3, 1) == get_field(a@, 3, 1));
    assert(get_field(a@, 3, 1) == get_field(intr@, 3, 1));
    assert(get_field(d@, 5, 27) == get_field(c@, 5, 27));
    assert(get_field(c@, 5, 27) == get_field(b@, 5, 27));
    assert(get_field(b@, 5, 27) == get_field(a@, 5, 27));
    assert(get_field(a@, 5, 27) == get_field(intr@, 5, 27));
    d
}

/// The USBSTS value that acknowledges the interrupts pending when the
/// controller is initialized: transfer completion and frame list rollover.
pub fn pending_interrupts_to_clear() -> (r: UsbStsReg)
    ensures
        r@ == set_bit(set_bit(0, 0, true), 3, true),
        get_bit(r@, 0),
        get_bit(r@, 3),
        get_field(r@, 1, 2) == 0,
        get_field(r@, 4, 28) == 0,
{
    proof {
        crate::bitfield::lemma_zero_fields();
    }
    let a = UsbStsReg::new_with_raw_value(0).with_usb_int(true);
    let b = a.with_frame_list_rollover(true);
    assert(get_field(b@, 0, 1) == get_field(a@, 0, 1));
    assert(get_field(b@, 1, 2) == get_field(a@, 1, 2));
    assert(get_field(b@, 4, 28) == get_field(a@, 4, 28));
    b
}

/// The anchor of the asynchronous schedule, a queue head at `phys_addr`: the
/// head of the reclamation list, with no endpoint and no transfers, linked to
/// itself.
pub fn anchor_queue_head(phys_addr: u32) -> (r: QueueHead)
    ensures
        r.queue_head_horizontal_link_ptr@ == horizontal_link(SelectType::Qh, phys_addr),
        r.queue_head_horizontal_link_ptr.target() == phys_addr / 32 * 32,
        r.endpoint_charactersistics@ == set_bit(0, 15, true),
        r.endpoint_capabilities@ == 0,
        r.has_empty_queue(),
{
    let mut qh = QueueHead::new(
        EndpointCharacteristics::zero().with_head_of_reclamation_list_flag(true),
        EndpointCapabilities::zero(),
    );
    qh.queue_head_horizontal_link_ptr = QueueHeadHorizontalLinkPtr::new(SelectType::Qh, phys_addr);
    qh
}

/// A change that initialization makes to USBCMD.
#[derive(Debug, Clone, Copy, PartialEq, Eq, Structural)]
pub enum UsbCmdUpdate {
    /// Stop the controller (clear run/stop).
    Halt,
    /// Reset the controller.
    Reset,
    /// Start the controller (set run/stop).
    Run,
    /// Enable the asynchronous schedule.
    EnableAsyncSchedule,
}

impl UsbCmdUpdate {
    /// USBCMD after this change, when it read `cmd` before.
    pub open spec fn apply_spec(self, cmd: u32) -> u32 {
        match self {
            UsbCmdUpdate::Halt => set_bit(cmd, 0, false),
            UsbCmdUpdate::Reset => set_bit(cmd, 1, true),
            UsbCmdUpdate::Run => set_bit(cmd, 0, true),
            UsbCmdUpdate::EnableAsyncSchedule => set_bit(cmd, 5, true),
        }
    }

    /// USBCMD after this change, when it read `cmd` before: each change sets
    /// or clears its one bit and keeps every other bit of the register.
    pub fn apply(self, cmd: UsbCmdReg) -> (r: UsbCmdReg)
        ensures
            r@ == self.apply_spec(cmd@),
            self == UsbCmdUpdate::Halt ==> r@ == cmd@ & !1u32,
            self == UsbCmdUpdate::Reset ==> r@ == cmd@ | 2,
            self == UsbCmdUpdate::Run ==> r@ == cmd@ | 1,
            self == UsbCmdUpdate::EnableAsyncSchedule ==> r@ == cmd@ | 0x20,
    {
        proof {
            lemma_usb_cmd_updates_keep_other_bits(cmd@);
        }
        match self {
            UsbCmdUpdate::Halt => cmd.with_rs(false),
            UsbCmdUpdate::Reset => cmd.with_hc_reset(true),
            UsbCmdUpdate::Run => cmd.with_rs(true),
            UsbCmdUpdate::EnableAsyncSchedule => cmd.with_async_schedule_enable(true),
        }
    }
}

/// Each change of USBCMD touches only its own bit: halting clears run/stop
/// (bit 0), resetting sets host controller reset (bit 1), running sets
/// run/stop, and enabling the asynchronous schedule sets bit 5; every other
/// bit of the register read is kept.
pub proof fn lemma_usb_cmd_updates_keep_other_bits(cmd: u32)
    ensures
        UsbCmdUpdate::Halt.apply_spec(cmd) == cmd & !1u32,
        UsbCmdUpdate::Reset.apply_spec(cmd) == cmd | 2,
        UsbCmdUpdate::Run.apply_spec(cmd) == cmd | 1,
        UsbCmdUpdate::EnableAsyncSchedule.apply_spec(cmd) == cmd | 0x20,
{
    assert(set_bit(cmd, 0, false) == cmd & !1u32) by (bit_vector);
    assert(set_bit(cmd, 1, true) == cmd | 2) by (bit_vector);
    assert(set_bit(cmd, 0, true) == cmd | 1) by (bit_vector);
    assert(set_bit(cmd, 5, true) == cmd | 0x20) by (bit_vector);
}

/// CONFIGFLAG as initialization leaves it: ports are routed to this controller.
pub fn route_ports_to_controller(config_flag: ConfigFlagReg) -> (r: ConfigFlagReg)
    ensures
        r@ == set_bit(config_flag@, 0, true),
{
    config_flag.with_configure_flag(true)
}

/// Where the initialization of a controller stands.
#[derive(Debug, Clone, Copy, PartialEq, Eq, Structural)]
pub enum InitStep {
    /// Nothing done yet.
    Start,
    /// The controller was told to stop; waiting for it to halt.
    WaitHalted,
    /// The controller was told to reset; waiting for the reset to finish.
    WaitReset,
    /// CTRLDSSEGMENT was written.
    SegmentSet,
    /// USBINTR was written.
    InterruptsEnabled,
    /// The pending interrupts were acknowledged.
    InterruptsCleared,
    /// The periodic frame list was written.
    FrameListWritten,
    /// PERIODICLISTBASE was written.
    FrameListBaseSet,
    /// The controller was told to run.
    Running,
    /// CONFIGFLAG was written.
    PortsRouted,
    /// The anchor queue head was written.
    AnchorWritten,
    /// ASYNCLISTADDR was written.
    AsyncListSet,
    /// The asynchronous schedule was enabled: initialization is complete.
    Done,
}

/// The register or memory access that initialization asks for next.
#[derive(Debug, Clone, Copy, PartialEq, Eq, Structural)]
pub enum InitAction {
    /// Read USBCMD, change it as said, write it back.
    UpdateUsbCmd(UsbCmdUpdate),
    /// Read USBSTS and hand it back.
    PollUsbSts,
    /// Read USBCMD and hand it back.
    PollUsbCmd,
    /// Write CTRLDSSEGMENT.
    WriteCtrlDsSegment(u32),
    /// Read USBINTR, change it with `interrupts_to_enable`, write it back.
    UpdateUsbIntr,
    /// Write USBSTS.
    WriteUsbSts(UsbStsReg),
    /// Write `PeriodicFrameList::all_unused()` to the periodic frame list.
    WritePeriodicFrameList,
    /// Write PERIODICLISTBASE.
    WritePeriodicListBase(u32),
    /// Read CONFIGFLAG, change it with `route_ports_to_controller`, write it back.
    UpdateConfigFlag,
    /// Write the anchor queue head to its memory.
    WriteAnchorQueueHead(QueueHead),
    /// Write ASYNCLISTADDR.
    WriteAsyncListAddr(AsyncListAddrReg),
    /// Nothing more to do.
    Finished,
}

/// What the last action gave back.
#[derive(Debug, Clone, Copy, PartialEq, Eq, Structural)]
pub enum InitEvent {
    /// The last action was done (or none was asked for yet).
    Done,
    /// USBSTS as read.
    UsbSts(UsbStsReg),
    /// USBCMD as read.
    UsbCmd(UsbCmdReg),
}

/// One step of initialization: from where it stands and what the last action
/// gave back, where it stands next and what to do. The controller is halted,
/// then reset; once the reset is done, the data structure segment is set to 0
/// (memory below 4 GiB), interrupts are enabled and the pending ones
/// acknowledged, the periodic frame list (at `frame_list_phys`) is emptied and
/// installed, the controller is started, the ports are routed to it, and the
/// anchor queue head (at `anchor_phys`) is written and made the head of the
/// asynchronous schedule, which is then enabled.
pub fn init_step(
    state: InitStep,
    event: InitEvent,
    frame_list_phys: u32,
    anchor_phys: u32,
) -> (r: (InitStep, InitAction))
    ensures
        state == InitStep::Start ==> r == (
            InitStep::WaitHalted,
            InitAction::UpdateUsbCmd(UsbCmdUpdate::Halt),
        ),
        state == InitStep::WaitHalted ==> match event {
            InitEvent::UsbSts(sts) => if get_bit(sts@, 12) {
                r == (InitStep::WaitReset, InitAction::UpdateUsbCmd(UsbCmdUpdate::Reset))
            } else {
                r == (InitStep::WaitHalted, InitAction::PollUsbSts)
            },
            _ => r == (InitStep::WaitHalted, InitAction::PollUsbSts),
        },
        state == InitStep::WaitReset ==> match event {
            InitEvent::UsbCmd(cmd) => if get_bit(cmd@, 1) {
                r == (InitStep::WaitReset, InitAction::PollUsbCmd)
            } else {
                r == (InitStep::SegmentSet, InitAction::WriteCtrlDsSegment(0))
            },
            _ => r == (InitStep::WaitReset, InitAction::PollUsbCmd),
        },
        state == InitStep::SegmentSet ==> r == (
            InitStep::InterruptsEnabled,
            InitAction::UpdateUsbIntr,
        ),
        state == InitStep::InterruptsEnabled ==> {
            &&& r.0 == InitStep::InterruptsCleared
            &&& r.1 matches InitAction::WriteUsbSts(sts)
            &&& sts@ == set_bit(set_bit(0, 0, true), 3, true)
        },
        state == InitStep::InterruptsCleared ==> r == (
            InitStep::FrameListWritten,
            InitAction::WritePeriodicFrameList,
        ),
        state == InitStep::FrameListWritten ==> r == (
            InitStep::FrameListBaseSet,
            InitAction::WritePeriodicListBase(frame_list_phys),
        ),
        state == InitStep::FrameListBaseSet ==> r == (
            InitStep::Running,
            InitAction::UpdateUsbCmd(UsbCmdUpdate::Run),
        ),
        state == InitStep::Running ==> r == (InitStep::PortsRouted, InitAction::UpdateConfigFlag),
        state == InitStep::PortsRouted ==> {
            &&& r.0 == InitStep::AnchorWritten
            &&& r.1 matches InitAction::WriteAnchorQueueHead(qh)
            &&& qh.queue_head_horizontal_link_ptr@ == horizontal_link(SelectType::Qh, anchor_phys)
            &&& qh.endpoint_charactersistics@ == set_bit(0, 15, true)
            &&& qh.endpoint_capabilities@ == 0
            &&& qh.has_empty_queue()
        },
        state == InitStep::AnchorWritten ==> {
            &&& r.0 == InitStep::AsyncListSet
            &&& r.1 matches InitAction::WriteAsyncListAddr(addr)
            &&& addr@ == set_field(0, 5, 27, anchor_phys >> 5)
        },
        state == InitStep::AsyncListSet ==> r == (
            InitStep::Done,
            InitAction::UpdateUsbCmd(UsbCmdUpdate::EnableAsyncSchedule),
        ),
        state == InitStep::Done ==> r == (InitStep::Done, InitAction::Finished),
{
    match state {
        InitStep::Start => (InitStep::WaitHalted, InitAction::UpdateUsbCmd(UsbCmdUpdate::Halt)),
        InitStep::WaitHalted => match event {
            InitEvent::UsbSts(sts) => if sts.hc_halted() {
                (InitStep::WaitReset, InitAction::UpdateUsbCmd(UsbCmdUpdate::Reset))
            } else {
                (InitStep::WaitHalted, InitAction::PollUsbSts)
            },
            _ => (InitStep::WaitHalted, InitAction::PollUsbSts),
        },
        InitStep::WaitReset => match event {
            InitEvent::UsbCmd(cmd) => if cmd.hc_reset() {
                (InitStep::WaitReset, InitAction::PollUsbCmd)
            } else {
                (InitStep::SegmentSet, InitAction::WriteCtrlDsSegment(0))
            },
            _ => (InitStep::WaitReset, InitAction::PollUsbCmd),
        },
        InitStep::SegmentSet => (InitStep::InterruptsEnabled, InitAction::UpdateUsbIntr),
        InitStep::InterruptsEnabled => (
            InitStep::InterruptsCleared,
            InitAction::WriteUsbSts(pending_interrupts_to_clear()),
        ),
        InitStep::InterruptsCleared => (
            InitStep::FrameListWritten,
            InitAction::WritePeriodicFrameList,
        ),
        InitStep::FrameListWritten => (
            InitStep::FrameListBaseSet,
            InitAction::WritePeriodicListBase(frame_list_phys),
        ),
        InitStep::FrameListBaseSet => (
            InitStep::Running,
            InitAction::UpdateUsbCmd(UsbCmdUpdate::Run),
        ),
        InitStep::Running => (InitStep::PortsRouted, InitAction::UpdateConfigFlag),
        InitStep::PortsRouted => (
            InitStep::AnchorWritten,
            InitAction::WriteAnchorQueueHead(anchor_queue_head(anchor_phys)),
        ),
        InitStep::AnchorWritten => (
            InitStep::AsyncListSet,
            InitAction::WriteAsyncListAddr(AsyncListAddrReg::new(anchor_phys)),
        ),
        InitStep::AsyncListSet => (
            InitStep::Done,
            InitAction::UpdateUsbCmd(UsbCmdUpdate::EnableAsyncSchedule),
        ),
        InitStep::Done => (InitStep::Done, InitAction::Finished),
    }
}

} // verus!
