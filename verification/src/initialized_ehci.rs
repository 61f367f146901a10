//! Decisions of a running controller: finding connected devices, answering
//! interrupts, and the transfers that give a new device its address and read
//! its device descriptor.
use vstd::prelude::*;

use crate::bitfield::{disjoint_fields, get_bit, get_field, is_field, set_bit, set_field};
use crate::buffer_ptrs::BufferPtrs;
use crate::endpoint_speed::EndpointSpeed;
use crate::operational_regs::{LineStatus, PortScReg, UsbStsReg};
use crate::qtd::{invalid_qtd_link, valid_qtd_link, Qtd};
use crate::queue_head::{
    horizontal_link, EndpointCapabilities, EndpointCharacteristics, QueueHead,
    QueueHeadHorizontalLinkPtr, SelectType, QTD_SIZE, QUEUE_HEAD_SIZE,
};
use crate::root_port_number::RootPortNumber;
use crate::setup_packet::SetupPacket;
use crate::transfer_token::{active_token, PidCode, TransferToken};

verus! {

/// The size of the buffer that receives the device descriptor, and the
/// maximum packet length used before the device's own is known.
pub const PAYLOAD_BUFFER_LEN: u16 = 64;

/// The address given to a newly initialized device.
pub const ADDRESS_TO_SET: u8 = 0x67;

/// Offset of the five transfer descriptors in the device initialization buffer.
pub const INIT_BUFFER_QTDS_OFFSET: u32 = 0;

/// Offset of the two queue heads in the device initialization buffer.
pub const INIT_BUFFER_QHS_OFFSET: u32 = 320;

/// Offset of the SET_ADDRESS setup packet in the device initialization buffer.
pub const INIT_BUFFER_SET_ADDRESS_SETUP_PACKET_OFFSET: u32 = 512;

/// Offset of the GET_DESCRIPTOR setup packet in the device initialization buffer.
pub const INIT_BUFFER_GET_DESCRIPTOR_SETUP_PACKET_OFFSET: u32 = 520;

/// Offset of the descriptor buffer in the device initialization buffer.
pub const INIT_BUFFER_DESCRIPTOR_BUFFER_OFFSET: u32 = 528;

/// Why a device could not be initialized.
#[derive(Debug, Clone, Copy, PartialEq, Eq, Structural)]
pub enum InitDeviceError {
    NotConncected,
    /// To use this device you need to route it to a uHCI or oHCI.
    IsLowSpeed,
    /// To use this device you need to route it to a uHCI or oHCI.
    IsFullSpeed,
    HostSystemError,
}

/// A device was found connected to a root port.
#[derive(Debug, Clone, Copy)]
pub struct NewDeviceEvent {
    pub port: RootPortNumber,
}

/// A device is connected to the port whose PORTSC is `port_sc`.
pub open spec fn port_connected(port_sc: u32) -> bool {
    get_bit(port_sc, 0)
}

/// The first port, in port order, to which a device is connected; `port_scs`
/// holds the PORTSC register of each root port.
pub fn first_connected_port(port_scs: &Vec<PortScReg>) -> (r: Option<RootPortNumber>)
    requires
        port_scs.len() <= 16,
    ensures
        r matches Some(p) ==> {
            &&& p@ < port_scs.len()
            &&& port_connected(port_scs[p@ as int]@)
            &&& forall|j: int| 0 <= j < p@ ==> !port_connected(#[trigger] port_scs[j]@)
        },
        r is None ==> forall|j: int|
            0 <= j < port_scs.len() ==> !port_connected(#[trigger] port_scs[j]@),
{
    let mut port: usize = 0;
    while port < port_scs.len()
        invariant
            port <= port_scs.len() <= 16,
            forall|j: int| 0 <= j < port ==> !port_connected(#[trigger] port_scs[j]@),
        decreases port_scs.len() - port,
    {
        if port_scs[port].current_connect_status() {
            let p = RootPortNumber::try_from_bits(port as u8);
            return match p {
                Ok(p) => Some(p),
                Err(_) => None,
            };
        }
        port = port + 1;
    }
    None
}

/// Checks the port before its reset: a device must be connected, and a
/// low-speed device (its lines in the K state) is left to a companion controller.
pub fn check_port_before_reset(port_sc: PortScReg) -> (r: Result<(), InitDeviceError>)
    ensures
        !port_connected(port_sc@) ==> r == Err::<(), _>(InitDeviceError::NotConncected),
        port_connected(port_sc@) && get_field(port_sc@, 10, 2) == 1 ==> r == Err::<(), _>(
            InitDeviceError::IsLowSpeed,
        ),
        port_connected(port_sc@) && get_field(port_sc@, 10, 2) != 1 ==> r is Ok,
{
    if !port_sc.current_connect_status() {
        return Err(InitDeviceError::NotConncected);
    }
    if LineStatus::from_bits(port_sc.line_status()) == LineStatus::KState {
        // The port is low speed.
        return Err(InitDeviceError::IsLowSpeed);
    }
    Ok(())
}

/// The PORTSC value that starts (`reset` set) or ends the reset of a port
/// whose PORTSC reads `port_sc`, without acknowledging any change.
pub fn port_reset_write(port_sc: PortScReg, reset: bool) -> (r: PortScReg)
    ensures
        r@ == set_bit(set_bit(set_bit(set_bit(port_sc@, 8, reset), 1, false), 3, false), 5, false),
        get_bit(r@, 8) == reset,
        !get_bit(r@, 1),
        !get_bit(r@, 3),
        !get_bit(r@, 5),
{
    let a = port_sc.with_port_reset(reset);
    let r = a.without_write_to_clear_bits();
    assert(get_field(r@, 8, 1) == get_field(a@, 8, 1));
    r
}

/// Checks the port after its reset: the controller leaves the port disabled
/// when the device is not high speed.
pub fn check_port_enabled(port_sc: PortScReg) -> (r: Result<(), InitDeviceError>)
    ensures
        get_bit(port_sc@, 2) ==> r is Ok,
        !get_bit(port_sc@, 2) ==> r == Err::<(), _>(InitDeviceError::IsFullSpeed),
{
    if !port_sc.port_enabled() {
        return Err(InitDeviceError::IsFullSpeed);
    }
    Ok(())
}

/// The two links that insert a queue head into the asynchronous schedule
/// right after the anchor.
#[derive(Debug, Clone, Copy)]
pub struct AsyncListInsertion {
    /// The new horizontal link of the inserted queue head.
    pub queue_head_link: QueueHeadHorizontalLinkPtr,
    /// The new horizontal link of the anchor.
    pub anchor_link: QueueHeadHorizontalLinkPtr,
}

/// Inserts the queue head at `queue_head_phys_addr` after the anchor, whose
/// horizontal link is `anchor_link`: the queue head takes over the anchor's
/// link and the anchor links to the queue head.
pub fn insert_after_anchor(
    anchor_link: QueueHeadHorizontalLinkPtr,
    queue_head_phys_addr: u32,
) -> (r: AsyncListInsertion)
    ensures
        r.queue_head_link == anchor_link,
        r.anchor_link@ == horizontal_link(SelectType::Qh, queue_head_phys_addr),
        !get_bit(r.anchor_link@, 0),
        get_field(r.anchor_link@, 1, 2) == SelectType::Qh.bits_spec(),
        r.anchor_link.target() == queue_head_phys_addr / 32 * 32,
{
    AsyncListInsertion {
        queue_head_link: anchor_link,
        anchor_link: QueueHeadHorizontalLinkPtr::new(SelectType::Qh, queue_head_phys_addr),
    }
}

/// What to do about an interrupt.
#[derive(Debug, Clone, Copy)]
pub struct InterruptResponse {
    /// The USBSTS value to write, which acknowledges the handled interrupts.
    pub clear: UsbStsReg,
    /// Wake the task waiting for port changes.
    pub wake_port_change_waiter: bool,
    /// Wake the tasks waiting for transfers to complete.
    pub wake_transfer_waiters: bool,
}

/// The response to an interrupt whose USBSTS reads `status`, which reports
/// no error: acknowledge frame list rollover always, and async advance, port
/// change and transfer completion when they are reported; on a port change
/// wake the port change waiter; on transfer completion wake the transfer waiters.
pub fn respond_to_interrupt(status: UsbStsReg) -> (r: InterruptResponse)
    requires
        !get_bit(status@, 1),
        !get_bit(status@, 4),
    ensures
        get_bit(r.clear@, 0) == get_bit(status@, 0),
        !get_bit(r.clear@, 1),
        get_bit(r.clear@, 2) == get_bit(status@, 2),
        get_bit(r.clear@, 3),
        !get_bit(r.clear@, 4),
        get_bit(r.clear@, 5) == get_bit(status@, 5),
        get_field(r.clear@, 6, 26) == 0,
        r.wake_port_change_waiter == get_bit(status@, 2),
        r.wake_transfer_waiters == get_bit(status@, 0),
{
    proof {
        crate::bitfield::lemma_zero_fields();
    }
    let mut clear = UsbStsReg::new_with_raw_value(0).with_frame_list_rollover(true);
    let ghost c0 = clear@;
    if status.interrupt_on_async_advance() {
        clear.set_interrupt_on_async_advance(true);
    }
    let ghost c1 = clear@;
    let wake_port_change_waiter = status.port_change_detect();
    if wake_port_change_waiter {
        clear.set_port_change_detect(true);
    }
    let ghost c2 = clear@;
    let wake_transfer_waiters = status.usb_int();
    if wake_transfer_waiters {
        clear.set_usb_int(true);
    }
    proof {
        crate::bitfield::lemma_field_mask_values();
        assert forall|low: u32, width: u32|
            is_field(low, width) && disjoint_fields(5, 1, low, width) implies #[trigger] get_field(
                c1,
                low,
                width,
            ) == get_field(c0, low, width) by {
            if get_bit(status@, 5) {
                crate::bitfield::lemma_set_frame(c0, 5, 1, 1, low, width);
            }
        }
        assert forall|low: u32, width: u32|
            is_field(low, width) && disjoint_fields(2, 1, low, width) implies #[trigger] get_field(
                c2,
                low,
                width,
            ) == get_field(c1, low, width) by {
            if get_bit(status@, 2) {
                crate::bitfield::lemma_set_frame(c1, 2, 1, 1, low, width);
            }
        }
        assert forall|low: u32, width: u32|
            is_field(low, width) && disjoint_fields(0, 1, low, width) implies #[trigger] get_field(
                clear@,
                low,
                width,
            ) == get_field(c2, low, width) by {
            if get_bit(status@, 0) {
                crate::bitfield::lemma_set_frame(c2, 0, 1, 1, low, width);
            }
        }
        if get_bit(status@, 5) {
            crate::bitfield::lemma_get_set(c0, 5, 1, 1);
        } else {
            assert(get_field(c0, 5, 1) == 0);
        }
        if get_bit(status@, 2) {
            crate::bitfield::lemma_get_set(c1, 2, 1, 1);
        } else {
            assert(get_field(c0, 2, 1) == 0);
        }
        if get_bit(status@, 0) {
            crate::bitfield::lemma_get_set(c2, 0, 1, 1);
        } else {
            assert(get_field(c0, 0, 1) == 0);
        }
        assert(get_field(c0, 1, 1) == 0);
        assert(get_field(c0, 4, 1) == 0);
        assert(get_field(c0, 6, 26) == 0);
    }
    InterruptResponse { clear, wake_port_change_waiter, wake_transfer_waiters }
}

/// Bits 0 to 11 of buffer pages 1 to 4 of the transfer descriptor are 0.
pub open spec fn later_pages_have_no_offset(q: Qtd) -> bool {
    &&& get_field(q.buffer_pointer_page_1@, 0, 12) == 0
    &&& get_field(q.buffer_pointer_page_2@, 0, 12) == 0
    &&& get_field(q.buffer_pointer_page_3@, 0, 12) == 0
    &&& get_field(q.buffer_pointer_page_4@, 0, 12) == 0
}

/// The transfer descriptor's buffer starts at `start` and runs over the pages
/// that follow the one holding `start`.
pub open spec fn carries_buffer(q: Qtd, start: int) -> bool {
    &&& get_field(q.buffer_pointer_page_0@, 0, 12) == start % 0x1000
    &&& later_pages_have_no_offset(q)
    &&& forall|i: int|
        0 <= i < 5 ==> #[trigger] q.buffer_page_address(i) == start - start % 0x1000 + 0x1000 * i
}

/// The transfer descriptor has no buffer: every page address and the offset are 0.
pub open spec fn carries_no_buffer(q: Qtd) -> bool {
    &&& get_field(q.buffer_pointer_page_0@, 0, 12) == 0
    &&& later_pages_have_no_offset(q)
    &&& forall|i: int| 0 <= i < 5 ==> #[trigger] q.buffer_page_address(i) == 0
}

/// The endpoint characteristics of endpoint 0 (the control endpoint) of the
/// high-speed device at `device_addr`, whose maximum packet length is not known
/// yet; `head` is the head of reclamation list flag, which is cleared first.
pub open spec fn control_endpoint_characteristics(device_addr: u8, head: u32) -> u32 {
    set_field(
        set_field(set_field(set_field(head, 0, 7, device_addr as u32), 8, 4, 0), 12, 2, 2),
        16,
        11,
        64,
    )
}

/// The transfer descriptors and queue head of one control transfer, and
/// where they go in the device initialization buffer.
pub struct ControlTransfer {
    /// The descriptors, linked one after the other.
    pub qtds: Vec<Qtd>,
    /// Index in the buffer's descriptor array of the first descriptor.
    pub first_qtd_index: usize,
    /// The queue head that holds the descriptors.
    pub queue_head: QueueHead,
    /// Index in the buffer's queue head array of the queue head.
    pub queue_head_index: usize,
    /// Physical address of the queue head.
    pub queue_head_phys_addr: u32,
    /// The setup packet the first descriptor sends.
    pub setup_packet: SetupPacket,
    /// Offset in the buffer at which the setup packet goes.
    pub setup_packet_offset: u32,
}

/// `r` is the first transfer of device initialization, in the buffer at
/// physical address `buffer_phys`: SET_ADDRESS to `new_address`. A setup stage
/// sends the setup packet, then an IN status stage; both interrupt on
/// completion. The descriptors are entries 0 and 1 of the buffer's descriptor
/// array, the queue head is entry 0 of its queue head array.
pub open spec fn is_set_address_transfer(r: ControlTransfer, buffer_phys: u32, new_address: u8) -> bool {
    &&& r.qtds.len() == 2
    &&& r.first_qtd_index == 0
    &&& r.queue_head_index == 0
    &&& r.queue_head_phys_addr == buffer_phys + INIT_BUFFER_QHS_OFFSET
    &&& r.setup_packet@ == seq![0x00u8, 5, new_address, 0, 0, 0, 0, 0]
    &&& r.setup_packet_offset == INIT_BUFFER_SET_ADDRESS_SETUP_PACKET_OFFSET
    &&& r.queue_head.endpoint_charactersistics@ == control_endpoint_characteristics(0, 0)
    &&& r.queue_head.endpoint_capabilities@ == 0
    &&& r.queue_head.queue_head_horizontal_link_ptr@ == set_bit(0, 0, true)
    &&& r.queue_head.next_qtd_pointer@ == valid_qtd_link(buffer_phys)
    &&& r.queue_head.has_empty_overlay()
    &&& r.qtds[0].qtd_token@ == set_bit(active_token(PidCode::SetupToken, 8), 15, true)
    &&& carries_buffer(r.qtds[0], buffer_phys + INIT_BUFFER_SET_ADDRESS_SETUP_PACKET_OFFSET)
    &&& r.qtds[0].next_qtd_ptr@ == valid_qtd_link((buffer_phys + 64) as u32)
    &&& r.qtds[0].alternate_next_qtd_ptr@ == set_bit(0, 0, true)
    &&& r.qtds[1].qtd_token@ == set_bit(set_bit(active_token(PidCode::InToken, 0), 15, true), 31, true)
    &&& carries_no_buffer(r.qtds[1])
    &&& r.qtds[1].next_qtd_ptr@ == invalid_qtd_link()
    &&& r.qtds[1].alternate_next_qtd_ptr@ == set_bit(0, 0, true)
}

/// `r` is the second transfer of device initialization, in the buffer at
/// physical address `buffer_phys`: GET_DESCRIPTOR of the device descriptor from
/// the device at `device_addr`. A setup stage sends the setup packet, an IN
/// data stage reads up to `PAYLOAD_BUFFER_LEN` bytes into the descriptor
/// buffer, and an OUT status stage ends it; all interrupt on completion. The
/// descriptors are entries 2 to 4 of the buffer's descriptor array, the queue
/// head is entry 1 of its queue head array.
pub open spec fn is_get_descriptor_transfer(r: ControlTransfer, buffer_phys: u32, device_addr: u8) -> bool {
    &&& r.qtds.len() == 3
    &&& r.first_qtd_index == 2
    &&& r.queue_head_index == 1
    &&& r.queue_head_phys_addr == buffer_phys + INIT_BUFFER_QHS_OFFSET + 96
    &&& r.setup_packet@ == seq![0x80u8, 6, 0, 1, 0, 0, 64, 0]
    &&& r.setup_packet_offset == INIT_BUFFER_GET_DESCRIPTOR_SETUP_PACKET_OFFSET
    &&& r.queue_head.endpoint_charactersistics@ == control_endpoint_characteristics(
        device_addr,
        set_bit(0, 15, false),
    )
    &&& r.queue_head.endpoint_capabilities@ == 0
    &&& r.queue_head.queue_head_horizontal_link_ptr@ == set_bit(0, 0, true)
    &&& r.queue_head.next_qtd_pointer@ == valid_qtd_link((buffer_phys + 128) as u32)
    &&& r.queue_head.has_empty_overlay()
    &&& r.qtds[0].qtd_token@ == set_bit(active_token(PidCode::SetupToken, 8), 15, true)
    &&& carries_buffer(r.qtds[0], buffer_phys + INIT_BUFFER_GET_DESCRIPTOR_SETUP_PACKET_OFFSET)
    &&& r.qtds[0].next_qtd_ptr@ == valid_qtd_link((buffer_phys + 192) as u32)
    &&& r.qtds[0].alternate_next_qtd_ptr@ == set_bit(0, 0, true)
    &&& r.qtds[1].qtd_token@ == set_bit(set_bit(active_token(PidCode::InToken, 64), 31, true), 15, true)
    &&& carries_buffer(r.qtds[1], buffer_phys + INIT_BUFFER_DESCRIPTOR_BUFFER_OFFSET)
    &&& r.qtds[1].next_qtd_ptr@ == valid_qtd_link((buffer_phys + 256) as u32)
    &&& r.qtds[1].alternate_next_qtd_ptr@ == set_bit(0, 0, true)
    &&& r.qtds[2].qtd_token@ == set_bit(set_bit(active_token(PidCode::OutToken, 0), 31, true), 15, true)
    &&& carries_no_buffer(r.qtds[2])
    &&& r.qtds[2].next_qtd_ptr@ == invalid_qtd_link()
    &&& r.qtds[2].alternate_next_qtd_ptr@ == set_bit(0, 0, true)
}

/// The control endpoint queue head of the high-speed device at `device_addr`.
fn control_queue_head(device_addr: u8, clear_head_flag: bool) -> (r: QueueHead)
    requires
        device_addr <= 0x7f,
    ensures
        r.endpoint_charactersistics@ == control_endpoint_characteristics(
            device_addr,
            if clear_head_flag {
                set_bit(0, 15, false)
            } else {
                0
            },
        ),
        r.endpoint_capabilities@ == 0,
        r.queue_head_horizontal_link_ptr@ == set_bit(0, 0, true),
        r.has_empty_queue(),
{
    let start = if clear_head_flag {
        EndpointCharacteristics::new_with_raw_value(0).with_head_of_reclamation_list_flag(false)
    } else {
        EndpointCharacteristics::new_with_raw_value(0)
    };
    QueueHead::new(
        start
            .with_device_addr(device_addr)
            .with_endpoint_number(0)
            .with_endpoint_speed(EndpointSpeed::High.bits())
            .with_max_packet_len(PAYLOAD_BUFFER_LEN),
        EndpointCapabilities::new_with_raw_value(0),
    )
}

/// The first transfer of device initialization, in the buffer at physical
/// address `buffer_phys`: SET_ADDRESS to `new_address`. A setup stage sends
/// the setup packet, then an IN status stage; both interrupt on completion.
/// The descriptors go to entries 0 and 1 of the buffer's descriptor array,
/// the queue head to entry 0 of its queue head array.
pub fn set_address_transfer(buffer_phys: u32, new_address: u8) -> (r: ControlTransfer)
    requires
        buffer_phys + INIT_BUFFER_QHS_OFFSET <= u32::MAX,
        new_address <= 0x7f,
    ensures
        is_set_address_transfer(r, buffer_phys, new_address),
{
    let qtds_addr = buffer_phys + INIT_BUFFER_QTDS_OFFSET;
    let qhs_phys_addr = buffer_phys + INIT_BUFFER_QHS_OFFSET;
    let setup = Qtd::new(
        TransferToken::new_active(PidCode::SetupToken, 8)
            .with_interrupt_on_complete(true),
        BufferPtrs::new_contiguous(
            buffer_phys as u64 + INIT_BUFFER_SET_ADDRESS_SETUP_PACKET_OFFSET as u64,
            8,
        ),
    );
    let status = Qtd::new(
        TransferToken::new_active(PidCode::InToken, 0)
            .with_interrupt_on_complete(true)
            .with_data_toggle(true),
        BufferPtrs::empty(),
    );
    let mut qtds = vec![setup, status];
    let ghost unlinked = qtds@;
    let mut qh = control_queue_head(0, false);
    qh.link_contiguous_qtds(&mut qtds, qtds_addr);
    proof {
        assert(unlinked[0] == setup && unlinked[1] == status);
        assert forall|i: int| 0 <= i < 5 implies #[trigger] qtds[0].buffer_page_address(i)
            == setup.buffer_page_address(i) by {}
        assert forall|i: int| 0 <= i < 5 implies #[trigger] qtds[1].buffer_page_address(i)
            == status.buffer_page_address(i) by {}
        assert(qtds[0].buffer_pointer_page_0 == setup.buffer_pointer_page_0);
        assert(qtds[1].buffer_pointer_page_0 == status.buffer_pointer_page_0);
    }
    ControlTransfer {
        qtds,
        first_qtd_index: 0,
        queue_head: qh,
        queue_head_index: 0,
        queue_head_phys_addr: qhs_phys_addr,
        setup_packet: SetupPacket::new_set_address(new_address),
        setup_packet_offset: INIT_BUFFER_SET_ADDRESS_SETUP_PACKET_OFFSET,
    }
}

/// The second transfer of device initialization, in the buffer at physical
/// address `buffer_phys`: GET_DESCRIPTOR of the device descriptor from the
/// device at `device_addr`. A setup stage sends the setup packet, an IN data
/// stage reads up to `PAYLOAD_BUFFER_LEN` bytes into the descriptor buffer,
/// and an OUT status stage ends it; all interrupt on completion. The
/// descriptors go to entries 2 to 4 of the buffer's descriptor array, the
/// queue head to entry 1 of its queue head array.
pub fn get_descriptor_transfer(buffer_phys: u32, device_addr: u8) -> (r: ControlTransfer)
    requires
        buffer_phys + INIT_BUFFER_QHS_OFFSET + 96 <= u32::MAX,
        device_addr <= 0x7f,
    ensures
        is_get_descriptor_transfer(r, buffer_phys, device_addr),
{
    let qtds_addr = buffer_phys + INIT_BUFFER_QTDS_OFFSET;
    let qhs_phys_addr = buffer_phys + INIT_BUFFER_QHS_OFFSET;
    let setup = Qtd::new(
        TransferToken::new_active(PidCode::SetupToken, 8)
            .with_interrupt_on_complete(true),
        BufferPtrs::new_contiguous(
            buffer_phys as u64 + INIT_BUFFER_GET_DESCRIPTOR_SETUP_PACKET_OFFSET as u64,
            8,
        ),
    );
    let data = Qtd::new(
        TransferToken::new_active(PidCode::InToken, PAYLOAD_BUFFER_LEN)
            .with_data_toggle(true)
            .with_interrupt_on_complete(true),
        BufferPtrs::new_contiguous(
            buffer_phys as u64 + INIT_BUFFER_DESCRIPTOR_BUFFER_OFFSET as u64,
            PAYLOAD_BUFFER_LEN as u64,
        ),
    );
    let status = Qtd::new(
        TransferToken::new_active(PidCode::OutToken, 0)
            .with_data_toggle(true)
            .with_interrupt_on_complete(true),
        BufferPtrs::empty(),
    );
    let mut qtds = vec![setup, data, status];
    let ghost unlinked = qtds@;
    let mut qh = control_queue_head(device_addr, true);
    qh.link_contiguous_qtds(&mut qtds, qtds_addr + QTD_SIZE * 2);
    proof {
        assert(unlinked[0] == setup && unlinked[1] == data && unlinked[2] == status);
        assert forall|i: int| 0 <= i < 5 implies #[trigger] qtds[0].buffer_page_address(i)
            == setup.buffer_page_address(i) by {}
        assert forall|i: int| 0 <= i < 5 implies #[trigger] qtds[1].buffer_page_address(i)
            == data.buffer_page_address(i) by {}
        assert forall|i: int| 0 <= i < 5 implies #[trigger] qtds[2].buffer_page_address(i)
            == status.buffer_page_address(i) by {}
        assert(qtds[0].buffer_pointer_page_0 == setup.buffer_pointer_page_0);
        assert(qtds[1].buffer_pointer_page_0 == data.buffer_pointer_page_0);
        assert(qtds[2].buffer_pointer_page_0 == status.buffer_pointer_page_0);
    }
    ControlTransfer {
        qtds,
        first_qtd_index: 2,
        queue_head: qh,
        queue_head_index: 1,
        queue_head_phys_addr: qhs_phys_addr + QUEUE_HEAD_SIZE,
        setup_packet: SetupPacket::new_get_descriptor(PAYLOAD_BUFFER_LEN),
        setup_packet_offset: INIT_BUFFER_GET_DESCRIPTOR_SETUP_PACKET_OFFSET,
    }
}

/// The number of descriptor bytes the data stage moved, from its transfer
/// token after completion: the bytes it was to move less those left over.
pub fn descriptor_bytes_transferred(token: TransferToken) -> (r: u16)
    requires
        get_field(token@, 16, 15) <= PAYLOAD_BUFFER_LEN,
    ensures
        r == PAYLOAD_BUFFER_LEN - get_field(token@, 16, 15),
{
    PAYLOAD_BUFFER_LEN - token.total_bytes_to_transfer()
}

} // verus!
