use ehci::buffer_ptrs::BufferPtrs;
use ehci::endpoint_speed::EndpointSpeed;
use ehci::qtd::{NextQtdPointer, Qtd, QtdBufferPagePointerPage0};
use ehci::queue_head::{
    AlternateQtdLinkPtr, CurrentQtdLinkPtr, EndpointCapabilities, EndpointCharacteristics,
    QueueHead, QueueHeadHorizontalLinkPtr, SelectType,
};
use ehci::transfer_token::{PidCode, TransferToken};

#[test]
fn buffer_pages_of_a_contiguous_buffer() {
    let buffer = BufferPtrs::new_contiguous(0x1234_5678, 8);
    assert_eq!(buffer.offset(), 0x678);
    assert_eq!(buffer.ptr_bits_12_31(0), 0x12345);
    assert_eq!(buffer.ptr_bits_12_31(1), 0x12346);
    assert_eq!(buffer.ptr_bits_12_31(4), 0x12349);
    assert_eq!(buffer.ptr_bits_32_63(0), 0);
    let high = BufferPtrs::new_contiguous(0x1_FFFF_F010, 0x5000);
    assert_eq!(high.offset(), 0x10);
    assert_eq!(high.ptr_bits_12_31(0), 0xFFFFF);
    assert_eq!(high.ptr_bits_32_63(0), 1);
    assert_eq!(high.ptr_bits_12_31(1), 0);
    assert_eq!(high.ptr_bits_32_63(1), 2);
}

#[test]
fn buffer_start_is_first_page_plus_offset() {
    let ptr: u64 = 0x0000_0005_0000_2345;
    let buffer = BufferPtrs::new_contiguous(ptr, 100);
    let page_0 = (u64::from(buffer.ptr_bits_32_63(0)) << 32) | (u64::from(buffer.ptr_bits_12_31(0)) << 12);
    assert_eq!(page_0 + u64::from(buffer.offset()), ptr);
}

#[test]
fn empty_buffer() {
    let buffer = BufferPtrs::empty();
    assert_eq!(buffer.offset(), 0);
    for i in 0..5 {
        assert_eq!(buffer.ptr_bits_12_31(i), 0);
        assert_eq!(buffer.ptr_bits_32_63(i), 0);
    }
}

#[test]
fn transfer_token_of_an_active_transfer() {
    let token = TransferToken::new_active(PidCode::SetupToken, 8);
    assert_eq!(token.raw_value(), 0x0008_0280);
    assert!(token.active());
    assert_eq!(token.pid_code(), 2);
    assert_eq!(token.total_bytes_to_transfer(), 8);
    assert_eq!(token.with_interrupt_on_complete(true).raw_value(), 0x0008_8280);
    assert_eq!(
        TransferToken::new_active(PidCode::InToken, 0x7FFF).with_data_toggle(true).raw_value(),
        0xFFFF_0180
    );
    assert_eq!(PidCode::OutToken.bits(), 0);
    assert_eq!(PidCode::InToken.bits(), 1);
}

#[test]
fn next_qtd_pointers() {
    assert_eq!(NextQtdPointer::invalid().raw_value(), 1);
    assert!(NextQtdPointer::invalid().terminate());
    let valid = NextQtdPointer::new_valid(0x1000_0040);
    assert_eq!(valid.raw_value(), 0x1000_0040);
    assert!(!valid.terminate());
    assert_eq!(valid.addr_upper(), 0x1000_0040 >> 5);
    assert_eq!(NextQtdPointer::new_valid(0x1F).raw_value(), 0);
}

#[test]
fn queue_head_links() {
    assert_eq!(QueueHeadHorizontalLinkPtr::invalid().raw_value(), 1);
    assert_eq!(QueueHeadHorizontalLinkPtr::new(SelectType::Qh, 0x1000).raw_value(), 0x1002);
    // Bits 3 and 4 come from the pointer.
    assert_eq!(QueueHeadHorizontalLinkPtr::new(SelectType::Qh, 0x2000_0019).raw_value(), 0x2000_001A);
    assert_eq!(QueueHeadHorizontalLinkPtr::new(SelectType::Fstn, 0x40).pointer_type(), 3);
    assert_eq!(SelectType::Itd.bits(), 0);
    assert_eq!(SelectType::SplitItd.bits(), 2);
    assert_eq!(CurrentQtdLinkPtr::new(0x1234_5678).raw_value(), 0x1234_5660);
    assert_eq!(AlternateQtdLinkPtr::invalid().raw_value(), 1);
    assert_eq!(AlternateQtdLinkPtr::invalid().with_nak_count(5).raw_value(), 0xB);
}

#[test]
fn endpoint_fields() {
    let characteristics = EndpointCharacteristics::zero()
        .with_device_addr(0x67)
        .with_endpoint_number(1)
        .with_endpoint_speed(EndpointSpeed::High.bits())
        .with_max_packet_len(512)
        .with_nak_count_reload(0xF);
    assert_eq!(characteristics.raw_value(), 0xF200_2167);
    assert_eq!(characteristics.max_packet_len(), 512);
    let capabilities = EndpointCapabilities::zero()
        .with_interrupt_schedule_mask(0x01)
        .with_hub_addr(0x7F)
        .with_high_bandwidth_pipe_multiplier(1);
    assert_eq!(capabilities.raw_value(), 0x407F_0001);
    assert_eq!(EndpointSpeed::Full.bits(), 0);
    assert_eq!(EndpointSpeed::Low.bits(), 1);
    assert_eq!(EndpointSpeed::High.bits(), 2);
}

#[test]
fn qtd_holds_the_buffer_pages() {
    let token = TransferToken::new_active(PidCode::InToken, 16);
    let qtd = Qtd::new(token, BufferPtrs::new_contiguous(0x1_2345_6789, 16));
    assert_eq!(qtd.next_qtd_ptr.raw_value(), 1);
    assert_eq!(qtd.alternate_next_qtd_ptr.raw_value(), 1);
    assert_eq!(qtd.qtd_token, token);
    assert_eq!(qtd.buffer_pointer_page_0.raw_value(), 0x2345_6789);
    assert_eq!(qtd.buffer_pointer_page_1.raw_value(), 0x2345_7000);
    assert_eq!(qtd.buffer_pointer_page_4.raw_value(), 0x2345_A000);
    assert_eq!(qtd.extended_buffer_ptr_page_0, 1);
    assert_eq!(qtd.extended_buffer_ptr_page_4, 1);
    let page_0 = QtdBufferPagePointerPage0::new_with_raw_value(qtd.buffer_pointer_page_0.raw_value());
    assert_eq!(page_0.current_offset(), 0x789);
    assert_eq!(page_0.ptr_upper(), 0x23456);
}

#[test]
fn new_queue_head_is_empty() {
    let qh = QueueHead::new(EndpointCharacteristics::zero().with_device_addr(3), EndpointCapabilities::zero());
    assert_eq!(qh.queue_head_horizontal_link_ptr.raw_value(), 1);
    assert_eq!(qh.endpoint_charactersistics.raw_value(), 3);
    assert_eq!(qh.current_qtd_pointer.raw_value(), 0);
    assert_eq!(qh.next_qtd_pointer.raw_value(), 1);
    assert_eq!(qh.alternate_qtd_pointer.raw_value(), 1);
    assert_eq!(qh.transfer_token.raw_value(), 0);
    assert_eq!(qh.buffer_ptr_page_0.raw_value(), 0);
    assert_eq!(qh.extended_buffer_ptr_page_4, 0);
}

#[test]
fn contiguous_qtds_are_linked_in_order() {
    let qtd = Qtd::new(TransferToken::new_active(PidCode::OutToken, 0), BufferPtrs::empty());
    let mut qtds = vec![qtd, qtd, qtd];
    let mut qh = QueueHead::new(EndpointCharacteristics::zero(), EndpointCapabilities::zero());
    let before = qh;
    qh.link_contiguous_qtds(&mut qtds, 0x1000);
    assert_eq!(qh.next_qtd_pointer.raw_value(), 0x1000);
    assert_eq!(qtds[0].next_qtd_ptr.raw_value(), 0x1040);
    assert_eq!(qtds[1].next_qtd_ptr.raw_value(), 0x1080);
    assert_eq!(qtds[2].next_qtd_ptr.raw_value(), 1);
    assert_eq!(qtds[1].qtd_token, qtd.qtd_token);
    assert_eq!(qh.endpoint_charactersistics, before.endpoint_charactersistics);
    assert_eq!(qh.queue_head_horizontal_link_ptr, before.queue_head_horizontal_link_ptr);
}

#[test]
fn single_qtd_ends_the_list() {
    let qtd = Qtd::new(TransferToken::new_active(PidCode::OutToken, 0), BufferPtrs::empty());
    let mut linked = qtd;
    linked.next_qtd_ptr = NextQtdPointer::new_valid(0x4000);
    let mut qtds = vec![linked];
    let mut qh = QueueHead::new(EndpointCharacteristics::zero(), EndpointCapabilities::zero());
    qh.link_contiguous_qtds(&mut qtds, 0x2000);
    assert_eq!(qh.next_qtd_pointer.raw_value(), 0x2000);
    assert_eq!(qtds[0].next_qtd_ptr.raw_value(), 1);
}

#[test]
fn no_qtds_leave_the_queue_empty() {
    let mut qtds: Vec<Qtd> = Vec::new();
    let mut qh = QueueHead::new(EndpointCharacteristics::zero(), EndpointCapabilities::zero());
    qh.link_contiguous_qtds(&mut qtds, 0x2000);
    assert_eq!(qh.next_qtd_pointer.raw_value(), 1);
    assert!(qtds.is_empty());
}
