//! Queue heads.
use vstd::prelude::*;

use crate::qtd::{invalid_qtd_link, valid_qtd_link, NextQtdPointer, Qtd};
use crate::transfer_token::TransferToken;
use crate::bitfield::{
    disjoint_fields, get_bit, get_field, is_field, lemma_field_mask_values, lemma_zero_fields,
    link_pointer_bits, read_bit, read_field, set_bit, set_field, write_bit, write_field,
};

verus! {

/// The link from a queue head to the next data structure of the schedule.
#[derive(Clone, Copy, Debug, PartialEq, Eq, Structural)]
pub struct QueueHeadHorizontalLinkPtr {
    raw: u32,
}

impl View for QueueHeadHorizontalLinkPtr {
    type V = u32;

    closed spec fn view(&self) -> u32 {
        self.raw
    }
}

impl QueueHeadHorizontalLinkPtr {
    /// The register value whose bits are `raw`.
    pub fn new_with_raw_value(raw: u32) -> (r: Self)
        ensures
            r@ == raw,
    {
        Self { raw }
    }

    /// The bits of this value.
    pub fn raw_value(&self) -> (r: u32)
        ensures
            r == self@,
    {
        self.raw
    }

    /// 1: the pointer is invalid.
    pub fn terminate(&self) -> (r: bool)
        ensures
            r == get_bit(self@, 0),
    {
        read_bit(self.raw, 0)
    }

    /// This value with `terminate` set to `value`.
    pub fn with_terminate(self, value: bool) -> (r: Self)
        ensures
            r@ == set_bit(self@, 0, value),
            get_bit(r@, 0) == value,
            forall|low: u32, width: u32|
                is_field(low, width) && disjoint_fields(0, 1, low, width)
                    ==> #[trigger] get_field(r@, low, width) == get_field(self@, low, width),
    {
        Self { raw: write_bit(self.raw, 0, value) }
    }

    /// The type of the data structure pointed to.
    pub fn pointer_type(&self) -> (r: u8)
        ensures
            r == get_field(self@, 1, 2),
            r <= 0x3,
    {
        proof {
            lemma_field_mask_values();
        }
        read_field(self.raw, 1, 2) as u8
    }

    /// This value with `pointer_type` set to `value`.
    pub fn with_pointer_type(self, value: u8) -> (r: Self)
        requires
            value <= 0x3,
        ensures
            r@ == set_field(self@, 1, 2, value as u32),
            get_field(r@, 1, 2) == value,
            forall|low2: u32, width2: u32|
                is_field(low2, width2) && disjoint_fields(1, 2, low2, width2)
                    ==> #[trigger] get_field(r@, low2, width2) == get_field(self@, low2, width2),
    {
        proof {
            lemma_field_mask_values();
        }
        Self { raw: write_field(self.raw, 1, 2, value as u32) }
    }

    /// Bits 5 to 31 of the address pointed to.
    pub fn ptr_upper(&self) -> (r: u32)
        ensures
            r == get_field(self@, 5, 27),
            r <= 0x7ff_ffff,
    {
        proof {
            lemma_field_mask_values();
        }
        read_field(self.raw, 5, 27)
    }

    /// This value with `ptr_upper` set to `value`.
    pub fn with_ptr_upper(self, value: u32) -> (r: Self)
        requires
            value <= 0x7ff_ffff,
        ensures
            r@ == set_field(self@, 5, 27, value as u32),
            get_field(r@, 5, 27) == value,
            forall|low2: u32, width2: u32|
                is_field(low2, width2) && disjoint_fields(5, 27, low2, width2)
                    ==> #[trigger] get_field(r@, low2, width2) == get_field(self@, low2, width2),
    {
        proof {
            lemma_field_mask_values();
        }
        Self { raw: write_field(self.raw, 5, 27, value) }
    }
}

/// Endpoint characteristics of a queue head.
#[derive(Clone, Copy, Debug, PartialEq, Eq, Structural)]
pub struct EndpointCharacteristics {
    raw: u32,
}

impl View for EndpointCharacteristics {
    type V = u32;

    closed spec fn view(&self) -> u32 {
        self.raw
    }
}

impl EndpointCharacteristics {
    /// The register value whose bits are `raw`.
    pub fn new_with_raw_value(raw: u32) -> (r: Self)
        ensures
            r@ == raw,
    {
        Self { raw }
    }

    /// The bits of this value.
    pub fn raw_value(&self) -> (r: u32)
        ensures
            r == self@,
    {
        self.raw
    }

    /// The value with every bit clear.
    pub fn zero() -> (r: Self)
        ensures
            r@ == 0,
    {
        Self { raw: 0 }
    }

    /// Address of the device.
    pub fn device_addr(&self) -> (r: u8)
        ensures
            r == get_field(self@, 0, 7),
            r <= 0x7f,
    {
        proof {
            lemma_field_mask_values();
        }
        read_field(self.raw, 0, 7) as u8
    }

    /// This value with `device_addr` set to `value`.
    pub fn with_device_addr(self, value: u8) -> (r: Self)
        requires
            value <= 0x7f,
        ensures
            r@ == set_field(self@, 0, 7, value as u32),
            get_field(r@, 0, 7) == value,
            forall|low2: u32, width2: u32|
                is_field(low2, width2) && disjoint_fields(0, 7, low2, width2)
                    ==> #[trigger] get_field(r@, low2, width2) == get_field(self@, low2, width2),
    {
        proof {
            lemma_field_mask_values();
        }
        Self { raw: write_field(self.raw, 0, 7, value as u32) }
    }

    /// Inactivate on next transaction.
    pub fn inactive_on_next_transaction(&self) -> (r: bool)
        ensures
            r == get_bit(self@, 7),
    {
        read_bit(self.raw, 7)
    }

    /// This value with `inactive_on_next_transaction` set to `value`.
    pub fn with_inactive_on_next_transaction(self, value: bool) -> (r: Self)
        ensures
            r@ == set_bit(self@, 7, value),
            get_bit(r@, 7) == value,
            forall|low: u32, width: u32|
                is_field(low, width) && disjoint_fields(7, 1, low, width)
                    ==> #[trigger] get_field(r@, low, width) == get_field(self@, low, width),
    {
        Self { raw: write_bit(self.raw, 7, value) }
    }

    /// Endpoint number.
    pub fn endpoint_number(&self) -> (r: u8)
        ensures
            r == get_field(self@, 8, 4),
            r <= 0xf,
    {
        proof {
            lemma_field_mask_values();
        }
        read_field(self.raw, 8, 4) as u8
    }

    /// This value with `endpoint_number` set to `value`.
    pub fn with_endpoint_number(self, value: u8) -> (r: Self)
        requires
            value <= 0xf,
        ensures
            r@ == set_field(self@, 8, 4, value as u32),
            get_field(r@, 8, 4) == value,
            forall|low2: u32, width2: u32|
                is_field(low2, width2) && disjoint_fields(8, 4, low2, width2)
                    ==> #[trigger] get_field(r@, low2, width2) == get_field(self@, low2, width2),
    {
        proof {
            lemma_field_mask_values();
        }
        Self { raw: write_field(self.raw, 8, 4, value as u32) }
    }

    /// Endpoint speed: 0 full, 1 low, 2 high.
    pub fn endpoint_speed(&self) -> (r: u8)
        ensures
            r == get_field(self@, 12, 2),
            r <= 0x3,
    {
        proof {
            lemma_field_mask_values();
        }
        read_field(self.raw, 12, 2) as u8
    }

    /// This value with `endpoint_speed` set to `value`.
    pub fn with_endpoint_speed(self, value: u8) -> (r: Self)
        requires
            value <= 0x3,
        ensures
            r@ == set_field(self@, 12, 2, value as u32),
            get_field(r@, 12, 2) == value,
            forall|low2: u32, width2: u32|
                is_field(low2, width2) && disjoint_fields(12, 2, low2, width2)
                    ==> #[trigger] get_field(r@, low2, width2) == get_field(self@, low2, width2),
    {
        proof {
            lemma_field_mask_values();
        }
        Self { raw: write_field(self.raw, 12, 2, value as u32) }
    }

    /// Take the data toggle from the transfer descriptor.
    pub fn data_toggle_control(&self) -> (r: bool)
        ensures
            r == get_bit(self@, 14),
    {
        read_bit(self.raw, 14)
    }

    /// This value with `data_toggle_control` set to `value`.
    pub fn with_data_toggle_control(self, value: bool) -> (r: Self)
        ensures
            r@ == set_bit(self@, 14, value),
            get_bit(r@, 14) == value,
            forall|low: u32, width: u32|
                is_field(low, width) && disjoint_fields(14, 1, low, width)
                    ==> #[trigger] get_field(r@, low, width) == get_field(self@, low, width),
    {
        Self { raw: write_bit(self.raw, 14, value) }
    }

    /// This queue head is the head of the reclamation list.
    pub fn head_of_reclamation_list_flag(&self) -> (r: bool)
        ensures
            r == get_bit(self@, 15),
    {
        read_bit(self.raw, 15)
    }

    /// This value with `head_of_reclamation_list_flag` set to `value`.
    pub fn with_head_of_reclamation_list_flag(self, value: bool) -> (r: Self)
        ensures
            r@ == set_bit(self@, 15, value),
            get_bit(r@, 15) == value,
            forall|low: u32, width: u32|
                is_field(low, width) && disjoint_fields(15, 1, low, width)
                    ==> #[trigger] get_field(r@, low, width) == get_field(self@, low, width),
    {
        Self { raw: write_bit(self.raw, 15, value) }
    }

    /// Maximum packet length.
    pub fn max_packet_len(&self) -> (r: u16)
        ensures
            r == get_field(self@, 16, 11),
            r <= 0x7ff,
    {
        proof {
            lemma_field_mask_values();
        }
        read_field(self.raw, 16, 11) as u16
    }

    /// This value with `max_packet_len` set to `value`.
    pub fn with_max_packet_len(self, value: u16) -> (r: Self)
        requires
            value <= 0x7ff,
        ensures
            r@ == set_field(self@, 16, 11, value as u32),
            get_field(r@, 16, 11) == value,
            forall|low2: u32, width2: u32|
                is_field(low2, width2) && disjoint_fields(16, 11, low2, width2)
                    ==> #[trigger] get_field(r@, low2, width2) == get_field(self@, low2, width2),
    {
        proof {
            lemma_field_mask_values();
        }
        Self { raw: write_field(self.raw, 16, 11, value as u32) }
    }

    /// Control endpoint of a full or low-speed device.
    pub fn endpoint_control_flag(&self) -> (r: bool)
        ensures
            r == get_bit(self@, 27),
    {
        read_bit(self.raw, 27)
    }

    /// This value with `endpoint_control_flag` set to `value`.
    pub fn with_endpoint_control_flag(self, value: bool) -> (r: Self)
        ensures
            r@ == set_bit(self@, 27, value),
            get_bit(r@, 27) == value,
            forall|low: u32, width: u32|
                is_field(low, width) && disjoint_fields(27, 1, low, width)
                    ==> #[trigger] get_field(r@, low, width) == get_field(self@, low, width),
    {
        Self { raw: write_bit(self.raw, 27, value) }
    }

    /// NAK count reload.
    pub fn nak_count_reload(&self) -> (r: u8)
        ensures
            r == get_field(self@, 28, 4),
            r <= 0xf,
    {
        proof {
            lemma_field_mask_values();
        }
        read_field(self.raw, 28, 4) as u8
    }

    /// This value with `nak_count_reload` set to `value`.
    pub fn with_nak_count_reload(self, value: u8) -> (r: Self)
        requires
            value <= 0xf,
        ensures
            r@ == set_field(self@, 28, 4, value as u32),
            get_field(r@, 28, 4) == value,
            forall|low2: u32, width2: u32|
                is_field(low2, width2) && disjoint_fields(28, 4, low2, width2)
                    ==> #[trigger] get_field(r@, low2, width2) == get_field(self@, low2, width2),
    {
        proof {
            lemma_field_mask_values();
        }
        Self { raw: write_field(self.raw, 28, 4, value as u32) }
    }
}

/// Endpoint capabilities of a queue head.
#[derive(Clone, Copy, Debug, PartialEq, Eq, Structural)]
pub struct EndpointCapabilities {
    raw: u32,
}

impl View for EndpointCapabilities {
    type V = u32;

    closed spec fn view(&self) -> u32 {
        self.raw
    }
}

impl EndpointCapabilities {
    /// The register value whose bits are `raw`.
    pub fn new_with_raw_value(raw: u32) -> (r: Self)
        ensures
            r@ == raw,
    {
        Self { raw }
    }

    /// The bits of this value.
    pub fn raw_value(&self) -> (r: u32)
        ensures
            r == self@,
    {
        self.raw
    }

    /// The value with every bit clear.
    pub fn zero() -> (r: Self)
        ensures
            r@ == 0,
    {
        Self { raw: 0 }
    }

    /// Interrupt schedule mask.
    pub fn interrupt_schedule_mask(&self) -> (r: u8)
        ensures
            r == get_field(self@, 0, 8),
            r <= 0xff,
    {
        proof {
            lemma_field_mask_values();
        }
        read_field(self.raw, 0, 8) as u8
    }

    /// This value with `interrupt_schedule_mask` set to `value`.
    pub fn with_interrupt_schedule_mask(self, value: u8) -> (r: Self)
        requires
            value <= 0xff,
        ensures
            r@ == set_field(self@, 0, 8, value as u32),
            get_field(r@, 0, 8) == value,
            forall|low2: u32, width2: u32|
                is_field(low2, width2) && disjoint_fields(0, 8, low2, width2)
                    ==> #[trigger] get_field(r@, low2, width2) == get_field(self@, low2, width2),
    {
        proof {
            lemma_field_mask_values();
        }
        Self { raw: write_field(self.raw, 0, 8, value as u32) }
    }

    /// Split completion mask.
    pub fn split_completion_mask(&self) -> (r: u8)
        ensures
            r == get_field(self@, 8, 8),
            r <= 0xff,
    {
        proof {
            lemma_field_mask_values();
        }
        read_field(self.raw, 8, 8) as u8
    }

    /// This value with `split_completion_mask` set to `value`.
    pub fn with_split_completion_mask(self, value: u8) -> (r: Self)
        requires
            value <= 0xff,
        ensures
            r@ == set_field(self@, 8, 8, value as u32),
            get_field(r@, 8, 8) == value,
            forall|low2: u32, width2: u32|
                is_field(low2, width2) && disjoint_fields(8, 8, low2, width2)
                    ==> #[trigger] get_field(r@, low2, width2) == get_field(self@, low2, width2),
    {
        proof {
            lemma_field_mask_values();
        }
        Self { raw: write_field(self.raw, 8, 8, value as u32) }
    }

    /// Address of the transaction translator hub.
    pub fn hub_addr(&self) -> (r: u8)
        ensures
            r == get_field(self@, 16, 7),
            r <= 0x7f,
    {
        proof {
            lemma_field_mask_values();
        }
        read_field(self.raw, 16, 7) as u8
    }

    /// This value with `hub_addr` set to `value`.
    pub fn with_hub_addr(self, value: u8) -> (r: Self)
        requires
            value <= 0x7f,
        ensures
            r@ == set_field(self@, 16, 7, value as u32),
            get_field(r@, 16, 7) == value,
            forall|low2: u32, width2: u32|
                is_field(low2, width2) && disjoint_fields(16, 7, low2, width2)
                    ==> #[trigger] get_field(r@, low2, width2) == get_field(self@, low2, width2),
    {
        proof {
            lemma_field_mask_values();
        }
        Self { raw: write_field(self.raw, 16, 7, value as u32) }
    }

    /// Port number on the transaction translator hub.
    pub fn port_number(&self) -> (r: u8)
        ensures
            r == get_field(self@, 23, 7),
            r <= 0x7f,
    {
        proof {
            lemma_field_mask_values();
        }
        read_field(self.raw, 23, 7) as u8
    }

    /// This value with `port_number` set to `value`.
    pub fn with_port_number(self, value: u8) -> (r: Self)
        requires
            value <= 0x7f,
        ensures
            r@ == set_field(self@, 23, 7, value as u32),
            get_field(r@, 23, 7) == value,
            forall|low2: u32, width2: u32|
                is_field(low2, width2) && disjoint_fields(23, 7, low2, width2)
                    ==> #[trigger] get_field(r@, low2, width2) == get_field(self@, low2, width2),
    {
        proof {
            lemma_field_mask_values();
        }
        Self { raw: write_field(self.raw, 23, 7, value as u32) }
    }

    /// High-bandwidth pipe multiplier.
    pub fn high_bandwidth_pipe_multiplier(&self) -> (r: u8)
        ensures
            r == get_field(self@, 30, 2),
            r <= 0x3,
    {
        proof {
            lemma_field_mask_values();
        }
        read_field(self.raw, 30, 2) as u8
    }

    /// This value with `high_bandwidth_pipe_multiplier` set to `value`.
    pub fn with_high_bandwidth_pipe_multiplier(self, value: u8) -> (r: Self)
        requires
            value <= 0x3,
        ensures
            r@ == set_field(self@, 30, 2, value as u32),
            get_field(r@, 30, 2) == value,
            forall|low2: u32, width2: u32|
                is_field(low2, width2) && disjoint_fields(30, 2, low2, width2)
                    ==> #[trigger] get_field(r@, low2, width2) == get_field(self@, low2, width2),
    {
        proof {
            lemma_field_mask_values();
        }
        Self { raw: write_field(self.raw, 30, 2, value as u32) }
    }
}

/// The link to the transfer descriptor a queue head is executing.
#[derive(Clone, Copy, Debug, PartialEq, Eq, Structural)]
pub struct CurrentQtdLinkPtr {
    raw: u32,
}

impl View for CurrentQtdLinkPtr {
    type V = u32;

    closed spec fn view(&self) -> u32 {
        self.raw
    }
}

impl CurrentQtdLinkPtr {
    /// The register value whose bits are `raw`.
    pub fn new_with_raw_value(raw: u32) -> (r: Self)
        ensures
            r@ == raw,
    {
        Self { raw }
    }

    /// The bits of this value.
    pub fn raw_value(&self) -> (r: u32)
        ensures
            r == self@,
    {
        self.raw
    }

    /// The value with every bit clear.
    pub fn zero() -> (r: Self)
        ensures
            r@ == 0,
    {
        Self { raw: 0 }
    }

    /// Bits 5 to 31 of the address of the transfer descriptor.
    pub fn ptr_upper(&self) -> (r: u32)
        ensures
            r == get_field(self@, 5, 27),
            r <= 0x7ff_ffff,
    {
        proof {
            lemma_field_mask_values();
        }
        read_field(self.raw, 5, 27)
    }

    /// This value with `ptr_upper` set to `value`.
    pub fn with_ptr_upper(self, value: u32) -> (r: Self)
        requires
            value <= 0x7ff_ffff,
        ensures
            r@ == set_field(self@, 5, 27, value as u32),
            get_field(r@, 5, 27) == value,
            forall|low2: u32, width2: u32|
                is_field(low2, width2) && disjoint_fields(5, 27, low2, width2)
                    ==> #[trigger] get_field(r@, low2, width2) == get_field(self@, low2, width2),
    {
        proof {
            lemma_field_mask_values();
        }
        Self { raw: write_field(self.raw, 5, 27, value) }
    }
}

/// The alternate next transfer descriptor link.
#[derive(Clone, Copy, Debug, PartialEq, Eq, Structural)]
pub struct AlternateQtdLinkPtr {
    raw: u32,
}

impl View for AlternateQtdLinkPtr {
    type V = u32;

    closed spec fn view(&self) -> u32 {
        self.raw
    }
}

impl AlternateQtdLinkPtr {
    /// The register value whose bits are `raw`.
    pub fn new_with_raw_value(raw: u32) -> (r: Self)
        ensures
            r@ == raw,
    {
        Self { raw }
    }

    /// The bits of this value.
    pub fn raw_value(&self) -> (r: u32)
        ensures
            r == self@,
    {
        self.raw
    }

    /// 1: the pointer is invalid.
    pub fn terminate(&self) -> (r: bool)
        ensures
            r == get_bit(self@, 0),
    {
        read_bit(self.raw, 0)
    }

    /// This value with `terminate` set to `value`.
    pub fn with_terminate(self, value: bool) -> (r: Self)
        ensures
            r@ == set_bit(self@, 0, value),
            get_bit(r@, 0) == value,
            forall|low: u32, width: u32|
                is_field(low, width) && disjoint_fields(0, 1, low, width)
                    ==> #[trigger] get_field(r@, low, width) == get_field(self@, low, width),
    {
        Self { raw: write_bit(self.raw, 0, value) }
    }

    /// NAK counter.
    pub fn nak_count(&self) -> (r: u8)
        ensures
            r == get_field(self@, 1, 4),
            r <= 0xf,
    {
        proof {
            lemma_field_mask_values();
        }
        read_field(self.raw, 1, 4) as u8
    }

    /// This value with `nak_count` set to `value`.
    pub fn with_nak_count(self, value: u8) -> (r: Self)
        requires
            value <= 0xf,
        ensures
            r@ == set_field(self@, 1, 4, value as u32),
            get_field(r@, 1, 4) == value,
            forall|low2: u32, width2: u32|
                is_field(low2, width2) && disjoint_fields(1, 4, low2, width2)
                    ==> #[trigger] get_field(r@, low2, width2) == get_field(self@, low2, width2),
    {
        proof {
            lemma_field_mask_values();
        }
        Self { raw: write_field(self.raw, 1, 4, value as u32) }
    }

    /// Bits 5 to 31 of the address of the transfer descriptor.
    pub fn ptr_upper(&self) -> (r: u32)
        ensures
            r == get_field(self@, 5, 27),
            r <= 0x7ff_ffff,
    {
        proof {
            lemma_field_mask_values();
        }
        read_field(self.raw, 5, 27)
    }

    /// This value with `ptr_upper` set to `value`.
    pub fn with_ptr_upper(self, value: u32) -> (r: Self)
        requires
            value <= 0x7ff_ffff,
        ensures
            r@ == set_field(self@, 5, 27, value as u32),
            get_field(r@, 5, 27) == value,
            forall|low2: u32, width2: u32|
                is_field(low2, width2) && disjoint_fields(5, 27, low2, width2)
                    ==> #[trigger] get_field(r@, low2, width2) == get_field(self@, low2, width2),
    {
        proof {
            lemma_field_mask_values();
        }
        Self { raw: write_field(self.raw, 5, 27, value) }
    }
}

/// The first buffer page pointer of a queue head.
#[derive(Clone, Copy, Debug, PartialEq, Eq, Structural)]
pub struct QhBufferPtrPage0 {
    raw: u32,
}

impl View for QhBufferPtrPage0 {
    type V = u32;

    closed spec fn view(&self) -> u32 {
        self.raw
    }
}

impl QhBufferPtrPage0 {
    /// The register value whose bits are `raw`.
    pub fn new_with_raw_value(raw: u32) -> (r: Self)
        ensures
            r@ == raw,
    {
        Self { raw }
    }

    /// The bits of this value.
    pub fn raw_value(&self) -> (r: u32)
        ensures
            r == self@,
    {
        self.raw
    }

    /// The value with every bit clear.
    pub fn zero() -> (r: Self)
        ensures
            r@ == 0,
    {
        Self { raw: 0 }
    }

    /// Offset into the current page.
    pub fn current_offset(&self) -> (r: u16)
        ensures
            r == get_field(self@, 0, 12),
            r <= 0xfff,
    {
        proof {
            lemma_field_mask_values();
        }
        read_field(self.raw, 0, 12) as u16
    }

    /// This value with `current_offset` set to `value`.
    pub fn with_current_offset(self, value: u16) -> (r: Self)
        requires
            value <= 0xfff,
        ensures
            r@ == set_field(self@, 0, 12, value as u32),
            get_field(r@, 0, 12) == value,
            forall|low2: u32, width2: u32|
                is_field(low2, width2) && disjoint_fields(0, 12, low2, width2)
                    ==> #[trigger] get_field(r@, low2, width2) == get_field(self@, low2, width2),
    {
        proof {
            lemma_field_mask_values();
        }
        Self { raw: write_field(self.raw, 0, 12, value as u32) }
    }

    /// Bits 12 to 31 of the page address.
    pub fn ptr_upper(&self) -> (r: u32)
        ensures
            r == get_field(self@, 12, 20),
            r <= 0xf_ffff,
    {
        proof {
            lemma_field_mask_values();
        }
        read_field(self.raw, 12, 20)
    }

    /// This value with `ptr_upper` set to `value`.
    pub fn with_ptr_upper(self, value: u32) -> (r: Self)
        requires
            value <= 0xf_ffff,
        ensures
            r@ == set_field(self@, 12, 20, value as u32),
            get_field(r@, 12, 20) == value,
            forall|low2: u32, width2: u32|
                is_field(low2, width2) && disjoint_fields(12, 20, low2, width2)
                    ==> #[trigger] get_field(r@, low2, width2) == get_field(self@, low2, width2),
    {
        proof {
            lemma_field_mask_values();
        }
        Self { raw: write_field(self.raw, 12, 20, value) }
    }
}

/// A further buffer page pointer of a queue head.
#[derive(Clone, Copy, Debug, PartialEq, Eq, Structural)]
pub struct QhBufferPtrPage1 {
    raw: u32,
}

impl View for QhBufferPtrPage1 {
    type V = u32;

    closed spec fn view(&self) -> u32 {
        self.raw
    }
}

impl QhBufferPtrPage1 {
    /// The register value whose bits are `raw`.
    pub fn new_with_raw_value(raw: u32) -> (r: Self)
        ensures
            r@ == raw,
    {
        Self { raw }
    }

    /// The bits of this value.
    pub fn raw_value(&self) -> (r: u32)
        ensures
            r == self@,
    {
        self.raw
    }

    /// The value with every bit clear.
    pub fn zero() -> (r: Self)
        ensures
            r@ == 0,
    {
        Self { raw: 0 }
    }

    /// Bits 12 to 31 of the page address.
    pub fn ptr_upper(&self) -> (r: u32)
        ensures
            r == get_field(self@, 12, 20),
            r <= 0xf_ffff,
    {
        proof {
            lemma_field_mask_values();
        }
        read_field(self.raw, 12, 20)
    }

    /// This value with `ptr_upper` set to `value`.
    pub fn with_ptr_upper(self, value: u32) -> (r: Self)
        requires
            value <= 0xf_ffff,
        ensures
            r@ == set_field(self@, 12, 20, value as u32),
            get_field(r@, 12, 20) == value,
            forall|low2: u32, width2: u32|
                is_field(low2, width2) && disjoint_fields(12, 20, low2, width2)
                    ==> #[trigger] get_field(r@, low2, width2) == get_field(self@, low2, width2),
    {
        proof {
            lemma_field_mask_values();
        }
        Self { raw: write_field(self.raw, 12, 20, value) }
    }
}

/// A further buffer page pointer of a queue head.
#[derive(Clone, Copy, Debug, PartialEq, Eq, Structural)]
pub struct QhBufferPtrPage2 {
    raw: u32,
}

impl View for QhBufferPtrPage2 {
    type V = u32;

    closed spec fn view(&self) -> u32 {
        self.raw
    }
}

impl QhBufferPtrPage2 {
    /// The register value whose bits are `raw`.
    pub fn new_with_raw_value(raw: u32) -> (r: Self)
        ensures
            r@ == raw,
    {
        Self { raw }
    }

    /// The bits of this value.
    pub fn raw_value(&self) -> (r: u32)
        ensures
            r == self@,
    {
        self.raw
    }

    /// The value with every bit clear.
    pub fn zero() -> (r: Self)
        ensures
            r@ == 0,
    {
        Self { raw: 0 }
    }

    /// Bits 12 to 31 of the page address.
    pub fn ptr_upper(&self) -> (r: u32)
        ensures
            r == get_field(self@, 12, 20),
            r <= 0xf_ffff,
    {
        proof {
            lemma_field_mask_values();
        }
        read_field(self.raw, 12, 20)
    }

    /// This value with `ptr_upper` set to `value`.
    pub fn with_ptr_upper(self, value: u32) -> (r: Self)
        requires
            value <= 0xf_ffff,
        ensures
            r@ == set_field(self@, 12, 20, value as u32),
            get_field(r@, 12, 20) == value,
            forall|low2: u32, width2: u32|
                is_field(low2, width2) && disjoint_fields(12, 20, low2, width2)
                    ==> #[trigger] get_field(r@, low2, width2) == get_field(self@, low2, width2),
    {
        proof {
            lemma_field_mask_values();
        }
        Self { raw: write_field(self.raw, 12, 20, value) }
    }
}

/// A further buffer page pointer of a queue head.
#[derive(Clone, Copy, Debug, PartialEq, Eq, Structural)]
pub struct QhBufferPtrPage3P {
    raw: u32,
}

impl View for QhBufferPtrPage3P {
    type V = u32;

    closed spec fn view(&self) -> u32 {
        self.raw
    }
}

impl QhBufferPtrPage3P {
    /// The register value whose bits are `raw`.
    pub fn new_with_raw_value(raw: u32) -> (r: Self)
        ensures
            r@ == raw,
    {
        Self { raw }
    }

    /// The bits of this value.
    pub fn raw_value(&self) -> (r: u32)
        ensures
            r == self@,
    {
        self.raw
    }

    /// The value with every bit clear.
    pub fn zero() -> (r: Self)
        ensures
            r@ == 0,
    {
        Self { raw: 0 }
    }

    /// Bits 12 to 31 of the page address.
    pub fn ptr_upper(&self) -> (r: u32)
        ensures
            r == get_field(self@, 12, 20),
            r <= 0xf_ffff,
    {
        proof {
            lemma_field_mask_values();
        }
        read_field(self.raw, 12, 20)
    }

    /// This value with `ptr_upper` set to `value`.
    pub fn with_ptr_upper(self, value: u32) -> (r: Self)
        requires
            value <= 0xf_ffff,
        ensures
            r@ == set_field(self@, 12, 20, value as u32),
            get_field(r@, 12, 20) == value,
            forall|low2: u32, width2: u32|
                is_field(low2, width2) && disjoint_fields(12, 20, low2, width2)
                    ==> #[trigger] get_field(r@, low2, width2) == get_field(self@, low2, width2),
    {
        proof {
            lemma_field_mask_values();
        }
        Self { raw: write_field(self.raw, 12, 20, value) }
    }
}

impl AlternateQtdLinkPtr {
    /// The alternate link that is marked invalid.
    pub fn invalid() -> (r: Self)
        ensures
            r@ == set_bit(0, 0, true),
            get_bit(r@, 0),
    {
        Self { raw: write_bit(0, 0, true) }
    }
}

} // verus!
verus! {

/// The type of the data structure that a horizontal link points at.
#[derive(Debug, Clone, Copy, PartialEq, Eq, Structural)]
pub enum SelectType {
    /// Isochronous transfer descriptor.
    Itd,
    /// Queue head.
    Qh,
    /// Split transaction isochronous transfer descriptor.
    SplitItd,
    /// Frame span traversal node.
    Fstn,
}

impl SelectType {
    /// The two-bit code of this type in a link.
    pub open spec fn bits_spec(self) -> u8 {
        match self {
            SelectType::Itd => 0,
            SelectType::Qh => 1,
            SelectType::SplitItd => 2,
            SelectType::Fstn => 3,
        }
    }

    /// The two-bit code of this type in a link.
    pub fn bits(self) -> (r: u8)
        ensures
            r == self.bits_spec(),
            r <= 3,
    {
        match self {
            SelectType::Itd => 0,
            SelectType::Qh => 1,
            SelectType::SplitItd => 2,
            SelectType::Fstn => 3,
        }
    }
}

/// The horizontal link word that points at `ptr` with type `select_type`.
/// Bits 3 and 4 keep the value they have in `ptr`.
pub open spec fn horizontal_link(select_type: SelectType, ptr: u32) -> u32 {
    let typed = set_field(set_bit(ptr, 0, false), 1, 2, select_type.bits_spec() as u32);
    set_field(typed, 5, 27, ptr >> 5)
}

impl QueueHeadHorizontalLinkPtr {
    /// The link that is marked invalid.
    pub fn invalid() -> (r: Self)
        ensures
            r@ == set_bit(0, 0, true),
            get_bit(r@, 0),
    {
        Self { raw: write_bit(0, 0, true) }
    }

    /// The valid link to the data structure of type `select_type` at `ptr`.
    pub fn new(select_type: SelectType, ptr: u32) -> (r: Self)
        ensures
            r@ == horizontal_link(select_type, ptr),
            !get_bit(r@, 0),
            get_field(r@, 1, 2) == select_type.bits_spec(),
            get_field(r@, 5, 27) == ptr / 32,
    {
        proof {
            lemma_field_mask_values();
        }
        let a = write_bit(ptr, 0, false);
        let b = write_field(a, 1, 2, select_type.bits() as u32);
        let bits = link_pointer_bits(ptr);
        Self { raw: write_field(b, 5, 27, bits) }
    }

    /// The address this link points at, when it is valid.
    pub open spec fn target(self) -> int {
        get_field(self@, 5, 27) * 32
    }
}

impl CurrentQtdLinkPtr {
    /// The link to the transfer descriptor at `ptr`.
    pub fn new(ptr: u32) -> (r: Self)
        ensures
            r@ == set_field(0, 5, 27, ptr >> 5),
            get_field(r@, 5, 27) == ptr / 32,
            get_field(r@, 0, 5) == 0,
    {
        proof {
            lemma_zero_fields();
        }
        let bits = link_pointer_bits(ptr);
        Self { raw: write_field(0, 5, 27, bits) }
    }
}

/// The size in bytes that a transfer descriptor occupies in memory (it is
/// 32-byte aligned).
pub const QTD_SIZE: u32 = 64;

/// The size in bytes that a queue head occupies in memory (it is 32-byte
/// aligned).
pub const QUEUE_HEAD_SIZE: u32 = 96;

/// A queue head: an endpoint and the queue of transfers to it.
#[derive(Debug, Clone, Copy, PartialEq, Eq, Structural)]
pub struct QueueHead {
    pub queue_head_horizontal_link_ptr: QueueHeadHorizontalLinkPtr,
    pub endpoint_charactersistics: EndpointCharacteristics,
    pub endpoint_capabilities: EndpointCapabilities,
    pub current_qtd_pointer: CurrentQtdLinkPtr,
    pub next_qtd_pointer: NextQtdPointer,
    pub alternate_qtd_pointer: AlternateQtdLinkPtr,
    pub transfer_token: TransferToken,
    pub buffer_ptr_page_0: QhBufferPtrPage0,
    pub buffer_ptr_page_1: QhBufferPtrPage1,
    pub buffer_ptr_page_2: QhBufferPtrPage2,
    pub buffer_ptr_page_3: QhBufferPtrPage3P,
    pub buffer_ptr_page_4: QhBufferPtrPage3P,
    // The remaining fields exist if the controller is 64-bit capable.
    pub extended_buffer_ptr_page_0: u32,
    pub extended_buffer_ptr_page_1: u32,
    pub extended_buffer_ptr_page_2: u32,
    pub extended_buffer_ptr_page_3: u32,
    pub extended_buffer_ptr_page_4: u32,
}

/// The queue head `b` is `a` with another link to the next transfer descriptor.
pub open spec fn same_except_next_qtd(a: QueueHead, b: QueueHead) -> bool {
    b == QueueHead { next_qtd_pointer: b.next_qtd_pointer, ..a }
}

/// The descriptor `b` is `a` with another link to the next descriptor.
pub open spec fn qtd_same_except_next(a: Qtd, b: Qtd) -> bool {
    b == Qtd { next_qtd_ptr: b.next_qtd_ptr, ..a }
}

impl QueueHead {
    /// The queue head holds no transfer: the link to the next transfer
    /// descriptor is invalid and the overlay is empty.
    pub open spec fn has_empty_queue(self) -> bool {
        &&& self.next_qtd_pointer@ == invalid_qtd_link()
        &&& self.has_empty_overlay()
    }

    /// The current transfer descriptor link is 0, the alternate link is
    /// invalid, and the transfer token and buffer pointers are 0.
    pub open spec fn has_empty_overlay(self) -> bool {
        &&& self.current_qtd_pointer@ == 0
        &&& self.alternate_qtd_pointer@ == set_bit(0, 0, true)
        &&& self.transfer_token@ == 0
        &&& self.buffer_ptr_page_0@ == 0
        &&& self.buffer_ptr_page_1@ == 0
        &&& self.buffer_ptr_page_2@ == 0
        &&& self.buffer_ptr_page_3@ == 0
        &&& self.buffer_ptr_page_4@ == 0
        &&& self.extended_buffer_ptr_page_0 == 0
        &&& self.extended_buffer_ptr_page_1 == 0
        &&& self.extended_buffer_ptr_page_2 == 0
        &&& self.extended_buffer_ptr_page_3 == 0
        &&& self.extended_buffer_ptr_page_4 == 0
    }

    /// A queue head for the endpoint described by `endpoint_characteristics`
    /// and `endpoint_capabilities`, with an empty queue: its links are invalid
    /// and every other field is 0.
    pub fn new(
        endpoint_characteristics: EndpointCharacteristics,
        endpoint_capabilities: EndpointCapabilities,
    ) -> (r: Self)
        ensures
            r.queue_head_horizontal_link_ptr@ == set_bit(0, 0, true),
            r.endpoint_charactersistics == endpoint_characteristics,
            r.endpoint_capabilities == endpoint_capabilities,
            r.has_empty_queue(),
    {
        QueueHead {
            queue_head_horizontal_link_ptr: QueueHeadHorizontalLinkPtr::invalid(),
            endpoint_charactersistics: endpoint_characteristics,
            endpoint_capabilities,
            current_qtd_pointer: CurrentQtdLinkPtr::zero(),
            next_qtd_pointer: NextQtdPointer::invalid(),
            alternate_qtd_pointer: AlternateQtdLinkPtr::invalid(),
            transfer_token: TransferToken::zero(),
            buffer_ptr_page_0: QhBufferPtrPage0::zero(),
            buffer_ptr_page_1: QhBufferPtrPage1::zero(),
            buffer_ptr_page_2: QhBufferPtrPage2::zero(),
            buffer_ptr_page_3: QhBufferPtrPage3P::zero(),
            buffer_ptr_page_4: QhBufferPtrPage3P::zero(),
            extended_buffer_ptr_page_0: 0,
            extended_buffer_ptr_page_1: 0,
            extended_buffer_ptr_page_2: 0,
            extended_buffer_ptr_page_3: 0,
            extended_buffer_ptr_page_4: 0,
        }
    }

    /// Queues the descriptors `qtds`, which lie one after the other in memory
    /// from `first_qtd_addr` on, each `QTD_SIZE` bytes: this queue head links
    /// to the first, each descriptor links to the next, and the last one ends
    /// the list (with no descriptor, the queue head's link ends it). Nothing
    /// else changes.
    pub fn link_contiguous_qtds(&mut self, qtds: &mut Vec<Qtd>, first_qtd_addr: u32)
        requires
            old(qtds).len() >= 1 ==> first_qtd_addr + (old(qtds).len() - 1) * 64 <= u32::MAX,
        ensures
            old(qtds).len() >= 1 ==> final(self).next_qtd_pointer@ == valid_qtd_link(first_qtd_addr),
            old(qtds).len() == 0 ==> final(self).next_qtd_pointer@ == invalid_qtd_link(),
            same_except_next_qtd(*old(self), *final(self)),
            final(qtds).len() == old(qtds).len(),
            forall|i: int|
                0 <= i < final(qtds).len() - 1 ==> (#[trigger] final(qtds)[i]).next_qtd_ptr@
                    == valid_qtd_link((first_qtd_addr + (i + 1) * 64) as u32),
            final(qtds).len() >= 1 ==> final(qtds)[final(qtds).len() - 1].next_qtd_ptr@
                == invalid_qtd_link(),
            forall|i: int|
                0 <= i < final(qtds).len() ==> qtd_same_except_next(
                    old(qtds)[i],
                    #[trigger] final(qtds)[i],
                ),
    {
        let n = qtds.len();
        if n == 0 {
            self.next_qtd_pointer = NextQtdPointer::invalid();
            return;
        }
        self.next_qtd_pointer = NextQtdPointer::new_valid(first_qtd_addr);
        let mut i: usize = 0;
        while i < n
            invariant
                n == qtds.len(),
                n == old(qtds).len(),
                n >= 1,
                i <= n,
                first_qtd_addr + (n - 1) * 64 <= u32::MAX,
                forall|j: int|
                    0 <= j < i && j < n - 1 ==> (#[trigger] qtds[j]).next_qtd_ptr@
                        == valid_qtd_link((first_qtd_addr + (j + 1) * 64) as u32),
                i == n ==> qtds[n - 1].next_qtd_ptr@ == invalid_qtd_link(),
                forall|j: int|
                    0 <= j < n ==> qtd_same_except_next(old(qtds)[j], #[trigger] qtds[j]),
            decreases n - i,
        {
            let mut q = qtds[i];
            if i + 1 < n {
                let next_addr = first_qtd_addr + (i as u32 + 1) * 64;
                q.next_qtd_ptr = NextQtdPointer::new_valid(next_addr);
            } else {
                q.next_qtd_ptr = NextQtdPointer::invalid();
            }
            qtds.set(i, q);
            i = i + 1;
        }
    }
}

} // verus!
