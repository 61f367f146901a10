//! The transfer token of queue heads and queue element transfer descriptors.
use vstd::prelude::*;

use crate::bitfield::{
    disjoint_fields, get_bit, get_field, is_field, lemma_field_mask_values, lemma_zero_fields,
    read_bit, read_field, set_bit, set_field, write_bit, write_field,
};

verus! {

/// The status and control word of a transfer.
#[derive(Clone, Copy, Debug, PartialEq, Eq, Structural)]
pub struct TransferToken {
    raw: u32,
}

impl View for TransferToken {
    type V = u32;

    closed spec fn view(&self) -> u32 {
        self.raw
    }
}

impl TransferToken {
    /// The register value whose bits are `raw`.
    pub fn new_with_raw_value(raw: u32) -> (r: Self)
        ensures
            r@ == raw,
    {
        Self { raw }
    }

    /// The bits of this value.
    pub fn raw_value(&self) -> (r: u32)
        ensures
            r == self@,
    {
        self.raw
    }

    /// The value with every bit clear.
    pub fn zero() -> (r: Self)
        ensures
            r@ == 0,
    {
        Self { raw: 0 }
    }

    /// Ping state or error.
    pub fn ping_state(&self) -> (r: bool)
        ensures
            r == get_bit(self@, 0),
    {
        read_bit(self.raw, 0)
    }

    /// This value with `ping_state` set to `value`.
    pub fn with_ping_state(self, value: bool) -> (r: Self)
        ensures
            r@ == set_bit(self@, 0, value),
            get_bit(r@, 0) == value,
            forall|low: u32, width: u32|
                is_field(low, width) && disjoint_fields(0, 1, low, width)
                    ==> #[trigger] get_field(r@, low, width) == get_field(self@, low, width),
    {
        Self { raw: write_bit(self.raw, 0, value) }
    }

    /// Split transaction state.
    pub fn split_transaction_state(&self) -> (r: bool)
        ensures
            r == get_bit(self@, 1),
    {
        read_bit(self.raw, 1)
    }

    /// This value with `split_transaction_state` set to `value`.
    pub fn with_split_transaction_state(self, value: bool) -> (r: Self)
        ensures
            r@ == set_bit(self@, 1, value),
            get_bit(r@, 1) == value,
            forall|low: u32, width: u32|
                is_field(low, width) && disjoint_fields(1, 1, low, width)
                    ==> #[trigger] get_field(r@, low, width) == get_field(self@, low, width),
    {
        Self { raw: write_bit(self.raw, 1, value) }
    }

    /// A split transaction missed a micro-frame.
    pub fn missed_micro_frames(&self) -> (r: bool)
        ensures
            r == get_bit(self@, 2),
    {
        read_bit(self.raw, 2)
    }

    /// This value with `missed_micro_frames` set to `value`.
    pub fn with_missed_micro_frames(self, value: bool) -> (r: Self)
        ensures
            r@ == set_bit(self@, 2, value),
            get_bit(r@, 2) == value,
            forall|low: u32, width: u32|
                is_field(low, width) && disjoint_fields(2, 1, low, width)
                    ==> #[trigger] get_field(r@, low, width) == get_field(self@, low, width),
    {
        Self { raw: write_bit(self.raw, 2, value) }
    }

    /// A transaction error occurred.
    pub fn transaction_error(&self) -> (r: bool)
        ensures
            r == get_bit(self@, 3),
    {
        read_bit(self.raw, 3)
    }

    /// This value with `transaction_error` set to `value`.
    pub fn with_transaction_error(self, value: bool) -> (r: Self)
        ensures
            r@ == set_bit(self@, 3, value),
            get_bit(r@, 3) == value,
            forall|low: u32, width: u32|
                is_field(low, width) && disjoint_fields(3, 1, low, width)
                    ==> #[trigger] get_field(r@, low, width) == get_field(self@, low, width),
    {
        Self { raw: write_bit(self.raw, 3, value) }
    }

    /// Babble was detected.
    pub fn babble_detected(&self) -> (r: bool)
        ensures
            r == get_bit(self@, 4),
    {
        read_bit(self.raw, 4)
    }

    /// This value with `babble_detected` set to `value`.
    pub fn with_babble_detected(self, value: bool) -> (r: Self)
        ensures
            r@ == set_bit(self@, 4, value),
            get_bit(r@, 4) == value,
            forall|low: u32, width: u32|
                is_field(low, width) && disjoint_fields(4, 1, low, width)
                    ==> #[trigger] get_field(r@, low, width) == get_field(self@, low, width),
    {
        Self { raw: write_bit(self.raw, 4, value) }
    }

    /// A data buffer overrun or underrun occurred.
    pub fn data_buffer_error(&self) -> (r: bool)
        ensures
            r == get_bit(self@, 5),
    {
        read_bit(self.raw, 5)
    }

    /// This value with `data_buffer_error` set to `value`.
    pub fn with_data_buffer_error(self, value: bool) -> (r: Self)
        ensures
            r@ == set_bit(self@, 5, value),
            get_bit(r@, 5) == value,
            forall|low: u32, width: u32|
                is_field(low, width) && disjoint_fields(5, 1, low, width)
                    ==> #[trigger] get_field(r@, low, width) == get_field(self@, low, width),
    {
        Self { raw: write_bit(self.raw, 5, value) }
    }

    /// The transfer halted on an error.
    pub fn halted(&self) -> (r: bool)
        ensures
            r == get_bit(self@, 6),
    {
        read_bit(self.raw, 6)
    }

    /// This value with `halted` set to `value`.
    pub fn with_halted(self, value: bool) -> (r: Self)
        ensures
            r@ == set_bit(self@, 6, value),
            get_bit(r@, 6) == value,
            forall|low: u32, width: u32|
                is_field(low, width) && disjoint_fields(6, 1, low, width)
                    ==> #[trigger] get_field(r@, low, width) == get_field(self@, low, width),
    {
        Self { raw: write_bit(self.raw, 6, value) }
    }

    /// The controller still has to execute the transfer.
    pub fn active(&self) -> (r: bool)
        ensures
            r == get_bit(self@, 7),
    {
        read_bit(self.raw, 7)
    }

    /// This value with `active` set to `value`.
    pub fn with_active(self, value: bool) -> (r: Self)
        ensures
            r@ == set_bit(self@, 7, value),
            get_bit(r@, 7) == value,
            forall|low: u32, width: u32|
                is_field(low, width) && disjoint_fields(7, 1, low, width)
                    ==> #[trigger] get_field(r@, low, width) == get_field(self@, low, width),
    {
        Self { raw: write_bit(self.raw, 7, value) }
    }

    /// The token of the transfer: 0 OUT, 1 IN, 2 SETUP.
    pub fn pid_code(&self) -> (r: u8)
        ensures
            r == get_field(self@, 8, 2),
            r <= 0x3,
    {
        proof {
            lemma_field_mask_values();
        }
        read_field(self.raw, 8, 2) as u8
    }

    /// This value with `pid_code` set to `value`.
    pub fn with_pid_code(self, value: u8) -> (r: Self)
        requires
            value <= 0x3,
        ensures
            r@ == set_field(self@, 8, 2, value as u32),
            get_field(r@, 8, 2) == value,
            forall|low2: u32, width2: u32|
                is_field(low2, width2) && disjoint_fields(8, 2, low2, width2)
                    ==> #[trigger] get_field(r@, low2, width2) == get_field(self@, low2, width2),
    {
        proof {
            lemma_field_mask_values();
        }
        Self { raw: write_field(self.raw, 8, 2, value as u32) }
    }

    /// Remaining consecutive errors allowed.
    pub fn error_counter(&self) -> (r: u8)
        ensures
            r == get_field(self@, 10, 2),
            r <= 0x3,
    {
        proof {
            lemma_field_mask_values();
        }
        read_field(self.raw, 10, 2) as u8
    }

    /// This value with `error_counter` set to `value`.
    pub fn with_error_counter(self, value: u8) -> (r: Self)
        requires
            value <= 0x3,
        ensures
            r@ == set_field(self@, 10, 2, value as u32),
            get_field(r@, 10, 2) == value,
            forall|low2: u32, width2: u32|
                is_field(low2, width2) && disjoint_fields(10, 2, low2, width2)
                    ==> #[trigger] get_field(r@, low2, width2) == get_field(self@, low2, width2),
    {
        proof {
            lemma_field_mask_values();
        }
        Self { raw: write_field(self.raw, 10, 2, value as u32) }
    }

    /// Index of the current buffer page.
    pub fn current_page(&self) -> (r: u8)
        ensures
            r == get_field(self@, 12, 3),
            r <= 0x7,
    {
        proof {
            lemma_field_mask_values();
        }
        read_field(self.raw, 12, 3) as u8
    }

    /// This value with `current_page` set to `value`.
    pub fn with_current_page(self, value: u8) -> (r: Self)
        requires
            value <= 0x7,
        ensures
            r@ == set_field(self@, 12, 3, value as u32),
            get_field(r@, 12, 3) == value,
            forall|low2: u32, width2: u32|
                is_field(low2, width2) && disjoint_fields(12, 3, low2, width2)
                    ==> #[trigger] get_field(r@, low2, width2) == get_field(self@, low2, width2),
    {
        proof {
            lemma_field_mask_values();
        }
        Self { raw: write_field(self.raw, 12, 3, value as u32) }
    }

    /// Interrupt when the transfer completes.
    pub fn interrupt_on_complete(&self) -> (r: bool)
        ensures
            r == get_bit(self@, 15),
    {
        read_bit(self.raw, 15)
    }

    /// This value with `interrupt_on_complete` set to `value`.
    pub fn with_interrupt_on_complete(self, value: bool) -> (r: Self)
        ensures
            r@ == set_bit(self@, 15, value),
            get_bit(r@, 15) == value,
            forall|low: u32, width: u32|
                is_field(low, width) && disjoint_fields(15, 1, low, width)
                    ==> #[trigger] get_field(r@, low, width) == get_field(self@, low, width),
    {
        Self { raw: write_bit(self.raw, 15, value) }
    }

    /// Bytes still to transfer.
    pub fn total_bytes_to_transfer(&self) -> (r: u16)
        ensures
            r == get_field(self@, 16, 15),
            r <= 0x7fff,
    {
        proof {
            lemma_field_mask_values();
        }
        read_field(self.raw, 16, 15) as u16
    }

    /// This value with `total_bytes_to_transfer` set to `value`.
    pub fn with_total_bytes_to_transfer(self, value: u16) -> (r: Self)
        requires
            value <= 0x7fff,
        ensures
            r@ == set_field(self@, 16, 15, value as u32),
            get_field(r@, 16, 15) == value,
            forall|low2: u32, width2: u32|
                is_field(low2, width2) && disjoint_fields(16, 15, low2, width2)
                    ==> #[trigger] get_field(r@, low2, width2) == get_field(self@, low2, width2),
    {
        proof {
            lemma_field_mask_values();
        }
        Self { raw: write_field(self.raw, 16, 15, value as u32) }
    }

    /// Data toggle.
    pub fn data_toggle(&self) -> (r: bool)
        ensures
            r == get_bit(self@, 31),
    {
        read_bit(self.raw, 31)
    }

    /// This value with `data_toggle` set to `value`.
    pub fn with_data_toggle(self, value: bool) -> (r: Self)
        ensures
            r@ == set_bit(self@, 31, value),
            get_bit(r@, 31) == value,
            forall|low: u32, width: u32|
                is_field(low, width) && disjoint_fields(31, 1, low, width)
                    ==> #[trigger] get_field(r@, low, width) == get_field(self@, low, width),
    {
        Self { raw: write_bit(self.raw, 31, value) }
    }
}

/// The token a transfer descriptor sends.
#[derive(Debug, Clone, Copy, PartialEq, Eq, Structural)]
pub enum PidCode {
    OutToken,
    InToken,
    SetupToken,
}

impl PidCode {
    /// The two-bit code of this token in a transfer token.
    pub open spec fn bits_spec(self) -> u8 {
        match self {
            PidCode::OutToken => 0,
            PidCode::InToken => 1,
            PidCode::SetupToken => 2,
        }
    }

    /// The two-bit code of this token in a transfer token.
    pub fn bits(self) -> (r: u8)
        ensures
            r == self.bits_spec(),
            r <= 3,
    {
        match self {
            PidCode::OutToken => 0,
            PidCode::InToken => 1,
            PidCode::SetupToken => 2,
        }
    }
}

/// The transfer token of a transfer that the controller still has to execute:
/// only the active bit, the token and the byte count are set.
pub open spec fn active_token(pid: PidCode, total_bytes: u16) -> u32 {
    let with_pid = set_field(set_bit(0, 7, true), 8, 2, pid.bits_spec() as u32);
    set_field(with_pid, 16, 15, total_bytes as u32)
}

impl TransferToken {
    /// The token of a transfer of `total_bytes` bytes with token `pid` that the
    /// controller still has to execute. Every other field is 0.
    pub fn new_active(pid: PidCode, total_bytes: u16) -> (r: Self)
        requires
            total_bytes <= 0x7fff,
        ensures
            r@ == active_token(pid, total_bytes),
            get_bit(r@, 7),
            get_field(r@, 8, 2) == pid.bits_spec(),
            get_field(r@, 16, 15) == total_bytes,
            get_field(r@, 0, 7) == 0,
            get_field(r@, 10, 6) == 0,
            get_field(r@, 31, 1) == 0,
    {
        proof {
            lemma_field_mask_values();
            lemma_zero_fields();
        }
        let a = write_bit(0, 7, true);
        let b = write_field(a, 8, 2, pid.bits() as u32);
        let c = write_field(b, 16, 15, total_bytes as u32);
        Self { raw: c }
    }
}

} // verus!
