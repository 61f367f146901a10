//! Queue element transfer descriptors.
use vstd::prelude::*;

use crate::buffer_ptrs::BufferPtrs;
use crate::queue_head::AlternateQtdLinkPtr;
use crate::transfer_token::TransferToken;
use crate::bitfield::{
    disjoint_fields, get_bit, get_field, is_field, lemma_field_mask_values, lemma_zero_fields,
    link_pointer_bits, read_bit, read_field, set_bit, set_field, write_bit, write_field,
};

verus! {

/// The link from a transfer descriptor (or queue head) to the next transfer descriptor.
#[derive(Clone, Copy, Debug, PartialEq, Eq, Structural)]
pub struct NextQtdPointer {
    raw: u32,
}

impl View for NextQtdPointer {
    type V = u32;

    closed spec fn view(&self) -> u32 {
        self.raw
    }
}

impl NextQtdPointer {
    /// The register value whose bits are `raw`.
    pub fn new_with_raw_value(raw: u32) -> (r: Self)
        ensures
            r@ == raw,
    {
        Self { raw }
    }

    /// The bits of this value.
    pub fn raw_value(&self) -> (r: u32)
        ensures
            r == self@,
    {
        self.raw
    }

    /// 0: the pointer is valid; 1: the pointer is invalid.
    pub fn terminate(&self) -> (r: bool)
        ensures
            r == get_bit(self@, 0),
    {
        read_bit(self.raw, 0)
    }

    /// This value with `terminate` set to `value`.
    pub fn with_terminate(self, value: bool) -> (r: Self)
        ensures
            r@ == set_bit(self@, 0, value),
            get_bit(r@, 0) == value,
            forall|low: u32, width: u32|
                is_field(low, width) && disjoint_fields(0, 1, low, width)
                    ==> #[trigger] get_field(r@, low, width) == get_field(self@, low, width),
    {
        Self { raw: write_bit(self.raw, 0, value) }
    }

    /// Bits 5 to 31 of the address of the next transfer descriptor.
    pub fn addr_upper(&self) -> (r: u32)
        ensures
            r == get_field(self@, 5, 27),
            r <= 0x7ff_ffff,
    {
        proof {
            lemma_field_mask_values();
        }
        read_field(self.raw, 5, 27)
    }

    /// This value with `addr_upper` set to `value`.
    pub fn with_addr_upper(self, value: u32) -> (r: Self)
        requires
            value <= 0x7ff_ffff,
        ensures
            r@ == set_field(self@, 5, 27, value as u32),
            get_field(r@, 5, 27) == value,
            forall|low2: u32, width2: u32|
                is_field(low2, width2) && disjoint_fields(5, 27, low2, width2)
                    ==> #[trigger] get_field(r@, low2, width2) == get_field(self@, low2, width2),
    {
        proof {
            lemma_field_mask_values();
        }
        Self { raw: write_field(self.raw, 5, 27, value) }
    }
}

/// The first buffer page pointer of a transfer descriptor.
#[derive(Clone, Copy, Debug, PartialEq, Eq, Structural)]
pub struct QtdBufferPagePointerPage0 {
    raw: u32,
}

impl View for QtdBufferPagePointerPage0 {
    type V = u32;

    closed spec fn view(&self) -> u32 {
        self.raw
    }
}

impl QtdBufferPagePointerPage0 {
    /// The register value whose bits are `raw`.
    pub fn new_with_raw_value(raw: u32) -> (r: Self)
        ensures
            r@ == raw,
    {
        Self { raw }
    }

    /// The bits of this value.
    pub fn raw_value(&self) -> (r: u32)
        ensures
            r == self@,
    {
        self.raw
    }

    /// The value with every bit clear.
    pub fn zero() -> (r: Self)
        ensures
            r@ == 0,
    {
        Self { raw: 0 }
    }

    /// Offset into the current page.
    pub fn current_offset(&self) -> (r: u16)
        ensures
            r == get_field(self@, 0, 12),
            r <= 0xfff,
    {
        proof {
            lemma_field_mask_values();
        }
        read_field(self.raw, 0, 12) as u16
    }

    /// This value with `current_offset` set to `value`.
    pub fn with_current_offset(self, value: u16) -> (r: Self)
        requires
            value <= 0xfff,
        ensures
            r@ == set_field(self@, 0, 12, value as u32),
            get_field(r@, 0, 12) == value,
            forall|low2: u32, width2: u32|
                is_field(low2, width2) && disjoint_fields(0, 12, low2, width2)
                    ==> #[trigger] get_field(r@, low2, width2) == get_field(self@, low2, width2),
    {
        proof {
            lemma_field_mask_values();
        }
        Self { raw: write_field(self.raw, 0, 12, value as u32) }
    }

    /// Bits 12 to 31 of the page address.
    pub fn ptr_upper(&self) -> (r: u32)
        ensures
            r == get_field(self@, 12, 20),
            r <= 0xf_ffff,
    {
        proof {
            lemma_field_mask_values();
        }
        read_field(self.raw, 12, 20)
    }

    /// This value with `ptr_upper` set to `value`.
    pub fn with_ptr_upper(self, value: u32) -> (r: Self)
        requires
            value <= 0xf_ffff,
        ensures
            r@ == set_field(self@, 12, 20, value as u32),
            get_field(r@, 12, 20) == value,
            forall|low2: u32, width2: u32|
                is_field(low2, width2) && disjoint_fields(12, 20, low2, width2)
                    ==> #[trigger] get_field(r@, low2, width2) == get_field(self@, low2, width2),
    {
        proof {
            lemma_field_mask_values();
        }
        Self { raw: write_field(self.raw, 12, 20, value) }
    }
}

/// A further buffer page pointer of a transfer descriptor.
#[derive(Clone, Copy, Debug, PartialEq, Eq, Structural)]
pub struct QtdBufferPagePointerPage1Plus {
    raw: u32,
}

impl View for QtdBufferPagePointerPage1Plus {
    type V = u32;

    closed spec fn view(&self) -> u32 {
        self.raw
    }
}

impl QtdBufferPagePointerPage1Plus {
    /// The register value whose bits are `raw`.
    pub fn new_with_raw_value(raw: u32) -> (r: Self)
        ensures
            r@ == raw,
    {
        Self { raw }
    }

    /// The bits of this value.
    pub fn raw_value(&self) -> (r: u32)
        ensures
            r == self@,
    {
        self.raw
    }

    /// The value with every bit clear.
    pub fn zero() -> (r: Self)
        ensures
            r@ == 0,
    {
        Self { raw: 0 }
    }

    /// Bits 12 to 31 of the page address.
    pub fn ptr_upper(&self) -> (r: u32)
        ensures
            r == get_field(self@, 12, 20),
            r <= 0xf_ffff,
    {
        proof {
            lemma_field_mask_values();
        }
        read_field(self.raw, 12, 20)
    }

    /// This value with `ptr_upper` set to `value`.
    pub fn with_ptr_upper(self, value: u32) -> (r: Self)
        requires
            value <= 0xf_ffff,
        ensures
            r@ == set_field(self@, 12, 20, value as u32),
            get_field(r@, 12, 20) == value,
            forall|low2: u32, width2: u32|
                is_field(low2, width2) && disjoint_fields(12, 20, low2, width2)
                    ==> #[trigger] get_field(r@, low2, width2) == get_field(self@, low2, width2),
    {
        proof {
            lemma_field_mask_values();
        }
        Self { raw: write_field(self.raw, 12, 20, value) }
    }
}

/// The link word that points at the transfer descriptor at `addr` (rounded
/// down to 32 bytes) and is marked valid.
pub open spec fn valid_qtd_link(addr: u32) -> u32 {
    set_field(set_bit(0, 0, false), 5, 27, addr >> 5)
}

/// The link word that is marked invalid: the list ends here.
pub open spec fn invalid_qtd_link() -> u32 {
    set_bit(0, 0, true)
}

impl NextQtdPointer {
    /// The link that ends a list of transfer descriptors.
    pub fn invalid() -> (r: Self)
        ensures
            r@ == invalid_qtd_link(),
            get_bit(r@, 0),
    {
        Self { raw: write_bit(0, 0, true) }
    }

    /// The link to the transfer descriptor at `addr`.
    pub fn new_valid(addr: u32) -> (r: Self)
        ensures
            r@ == valid_qtd_link(addr),
            !get_bit(r@, 0),
            get_field(r@, 5, 27) == addr / 32,
    {
        let a = write_bit(0, 0, false);
        let bits = link_pointer_bits(addr);
        Self { raw: write_field(a, 5, 27, bits) }
    }
}

/// Bits 12 to 31 of the page address `page`, as a buffer page pointer holds them.
pub open spec fn page_bits(page: u64) -> u32 {
    ((page / 0x1000) % 0x10_0000) as u32
}

/// Splitting a page-aligned 64-bit address into bits 32 to 63 and bits 12 to
/// 31 loses nothing.
pub proof fn lemma_page_address_split(page: u64)
    requires
        page % 0x1000 == 0,
    ensures
        (page / 0x1_0000_0000) * 0x1_0000_0000 + ((page / 0x1000) % 0x10_0000) * 0x1000 == page,
{
    let q = page / 0x1000;
    assert(page == q * 0x1000);
    vstd::arithmetic::div_mod::lemma_div_denominator(page as int, 0x1000, 0x10_0000);
    assert(page / 0x1_0000_0000 == q / 0x10_0000);
    assert(q == (q / 0x10_0000) * 0x10_0000 + q % 0x10_0000);
    let high = q / 0x10_0000;
    let low = q % 0x10_0000;
    assert((high * 0x10_0000 + low) * 0x1000 == high * 0x1_0000_0000 + low * 0x1000)
        by (nonlinear_arith);
}

/// A queue element transfer descriptor (qTD): one transfer of up to five
/// pages of data.
#[derive(Debug, Clone, Copy, PartialEq, Eq, Structural)]
pub struct QueueElementTransferDescriptor {
    pub next_qtd_ptr: NextQtdPointer,
    pub alternate_next_qtd_ptr: AlternateQtdLinkPtr,
    pub qtd_token: TransferToken,
    pub buffer_pointer_page_0: QtdBufferPagePointerPage0,
    pub buffer_pointer_page_1: QtdBufferPagePointerPage1Plus,
    pub buffer_pointer_page_2: QtdBufferPagePointerPage1Plus,
    pub buffer_pointer_page_3: QtdBufferPagePointerPage1Plus,
    pub buffer_pointer_page_4: QtdBufferPagePointerPage1Plus,
    // The remaining fields exist if the controller is 64-bit capable.
    pub extended_buffer_ptr_page_0: u32,
    pub extended_buffer_ptr_page_1: u32,
    pub extended_buffer_ptr_page_2: u32,
    pub extended_buffer_ptr_page_3: u32,
    pub extended_buffer_ptr_page_4: u32,
}

/// Short name of a queue element transfer descriptor.
pub type Qtd = QueueElementTransferDescriptor;

impl QueueElementTransferDescriptor {
    /// The 64-bit address of buffer page `i` that this descriptor holds.
    pub open spec fn buffer_page_address(self, i: int) -> int {
        if i == 0 {
            self.extended_buffer_ptr_page_0 * 0x1_0000_0000
                + get_field(self.buffer_pointer_page_0@, 12, 20) * 0x1000
        } else if i == 1 {
            self.extended_buffer_ptr_page_1 * 0x1_0000_0000
                + get_field(self.buffer_pointer_page_1@, 12, 20) * 0x1000
        } else if i == 2 {
            self.extended_buffer_ptr_page_2 * 0x1_0000_0000
                + get_field(self.buffer_pointer_page_2@, 12, 20) * 0x1000
        } else if i == 3 {
            self.extended_buffer_ptr_page_3 * 0x1_0000_0000
                + get_field(self.buffer_pointer_page_3@, 12, 20) * 0x1000
        } else {
            self.extended_buffer_ptr_page_4 * 0x1_0000_0000
                + get_field(self.buffer_pointer_page_4@, 12, 20) * 0x1000
        }
    }

    /// A descriptor for a transfer with token `qtd_token` over the buffer
    /// `buffer_ptrs`, with no next or alternate descriptor.
    pub fn new(qtd_token: TransferToken, buffer_ptrs: BufferPtrs) -> (r: Self)
        ensures
            r.next_qtd_ptr@ == invalid_qtd_link(),
            r.alternate_next_qtd_ptr@ == set_bit(0, 0, true),
            r.qtd_token == qtd_token,
            r.buffer_pointer_page_0@ == set_field(
                set_field(0, 0, 12, buffer_ptrs.offset_spec() as u32),
                12,
                20,
                page_bits(buffer_ptrs.page(0)),
            ),
            r.buffer_pointer_page_1@ == set_field(0, 12, 20, page_bits(buffer_ptrs.page(1))),
            r.buffer_pointer_page_2@ == set_field(0, 12, 20, page_bits(buffer_ptrs.page(2))),
            r.buffer_pointer_page_3@ == set_field(0, 12, 20, page_bits(buffer_ptrs.page(3))),
            r.buffer_pointer_page_4@ == set_field(0, 12, 20, page_bits(buffer_ptrs.page(4))),
            r.extended_buffer_ptr_page_0 == buffer_ptrs.page(0) / 0x1_0000_0000,
            r.extended_buffer_ptr_page_1 == buffer_ptrs.page(1) / 0x1_0000_0000,
            r.extended_buffer_ptr_page_2 == buffer_ptrs.page(2) / 0x1_0000_0000,
            r.extended_buffer_ptr_page_3 == buffer_ptrs.page(3) / 0x1_0000_0000,
            r.extended_buffer_ptr_page_4 == buffer_ptrs.page(4) / 0x1_0000_0000,
            forall|i: int|
                0 <= i < 5 ==> #[trigger] r.buffer_page_address(i) == buffer_ptrs.page(i),
            get_field(r.buffer_pointer_page_0@, 0, 12) == buffer_ptrs.offset_spec(),
            get_field(r.buffer_pointer_page_1@, 0, 12) == 0,
            get_field(r.buffer_pointer_page_2@, 0, 12) == 0,
            get_field(r.buffer_pointer_page_3@, 0, 12) == 0,
            get_field(r.buffer_pointer_page_4@, 0, 12) == 0,
    {
        proof {
            lemma_field_mask_values();
            lemma_zero_fields();
        }
        let offset = buffer_ptrs.offset();
        let p0 = buffer_ptrs.ptr_bits_12_31(0);
        let p1 = buffer_ptrs.ptr_bits_12_31(1);
        let p2 = buffer_ptrs.ptr_bits_12_31(2);
        let p3 = buffer_ptrs.ptr_bits_12_31(3);
        let p4 = buffer_ptrs.ptr_bits_12_31(4);
        let page_0 = QtdBufferPagePointerPage0::new_with_raw_value(
            write_field(write_field(0, 0, 12, offset as u32), 12, 20, p0),
        );
        let r = Self {
            next_qtd_ptr: NextQtdPointer::invalid(),
            alternate_next_qtd_ptr: AlternateQtdLinkPtr::invalid(),
            qtd_token,
            buffer_pointer_page_0: page_0,
            buffer_pointer_page_1: QtdBufferPagePointerPage1Plus::new_with_raw_value(
                write_field(0, 12, 20, p1),
            ),
            buffer_pointer_page_2: QtdBufferPagePointerPage1Plus::new_with_raw_value(
                write_field(0, 12, 20, p2),
            ),
            buffer_pointer_page_3: QtdBufferPagePointerPage1Plus::new_with_raw_value(
                write_field(0, 12, 20, p3),
            ),
            buffer_pointer_page_4: QtdBufferPagePointerPage1Plus::new_with_raw_value(
                write_field(0, 12, 20, p4),
            ),
            extended_buffer_ptr_page_0: buffer_ptrs.ptr_bits_32_63(0),
            extended_buffer_ptr_page_1: buffer_ptrs.ptr_bits_32_63(1),
            extended_buffer_ptr_page_2: buffer_ptrs.ptr_bits_32_63(2),
            extended_buffer_ptr_page_3: buffer_ptrs.ptr_bits_32_63(3),
            extended_buffer_ptr_page_4: buffer_ptrs.ptr_bits_32_63(4),
        };
        proof {
            assert forall|i: int| 0 <= i < 5 implies #[trigger] r.buffer_page_address(i)
                == buffer_ptrs.page(i) by {
                lemma_page_address_split(buffer_ptrs.page(i));
            }
        }
        r
    }
}

} // verus!
