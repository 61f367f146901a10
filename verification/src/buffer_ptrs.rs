//! The five 4 KiB pages that a transfer descriptor's buffer may span.
use vstd::prelude::*;

verus! {

/// The page-aligned addresses of five consecutive 4 KiB pages and the offset
/// of the buffer's first byte in the first page.
#[derive(Debug, Clone, Copy)]
pub struct BufferPtrs {
    ptrs: [u64; 5],
    offset: u16,
}

impl BufferPtrs {
    #[verifier::type_invariant]
    spec fn aligned(self) -> bool {
        &&& forall|i: int| 0 <= i < 5 ==> #[trigger] self.ptrs[i] % 0x1000 == 0
        &&& self.offset < 0x1000
    }

    /// The address of page `i`.
    pub closed spec fn page(self, i: int) -> u64 {
        self.ptrs[i]
    }

    /// The offset of the buffer in page 0.
    pub closed spec fn offset_spec(self) -> u16 {
        self.offset
    }

    /// The pages of the buffer that starts at `ptr` and is `len` bytes long:
    /// page 0 is the page that holds `ptr`, pages 1 to 4 follow it.
    ///
    /// A buffer longer than five pages is refused. The buffer's offset in its
    /// first page is not counted in that bound, so a buffer with
    /// `ptr % 0x1000 + len > 0x5000` is accepted though its end lies past the
    /// fifth page.
    pub fn new_contiguous(ptr: u64, len: u64) -> (r: Self)
        requires
            ptr - ptr % 0x1000 + 0x5000 <= u64::MAX,
            len <= 0x5000,
        ensures
            r.offset_spec() == ptr % 0x1000,
            forall|i: int| 0 <= i < 5 ==> #[trigger] r.page(i) == ptr - ptr % 0x1000 + 0x1000 * i,
            r.page(0) + r.offset_spec() == ptr,
            ptr % 0x1000 + len <= 0x5000 ==> ptr + len <= r.page(4) + 0x1000,
    {
        let offset = ptr % 0x1000;
        let page_0_ptr = ptr - offset;
        let r = Self {
            ptrs: [
                page_0_ptr,
                page_0_ptr + 0x1000,
                page_0_ptr + 0x1000 * 2,
                page_0_ptr + 0x1000 * 3,
                page_0_ptr + 0x1000 * 4,
            ],
            offset: offset as u16,
        };
        assert forall|i: int| 0 <= i < 5 implies #[trigger] r.ptrs[i] == ptr - ptr % 0x1000 + 0x1000
            * i by {
            if i == 0 {
            } else if i == 1 {
            } else if i == 2 {
            } else if i == 3 {
            } else {
            }
        }
        r
    }

    /// No buffer: every page address and the offset are 0.
    pub fn empty() -> (r: Self)
        ensures
            r.offset_spec() == 0,
            forall|i: int| 0 <= i < 5 ==> #[trigger] r.page(i) == 0,
    {
        let r = Self { ptrs: [0; 5], offset: 0 };
        assert forall|i: int| 0 <= i < 5 implies #[trigger] r.ptrs[i] == 0 by {
            assert(r.ptrs@[i] == 0);
        }
        r
    }

    /// The offset of the buffer in page 0.
    pub fn offset(&self) -> (r: u16)
        ensures
            r == self.offset_spec(),
            r < 0x1000,
    {
        proof {
            use_type_invariant(self);
        }
        self.offset
    }

    /// Bits 12 to 31 of the address of page `index`.
    pub fn ptr_bits_12_31(&self, index: usize) -> (r: u32)
        requires
            index < 5,
        ensures
            r == (self.page(index as int) / 0x1000) % 0x10_0000,
            self.page(index as int) % 0x1000 == 0,
    {
        proof {
            use_type_invariant(self);
        }
        ((self.ptrs[index] / 0x1000) % 0x10_0000) as u32
    }

    /// Bits 32 to 63 of the address of page `index`.
    pub fn ptr_bits_32_63(&self, index: usize) -> (r: u32)
        requires
            index < 5,
        ensures
            r == self.page(index as int) / 0x1_0000_0000,
    {
        (self.ptrs[index] / 0x1_0000_0000) as u32
    }
}

} // verus!
