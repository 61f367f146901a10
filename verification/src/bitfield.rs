//! Bit fields of 32-bit hardware words.
//!
//! A field is a run of `width` bits starting at bit `low`. Every register and
//! descriptor word of the controller is described by its fields; the functions
//! here read and replace one field of a word and leave every other bit alone.
use vstd::prelude::*;

verus! {

/// The value with the low `width` bits set.
pub open spec fn field_mask(width: u32) -> u32 {
    !(0xffff_ffffu32 << width)
}

/// A field of `width` bits at bit `low` lies inside a 32-bit word and is
/// narrower than the word.
pub open spec fn is_field(low: u32, width: u32) -> bool {
    1 <= width < 32 && low + width <= 32
}

/// Two fields share no bit.
pub open spec fn disjoint_fields(low: u32, width: u32, low2: u32, width2: u32) -> bool {
    low2 + width2 <= low || low + width <= low2
}

/// The value held by the field of `width` bits at bit `low` of `raw`.
pub open spec fn get_field(raw: u32, low: u32, width: u32) -> u32 {
    (raw >> low) & field_mask(width)
}

/// `raw` with the field of `width` bits at bit `low` replaced by `value`.
pub open spec fn set_field(raw: u32, low: u32, width: u32, value: u32) -> u32 {
    (raw & !(field_mask(width) << low)) | (value << low)
}

/// Bit `bit` of `raw` is set.
pub open spec fn get_bit(raw: u32, bit: u32) -> bool {
    get_field(raw, bit, 1) == 1
}

/// `raw` with bit `bit` set to `value`.
pub open spec fn set_bit(raw: u32, bit: u32, value: bool) -> u32 {
    set_field(raw, bit, 1, if value { 1u32 } else { 0u32 })
}

/// Reading a field after writing it gives back the value written.
pub proof fn lemma_get_set(raw: u32, low: u32, width: u32, value: u32)
    by (bit_vector)
    requires
        1 <= width,
        low + width <= 32,
        value <= field_mask(width),
    ensures
        get_field(set_field(raw, low, width, value), low, width) == value,
{
}

/// Writing a field leaves every field that shares no bit with it unchanged.
pub proof fn lemma_set_frame(raw: u32, low: u32, width: u32, value: u32, low2: u32, width2: u32)
    by (bit_vector)
    requires
        1 <= width,
        low + width <= 32,
        1 <= width2,
        low2 + width2 <= 32,
        low2 + width2 <= low || low + width <= low2,
        value <= field_mask(width),
    ensures
        get_field(set_field(raw, low, width, value), low2, width2) == get_field(raw, low2, width2),
{
}

/// Writing back the value a field holds changes nothing, and a field's value fits its width.
pub proof fn lemma_set_get(raw: u32, low: u32, width: u32)
    by (bit_vector)
    requires
        1 <= width,
        low + width <= 32,
    ensures
        set_field(raw, low, width, get_field(raw, low, width)) == raw,
        get_field(raw, low, width) <= field_mask(width),
{
}

/// Writing a field twice keeps only the second value.
pub proof fn lemma_set_set(raw: u32, low: u32, width: u32, v1: u32, v2: u32)
    by (bit_vector)
    requires
        1 <= width,
        low + width <= 32,
        v1 <= field_mask(width),
        v2 <= field_mask(width),
    ensures
        set_field(set_field(raw, low, width, v1), low, width, v2) == set_field(raw, low, width, v2),
{
}

/// Writing a field that lies within the low `n` bits of a value that fits in
/// `n` bits gives a value that still fits in `n` bits.
pub proof fn lemma_set_field_fits(raw: u32, low: u32, width: u32, value: u32, n: u32)
    by (bit_vector)
    requires
        1 <= width,
        low + width <= n,
        n < 32,
        raw <= field_mask(n),
        value <= field_mask(width),
    ensures
        set_field(raw, low, width, value) <= field_mask(n),
{
}

/// The masks of the field widths this controller uses.
pub proof fn lemma_field_mask_values()
    by (bit_vector)
    ensures
        field_mask(1) == 0x1,
        field_mask(2) == 0x3,
        field_mask(3) == 0x7,
        field_mask(4) == 0xf,
        field_mask(5) == 0x1f,
        field_mask(7) == 0x7f,
        field_mask(8) == 0xff,
        field_mask(11) == 0x7ff,
        field_mask(12) == 0xfff,
        field_mask(15) == 0x7fff,
        field_mask(16) == 0xffff,
        field_mask(20) == 0xf_ffff,
        field_mask(27) == 0x7ff_ffff,
{
}

/// Every field of the all-zero word holds zero.
pub proof fn lemma_zero_fields()
    by (bit_vector)
    ensures
        forall|low: u32, width: u32| #[trigger] get_field(0u32, low, width) == 0u32,
{
}

/// The upper 27 bits of a 32-byte aligned address, as stored in the link
/// pointer fields (bits 5 to 31) of the controller's data structures.
pub fn link_pointer_bits(addr: u32) -> (r: u32)
    ensures
        r == addr >> 5,
        r == addr / 32,
        r <= 0x7ff_ffff,
        r <= field_mask(27),
{
    proof {
        vstd::bits::lemma_u32_shr_is_div(addr, 5);
        vstd::arithmetic::power2::lemma2_to64();
        lemma_field_mask_values();
    }
    addr >> 5
}

/// Reads the field of `width` bits at bit `low` of `raw`.
pub fn read_field(raw: u32, low: u32, width: u32) -> (r: u32)
    requires
        is_field(low, width),
    ensures
        r == get_field(raw, low, width),
        r <= field_mask(width),
{
    proof {
        lemma_set_get(raw, low, width);
    }
    (raw >> low) & !(0xffff_ffffu32 << width)
}

/// Replaces the field of `width` bits at bit `low` of `raw` by `value`.
pub fn write_field(raw: u32, low: u32, width: u32, value: u32) -> (r: u32)
    requires
        is_field(low, width),
        value <= field_mask(width),
    ensures
        r == set_field(raw, low, width, value),
        get_field(r, low, width) == value,
        forall|low2: u32, width2: u32|
            is_field(low2, width2) && disjoint_fields(low, width, low2, width2)
                ==> #[trigger] get_field(r, low2, width2) == get_field(raw, low2, width2),
{
    proof {
        lemma_get_set(raw, low, width, value);
        assert forall|low2: u32, width2: u32|
            is_field(low2, width2) && disjoint_fields(low, width, low2, width2)
                implies #[trigger] get_field(set_field(raw, low, width, value), low2, width2)
                == get_field(raw, low2, width2) by {
            lemma_set_frame(raw, low, width, value, low2, width2);
        }
    }
    (raw & !(!(0xffff_ffffu32 << width) << low)) | (value << low)
}

/// Reads bit `bit` of `raw`.
pub fn read_bit(raw: u32, bit: u32) -> (r: bool)
    requires
        bit < 32,
    ensures
        r == get_bit(raw, bit),
{
    read_field(raw, bit, 1) == 1
}

/// Sets bit `bit` of `raw` to `value`.
pub fn write_bit(raw: u32, bit: u32, value: bool) -> (r: u32)
    requires
        bit < 32,
    ensures
        r == set_bit(raw, bit, value),
        get_bit(r, bit) == value,
        forall|low2: u32, width2: u32|
            is_field(low2, width2) && disjoint_fields(bit, 1, low2, width2)
                ==> #[trigger] get_field(r, low2, width2) == get_field(raw, low2, width2),
{
    proof {
        lemma_field_mask_values();
    }
    write_field(raw, bit, 1, if value { 1 } else { 0 })
}

} // verus!
