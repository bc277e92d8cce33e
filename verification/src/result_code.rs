//! Result codes of operating-system calls and the bit-fields packed in them.
//!
//! A result code is a signed 32-bit number. Its sign tells failure from
//! success, and four groups of its bits classify a failure:
//!
//! | bits     | field       |
//! |----------|-------------|
//! | 0 to 9   | description |
//! | 10 to 17 | module      |
//! | 21 to 26 | summary     |
//! | 27 to 31 | level       |

use vstd::prelude::*;

verus! {

/// What an operating-system call returns: negative on failure, zero or
/// positive on success.
pub type OsResultCode = i32;

/// The 32 bits of `code` read as an unsigned number.
pub open spec fn raw_bits(code: OsResultCode) -> nat {
    if code < 0 {
        (code + 0x1_0000_0000) as nat
    } else {
        code as nat
    }
}

/// The description field of `code`.
pub open spec fn description(code: OsResultCode) -> i32 {
    code & 0x3FF
}

/// The module field of `code`.
pub open spec fn module(code: OsResultCode) -> i32 {
    (code >> 10) & 0xFF
}

/// The summary field of `code`.
pub open spec fn summary(code: OsResultCode) -> i32 {
    (code >> 21) & 0x3F
}

/// The level field of `code`.
pub open spec fn level(code: OsResultCode) -> i32 {
    (code >> 27) & 0x1F
}

/// Each field is the group of bits that the layout gives it: the bits of
/// `code` from the field's lowest bit on, cut to the field's width. The sign
/// bit is the highest bit of the level.
pub proof fn lemma_fields_are_bit_ranges(code: OsResultCode)
    ensures
        description(code) == raw_bits(code) % 0x400,
        module(code) == (raw_bits(code) / 0x400) % 0x100,
        summary(code) == (raw_bits(code) / 0x20_0000) % 0x40,
        level(code) == raw_bits(code) / 0x800_0000,
        code < 0 <==> level(code) >= 0x10,
{
    let bits = code as u32;
    assert(bits == raw_bits(code)) by {
        assert(code < 0 ==> (code as u32) == code + 0x1_0000_0000) by (bit_vector);
        assert(code >= 0 ==> (code as u32) == code) by (bit_vector);
    }
    assert(code & 0x3FF == (code as u32) % 0x400) by (bit_vector);
    assert((code >> 10) & 0xFF == ((code as u32) / 0x400) % 0x100) by (bit_vector);
    assert((code >> 21) & 0x3F == ((code as u32) / 0x20_0000) % 0x40) by (bit_vector);
    assert((code >> 27) & 0x1F == (code as u32) / 0x800_0000) by (bit_vector);
    assert(code < 0 <==> (code >> 27) & 0x1F >= 0x10) by (bit_vector);
}

/// Reads the description field of `code`.
pub fn r_description(code: OsResultCode) -> (field: i32)
    ensures
        field == description(code),
        0 <= field < 0x400,
{
    assert(0 <= code & 0x3FF < 0x400) by (bit_vector);
    code & 0x3FF
}

/// Reads the module field of `code`.
pub fn r_module(code: OsResultCode) -> (field: i32)
    ensures
        field == module(code),
        0 <= field < 0x100,
{
    assert(0 <= (code >> 10) & 0xFF < 0x100) by (bit_vector);
    (code >> 10) & 0xFF
}

/// Reads the summary field of `code`.
pub fn r_summary(code: OsResultCode) -> (field: i32)
    ensures
        field == summary(code),
        0 <= field < 0x40,
{
    assert(0 <= (code >> 21) & 0x3F < 0x40) by (bit_vector);
    (code >> 21) & 0x3F
}

/// Reads the level field of `code`.
pub fn r_level(code: OsResultCode) -> (field: i32)
    ensures
        field == level(code),
        0 <= field < 0x20,
{
    assert(0 <= (code >> 27) & 0x1F < 0x20) by (bit_vector);
    (code >> 27) & 0x1F
}

} // verus!
