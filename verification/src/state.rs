use vstd::prelude::*;

verus! {

/// Carry flag: arithmetic carry / borrow out.
pub const FLAG_CARRY: u8 = 0x01;
/// Zero flag: set iff the last relevant result byte was zero.
pub const FLAG_ZERO: u8 = 0x02;
/// Interrupt-disable flag: maskable interrupts are ignored while set.
pub const FLAG_INTERRUPT_DISABLE: u8 = 0x04;
/// Decimal-mode flag: latched and restored but otherwise unused here.
pub const FLAG_DECIMAL: u8 = 0x08;
/// Break flag: only meaningful in status bytes pushed on the stack.
pub const FLAG_BREAK: u8 = 0x10;
/// Unused bit 5; by convention it reads as set in pushed status bytes.
pub const FLAG_UNUSED: u8 = 0x20;
/// Overflow flag: two's-complement overflow of ADC / SBC, bit 6 of BIT.
pub const FLAG_OVERFLOW: u8 = 0x40;
/// Negative flag: mirrors bit 7 of the last relevant result byte.
pub const FLAG_NEGATIVE: u8 = 0x80;

/// The observable processor state: registers, status flags, the
/// transient scratch values written by addressing-mode resolution, and
/// the full contents of the memory bus.  Contracts of the executable
/// processor are stated as transformations of this state.
#[verifier::ext_equal]
pub struct CpuState {
    pub accumulator: u8,
    pub x_register: u8,
    pub y_register: u8,
    pub stack_pointer: u8,
    pub program_counter: u16,
    pub status_register: u8,
    pub address_absolute: u16,
    pub address_relative: u16,
    pub opcode: u8,
    pub cycles: u8,
    pub fetched: u8,
    pub mem: Seq<u8>,
}

/// Whether the flag selected by `mask` is set in a status byte.
pub open spec fn get_flag(status: u8, mask: u8) -> bool {
    status & mask != 0
}

/// The status byte with the flag selected by `mask` forced to `on`.
pub open spec fn upd_flag(status: u8, mask: u8, on: bool) -> u8 {
    if on {
        status | mask
    } else {
        status & !mask
    }
}

/// The status byte after the uniform Zero / Negative update: Zero iff
/// the result byte is 0, Negative iff its bit 7 is set.
pub open spec fn zn_flags(status: u8, value: u8) -> u8 {
    upd_flag(upd_flag(status, FLAG_ZERO, value == 0), FLAG_NEGATIVE, (value & 0x80) != 0)
}

/// The two's-complement value denoted by a byte.
pub open spec fn signed(value: u8) -> int {
    if value >= 0x80 {
        value - 256
    } else {
        value as int
    }
}

/// Addition modulo 2^16, as the 6502 program counter and effective
/// addresses wrap around the address space.
pub open spec fn wrap_add_16(a: u16, b: u16) -> u16 {
    if a + b > 0xFFFF {
        (a + b - 0x10000) as u16
    } else {
        (a + b) as u16
    }
}

/// Subtraction modulo 2^16.
pub open spec fn wrap_sub_16(a: u16, b: u16) -> u16 {
    if a >= b {
        (a - b) as u16
    } else {
        (a + 0x10000 - b) as u16
    }
}

/// Addition modulo 2^8, as zero-page indexing and the stack pointer wrap.
pub open spec fn wrap_add_8(a: u8, b: u8) -> u8 {
    if a + b > 0xFF {
        (a + b - 0x100) as u8
    } else {
        (a + b) as u8
    }
}

/// Subtraction modulo 2^8.
pub open spec fn wrap_sub_8(a: u8, b: u8) -> u8 {
    if a >= b {
        (a - b) as u8
    } else {
        (a + 0x100 - b) as u8
    }
}

/// The 16-bit address formed from a high and a low byte.
pub open spec fn spec_addr_from_bytes(hi: u8, lo: u8) -> u16 {
    ((hi as u16) << 8) | (lo as u16)
}

/// The high byte of a 16-bit address.
pub open spec fn spec_high_byte(a: u16) -> u8 {
    (a >> 8) as u8
}

/// The low byte of a 16-bit address.
pub open spec fn spec_low_byte(a: u16) -> u8 {
    (a & 0xFF) as u8
}

pub fn wrapping_add_u16(a: u16, b: u16) -> (r: u16)
    ensures
        r == wrap_add_16(a, b),
{
    let sum: u32 = a as u32 + b as u32;
    if sum > 0xFFFF {
        (sum - 0x10000) as u16
    } else {
        sum as u16
    }
}

pub fn wrapping_sub_u16(a: u16, b: u16) -> (r: u16)
    ensures
        r == wrap_sub_16(a, b),
{
    if a >= b {
        a - b
    } else {
        let t: u32 = a as u32 + 0x10000 - b as u32;
        t as u16
    }
}

pub fn wrapping_add_u8(a: u8, b: u8) -> (r: u8)
    ensures
        r == wrap_add_8(a, b),
{
    let sum: u16 = a as u16 + b as u16;
    if sum > 0xFF {
        (sum - 0x100) as u8
    } else {
        sum as u8
    }
}

pub fn wrapping_sub_u8(a: u8, b: u8) -> (r: u8)
    ensures
        r == wrap_sub_8(a, b),
{
    if a >= b {
        a - b
    } else {
        let t: u16 = a as u16 + 0x100 - b as u16;
        t as u8
    }
}

#[verifier::when_used_as_spec(spec_addr_from_bytes)]
pub fn addr_from_bytes(hi: u8, lo: u8) -> (r: u16)
    ensures
        r == spec_addr_from_bytes(hi, lo),
{
    ((hi as u16) << 8) | (lo as u16)
}

#[verifier::when_used_as_spec(spec_high_byte)]
pub fn high_byte(a: u16) -> (r: u8)
    ensures
        r == spec_high_byte(a),
{
    proof {
        assert(a >> 8 < 256) by (bit_vector);
    }
    (a >> 8) as u8
}

#[verifier::when_used_as_spec(spec_low_byte)]
pub fn low_byte(a: u16) -> (r: u8)
    ensures
        r == spec_low_byte(a),
{
    proof {
        assert(a & 0xFF < 256) by (bit_vector);
    }
    (a & 0xFF) as u8
}

/// The status byte with the flag selected by `mask` forced to `on`.
pub fn set_flag_val(status: u8, mask: u8, on: bool) -> (r: u8)
    ensures
        r == upd_flag(status, mask, on),
{
    if on {
        status | mask
    } else {
        status & !mask
    }
}

/// The status byte after the uniform Zero / Negative update.
pub fn set_zn(status: u8, value: u8) -> (r: u8)
    ensures
        r == zn_flags(status, value),
{
    let s1: u8 = set_flag_val(status, FLAG_ZERO, value == 0);
    set_flag_val(s1, FLAG_NEGATIVE, (value & 0x80) != 0)
}

/// Updating a flag determines exactly what `get_flag` reads back for it.
pub proof fn lemma_upd_flag_same(status: u8, mask: u8, on: bool)
    requires
        mask != 0,
    ensures
        get_flag(upd_flag(status, mask, on), mask) == on,
{
    if on {
        assert((status | mask) & mask != 0) by (bit_vector)
            requires
                mask != 0,
        ;
    } else {
        assert((status & !mask) & mask == 0) by (bit_vector);
    }
}

/// Updating one flag leaves every disjoint flag unchanged.
pub proof fn lemma_upd_flag_other(status: u8, mask: u8, on: bool, other: u8)
    requires
        mask & other == 0,
    ensures
        get_flag(upd_flag(status, mask, on), other) == get_flag(status, other),
{
    if on {
        assert((status | mask) & other == status & other) by (bit_vector)
            requires
                mask & other == 0,
        ;
    } else {
        assert((status & !mask) & other == status & other) by (bit_vector)
            requires
                mask & other == 0,
        ;
    }
}

/// Bitwise conjunction of bytes is commutative.
pub proof fn lemma_and_comm(a: u8, b: u8)
    ensures
        a & b == b & a,
{
    assert(a & b == b & a) by (bit_vector);
}

/// The eight status-flag masks select pairwise disjoint bits.
pub proof fn lemma_flag_masks()
    ensures
        forall|a: u8, b: u8|
            #[trigger] (a & b) == 0 <== (a == FLAG_CARRY || a == FLAG_ZERO
                || a == FLAG_INTERRUPT_DISABLE || a == FLAG_DECIMAL || a == FLAG_BREAK
                || a == FLAG_UNUSED || a == FLAG_OVERFLOW || a == FLAG_NEGATIVE) && (b == FLAG_CARRY
                || b == FLAG_ZERO || b == FLAG_INTERRUPT_DISABLE || b == FLAG_DECIMAL
                || b == FLAG_BREAK || b == FLAG_UNUSED || b == FLAG_OVERFLOW || b == FLAG_NEGATIVE)
                && a != b,
{
    assert forall|a: u8, b: u8|
        (a == 1 || a == 2 || a == 4 || a == 8 || a == 0x10 || a == 0x20 || a == 0x40 || a == 0x80)
            && (b == 1 || b == 2 || b == 4 || b == 8 || b == 0x10 || b == 0x20 || b == 0x40 || b
            == 0x80) && a != b implies #[trigger] (a & b) == 0 by {
        assert((a == 1 || a == 2 || a == 4 || a == 8 || a == 0x10 || a == 0x20 || a == 0x40 || a
            == 0x80) && (b == 1 || b == 2 || b == 4 || b == 8 || b == 0x10 || b == 0x20 || b == 0x40
            || b == 0x80) && a != b ==> a & b == 0) by (bit_vector);
    }
}

/// The Zero / Negative update reads back exactly as the uniform flag
/// rule demands: Zero iff the result byte is 0, Negative iff its bit 7
/// is set, and the other six flags are untouched.
pub proof fn lemma_zn_flags(status: u8, value: u8)
    ensures
        get_flag(zn_flags(status, value), FLAG_ZERO) <==> value == 0,
        get_flag(zn_flags(status, value), FLAG_NEGATIVE) <==> (value & 0x80) != 0,
        forall|other: u8|
            (other & FLAG_ZERO == 0 && other & FLAG_NEGATIVE == 0) ==> get_flag(
                zn_flags(status, value),
                other,
            ) == get_flag(status, other),
{
    lemma_flag_masks();
    let st1: u8 = upd_flag(status, FLAG_ZERO, value == 0);
    lemma_upd_flag_same(status, FLAG_ZERO, value == 0);
    lemma_upd_flag_other(st1, FLAG_NEGATIVE, (value & 0x80) != 0, FLAG_ZERO);
    lemma_upd_flag_same(st1, FLAG_NEGATIVE, (value & 0x80) != 0);
    assert forall|other: u8|
        (other & FLAG_ZERO == 0 && other & FLAG_NEGATIVE == 0) implies get_flag(
        zn_flags(status, value),
        other,
    ) == get_flag(status, other) by {
        lemma_and_comm(other, FLAG_ZERO);
        lemma_and_comm(other, FLAG_NEGATIVE);
        lemma_upd_flag_other(status, FLAG_ZERO, value == 0, other);
        lemma_upd_flag_other(st1, FLAG_NEGATIVE, (value & 0x80) != 0, other);
    }
}

} // verus!
