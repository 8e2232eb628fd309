use vstd::prelude::*;

verus! {

// Bit masks of the status register `P`. Layout, MSB to LSB: N V 1 B D I Z C.
// Bit 5 is unused and reads as 1 once established by `reset`; bit 4 (B) is
// only ever set in pushed copies of `P`, never in the stored register.
pub const FLAG_CARRY: u8 = 0x01;

pub const FLAG_ZERO: u8 = 0x02;

pub const FLAG_INTERRUPT: u8 = 0x04;

pub const FLAG_DECIMAL: u8 = 0x08;

pub const FLAG_BREAK: u8 = 0x10;

pub const FLAG_UNUSED: u8 = 0x20;

pub const FLAG_OVERFLOW: u8 = 0x40;

pub const FLAG_NEGATIVE: u8 = 0x80;

/// Whether any bit selected by `mask` is set in `p`; for the single-bit masks
/// above, this is the value of that flag.
pub open spec fn flag_set(p: u8, mask: u8) -> bool {
    p & mask != 0
}

/// The status byte with the bits of `mask` forced to `value`.
pub open spec fn set_flag_b(p: u8, mask: u8, value: bool) -> u8 {
    if value {
        p | mask
    } else {
        p & !mask
    }
}

/// The status byte after `set_zn(v)`: Z becomes `v == 0`, N becomes bit 7 of
/// `v`, and every other flag keeps its value.
pub open spec fn with_zn(p: u8, v: u8) -> u8 {
    set_flag_b(set_flag_b(p, FLAG_ZERO, v == 0), FLAG_NEGATIVE, v & 0x80 != 0)
}

/// The byte pushed on the stack by PHP and BRK: B and bit 5 forced on.
pub open spec fn pushed_status(p: u8) -> u8 {
    p | 0x30
}

/// The status byte adopted by PLP and RTI: bit 5 forced on, B cleared.
pub open spec fn pulled_status(v: u8) -> u8 {
    (v | FLAG_UNUSED) & !FLAG_BREAK
}

/// Reading a just-forced flag gives back the value that was written.
pub proof fn lemma_set_flag_same(p: u8, m: u8, value: bool)
    requires
        m != 0,
    ensures
        flag_set(set_flag_b(p, m, value), m) == value,
{
    if value {
        assert((p | m) & m != 0) by (bit_vector)
            requires
                m != 0,
        ;
    } else {
        assert((p & !m) & m == 0) by (bit_vector);
    }
}

/// Forcing one flag leaves every disjoint flag untouched.
pub proof fn lemma_set_flag_other(p: u8, m: u8, o: u8, value: bool)
    requires
        m & o == 0,
    ensures
        flag_set(set_flag_b(p, m, value), o) == flag_set(p, o),
{
    if value {
        assert((p | m) & o == p & o) by (bit_vector)
            requires
                m & o == 0,
        ;
    } else {
        assert((p & !m) & o == p & o) by (bit_vector)
            requires
                m & o == 0,
        ;
    }
}

/// What `set_zn` leaves in Z and N: the two flags computed from `v`.
pub proof fn lemma_with_zn(p: u8, v: u8)
    ensures
        flag_set(with_zn(p, v), FLAG_ZERO) == (v == 0),
        flag_set(with_zn(p, v), FLAG_NEGATIVE) == (v & 0x80 != 0),
{
    let p1 = set_flag_b(p, FLAG_ZERO, v == 0);
    lemma_set_flag_same(p, FLAG_ZERO, v == 0);
    lemma_set_flag_same(p1, FLAG_NEGATIVE, v & 0x80 != 0);
    assert(FLAG_NEGATIVE & FLAG_ZERO == 0) by (bit_vector);
    lemma_set_flag_other(p1, FLAG_NEGATIVE, FLAG_ZERO, v & 0x80 != 0);
}

/// `set_zn` leaves every flag disjoint from Z and N unchanged.
pub proof fn lemma_with_zn_other(p: u8, v: u8, o: u8)
    requires
        o & (FLAG_ZERO | FLAG_NEGATIVE) == 0,
    ensures
        flag_set(with_zn(p, v), o) == flag_set(p, o),
{
    let p1 = set_flag_b(p, FLAG_ZERO, v == 0);
    assert(FLAG_ZERO & o == 0 && FLAG_NEGATIVE & o == 0) by (bit_vector)
        requires
            o & (FLAG_ZERO | FLAG_NEGATIVE) == 0,
    ;
    lemma_set_flag_other(p, FLAG_ZERO, o, v == 0);
    lemma_set_flag_other(p1, FLAG_NEGATIVE, o, v & 0x80 != 0);
}

/// The byte PLP or RTI adopts: bit 5 on, B off, every other flag taken from
/// the pulled byte.
pub proof fn lemma_pulled_status(v: u8, o: u8)
    requires
        o & (FLAG_BREAK | FLAG_UNUSED) == 0,
    ensures
        flag_set(pulled_status(v), FLAG_UNUSED),
        !flag_set(pulled_status(v), FLAG_BREAK),
        flag_set(pulled_status(v), o) == flag_set(v, o),
{
    assert(flag_set(pulled_status(v), FLAG_UNUSED)) by (bit_vector);
    assert(!flag_set(pulled_status(v), FLAG_BREAK)) by (bit_vector);
    assert(flag_set(pulled_status(v), o) == flag_set(v, o)) by (bit_vector)
        requires
            o & (FLAG_BREAK | FLAG_UNUSED) == 0,
    ;
}

/// Pushing `P` with PHP and pulling it back with PLP restores the stored
/// status exactly, provided the stored byte already had bit 5 on and B off,
/// as every status byte after `reset` does.
pub proof fn lemma_push_pull_status(p: u8)
    ensures
        pulled_status(pushed_status(p)) == (p | FLAG_UNUSED) & !FLAG_BREAK,
        p & 0x30 == 0x20 ==> pulled_status(pushed_status(p)) == p,
{
    assert(pulled_status(pushed_status(p)) == (p | FLAG_UNUSED) & !FLAG_BREAK) by (bit_vector);
    assert(p & 0x30 == 0x20 ==> (p | FLAG_UNUSED) & !FLAG_BREAK == p) by (bit_vector);
}

} // verus!
