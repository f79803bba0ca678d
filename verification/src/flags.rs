//! Bit-field updates on flag-register values.
//!
//! A flag register is an 8-bit value logically composed of independent
//! fields, each identified by a bit mask. Updating one field must leave
//! every other field untouched; the lemmas below state that guarantee once
//! and for all flag-set sequences.

use vstd::prelude::*;

verus! {

/// The register value after the bits of `mask` are set (when `set` is true)
/// or cleared (when `set` is false), with every bit outside `mask` unchanged.
pub open spec fn spec_with_flag(value: u8, mask: u8, set: bool) -> u8 {
    if set {
        value | mask
    } else {
        value & !mask
    }
}

/// Compute a new register value with the `mask` field set or cleared.
pub fn with_flag(value: u8, mask: u8, set: bool) -> (r: u8)
    ensures
        r == spec_with_flag(value, mask, set),
{
    if set {
        value | mask
    } else {
        value & !mask
    }
}

/// Updating the `mask` field never alters any bit under a disjoint mask
/// `other`: read-modify-write on one field preserves the rest of the
/// register.
pub proof fn lemma_with_flag_preserves_disjoint(value: u8, mask: u8, set: bool, other: u8)
    requires
        other & mask == 0,
    ensures
        spec_with_flag(value, mask, set) & other == value & other,
{
    if set {
        assert((value | mask) & other == value & other) by (bit_vector)
            requires
                other & mask == 0,
        ;
    } else {
        assert((value & !mask) & other == value & other) by (bit_vector)
            requires
                other & mask == 0,
        ;
    }
}

/// Read-modify-write correctness over a sequence of two flag updates:
/// setting field `a` and then field `b` on the same register value leaves
/// every bit under a mask `m` disjoint from both fields unchanged, while the
/// `a` bits and the `b` bits each hold their last-set value.
pub proof fn lemma_flag_sequence_preserves_fields(v: u8, a: u8, va: bool, b: u8, vb: bool, m: u8)
    requires
        a & b == 0,
        m & a == 0,
        m & b == 0,
    ensures
        spec_with_flag(spec_with_flag(v, a, va), b, vb) & m == v & m,
        spec_with_flag(spec_with_flag(v, a, va), b, vb) & b == (if vb {
            b
        } else {
            0
        }),
        spec_with_flag(spec_with_flag(v, a, va), b, vb) & a == (if va {
            a
        } else {
            0
        }),
{
    let after_a = spec_with_flag(v, a, va);
    lemma_with_flag_preserves_disjoint(v, a, va, m);
    lemma_with_flag_preserves_disjoint(after_a, b, vb, m);
    lemma_with_flag_preserves_disjoint(after_a, b, vb, a);
    if va {
        assert((v | a) & a == a) by (bit_vector);
    } else {
        assert((v & !a) & a == 0) by (bit_vector);
    }
    if vb {
        assert((after_a | b) & b == b) by (bit_vector);
    } else {
        assert((after_a & !b) & b == 0) by (bit_vector);
    }
}

} // verus!
