use vstd::prelude::*;

verus! {

/// The bytes of slot `slot` in a data region of `size`-byte slots.
pub open spec fn slot_bytes(data: Seq<u8>, slot: int, size: int) -> Seq<u8> {
    data.subrange(slot * size, slot * size + size)
}

/// The data region after `bytes` were written at byte offset `off`.
pub open spec fn written(data: Seq<u8>, off: int, bytes: Seq<u8>) -> Seq<u8> {
    Seq::new(data.len(), |i: int| if off <= i < off + bytes.len() { bytes[i - off] } else { data[i] })
}

/// A slot below the capacity lies inside the data region.
pub proof fn lemma_slot_in_region(slot: int, capacity: int, size: int)
    requires
        0 <= slot < capacity,
        0 <= size,
    ensures
        0 <= slot * size,
        slot * size + size <= capacity * size,
{
    assert(0 <= slot * size) by (nonlinear_arith)
        requires
            0 <= slot,
            0 <= size,
    ;
    assert(slot * size + size <= capacity * size) by (nonlinear_arith)
        requires
            slot + 1 <= capacity,
            0 <= size,
    ;
}

/// Two different slots occupy disjoint byte ranges.
pub proof fn lemma_slots_disjoint(a: int, b: int, size: int)
    requires
        0 <= a,
        0 <= b,
        a != b,
        0 <= size,
    ensures
        a * size + size <= b * size || b * size + size <= a * size,
{
    if a < b {
        assert(a * size + size <= b * size) by (nonlinear_arith)
            requires
                a + 1 <= b,
                0 <= size,
        ;
    } else {
        assert(b * size + size <= a * size) by (nonlinear_arith)
            requires
                b + 1 <= a,
                0 <= size,
        ;
    }
}

/// Two numbers less than `d` apart, and not equal, fall in different slots.
pub proof fn lemma_mod_distinct(x: int, y: int, d: int)
    requires
        0 <= x < y,
        y - x < d,
    ensures
        x % d != y % d,
{
    vstd::arithmetic::div_mod::lemma_fundamental_div_mod(x, d);
    vstd::arithmetic::div_mod::lemma_fundamental_div_mod(y, d);
    if x % d == y % d {
        let q = y / d - x / d;
        assert(y - x == d * q) by (nonlinear_arith)
            requires
                x == d * (x / d) + x % d,
                y == d * (y / d) + y % d,
                x % d == y % d,
                q == y / d - x / d,
        ;
        assert(false) by (nonlinear_arith)
            requires
                y - x == d * q,
                0 < y - x < d,
        ;
    }
}

/// Writing a slot leaves every other slot's bytes as they were, and the
/// written slot holds the written bytes.
pub proof fn lemma_write_slot(data: Seq<u8>, slot: int, other: int, capacity: int, size: int, bytes: Seq<u8>)
    requires
        0 <= slot < capacity,
        0 <= other < capacity,
        0 <= size,
        data.len() == capacity * size,
        bytes.len() == size,
    ensures
        slot_bytes(written(data, slot * size, bytes), slot, size) == bytes,
        other != slot ==> slot_bytes(written(data, slot * size, bytes), other, size) == slot_bytes(data, other, size),
{
    lemma_slot_in_region(slot, capacity, size);
    lemma_slot_in_region(other, capacity, size);
    let w = written(data, slot * size, bytes);
    assert(slot_bytes(w, slot, size) =~= bytes);
    if other != slot {
        lemma_slots_disjoint(slot, other, size);
        assert(slot_bytes(w, other, size) =~= slot_bytes(data, other, size));
    }
}

} // verus!
