use vstd::prelude::*;

verus! {

/// The big-endian value of the four octets `s[at..at + 4]`.
pub open spec fn be32_at(s: Seq<u8>, at: int) -> int {
    s[at] * 0x1000000 + s[at + 1] * 0x10000 + s[at + 2] * 0x100 + s[at + 3]
}

/// The big-endian value of the three octets `s[at..at + 3]`.
pub open spec fn be24_at(s: Seq<u8>, at: int) -> int {
    s[at] * 0x10000 + s[at + 1] * 0x100 + s[at + 2]
}

/// The four octets of `v` in network (big-endian) order.
pub open spec fn be32_bytes(v: u32) -> Seq<u8> {
    seq![
        (v / 0x1000000) as u8,
        ((v / 0x10000) % 0x100) as u8,
        ((v / 0x100) % 0x100) as u8,
        (v % 0x100) as u8,
    ]
}

/// The three low octets of `v` in network (big-endian) order.
pub open spec fn be24_bytes(v: u32) -> Seq<u8> {
    seq![((v / 0x10000) % 0x100) as u8, ((v / 0x100) % 0x100) as u8, (v % 0x100) as u8]
}

/// Writing a 32-bit value as four octets and reading them back gives the value.
pub proof fn lemma_be32_bytes_value(v: u32)
    ensures
        be32_bytes(v).len() == 4,
        be32_at(be32_bytes(v), 0) == v,
{
    assert((v / 0x1000000) * 0x1000000 + ((v / 0x10000) % 0x100) * 0x10000 + ((v / 0x100)
        % 0x100) * 0x100 + (v % 0x100) == v) by (bit_vector);
}

/// Writing a 24-bit value as three octets and reading them back gives the value.
pub proof fn lemma_be24_bytes_value(v: u32)
    requires
        v < 0x1000000,
    ensures
        be24_bytes(v).len() == 3,
        be24_at(be24_bytes(v), 0) == v,
{
    assert(v < 0x1000000 ==> ((v / 0x10000) % 0x100) * 0x10000 + ((v / 0x100) % 0x100) * 0x100
        + (v % 0x100) == v) by (bit_vector);
}

/// Reading four octets as a value and writing it back gives the same octets.
pub proof fn lemma_be32_value_bytes(b0: u8, b1: u8, b2: u8, b3: u8)
    ensures
        ({
            let v = (b0 * 0x1000000 + b1 * 0x10000 + b2 * 0x100 + b3) as u32;
            be32_bytes(v) == seq![b0, b1, b2, b3]
        }),
{
    let v = (b0 * 0x1000000 + b1 * 0x10000 + b2 * 0x100 + b3) as u32;
    assert(v == b0 * 0x1000000 + b1 * 0x10000 + b2 * 0x100 + b3);
    assert((v / 0x1000000) as u8 == b0 && ((v / 0x10000) % 0x100) as u8 == b1 && ((v / 0x100)
        % 0x100) as u8 == b2 && (v % 0x100) as u8 == b3) by (bit_vector)
        requires
            v == b0 * 0x1000000 + b1 * 0x10000 + b2 * 0x100 + b3,
    ;
    assert(be32_bytes(v) =~= seq![b0, b1, b2, b3]);
}

/// Reading three octets as a value and writing it back gives the same octets.
pub proof fn lemma_be24_value_bytes(b0: u8, b1: u8, b2: u8)
    ensures
        ({
            let v = (b0 * 0x10000 + b1 * 0x100 + b2) as u32;
            &&& v < 0x1000000
            &&& be24_bytes(v) == seq![b0, b1, b2]
        }),
{
    let v = (b0 * 0x10000 + b1 * 0x100 + b2) as u32;
    assert(v == b0 * 0x10000 + b1 * 0x100 + b2);
    assert(((v / 0x10000) % 0x100) as u8 == b0 && ((v / 0x100) % 0x100) as u8 == b1 && (v
        % 0x100) as u8 == b2) by (bit_vector)
        requires
            v == b0 * 0x10000 + b1 * 0x100 + b2,
    ;
    assert(be24_bytes(v) =~= seq![b0, b1, b2]);
}

} // verus!
