//! Bounded packet buffer: the fixed-capacity byte vector of the
//! `heapless` crate, at capacity `MAX_PACKET_LEN`, behind a small
//! trusted surface. `buf_bytes` names the sequence of bytes a buffer
//! holds; each wrapper states its effect on that sequence, as the
//! `heapless` source shows it.
use vstd::prelude::*;

verus! {

/// Largest frame the receiver assembles or the responder emits.
pub const MAX_PACKET_LEN: usize = 128;

#[verifier::external_type_specification]
#[verifier::external_body]
#[verifier::reject_recursive_types(T)]
pub struct ExHeaplessVec<T, const N: usize>(heapless::Vec<T, N>);

/// The in-flight packet buffer: a `heapless` vector of bytes whose
/// capacity is `MAX_PACKET_LEN`.
pub type PacketBuf = heapless::Vec<u8, MAX_PACKET_LEN>;

/// The bytes a packet buffer holds, first to last.
pub uninterp spec fn buf_bytes(v: PacketBuf) -> Seq<u8>;

/// Relies on `heapless::Vec::new`: the new vector is empty.
#[verifier::external_body]
pub fn buf_new() -> (r: PacketBuf)
    ensures
        buf_bytes(r) == Seq::<u8>::empty(),
{
    heapless::Vec::new()
}

/// Relies on `heapless::Vec`'s deref to a slice of its `len` first
/// elements; `len` never exceeds the capacity `N`.
#[verifier::external_body]
pub fn buf_len(v: &PacketBuf) -> (r: usize)
    ensures
        r == buf_bytes(*v).len(),
        r <= MAX_PACKET_LEN,
{
    v.len()
}

/// Relies on `heapless::Vec`'s deref to a slice: indexing reads the
/// element at `i`.
#[verifier::external_body]
pub fn buf_get(v: &PacketBuf, i: usize) -> (r: u8)
    requires
        i < buf_bytes(*v).len(),
    ensures
        r == buf_bytes(*v)[i as int],
{
    v[i]
}

/// Relies on `heapless::Vec::push`: when the vector is shorter than its
/// capacity, the item is appended and `Ok` returned.
#[verifier::external_body]
pub fn buf_push(v: &mut PacketBuf, b: u8)
    requires
        buf_bytes(*old(v)).len() < MAX_PACKET_LEN,
    ensures
        buf_bytes(*final(v)) == buf_bytes(*old(v)).push(b),
{
    let _ = v.push(b);
}

/// Relies on `heapless::Vec::truncate`: keeps the first `n` elements
/// and drops the rest; a `n` past the end leaves the vector unchanged.
#[verifier::external_body]
pub fn buf_truncate(v: &mut PacketBuf, n: usize)
    ensures
        buf_bytes(*final(v)) == if n <= buf_bytes(*old(v)).len() {
            buf_bytes(*old(v)).take(n as int)
        } else {
            buf_bytes(*old(v))
        },
{
    v.truncate(n)
}

/// Relies on `heapless::Vec::as_slice`: the slice of all `len` held
/// elements, in order.
#[verifier::external_body]
pub fn buf_as_slice(v: &PacketBuf) -> (r: &[u8])
    ensures
        r@ == buf_bytes(*v),
{
    v.as_slice()
}

/// Relies on `heapless::Vec`'s `Clone` impl: the clone holds the same
/// elements.
#[verifier::external_body]
pub fn buf_clone(v: &PacketBuf) -> (r: PacketBuf)
    ensures
        buf_bytes(r) == buf_bytes(*v),
{
    v.clone()
}

/// Copy of the bytes at `[from, to)` of a buffer.
pub fn buf_read_region(v: &PacketBuf, from: usize, to: usize) -> (r: Vec<u8>)
    requires
        from <= to,
        to <= buf_bytes(*v).len(),
    ensures
        r@ == buf_bytes(*v).subrange(from as int, to as int),
{
    let mut out: Vec<u8> = Vec::new();
    let mut i: usize = from;
    proof {
        assert(out@ =~= buf_bytes(*v).subrange(from as int, from as int));
    }
    while i < to
        invariant
            from <= i <= to,
            to <= buf_bytes(*v).len(),
            out@ == buf_bytes(*v).subrange(from as int, i as int),
        decreases to - i,
    {
        let b = buf_get(v, i);
        out.push(b);
        proof {
            assert(out@ =~= buf_bytes(*v).subrange(from as int, i + 1));
        }
        i = i + 1;
    }
    out
}

/// The given buffer with the bytes of `s` appended.
pub fn buf_append(b: PacketBuf, s: &Vec<u8>) -> (r: PacketBuf)
    requires
        buf_bytes(b).len() + s@.len() <= MAX_PACKET_LEN,
    ensures
        buf_bytes(r) == buf_bytes(b) + s@,
{
    let mut out = b;
    let ghost b0 = buf_bytes(out);
    let mut i: usize = 0;
    proof {
        assert(buf_bytes(out) =~= b0 + s@.take(0));
    }
    while i < s.len()
        invariant
            i <= s@.len(),
            buf_bytes(b) == b0,
            buf_bytes(out) == b0 + s@.take(i as int),
            b0.len() + s@.len() <= MAX_PACKET_LEN,
        decreases s@.len() - i,
    {
        buf_push(&mut out, s[i]);
        proof {
            assert(b0 + s@.take(i + 1) =~= (b0 + s@.take(i as int)).push(s@[i as int]));
        }
        i = i + 1;
    }
    proof {
        assert(s@.take(s@.len() as int) =~= s@);
    }
    out
}

/// The given buffer with the first `n` bytes of `s` appended.
pub fn buf_append_take(b: PacketBuf, s: &Vec<u8>, n: usize) -> (r: PacketBuf)
    requires
        n <= s@.len(),
        buf_bytes(b).len() + n <= MAX_PACKET_LEN,
    ensures
        buf_bytes(r) == buf_bytes(b) + s@.take(n as int),
{
    let mut out = b;
    let ghost b0 = buf_bytes(out);
    let mut i: usize = 0;
    proof {
        assert(buf_bytes(out) =~= b0 + s@.take(0));
    }
    while i < n
        invariant
            i <= n,
            n <= s@.len(),
            buf_bytes(out) == b0 + s@.take(i as int),
            b0.len() + n <= MAX_PACKET_LEN,
        decreases n - i,
    {
        buf_push(&mut out, s[i]);
        proof {
            assert(b0 + s@.take(i + 1) =~= (b0 + s@.take(i as int)).push(s@[i as int]));
        }
        i = i + 1;
    }
    out
}

/// A fresh buffer holding the bytes of `s`.
pub fn buf_from_bytes(s: &Vec<u8>) -> (r: PacketBuf)
    requires
        s@.len() <= MAX_PACKET_LEN,
    ensures
        buf_bytes(r) == s@,
{
    let b = buf_new();
    let r = buf_append(b, s);
    proof {
        assert(Seq::<u8>::empty() + s@ =~= s@);
    }
    r
}

/// A fresh buffer holding the bytes of `v` from `from` on.
pub fn buf_suffix(v: &PacketBuf, from: usize) -> (r: PacketBuf)
    requires
        from <= buf_bytes(*v).len(),
    ensures
        buf_bytes(r) == buf_bytes(*v).skip(from as int),
{
    let n = buf_len(v);
    let bytes = buf_read_region(v, from, n);
    let r = buf_from_bytes(&bytes);
    proof {
        assert(buf_bytes(*v).subrange(from as int, buf_bytes(*v).len() as int) =~= buf_bytes(
            *v,
        ).skip(from as int));
    }
    r
}

} // verus!
