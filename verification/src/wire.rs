//! Little-endian byte-level primitives shared by every codec in the crate:
//! appending integers, zero padding, and fixed-width byte fields to a growing
//! buffer, and reading them back from a received buffer.
use vstd::bytes::*;
use vstd::prelude::*;
use vstd::slice::*;

verus! {

/// A run of `n` zero bytes.
pub open spec fn zeroes(n: nat) -> Seq<u8> {
    Seq::new(n, |i: int| 0u8)
}

/// A byte field of exactly `w` bytes: the input truncated or zero-padded.
pub open spec fn fit_bytes(b: Seq<u8>, w: nat) -> Seq<u8> {
    if b.len() >= w {
        b.take(w as int)
    } else {
        b + zeroes((w - b.len()) as nat)
    }
}

pub proof fn lemma_fit_bytes_len(b: Seq<u8>, w: nat)
    ensures
        fit_bytes(b, w).len() == w,
{
}

/// The length of every fixed-width field is its declared width.
pub broadcast proof fn lemma_fit_bytes_len_auto(b: Seq<u8>, w: nat)
    ensures
        (#[trigger] fit_bytes(b, w)).len() == w,
{
}

pub fn push_u8(out: &mut Vec<u8>, x: u8)
    ensures
        final(out)@ == old(out)@ + seq![x],
{
    out.push(x);
    assert(out@ =~= old(out)@ + seq![x]);
}

pub fn push_u16_le(out: &mut Vec<u8>, x: u16)
    ensures
        final(out)@ == old(out)@ + spec_u16_to_le_bytes(x),
        spec_u16_to_le_bytes(x).len() == 2,
{
    proof {
        lemma_auto_spec_u16_to_from_le_bytes();
    }
    let mut b = u16_to_le_bytes(x);
    out.append(&mut b);
}

pub fn push_u32_le(out: &mut Vec<u8>, x: u32)
    ensures
        final(out)@ == old(out)@ + spec_u32_to_le_bytes(x),
        spec_u32_to_le_bytes(x).len() == 4,
{
    proof {
        lemma_auto_spec_u32_to_from_le_bytes();
    }
    let mut b = u32_to_le_bytes(x);
    out.append(&mut b);
}

pub fn push_u64_le(out: &mut Vec<u8>, x: u64)
    ensures
        final(out)@ == old(out)@ + spec_u64_to_le_bytes(x),
        spec_u64_to_le_bytes(x).len() == 8,
{
    proof {
        lemma_auto_spec_u64_to_from_le_bytes();
    }
    let mut b = u64_to_le_bytes(x);
    out.append(&mut b);
}

pub fn push_zeroes(out: &mut Vec<u8>, n: usize)
    ensures
        final(out)@ == old(out)@ + zeroes(n as nat),
{
    let mut i: usize = 0;
    while i < n
        invariant
            i <= n,
            out@ == old(out)@ + zeroes(i as nat),
        decreases n - i,
    {
        out.push(0);
        proof {
            assert(out@ =~= old(out)@ + zeroes((i + 1) as nat));
        }
        i = i + 1;
    }
}

/// Appends `src` truncated or zero-padded to exactly `w` bytes.
pub fn push_fit_bytes(out: &mut Vec<u8>, src: &[u8], w: usize)
    ensures
        final(out)@ == old(out)@ + fit_bytes(src@, w as nat),
        final(out)@.len() == old(out)@.len() + w,
{
    let mut i: usize = 0;
    while i < w
        invariant
            i <= w,
            out@ == old(out)@ + fit_bytes(src@, w as nat).take(i as int),
        decreases w - i,
    {
        let v: u8 = if i < src.len() {
            *slice_index_get(src, i)
        } else {
            0
        };
        out.push(v);
        proof {
            assert(fit_bytes(src@, w as nat).take((i + 1) as int) =~= fit_bytes(
                src@,
                w as nat,
            ).take(i as int) + seq![fit_bytes(src@, w as nat)[i as int]]);
            assert(out@ =~= old(out)@ + fit_bytes(src@, w as nat).take((i + 1) as int));
        }
        i = i + 1;
    }
    proof {
        assert(fit_bytes(src@, w as nat).take(w as int) =~= fit_bytes(src@, w as nat));
    }
}

/// Appends all of `src`.
pub fn push_bytes(out: &mut Vec<u8>, src: &[u8])
    ensures
        final(out)@ == old(out)@ + src@,
{
    let mut b = slice_to_vec(src);
    out.append(&mut b);
}

/// Copies `len` bytes starting at `off` out of a received buffer.
pub fn read_bytes(b: &[u8], off: usize, len: usize) -> (r: Vec<u8>)
    requires
        off + len <= b@.len(),
    ensures
        r@ == b@.subrange(off as int, off as int + len as int),
{
    let n = b.len();
    let s = slice_subrange(b, off, off + len);
    slice_to_vec(s)
}

pub fn read_u8(b: &[u8], off: usize) -> (r: u8)
    requires
        off < b@.len(),
    ensures
        r == b@[off as int],
{
    *slice_index_get(b, off)
}

pub fn read_u16_le(b: &[u8], off: usize) -> (r: u16)
    requires
        off + 2 <= b@.len(),
    ensures
        r == spec_u16_from_le_bytes(b@.subrange(off as int, off as int + 2)),
        spec_u16_to_le_bytes(r) == b@.subrange(off as int, off as int + 2),
{
    proof {
        lemma_auto_spec_u16_to_from_le_bytes();
    }
    let n = b.len();
    let s = slice_subrange(b, off, off + 2);
    u16_from_le_bytes(s)
}

pub fn read_u32_le(b: &[u8], off: usize) -> (r: u32)
    requires
        off + 4 <= b@.len(),
    ensures
        r == spec_u32_from_le_bytes(b@.subrange(off as int, off as int + 4)),
        spec_u32_to_le_bytes(r) == b@.subrange(off as int, off as int + 4),
{
    proof {
        lemma_auto_spec_u32_to_from_le_bytes();
    }
    let n = b.len();
    let s = slice_subrange(b, off, off + 4);
    u32_from_le_bytes(s)
}

pub fn read_u64_le(b: &[u8], off: usize) -> (r: u64)
    requires
        off + 8 <= b@.len(),
    ensures
        r == spec_u64_from_le_bytes(b@.subrange(off as int, off as int + 8)),
        spec_u64_to_le_bytes(r) == b@.subrange(off as int, off as int + 8),
{
    proof {
        lemma_auto_spec_u64_to_from_le_bytes();
    }
    let n = b.len();
    let s = slice_subrange(b, off, off + 8);
    u64_from_le_bytes(s)
}

} // verus!
