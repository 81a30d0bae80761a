//! Byte-level helpers shared by the codec and the instruction handlers.

use vstd::prelude::*;

verus! {

use vstd::slice::{slice_index_get, slice_subrange, slice_to_vec};

/// The host's cap on an account's data size (10 MiB).
pub const MAX_ACCOUNT_DATA_LEN: usize = 10 * 1024 * 1024;

/// The wire byte of a flag.
pub open spec fn bool_byte(b: bool) -> u8 {
    if b {
        1u8
    } else {
        0u8
    }
}

/// An optional 32-byte key under the zero sentinel: all-zero bytes stand
/// for "absent".
pub open spec fn spec_zeroable_key(k: Seq<u8>) -> Option<Seq<u8>> {
    if k == zero_bytes(32) {
        None
    } else {
        Some(k)
    }
}

/// The wire form of an optional 32-byte key: the key itself, or the zero
/// sentinel for "absent".
pub open spec fn opt_key_bytes(k: Option<Seq<u8>>) -> Seq<u8> {
    match k {
        Option::None => zero_bytes(32),
        Option::Some(s) => s,
    }
}

/// A sequence of `n` zero bytes.
pub open spec fn zero_bytes(n: int) -> Seq<u8> {
    Seq::new(n as nat, |i: int| 0u8)
}

/// `data` with `src` written over the range starting at `off`.
pub open spec fn spec_splice(data: Seq<u8>, off: int, src: Seq<u8>) -> Seq<u8>
    recommends
        0 <= off,
        off + src.len() <= data.len(),
{
    data.take(off) + src + data.skip(off + src.len())
}

/// `data` truncated or zero-extended to length `n`, as the host resizes
/// account storage.
pub open spec fn spec_resized(data: Seq<u8>, n: int) -> Seq<u8>
    recommends
        0 <= n,
{
    if n <= data.len() {
        data.take(n)
    } else {
        data + zero_bytes(n - data.len())
    }
}

/// A splice leaves every range outside the written one as it was.
pub proof fn lemma_splice_outside(d: Seq<u8>, off: int, s: Seq<u8>, lo: int, hi: int)
    requires
        0 <= off,
        off + s.len() <= d.len(),
        0 <= lo <= hi <= d.len(),
        hi <= off || lo >= off + s.len(),
    ensures
        spec_splice(d, off, s).len() == d.len(),
        spec_splice(d, off, s).subrange(lo, hi) == d.subrange(lo, hi),
{
    assert(spec_splice(d, off, s).subrange(lo, hi) =~= d.subrange(lo, hi));
}

/// A splice holds exactly the written bytes over the written range.
pub proof fn lemma_splice_inside(d: Seq<u8>, off: int, s: Seq<u8>)
    requires
        0 <= off,
        off + s.len() <= d.len(),
    ensures
        spec_splice(d, off, s).len() == d.len(),
        spec_splice(d, off, s).subrange(off, off + s.len()) == s,
{
    assert(spec_splice(d, off, s).subrange(off, off + s.len()) =~= s);
}

/// A resize keeps every byte below both the old and the new length.
pub proof fn lemma_resized_prefix(d: Seq<u8>, n: int, lo: int, hi: int)
    requires
        0 <= n,
        0 <= lo <= hi,
        hi <= n,
        hi <= d.len(),
    ensures
        spec_resized(d, n).len() == n,
        spec_resized(d, n).subrange(lo, hi) == d.subrange(lo, hi),
{
    assert(spec_resized(d, n).subrange(lo, hi) =~= d.subrange(lo, hi));
}

/// A vector of `n` zero bytes.
pub fn zeroed(n: usize) -> (r: Vec<u8>)
    ensures
        r@ == zero_bytes(n as int),
{
    let mut r: Vec<u8> = Vec::new();
    let mut i: usize = 0;
    while i < n
        invariant
            i <= n,
            r@ =~= zero_bytes(i as int),
        decreases n - i,
    {
        r.push(0u8);
        proof {
            assert(r@ =~= zero_bytes(i + 1));
        }
        i = i + 1;
    }
    r
}

/// Whether two byte slices hold the same bytes.
pub fn bytes_eq(a: &[u8], b: &[u8]) -> (r: bool)
    ensures
        r <==> a@ == b@,
{
    if a.len() != b.len() {
        proof {
            assert(a@ != b@);
        }
        return false;
    }
    let n = a.len();
    let mut i: usize = 0;
    while i < n
        invariant
            i <= n,
            a@.len() == n,
            b@.len() == n,
            forall|j: int| 0 <= j < i ==> a@[j] == b@[j],
        decreases n - i,
    {
        if *slice_index_get(a, i) != *slice_index_get(b, i) {
            proof {
                assert(a@[i as int] != b@[i as int]);
            }
            return false;
        }
        i = i + 1;
    }
    proof {
        assert(a@ =~= b@);
    }
    true
}

/// Whether every byte of `a` is zero.
pub fn all_zero(a: &[u8]) -> (r: bool)
    ensures
        r <==> a@ == zero_bytes(a@.len() as int),
{
    let n = a.len();
    let mut i: usize = 0;
    while i < n
        invariant
            i <= n,
            a@.len() == n,
            forall|j: int| 0 <= j < i ==> a@[j] == 0u8,
        decreases n - i,
    {
        if *slice_index_get(a, i) != 0u8 {
            proof {
                assert(a@[i as int] != 0u8);
                assert(a@ != zero_bytes(a@.len() as int));
            }
            return false;
        }
        i = i + 1;
    }
    proof {
        assert(a@ =~= zero_bytes(a@.len() as int));
    }
    true
}

/// A copy of `data[off .. off + len]`.
pub fn read_bytes(data: &[u8], off: usize, len: usize) -> (r: Vec<u8>)
    requires
        off + len <= data@.len(),
    ensures
        r@ == data@.subrange(off as int, off + len),
{
    let n = data.len();
    proof {
        assert(off + len <= n);
    }
    let sub = slice_subrange(data, off, off + len);
    slice_to_vec(sub)
}

/// Reads an optional 32-byte key stored at `off` under the zero sentinel.
pub fn read_zeroable_key(data: &[u8], off: usize) -> (r: Option<Vec<u8>>)
    requires
        off + 32 <= data@.len(),
    ensures
        match r {
            Some(k) => spec_zeroable_key(data@.subrange(off as int, off + 32)) == Some(k@),
            None => spec_zeroable_key(data@.subrange(off as int, off + 32)) is None,
        },
{
    let k = read_bytes(data, off, 32);
    if all_zero(k.as_slice()) {
        None
    } else {
        Some(k)
    }
}

/// Writes `src` over `dst` starting at `off`.
pub fn write_bytes(dst: &mut Vec<u8>, off: usize, src: &[u8])
    requires
        off + src@.len() <= old(dst)@.len(),
    ensures
        final(dst)@ == spec_splice(old(dst)@, off as int, src@),
        final(dst)@.len() == old(dst)@.len(),
{
    let n = src.len();
    let mut i: usize = 0;
    while i < n
        invariant
            i <= n,
            src@.len() == n,
            off + n <= dst@.len(),
            dst@.len() == old(dst)@.len(),
            forall|j: int| 0 <= j < i ==> dst@[off + j] == src@[j],
            forall|j: int| 0 <= j < dst@.len() && !(off <= j < off + i) ==> dst@[j] == old(
                dst,
            )@[j],
        decreases n - i,
    {
        let b = *slice_index_get(src, i);
        let dl = dst.len();
        proof {
            assert(off + i < dl);
        }
        dst.set(off + i, b);
        i = i + 1;
    }
    proof {
        assert(final(dst)@ =~= spec_splice(old(dst)@, off as int, src@));
    }
}

/// Appends `src` to `dst`.
pub fn append_bytes(dst: &mut Vec<u8>, src: &[u8])
    ensures
        final(dst)@ == old(dst)@ + src@,
{
    dst.extend_from_slice(src);
    proof {
        assert forall|i: int| 0 <= i < dst@.len() implies dst@[i] == (old(dst)@ + src@)[i] by {
            if i >= old(dst)@.len() {
                assert(cloned::<u8>(src@[i - old(dst)@.len()], dst@[i]));
            }
        }
        assert(dst@ =~= old(dst)@ + src@);
    }
}

/// Truncates or zero-extends `data` to length `n`, as the host resizes
/// account storage.
pub fn resized(data: &Vec<u8>, n: usize) -> (r: Vec<u8>)
    ensures
        r@ == spec_resized(data@, n as int),
{
    if n <= data.len() {
        let sub = slice_subrange(data.as_slice(), 0, n);
        let r = slice_to_vec(sub);
        proof {
            assert(r@ =~= spec_resized(data@, n as int));
        }
        r
    } else {
        let mut r = slice_to_vec(data.as_slice());
        let mut i: usize = data.len();
        while i < n
            invariant
                data@.len() <= i <= n,
                r@ =~= data@ + zero_bytes(i - data@.len()),
            decreases n - i,
        {
            r.push(0u8);
            proof {
                assert(r@ =~= data@ + zero_bytes(i + 1 - data@.len()));
            }
            i = i + 1;
        }
        proof {
            assert(r@ =~= spec_resized(data@, n as int));
        }
        r
    }
}

} // verus!
