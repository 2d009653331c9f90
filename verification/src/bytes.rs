//! Copying byte ranges inside and between buffers.

use vstd::prelude::*;

verus! {

/// `d` with the bytes from `off` on replaced by `s`; the length is kept.
pub open spec fn spec_overwrite(d: Seq<u8>, off: int, s: Seq<u8>) -> Seq<u8>
    recommends
        0 <= off,
        off + s.len() <= d.len(),
{
    d.subrange(0, off) + s + d.subrange(off + s.len(), d.len() as int)
}

/// Overwriting keeps the length, puts `s` at `off` and leaves the rest.
pub proof fn lemma_overwrite(d: Seq<u8>, off: int, s: Seq<u8>)
    requires
        0 <= off,
        off + s.len() <= d.len(),
    ensures
        spec_overwrite(d, off, s).len() == d.len(),
        spec_overwrite(d, off, s).subrange(off, off + s.len()) == s,
        forall|i: int| 0 <= i < off ==> spec_overwrite(d, off, s)[i] == d[i],
        forall|i: int| off <= i < off + s.len() ==> spec_overwrite(d, off, s)[i] == s[i - off],
        forall|i: int| off + s.len() <= i < d.len() ==> spec_overwrite(d, off, s)[i] == d[i],
{
    assert(spec_overwrite(d, off, s).subrange(off, off + s.len()) =~= s);
}

/// Writes `src` into `dst` starting at `off`.
pub fn copy_into(dst: &mut Vec<u8>, off: usize, src: &[u8])
    requires
        off + src.len() <= old(dst).len(),
    ensures
        final(dst)@ == spec_overwrite(old(dst)@, off as int, src@),
        final(dst).len() == old(dst).len(),
{
    let ghost d0 = dst@;
    let n: usize = src.len();
    let mut i: usize = 0;
    while i < n
        invariant
            n == src.len(),
            off + n <= d0.len(),
            off + n <= dst.len(),
            i <= n,
            dst@.len() == d0.len(),
            dst@ == spec_overwrite(d0, off as int, src@.subrange(0, i as int)),
        decreases n - i,
    {
        let b: u8 = src[i];
        dst.set(off + i, b);
        proof {
            assert(dst@ =~= spec_overwrite(d0, off as int, src@.subrange(0, i + 1)));
        }
        i = i + 1;
    }
    proof {
        assert(src@.subrange(0, n as int) =~= src@);
    }
}

/// Appends `src[from..to]` to `dst`.
pub fn append_range(dst: &mut Vec<u8>, src: &[u8], from: usize, to: usize)
    requires
        from <= to <= src.len(),
    ensures
        final(dst)@ == old(dst)@ + src@.subrange(from as int, to as int),
{
    let ghost d0 = dst@;
    let mut i: usize = from;
    while i < to
        invariant
            from <= i <= to,
            to <= src.len(),
            dst@ == d0 + src@.subrange(from as int, i as int),
        decreases to - i,
    {
        dst.push(src[i]);
        proof {
            assert(dst@ =~= d0 + src@.subrange(from as int, i + 1));
        }
        i = i + 1;
    }
}

/// A fresh copy of `src[from..to]`.
pub fn copy_range(src: &[u8], from: usize, to: usize) -> (r: Vec<u8>)
    requires
        from <= to <= src.len(),
    ensures
        r@ == src@.subrange(from as int, to as int),
{
    let mut out: Vec<u8> = Vec::new();
    append_range(&mut out, src, from, to);
    proof {
        assert(out@ =~= src@.subrange(from as int, to as int));
    }
    out
}

/// A buffer of `n` zero bytes.
pub fn zeroed(n: usize) -> (r: Vec<u8>)
    ensures
        r@ == Seq::new(n as nat, |i: int| 0u8),
{
    let mut out: Vec<u8> = Vec::new();
    let mut i: usize = 0;
    while i < n
        invariant
            i <= n,
            out@ == Seq::new(i as nat, |j: int| 0u8),
        decreases n - i,
    {
        out.push(0u8);
        proof {
            assert(out@ =~= Seq::new((i + 1) as nat, |j: int| 0u8));
        }
        i = i + 1;
    }
    out
}

} // verus!
