//! The network layer: the Internet checksum and the ARP, IP and ICMP headers.

use vstd::prelude::*;
use vstd::arithmetic::div_mod::{lemma_add_mod_noop, lemma_fundamental_div_mod, lemma_small_mod};

pub mod arp;
pub mod icmp;
pub mod if_;
pub mod ip;

verus! {

/// What the byte at index `i` adds to the sum of 16-bit words: bytes at even
/// indices are the high half of their word. A trailing byte at an even index
/// thereby counts as if a zero byte followed it.
pub open spec fn spec_byte_weight(i: int) -> nat {
    if i % 2 == 0 {
        256
    } else {
        1
    }
}

/// The plain sum of the 16-bit words of `s`, read most significant byte
/// first.
pub open spec fn spec_word_sum(s: Seq<u8>) -> nat
    decreases s.len(),
{
    if s.len() == 0 {
        0
    } else {
        spec_word_sum(s.drop_last()) + s.last() as nat * spec_byte_weight(s.len() - 1)
    }
}

/// End-around carry: the bits above the low sixteen are added back in until
/// none are left.
pub open spec fn spec_fold16(x: nat) -> nat
    decreases x,
{
    if x < 65536 {
        x
    } else {
        spec_fold16(x / 65536 + x % 65536)
    }
}

/// The Internet checksum of `s`: the one's complement of the folded sum of
/// its 16-bit words.
pub open spec fn spec_cksum(s: Seq<u8>) -> u16 {
    (65535 - spec_fold16(spec_word_sum(s))) as u16
}

/// Folding never leaves sixteen bits, keeps zero apart from everything else,
/// and keeps the remainder modulo 65535.
pub proof fn lemma_fold16_closed(x: nat)
    ensures
        spec_fold16(x) == if x == 0 {
            0
        } else {
            (x - 1) % 65535 + 1
        },
        spec_fold16(x) <= 65535,
    decreases x,
{
    if x >= 65536 {
        let q = x / 65536;
        let r = x % 65536;
        let y = q + r;
        lemma_fundamental_div_mod(x as int, 65536);
        assert(x == 65536 * q + r);
        assert(1 <= y < x);
        lemma_fold16_closed(y);
        // x - 1 and y - 1 differ by a multiple of 65535
        assert(x - 1 == 65535 * q + (y - 1));
        lemma_mod_shift(y - 1, q as int);
    } else if x > 0 {
        lemma_small_mod((x - 1) as nat, 65535);
    }
}

proof fn lemma_mod_shift(a: int, q: int)
    requires
        0 <= a,
        0 <= q,
    ensures
        (65535 * q + a) % 65535 == a % 65535,
    decreases q,
{
    if q > 0 {
        lemma_mod_shift(a, q - 1);
        let b = 65535 * (q - 1) + a;
        assert(65535 * q + a == b + 65535);
        lemma_add_mod_noop(b, 65535, 65535);
        lemma_small_mod((b % 65535) as nat, 65535);
    }
}

/// Folding a partial result before adding more changes nothing.
pub proof fn lemma_fold16_add(x: nat, y: nat)
    ensures
        spec_fold16(spec_fold16(x) + y) == spec_fold16(x + y),
{
    lemma_fold16_closed(x);
    lemma_fold16_closed(x + y);
    lemma_fold16_closed(spec_fold16(x) + y);
    if x > 0 {
        let a = (x - 1) as int;
        lemma_add_mod_noop(a, y as int, 65535);
        lemma_add_mod_noop(a % 65535, y as int, 65535);
        lemma_small_mod((a % 65535) as nat, 65535);
    }
}

/// Appending one byte adds its weighted value to the sum.
pub proof fn lemma_word_sum_push(s: Seq<u8>, b: u8)
    ensures
        spec_word_sum(s.push(b)) == spec_word_sum(s) + b as nat * spec_byte_weight(s.len() as int),
{
    assert(s.push(b).drop_last() =~= s);
}

/// Changing one byte changes the sum by the weighted difference.
pub proof fn lemma_word_sum_update(s: Seq<u8>, i: int, v: u8)
    requires
        0 <= i < s.len(),
    ensures
        spec_word_sum(s.update(i, v)) + s[i] as nat * spec_byte_weight(i) == spec_word_sum(s)
            + v as nat * spec_byte_weight(i),
    decreases s.len(),
{
    let t = s.update(i, v);
    if i == s.len() - 1 {
        assert(t.drop_last() =~= s.drop_last());
    } else {
        assert(t.drop_last() =~= s.drop_last().update(i, v));
        lemma_word_sum_update(s.drop_last(), i, v);
    }
}

/// One step of end-around carry on a value that fits seventeen bits.
fn fold_step(acc: u32) -> (r: u32)
    requires
        acc <= 0x1fffe,
    ensures
        r == spec_fold16(acc as nat),
        r <= 0xffff,
{
    proof {
        lemma_fold16_closed(acc as nat);
        if acc >= 65536 {
            lemma_small_mod((acc - 65536) as nat, 65535);
            lemma_mod_shift(acc - 65536, 1);
        } else if acc > 0 {
            lemma_small_mod((acc - 1) as nat, 65535);
        }
    }
    if acc > 0xffff {
        acc - 0xffff
    } else {
        acc
    }
}

/// The Internet checksum of `data` as RFC 1071 defines it.
///
/// The result is the number whose two bytes, most significant first, go into
/// the checksum field.
pub fn inet_cksum(data: &[u8]) -> (r: u16)
    ensures
        r == spec_cksum(data@),
{
    let n: usize = data.len();
    let mut acc: u32 = 0;
    let mut i: usize = 0;
    while i < n
        invariant
            n == data.len(),
            i <= n,
            acc <= 0xffff,
            acc == spec_fold16(spec_word_sum(data@.subrange(0, i as int))),
        decreases n - i,
    {
        let b: u32 = data[i] as u32;
        let w: u32 = if i % 2 == 0 {
            b * 256
        } else {
            b
        };
        proof {
            let pre = data@.subrange(0, i as int);
            assert(data@.subrange(0, i + 1) =~= pre.push(data@[i as int]));
            lemma_word_sum_push(pre, data@[i as int]);
            lemma_fold16_add(spec_word_sum(pre), w as nat);
        }
        acc = fold_step(acc + w);
        i = i + 1;
    }
    proof {
        assert(data@.subrange(0, n as int) =~= data@);
    }
    (0xffff - acc) as u16
}

/// A buffer whose checksum field was zero when the checksum was taken
/// verifies once the checksum is stored in that field: the checksum over the
/// completed buffer is zero.
///
/// The field is the two bytes at the even offset `at`.
pub proof fn lemma_cksum_self_verifies(s: Seq<u8>, at: int)
    requires
        0 <= at,
        at + 2 <= s.len(),
        at % 2 == 0,
        s[at] == 0,
        s[at + 1] == 0,
    ensures
        spec_cksum(
            s.update(at, (spec_cksum(s) / 256) as u8).update(at + 1, (spec_cksum(s) % 256) as u8),
        ) == 0,
{
    let c = spec_cksum(s);
    let hi = (c / 256) as u8;
    let lo = (c % 256) as u8;
    let s1 = s.update(at, hi);
    let s2 = s1.update(at + 1, lo);
    let x = spec_word_sum(s);
    lemma_word_sum_update(s, at, hi);
    lemma_word_sum_update(s1, at + 1, lo);
    lemma_fold16_closed(x);
    assert(hi as nat * 256 + lo as nat == c as nat);
    assert(spec_byte_weight(at) == 256);
    assert(spec_byte_weight(at + 1) == 1);
    assert(s1[at + 1] == 0);
    assert(spec_word_sum(s1) == x + hi as nat * 256);
    assert(spec_word_sum(s2) == x + c as nat);
    lemma_fold16_closed(x + c as nat);
    let f = spec_fold16(x);
    assert(c as nat == 65535 - f);
    if x == 0 {
        assert(x + c as nat == 65535);
        lemma_small_mod(65534, 65535);
    } else {
        // x - 1 == 65535 * k + (f - 1), so x + c - 1 == 65535 * (k + 1) - 1
        let k = (x - 1) / 65535;
        lemma_fundamental_div_mod(x - 1, 65535);
        assert(x - 1 == 65535 * k + (f - 1));
        assert(x + c as nat - 1 == 65535 * k + 65534);
        lemma_mod_shift(65534, k as int);
        lemma_small_mod(65534, 65535);
    }
}

} // verus!
