//! Fixed-capacity byte strings.

use vstd::prelude::*;
use vstd::string::StringSliceAdditionalSpecFns;

verus! {

/// `N` bytes of text with no room reserved for a terminator.
#[derive(Clone, Copy, Debug, PartialEq, Eq, Hash)]
pub struct FixStr<const N: usize> {
    pub raw: [u8; N],
}

impl<const N: usize> View for FixStr<N> {
    type V = Seq<u8>;

    open spec fn view(&self) -> Seq<u8> {
        self.raw@
    }
}

/// The first `n` bytes of `s`, padded with zeros to `n` bytes.
pub open spec fn spec_fix(s: Seq<u8>, n: nat) -> Seq<u8> {
    Seq::new(
        n,
        |i: int|
            if i < s.len() {
                s[i]
            } else {
                0u8
            },
    )
}

/// Appends one character to a string.
///
/// Calls `String::push`, which puts `c` behind what `s` holds.
#[verifier::external_body]
fn string_push(s: &mut String, c: char)
    ensures
        final(s)@ == old(s)@.push(c),
{
    s.push(c)
}

impl<const N: usize> Default for FixStr<N> {
    fn default() -> (r: Self)
        ensures
            r@ == spec_fix(Seq::empty(), N as nat),
    {
        let r = FixStr { raw: [0u8; N] };
        proof {
            assert(r@ =~= spec_fix(Seq::empty(), N as nat));
        }
        r
    }
}

impl<const N: usize> FixStr<N> {
    /// The text `s`, cut or zero-padded to `N` bytes.
    pub fn from_bytes(s: &[u8]) -> (r: Self)
        ensures
            r@ == spec_fix(s@, N as nat),
    {
        let mut it = FixStr { raw: [0u8; N] };
        let mut i: usize = 0;
        while i < N && i < s.len()
            invariant
                i <= N,
                i <= s.len(),
                it.raw@.len() == N,
                forall|j: int| 0 <= j < i ==> it.raw@[j] == s@[j],
                forall|j: int| i <= j < N ==> it.raw@[j] == 0,
            decreases N - i,
        {
            it.raw[i] = s[i];
            i = i + 1;
        }
        proof {
            assert(it@ =~= spec_fix(s@, N as nat));
        }
        it
    }

    /// The text `s`, cut or zero-padded to `N` bytes.
    pub fn from_str(s: &str) -> (r: Self)
        ensures
            r@ == spec_fix(s.spec_bytes(), N as nat),
    {
        Self::from_bytes(s.as_bytes())
    }

    /// All `N` bytes, each as one character.
    pub fn to_string(&self) -> (r: String)
        ensures
            r@ == Seq::new(N as nat, |i: int| self.raw@[i] as char),
    {
        let mut s = String::new();
        let mut i: usize = 0;
        while i < N
            invariant
                i <= N,
                self.raw@.len() == N,
                s@ == Seq::new(i as nat, |j: int| self.raw@[j] as char),
            decreases N - i,
        {
            string_push(&mut s, self.raw[i] as char);
            proof {
                assert(s@ =~= Seq::new((i + 1) as nat, |j: int| self.raw@[j] as char));
            }
            i = i + 1;
        }
        s
    }

    /// The bytes, to read.
    pub fn as_ptr(&self) -> (r: &[u8; N])
        ensures
            r@ == self@,
    {
        &self.raw
    }

    /// The bytes, to change.
    pub fn as_mut_ptr(&mut self) -> (r: &mut [u8; N])
        ensures
            r@ == old(self)@,
            final(self)@ == final(r)@,
    {
        &mut self.raw
    }
}

} // verus!
