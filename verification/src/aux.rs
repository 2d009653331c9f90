//! Helpers: random numbers and counters.

use vstd::prelude::*;
use rand::Rng;

verus! {

/// A random number from the generator of the current thread.
///
/// Calls `rand::thread_rng()` and `Rng::gen::<usize>()`. Nothing is
/// claimed of the number: every `usize` can come back, and two calls may
/// differ.
#[verifier::external_body]
pub fn software_random() -> (r: usize) {
    rand::thread_rng().gen::<usize>()
}

/// A random number.
pub fn random() -> (r: usize) {
    software_random()
}

/// `x` brought below 255.
pub fn bound_u8(x: usize) -> (r: u8)
    ensures
        r == x % 255,
{
    (x % 255) as u8
}

/// `x` brought below 65535.
pub fn bound_u16(x: usize) -> (r: u16)
    ensures
        r == x % 65535,
{
    (x % 65535) as u16
}

/// `x` brought below 4294967295.
pub fn bound_u32(x: usize) -> (r: u32)
    ensures
        r == x % 4294967295,
{
    (x % 4294967295) as u32
}

/// A random number below 255.
pub fn random_u8() -> (r: u8)
    ensures
        r < u8::MAX,
{
    bound_u8(random())
}

/// A random number below 65535.
pub fn random_u16() -> (r: u16)
    ensures
        r < u16::MAX,
{
    bound_u16(random())
}

/// A random number below 4294967295.
pub fn random_u32() -> (r: u32)
    ensures
        r < u32::MAX,
{
    bound_u32(random())
}

/// A counter that hands out consecutive numbers and starts over after the
/// largest.
#[derive(Clone, Copy, Debug, PartialEq, Eq, Structural)]
pub struct Counter {
    pub count: usize,
}

impl Counter {
    /// Hands out the current number and moves on to the next.
    pub fn next(&mut self) -> (r: usize)
        ensures
            r == old(self).count,
            final(self).count == if old(self).count == usize::MAX {
                0
            } else {
                old(self).count + 1
            },
    {
        let old_count: usize = self.count;
        self.count = if self.count == usize::MAX {
            0
        } else {
            self.count + 1
        };
        old_count
    }
}

/// A counter that starts at zero.
pub fn gen_counter() -> (r: Counter)
    ensures
        r.count == 0,
{
    _gen_counter(0)
}

/// A counter that starts at `init`.
pub fn _gen_counter(init: usize) -> (r: Counter)
    ensures
        r.count == init,
{
    Counter { count: init }
}

} // verus!
