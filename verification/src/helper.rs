//! Randomness for control ids and CTPP bitmasks.

use rand::distributions::{Distribution, Uniform};
use vstd::prelude::*;

verus! {

/// Smallest byte that is ever drawn. Zero is left out: it serves as a
/// terminator inside frames.
pub const START: u8 = 0x01;

/// One more than the largest byte that is ever drawn. The device adds 0x80
/// to some bytes that it echoes, so the upper half is left free.
pub const END: u8 = 0x80;

/// Every byte of `bytes` lies in `[START, END)`.
pub open spec fn drawn(bytes: Seq<u8>) -> bool {
    forall|i: int| 0 <= i < bytes.len() ==> START <= #[trigger] bytes[i] < END
}

/// One byte from `rand`: builds `Uniform::from(low..high)` and samples it
/// once with the thread-local generator `thread_rng()`. The crate documents
/// that such a distribution samples from the half-open range
/// `[low, high)` and that building it panics when `low >= high`; nothing
/// else is claimed of the byte, which differs from call to call. The
/// generator itself gives up only where the operating system has no
/// randomness to seed it with.
#[verifier::external_body]
fn uniform_byte(low: u8, high: u8) -> (b: u8)
    requires
        low < high,
    ensures
        low <= b < high,
{
    Uniform::from(low..high).sample(&mut rand::thread_rng())
}

/// Draws random bytes.
pub struct Helper {}

impl Helper {
    /// `size` random bytes, each in `[START, END)`.
    pub fn gen_ran(size: usize) -> (bytes: Vec<u8>)
        ensures
            bytes@.len() == size,
            drawn(bytes@),
    {
        let mut bytes: Vec<u8> = Vec::new();
        let mut i: usize = 0;
        while i < size
            invariant
                i <= size,
                bytes@.len() == i,
                drawn(bytes@),
            decreases size - i,
        {
            let b = uniform_byte(START, END);
            bytes.push(b);
            i = i + 1;
        }
        bytes
    }

    /// A random control id: two bytes, each in `[START, END)`.
    pub fn control() -> (id: [u8; 2])
        ensures
            drawn(id@),
    {
        Helper::two()
    }

    /// Two random bytes, each in `[START, END)`.
    pub fn two() -> (bytes: [u8; 2])
        ensures
            drawn(bytes@),
    {
        let b0 = uniform_byte(START, END);
        let b1 = uniform_byte(START, END);
        [b0, b1]
    }

    /// Four random bytes, each in `[START, END)`.
    pub fn four() -> (bytes: [u8; 4])
        ensures
            drawn(bytes@),
    {
        let b0 = uniform_byte(START, END);
        let b1 = uniform_byte(START, END);
        let b2 = uniform_byte(START, END);
        let b3 = uniform_byte(START, END);
        [b0, b1, b2, b3]
    }
}

} // verus!
