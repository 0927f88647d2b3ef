//! Byte-sequence helpers shared by the frame builders.

use vstd::prelude::*;

verus! {

/// `base` with `bytes` written over it from index `at` on.
pub open spec fn overlay(base: Seq<u8>, at: int, bytes: Seq<u8>) -> Seq<u8> {
    Seq::new(
        base.len(),
        |i: int|
            if at <= i < at + bytes.len() {
                bytes[i - at]
            } else {
                base[i]
            },
    )
}

/// Appends `bytes` to `out`.
pub fn extend(out: &mut Vec<u8>, bytes: &[u8])
    ensures
        final(out)@ == old(out)@ + bytes@,
{
    out.extend_from_slice(bytes);
}

} // verus!
