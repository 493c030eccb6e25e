//! Copying bytes into a caller's buffer.

use bytes::BufMut;
use vstd::prelude::*;

verus! {

/// Writes `src` over the first `src.len()` bytes of `dst` and leaves the rest
/// of `dst` as it was.
///
/// This is `bytes::BufMut::put_slice` on a `&mut [u8]`, which copies `src` to
/// the front of the slice and then moves its own reference past what it wrote.
/// It panics when `src` is longer than the slice, hence the precondition.
/// The contract is taken on trust from that implementation.
#[verifier::external_body]
pub(crate) fn put_slice(dst: &mut [u8], src: &[u8])
    requires
        src@.len() <= old(dst)@.len(),
    ensures
        final(dst)@ == src@ + old(dst)@.skip(src@.len() as int),
{
    let mut writer: &mut [u8] = dst;
    writer.put_slice(src);
}

} // verus!
