//! The decompressor for stored (uncompressed) entries.
use vstd::prelude::*;

use super::DecompressOutcome;

verus! {

/// Copies its input to its output.
pub struct StoreDec;

impl StoreDec {
    /// Copies as many bytes of `in_buf` as fit into `out_buf`.
    pub fn decompress(&mut self, in_buf: &[u8], out_buf: &mut [u8]) -> (r: DecompressOutcome)
        ensures
            r.bytes_read == r.bytes_written,
            r.bytes_read == (if in_buf@.len() <= old(out_buf)@.len() {
                in_buf@.len()
            } else {
                old(out_buf)@.len()
            }),
            final(out_buf)@ == in_buf@.subrange(0, r.bytes_read as int) + old(out_buf)@.subrange(
                r.bytes_read as int,
                old(out_buf)@.len() as int,
            ),
    {
        let len = if in_buf.len() <= out_buf.len() {
            in_buf.len()
        } else {
            out_buf.len()
        };
        let mut i: usize = 0;
        while i < len
            invariant
                len <= in_buf@.len(),
                len <= old(out_buf)@.len(),
                i <= len,
                out_buf@.len() == old(out_buf)@.len(),
                forall|k: int| 0 <= k < i ==> out_buf@[k] == in_buf@[k],
                forall|k: int| i <= k < out_buf@.len() ==> out_buf@[k] == old(out_buf)@[k],
            decreases len - i,
        {
            out_buf[i] = in_buf[i];
            i = i + 1;
        }
        assert(out_buf@ =~= in_buf@.subrange(0, len as int) + old(out_buf)@.subrange(
            len as int,
            old(out_buf)@.len() as int,
        ));
        DecompressOutcome { bytes_read: len, bytes_written: len }
    }
}

} // verus!
