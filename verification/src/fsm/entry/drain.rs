//! Output that a decompressor produced and that is handed out as room
//! allows.
use vstd::prelude::*;

use super::DecompressOutcome;

verus! {

/// `out1` is `out0` with as much of `before` as fits copied to its start
/// (`written` bytes), and `after` is what is left of `before`.
pub open spec fn copies_pending(
    before: Seq<u8>,
    after: Seq<u8>,
    out0: Seq<u8>,
    out1: Seq<u8>,
    written: int,
) -> bool {
    let k = if before.len() <= out0.len() {
        before.len() as int
    } else {
        out0.len() as int
    };
    &&& written == k
    &&& after == before.subrange(k, before.len() as int)
    &&& out1 == before.subrange(0, k) + out0.subrange(k, out0.len() as int)
}

/// What was handed out (`written`), then what is still waiting (`after`),
/// starts with what was waiting before (`before`): nothing of it is lost or
/// reordered, and what the decoder produced meanwhile comes after it.
pub open spec fn continues(before: Seq<u8>, written: Seq<u8>, after: Seq<u8>) -> bool {
    &&& before.len() <= written.len() + after.len()
    &&& (written + after).subrange(0, before.len() as int) == before
}

/// `written + after` is `before` followed by `produced`, so it continues
/// `before`.
pub(crate) proof fn lemma_continues(before: Seq<u8>, written: Seq<u8>, after: Seq<u8>, produced: Seq<u8>)
    requires
        written + after == before + produced,
    ensures
        continues(before, written, after),
        produced.len() == 0 ==> written + after == before,
{
    assert((before + produced).subrange(0, before.len() as int) =~= before);
    assert((written + after).len() == before.len() + produced.len());
    assert((written + after).subrange(0, before.len() as int) == before);
    if produced.len() == 0 {
        assert(before + produced =~= before);
    }
}

/// A copy of pending bytes to the start of `out` loses none of them, and
/// a copy of nothing changes nothing.
pub(crate) proof fn lemma_copies_pending(
    before: Seq<u8>,
    after: Seq<u8>,
    out0: Seq<u8>,
    out1: Seq<u8>,
    k: int,
)
    requires
        copies_pending(before, after, out0, out1, k),
    ensures
        out1.subrange(0, k) + after == before,
        k == 0 ==> out1 == out0 && after == before,
{
    assert(out1.subrange(0, k) =~= before.subrange(0, k));
    assert(before.subrange(0, k) + before.subrange(k, before.len() as int) =~= before);
    if k == 0 {
        assert(out1 =~= out0);
        assert(after =~= before);
    }
}

/// Bytes waiting to be copied out: `buf[pos..]`.
pub struct Pending {
    buf: Vec<u8>,
    pos: usize,
}

impl Pending {
    /// The bytes waiting to be copied out, in order.
    pub closed spec fn spec_bytes(&self) -> Seq<u8> {
        self.buf@.subrange(self.pos as int, self.buf@.len() as int)
    }

    /// The invariant: the position lies in the buffer.
    pub closed spec fn wf(&self) -> bool {
        self.pos <= self.buf@.len()
    }

    /// Nothing waiting.
    pub fn new() -> (r: Self)
        ensures
            r.wf(),
            r.spec_bytes() == Seq::<u8>::empty(),
    {
        let r = Pending { buf: Vec::new(), pos: 0 };
        assert(r.spec_bytes() =~= Seq::<u8>::empty());
        r
    }

    /// Whether nothing is waiting.
    pub fn is_empty(&self) -> (r: bool)
        requires
            self.wf(),
        ensures
            r == (self.spec_bytes().len() == 0),
    {
        self.pos == self.buf.len()
    }

    /// Adds `more` after what is waiting.
    pub fn append(&mut self, more: Vec<u8>)
        requires
            old(self).wf(),
        ensures
            final(self).wf(),
            final(self).spec_bytes() == old(self).spec_bytes() + more@,
    {
        if self.pos == self.buf.len() {
            self.buf = more;
            self.pos = 0;
            assert(self.spec_bytes() =~= old(self).spec_bytes() + more@);
        } else {
            let mut i: usize = 0;
            let ghost b0 = self.buf@;
            while i < more.len()
                invariant
                    i <= more@.len(),
                    self.pos == old(self).pos,
                    self.pos <= b0.len(),
                    b0 == old(self).buf@,
                    self.buf@ == b0 + more@.subrange(0, i as int),
                decreases more@.len() - i,
            {
                self.buf.push(more[i]);
                i = i + 1;
                assert(self.buf@ =~= b0 + more@.subrange(0, i as int));
            }
            assert(more@.subrange(0, more@.len() as int) =~= more@);
            assert(self.spec_bytes() =~= old(self).spec_bytes() + more@);
        }
    }

    /// Copies as much of what is waiting as fits to the start of `out`,
    /// drops it from what is waiting, and adds its count to
    /// `outcome.bytes_written`.
    pub fn copy_to_out(&mut self, out: &mut [u8], outcome: &mut DecompressOutcome)
        requires
            old(self).wf(),
            old(outcome).bytes_written + old(out)@.len() <= usize::MAX,
        ensures
            final(self).wf(),
            final(outcome).bytes_read == old(outcome).bytes_read,
            copies_pending(
                old(self).spec_bytes(),
                final(self).spec_bytes(),
                old(out)@,
                final(out)@,
                final(outcome).bytes_written - old(outcome).bytes_written,
            ),
    {
        let ghost out0 = out@;
        let ghost p0 = self.pos as int;
        let n = out.len();
        let mut i: usize = 0;
        while i < n && self.pos < self.buf.len()
            invariant
                0 <= i <= n,
                n == out0.len(),
                out@.len() == n,
                p0 <= self.pos <= self.buf@.len(),
                self.buf@ == old(self).buf@,
                p0 == old(self).pos,
                self.pos - p0 == i,
                forall|j: int| i <= j < n ==> out@[j] == out0[j],
                forall|j: int| 0 <= j < i ==> out@[j] == self.buf@[p0 + j],
            decreases n - i,
        {
            let ghost before = out@;
            let b = self.buf[self.pos];
            out[i] = b;
            assert forall|j: int| 0 <= j < i + 1 implies out@[j] == self.buf@[p0 + j] by {
                if j < i {
                    assert(before.update(i as int, b)[j] == before[j]);
                }
            }
            self.pos = self.pos + 1;
            i = i + 1;
        }
        outcome.bytes_written = outcome.bytes_written + i;
        let ghost k = i as int;
        assert(out@ =~= old(self).spec_bytes().subrange(0, k) + out0.subrange(k, n as int));
        assert(self.spec_bytes() =~= old(self).spec_bytes().subrange(k, old(self).spec_bytes().len() as int));
    }
}

/// `a + d` starts with `a`, and what follows it is `d`.
pub(crate) proof fn lemma_grown(a: Seq<u8>, d: Seq<u8>)
    ensures
        a.is_prefix_of(a + d),
        (a + d).subrange(a.len() as int, (a + d).len() as int) == d,
{
    assert((a + d).subrange(0, a.len() as int) =~= a);
    assert((a + d).subrange(a.len() as int, (a + d).len() as int) =~= d);
}

} // verus!
