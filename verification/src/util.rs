//! A byte region paired with a cursor that records how much of the region
//! has been consumed (input side) or filled (output side) so far.

use vstd::prelude::*;
use vstd::seq_lib::*;
use vstd::slice::slice_subrange;

verus! {

/// A caller-owned byte region together with a cursor. The part in front of
/// the cursor, `[pos, len)`, is what has not yet been consumed or filled;
/// `advance` moves the cursor over bytes that were actually transferred.
/// The cursor never moves backwards and never passes the end of the region,
/// so the same bytes are never reported as unconsumed twice.
pub struct PartialBuffer {
    buffer: Vec<u8>,
    index: usize,
}

impl PartialBuffer {
    /// The whole underlying byte region.
    pub closed spec fn bytes(&self) -> Seq<u8> {
        self.buffer@
    }

    /// The cursor: how many bytes have been consumed or filled so far.
    pub closed spec fn pos(&self) -> int {
        self.index as int
    }

    /// The cursor stays inside the region.
    pub open spec fn wf(&self) -> bool {
        0 <= self.pos() <= self.bytes().len()
    }

    /// The part of the region in front of the cursor.
    pub open spec fn unwritten_view(&self) -> Seq<u8> {
        self.bytes().subrange(self.pos(), self.bytes().len() as int)
    }

    /// The part of the region behind the cursor.
    pub open spec fn written_view(&self) -> Seq<u8> {
        self.bytes().subrange(0, self.pos())
    }

    /// How many bytes are left in front of the cursor.
    pub open spec fn remaining(&self) -> int {
        self.bytes().len() - self.pos()
    }

    /// Wrap a fresh region; nothing of it is consumed yet.
    pub fn new(buffer: Vec<u8>) -> (r: Self)
        ensures
            r.bytes() == buffer@,
            r.pos() == 0,
            r.wf(),
    {
        PartialBuffer { buffer, index: 0 }
    }

    /// The cursor, as a runtime value.
    pub fn position(&self) -> (r: usize)
        ensures
            r as int == self.pos(),
    {
        self.index
    }

    /// The length of the whole region.
    pub fn len(&self) -> (r: usize)
        ensures
            r as int == self.bytes().len(),
    {
        self.buffer.len()
    }

    /// The part of the region behind the cursor, as a slice.
    pub fn written(&self) -> (r: &[u8])
        requires
            self.wf(),
        ensures
            r@ == self.written_view(),
    {
        slice_subrange(self.buffer.as_slice(), 0, self.index)
    }

    /// The part of the region in front of the cursor, as a slice.
    pub fn unwritten(&self) -> (r: &[u8])
        requires
            self.wf(),
        ensures
            r@ == self.unwritten_view(),
    {
        slice_subrange(self.buffer.as_slice(), self.index, self.buffer.len())
    }

    /// Move the cursor over `amount` bytes that were actually consumed or
    /// produced. Asking for more than the region still holds is a breach of
    /// this contract, so the cursor can only move forward, and only up to
    /// the end of the region.
    pub fn advance(&mut self, amount: usize)
        requires
            old(self).wf(),
            amount <= old(self).remaining(),
        ensures
            final(self).wf(),
            final(self).bytes() == old(self).bytes(),
            final(self).pos() == old(self).pos() + amount,
            old(self).pos() <= final(self).pos() <= final(self).bytes().len(),
    {
        // the runtime length bounds the sum, so the addition cannot overflow
        let len: usize = self.buffer.len();
        assert(self.index + amount <= len);
        self.index = self.index + amount;
    }

    /// Hand the underlying region back to the caller.
    pub fn into_inner(self) -> (r: Vec<u8>)
        ensures
            r@ == self.bytes(),
    {
        self.buffer
    }

    /// Crate-internal: lend the whole underlying region out for a native
    /// call to fill. The cursor is untouched; whatever the borrower leaves
    /// in the region is what the buffer holds afterwards.
    pub(crate) fn buffer_mut(&mut self) -> (r: &mut Vec<u8>)
        ensures
            r@ == old(self).bytes(),
            final(self).bytes() == final(r)@,
            final(self).pos() == old(self).pos(),
    {
        &mut self.buffer
    }
}

/// Crate-internal: when nothing of a region lay in front of the cursor, a
/// borrower that kept the filled prefix and the length necessarily left
/// every byte of the region in place.
pub(crate) proof fn lemma_full_region_unchanged(pre: PartialBuffer, post: PartialBuffer)
    requires
        pre.wf(),
        pre.remaining() == 0,
        post.bytes().len() == pre.bytes().len(),
        post.bytes().subrange(0, pre.pos()) == pre.bytes().subrange(0, pre.pos()),
    ensures
        post.bytes() == pre.bytes(),
{
    assert forall|i: int| 0 <= i < pre.pos() implies post.bytes()[i] == pre.bytes()[i] by {
        assert(post.bytes().subrange(0, pre.pos())[i] == post.bytes()[i]);
        assert(pre.bytes().subrange(0, pre.pos())[i] == pre.bytes()[i]);
    }
    assert(post.bytes() =~= pre.bytes());
}

/// No byte already produced is ever rewritten. An operation that keeps a
/// region's filled prefix and only moves the cursor forward — which is
/// what every operation of this crate promises of an output region —
/// leaves behind a filled part that extends the filled part it was handed.
pub proof fn lemma_written_only_grows(pre: PartialBuffer, post: PartialBuffer)
    requires
        pre.wf(),
        post.wf(),
        post.bytes().len() == pre.bytes().len(),
        post.bytes().subrange(0, pre.pos()) == pre.written_view(),
        pre.pos() <= post.pos(),
    ensures
        pre.written_view().is_prefix_of(post.written_view()),
{
    assert forall|i: int| 0 <= i < pre.pos() implies post.written_view()[i]
        == pre.written_view()[i] by {
        assert(post.bytes().subrange(0, pre.pos())[i] == pre.written_view()[i]);
    }
    assert(pre.written_view() =~= post.written_view().subrange(
        0,
        pre.written_view().len() as int,
    ));
}

/// No byte is re-read and none is skipped. An operation that keeps a
/// region's bytes and only moves the cursor forward — which is what every
/// operation of this crate promises of an input region — consumes a prefix
/// of what was unconsumed, so what remains unconsumed afterwards is
/// exactly the tail of what was unconsumed before, and the same bytes are
/// never reported as unconsumed twice.
pub proof fn lemma_unread_consumed_in_order(pre: PartialBuffer, post: PartialBuffer)
    requires
        pre.wf(),
        post.wf(),
        post.bytes() == pre.bytes(),
        pre.pos() <= post.pos(),
    ensures
        post.unwritten_view() == pre.unwritten_view().subrange(
            post.pos() - pre.pos(),
            pre.unwritten_view().len() as int,
        ),
        post.unwritten_view().is_suffix_of(pre.unwritten_view()),
{
    assert(post.unwritten_view() =~= pre.unwritten_view().subrange(
        post.pos() - pre.pos(),
        pre.unwritten_view().len() as int,
    ));
}

} // verus!
