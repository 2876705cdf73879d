//! The update poller: a pull-based producer that turns a stateless long-poll
//! fetch into a deduplicated, strictly-ordered sequence of updates.
//!
//! The poller owns a buffer of fetched-but-undelivered updates and a cursor
//! offset. It drains the buffer in arrival order, dropping any update whose
//! identifier lies below the offset, and raises the offset past each yielded
//! update; only when the buffer is drained does it issue the next fetch,
//! echoing the offset back as the acknowledgement. At most one fetch is
//! outstanding at a time, and a failed fetch ends the sequence for good: a
//! fresh poller must be constructed to resume, starting again from zero.

use vstd::prelude::*;

use crate::telegram::{GetUpdate, Update};

verus! {

/// Phase of the poller: draining or ready to fetch, fetch outstanding, or
/// terminated by a fetch failure.
#[derive(Clone, Copy, Debug, PartialEq, Eq)]
pub enum PollState {
    Idle,
    Fetching,
    Failed,
}

/// One step of draining the buffer: the yielded update if any, the buffer
/// left over, and the offset after the step. Updates below the offset are
/// dropped without being yielded.
pub open spec fn spec_drain(buf: Seq<Update>, off: int) -> (Option<Update>, Seq<Update>, int)
    decreases buf.len(),
{
    if buf.len() == 0 {
        (None::<Update>, buf, off)
    } else if buf[0].spec_update_id() < off {
        spec_drain(buf.drop_first(), off)
    } else {
        (Some(buf[0]), buf.drop_first(), buf[0].spec_update_id() + 1)
    }
}

/// Everything one batch yields, in order, starting from `off`.
pub open spec fn spec_deliver(batch: Seq<Update>, off: int) -> Seq<Update>
    decreases batch.len(),
{
    if batch.len() == 0 {
        Seq::<Update>::empty()
    } else if batch[0].spec_update_id() < off {
        spec_deliver(batch.drop_first(), off)
    } else {
        seq![batch[0]] + spec_deliver(batch.drop_first(), batch[0].spec_update_id() + 1)
    }
}

/// The offset after one batch is fully drained, starting from `off`.
pub open spec fn spec_offset_after(batch: Seq<Update>, off: int) -> int
    decreases batch.len(),
{
    if batch.len() == 0 {
        off
    } else if batch[0].spec_update_id() < off {
        spec_offset_after(batch.drop_first(), off)
    } else {
        spec_offset_after(batch.drop_first(), batch[0].spec_update_id() + 1)
    }
}

/// One drain step agrees with the full delivery: a yield is its first
/// element, and exhaustion means nothing was left to deliver.
pub proof fn lemma_drain_deliver(buf: Seq<Update>, off: int)
    ensures
        ({
            let (r, buf2, off2) = spec_drain(buf, off);
            match r {
                Some(u) => {
                    &&& spec_deliver(buf, off) == seq![u] + spec_deliver(buf2, off2)
                    &&& spec_offset_after(buf, off) == spec_offset_after(buf2, off2)
                    &&& u.spec_update_id() >= off
                    &&& off2 == u.spec_update_id() + 1
                },
                None => {
                    &&& spec_deliver(buf, off).len() == 0
                    &&& spec_offset_after(buf, off) == off
                    &&& buf2.len() == 0
                    &&& off2 == off
                },
            }
        }),
    decreases buf.len(),
{
    if buf.len() == 0 {
    } else if buf[0].spec_update_id() < off {
        lemma_drain_deliver(buf.drop_first(), off);
    } else {
    }
}

/// `a` appears within `b`, in order, possibly with gaps.
pub open spec fn spec_subseq_of(a: Seq<Update>, b: Seq<Update>) -> bool
    decreases b.len(),
{
    if a.len() == 0 {
        true
    } else if b.len() == 0 {
        false
    } else if a[0] == b[0] {
        spec_subseq_of(a.drop_first(), b.drop_first())
    } else {
        spec_subseq_of(a, b.drop_first())
    }
}

/// Dropping the head of a subsequence leaves a subsequence.
proof fn lemma_subseq_drop_head(a: Seq<Update>, b: Seq<Update>)
    requires
        spec_subseq_of(a, b),
        a.len() > 0,
    ensures
        spec_subseq_of(a.drop_first(), b),
    decreases b.len(),
{
    if b.len() == 0 {
    } else if a[0] == b[0] {
        let a1 = a.drop_first();
        if a1.len() > 0 {
            if a1[0] == b[0] {
                lemma_subseq_drop_head(a1, b.drop_first());
            }
        }
    } else {
        lemma_subseq_drop_head(a, b.drop_first());
        let a1 = a.drop_first();
        if a1.len() > 0 {
            if a1[0] == b[0] {
                lemma_subseq_drop_head(a1, b.drop_first());
            }
        }
    }
}

/// The updates a batch yields appear in the same order they appeared in the
/// batch: delivery preserves batch order.
pub proof fn lemma_deliver_preserves_order(batch: Seq<Update>, off: int)
    ensures
        spec_subseq_of(spec_deliver(batch, off), batch),
    decreases batch.len(),
{
    if batch.len() == 0 {
    } else if batch[0].spec_update_id() < off {
        lemma_deliver_preserves_order(batch.drop_first(), off);
        let d = spec_deliver(batch.drop_first(), off);
        if d.len() > 0 {
            if d[0] == batch[0] {
                lemma_subseq_drop_head(d, batch.drop_first());
            }
        }
    } else {
        lemma_deliver_preserves_order(batch.drop_first(), batch[0].spec_update_id() + 1);
        let d = spec_deliver(batch, off);
        assert(d.drop_first() =~= spec_deliver(
            batch.drop_first(),
            batch[0].spec_update_id() + 1,
        ));
    }
}

/// What delivery yields and where it leaves the offset: every yielded
/// identifier is at or above the starting offset, yielded identifiers rise
/// strictly, and the offset ends just past the greatest yielded identifier
/// (unchanged when nothing was yielded), so it never decreases.
pub proof fn lemma_deliver_ids(batch: Seq<Update>, off: int)
    ensures
        ({
            let d = spec_deliver(batch, off);
            let off2 = spec_offset_after(batch, off);
            &&& off2 >= off
            &&& forall|i: int|
                0 <= i < d.len() ==> (#[trigger] d[i]).spec_update_id() >= off
            &&& forall|i: int, j: int|
                0 <= i < j < d.len() ==> d[i].spec_update_id() < d[j].spec_update_id()
            &&& (d.len() == 0 ==> off2 == off)
            &&& (d.len() > 0 ==> off2 == d.last().spec_update_id() + 1)
            &&& forall|i: int|
                0 <= i < d.len() ==> (#[trigger] d[i]).spec_update_id() < off2
        }),
    decreases batch.len(),
{
    if batch.len() == 0 {
    } else if batch[0].spec_update_id() < off {
        lemma_deliver_ids(batch.drop_first(), off);
    } else {
        let u = batch[0];
        let off1 = u.spec_update_id() + 1;
        lemma_deliver_ids(batch.drop_first(), off1);
        let d1 = spec_deliver(batch.drop_first(), off1);
        let d = spec_deliver(batch, off);
        assert(d == seq![u] + d1);
        assert(d[0] == u);
        assert(forall|i: int| 1 <= i < d.len() ==> d[i] == #[trigger] d1[i - 1]);
        if d1.len() > 0 {
            assert(d.last() == d1.last());
        }
    }
}

/// The concatenation of everything a run of consecutive fetches yields,
/// each batch drained from the offset where the previous one ended.
pub open spec fn spec_deliver_all(batches: Seq<Seq<Update>>, off: int) -> Seq<Update>
    decreases batches.len(),
{
    if batches.len() == 0 {
        Seq::<Update>::empty()
    } else {
        spec_deliver(batches[0], off) + spec_deliver_all(
            batches.drop_first(),
            spec_offset_after(batches[0], off),
        )
    }
}

/// The offset after a run of consecutive fetches is fully drained.
pub open spec fn spec_offset_all(batches: Seq<Seq<Update>>, off: int) -> int
    decreases batches.len(),
{
    if batches.len() == 0 {
        off
    } else {
        spec_offset_all(batches.drop_first(), spec_offset_after(batches[0], off))
    }
}

/// Across any run of fetches, the offset echoed to the next fetch equals the
/// greatest identifier yielded so far plus one (the starting offset while
/// nothing was yielded), and it never decreases; yielded identifiers rise
/// strictly across the whole run.
pub proof fn lemma_offset_tracks_max_yielded(batches: Seq<Seq<Update>>, off: int)
    ensures
        ({
            let d = spec_deliver_all(batches, off);
            let off2 = spec_offset_all(batches, off);
            &&& off2 >= off
            &&& forall|i: int|
                0 <= i < d.len() ==> (#[trigger] d[i]).spec_update_id() >= off
            &&& forall|i: int, j: int|
                0 <= i < j < d.len() ==> d[i].spec_update_id() < d[j].spec_update_id()
            &&& (d.len() == 0 ==> off2 == off)
            &&& (d.len() > 0 ==> off2 == d.last().spec_update_id() + 1)
            &&& forall|i: int|
                0 <= i < d.len() ==> (#[trigger] d[i]).spec_update_id() < off2
        }),
    decreases batches.len(),
{
    if batches.len() == 0 {
    } else {
        let b0 = batches[0];
        let d0 = spec_deliver(b0, off);
        let off1 = spec_offset_after(b0, off);
        lemma_deliver_ids(b0, off);
        lemma_offset_tracks_max_yielded(batches.drop_first(), off1);
        let d1 = spec_deliver_all(batches.drop_first(), off1);
        let d = spec_deliver_all(batches, off);
        assert(d == d0 + d1);
        assert(forall|i: int| 0 <= i < d0.len() ==> d[i] == #[trigger] d0[i]);
        assert(forall|i: int|
            d0.len() <= i < d.len() ==> d[i] == #[trigger] d1[i - d0.len()]);
        if d1.len() > 0 {
            assert(d.last() == d1.last());
        } else if d0.len() > 0 {
            assert(d.last() == d0.last());
        }
    }
}

/// An update whose identifier lies below the offset is dropped: it is never
/// among what delivery yields.
pub proof fn lemma_stale_update_never_yielded(batch: Seq<Update>, off: int, u: Update)
    requires
        u.spec_update_id() < off,
    ensures
        !spec_deliver(batch, off).contains(u),
{
    lemma_deliver_ids(batch, off);
    if spec_deliver(batch, off).contains(u) {
        let i = choose|i: int|
            0 <= i < spec_deliver(batch, off).len() && spec_deliver(batch, off)[i] == u;
        assert(spec_deliver(batch, off)[i].spec_update_id() >= off);
    }
}

/// The poller. The consumer pulls with [`Self::next_update`]; when the
/// buffer runs dry it opens a fetch with [`Self::begin_fetch`], and settles
/// it with [`Self::complete_fetch`] or [`Self::fail_fetch`].
pub struct UpdateStream {
    next_offset: i64,
    timeout: i64,
    pending_updates: Vec<Update>,
    state: PollState,
}

impl UpdateStream {
    /// The acknowledgement cursor: the lowest identifier not yet accounted
    /// for.
    pub closed spec fn offset(&self) -> int {
        self.next_offset as int
    }

    /// The fetched-but-undelivered updates, in arrival order.
    pub closed spec fn buffered(&self) -> Seq<Update> {
        self.pending_updates@
    }

    /// The poller's phase.
    pub closed spec fn state(&self) -> PollState {
        self.state
    }

    /// The long-poll hold-open time, in seconds.
    pub closed spec fn timeout_secs(&self) -> int {
        self.timeout as int
    }

    /// Every buffered identifier leaves room to raise the offset past it.
    pub closed spec fn wf(&self) -> bool {
        forall|i: int|
            0 <= i < self.pending_updates@.len()
                ==> (#[trigger] self.pending_updates@[i]).spec_update_id() < i64::MAX
    }

    /// A fresh poller: offset zero, nothing buffered, no fetch outstanding.
    pub fn new() -> (s: UpdateStream)
        ensures
            s.offset() == 0,
            s.buffered().len() == 0,
            s.state() is Idle,
            s.timeout_secs() == 120,
            s.wf(),
    {
        UpdateStream {
            next_offset: 0,
            timeout: 120,
            pending_updates: Vec::new(),
            state: PollState::Idle,
        }
    }

    /// The poller's phase, for the driving loop.
    pub fn poll_state(&self) -> (r: PollState)
        ensures
            r == self.state(),
    {
        self.state
    }

    /// A fetch is due: nothing is buffered and none is outstanding.
    pub fn needs_fetch(&self) -> (r: bool)
        ensures
            r == (self.state() is Idle && self.buffered().len() == 0),
    {
        match self.state {
            PollState::Idle => self.pending_updates.len() == 0,
            _ => false,
        }
    }

    /// Drains the buffer one step: yields the earliest buffered update at or
    /// above the offset and raises the offset past it, silently dropping any
    /// earlier duplicates; yields nothing once the buffer is exhausted.
    pub fn next_update(&mut self) -> (r: Option<Update>)
        requires
            old(self).wf(),
            old(self).state() is Idle,
        ensures
            final(self).wf(),
            final(self).state() is Idle,
            final(self).timeout_secs() == old(self).timeout_secs(),
            (r, final(self).buffered(), final(self).offset()) == spec_drain(
                old(self).buffered(),
                old(self).offset(),
            ),
            match r {
                Some(u) => spec_deliver(old(self).buffered(), old(self).offset()) == seq![u]
                    + spec_deliver(final(self).buffered(), final(self).offset()),
                None => spec_deliver(old(self).buffered(), old(self).offset()).len() == 0
                    && final(self).buffered().len() == 0 && final(self).offset() == old(
                    self,
                ).offset(),
            },
    {
        proof {
            lemma_drain_deliver(old(self).buffered(), old(self).offset());
        }
        while self.pending_updates.len() > 0
            invariant
                self.wf(),
                self.state is Idle,
                old(self).state() is Idle,
                self.timeout == old(self).timeout,
                spec_drain(self.buffered(), self.offset()) == spec_drain(
                    old(self).buffered(),
                    old(self).offset(),
                ),
            decreases self.pending_updates.len(),
        {
            let ghost pre_buf = self.buffered();
            let ghost pre_off = self.offset();
            let u = self.pending_updates.remove(0);
            proof {
                assert(self.buffered() =~= pre_buf.drop_first());
                assert(u == pre_buf[0]);
                assert forall|i: int| 0 <= i < self.pending_updates@.len() implies (
                #[trigger] self.pending_updates@[i]).spec_update_id() < i64::MAX by {
                    assert(self.pending_updates@[i] == pre_buf[i + 1]);
                }
            }
            let id = u.update_id();
            if id >= self.next_offset {
                self.next_offset = id + 1;
                proof {
                    assert(spec_drain(pre_buf, pre_off) == (
                        Some(u),
                        self.buffered(),
                        self.offset(),
                    ));
                    lemma_drain_deliver(old(self).buffered(), old(self).offset());
                }
                return Some(u);
            }
        }
        proof {
            lemma_drain_deliver(old(self).buffered(), old(self).offset());
        }
        None
    }

    /// Opens the single outstanding fetch: the request echoes the offset as
    /// the acknowledgement and carries the long-poll timeout.
    pub fn begin_fetch(&mut self) -> (req: GetUpdate)
        requires
            old(self).wf(),
            old(self).state() is Idle,
            old(self).buffered().len() == 0,
        ensures
            final(self).wf(),
            final(self).state() is Fetching,
            final(self).offset() == old(self).offset(),
            final(self).buffered() == old(self).buffered(),
            final(self).timeout_secs() == old(self).timeout_secs(),
            req.offset as int == old(self).offset(),
            req.timeout as int == old(self).timeout_secs(),
    {
        self.state = PollState::Fetching;
        GetUpdate { offset: self.next_offset, timeout: self.timeout }
    }

    /// Settles the outstanding fetch with its batch: the buffer becomes the
    /// batch, order preserved, and the poller is ready to drain again.
    pub fn complete_fetch(&mut self, batch: Vec<Update>)
        requires
            old(self).state() is Fetching,
            forall|i: int|
                0 <= i < batch@.len() ==> (#[trigger] batch@[i]).spec_update_id() < i64::MAX,
        ensures
            final(self).wf(),
            final(self).state() is Idle,
            final(self).offset() == old(self).offset(),
            final(self).buffered() == batch@,
            final(self).timeout_secs() == old(self).timeout_secs(),
    {
        self.pending_updates = batch;
        self.state = PollState::Idle;
    }

    /// Settles the outstanding fetch with a failure: the sequence ends, and
    /// no further operation is valid on this poller.
    pub fn fail_fetch(&mut self)
        requires
            old(self).state() is Fetching,
        ensures
            final(self).state() is Failed,
            final(self).offset() == old(self).offset(),
            final(self).buffered() == old(self).buffered(),
    {
        self.state = PollState::Failed;
    }
}

} // verus!
