use vstd::prelude::*;
use crate::intensity::IntensitySnapshot;

verus! {

/// The latest-value channel: a single slot written by one producer and read
/// by any number of independent readers. A write replaces the slot, it never
/// queues; a reader that missed several writes is handed only the latest
/// value on its next wake. The slot is empty until the first write.
pub struct LatestValueChannel {
    slot: Option<IntensitySnapshot>,
    version: u64,
    history: Ghost<Seq<IntensitySnapshot>>,
}

/// One reader's attachment to the channel: how much of the write history
/// this reader has already observed.
pub struct ChannelReader {
    seen: u64,
}

impl ChannelReader {
    pub closed spec fn seen(self) -> nat {
        self.seen as nat
    }
}

/// What a waiting reader is handed once it wakes: nothing while no write has
/// happened since its last observation, else exactly the latest value.
pub open spec fn sp_wake(history: Seq<IntensitySnapshot>, seen: nat) -> Option<IntensitySnapshot> {
    if seen < history.len() {
        Some(history.last())
    } else {
        None
    }
}

impl LatestValueChannel {
    /// Every value ever written, oldest first.
    pub closed spec fn history(self) -> Seq<IntensitySnapshot> {
        self.history@
    }

    /// The slot holds exactly the most recent write, and the write counter
    /// matches the history.
    pub closed spec fn wf(self) -> bool {
        &&& self.version as nat == self.history@.len()
        &&& self.slot == (if self.history@.len() == 0 {
            None::<IntensitySnapshot>
        } else {
            Some(self.history@.last())
        })
    }

    pub fn new() -> (c: LatestValueChannel)
        ensures
            c.wf(),
            c.history() == Seq::<IntensitySnapshot>::empty(),
    {
        LatestValueChannel { slot: None, version: 0, history: Ghost(Seq::empty()) }
    }

    /// How many writes have happened so far.
    pub fn writes(&self) -> (n: u64)
        requires
            self.wf(),
        ensures
            n as nat == self.history().len(),
    {
        self.version
    }

    /// Replaces the slot. Every reader that wakes later is handed this value
    /// unless a newer write overtakes it first; no reader is handed an older
    /// one again.
    pub fn write(&mut self, v: IntensitySnapshot)
        requires
            old(self).wf(),
            old(self).history().len() < u64::MAX,
        ensures
            final(self).wf(),
            final(self).history() == old(self).history().push(v),
    {
        self.slot = Some(v);
        self.version = self.version + 1;
        proof {
            self.history@ = self.history@.push(v);
        }
    }

    /// The current value without waiting: nothing before the first write,
    /// else the most recent write.
    pub fn current(&self) -> (r: Option<IntensitySnapshot>)
        requires
            self.wf(),
        ensures
            r == (if self.history().len() == 0 {
                None::<IntensitySnapshot>
            } else {
                Some(self.history().last())
            }),
    {
        self.slot
    }

    /// Attaches a new reader. It counts as having observed everything
    /// written so far: writes that happened before it attached will not wake
    /// it.
    pub fn subscribe(&self) -> (r: ChannelReader)
        requires
            self.wf(),
        ensures
            r.seen() == self.history().len(),
    {
        ChannelReader { seen: self.version }
    }

    /// One wake of a reader: nothing while no write has happened since the
    /// reader's last observation (the reader would still be blocked), else
    /// the latest value, after which the reader counts as fully caught up.
    pub fn poll_change(&self, reader: &mut ChannelReader) -> (r: Option<IntensitySnapshot>)
        requires
            self.wf(),
            old(reader).seen() <= self.history().len(),
        ensures
            r == sp_wake(self.history(), old(reader).seen()),
            final(reader).seen() == self.history().len(),
    {
        if reader.seen < self.version {
            reader.seen = self.version;
            self.slot
        } else {
            None
        }
    }
}

/// The history after a run of writes, applied one at a time.
pub open spec fn sp_writes_applied(
    h: Seq<IntensitySnapshot>,
    vs: Seq<IntensitySnapshot>,
) -> Seq<IntensitySnapshot>
    decreases vs.len(),
{
    if vs.len() == 0 {
        h
    } else {
        sp_writes_applied(h.push(vs[0]), vs.drop_first())
    }
}

proof fn lemma_writes_applied(h: Seq<IntensitySnapshot>, vs: Seq<IntensitySnapshot>)
    ensures
        sp_writes_applied(h, vs) == h + vs,
    decreases vs.len(),
{
    if vs.len() == 0 {
        assert(h + vs =~= h);
    } else {
        lemma_writes_applied(h.push(vs[0]), vs.drop_first());
        assert(h.push(vs[0]) + vs.drop_first() =~= h + vs);
    }
}

/// Coalescing: after a run of writes with no observation in between, any
/// reader not already caught up past them wakes to exactly the last written
/// value — never one of the earlier writes of the run.
pub proof fn law_coalescing(
    h: Seq<IntensitySnapshot>,
    vs: Seq<IntensitySnapshot>,
    seen: nat,
)
    requires
        vs.len() > 0,
        seen < h.len() + vs.len(),
    ensures
        sp_writes_applied(h, vs) == h + vs,
        sp_wake(sp_writes_applied(h, vs), seen) == Some(vs.last()),
{
    lemma_writes_applied(h, vs);
    assert((h + vs).last() == vs.last());
}

/// A reader that attaches after some writes and before any new one blocks:
/// a wake hands it nothing until the next write.
pub proof fn law_fresh_reader_blocks(h: Seq<IntensitySnapshot>)
    ensures
        sp_wake(h, h.len()) is None,
{
}

} // verus!
