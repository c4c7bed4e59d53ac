use vstd::prelude::*;

verus! {

/// What one worker owns: its identity and the count of requests it has
/// served. Only that worker touches it, one request at a time, so it needs no
/// lock; the shared message log is handed to each handler beside it.
pub struct WorkerContext {
    identity: usize,
    request_count: usize,
}

impl WorkerContext {
    /// The worker's identity, fixed when the worker was created.
    pub closed spec fn id(&self) -> usize {
        self.identity
    }

    /// How many requests the worker has served, error paths included.
    pub closed spec fn count(&self) -> usize {
        self.request_count
    }

    /// A fresh worker with the given identity, which has served nothing yet.
    pub fn new(identity: usize) -> (r: WorkerContext)
        ensures
            r.id() == identity,
            r.count() == 0,
    {
        WorkerContext { identity, request_count: 0 }
    }

    pub fn identity(&self) -> (r: usize)
        ensures
            r == self.id(),
    {
        self.identity
    }

    pub fn request_count(&self) -> (r: usize)
        ensures
            r == self.count(),
    {
        self.request_count
    }

    /// Whether the counter can take one more request.
    pub fn can_serve(&self) -> (r: bool)
        ensures
            r == (self.count() < usize::MAX),
    {
        self.request_count < usize::MAX
    }

    /// Counts one more request and returns the new count. Every request the
    /// worker handles starts here, exactly once.
    pub fn begin_request(&mut self) -> (r: usize)
        requires
            old(self).count() < usize::MAX,
        ensures
            final(self).id() == old(self).id(),
            final(self).count() == old(self).count() + 1,
            r == final(self).count(),
    {
        self.request_count = self.request_count + 1;
        self.request_count
    }
}

} // verus!

verus! {

/// The counts one worker returns over successive requests, whatever their
/// kind and error replies included, rise by exactly one each time: when every
/// request moves the counter up by one, the i-th count is the first plus i,
/// so the counts are strictly increasing and never repeat.
pub proof fn lemma_counts_rise_by_one(counts: Seq<int>)
    requires
        forall|i: int| 0 <= i < counts.len() - 1 ==> #[trigger] counts[i + 1] == counts[i] + 1,
    ensures
        forall|i: int| 0 <= i < counts.len() ==> #[trigger] counts[i] == counts[0] + i,
        forall|i: int, j: int| 0 <= i < j < counts.len() ==> counts[i] < counts[j],
    decreases counts.len(),
{
    if counts.len() > 1 {
        let front = counts.drop_last();
        assert forall|i: int| 0 <= i < front.len() - 1 implies #[trigger] front[i + 1] == front[i]
            + 1 by {
            assert(counts[i + 1] == counts[i] + 1);
        }
        lemma_counts_rise_by_one(front);
        assert forall|i: int| 0 <= i < counts.len() implies #[trigger] counts[i] == counts[0] + i by {
            if i < counts.len() - 1 {
                assert(front[i] == front[0] + i);
            } else {
                assert(counts[i - 1] == front[i - 1]);
                let k = i - 1;
                assert(counts[k + 1] == counts[k] + 1);
            }
        }
    }
}

} // verus!
