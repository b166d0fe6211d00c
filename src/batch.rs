//! Decisions of a batch of transfers run by a bounded pool of workers: which
//! item starts next, what each completion does to the counters, and which
//! error the batch reports. The caller performs the transfers and reports
//! each one's outcome back.
use vstd::prelude::*;
use vstd::set_lib::{lemma_int_range, lemma_len_subset, lemma_subset_equality, set_int_range};
use crate::download_util::{DownloadError, FileDownloadArguments};
use crate::progress::{MultiDownloadProgress, ProgressAggregator, sat_add};

verus! {

/// Outcome of one item as the batch keeps it.
pub open spec fn settled(o: Result<u64, DownloadError>) -> Result<(), DownloadError> {
    match o {
        Ok(_) => Ok(()),
        Err(e) => Err(e),
    }
}

/// The error of the first item, in input order, that failed; success when
/// none did.
pub open spec fn first_failure(outs: Seq<Option<Result<(), DownloadError>>>) -> Result<(), DownloadError>
    decreases outs.len(),
{
    if outs.len() == 0 {
        Ok(())
    } else {
        match outs[0] {
            Some(Err(e)) => Err(e),
            _ => first_failure(outs.drop_first()),
        }
    }
}

/// Whether the item with outcome `o` failed.
pub open spec fn failed(o: Option<Result<(), DownloadError>>) -> bool {
    o matches Some(Err(_))
}

/// Number of workers for `n` items under a bound of `concurrency`; a bound
/// of zero still lets one worker run.
pub open spec fn pool_size(concurrency: int, n: int) -> int {
    if n == 0 {
        0
    } else if concurrency <= 1 {
        1
    } else if concurrency < n {
        concurrency
    } else {
        n
    }
}

/// Sum of the sizes known in advance, held in `u64`.
pub open spec fn known_bytes(items: Seq<FileDownloadArguments>) -> int
    decreases items.len(),
{
    if items.len() == 0 {
        0
    } else {
        sat_add(
            known_bytes(items.drop_last()),
            match items.last().size {
                Some(s) => s as int,
                None => 0,
            },
        )
    }
}

/// State of one batch: items `0..next` have been handed to workers, and
/// `completed` of them have reported back.
pub struct BatchRun {
    pub n: usize,
    pub pool: usize,
    pub next: usize,
    pub completed: usize,
    pub outcomes: Vec<Option<Result<(), DownloadError>>>,
    pub progress: ProgressAggregator,
    /// Indices of the items that have reported back.
    pub done: Ghost<Set<int>>,
    /// `files_downloaded` of every snapshot published so far, in order.
    pub published: Ghost<Seq<u64>>,
}

impl BatchRun {
    pub open spec fn wf(&self) -> bool {
        &&& self.outcomes@.len() == self.n
        &&& self.next <= self.n
        &&& self.pool <= self.n
        &&& (self.n > 0 ==> self.pool >= 1)
        &&& self.completed <= self.next
        &&& self.next - self.completed <= self.pool
        &&& self.done@.finite()
        &&& self.done@.len() == self.completed
        &&& forall|i: int| #[trigger] self.done@.contains(i) ==> 0 <= i < self.next
        &&& forall|i: int|
            0 <= i < self.n ==> ((#[trigger] self.outcomes@[i] is Some) <==> self.done@.contains(
                i,
            ))
        &&& self.progress.wf()
        &&& self.progress.files_total == self.n
        &&& self.progress.files_done == self.completed
        &&& self.published@ == Seq::new(self.completed as nat, |i: int| (i + 1) as u64)
    }

    /// Items handed to a worker that have not reported back.
    pub open spec fn active(&self) -> int {
        self.next - self.completed
    }

    pub open spec fn finished(&self) -> bool {
        self.completed == self.n
    }

    /// A batch over `items` run by at most `concurrency` workers, with the
    /// item count and the sizes known in advance registered at `now_ms`.
    pub fn new(items: &Vec<FileDownloadArguments>, concurrency: usize, now_ms: u64) -> (r: Self)
        ensures
            r.wf(),
            r.n == items@.len(),
            r.pool == pool_size(concurrency as int, items@.len() as int),
            r.next == 0,
            r.completed == 0,
            forall|i: int| 0 <= i < r.n ==> r.outcomes@[i] is None,
            r.progress.bytes_total == known_bytes(items@),
            r.progress.bytes_done == 0,
            r.progress.window_start_ms == now_ms,
    {
        let n = items.len();
        let pool = if n == 0 {
            0
        } else if concurrency <= 1 {
            1
        } else if concurrency < n {
            concurrency
        } else {
            n
        };
        let mut outcomes: Vec<Option<Result<(), DownloadError>>> = Vec::new();
        let mut known: u64 = 0;
        let mut i: usize = 0;
        while i < n
            invariant
                n == items@.len(),
                i <= n,
                outcomes@.len() == i,
                forall|j: int| 0 <= j < i ==> outcomes@[j] is None,
                known == known_bytes(items@.subrange(0, i as int)),
            decreases n - i,
        {
            assert(items@.subrange(0, i + 1).drop_last() =~= items@.subrange(0, i as int));
            let size = match items[i].size {
                Some(s) => s,
                None => 0,
            };
            known = known.saturating_add(size);
            outcomes.push(None);
            i += 1;
        }
        assert(items@.subrange(0, n as int) =~= items@);
        let mut progress = ProgressAggregator::new(now_ms);
        progress.add_files_total(n as u64);
        progress.add_bytes_total(known);
        let r = BatchRun {
            n,
            pool,
            next: 0,
            completed: 0,
            outcomes,
            progress,
            done: Ghost(Set::empty()),
            published: Ghost(Seq::empty()),
        };
        assert(r.published@ =~= Seq::new(0, |i: int| (i + 1) as u64));
        r
    }

    /// Hands the next unscheduled item, in input order, to a free worker:
    /// some item is handed out exactly when one is left and fewer than
    /// `pool` are in flight.
    pub fn next_to_start(&mut self) -> (r: Option<usize>)
        requires
            old(self).wf(),
        ensures
            final(self).wf(),
            if old(self).next < old(self).n && old(self).active() < old(self).pool {
                &&& r == Some(old(self).next)
                &&& final(self).next == old(self).next + 1
            } else {
                &&& r is None
                &&& final(self).next == old(self).next
            },
            final(self).n == old(self).n,
            final(self).pool == old(self).pool,
            final(self).completed == old(self).completed,
            final(self).outcomes@ == old(self).outcomes@,
            final(self).progress == old(self).progress,
            final(self).published@ == old(self).published@,
    {
        if self.next < self.n && self.next - self.completed < self.pool {
            let i = self.next;
            self.next = self.next + 1;
            Some(i)
        } else {
            None
        }
    }

    /// Records that the in-flight item `index` finished with `outcome` (the
    /// byte count on success), and returns the snapshot to publish at
    /// `now_ms`.
    pub fn complete(&mut self, index: usize, outcome: Result<u64, DownloadError>, now_ms: u64) -> (r:
        MultiDownloadProgress)
        requires
            old(self).wf(),
            index < old(self).next,
            old(self).outcomes@[index as int] is None,
        ensures
            final(self).wf(),
            final(self).outcomes@ == old(self).outcomes@.update(index as int, Some(settled(outcome))),
            final(self).completed == old(self).completed + 1,
            final(self).n == old(self).n,
            final(self).pool == old(self).pool,
            final(self).next == old(self).next,
            final(self).progress.bytes_done == match outcome {
                Ok(b) => sat_add(old(self).progress.bytes_done as int, b as int),
                Err(_) => old(self).progress.bytes_done as int,
            },
            r.files_total == old(self).n,
            r.files_downloaded == final(self).completed,
            final(self).published@ == old(self).published@.push(r.files_downloaded),
    {
        proof {
            let range = set_int_range(0, self.next as int);
            lemma_int_range(0, self.next as int);
            assert(self.done@.subset_of(range.remove(index as int)));
            lemma_len_subset(self.done@, range.remove(index as int));
        }
        let settled_outcome = match outcome {
            Ok(b) => {
                self.progress.add_bytes_done(b);
                Ok(())
            },
            Err(e) => Err(e),
        };
        self.outcomes.set(index, Some(settled_outcome));
        self.progress.mark_file_done();
        self.completed = self.completed + 1;
        self.done = Ghost(self.done@.insert(index as int));
        let r = self.progress.snapshot(now_ms);
        self.published = Ghost(self.published@.push(r.files_downloaded));
        assert(self.published@ =~= Seq::new(self.completed as nat, |i: int| (i + 1) as u64));
        r
    }

    /// Whether every item has reported back.
    pub fn is_finished(&self) -> (r: bool)
        requires
            self.wf(),
        ensures
            r == self.finished(),
    {
        self.completed == self.n
    }

    /// The batch's result: the error of the first failed item in input
    /// order, or success when no item failed.
    pub fn result(&self) -> (r: Result<(), DownloadError>)
        requires
            self.wf(),
        ensures
            r == first_failure(self.outcomes@),
    {
        let mut i: usize = 0;
        assert(self.outcomes@.subrange(0, self.outcomes@.len() as int) =~= self.outcomes@);
        while i < self.outcomes.len()
            invariant
                i <= self.outcomes@.len(),
                first_failure(self.outcomes@) == first_failure(
                    self.outcomes@.subrange(i as int, self.outcomes@.len() as int),
                ),
            decreases self.outcomes@.len() - i,
        {
            let ghost rest = self.outcomes@.subrange(i as int, self.outcomes@.len() as int);
            assert(rest.drop_first() =~= self.outcomes@.subrange(
                i + 1,
                self.outcomes@.len() as int,
            ));
            match &self.outcomes[i] {
                Some(Err(e)) => {
                    return Err(e.duplicate());
                },
                _ => {},
            }
            i += 1;
        }
        Ok(())
    }
}

/// Snapshot counts only grow, never pass the item count, and reach it
/// exactly once: in the snapshot of the last completion. Once that has
/// happened, every item has an outcome.
pub proof fn lemma_progress_counts(run: BatchRun)
    requires
        run.wf(),
    ensures
        forall|i: int, j: int|
            0 <= i < j < run.published@.len() ==> run.published@[i] < run.published@[j],
        forall|i: int| 0 <= i < run.published@.len() ==> run.published@[i] <= run.n,
        forall|i: int|
            0 <= i < run.published@.len() ==> (run.published@[i] == run.n <==> i
                == run.published@.len() - 1 && run.finished()),
        run.finished() ==> forall|i: int| 0 <= i < run.n ==> run.outcomes@[i] is Some,
{
    if run.finished() {
        lemma_int_range(0, run.n as int);
        assert(run.done@.subset_of(set_int_range(0, run.n as int)));
        lemma_subset_equality(run.done@, set_int_range(0, run.n as int));
        assert forall|i: int| 0 <= i < run.n implies run.outcomes@[i] is Some by {
            assert(set_int_range(0, run.n as int).contains(i));
        }
    }
}

/// The batch error is the error of the earliest failed item, and success
/// means that no item failed.
pub proof fn lemma_first_failure_is_earliest(outs: Seq<Option<Result<(), DownloadError>>>)
    ensures
        first_failure(outs) is Ok <==> forall|i: int| 0 <= i < outs.len() ==> !failed(#[trigger] outs[i]),
        first_failure(outs) is Err ==> exists|i: int|
            0 <= i < outs.len() && outs[i] == Some(first_failure(outs)) && forall|j: int|
                0 <= j < i ==> !failed(#[trigger] outs[j]),
    decreases outs.len(),
{
    if outs.len() > 0 {
        lemma_first_failure_is_earliest(outs.drop_first());
        if !failed(outs[0]) {
            assert forall|i: int| 0 < i < outs.len() implies outs[i] == outs.drop_first()[i - 1] by {}
            if first_failure(outs) is Err {
                let k = choose|k: int|
                    0 <= k < outs.drop_first().len() && outs.drop_first()[k] == Some(
                        first_failure(outs.drop_first()),
                    ) && forall|j: int| 0 <= j < k ==> !failed(#[trigger] outs.drop_first()[j]);
                assert(outs[k + 1] == Some(first_failure(outs)));
                assert forall|j: int| 0 <= j < k + 1 implies !failed(#[trigger] outs[j]) by {
                    if j > 0 {
                        assert(outs[j] == outs.drop_first()[j - 1]);
                    }
                }
            }
        }
    }
}

/// Two finished runs of the same items whose items ended alike report the
/// same result, whatever their pool sizes and the order in which items
/// completed.
pub proof fn lemma_result_independent_of_schedule(a: BatchRun, b: BatchRun)
    requires
        a.wf(),
        b.wf(),
        a.finished(),
        b.finished(),
        a.outcomes@ == b.outcomes@,
    ensures
        first_failure(a.outcomes@) == first_failure(b.outcomes@),
        a.progress.files_done == b.progress.files_done,
{
}

} // verus!
