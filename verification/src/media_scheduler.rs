//! A bounded, prioritised queue of media downloads with de-duplication,
//! cancellation of stale speculative work and retries of transient failures.
use vstd::prelude::*;

use crate::text::{
    ascii_lower_char, ascii_lower_seq, chars_of, contains_chars, contains_seq, strings_equal,
};

verus! {

#[derive(Debug, Clone, Copy, PartialEq, Eq, Hash)]
pub enum MediaJobKind {
    Image,
    Video,
}

#[derive(Debug, Clone, PartialEq, Eq, Hash)]
pub struct MediaJobId {
    pub kind: MediaJobKind,
    pub source: String,
}

/// What identifies a job: its kind and its source.
pub type JobKey = (MediaJobKind, Seq<char>);

impl MediaJobId {
    pub open spec fn key(&self) -> JobKey {
        (self.kind, self.source@)
    }

    pub fn image(source: &str) -> (r: MediaJobId)
        ensures
            r.kind == MediaJobKind::Image,
            r.source@ == source@,
    {
        MediaJobId { kind: MediaJobKind::Image, source: source.to_owned() }
    }

    /// Whether both ids name the same job.
    pub fn same_job(&self, other: &MediaJobId) -> (r: bool)
        ensures
            r == (self.key() == other.key()),
    {
        let same_kind = match (self.kind, other.kind) {
            (MediaJobKind::Image, MediaJobKind::Image) => true,
            (MediaJobKind::Video, MediaJobKind::Video) => true,
            _ => false,
        };
        same_kind && strings_equal(self.source.as_str(), other.source.as_str())
    }

    pub fn duplicate(&self) -> (r: MediaJobId)
        ensures
            r == *self,
    {
        MediaJobId { kind: self.kind, source: self.source.clone() }
    }
}

#[derive(Debug, Clone, Copy, PartialEq, Eq, PartialOrd, Ord)]
pub enum MediaPriority {
    FullsizeSpeculation,
    NearbyThumbnail,
    SelectedThumbnail,
    VisibleMedia,
}

impl MediaPriority {
    /// Larger ranks are more urgent.
    pub open spec fn spec_rank(self) -> nat {
        match self {
            MediaPriority::FullsizeSpeculation => 0,
            MediaPriority::NearbyThumbnail => 1,
            MediaPriority::SelectedThumbnail => 2,
            MediaPriority::VisibleMedia => 3,
        }
    }

    pub fn rank(self) -> (r: u8)
        ensures
            r == self.spec_rank(),
    {
        match self {
            MediaPriority::FullsizeSpeculation => 0,
            MediaPriority::NearbyThumbnail => 1,
            MediaPriority::SelectedThumbnail => 2,
            MediaPriority::VisibleMedia => 3,
        }
    }

    /// Priorities rank in the order they are declared: a full-size image fetched on
    /// speculation comes last, then a nearby thumbnail, then the selected post's
    /// thumbnail, and media on screen comes first.
    pub proof fn law_ranks_follow_declared_order()
        ensures
            MediaPriority::FullsizeSpeculation.spec_rank() < MediaPriority::NearbyThumbnail.spec_rank(),
            MediaPriority::NearbyThumbnail.spec_rank() < MediaPriority::SelectedThumbnail.spec_rank(),
            MediaPriority::SelectedThumbnail.spec_rank() < MediaPriority::VisibleMedia.spec_rank(),
    {
    }

    /// Speculative work is anything below the media on screen.
    pub open spec fn is_speculative(self) -> bool {
        self.spec_rank() <= MediaPriority::SelectedThumbnail.spec_rank()
    }
}

#[derive(Debug, Clone, PartialEq, Eq)]
pub struct ScheduledMediaJob {
    pub id: MediaJobId,
    pub priority: MediaPriority,
    pub generation: u64,
    pub attempt: u8,
}

impl ScheduledMediaJob {
    pub open spec fn spec_attempt(&self) -> u8 {
        self.attempt
    }

    pub fn attempt(&self) -> (r: u8)
        ensures
            r == self.spec_attempt(),
    {
        self.attempt
    }
}

#[derive(Debug, Clone, Copy, PartialEq, Eq)]
pub enum SubmitResult {
    Queued,
    Reprioritized,
    Deduplicated,
}

#[derive(Debug, Clone, Copy, PartialEq, Eq)]
pub enum CompletionResult {
    Accepted,
    Discarded,
    Retrying,
}

/// The bookkeeping of one known job.
#[derive(Debug, Clone, Copy, PartialEq, Eq)]
pub struct JobRecord {
    pub priority: MediaPriority,
    pub generation: u64,
    pub attempt: u8,
    pub revision: u64,
    pub state: JobState,
}

#[derive(Debug, Clone, Copy, PartialEq, Eq)]
pub enum JobState {
    Queued,
    InFlight,
    /// Started, then cancelled: it keeps its execution slot until it completes.
    CancelledInFlight,
}

#[derive(Debug)]
struct JobEntry {
    id: MediaJobId,
    record: JobRecord,
}

/// A request to run a job; it is stale once the job's record has moved on.
#[derive(Debug, Clone, PartialEq, Eq)]
pub struct QueueEntry {
    pub id: MediaJobId,
    pub priority: MediaPriority,
    pub sequence: u64,
    pub revision: u64,
}

/// `a` is taken before `b`: higher priority first, then earlier submission.
pub open spec fn runs_before(a: QueueEntry, b: QueueEntry) -> bool {
    a.priority.spec_rank() > b.priority.spec_rank() || (a.priority.spec_rank()
        == b.priority.spec_rank() && a.sequence < b.sequence)
}

/// The entry still describes the job's current request.
pub open spec fn entry_is_live(jobs: Map<JobKey, JobRecord>, e: QueueEntry) -> bool {
    &&& jobs.contains_key(e.id.key())
    &&& jobs[e.id.key()].state == JobState::Queued
    &&& jobs[e.id.key()].revision == e.revision
    &&& jobs[e.id.key()].priority == e.priority
}

/// The jobs that hold an execution slot: taken and not completed, cancelled or not.
pub open spec fn in_flight(jobs: Map<JobKey, JobRecord>) -> Set<JobKey> {
    jobs.dom().filter(|k: JobKey| jobs[k].state != JobState::Queued)
}

/// Some request of `queue` is the live one of job `k`.
pub open spec fn has_live_request(jobs: Map<JobKey, JobRecord>, queue: Seq<QueueEntry>, k: JobKey) -> bool {
    exists|i: int| 0 <= i < queue.len() && (#[trigger] queue[i]).id.key() == k && entry_is_live(jobs, queue[i])
}

/// Every queued job has a live request in the queue.
pub open spec fn requests_cover(jobs: Map<JobKey, JobRecord>, queue: Seq<QueueEntry>) -> bool {
    forall|k: JobKey|
        #[trigger] jobs.contains_key(k) && jobs[k].state == JobState::Queued ==> has_live_request(jobs, queue, k)
}

/// Changing or removing the record of one job changes the jobs in flight only by it.
proof fn lemma_in_flight_change(jobs: Map<JobKey, JobRecord>, after: Map<JobKey, JobRecord>, k: JobKey)
    requires
        jobs.dom().finite(),
        forall|kk: JobKey| kk != k ==> (#[trigger] after.contains_key(kk)) == jobs.contains_key(kk),
        forall|kk: JobKey| kk != k && jobs.contains_key(kk) ==> #[trigger] after[kk] == jobs[kk],
    ensures
        after.dom().finite(),
        in_flight(jobs).finite(),
        in_flight(after).finite(),
        in_flight(after).len() + (if in_flight(jobs).contains(k) { 1int } else { 0 }) == in_flight(jobs).len()
            + (if in_flight(after).contains(k) { 1int } else { 0 }),
{
    let before = in_flight(jobs);
    let now = in_flight(after);
    assert(after.dom() =~= jobs.dom().insert(k).intersect(after.dom()));
    jobs.dom().insert(k).lemma_len_filter(|kk: JobKey| after.contains_key(kk));
    assert(after.dom() =~= jobs.dom().insert(k).filter(|kk: JobKey| after.contains_key(kk)));
    jobs.dom().lemma_len_filter(|kk: JobKey| jobs[kk].state != JobState::Queued);
    after.dom().lemma_len_filter(|kk: JobKey| after[kk].state != JobState::Queued);
    assert(before.remove(k) =~= now.remove(k));
    if before.contains(k) {
        assert(before.remove(k).len() + 1 == before.len());
    } else {
        assert(before.remove(k) =~= before);
    }
    if now.contains(k) {
        assert(now.remove(k).len() + 1 == now.len());
    } else {
        assert(now.remove(k) =~= now);
    }
}

/// Queue entries kept in place and records of other jobs left alone keep their live
/// requests; the changed job needs one of its own.
proof fn lemma_cover_step(
    jobs: Map<JobKey, JobRecord>,
    queue: Seq<QueueEntry>,
    after: Map<JobKey, JobRecord>,
    queue_after: Seq<QueueEntry>,
    k: JobKey,
)
    requires
        requests_cover(jobs, queue),
        queue.len() <= queue_after.len(),
        forall|i: int| 0 <= i < queue.len() ==> queue_after[i] == queue[i],
        forall|kk: JobKey| kk != k ==> (#[trigger] after.contains_key(kk)) == jobs.contains_key(kk),
        forall|kk: JobKey| kk != k && jobs.contains_key(kk) ==> #[trigger] after[kk] == jobs[kk],
        after.contains_key(k) && after[k].state == JobState::Queued ==> has_live_request(after, queue_after, k),
    ensures
        requests_cover(after, queue_after),
{
    assert forall|kk: JobKey| #[trigger] after.contains_key(kk) && after[kk].state == JobState::Queued implies has_live_request(
        after,
        queue_after,
        kk,
    ) by {
        if kk != k {
            assert(jobs.contains_key(kk) && jobs[kk].state == JobState::Queued);
            let i = choose|i: int| 0 <= i < queue.len() && (#[trigger] queue[i]).id.key() == kk && entry_is_live(jobs, queue[i]);
            assert(queue_after[i] == queue[i]);
            assert(entry_is_live(after, queue_after[i]));
        }
    }
}

pub open spec fn sat_inc(n: u64) -> u64 {
    if n == u64::MAX {
        n
    } else {
        (n + 1) as u64
    }
}

pub struct MediaScheduler {
    records: Vec<JobEntry>,
    jobs: Ghost<Map<JobKey, JobRecord>>,
    retries: Ghost<Map<JobKey, nat>>,
    queue: Vec<QueueEntry>,
    next_sequence: u64,
    active: usize,
    max_active: usize,
    max_attempts: u8,
    download_limit: usize,
    decode_limit: usize,
}

impl MediaScheduler {
    /// The known jobs, by key.
    pub closed spec fn jobs(&self) -> Map<JobKey, JobRecord> {
        self.jobs@
    }

    /// How often each job came back for another attempt since it was submitted.
    pub closed spec fn retries(&self) -> Map<JobKey, nat> {
        self.retries@
    }

    /// Pending run requests, some of which may be stale.
    pub closed spec fn queue(&self) -> Seq<QueueEntry> {
        self.queue@
    }

    pub closed spec fn spec_active(&self) -> nat {
        self.active as nat
    }

    pub closed spec fn spec_max_active(&self) -> nat {
        self.max_active as nat
    }

    pub closed spec fn spec_max_attempts(&self) -> nat {
        self.max_attempts as nat
    }

    pub closed spec fn spec_next_sequence(&self) -> u64 {
        self.next_sequence
    }

    pub closed spec fn spec_download_limit(&self) -> nat {
        self.download_limit as nat
    }

    pub closed spec fn spec_decode_limit(&self) -> nat {
        self.decode_limit as nat
    }

    /// The scheduler's invariant: the records agree with the known jobs, there are
    /// finitely many jobs, the count of running jobs is the number of jobs in flight
    /// (cancelled or not), and every queued job still has a live request in the queue.
    pub closed spec fn wf(&self) -> bool {
        &&& self.wf_records()
        &&& self.jobs@.dom().finite()
        &&& self.active == in_flight(self.jobs@).len()
        &&& requests_cover(self.jobs@, self.queue@)
        &&& forall|k: JobKey| #[trigger] self.jobs@.contains_key(k) ==> self.retries@.contains_key(k)
            && self.jobs@[k].attempt == self.retries@[k] + 1
    }

    /// Jobs in the abstract map and entries in the vector agree, keys are unique,
    /// work in flight never exceeds the limit, and attempts stay within bounds.
    closed spec fn wf_records(&self) -> bool {
        &&& forall|i: int, j: int|
            0 <= i < j < self.records@.len() ==> (#[trigger] self.records@[i]).id.key()
                != (#[trigger] self.records@[j]).id.key()
        &&& forall|i: int|
            0 <= i < self.records@.len() ==> self.jobs@.contains_key(
                (#[trigger] self.records@[i]).id.key(),
            ) && self.jobs@[self.records@[i].id.key()] == self.records@[i].record
        &&& forall|k: JobKey|
            #[trigger] self.jobs@.contains_key(k) ==> exists|i: int|
                0 <= i < self.records@.len() && (#[trigger] self.records@[i]).id.key() == k
        &&& self.active <= self.max_active
        &&& self.max_active == self.download_limit + self.decode_limit
        &&& self.download_limit > 0
        &&& self.decode_limit > 0
        &&& self.max_attempts > 0
        &&& forall|k: JobKey|
            #[trigger] self.jobs@.contains_key(k) ==> 1 <= self.jobs@[k].attempt
                <= self.max_attempts
    }

    /// A scheduler that runs at most `download_limit + decode_limit` jobs at once and
    /// tries each job at most `max_attempts` times.
    pub fn new(download_limit: usize, decode_limit: usize, max_attempts: u8) -> (r: MediaScheduler)
        requires
            download_limit > 0,
            decode_limit > 0,
            max_attempts > 0,
            download_limit + decode_limit <= usize::MAX,
        ensures
            r.wf(),
            r.jobs() == Map::<JobKey, JobRecord>::empty(),
            r.retries() == Map::<JobKey, nat>::empty(),
            r.queue().len() == 0,
            r.spec_active() == 0,
            r.spec_max_active() == download_limit + decode_limit,
            r.spec_max_attempts() == max_attempts,
            r.spec_download_limit() == download_limit,
            r.spec_decode_limit() == decode_limit,
    {
        proof {
            assert(in_flight(Map::<JobKey, JobRecord>::empty()) =~= Set::empty());
        }
        MediaScheduler {
            records: Vec::new(),
            jobs: Ghost(Map::empty()),
            retries: Ghost(Map::empty()),
            queue: Vec::new(),
            next_sequence: 0,
            active: 0,
            max_active: download_limit + decode_limit,
            max_attempts,
            download_limit,
            decode_limit,
        }
    }

    /// The scheduler with its usual limits: four downloads, two decodes, two attempts.
    pub fn with_default_limits() -> (r: MediaScheduler)
        ensures
            r.wf(),
            r.jobs() == Map::<JobKey, JobRecord>::empty(),
            r.queue().len() == 0,
            r.spec_active() == 0,
            r.spec_max_active() == 6,
            r.spec_max_attempts() == 2,
    {
        MediaScheduler::new(4, 2, 2)
    }

    /// Slots for simultaneous downloads.
    pub fn download_limit(&self) -> (r: usize)
        ensures
            r == self.spec_download_limit(),
    {
        self.download_limit
    }

    /// Slots for simultaneous decodes.
    pub fn decode_limit(&self) -> (r: usize)
        ensures
            r == self.spec_decode_limit(),
    {
        self.decode_limit
    }

    fn find(&self, id: &MediaJobId) -> (r: Option<usize>)
        requires
            self.wf(),
        ensures
            match r {
                Some(i) => i < self.records@.len() && self.records@[i as int].id.key() == id.key(),
                None => !self.jobs@.contains_key(id.key()),
            },
    {
        let mut i: usize = 0;
        while i < self.records.len()
            invariant
                self.wf(),
                i <= self.records@.len(),
                forall|j: int| 0 <= j < i ==> (#[trigger] self.records@[j]).id.key() != id.key(),
            decreases self.records@.len() - i,
        {
            if self.records[i].id.same_job(id) {
                return Some(i);
            }
            i += 1;
        }
        None
    }

    fn push_entry(&mut self, id: MediaJobId, priority: MediaPriority, revision: u64)
        ensures
            final(self).queue@ == old(self).queue@.push(
                QueueEntry { id, priority, sequence: old(self).next_sequence, revision },
            ),
            final(self).next_sequence == sat_inc(old(self).next_sequence),
            final(self).records == old(self).records,
            final(self).jobs == old(self).jobs,
            final(self).retries == old(self).retries,
            final(self).active == old(self).active,
            final(self).max_active == old(self).max_active,
            final(self).max_attempts == old(self).max_attempts,
            final(self).download_limit == old(self).download_limit,
            final(self).decode_limit == old(self).decode_limit,
    {
        let sequence = self.next_sequence;
        self.next_sequence = if self.next_sequence < u64::MAX {
            self.next_sequence + 1
        } else {
            self.next_sequence
        };
        self.queue.push(QueueEntry { id, priority, sequence, revision });
    }

    /// Asks for `id` to be loaded. A job that is already known is not queued twice:
    /// a queued one moves up when the new priority is higher, and a cancelled one that
    /// is still running is taken back.
    pub fn submit(&mut self, id: MediaJobId, priority: MediaPriority, generation: u64) -> (r:
        SubmitResult)
        requires
            old(self).wf(),
        ensures
            final(self).wf(),
            final(self).spec_active() == old(self).spec_active(),
            final(self).spec_max_active() == old(self).spec_max_active(),
            final(self).spec_max_attempts() == old(self).spec_max_attempts(),
            old(self).jobs().contains_key(id.key()) ==> final(self).retries() == old(self).retries(),
            ({
                let k = id.key();
                let jobs = old(self).jobs();
                let seq = old(self).spec_next_sequence();
                if !jobs.contains_key(k) {
                    &&& r == SubmitResult::Queued
                    &&& final(self).retries() == old(self).retries().insert(k, 0)
                    &&& final(self).jobs() == jobs.insert(
                        k,
                        JobRecord {
                            priority,
                            generation,
                            attempt: 1,
                            revision: 0,
                            state: JobState::Queued,
                        },
                    )
                    &&& final(self).queue() == old(self).queue().push(
                        QueueEntry { id, priority, sequence: seq, revision: 0 },
                    )
                } else if jobs[k].state == JobState::CancelledInFlight {
                    &&& r == SubmitResult::Reprioritized
                    &&& final(self).jobs() == jobs.insert(
                        k,
                        JobRecord {
                            state: JobState::InFlight,
                            priority,
                            generation,
                            ..jobs[k]
                        },
                    )
                    &&& final(self).queue() == old(self).queue()
                } else if jobs[k].state == JobState::Queued && priority.spec_rank()
                    > jobs[k].priority.spec_rank() {
                    &&& r == SubmitResult::Reprioritized
                    &&& final(self).jobs() == jobs.insert(
                        k,
                        JobRecord { priority, generation, revision: sat_inc(jobs[k].revision), ..jobs[k] },
                    )
                    &&& final(self).queue() == old(self).queue().push(
                        QueueEntry { id, priority, sequence: seq, revision: sat_inc(jobs[k].revision) },
                    )
                } else {
                    &&& r == SubmitResult::Deduplicated
                    &&& final(self).jobs() == jobs
                    &&& final(self).queue() == old(self).queue()
                }
            }),
    {
        let ghost k = id.key();
        match self.find(&id) {
            Some(i) => {
                let record = self.records[i].record;
                proof {
                    assert(self.jobs@[k] == record);
                }
                match record.state {
                    JobState::CancelledInFlight => {
                        let updated = JobRecord {
                            state: JobState::InFlight,
                            priority,
                            generation,
                            ..record
                        };
                        let entry_id = self.records[i].id.duplicate();
                        self.records.set(i, JobEntry { id: entry_id, record: updated });
                        proof {
                            self.jobs@ = self.jobs@.insert(k, updated);
                            self.lemma_update_keeps_wf(old(self), i as int, k);
                            lemma_in_flight_change(old(self).jobs@, self.jobs@, k);
                            lemma_cover_step(old(self).jobs@, old(self).queue@, self.jobs@, self.queue@, k);
                        }
                        SubmitResult::Reprioritized
                    },
                    JobState::Queued => {
                        if priority.rank() > record.priority.rank() {
                            let revision = if record.revision < u64::MAX {
                                record.revision + 1
                            } else {
                                record.revision
                            };
                            let updated = JobRecord { priority, generation, revision, ..record };
                            let entry_id = self.records[i].id.duplicate();
                            self.records.set(i, JobEntry { id: entry_id, record: updated });
                            proof {
                                self.jobs@ = self.jobs@.insert(k, updated);
                                self.lemma_update_keeps_wf(old(self), i as int, k);
                            }
                            self.push_entry(id, priority, revision);
                            proof {
                                lemma_in_flight_change(old(self).jobs@, self.jobs@, k);
                                let last = self.queue@.len() - 1;
                                assert(self.queue@[last].id.key() == k && entry_is_live(self.jobs@, self.queue@[last]));
                                lemma_cover_step(old(self).jobs@, old(self).queue@, self.jobs@, self.queue@, k);
                            }
                            SubmitResult::Reprioritized
                        } else {
                            SubmitResult::Deduplicated
                        }
                    },
                    JobState::InFlight => SubmitResult::Deduplicated,
                }
            },
            None => {
                let record = JobRecord {
                    priority,
                    generation,
                    attempt: 1,
                    revision: 0,
                    state: JobState::Queued,
                };
                let entry_id = id.duplicate();
                self.records.push(JobEntry { id: entry_id, record });
                proof {
                    let old_jobs = self.jobs@;
                    self.jobs@ = self.jobs@.insert(k, record);
                    self.retries@ = self.retries@.insert(k, 0);
                    let n = self.records@.len() - 1;
                    assert forall|a: int, b: int|
                        0 <= a < b < self.records@.len() implies (#[trigger] self.records@[a]).id.key()
                        != (#[trigger] self.records@[b]).id.key() by {
                        if b == n {
                            assert(old_jobs.contains_key(old(self).records@[a].id.key()));
                        }
                    }
                    assert forall|kk: JobKey| #[trigger] self.jobs@.contains_key(kk) implies exists|j: int|
                        0 <= j < self.records@.len() && (#[trigger] self.records@[j]).id.key() == kk by {
                        if kk == k {
                            assert(self.records@[n].id.key() == kk);
                        } else {
                            assert(old_jobs.contains_key(kk));
                            let j = choose|j: int|
                                0 <= j < old(self).records@.len() && (#[trigger] old(self).records@[j]).id.key() == kk;
                            assert(self.records@[j].id.key() == kk);
                        }
                    }
                    assert forall|a: int| 0 <= a < self.records@.len() implies self.jobs@.contains_key(
                        (#[trigger] self.records@[a]).id.key(),
                    ) && self.jobs@[self.records@[a].id.key()] == self.records@[a].record by {
                        if a < n {
                            assert(old_jobs.contains_key(old(self).records@[a].id.key()));
                        }
                    }
                }
                self.push_entry(id, priority, 0);
                proof {
                    lemma_in_flight_change(old(self).jobs@, self.jobs@, k);
                    let last = self.queue@.len() - 1;
                    assert(self.queue@[last].id.key() == k && entry_is_live(self.jobs@, self.queue@[last]));
                    lemma_cover_step(old(self).jobs@, old(self).queue@, self.jobs@, self.queue@, k);
                }
                SubmitResult::Queued
            },
        }
    }

    /// After replacing the record at `i` with one of the same key, the map and vector
    /// still agree.
    proof fn lemma_update_keeps_wf(&self, before: &MediaScheduler, i: int, k: JobKey)
        requires
            before.wf(),
            0 <= i < before.records@.len(),
            before.records@[i].id.key() == k,
            self.records@.len() == before.records@.len(),
            self.records@[i].id.key() == k,
            forall|j: int| 0 <= j < self.records@.len() && j != i ==> self.records@[j] == before.records@[j],
            self.jobs@ == before.jobs@.insert(k, self.records@[i].record),
            self.active <= self.max_active,
            self.max_active == before.max_active,
            self.max_attempts == before.max_attempts,
            self.download_limit == before.download_limit,
            self.decode_limit == before.decode_limit,
            1 <= self.records@[i].record.attempt <= self.max_attempts,
        ensures
            self.wf_records(),
    {
        assert forall|a: int, b: int|
            0 <= a < b < self.records@.len() implies (#[trigger] self.records@[a]).id.key()
            != (#[trigger] self.records@[b]).id.key() by {
            assert(before.records@[a].id.key() != before.records@[b].id.key());
        }
        assert forall|a: int| 0 <= a < self.records@.len() implies self.jobs@.contains_key(
            (#[trigger] self.records@[a]).id.key(),
        ) && self.jobs@[self.records@[a].id.key()] == self.records@[a].record by {
            if a != i {
                assert(before.records@[a].id.key() != before.records@[i].id.key() || a == i);
                if a < i {
                    assert(before.records@[a].id.key() != before.records@[i].id.key());
                } else {
                    assert(before.records@[i].id.key() != before.records@[a].id.key());
                }
            }
        }
        assert forall|kk: JobKey| #[trigger] self.jobs@.contains_key(kk) implies exists|j: int|
            0 <= j < self.records@.len() && (#[trigger] self.records@[j]).id.key() == kk by {
            if kk == k {
                assert(self.records@[i].id.key() == kk);
            } else {
                let j = choose|j: int|
                    0 <= j < before.records@.len() && (#[trigger] before.records@[j]).id.key() == kk;
                assert(self.records@[j].id.key() == kk);
            }
        }
    }


    /// After removing the record at `i`, the map without its key and the vector
    /// still agree.
    proof fn lemma_remove_keeps_wf(&self, before: &MediaScheduler, i: int, k: JobKey)
        requires
            before.wf(),
            0 <= i < before.records@.len(),
            before.records@[i].id.key() == k,
            self.records@ == before.records@.remove(i),
            self.jobs@ == before.jobs@.remove(k),
            self.active <= self.max_active,
            self.max_active == before.max_active,
            self.max_attempts == before.max_attempts,
            self.download_limit == before.download_limit,
            self.decode_limit == before.decode_limit,
        ensures
            self.wf_records(),
    {
        let old_r = before.records@;
        assert forall|a: int, b: int|
            0 <= a < b < self.records@.len() implies (#[trigger] self.records@[a]).id.key()
            != (#[trigger] self.records@[b]).id.key() by {
            let oa = if a < i { a } else { a + 1 };
            let ob = if b < i { b } else { b + 1 };
            assert(self.records@[a] == old_r[oa]);
            assert(self.records@[b] == old_r[ob]);
            assert(old_r[oa].id.key() != old_r[ob].id.key());
        }
        assert forall|a: int| 0 <= a < self.records@.len() implies self.jobs@.contains_key(
            (#[trigger] self.records@[a]).id.key(),
        ) && self.jobs@[self.records@[a].id.key()] == self.records@[a].record by {
            let oa = if a < i { a } else { a + 1 };
            assert(self.records@[a] == old_r[oa]);
            if oa < i {
                assert(old_r[oa].id.key() != old_r[i].id.key());
            } else {
                assert(old_r[i].id.key() != old_r[oa].id.key());
            }
        }
        assert forall|kk: JobKey| #[trigger] self.jobs@.contains_key(kk) implies exists|j: int|
            0 <= j < self.records@.len() && (#[trigger] self.records@[j]).id.key() == kk by {
            let j = choose|j: int| 0 <= j < old_r.len() && (#[trigger] old_r[j]).id.key() == kk;
            assert(j != i);
            let nj = if j < i { j } else { j - 1 };
            assert(self.records@[nj] == old_r[j]);
        }
    }

    /// Takes the most urgent queued job (earliest submitted among equals) unless the
    /// in-flight limit is reached. Stale requests passed over on the way are dropped.
    pub fn take_next(&mut self) -> (r: Option<ScheduledMediaJob>)
        requires
            old(self).wf(),
        ensures
            final(self).wf(),
            final(self).retries() == old(self).retries(),
            final(self).spec_max_active() == old(self).spec_max_active(),
            final(self).spec_max_attempts() == old(self).spec_max_attempts(),
            old(self).spec_active() >= old(self).spec_max_active() ==> {
                &&& r is None
                &&& final(self).jobs() == old(self).jobs()
                &&& final(self).queue() == old(self).queue()
                &&& final(self).spec_active() == old(self).spec_active()
            },
            old(self).spec_active() < old(self).spec_max_active() ==> ({
                let q = old(self).queue();
                let jobs = old(self).jobs();
                match r {
                    None => {
                        &&& forall|i: int| 0 <= i < q.len() ==> !entry_is_live(jobs, #[trigger] q[i])
                        &&& forall|k: JobKey| #[trigger] jobs.contains_key(k) ==> jobs[k].state != JobState::Queued
                        &&& final(self).queue().len() == 0
                        &&& final(self).jobs() == jobs
                        &&& final(self).spec_active() == old(self).spec_active()
                    },
                    Some(job) => exists|m: int| {
                        &&& 0 <= m < q.len()
                        &&& entry_is_live(jobs, #[trigger] q[m])
                        &&& forall|i: int| 0 <= i < q.len() && entry_is_live(jobs, #[trigger] q[i]) ==> !runs_before(q[i], q[m])
                        &&& job.id == q[m].id
                        &&& job.priority == jobs[q[m].id.key()].priority
                        &&& job.generation == jobs[q[m].id.key()].generation
                        &&& job.spec_attempt() == jobs[q[m].id.key()].attempt
                        &&& job.spec_attempt() == old(self).retries()[q[m].id.key()] + 1
                        &&& 1 <= job.spec_attempt() <= old(self).spec_max_attempts()
                        &&& final(self).jobs() == jobs.insert(
                            q[m].id.key(),
                            JobRecord { state: JobState::InFlight, ..jobs[q[m].id.key()] },
                        )
                        &&& final(self).queue() == remaining_after(q, q[m], jobs)
                        &&& final(self).spec_active() == old(self).spec_active() + 1
                    },
                }
            }),
    {
        if self.active >= self.max_active {
            return None;
        }
        let ghost jobs = self.jobs@;
        let ghost q = self.queue@;
        // Find the most urgent live request.
        let mut best: Option<usize> = None;
        let mut best_record: usize = 0;
        let mut live_flags: Vec<bool> = Vec::new();
        let mut i: usize = 0;
        while i < self.queue.len()
            invariant
                self.wf(),
                self.jobs@ == jobs,
                self.queue@ == q,
                i <= q.len(),
                live_flags@.len() == i,
                forall|j: int| 0 <= j < i ==> live_flags@[j] == entry_is_live(jobs, #[trigger] q[j]),
                best_record < self.records@.len() || best is None,
                match best {
                    Some(m) => {
                        &&& m < i
                        &&& entry_is_live(jobs, q[m as int])
                        &&& self.records@[best_record as int].id.key() == q[m as int].id.key()
                        &&& forall|j: int| 0 <= j < i && entry_is_live(jobs, #[trigger] q[j]) ==> !runs_before(q[j], q[m as int])
                    },
                    None => forall|j: int| 0 <= j < i ==> !entry_is_live(jobs, #[trigger] q[j]),
                },
            decreases q.len() - i,
        {
            let entry = &self.queue[i];
            match self.find(&entry.id) {
                Some(ri) => {
                    let record = self.records[ri].record;
                    proof {
                        assert(jobs[q[i as int].id.key()] == record);
                    }
                    let live = match record.state {
                        JobState::Queued => record.revision == entry.revision
                            && record.priority.rank() == entry.priority.rank(),
                        _ => false,
                    };
                    proof {
                        if live {
                            assert(record.priority == entry.priority) by {
                                assert(record.priority.spec_rank() == entry.priority.spec_rank());
                            }
                        }
                        assert(live == entry_is_live(jobs, q[i as int]));
                    }
                    live_flags.push(live);
                    if live {
                        let better = match best {
                            None => true,
                            Some(m) => {
                                let cur = &self.queue[m];
                                entry.priority.rank() > cur.priority.rank() || (
                                entry.priority.rank() == cur.priority.rank() && entry.sequence
                                    < cur.sequence)
                            },
                        };
                        if better {
                            best = Some(i);
                            best_record = ri;
                        }
                    }
                },
                None => {
                    proof {
                        assert(!entry_is_live(jobs, q[i as int]));
                    }
                    live_flags.push(false);
                },
            }
            i += 1;
        }
        // Drop every request that would have been taken before the chosen one.
        let chosen = match best {
            Some(m) => m,
            None => {
                self.queue = Vec::new();
                proof {
                    assert forall|k: JobKey| #[trigger] jobs.contains_key(k) implies jobs[k].state != JobState::Queued by {
                        if jobs[k].state == JobState::Queued {
                            let j = choose|j: int| 0 <= j < q.len() && (#[trigger] q[j]).id.key() == k && entry_is_live(jobs, q[j]);
                        }
                    }
                    assert(in_flight(self.jobs@) == in_flight(jobs));
                }
                return None;
            },
        };
        let ghost cm = q[chosen as int];
        let mut kept: Vec<QueueEntry> = Vec::new();
        let mut old_queue: Vec<QueueEntry> = Vec::new();
        std::mem::swap(&mut old_queue, &mut self.queue);
        let mut taken_entry: Option<QueueEntry> = None;
        let mut j: usize = 0;
        let ghost pred = |e: QueueEntry| keeps_after(cm, jobs, e);
        while j < old_queue.len()
            invariant
                old_queue@ == q,
                j <= q.len(),
                chosen < q.len(),
                cm == q[chosen as int],
                kept@ == q.take(j as int).filter(pred),
                pred == (|e: QueueEntry| keeps_after(cm, jobs, e)),
                live_flags@.len() == q.len(),
                forall|jj: int| 0 <= jj < q.len() ==> live_flags@[jj] == entry_is_live(jobs, #[trigger] q[jj]),
                j > chosen ==> taken_entry == Some(cm),
            decreases q.len() - j,
        {
            let e = &old_queue[j];
            let c = &old_queue[chosen];
            let after = c.priority.rank() > e.priority.rank() || (c.priority.rank() == e.priority.rank()
                && c.sequence < e.sequence) || (live_flags[j] && !e.id.same_job(&c.id));
            proof {
                assert(q.take(j + 1) =~= q.take(j as int).push(q[j as int]));
                q.take(j as int).lemma_filter_push(q[j as int], pred);
            }
            if after {
                kept.push(QueueEntry {
                    id: e.id.duplicate(),
                    priority: e.priority,
                    sequence: e.sequence,
                    revision: e.revision,
                });
            }
            if j == chosen {
                taken_entry = Some(QueueEntry {
                    id: e.id.duplicate(),
                    priority: e.priority,
                    sequence: e.sequence,
                    revision: e.revision,
                });
            }
            j += 1;
        }
        assert(q.take(q.len() as int) =~= q);
        self.queue = kept;
        let taken = match taken_entry {
            Some(t) => t,
            None => {
                proof {
                    assert(false);
                }
                return None;
            },
        };
        let record = self.records[best_record].record;
        let updated = JobRecord { state: JobState::InFlight, ..record };
        let entry_id = self.records[best_record].id.duplicate();
        self.records.set(best_record, JobEntry { id: entry_id, record: updated });
        proof {
            let k = cm.id.key();
            assert(self.records@[best_record as int].id.key() == k);
            self.jobs@ = self.jobs@.insert(k, updated);
            assert(old(self).jobs@[k] == record);
        }
        self.active = self.active + 1;
        proof {
            self.lemma_update_keeps_wf(old(self), best_record as int, cm.id.key());
            let k = cm.id.key();
            lemma_in_flight_change(jobs, self.jobs@, k);
            let nq = self.queue@;
            assert(nq == q.filter(pred));
            q.filter_lemma(pred);
            assert forall|kk: JobKey| #[trigger] self.jobs@.contains_key(kk) && self.jobs@[kk].state == JobState::Queued implies has_live_request(
                self.jobs@,
                nq,
                kk,
            ) by {
                assert(kk != k);
                assert(jobs.contains_key(kk) && jobs[kk].state == JobState::Queued);
                let i = choose|i: int| 0 <= i < q.len() && (#[trigger] q[i]).id.key() == kk && entry_is_live(jobs, q[i]);
                assert(pred(q[i]));
                assert(nq.contains(q[i]));
                let n = choose|n: int| 0 <= n < nq.len() && nq[n] == q[i];
                assert(nq[n].id.key() == kk && entry_is_live(self.jobs@, nq[n]));
            }
            assert(taken == cm);
            let m = chosen as int;
            assert(entry_is_live(jobs, q[m]));
            assert(self.queue@ == remaining_after(q, q[m], jobs));
        }
        let result = ScheduledMediaJob {
            id: taken.id,
            priority: record.priority,
            generation: record.generation,
            attempt: record.attempt,
        };
        proof {
            let m = chosen as int;
            let k = q[m].id.key();
            assert(result.id == q[m].id);
            assert(result.priority == jobs[k].priority);
            assert(result.generation == jobs[k].generation);
            assert(result.spec_attempt() == jobs[k].attempt);
            assert(self.jobs@ == jobs.insert(k, JobRecord { state: JobState::InFlight, ..jobs[k] }));
            assert(forall|i: int| 0 <= i < q.len() && entry_is_live(jobs, #[trigger] q[i]) ==> !runs_before(q[i], q[m]));
            assert(self.active == old(self).active + 1);
            assert(old(self).queue() == q && old(self).jobs() == jobs);
            assert(entry_is_live(old(self).jobs(), old(self).queue()[m]));
        }
        Some(result)
    }


    /// Reports that `job` finished. A transient failure is queued again while attempts
    /// remain; a job that was cancelled or is unknown is discarded.
    pub fn complete(&mut self, job: &ScheduledMediaJob, succeeded: bool, retryable: bool) -> (r:
        CompletionResult)
        requires
            old(self).wf(),
        ensures
            final(self).wf(),
            r != CompletionResult::Retrying ==> final(self).retries() == old(self).retries(),
            final(self).spec_max_active() == old(self).spec_max_active(),
            final(self).spec_max_attempts() == old(self).spec_max_attempts(),
            ({
                let k = job.id.key();
                let jobs = old(self).jobs();
                let active = old(self).spec_active();
                let freed = if active > 0 { (active - 1) as nat } else { 0 };
                if !jobs.contains_key(k) {
                    &&& r == CompletionResult::Discarded
                    &&& final(self).jobs() == jobs
                    &&& final(self).queue() == old(self).queue()
                    &&& final(self).spec_active() == active
                } else if jobs[k].state == JobState::CancelledInFlight {
                    &&& r == CompletionResult::Discarded
                    &&& final(self).jobs() == jobs.remove(k)
                    &&& final(self).queue() == old(self).queue()
                    &&& final(self).spec_active() == freed
                } else if jobs[k].state == JobState::Queued {
                    &&& r == CompletionResult::Discarded
                    &&& final(self).jobs() == jobs.remove(k)
                    &&& final(self).queue() == old(self).queue()
                    &&& final(self).spec_active() == active
                } else if !succeeded && retryable && jobs[k].attempt < old(self).spec_max_attempts() {
                    &&& r == CompletionResult::Retrying
                    &&& final(self).retries() == old(self).retries().insert(k, old(self).retries()[k] + 1)
                    &&& entry_is_live(final(self).jobs(), final(self).queue().last())
                    &&& final(self).jobs() == jobs.insert(
                        k,
                        JobRecord {
                            attempt: (jobs[k].attempt + 1) as u8,
                            state: JobState::Queued,
                            revision: sat_inc(jobs[k].revision),
                            ..jobs[k]
                        },
                    )
                    &&& final(self).queue() == old(self).queue().push(
                        QueueEntry {
                            id: job.id,
                            priority: jobs[k].priority,
                            sequence: old(self).spec_next_sequence(),
                            revision: sat_inc(jobs[k].revision),
                        },
                    )
                    &&& final(self).spec_active() == freed
                } else {
                    &&& r == CompletionResult::Accepted
                    &&& final(self).jobs() == jobs.remove(k)
                    &&& final(self).queue() == old(self).queue()
                    &&& final(self).spec_active() == freed
                }
            }),
    {
        let ghost k = job.id.key();
        let i = match self.find(&job.id) {
            Some(i) => i,
            None => return CompletionResult::Discarded,
        };
        let record = self.records[i].record;
        proof {
            assert(self.jobs@[k] == record);
        }
        match record.state {
            JobState::CancelledInFlight => {
                self.records.remove(i);
                proof {
                    self.jobs@ = self.jobs@.remove(k);
                }
                if self.active > 0 {
                    self.active = self.active - 1;
                }
                proof {
                    self.lemma_remove_keeps_wf(old(self), i as int, k);
                    lemma_in_flight_change(old(self).jobs@, self.jobs@, k);
                    lemma_cover_step(old(self).jobs@, old(self).queue@, self.jobs@, self.queue@, k);
                }
                return CompletionResult::Discarded;
            },
            JobState::Queued => {
                self.records.remove(i);
                proof {
                    self.jobs@ = self.jobs@.remove(k);
                    self.lemma_remove_keeps_wf(old(self), i as int, k);
                    lemma_in_flight_change(old(self).jobs@, self.jobs@, k);
                    lemma_cover_step(old(self).jobs@, old(self).queue@, self.jobs@, self.queue@, k);
                }
                return CompletionResult::Discarded;
            },
            JobState::InFlight => {
                if self.active > 0 {
                    self.active = self.active - 1;
                }
            },
        }
        if !succeeded && retryable && record.attempt < self.max_attempts {
            let revision = if record.revision < u64::MAX {
                record.revision + 1
            } else {
                record.revision
            };
            let updated = JobRecord {
                attempt: record.attempt + 1,
                state: JobState::Queued,
                revision,
                ..record
            };
            let entry_id = self.records[i].id.duplicate();
            self.records.set(i, JobEntry { id: entry_id, record: updated });
            proof {
                self.jobs@ = self.jobs@.insert(k, updated);
                self.retries@ = self.retries@.insert(k, self.retries@[k] + 1);
                self.lemma_update_keeps_wf(old(self), i as int, k);
            }
            self.push_entry(job.id.duplicate(), record.priority, revision);
            proof {
                lemma_in_flight_change(old(self).jobs@, self.jobs@, k);
                let last = self.queue@.len() - 1;
                assert(self.queue@[last].id.key() == k && entry_is_live(self.jobs@, self.queue@[last]));
                lemma_cover_step(old(self).jobs@, old(self).queue@, self.jobs@, self.queue@, k);
            }
            CompletionResult::Retrying
        } else {
            self.records.remove(i);
            proof {
                self.jobs@ = self.jobs@.remove(k);
                self.lemma_remove_keeps_wf(old(self), i as int, k);
                lemma_in_flight_change(old(self).jobs@, self.jobs@, k);
                lemma_cover_step(old(self).jobs@, old(self).queue@, self.jobs@, self.queue@, k);
            }
            CompletionResult::Accepted
        }
    }

    /// Drops queued speculative work submitted before `generation` and marks such work
    /// already running as cancelled; returns the ids of the dropped jobs.
    #[verifier::rlimit(50)]
    pub fn cancel_speculation_before(&mut self, generation: u64) -> (r: Vec<MediaJobId>)
        requires
            old(self).wf(),
        ensures
            final(self).wf(),
            final(self).jobs() == cancelled_jobs(old(self).jobs(), generation),
            final(self).retries() == old(self).retries(),
            final(self).queue() == old(self).queue(),
            final(self).spec_active() == old(self).spec_active(),
            final(self).spec_max_active() == old(self).spec_max_active(),
            final(self).spec_max_attempts() == old(self).spec_max_attempts(),
            forall|i: int| 0 <= i < r@.len() ==> dropped_by_cancel(old(self).jobs(), generation, (#[trigger] r@[i]).key()),
            forall|k: JobKey| dropped_by_cancel(old(self).jobs(), generation, k) ==> exists|i: int| 0 <= i < r@.len() && (#[trigger] r@[i]).key() == k,
            forall|i: int, j: int| 0 <= i < j < r@.len() ==> (#[trigger] r@[i]).key() != (#[trigger] r@[j]).key(),
    {
        let ghost jobs = self.jobs@;
        let ghost old_records = self.records@;
        let mut cancelled: Vec<MediaJobId> = Vec::new();
        let mut old_entries: Vec<JobEntry> = Vec::new();
        std::mem::swap(&mut old_entries, &mut self.records);
        let mut kept: Vec<JobEntry> = Vec::new();
        let ghost mut origin: Seq<int> = Seq::empty();
        let mut i: usize = 0;
        while i < old_entries.len()
            invariant
                old_entries@ == old_records,
                old(self).wf(),
                old(self).records@ == old_records,
                old(self).jobs@ == jobs,
                i <= old_records.len(),
                origin.len() == kept@.len(),
                forall|a: int| 0 <= a < origin.len() ==> 0 <= #[trigger] origin[a] < i,
                forall|a: int, b: int| 0 <= a < b < origin.len() ==> #[trigger] origin[a] < #[trigger] origin[b],
                forall|a: int| 0 <= a < kept@.len() ==> (#[trigger] kept@[a]).id.key() == old_records[origin[a]].id.key()
                    && kept@[a].record == cancel_record(old_records[origin[a]].record, generation)
                    && !dropped_by_cancel(jobs, generation, kept@[a].id.key()),
                forall|j: int| 0 <= j < i && !dropped_by_cancel(jobs, generation, (#[trigger] old_records[j]).id.key()) ==> exists|a: int| 0 <= a < origin.len() && origin[a] == j,
                forall|a: int| 0 <= a < cancelled@.len() ==> dropped_by_cancel(jobs, generation, (#[trigger] cancelled@[a]).key())
                    && exists|j: int| 0 <= j < i && old_records[j].id.key() == cancelled@[a].key(),
                forall|j: int| 0 <= j < i && dropped_by_cancel(jobs, generation, (#[trigger] old_records[j]).id.key()) ==> exists|a: int| 0 <= a < cancelled@.len() && cancelled@[a].key() == old_records[j].id.key(),
                forall|a: int, b: int| 0 <= a < b < cancelled@.len() ==> (#[trigger] cancelled@[a]).key() != (#[trigger] cancelled@[b]).key(),
                forall|a: int| #![trigger cancelled@[a]] 0 <= a < cancelled@.len() ==> exists|j: int| 0 <= j < i && (#[trigger] old_records[j]).id.key() == cancelled@[a].key(),
            decreases old_records.len() - i,
        {
            let entry = &old_entries[i];
            let record = entry.record;
            proof {
                assert(jobs.contains_key(old_records[i as int].id.key()));
                assert(jobs[old_records[i as int].id.key()] == record);
            }
            let hit = record.generation < generation && record.priority.rank() <= 2 && match record.state {
                JobState::CancelledInFlight => false,
                _ => true,
            };
            let is_queued = match record.state {
                JobState::Queued => true,
                _ => false,
            };
            if hit && is_queued {
                proof {
                    assert forall|a: int| 0 <= a < cancelled@.len() implies (#[trigger] cancelled@[a]).key() != old_records[i as int].id.key() by {
                        let j = choose|j: int| 0 <= j < i && (#[trigger] old_records[j]).id.key() == cancelled@[a].key();
                        assert(old_records[j].id.key() != old_records[i as int].id.key());
                    }
                }
                let ghost prev = cancelled@;
                cancelled.push(entry.id.duplicate());
                proof {
                    let key_i = old_records[i as int].id.key();
                    assert(dropped_by_cancel(jobs, generation, key_i));
                    assert(cancelled@[cancelled@.len() - 1].key() == key_i);
                    assert forall|j: int| 0 <= j < i + 1 && dropped_by_cancel(jobs, generation, (#[trigger] old_records[j]).id.key()) implies exists|a: int| 0 <= a < cancelled@.len() && cancelled@[a].key() == old_records[j].id.key() by {
                        if j < i {
                            let a = choose|a: int| 0 <= a < prev.len() && prev[a].key() == old_records[j].id.key();
                            assert(cancelled@[a] == prev[a]);
                        } else {
                            assert(cancelled@[prev.len() as int].key() == old_records[j].id.key());
                        }
                    }
                    assert forall|j: int| 0 <= j < i + 1 && !dropped_by_cancel(jobs, generation, (#[trigger] old_records[j]).id.key()) implies exists|a: int| 0 <= a < origin.len() && origin[a] == j by {
                        assert(j != i);
                    }
                }
            } else {
                let new_record = if hit {
                    JobRecord { state: JobState::CancelledInFlight, ..record }
                } else {
                    record
                };
                kept.push(JobEntry { id: entry.id.duplicate(), record: new_record });
                proof {
                    let prev_origin = origin;
                    origin = origin.push(i as int);
                    let key_i = old_records[i as int].id.key();
                    assert(!dropped_by_cancel(jobs, generation, key_i));
                    assert(new_record == cancel_record(record, generation));
                    assert forall|j: int| 0 <= j < i + 1 && !dropped_by_cancel(jobs, generation, (#[trigger] old_records[j]).id.key()) implies exists|a: int| 0 <= a < origin.len() && origin[a] == j by {
                        if j < i {
                            let a = choose|a: int| 0 <= a < prev_origin.len() && prev_origin[a] == j;
                            assert(origin[a] == j);
                        } else {
                            assert(origin[prev_origin.len() as int] == j);
                        }
                    }
                    assert forall|j: int| 0 <= j < i + 1 && dropped_by_cancel(jobs, generation, (#[trigger] old_records[j]).id.key()) implies exists|a: int| 0 <= a < cancelled@.len() && cancelled@[a].key() == old_records[j].id.key() by {
                        assert(j != i);
                    }
                }
            }
            i += 1;
        }
        self.records = kept;
        proof {
            let target = cancelled_jobs(jobs, generation);
            self.jobs@ = target;
            let rs = self.records@;
            assert forall|a: int, b: int| 0 <= a < b < rs.len() implies (#[trigger] rs[a]).id.key() != (#[trigger] rs[b]).id.key() by {
                assert(origin[a] < origin[b]);
                assert(old_records[origin[a]].id.key() != old_records[origin[b]].id.key());
            }
            assert forall|a: int| 0 <= a < rs.len() implies self.jobs@.contains_key((#[trigger] rs[a]).id.key())
                && self.jobs@[rs[a].id.key()] == rs[a].record by {
                let j = origin[a];
                assert(jobs.contains_key(old_records[j].id.key()));
            }
            assert forall|kk: JobKey| #[trigger] self.jobs@.contains_key(kk) implies exists|a: int| 0 <= a < rs.len() && (#[trigger] rs[a]).id.key() == kk by {
                let j = choose|j: int| 0 <= j < old_records.len() && (#[trigger] old_records[j]).id.key() == kk;
                let a = choose|a: int| 0 <= a < origin.len() && origin[a] == j;
                assert(rs[a].id.key() == kk);
            }
            assert forall|kk: JobKey| #[trigger] self.jobs@.contains_key(kk) implies 1 <= self.jobs@[kk].attempt <= self.max_attempts by {
                assert(jobs.contains_key(kk));
            }
            assert forall|kk: JobKey| dropped_by_cancel(jobs, generation, kk) implies exists|a: int| 0 <= a < cancelled@.len() && (#[trigger] cancelled@[a]).key() == kk by {
                let j = choose|j: int| 0 <= j < old_records.len() && (#[trigger] old_records[j]).id.key() == kk;
            }
            lemma_cancel_keeps_counts(jobs, old(self).queue@, generation);
        }
        cancelled
    }

    /// In every reachable state at most the in-flight limit of jobs run, and every
    /// known job has used at least one and at most the allowed number of attempts.
    pub proof fn law_limits_hold(&self)
        requires
            self.wf(),
        ensures
            self.spec_active() <= self.spec_max_active(),
            self.spec_max_attempts() > 0,
            self.spec_max_active() == self.spec_download_limit() + self.spec_decode_limit(),
            forall|k: JobKey| #[trigger] self.jobs().contains_key(k) ==> 1 <= self.jobs()[k].attempt
                <= self.spec_max_attempts(),
    {
    }

    /// Every queued job keeps a live request in the queue, so it is taken in time;
    /// and the count of running jobs is the number of jobs in flight, cancelled or not.
    pub proof fn law_queue_and_count_agree(&self)
        requires
            self.wf(),
        ensures
            requests_cover(self.jobs(), self.queue()),
            self.spec_active() == in_flight(self.jobs()).len(),
    {
    }

    /// A job is on its first attempt when submitted and one more for each time it came
    /// back to be retried: its attempt is its retries plus one.
    pub proof fn law_attempt_counts_retries(&self)
        requires
            self.wf(),
        ensures
            forall|k: JobKey| #[trigger] self.jobs().contains_key(k) ==> self.retries().contains_key(k)
                && self.jobs()[k].attempt == self.retries()[k] + 1,
    {
    }

    /// How many jobs wait in the queue.
    pub fn queued(&self) -> (r: usize)
        requires
            self.wf(),
        ensures
            r == self.jobs().dom().filter(|k: JobKey| self.jobs()[k].state == JobState::Queued).len(),
    {
        let mut count: usize = 0;
        let mut i: usize = 0;
        let ghost mut seen: Set<JobKey> = Set::empty();
        while i < self.records.len()
            invariant
                self.wf(),
                i <= self.records@.len(),
                seen == Set::new(|k: JobKey| exists|j: int| 0 <= j < i && (#[trigger] self.records@[j]).id.key() == k && self.records@[j].record.state == JobState::Queued),
                seen.finite(),
                count == seen.len(),
            decreases self.records@.len() - i,
        {
            let ghost k = self.records@[i as int].id.key();
            if let JobState::Queued = self.records[i].record.state {
                proof {
                    assert(!seen.contains(k)) by {
                        if seen.contains(k) {
                            let j = choose|j: int| 0 <= j < i && (#[trigger] self.records@[j]).id.key() == k && self.records@[j].record.state == JobState::Queued;
                            assert(self.records@[j].id.key() != self.records@[i as int].id.key());
                        }
                    }
                    let next = seen.insert(k);
                    assert(next =~= Set::new(|kk: JobKey| exists|j: int| 0 <= j < i + 1 && (#[trigger] self.records@[j]).id.key() == kk && self.records@[j].record.state == JobState::Queued)) by {
                        assert forall|kk: JobKey| next.contains(kk) implies exists|j: int| 0 <= j < i + 1 && (#[trigger] self.records@[j]).id.key() == kk && self.records@[j].record.state == JobState::Queued by {
                            if kk == k {
                                assert(self.records@[i as int].id.key() == kk);
                            }
                        }
                    }
                    seen = next;
                }
                assert(count < self.records@.len()) by {
                    lemma_key_set_bounded(self.records@, seen, i as int + 1);
                }
                count = count + 1;
            } else {
                proof {
                    assert(seen =~= Set::new(|kk: JobKey| exists|j: int| 0 <= j < i + 1 && (#[trigger] self.records@[j]).id.key() == kk && self.records@[j].record.state == JobState::Queued)) by {
                        assert forall|kk: JobKey| (exists|j: int| 0 <= j < i + 1 && (#[trigger] self.records@[j]).id.key() == kk && self.records@[j].record.state == JobState::Queued) implies seen.contains(kk) by {
                            let j = choose|j: int| 0 <= j < i + 1 && (#[trigger] self.records@[j]).id.key() == kk && self.records@[j].record.state == JobState::Queued;
                            if j == i {
                                assert(false);
                            }
                        }
                    }
                }
            }
            i += 1;
        }
        proof {
            let target = self.jobs@.dom().filter(|k: JobKey| self.jobs@[k].state == JobState::Queued);
            assert(seen =~= target) by {
                assert forall|kk: JobKey| target.contains(kk) implies seen.contains(kk) by {
                    let j = choose|j: int| 0 <= j < self.records@.len() && (#[trigger] self.records@[j]).id.key() == kk;
                    assert(self.jobs@[self.records@[j].id.key()] == self.records@[j].record);
                }
                assert forall|kk: JobKey| seen.contains(kk) implies target.contains(kk) by {
                    let j = choose|j: int| 0 <= j < i && (#[trigger] self.records@[j]).id.key() == kk && self.records@[j].record.state == JobState::Queued;
                    assert(self.jobs@.contains_key(self.records@[j].id.key()));
                }
            }
        }
        count
    }

    /// Jobs taken and not yet completed.
    pub fn active(&self) -> (r: usize)
        ensures
            r == self.spec_active(),
    {
        self.active
    }
}

/// Cancellation reaches speculative work submitted before `generation` that is not
/// already cancelled.
pub open spec fn cancels(record: JobRecord, generation: u64) -> bool {
    record.generation < generation && record.priority.is_speculative() && record.state
        != JobState::CancelledInFlight
}

/// A cancelled job that never started is forgotten.
pub open spec fn dropped_by_cancel(jobs: Map<JobKey, JobRecord>, generation: u64, k: JobKey) -> bool {
    jobs.contains_key(k) && cancels(jobs[k], generation) && jobs[k].state == JobState::Queued
}

/// A cancelled job that is running keeps its slot, marked cancelled.
pub open spec fn cancel_record(record: JobRecord, generation: u64) -> JobRecord {
    if cancels(record, generation) {
        JobRecord { state: JobState::CancelledInFlight, ..record }
    } else {
        record
    }
}

/// The jobs left after cancelling speculation older than `generation`.
pub open spec fn cancelled_jobs(jobs: Map<JobKey, JobRecord>, generation: u64) -> Map<JobKey, JobRecord> {
    Map::new(
        |k: JobKey| jobs.contains_key(k) && !dropped_by_cancel(jobs, generation, k),
        |k: JobKey| cancel_record(jobs[k], generation),
    )
}

/// Cancelling keeps the jobs in flight (marked or not) and leaves every job that stays
/// queued with its live request.
proof fn lemma_cancel_keeps_counts(jobs: Map<JobKey, JobRecord>, queue: Seq<QueueEntry>, generation: u64)
    requires
        jobs.dom().finite(),
        requests_cover(jobs, queue),
    ensures
        cancelled_jobs(jobs, generation).dom().finite(),
        in_flight(cancelled_jobs(jobs, generation)) == in_flight(jobs),
        requests_cover(cancelled_jobs(jobs, generation), queue),
{
    let after = cancelled_jobs(jobs, generation);
    assert(after.dom() =~= jobs.dom().filter(|k: JobKey| !dropped_by_cancel(jobs, generation, k)));
    jobs.dom().lemma_len_filter(|k: JobKey| !dropped_by_cancel(jobs, generation, k));
    assert(in_flight(after) =~= in_flight(jobs));
    assert forall|k: JobKey| #[trigger] after.contains_key(k) && after[k].state == JobState::Queued implies has_live_request(
        after,
        queue,
        k,
    ) by {
        assert(jobs[k].state == JobState::Queued);
        assert(after[k] == jobs[k]);
        let i = choose|i: int| 0 <= i < queue.len() && (#[trigger] queue[i]).id.key() == k && entry_is_live(jobs, queue[i]);
        assert(entry_is_live(after, queue[i]));
    }
}

/// What stays queued once `first` is taken: the requests that would be taken after
/// it, and the live requests of other jobs (which, with distinct submission numbers,
/// are all among the former).
pub open spec fn keeps_after(first: QueueEntry, jobs: Map<JobKey, JobRecord>, e: QueueEntry) -> bool {
    runs_before(first, e) || (entry_is_live(jobs, e) && e.id.key() != first.id.key())
}

pub open spec fn remaining_after(q: Seq<QueueEntry>, first: QueueEntry, jobs: Map<JobKey, JobRecord>) -> Seq<QueueEntry> {
    q.filter(|e: QueueEntry| keeps_after(first, jobs, e))
}

/// A set of keys drawn from the first `n` entries has at most `n` members.
proof fn lemma_key_set_bounded(records: Seq<JobEntry>, s: Set<JobKey>, n: int)
    requires
        0 <= n <= records.len(),
        s.finite(),
        forall|k: JobKey| s.contains(k) ==> exists|j: int| 0 <= j < n && (#[trigger] records[j]).id.key() == k,
    ensures
        s.len() <= n,
    decreases n,
{
    if n == 0 {
        if s.len() > 0 {
            let k = s.choose();
            assert(s.contains(k));
        }
    } else {
        let last = records[n - 1].id.key();
        let rest = s.remove(last);
        assert forall|k: JobKey| rest.contains(k) implies exists|j: int| 0 <= j < n - 1 && (#[trigger] records[j]).id.key() == k by {
            let j = choose|j: int| 0 <= j < n && (#[trigger] records[j]).id.key() == k;
            assert(j != n - 1);
        }
        lemma_key_set_bounded(records, rest, n - 1);
    }
}

/// Errors worth a second try: time-outs, connection trouble and overload replies.
pub open spec fn spec_retryable_media_error(error: Seq<char>) -> bool {
    let e = ascii_lower_seq(error);
    contains_seq(e, "timeout"@) || contains_seq(e, "timed out"@) || contains_seq(e, "connect"@)
        || contains_seq(e, "request failed"@) || contains_seq(e, "503"@) || contains_seq(e, "502"@)
        || contains_seq(e, "429"@)
}

pub fn retryable_media_error(error: &str) -> (r: bool)
    ensures
        r == spec_retryable_media_error(error@),
{
    let raw = chars_of(error);
    let mut lower: Vec<char> = Vec::new();
    let mut i: usize = 0;
    while i < raw.len()
        invariant
            i <= raw.len(),
            lower@ == ascii_lower_seq(raw@.take(i as int)),
        decreases raw.len() - i,
    {
        lower.push(ascii_lower_char(raw[i]));
        proof {
            assert(raw@.take(i + 1) =~= raw@.take(i as int).push(raw@[i as int]));
            assert(lower@ =~= ascii_lower_seq(raw@.take(i + 1)));
        }
        i += 1;
    }
    assert(raw@.take(raw@.len() as int) =~= raw@);
    let a = contains_chars(&lower, &chars_of("timeout"));
    let b = contains_chars(&lower, &chars_of("timed out"));
    let c = contains_chars(&lower, &chars_of("connect"));
    let d = contains_chars(&lower, &chars_of("request failed"));
    let e = contains_chars(&lower, &chars_of("503"));
    let f = contains_chars(&lower, &chars_of("502"));
    let g = contains_chars(&lower, &chars_of("429"));
    a || b || c || d || e || f || g
}

} // verus!
