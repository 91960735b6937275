use vstd::prelude::*;
use vstd::multiset::Multiset;

verus! {

/// The settings of one crawl run.
pub struct CrawlConfig {
    /// Least time, in milliseconds, between two fetch starts of the run.
    pub rate_interval_ms: u64,
    /// How many times a failed fetch of one identifier is tried again.
    pub max_retries: u64,
    /// Most fetches in flight at once.
    pub max_concurrency: u64,
}

/// An identifier waiting for, or undergoing, a fetch, with the number of
/// fetches of it that have failed so far.
pub struct Job {
    pub id: String,
    pub failures: u64,
}

/// An error of one item that the run carried on past.
pub enum CrawlError {
    /// Every fetch of `id` failed; `attempts` fetches were made.
    FetchAbandoned { id: String, attempts: u64, message: String },
    /// A record fetched from `id` could not be stored.
    StoreFailed { id: String, message: String },
}

/// What a run accomplished: the identifiers fetched and given up, the records
/// stored and not stored (each by the identifier it came from), and the errors.
pub struct RunReport {
    pub succeeded: Vec<String>,
    pub abandoned: Vec<String>,
    pub stored: Vec<String>,
    pub store_failed: Vec<String>,
    pub errors: Vec<CrawlError>,
}

/// What a worker is to do next.
pub enum Step {
    /// Fetch this job now.
    Fetch(Job),
    /// The rate gate opens at this time (milliseconds); ask again then.
    WaitUntil(u64),
    /// Nothing can start before a fetch in flight completes.
    AwaitCompletion,
    /// The run is over.
    Finished,
}

/// The state of one crawl run: the worklist, the fetches in flight, the rate
/// gate and the report so far. It decides; its caller fetches and stores.
pub struct Crawler {
    config: CrawlConfig,
    worklist: Vec<Job>,
    in_flight: u64,
    last_fetch_at: Option<u64>,
    cancelled: bool,
    report: RunReport,
    fetch_starts: Ghost<Seq<u64>>,
    jobs_in_flight: Ghost<Multiset<Job>>,
    enqueued: Ghost<nat>,
    owed_stores: Ghost<Multiset<String>>,
    records_fetched: Ghost<nat>,
}

/// The state of a run as contracts see it.
pub struct CrawlerView {
    pub rate_interval_ms: u64,
    pub max_retries: u64,
    pub max_concurrency: u64,
    pub pending: Seq<Job>,
    pub in_flight: nat,
    pub last_fetch_at: Option<u64>,
    pub cancelled: bool,
    pub succeeded: Seq<String>,
    pub abandoned: Seq<String>,
    pub stored: Seq<String>,
    pub store_failed: Seq<String>,
    pub errors: Seq<CrawlError>,
    /// The start time of every fetch of the run, in the order they started.
    pub fetch_starts: Seq<u64>,
    /// The jobs handed out for a fetch and not yet reported back.
    pub in_flight_jobs: Multiset<Job>,
    /// How many identifiers have joined the worklist over the run: the seeds
    /// and every follow-up, duplicates counted apart. A retry is no new one.
    pub enqueued: nat,
    /// One entry per record fetched and not yet stored or given up, by the
    /// identifier it came from.
    pub owed_stores: Multiset<String>,
    /// How many records the successful fetches of the run returned.
    pub records_fetched: nat,
}

/// Whether the rate gate lets a fetch start at `now`.
pub open spec fn gate_open(v: CrawlerView, now: u64) -> bool {
    match v.last_fetch_at {
        None => true,
        Some(t) => t <= now && now - t >= v.rate_interval_ms,
    }
}

/// The earliest time at which the rate gate opens again.
pub open spec fn gate_opens_at(v: CrawlerView) -> u64 {
    match v.last_fetch_at {
        None => 0,
        Some(t) => if t + v.rate_interval_ms > u64::MAX {
            u64::MAX
        } else {
            (t + v.rate_interval_ms) as u64
        },
    }
}

/// The run is over: nothing is in flight, and nothing is pending or the run
/// was cancelled.
pub open spec fn run_finished(v: CrawlerView) -> bool {
    v.in_flight == 0 && (v.pending.len() == 0 || v.cancelled)
}

/// No fetch may start now whatever the time: the run is cancelled, the
/// worklist is empty or every slot is taken.
pub open spec fn must_await(v: CrawlerView) -> bool {
    v.cancelled || v.pending.len() == 0 || v.in_flight >= v.max_concurrency
}

/// Whether a job that has failed `failures` times, and fails once more, is
/// put back on the worklist.
pub open spec fn retried_after_failure(max_retries: nat, failures: nat) -> bool {
    failures < max_retries
}

/// How many fetches an identifier that always fails gets in all, counting
/// from a job that has failed `failures` times.
pub open spec fn attempts_until_abandoned(max_retries: nat, failures: nat) -> nat
    decreases max_retries - failures,
{
    if retried_after_failure(max_retries, failures) {
        attempts_until_abandoned(max_retries, failures + 1)
    } else {
        failures + 1
    }
}

/// The state after a fetch of `job`, in flight in `v`, failed with
/// `message`: the slot is free, and the job is back on the worklist with one
/// more failure, or, at the retry limit, abandoned and reported with the
/// number of fetches it had.
pub open spec fn after_fetch_failed(v: CrawlerView, job: Job, message: String) -> CrawlerView {
    if retried_after_failure(v.max_retries as nat, job.failures as nat) {
        CrawlerView {
            pending: v.pending.push(Job { id: job.id, failures: (job.failures + 1) as u64 }),
            in_flight: (v.in_flight - 1) as nat,
            in_flight_jobs: v.in_flight_jobs.remove(job),
            ..v
        }
    } else {
        CrawlerView {
            in_flight: (v.in_flight - 1) as nat,
            in_flight_jobs: v.in_flight_jobs.remove(job),
            abandoned: v.abandoned.push(job.id),
            errors: v.errors.push(
                CrawlError::FetchAbandoned { id: job.id, attempts: (job.failures + 1) as u64, message },
            ),
            ..v
        }
    }
}

/// `n` owed stores for records fetched from `id`.
pub open spec fn copies(id: String, n: nat) -> Multiset<String>
    decreases n,
{
    if n == 0 {
        Multiset::empty()
    } else {
        copies(id, (n - 1) as nat).insert(id)
    }
}

proof fn lemma_copies_len(id: String, n: nat)
    ensures
        copies(id, n).len() == n,
        copies(id, n).count(id) == n,
    decreases n,
{
    if n > 0 {
        lemma_copies_len(id, (n - 1) as nat);
    }
}

/// Fresh jobs for newly discovered identifiers.
pub open spec fn fresh_jobs(ids: Seq<String>) -> Seq<Job> {
    ids.map_values(|id: String| Job { id, failures: 0 })
}

impl View for Crawler {
    type V = CrawlerView;

    closed spec fn view(&self) -> CrawlerView {
        CrawlerView {
            rate_interval_ms: self.config.rate_interval_ms,
            max_retries: self.config.max_retries,
            max_concurrency: self.config.max_concurrency,
            pending: self.worklist@,
            in_flight: self.in_flight as nat,
            last_fetch_at: self.last_fetch_at,
            cancelled: self.cancelled,
            succeeded: self.report.succeeded@,
            abandoned: self.report.abandoned@,
            stored: self.report.stored@,
            store_failed: self.report.store_failed@,
            errors: self.report.errors@,
            fetch_starts: self.fetch_starts@,
            in_flight_jobs: self.jobs_in_flight@,
            enqueued: self.enqueued@,
            owed_stores: self.owed_stores@,
            records_fetched: self.records_fetched@,
        }
    }
}

impl Crawler {
    /// The run's own bookkeeping holds together: a slot at least, no more
    /// fetches in flight than slots, no pending job past the retry limit, and
    /// every two fetch starts at least the rate interval apart, the last of
    /// them being the one the rate gate remembers. Every identifier that
    /// joined the worklist is pending, in flight, succeeded or abandoned;
    /// every record fetched is stored, failed to store, or still owed; and
    /// every error is an abandoned identifier or a failed store.
    pub closed spec fn wf(&self) -> bool {
        let starts = self.fetch_starts@;
        &&& self.config.max_concurrency >= 1
        &&& self.in_flight <= self.config.max_concurrency
        &&& self.in_flight as nat == self.jobs_in_flight@.len()
        &&& forall|j: Job| #[trigger]
            self.jobs_in_flight@.contains(j) ==> j.failures <= self.config.max_retries
        &&& self.worklist@.len() + self.jobs_in_flight@.len() + self.report.succeeded@.len()
            + self.report.abandoned@.len() == self.enqueued@
        &&& self.report.stored@.len() + self.report.store_failed@.len() + self.owed_stores@.len()
            == self.records_fetched@
        &&& self.report.errors@.len() == self.report.abandoned@.len()
            + self.report.store_failed@.len()
        &&& forall|k: int|
            0 <= k < self.worklist@.len() ==> #[trigger] self.worklist@[k].failures
                <= self.config.max_retries
        &&& forall|i: int, j: int|
            0 <= i < j < starts.len() ==> #[trigger] starts[i] + self.config.rate_interval_ms
                <= #[trigger] starts[j]
        &&& self.last_fetch_at == (if starts.len() == 0 {
            None
        } else {
            Some(starts.last())
        })
    }

    /// Starts a run whose worklist holds `seeds`, in order, none of them tried.
    pub fn new(config: CrawlConfig, seeds: Vec<String>) -> (r: Self)
        requires
            config.max_concurrency >= 1,
        ensures
            r.wf(),
            r@.rate_interval_ms == config.rate_interval_ms,
            r@.max_retries == config.max_retries,
            r@.max_concurrency == config.max_concurrency,
            r@.pending == fresh_jobs(seeds@),
            r@.in_flight == 0,
            r@.last_fetch_at is None,
            !r@.cancelled,
            r@.succeeded.len() == 0,
            r@.abandoned.len() == 0,
            r@.stored.len() == 0,
            r@.store_failed.len() == 0,
            r@.errors.len() == 0,
            r@.fetch_starts.len() == 0,
            r@.in_flight_jobs =~= Multiset::empty(),
            r@.enqueued == seeds@.len(),
            r@.owed_stores =~= Multiset::empty(),
            r@.records_fetched == 0,
    {
        let mut worklist: Vec<Job> = Vec::new();
        Self::enqueue_fresh(&mut worklist, &seeds);
        Crawler {
            config,
            worklist,
            in_flight: 0,
            last_fetch_at: None,
            cancelled: false,
            report: RunReport {
                succeeded: Vec::new(),
                abandoned: Vec::new(),
                stored: Vec::new(),
                store_failed: Vec::new(),
                errors: Vec::new(),
            },
            fetch_starts: Ghost(Seq::empty()),
            jobs_in_flight: Ghost(Multiset::empty()),
            enqueued: Ghost(seeds@.len()),
            owed_stores: Ghost(Multiset::empty()),
            records_fetched: Ghost(0),
        }
    }

    /// Decides what a worker does at time `now` (milliseconds). When a fetch
    /// may start, the first pending job leaves the worklist, takes a slot and
    /// the rate gate closes behind it.
    pub fn next_step(&mut self, now: u64) -> (step: Step)
        requires
            old(self).wf(),
        ensures
            final(self).wf(),
            run_finished(old(self)@) ==> step is Finished && final(self)@ == old(self)@,
            !run_finished(old(self)@) && must_await(old(self)@) ==> step is AwaitCompletion
                && final(self)@ == old(self)@,
            !must_await(old(self)@) && !gate_open(old(self)@, now) ==> step == Step::WaitUntil(
                gate_opens_at(old(self)@),
            ) && final(self)@ == old(self)@,
            !must_await(old(self)@) && gate_open(old(self)@, now) ==> {
                &&& step == Step::Fetch(old(self)@.pending[0])
                &&& final(self)@ == (CrawlerView {
                    pending: old(self)@.pending.drop_first(),
                    in_flight: old(self)@.in_flight + 1,
                    last_fetch_at: Some(now),
                    fetch_starts: old(self)@.fetch_starts.push(now),
                    in_flight_jobs: old(self)@.in_flight_jobs.insert(old(self)@.pending[0]),
                    ..old(self)@
                })
            },
    {
        if self.in_flight == 0 && (self.worklist.len() == 0 || self.cancelled) {
            return Step::Finished;
        }
        if self.cancelled || self.worklist.len() == 0 || self.in_flight >= self.config.max_concurrency {
            return Step::AwaitCompletion;
        }
        match self.last_fetch_at {
            Some(t) => {
                if now < t || now - t < self.config.rate_interval_ms {
                    let opens = if t > u64::MAX - self.config.rate_interval_ms {
                        u64::MAX
                    } else {
                        t + self.config.rate_interval_ms
                    };
                    return Step::WaitUntil(opens);
                }
            },
            None => {},
        }
        let job = self.worklist.remove(0);
        let ghost starts = self.fetch_starts@;
        proof {
            assert forall|i: int, j: int|
                0 <= i < j < starts.push(now).len() implies #[trigger] starts.push(now)[i]
                + self.config.rate_interval_ms <= #[trigger] starts.push(now)[j] by {
                if j == starts.len() {
                    if i < starts.len() - 1 {
                        assert(starts[i] + self.config.rate_interval_ms <= starts[starts.len() - 1]);
                    }
                }
            }
            assert forall|k: int| 0 <= k < self.worklist@.len() implies #[trigger] self.worklist@[k].failures
                <= self.config.max_retries by {
                assert(self.worklist@[k] == old(self).worklist@[k + 1]);
            }
        }
        self.in_flight = self.in_flight + 1;
        self.last_fetch_at = Some(now);
        self.fetch_starts = Ghost(starts.push(now));
        proof {
            let before = self.jobs_in_flight@;
            assert(job == old(self).worklist@[0]);
            assert forall|j: Job| #[trigger]
                before.insert(job).contains(j) implies j.failures <= self.config.max_retries by {
                if j != job {
                    assert(before.contains(j));
                }
            }
        }
        self.jobs_in_flight = Ghost(self.jobs_in_flight@.insert(job));
        Step::Fetch(job)
    }

    /// Records that `job` was fetched with `records` records: it counts as
    /// succeeded, its slot is free, a store is owed for each record, and the
    /// identifiers it led to join the worklist, none of them tried.
    pub fn fetch_succeeded(&mut self, job: Job, records: usize, follow_ups: Vec<String>)
        requires
            old(self).wf(),
            old(self)@.in_flight_jobs.contains(job),
        ensures
            final(self).wf(),
            final(self)@ == (CrawlerView {
                pending: old(self)@.pending + fresh_jobs(follow_ups@),
                in_flight: (old(self)@.in_flight - 1) as nat,
                succeeded: old(self)@.succeeded.push(job.id),
                in_flight_jobs: old(self)@.in_flight_jobs.remove(job),
                enqueued: old(self)@.enqueued + follow_ups@.len(),
                owed_stores: old(self)@.owed_stores.add(copies(job.id, records as nat)),
                records_fetched: old(self)@.records_fetched + records as nat,
                ..old(self)@
            }),
    {
        self.in_flight = self.in_flight - 1;
        proof {
            let before = self.jobs_in_flight@;
            assert forall|j: Job| #[trigger]
                before.remove(job).contains(j) implies j.failures <= self.config.max_retries by {
                assert(before.contains(j));
            }
        }
        self.jobs_in_flight = Ghost(self.jobs_in_flight@.remove(job));
        self.enqueued = Ghost(self.enqueued@ + follow_ups@.len());
        proof {
            lemma_copies_len(job.id, records as nat);
        }
        self.owed_stores = Ghost(self.owed_stores@.add(copies(job.id, records as nat)));
        self.records_fetched = Ghost(self.records_fetched@ + records as nat);
        self.report.succeeded.push(job.id);
        Self::enqueue_fresh(&mut self.worklist, &follow_ups);
    }

    /// Records that a fetch of `job` failed: its slot is free, and it goes
    /// back on the worklist with one more failure while it has failed fewer
    /// times than the retry limit; else it is abandoned and reported.
    pub fn fetch_failed(&mut self, job: Job, message: String)
        requires
            old(self).wf(),
            old(self)@.in_flight_jobs.contains(job),
            old(self)@.max_retries < u64::MAX,
        ensures
            final(self).wf(),
            final(self)@ == after_fetch_failed(old(self)@, job, message),
    {
        self.in_flight = self.in_flight - 1;
        proof {
            let before = self.jobs_in_flight@;
            assert forall|j: Job| #[trigger]
                before.remove(job).contains(j) implies j.failures <= self.config.max_retries by {
                assert(before.contains(j));
            }
        }
        self.jobs_in_flight = Ghost(self.jobs_in_flight@.remove(job));
        if job.failures < self.config.max_retries {
            self.worklist.push(Job { id: job.id, failures: job.failures + 1 });
        } else {
            let id = job.id;
            self.report.abandoned.push(id.clone());
            self.report.errors.push(
                CrawlError::FetchAbandoned { id, attempts: job.failures + 1, message },
            );
        }
    }

    /// Records that a record fetched from `id`, one whose store was owed,
    /// was stored.
    pub fn record_stored(&mut self, id: String)
        requires
            old(self).wf(),
            old(self)@.owed_stores.contains(id),
        ensures
            final(self).wf(),
            final(self)@ == (CrawlerView {
                stored: old(self)@.stored.push(id),
                owed_stores: old(self)@.owed_stores.remove(id),
                ..old(self)@
            }),
    {
        self.owed_stores = Ghost(self.owed_stores@.remove(id));
        self.report.stored.push(id);
    }

    /// Records that a record fetched from `id`, one whose store was owed,
    /// could not be stored. It is not tried again, and the worklist and the
    /// retry counts are left alone.
    pub fn record_store_failed(&mut self, id: String, message: String)
        requires
            old(self).wf(),
            old(self)@.owed_stores.contains(id),
        ensures
            final(self).wf(),
            final(self)@ == (CrawlerView {
                store_failed: old(self)@.store_failed.push(id),
                owed_stores: old(self)@.owed_stores.remove(id),
                errors: old(self)@.errors.push(CrawlError::StoreFailed { id, message }),
                ..old(self)@
            }),
    {
        self.owed_stores = Ghost(self.owed_stores@.remove(id));
        self.report.store_failed.push(id.clone());
        self.report.errors.push(CrawlError::StoreFailed { id, message });
    }

    /// Stops the run from starting fetches; those in flight still complete.
    pub fn cancel(&mut self)
        requires
            old(self).wf(),
        ensures
            final(self).wf(),
            final(self)@ == (CrawlerView { cancelled: true, ..old(self)@ }),
    {
        self.cancelled = true;
    }

    /// The number of fetches in flight.
    pub fn in_flight(&self) -> (r: u64)
        ensures
            r == self@.in_flight,
    {
        self.in_flight
    }

    /// The number of identifiers waiting for a fetch.
    pub fn pending_len(&self) -> (r: usize)
        ensures
            r == self@.pending.len(),
    {
        self.worklist.len()
    }

    /// The retry limit of the run.
    pub fn max_retries(&self) -> (r: u64)
        ensures
            r == self@.max_retries,
    {
        self.config.max_retries
    }

    /// Ends the run and hands over its report.
    pub fn into_report(self) -> (r: RunReport)
        ensures
            r.succeeded@ == self@.succeeded,
            r.abandoned@ == self@.abandoned,
            r.stored@ == self@.stored,
            r.store_failed@ == self@.store_failed,
            r.errors@ == self@.errors,
    {
        self.report
    }
    fn enqueue_fresh(worklist: &mut Vec<Job>, ids: &Vec<String>)
        ensures
            final(worklist)@ == old(worklist)@ + fresh_jobs(ids@),
    {
        let ghost start = worklist@;
        let mut i: usize = 0;
        while i < ids.len()
            invariant
                i <= ids@.len(),
                worklist@ == start + fresh_jobs(ids@.take(i as int)),
            decreases ids@.len() - i,
        {
            worklist.push(Job { id: ids[i].clone(), failures: 0 });
            proof {
                assert(fresh_jobs(ids@.take(i + 1)) =~= fresh_jobs(ids@.take(i as int)).push(
                    Job { id: ids@[i as int], failures: 0 },
                ));
            }
            i = i + 1;
        }
        proof {
            assert(ids@.take(i as int) =~= ids@);
        }
    }
}

/// An identifier whose every fetch fails is fetched exactly `max_retries + 1`
/// times before it is abandoned, from any number of failures up to the limit.
pub proof fn lemma_always_failing_attempts(max_retries: nat, failures: nat)
    requires
        failures <= max_retries,
    ensures
        attempts_until_abandoned(max_retries, failures) == max_retries + 1,
    decreases max_retries - failures,
{
    if failures < max_retries {
        lemma_always_failing_attempts(max_retries, failures + 1);
    }
}

/// Any two fetch starts of a run, the later after the earlier, lie at least
/// the rate interval apart; so the starts are in order and evenly throttled.
pub proof fn lemma_fetch_starts_spaced(c: &Crawler)
    requires
        c.wf(),
    ensures
        forall|i: int, j: int|
            0 <= i < j < c@.fetch_starts.len() ==> #[trigger] c@.fetch_starts[i] + c@.rate_interval_ms
                <= #[trigger] c@.fetch_starts[j],
{
}

/// A run never has more fetches in flight than its concurrency budget.
pub proof fn lemma_concurrency_bounded(c: &Crawler)
    requires
        c.wf(),
    ensures
        1 <= c@.max_concurrency,
        c@.in_flight <= c@.max_concurrency,
{
}

/// Nothing is lost: every identifier that joined the worklist, a seed or a
/// follow-up, is pending, in flight, succeeded or abandoned, each once. When
/// a run that was not cancelled is over, each has succeeded or been abandoned.
pub proof fn lemma_nothing_lost(c: &Crawler)
    requires
        c.wf(),
    ensures
        c@.pending.len() + c@.in_flight + c@.succeeded.len() + c@.abandoned.len() == c@.enqueued,
        run_finished(c@) && !c@.cancelled ==> c@.succeeded.len() + c@.abandoned.len() == c@.enqueued,
{
}

/// An identifier whose every fetch fails is fetched `max_retries + 1` times
/// in all: after each of its first `max_retries` failures it goes back on the
/// worklist with its failure count one higher, and at the next it is
/// abandoned, reported once with that number of fetches, not counted as
/// succeeded, and not put back.
pub proof fn lemma_always_failing_identifier(c: &Crawler, job: Job, message: String)
    requires
        c.wf(),
        c@.in_flight_jobs.contains(job),
    ensures
        job.failures <= c@.max_retries,
        attempts_until_abandoned(c@.max_retries as nat, job.failures as nat) == c@.max_retries + 1,
        job.failures < c@.max_retries ==> {
            let w = after_fetch_failed(c@, job, message);
            &&& w.pending == c@.pending.push(Job { id: job.id, failures: (job.failures + 1) as u64 })
            &&& w.abandoned == c@.abandoned
            &&& w.succeeded == c@.succeeded
            &&& w.errors == c@.errors
        },
        job.failures == c@.max_retries ==> {
            let w = after_fetch_failed(c@, job, message);
            &&& w.pending == c@.pending
            &&& w.abandoned == c@.abandoned.push(job.id)
            &&& w.succeeded == c@.succeeded
            &&& w.errors == c@.errors.push(
                CrawlError::FetchAbandoned { id: job.id, attempts: (c@.max_retries + 1) as u64, message },
            )
        },
{
    lemma_always_failing_attempts(c@.max_retries as nat, job.failures as nat);
}

/// Every record that a successful fetch returned is stored, failed to store,
/// or still owed, and every error of the report is an abandoned identifier or
/// a failed store; so once nothing is owed, stored and failed stores together
/// are the records fetched.
pub proof fn lemma_records_accounted(c: &Crawler)
    requires
        c.wf(),
    ensures
        c@.stored.len() + c@.store_failed.len() + c@.owed_stores.len() == c@.records_fetched,
        c@.errors.len() == c@.abandoned.len() + c@.store_failed.len(),
        c@.owed_stores.len() == 0 ==> c@.stored.len() + c@.store_failed.len() == c@.records_fetched,
{
}

} // verus!
