//! The generation job queue: validating requests, creating jobs, and the
//! transitions of a job's life (start, progress, completion, failure,
//! cancellation), over a store keyed by job id.

use vstd::prelude::*;
use crate::clock;
use crate::ids;
use crate::models::{
    GeneratedAsset, GeneratedAssetView, GenerationJob, GenerationJobView, GenerationRequest,
    GenerationRequestView, JobStatus, Timestamp,
};
use crate::text::{is_blank, is_blank_spec, owned};

verus! {

// ---------------------------------------------------------------------
// Requests

/// Why a generation request is refused, if it is.
pub open spec fn request_error(r: GenerationRequestView) -> Option<Seq<char>> {
    if is_blank_spec(r.prompt) {
        Some("Prompt cannot be empty."@)
    } else if !(256 <= r.width <= 2048) || !(256 <= r.height <= 2048) {
        Some("Width and height must be between 256 and 2048 pixels."@)
    } else if !(1 <= r.steps <= 100) {
        Some("Steps must be between 1 and 100."@)
    } else {
        None
    }
}

/// Accepts a request with a non-blank prompt, width and height in
/// 256..=2048 and steps in 1..=100; otherwise names the first problem.
pub fn validate_request(request: &GenerationRequest) -> (r: Result<(), String>)
    ensures
        r is Ok <==> request_error(request@) is None,
        r is Err ==> Some(r->Err_0@) == request_error(request@),
{
    if is_blank(request.prompt.as_str()) {
        return Err(owned("Prompt cannot be empty."));
    }
    if !(256 <= request.width && request.width <= 2048) || !(256 <= request.height
        && request.height <= 2048) {
        return Err(owned("Width and height must be between 256 and 2048 pixels."));
    }
    if !(1 <= request.steps && request.steps <= 100) {
        return Err(owned("Steps must be between 1 and 100."));
    }
    Ok(())
}

/// The phase a job shows before a worker has reported anything.
pub open spec fn queued_phase() -> Seq<char> {
    "Queued"@
}

/// The phase of a freshly queued job.
pub fn default_job_phase() -> (phase: String)
    ensures
        phase@ == queued_phase(),
{
    owned("Queued")
}

/// The job that a valid request becomes when it is queued.
pub open spec fn queued_job(id: Seq<char>, request: GenerationRequestView, now: Timestamp) -> GenerationJobView {
    GenerationJobView {
        id,
        request,
        status: JobStatus::Queued,
        progress: 0,
        phase: queued_phase(),
        elapsed_seconds: None,
        eta_seconds: None,
        created_at: now,
        updated_at: now,
        output: None,
        error_message: None,
        logs: seq!["Job accepted by the local queue."@],
    }
}

/// A newly queued job for `request`.
pub fn new_job(id: String, request: GenerationRequest, now: Timestamp) -> (job: GenerationJob)
    ensures
        job@ == queued_job(id@, request@, now),
{
    let mut logs: Vec<String> = Vec::new();
    logs.push(owned("Job accepted by the local queue."));
    let job = GenerationJob {
        id,
        request,
        status: JobStatus::Queued,
        progress: 0,
        phase: default_job_phase(),
        elapsed_seconds: None,
        eta_seconds: None,
        created_at: now,
        updated_at: now,
        output: None,
        error_message: None,
        logs,
    };
    assert(job@.logs =~= seq!["Job accepted by the local queue."@]);
    job
}

// ---------------------------------------------------------------------
// Progress reports

/// A progress report about a running job.
#[derive(Debug)]
pub struct ProgressSnapshot {
    pub progress: u8,
    pub phase: String,
    pub elapsed_seconds: Option<u64>,
    pub eta_seconds: Option<u64>,
}

impl ProgressSnapshot {
    /// A snapshot of the given values.
    pub fn new(progress: u8, phase: &str, elapsed_seconds: Option<u64>, eta_seconds: Option<u64>) -> (s: Self)
        ensures
            s.progress == progress,
            s.phase@ == phase@,
            s.elapsed_seconds == elapsed_seconds,
            s.eta_seconds == eta_seconds,
    {
        ProgressSnapshot { progress, phase: owned(phase), elapsed_seconds, eta_seconds }
    }
}

// ---------------------------------------------------------------------
// Job transitions, on views

/// A job once the worker has taken it.
pub open spec fn started(j: GenerationJobView, now: Timestamp) -> GenerationJobView {
    GenerationJobView {
        status: JobStatus::Running,
        progress: 8,
        updated_at: now,
        logs: j.logs.push("Generation worker started."@),
        ..j
    }
}

/// A job once the engine has produced `asset`, with the engine's log lines.
pub open spec fn completed(
    j: GenerationJobView,
    asset: GeneratedAssetView,
    logs: Seq<Seq<char>>,
    now: Timestamp,
) -> GenerationJobView {
    GenerationJobView {
        status: JobStatus::Completed,
        progress: 100,
        updated_at: now,
        output: Some(asset),
        error_message: None,
        logs: j.logs + logs,
        ..j
    }
}

/// A job once it has failed with `message`.
pub open spec fn failed(j: GenerationJobView, message: Seq<char>, now: Timestamp) -> GenerationJobView {
    GenerationJobView {
        status: JobStatus::Failed,
        progress: 100,
        updated_at: now,
        error_message: Some(message),
        logs: j.logs.push(message),
        ..j
    }
}

/// A job cancelled before it ran.
pub open spec fn cancelled(j: GenerationJobView, now: Timestamp) -> GenerationJobView {
    GenerationJobView {
        status: JobStatus::Cancelled,
        updated_at: now,
        logs: j.logs.push("Job cancelled before execution."@),
        ..j
    }
}

/// A job after a progress report; the reported progress is capped at 99.
pub open spec fn progressed(
    j: GenerationJobView,
    progress: u8,
    phase: Seq<char>,
    elapsed: Option<u64>,
    eta: Option<u64>,
    now: Timestamp,
) -> GenerationJobView {
    GenerationJobView {
        progress: if progress < 99 { progress } else { 99 },
        phase,
        elapsed_seconds: elapsed,
        eta_seconds: eta,
        updated_at: now,
        ..j
    }
}

/// The message with which a running job refuses cancellation.
pub open spec fn running_cancel_message() -> Seq<char> {
    "Running-process cancellation is intentionally deferred until the process supervisor milestone."@
}

/// What cancelling job `id` does: an unknown or finished job is left alone
/// (`Ok(false)`), a running one is refused, a queued one is cancelled
/// (`Ok(true)`).
pub open spec fn cancel_spec(m: Map<Seq<char>, GenerationJobView>, id: Seq<char>, now: Timestamp) -> (
    Map<Seq<char>, GenerationJobView>,
    Result<bool, Seq<char>>,
) {
    if !m.contains_key(id) {
        (m, Ok(false))
    } else if m[id].status == JobStatus::Running {
        (m, Err(running_cancel_message()))
    } else if m[id].status != JobStatus::Queued {
        (m, Ok(false))
    } else {
        (m.insert(id, cancelled(m[id], now)), Ok(true))
    }
}

/// What the single worker does when it takes job `id`, with `worker` the
/// job that holds the worker now, if any: while the worker is busy, and for
/// an unknown job or one that is not queued (cancelled or already run), it
/// starts nothing (`false`); otherwise the job is marked running and holds
/// the worker (`true`).
pub open spec fn start_spec(
    m: Map<Seq<char>, GenerationJobView>,
    worker: Option<Seq<char>>,
    id: Seq<char>,
    now: Timestamp,
) -> (Map<Seq<char>, GenerationJobView>, Option<Seq<char>>, bool) {
    if worker is Some || !m.contains_key(id) || m[id].status != JobStatus::Queued {
        (m, worker, false)
    } else {
        (m.insert(id, started(m[id], now)), Some(id), true)
    }
}

/// The worker once job `id` has finished: free if `id` held it.
pub open spec fn released(worker: Option<Seq<char>>, id: Seq<char>) -> Option<Seq<char>> {
    if worker == Some(id) {
        None
    } else {
        worker
    }
}

/// `m` with job `id` changed by `f`, when there is such a job.
pub open spec fn update_spec(
    m: Map<Seq<char>, GenerationJobView>,
    id: Seq<char>,
    f: spec_fn(GenerationJobView) -> GenerationJobView,
) -> Map<Seq<char>, GenerationJobView> {
    if m.contains_key(id) {
        m.insert(id, f(m[id]))
    } else {
        m
    }
}

/// What recording a completion does to the store.
pub open spec fn complete_spec(
    m: Map<Seq<char>, GenerationJobView>,
    id: Seq<char>,
    asset: GeneratedAssetView,
    logs: Seq<Seq<char>>,
    now: Timestamp,
) -> Map<Seq<char>, GenerationJobView> {
    update_spec(m, id, |j: GenerationJobView| completed(j, asset, logs, now))
}

/// What recording a failure does to the store.
pub open spec fn fail_spec(
    m: Map<Seq<char>, GenerationJobView>,
    id: Seq<char>,
    message: Seq<char>,
    now: Timestamp,
) -> Map<Seq<char>, GenerationJobView> {
    update_spec(m, id, |j: GenerationJobView| failed(j, message, now))
}

/// What a progress report does to the store.
pub open spec fn progress_spec(
    m: Map<Seq<char>, GenerationJobView>,
    id: Seq<char>,
    progress: u8,
    phase: Seq<char>,
    elapsed: Option<u64>,
    eta: Option<u64>,
    now: Timestamp,
) -> Map<Seq<char>, GenerationJobView> {
    update_spec(m, id, |j: GenerationJobView| progressed(j, progress, phase, elapsed, eta, now))
}

// ---------------------------------------------------------------------
// The store

/// Whether the jobs carry pairwise different ids.
pub open spec fn distinct_ids(s: Seq<GenerationJob>) -> bool {
    forall|i: int, j: int| 0 <= i < s.len() && 0 <= j < s.len() && i != j ==> s[i].id@ != s[j].id@
}

/// Whether some job in `s` has id `id`.
pub open spec fn has_id(s: Seq<GenerationJob>, id: Seq<char>) -> bool {
    exists|i: int| 0 <= i < s.len() && s[i].id@ == id
}

/// The jobs of `s` by id.
pub open spec fn jobs_map(s: Seq<GenerationJob>) -> Map<Seq<char>, GenerationJobView> {
    Map::new(
        |id: Seq<char>| has_id(s, id),
        |id: Seq<char>| s[choose|i: int| 0 <= i < s.len() && s[i].id@ == id]@,
    )
}

/// The store that loading the jobs `s` in order builds: each job is added
/// by its id, a later job replacing an earlier one with the same id.
pub open spec fn loaded_map(s: Seq<GenerationJob>) -> Map<Seq<char>, GenerationJobView>
    decreases s.len(),
{
    if s.len() == 0 {
        Map::empty()
    } else {
        loaded_map(s.drop_last()).insert(s.last().id@, s.last()@)
    }
}

/// Whether `r` lists the jobs of the store `m`: every job of `m` once,
/// each as the store holds it.
pub open spec fn lists_jobs(m: Map<Seq<char>, GenerationJobView>, r: Seq<GenerationJob>) -> bool {
    &&& forall|k: int| 0 <= k < r.len() ==> m.contains_key(#[trigger] r[k].id@) && r[k]@ == m[r[k].id@]
    &&& forall|id: Seq<char>| m.contains_key(id) ==> has_id(r, id)
    &&& distinct_ids(r)
}

proof fn lemma_loaded_dom(s: Seq<GenerationJob>, id: Seq<char>)
    ensures
        loaded_map(s).contains_key(id) <==> has_id(s, id),
    decreases s.len(),
{
    if s.len() > 0 {
        let rest = s.drop_last();
        lemma_loaded_dom(rest, id);
        if has_id(rest, id) {
            let k = choose|k: int| 0 <= k < rest.len() && rest[k].id@ == id;
            assert(s[k] == rest[k]);
        }
        if has_id(s, id) {
            let k = choose|k: int| 0 <= k < s.len() && s[k].id@ == id;
            if k < s.len() - 1 {
                assert(rest[k] == s[k]);
            }
        }
    }
}

/// Listing the jobs of a store and loading that list again gives back the
/// same store: the saved job file holds the whole job history.
pub proof fn law_listed_jobs_reload(m: Map<Seq<char>, GenerationJobView>, r: Seq<GenerationJob>)
    requires
        lists_jobs(m, r),
    ensures
        loaded_map(r) == m,
    decreases r.len(),
{
    if r.len() == 0 {
        assert forall|id: Seq<char>| !m.contains_key(id) by {
            if m.contains_key(id) {
                assert(has_id(r, id));
            }
        }
        assert(m =~= Map::<Seq<char>, GenerationJobView>::empty());
    } else {
        let n = r.len() - 1;
        let last = r[n];
        let rest = r.drop_last();
        let m2 = m.remove(last.id@);
        assert(m.contains_key(r[n].id@) && r[n]@ == m[r[n].id@]);
        assert forall|k: int| 0 <= k < rest.len() implies m2.contains_key(#[trigger] rest[k].id@) && rest[k]@
            == m2[rest[k].id@] by {
            assert(rest[k] == r[k]);
            assert(r[k].id@ != r[n].id@);
            assert(m.contains_key(r[k].id@) && r[k]@ == m[r[k].id@]);
        }
        assert forall|id: Seq<char>| m2.contains_key(id) implies has_id(rest, id) by {
            assert(m.contains_key(id));
            assert(has_id(r, id));
            let k = choose|k: int| 0 <= k < r.len() && r[k].id@ == id;
            assert(k != n);
            assert(rest[k] == r[k]);
        }
        assert forall|a: int, b: int| 0 <= a < rest.len() && 0 <= b < rest.len() && a != b implies rest[a].id@
            != rest[b].id@ by {
            assert(rest[a] == r[a] && rest[b] == r[b]);
        }
        law_listed_jobs_reload(m2, rest);
        assert(r.last() == last);
        assert(m2.insert(last.id@, last@) =~= m);
    }
}

proof fn lemma_map_at(s: Seq<GenerationJob>, i: int)
    requires
        distinct_ids(s),
        0 <= i < s.len(),
    ensures
        jobs_map(s).contains_key(s[i].id@),
        jobs_map(s)[s[i].id@] == s[i]@,
{
    let id = s[i].id@;
    assert(has_id(s, id));
    let k = choose|k: int| 0 <= k < s.len() && s[k].id@ == id;
    assert(k == i);
}

proof fn lemma_map_replace(s: Seq<GenerationJob>, i: int, job: GenerationJob)
    requires
        distinct_ids(s),
        0 <= i < s.len(),
        job.id@ == s[i].id@,
    ensures
        distinct_ids(s.update(i, job)),
        jobs_map(s.update(i, job)) == jobs_map(s).insert(job.id@, job@),
{
    let t = s.update(i, job);
    assert forall|a: int, b: int| 0 <= a < t.len() && 0 <= b < t.len() && a != b implies t[a].id@
        != t[b].id@ by {
        assert(t[a].id@ == s[a].id@);
        assert(t[b].id@ == s[b].id@);
    }
    let m1 = jobs_map(t);
    let m2 = jobs_map(s).insert(job.id@, job@);
    assert forall|id: Seq<char>| m1.contains_key(id) <==> m2.contains_key(id) by {
        if has_id(t, id) {
            let k = choose|k: int| 0 <= k < t.len() && t[k].id@ == id;
            assert(s[k].id@ == id);
        }
        if has_id(s, id) {
            let k = choose|k: int| 0 <= k < s.len() && s[k].id@ == id;
            assert(t[k].id@ == id);
        }
        if id == job.id@ {
            assert(t[i].id@ == id);
        }
    }
    assert forall|id: Seq<char>| m1.contains_key(id) implies m1[id] == m2[id] by {
        let k = choose|k: int| 0 <= k < t.len() && t[k].id@ == id;
        lemma_map_at(t, k);
        if k == i {
            assert(m2[id] == job@);
        } else {
            assert(s[k].id@ == id);
            lemma_map_at(s, k);
        }
    }
    assert(m1 =~= m2);
}

proof fn lemma_map_push(s: Seq<GenerationJob>, job: GenerationJob)
    requires
        distinct_ids(s),
        !has_id(s, job.id@),
    ensures
        distinct_ids(s.push(job)),
        jobs_map(s.push(job)) == jobs_map(s).insert(job.id@, job@),
{
    let t = s.push(job);
    assert forall|a: int, b: int| 0 <= a < t.len() && 0 <= b < t.len() && a != b implies t[a].id@
        != t[b].id@ by {
        if a < s.len() && b < s.len() {
            assert(t[a] == s[a] && t[b] == s[b]);
        } else if a < s.len() {
            assert(t[a] == s[a]);
        } else {
            assert(t[b] == s[b]);
        }
    }
    let m1 = jobs_map(t);
    let m2 = jobs_map(s).insert(job.id@, job@);
    assert forall|id: Seq<char>| m1.contains_key(id) <==> m2.contains_key(id) by {
        if has_id(t, id) {
            let k = choose|k: int| 0 <= k < t.len() && t[k].id@ == id;
            if k < s.len() {
                assert(s[k] == t[k]);
            }
        }
        if has_id(s, id) {
            let k = choose|k: int| 0 <= k < s.len() && s[k].id@ == id;
            assert(t[k] == s[k]);
        }
        if id == job.id@ {
            assert(t[s.len() as int] == job);
        }
    }
    assert forall|id: Seq<char>| m1.contains_key(id) implies m1[id] == m2[id] by {
        let k = choose|k: int| 0 <= k < t.len() && t[k].id@ == id;
        lemma_map_at(t, k);
        if k < s.len() {
            assert(t[k] == s[k]);
            lemma_map_at(s, k);
        }
    }
    assert(m1 =~= m2);
}

/// Whether `a` is strictly earlier than `b`.
pub open spec fn earlier(a: Timestamp, b: Timestamp) -> bool {
    a.seconds < b.seconds || (a.seconds == b.seconds && a.nanos < b.nanos)
}

fn is_earlier(a: Timestamp, b: Timestamp) -> (r: bool)
    ensures
        r == earlier(a, b),
{
    a.seconds < b.seconds || (a.seconds == b.seconds && a.nanos < b.nanos)
}

/// Whether the jobs run from newest to oldest by creation time.
pub open spec fn newest_first(s: Seq<GenerationJobView>) -> bool {
    forall|a: int, b: int| 0 <= a < b < s.len() ==> !earlier(s[a].created_at, s[b].created_at)
}

/// All generation jobs, by id.
#[derive(Debug)]
pub struct JobStore {
    jobs: Vec<GenerationJob>,
    active: Option<String>,
}

impl View for JobStore {
    type V = Map<Seq<char>, GenerationJobView>;

    closed spec fn view(&self) -> Map<Seq<char>, GenerationJobView> {
        jobs_map(self.jobs@)
    }
}

impl JobStore {
    /// The store's internal consistency: no two jobs share an id.
    pub closed spec fn wf(&self) -> bool {
        distinct_ids(self.jobs@)
    }

    /// The job that holds the single worker, if any.
    pub closed spec fn worker(&self) -> Option<Seq<char>> {
        match self.active {
            Some(id) => Some(id@),
            None => None,
        }
    }

    /// An empty store.
    pub fn new() -> (s: Self)
        ensures
            s.wf(),
            s@ == Map::<Seq<char>, GenerationJobView>::empty(),
            s.worker() is None,
    {
        let s = JobStore { jobs: Vec::new(), active: None };
        assert(s@ =~= Map::<Seq<char>, GenerationJobView>::empty());
        s
    }

    /// A store holding the given jobs; a later job replaces an earlier one
    /// with the same id.
    pub fn from_jobs(jobs: Vec<GenerationJob>) -> (s: Self)
        ensures
            s.wf(),
            s@ == loaded_map(jobs@),
            forall|id: Seq<char>| s@.contains_key(id) <==> has_id(jobs@, id),
            s.worker() is None,
    {
        let mut s = JobStore::new();
        let mut rest = jobs;
        let ghost all = rest@;
        let mut taken: Vec<GenerationJob> = Vec::new();
        let n = rest.len();
        let mut i: usize = 0;
        while i < n
            invariant
                s.wf(),
                s.worker() is None,
                rest.len() == n,
                i <= n,
                s@ == loaded_map(all.take(i as int)),
                forall|k: int| i <= k < n ==> #[trigger] rest@[k] == all[k],
                all.len() == n,
            decreases n - i,
        {
            let job = rest[i].copy();
            let ghost before = s@;
            s.insert_job(job);
            proof {
                assert(all.take(i + 1).drop_last() == all.take(i as int));
                assert(all.take(i + 1).last() == all[i as int]);
            }
            i = i + 1;
        }
        assert(all.take(n as int) == all);
        proof {
            assert forall|id: Seq<char>| s@.contains_key(id) <==> has_id(jobs@, id) by {
                lemma_loaded_dom(all, id);
            }
        }
        s
    }

    fn index_of(&self, id: &str) -> (r: Option<usize>)
        requires
            self.wf(),
        ensures
            r is Some ==> r->0 < self.jobs.len() && self.jobs@[r->0 as int].id@ == id@,
            r is None ==> !has_id(self.jobs@, id@),
    {
        let mut i: usize = 0;
        while i < self.jobs.len()
            invariant
                i <= self.jobs.len(),
                forall|k: int| 0 <= k < i ==> self.jobs@[k].id@ != id@,
            decreases self.jobs.len() - i,
        {
            if crate::text::str_equal(self.jobs[i].id.as_str(), id) {
                return Some(i);
            }
            i = i + 1;
        }
        None
    }

    /// The job with id `id`, if there is one.
    pub fn get_job(&self, id: &str) -> (r: Option<GenerationJob>)
        requires
            self.wf(),
        ensures
            r is Some <==> self@.contains_key(id@),
            r is Some ==> r->0@ == self@[id@],
    {
        match self.index_of(id) {
            Some(i) => {
                proof {
                    lemma_map_at(self.jobs@, i as int);
                }
                Some(self.jobs[i].copy())
            },
            None => None,
        }
    }

    /// Adds `job`, replacing any job with the same id.
    pub fn insert_job(&mut self, job: GenerationJob)
        requires
            old(self).wf(),
        ensures
            final(self).wf(),
            final(self)@ == old(self)@.insert(job.id@, job@),
            final(self).worker() == old(self).worker(),
    {
        match self.index_of(job.id.as_str()) {
            Some(i) => {
                proof {
                    lemma_map_replace(self.jobs@, i as int, job);
                }
                self.jobs.set(i, job);
            },
            None => {
                proof {
                    lemma_map_push(self.jobs@, job);
                }
                self.jobs.push(job);
            },
        }
    }

    /// All jobs, newest first.  Jobs created at the same instant keep the
    /// order in which the store holds them.
    pub fn list_jobs(&self) -> (r: Vec<GenerationJob>)
        requires
            self.wf(),
        ensures
            lists_jobs(self@, r@),
            newest_first(r@.map_values(|j: GenerationJob| j@)),
    {
        let mut r: Vec<GenerationJob> = Vec::new();
        for i in 0..self.jobs.len()
            invariant
                self.wf(),
                r.len() == i,
                distinct_ids(r@),
                forall|k: int| 0 <= k < r.len() ==> drawn_from(self.jobs@, i as int, #[trigger] r@[k]),
                forall|m: int| 0 <= m < i ==> has_id(r@, #[trigger] self.jobs@[m].id@),
                newest_first_jobs(r@),
        {
            let job = self.jobs[i].copy();
            let ghost before = r@;
            proof {
                assert forall|k: int| 0 <= k < before.len() implies before[k].id@ != job.id@ by {
                    assert(drawn_from(self.jobs@, i as int, before[k]));
                    let m = choose|m: int| 0 <= m < i && before[k]@ == self.jobs@[m]@;
                    assert(before[k].id@ == self.jobs@[m].id@);
                }
            }
            let p = insert_newest_first(&mut r, job);
            proof {
                lemma_insert_keeps_contents(self.jobs@, i as int, before, p as int, job);
            }
        }
        proof {
            assert forall|k: int| 0 <= k < r.len() implies self@.contains_key(#[trigger] r@[k].id@) && r@[k]@
                == self@[r@[k].id@] by {
                assert(drawn_from(self.jobs@, self.jobs.len() as int, r@[k]));
                let m = choose|m: int| 0 <= m < self.jobs.len() && r@[k]@ == self.jobs@[m]@;
                lemma_map_at(self.jobs@, m);
            }
            assert forall|id: Seq<char>| self@.contains_key(id) implies has_id(r@, id) by {
                let m = choose|m: int| 0 <= m < self.jobs.len() && self.jobs@[m].id@ == id;
                assert(has_id(r@, self.jobs@[m].id@));
            }
            let v = r@.map_values(|j: GenerationJob| j@);
            assert forall|a: int, b: int| 0 <= a < b < v.len() implies !earlier(v[a].created_at, v[b].created_at) by {
                assert(v[a] == r@[a]@ && v[b] == r@[b]@);
            }
        }
        r
    }
}

/// The view of a result whose error is a message.
pub open spec fn result_view<T>(r: Result<T, String>) -> Result<T, Seq<char>> {
    match r {
        Ok(v) => Ok(v),
        Err(e) => Err(e@),
    }
}

impl JobStore {
    fn release(&mut self, id: &str)
        requires
            old(self).wf(),
        ensures
            final(self).wf(),
            final(self)@ == old(self)@,
            final(self).worker() == released(old(self).worker(), id@),
    {
        let holds = match &self.active {
            Some(a) => crate::text::str_equal(a.as_str(), id),
            None => false,
        };
        if holds {
            self.active = None;
        }
    }

    fn replace_at(&mut self, i: usize, job: GenerationJob)
        requires
            old(self).wf(),
            i < old(self).jobs.len(),
            job.id@ == old(self).jobs@[i as int].id@,
        ensures
            final(self).wf(),
            final(self)@ == old(self)@.insert(job.id@, job@),
            final(self).worker() == old(self).worker(),
    {
        proof {
            lemma_map_replace(self.jobs@, i as int, job);
        }
        self.jobs.set(i, job);
    }

    /// Cancels job `id` at time `now` if it is still queued: an unknown or
    /// finished job is left alone (`Ok(false)`), a running one is refused.
    pub fn cancel_at(&mut self, id: &str, now: Timestamp) -> (r: Result<bool, String>)
        requires
            old(self).wf(),
        ensures
            final(self).wf(),
            (final(self)@, result_view(r)) == cancel_spec(old(self)@, id@, now),
            final(self).worker() == old(self).worker(),
    {
        match self.index_of(id) {
            None => Ok(false),
            Some(i) => {
                proof {
                    lemma_map_at(self.jobs@, i as int);
                }
                let status = self.jobs[i].status;
                if status == JobStatus::Running {
                    return Err(
                        owned(
                            "Running-process cancellation is intentionally deferred until the process supervisor milestone.",
                        ),
                    );
                }
                if status != JobStatus::Queued {
                    return Ok(false);
                }
                let mut job = self.jobs[i].copy();
                let ghost before = job@;
                job.status = JobStatus::Cancelled;
                job.updated_at = now;
                job.logs.push(owned("Job cancelled before execution."));
                assert(job@.logs =~= before.logs.push("Job cancelled before execution."@));
                assert(job@ =~= cancelled(before, now));
                self.replace_at(i, job);
                Ok(true)
            },
        }
    }

    /// Cancels job `id` now if it is still queued (see [`JobStore::cancel_at`]).
    pub fn cancel(&mut self, id: &str) -> (r: Result<bool, String>)
        requires
            old(self).wf(),
        ensures
            final(self).wf(),
            exists|t: Timestamp| (final(self)@, result_view(r)) == #[trigger] cancel_spec(old(self)@, id@, t),
            final(self).worker() == old(self).worker(),
    {
        let now = clock::now();
        self.cancel_at(id, now)
    }

    /// The single worker takes job `id` at time `now`: while another job
    /// holds the worker, and for an unknown job or one that is not queued,
    /// nothing starts (`false`); otherwise the job is marked running with
    /// progress 8 and holds the worker until it completes or fails.
    pub fn start_at(&mut self, id: &str, now: Timestamp) -> (started_job: bool)
        requires
            old(self).wf(),
        ensures
            final(self).wf(),
            (final(self)@, final(self).worker(), started_job) == start_spec(old(self)@, old(self).worker(), id@, now),
    {
        if self.active.is_some() {
            return false;
        }
        match self.index_of(id) {
            None => false,
            Some(i) => {
                proof {
                    lemma_map_at(self.jobs@, i as int);
                }
                if self.jobs[i].status != JobStatus::Queued {
                    return false;
                }
                let mut job = self.jobs[i].copy();
                let ghost before = job@;
                job.status = JobStatus::Running;
                job.progress = 8;
                job.updated_at = now;
                job.logs.push(owned("Generation worker started."));
                assert(job@.logs =~= before.logs.push("Generation worker started."@));
                assert(job@ =~= started(before, now));
                self.replace_at(i, job);
                self.active = Some(owned(id));
                true
            },
        }
    }

    /// The worker takes job `id` now (see [`JobStore::start_at`]).
    pub fn start(&mut self, id: &str) -> (started_job: bool)
        requires
            old(self).wf(),
        ensures
            final(self).wf(),
            exists|t: Timestamp| (final(self)@, final(self).worker(), started_job) == #[trigger] start_spec(
                old(self)@,
                old(self).worker(),
                id@,
                t,
            ),
    {
        let now = clock::now();
        self.start_at(id, now)
    }

    /// Records at time `now` that job `id` produced `asset`, appending the
    /// engine's log lines; returns whether there was such a job.
    pub fn complete_at(&mut self, id: &str, asset: GeneratedAsset, logs: Vec<String>, now: Timestamp) -> (found: bool)
        requires
            old(self).wf(),
        ensures
            final(self).wf(),
            found == old(self)@.contains_key(id@),
            final(self)@ == complete_spec(old(self)@, id@, asset@, crate::models::strings_view(logs@), now),
            final(self).worker() == released(old(self).worker(), id@),
    {
        self.release(id);
        match self.index_of(id) {
            None => {
                assert(!old(self)@.contains_key(id@));
                false
            },
            Some(i) => {
                proof {
                    lemma_map_at(self.jobs@, i as int);
                }
                let mut job = self.jobs[i].copy();
                let ghost before = job@;
                job.status = JobStatus::Completed;
                job.progress = 100;
                job.updated_at = now;
                let ghost asset_view = asset@;
                job.output = Some(asset);
                job.error_message = None;
                let ghost old_logs = job.logs@;
                extend_strings(&mut job.logs, &logs);
                assert(crate::models::strings_view(old_logs + logs@) =~= crate::models::strings_view(old_logs) + crate::models::strings_view(logs@));
                assert(job@.logs =~= before.logs + crate::models::strings_view(logs@));
                assert(job@ =~= completed(before, asset_view, crate::models::strings_view(logs@), now));
                self.replace_at(i, job);
                true
            },
        }
    }

    /// Records now that job `id` produced `asset` (see [`JobStore::complete_at`]).
    pub fn complete(&mut self, id: &str, asset: GeneratedAsset, logs: Vec<String>) -> (found: bool)
        requires
            old(self).wf(),
        ensures
            final(self).wf(),
            found == old(self)@.contains_key(id@),
            exists|t: Timestamp| final(self)@ == #[trigger] complete_spec(old(self)@, id@, asset@, crate::models::strings_view(logs@), t),
            final(self).worker() == released(old(self).worker(), id@),
    {
        let now = clock::now();
        self.complete_at(id, asset, logs, now)
    }

    /// Records at time `now` that job `id` failed with `message`; returns
    /// whether there was such a job.
    pub fn fail_at(&mut self, id: &str, message: &str, now: Timestamp) -> (found: bool)
        requires
            old(self).wf(),
        ensures
            final(self).wf(),
            found == old(self)@.contains_key(id@),
            final(self)@ == fail_spec(old(self)@, id@, message@, now),
            final(self).worker() == released(old(self).worker(), id@),
    {
        self.release(id);
        match self.index_of(id) {
            None => {
                assert(!old(self)@.contains_key(id@));
                false
            },
            Some(i) => {
                proof {
                    lemma_map_at(self.jobs@, i as int);
                }
                let mut job = self.jobs[i].copy();
                let ghost before = job@;
                job.status = JobStatus::Failed;
                job.progress = 100;
                job.updated_at = now;
                job.error_message = Some(owned(message));
                job.logs.push(owned(message));
                assert(job@.logs =~= before.logs.push(message@));
                assert(job@ =~= failed(before, message@, now));
                self.replace_at(i, job);
                true
            },
        }
    }

    /// Records now that job `id` failed (see [`JobStore::fail_at`]).
    pub fn fail(&mut self, id: &str, message: &str) -> (found: bool)
        requires
            old(self).wf(),
        ensures
            final(self).wf(),
            found == old(self)@.contains_key(id@),
            exists|t: Timestamp| final(self)@ == #[trigger] fail_spec(old(self)@, id@, message@, t),
            final(self).worker() == released(old(self).worker(), id@),
    {
        let now = clock::now();
        self.fail_at(id, message, now)
    }

    /// Applies a progress report to job `id` at time `now`, capping the
    /// progress at 99; returns whether there was such a job.
    pub fn update_progress_at(&mut self, id: &str, snapshot: ProgressSnapshot, now: Timestamp) -> (found: bool)
        requires
            old(self).wf(),
        ensures
            final(self).wf(),
            found == old(self)@.contains_key(id@),
            final(self)@ == progress_spec(old(self)@, id@, snapshot.progress, snapshot.phase@, snapshot.elapsed_seconds, snapshot.eta_seconds, now),
            final(self).worker() == old(self).worker(),
    {
        match self.index_of(id) {
            None => {
                assert(!old(self)@.contains_key(id@));
                false
            },
            Some(i) => {
                proof {
                    lemma_map_at(self.jobs@, i as int);
                }
                let mut job = self.jobs[i].copy();
                let ghost before = job@;
                let ghost phase = snapshot.phase@;
                job.progress = if snapshot.progress < 99 { snapshot.progress } else { 99 };
                job.phase = snapshot.phase;
                job.elapsed_seconds = snapshot.elapsed_seconds;
                job.eta_seconds = snapshot.eta_seconds;
                job.updated_at = now;
                assert(job@ =~= progressed(before, snapshot.progress, phase, snapshot.elapsed_seconds, snapshot.eta_seconds, now));
                self.replace_at(i, job);
                true
            },
        }
    }

    /// Applies a progress report to job `id` now (see
    /// [`JobStore::update_progress_at`]).
    pub fn update_progress(&mut self, id: &str, snapshot: ProgressSnapshot) -> (found: bool)
        requires
            old(self).wf(),
        ensures
            final(self).wf(),
            found == old(self)@.contains_key(id@),
            exists|t: Timestamp| final(self)@ == #[trigger] progress_spec(old(self)@, id@, snapshot.progress, snapshot.phase@, snapshot.elapsed_seconds, snapshot.eta_seconds, t),
            final(self).worker() == old(self).worker(),
    {
        let now = clock::now();
        self.update_progress_at(id, snapshot, now)
    }

    /// Queues a valid request as a new job with a fresh random id and the
    /// current time, and returns the job; an invalid request is refused
    /// with the reason and leaves the store as it was.
    pub fn enqueue(&mut self, request: GenerationRequest) -> (r: Result<GenerationJob, String>)
        requires
            old(self).wf(),
        ensures
            final(self).wf(),
            r is Err ==> final(self)@ == old(self)@ && Some(r->Err_0@) == request_error(request@),
            r is Ok <==> request_error(request@) is None,
            r is Ok ==> ({
                let job = r->Ok_0;
                &&& job@ == queued_job(job.id@, request@, job.created_at)
                &&& crate::ids::is_uuid_v4_text(job.id@)
                &&& final(self)@ == old(self)@.insert(job.id@, job@)
            }),
            final(self).worker() == old(self).worker(),
    {
        match validate_request(&request) {
            Err(e) => Err(e),
            Ok(()) => {
                let id = ids::new_uuid_text();
                let now = clock::now();
                let job = new_job(id, request, now);
                let copy = job.copy();
                self.insert_job(job);
                Ok(copy)
            },
        }
    }
}

/// Appends the strings of `more` to `v`.
pub fn extend_strings(v: &mut Vec<String>, more: &Vec<String>)
    ensures
        final(v)@ == old(v)@ + more@,
{
    let mut k: usize = 0;
    while k < more.len()
        invariant
            k <= more.len(),
            v@ == old(v)@ + more@.take(k as int),
        decreases more.len() - k,
    {
        v.push(more[k].clone());
        assert(more@.take(k + 1) == more@.take(k as int).push(more@[k as int]));
        k = k + 1;
    }
    assert(more@.take(more.len() as int) == more@);
}

/// Whether `job` has the value of one of the first `n` jobs of `s`.
pub open spec fn drawn_from(s: Seq<GenerationJob>, n: int, job: GenerationJob) -> bool {
    exists|m: int| 0 <= m < n && job@ == s[m]@
}

/// Whether the jobs run from newest to oldest by creation time.
pub open spec fn newest_first_jobs(s: Seq<GenerationJob>) -> bool {
    forall|a: int, b: int| 0 <= a < b < s.len() ==> !earlier(s[a].created_at, s[b].created_at)
}

/// Inserts `job` after every job that is not older than it.
fn insert_newest_first(r: &mut Vec<GenerationJob>, job: GenerationJob) -> (p: usize)
    requires
        newest_first_jobs(old(r)@),
    ensures
        p <= old(r)@.len(),
        final(r)@ == old(r)@.insert(p as int, job),
        newest_first_jobs(final(r)@),
{
    let created = job.created_at;
    let mut p: usize = 0;
    while p < r.len() && !is_earlier(r[p].created_at, created)
        invariant
            p <= r.len(),
            forall|q: int| 0 <= q < p ==> !earlier(#[trigger] r@[q].created_at, created),
        decreases r.len() - p,
    {
        p = p + 1;
    }
    let ghost before = r@;
    assert(p == before.len() || earlier(before[p as int].created_at, created));
    r.insert(p, job);
    proof {
        assert forall|a: int, b: int| 0 <= a < b < r.len() implies !earlier(r@[a].created_at, r@[b].created_at) by {
            if b < p {
                assert(r@[a] == before[a] && r@[b] == before[b]);
            } else if b == p {
                assert(r@[a] == before[a]);
            } else if a < p {
                assert(r@[a] == before[a]);
                assert(r@[b] == before[b - 1]);
                assert(!earlier(before[a].created_at, before[b - 1].created_at));
            } else if a == p {
                assert(r@[b] == before[b - 1]);
                assert(earlier(before[p as int].created_at, created));
                if b - 1 > p {
                    assert(!earlier(before[p as int].created_at, before[b - 1].created_at));
                }
            } else {
                assert(r@[a] == before[a - 1] && r@[b] == before[b - 1]);
            }
        }
    }
    p
}

proof fn lemma_insert_keeps_contents(
    s: Seq<GenerationJob>,
    i: int,
    before: Seq<GenerationJob>,
    p: int,
    job: GenerationJob,
)
    requires
        0 <= i < s.len(),
        job@ == s[i]@,
        0 <= p <= before.len(),
        distinct_ids(before),
        forall|k: int| 0 <= k < before.len() ==> before[k].id@ != job.id@,
        forall|k: int| 0 <= k < before.len() ==> drawn_from(s, i, #[trigger] before[k]),
        forall|m: int| 0 <= m < i ==> has_id(before, #[trigger] s[m].id@),
    ensures
        distinct_ids(before.insert(p, job)),
        forall|k: int| 0 <= k < before.len() + 1 ==> drawn_from(s, i + 1, #[trigger] before.insert(p, job)[k]),
        forall|m: int| 0 <= m < i + 1 ==> has_id(before.insert(p, job), #[trigger] s[m].id@),
{
    let r = before.insert(p, job);
    assert forall|k: int| 0 <= k < r.len() implies drawn_from(s, i + 1, #[trigger] r[k]) by {
        if k < p {
            assert(r[k] == before[k]);
            assert(drawn_from(s, i, before[k]));
            let m = choose|m: int| 0 <= m < i && before[k]@ == s[m]@;
            assert(r[k]@ == s[m]@);
        } else if k == p {
            assert(r[k]@ == s[i]@);
        } else {
            assert(r[k] == before[k - 1]);
            assert(drawn_from(s, i, before[k - 1]));
            let m = choose|m: int| 0 <= m < i && before[k - 1]@ == s[m]@;
            assert(r[k]@ == s[m]@);
        }
    }
    assert forall|m: int| 0 <= m < i + 1 implies has_id(r, #[trigger] s[m].id@) by {
        if m == i {
            assert(r[p].id@ == s[m].id@);
        } else {
            assert(has_id(before, s[m].id@));
            let k = choose|k: int| 0 <= k < before.len() && before[k].id@ == s[m].id@;
            if k < p {
                assert(r[k] == before[k]);
            } else {
                assert(r[k + 1] == before[k]);
            }
        }
    }
    assert forall|a: int, b: int| 0 <= a < r.len() && 0 <= b < r.len() && a != b implies r[a].id@ != r[b].id@ by {
        if a != p && b != p {
            let ia = if a < p { a } else { a - 1 };
            let ib = if b < p { b } else { b - 1 };
            assert(r[a] == before[ia]);
            assert(r[b] == before[ib]);
        } else if a == p {
            let ib = if b < p { b } else { b - 1 };
            assert(r[b] == before[ib]);
        } else {
            let ia = if a < p { a } else { a - 1 };
            assert(r[a] == before[ia]);
        }
    }
}


// ---------------------------------------------------------------------
// Laws of the job queue

/// Reading a job back after storing it gives the stored job, and storing
/// a job leaves every other job as it was.
pub proof fn law_read_after_write(m: Map<Seq<char>, GenerationJobView>, job: GenerationJobView, other: Seq<char>)
    ensures
        m.insert(job.id, job).contains_key(job.id),
        m.insert(job.id, job)[job.id] == job,
        other != job.id ==> (m.insert(job.id, job).contains_key(other) == m.contains_key(other)),
        other != job.id && m.contains_key(other) ==> m.insert(job.id, job)[other] == m[other],
{
}

/// Cancellation succeeds exactly on a queued job and then leaves it
/// cancelled; a running job is refused with a message; in every other case
/// the store is unchanged.
pub proof fn law_cancel_only_queued(m: Map<Seq<char>, GenerationJobView>, id: Seq<char>, now: Timestamp)
    ensures
        (cancel_spec(m, id, now).1 == Ok::<bool, Seq<char>>(true)) <==> (m.contains_key(id)
            && m[id].status == JobStatus::Queued),
        cancel_spec(m, id, now).1 is Err <==> (m.contains_key(id) && m[id].status
            == JobStatus::Running),
        cancel_spec(m, id, now).1 == Ok::<bool, Seq<char>>(true) ==> cancel_spec(m, id, now).0[id].status
            == JobStatus::Cancelled,
        cancel_spec(m, id, now).1 != Ok::<bool, Seq<char>>(true) ==> cancel_spec(m, id, now).0 == m,
{
}

/// A job cancelled while queued is never started by the worker.
pub proof fn law_cancelled_job_never_starts(
    m: Map<Seq<char>, GenerationJobView>,
    id: Seq<char>,
    cancelled_at: Timestamp,
    started_at: Timestamp,
)
    requires
        cancel_spec(m, id, cancelled_at).1 == Ok::<bool, Seq<char>>(true),
    ensures
        forall|worker: Option<Seq<char>>| #[trigger] start_spec(cancel_spec(m, id, cancelled_at).0, worker, id, started_at) == (
            cancel_spec(m, id, cancelled_at).0,
            worker,
            false,
        ),
{
}

/// Whether every job's progress is at most 100.
pub open spec fn progress_bounded(m: Map<Seq<char>, GenerationJobView>) -> bool {
    forall|id: Seq<char>| m.contains_key(id) ==> #[trigger] m[id].progress <= 100
}

/// No transition of the queue adds or removes a job, and every transition
/// keeps all progress values within 0..=100.
pub proof fn law_transitions_keep_jobs_and_progress(
    m: Map<Seq<char>, GenerationJobView>,
    id: Seq<char>,
    worker: Option<Seq<char>>,
    now: Timestamp,
    asset: GeneratedAssetView,
    logs: Seq<Seq<char>>,
    message: Seq<char>,
    progress: u8,
    phase: Seq<char>,
    elapsed: Option<u64>,
    eta: Option<u64>,
)
    requires
        progress_bounded(m),
    ensures
        cancel_spec(m, id, now).0.dom() == m.dom(),
        start_spec(m, worker, id, now).0.dom() == m.dom(),
        complete_spec(m, id, asset, logs, now).dom() == m.dom(),
        fail_spec(m, id, message, now).dom() == m.dom(),
        progress_spec(m, id, progress, phase, elapsed, eta, now).dom() == m.dom(),
        progress_bounded(cancel_spec(m, id, now).0),
        progress_bounded(start_spec(m, worker, id, now).0),
        progress_bounded(complete_spec(m, id, asset, logs, now)),
        progress_bounded(fail_spec(m, id, message, now)),
        progress_bounded(progress_spec(m, id, progress, phase, elapsed, eta, now)),
{
    if m.contains_key(id) {
        assert(m.insert(id, m[id]).dom() =~= m.dom());
        assert(cancel_spec(m, id, now).0.dom() =~= m.dom());
        assert(start_spec(m, worker, id, now).0.dom() =~= m.dom());
        assert(complete_spec(m, id, asset, logs, now).dom() =~= m.dom());
        assert(fail_spec(m, id, message, now).dom() =~= m.dom());
        assert(progress_spec(m, id, progress, phase, elapsed, eta, now).dom() =~= m.dom());
    }
}

/// A completed job carries its output and no error; a failed job carries
/// its message, which is also its last log line; a progress report never
/// shows 100 percent.
pub proof fn law_outcomes_are_recorded(
    j: GenerationJobView,
    asset: GeneratedAssetView,
    logs: Seq<Seq<char>>,
    message: Seq<char>,
    progress: u8,
    phase: Seq<char>,
    elapsed: Option<u64>,
    eta: Option<u64>,
    now: Timestamp,
)
    ensures
        completed(j, asset, logs, now).output == Some(asset),
        completed(j, asset, logs, now).error_message is None,
        completed(j, asset, logs, now).progress == 100,
        failed(j, message, now).error_message == Some(message),
        failed(j, message, now).logs.last() == message,
        failed(j, message, now).progress == 100,
        progressed(j, progress, phase, elapsed, eta, now).progress <= 99,
{
}

// ---------------------------------------------------------------------
// The single worker

/// Whether at most one job is running.
pub open spec fn at_most_one_running(m: Map<Seq<char>, GenerationJobView>) -> bool {
    forall|a: Seq<char>, b: Seq<char>|
        m.contains_key(a) && m.contains_key(b) && #[trigger] m[a].status == JobStatus::Running
            && #[trigger] m[b].status == JobStatus::Running ==> a == b
}

/// Whether every running job is the one that holds the worker.
pub open spec fn runs_on_worker(m: Map<Seq<char>, GenerationJobView>, worker: Option<Seq<char>>) -> bool {
    forall|id: Seq<char>| m.contains_key(id) && #[trigger] m[id].status == JobStatus::Running ==> worker == Some(id)
}

/// One operation on the job store, as the queue performs them.
pub enum StoreOp {
    Enqueue { id: Seq<char>, request: GenerationRequestView, now: Timestamp },
    Cancel { id: Seq<char>, now: Timestamp },
    Start { id: Seq<char>, now: Timestamp },
    Complete { id: Seq<char>, asset: GeneratedAssetView, logs: Seq<Seq<char>>, now: Timestamp },
    Fail { id: Seq<char>, message: Seq<char>, now: Timestamp },
    Progress {
        id: Seq<char>,
        progress: u8,
        phase: Seq<char>,
        elapsed: Option<u64>,
        eta: Option<u64>,
        now: Timestamp,
    },
}

/// The jobs and the worker after one operation, as the store's methods
/// state it (`enqueue`, `cancel_at`, `start_at`, `complete_at`, `fail_at`,
/// `update_progress_at`).
pub open spec fn store_step(
    m: Map<Seq<char>, GenerationJobView>,
    worker: Option<Seq<char>>,
    op: StoreOp,
) -> (Map<Seq<char>, GenerationJobView>, Option<Seq<char>>) {
    match op {
        StoreOp::Enqueue { id, request, now } => (m.insert(id, queued_job(id, request, now)), worker),
        StoreOp::Cancel { id, now } => (cancel_spec(m, id, now).0, worker),
        StoreOp::Start { id, now } => {
            let r = start_spec(m, worker, id, now);
            (r.0, r.1)
        },
        StoreOp::Complete { id, asset, logs, now } => (complete_spec(m, id, asset, logs, now), released(worker, id)),
        StoreOp::Fail { id, message, now } => (fail_spec(m, id, message, now), released(worker, id)),
        StoreOp::Progress { id, progress, phase, elapsed, eta, now } => (
            progress_spec(m, id, progress, phase, elapsed, eta, now),
            worker,
        ),
    }
}

/// The jobs and the worker after a run of operations.
pub open spec fn store_run(
    m: Map<Seq<char>, GenerationJobView>,
    worker: Option<Seq<char>>,
    ops: Seq<StoreOp>,
) -> (Map<Seq<char>, GenerationJobView>, Option<Seq<char>>)
    decreases ops.len(),
{
    if ops.len() == 0 {
        (m, worker)
    } else {
        let r = store_run(m, worker, ops.drop_last());
        store_step(r.0, r.1, ops.last())
    }
}

proof fn lemma_step_keeps_single_worker(
    m: Map<Seq<char>, GenerationJobView>,
    worker: Option<Seq<char>>,
    op: StoreOp,
)
    requires
        runs_on_worker(m, worker),
    ensures
        runs_on_worker(store_step(m, worker, op).0, store_step(m, worker, op).1),
{
    let r = store_step(m, worker, op);
    assert forall|x: Seq<char>| r.0.contains_key(x) && #[trigger] r.0[x].status == JobStatus::Running implies r.1
        == Some(x) by {
        match op {
            StoreOp::Enqueue { id, request, now } => {
                if x != id {
                    assert(m[x] == r.0[x]);
                }
            },
            StoreOp::Cancel { id, now } => {
                if x != id || !m.contains_key(id) || m[id].status != JobStatus::Queued {
                    assert(m.contains_key(x) && m[x] == r.0[x]);
                }
            },
            StoreOp::Start { id, now } => {
                if x != id || worker is Some || !m.contains_key(id) || m[id].status != JobStatus::Queued {
                    assert(m.contains_key(x) && m[x] == r.0[x]);
                    if worker is None && m.contains_key(id) && m[id].status == JobStatus::Queued {
                        assert(m[x].status == JobStatus::Running);
                        assert(worker == Some(x));
                    }
                }
            },
            StoreOp::Complete { id, asset, logs, now } => {
                if x != id || !m.contains_key(id) {
                    assert(m.contains_key(x) && m[x] == r.0[x]);
                }
            },
            StoreOp::Fail { id, message, now } => {
                if x != id || !m.contains_key(id) {
                    assert(m.contains_key(x) && m[x] == r.0[x]);
                }
            },
            StoreOp::Progress { id, progress, phase, elapsed, eta, now } => {
                assert(m.contains_key(x));
                if x == id {
                    assert(r.0[x].status == m[x].status);
                } else {
                    assert(m[x] == r.0[x]);
                }
            },
        }
    }
}

/// One job runs at a time: starting from a store in which every running
/// job holds the worker (an empty store, or loaded jobs none of which is
/// running), every run of queue operations leaves at most one job running,
/// and that job holds the worker.  A second job is only started after the
/// first has completed or failed.
pub proof fn law_one_job_runs_at_a_time(
    m: Map<Seq<char>, GenerationJobView>,
    worker: Option<Seq<char>>,
    ops: Seq<StoreOp>,
)
    requires
        runs_on_worker(m, worker),
    ensures
        runs_on_worker(store_run(m, worker, ops).0, store_run(m, worker, ops).1),
        at_most_one_running(store_run(m, worker, ops).0),
    decreases ops.len(),
{
    if ops.len() > 0 {
        law_one_job_runs_at_a_time(m, worker, ops.drop_last());
        let r = store_run(m, worker, ops.drop_last());
        lemma_step_keeps_single_worker(r.0, r.1, ops.last());
    }
    let f = store_run(m, worker, ops);
    assert forall|a: Seq<char>, b: Seq<char>|
        f.0.contains_key(a) && f.0.contains_key(b) && #[trigger] f.0[a].status == JobStatus::Running
            && #[trigger] f.0[b].status == JobStatus::Running implies a == b by {
        assert(f.1 == Some(a));
        assert(f.1 == Some(b));
    }
}

/// A new store, and a store loaded from jobs none of which is running,
/// start with every running job on the worker (there is none) and the
/// worker free.
pub proof fn law_fresh_store_has_no_running_job(jobs: Seq<GenerationJob>)
    requires
        forall|k: int| 0 <= k < jobs.len() ==> #[trigger] jobs[k].status != JobStatus::Running,
    ensures
        runs_on_worker(Map::<Seq<char>, GenerationJobView>::empty(), None),
        runs_on_worker(loaded_map(jobs), None),
    decreases jobs.len(),
{
    if jobs.len() > 0 {
        let rest = jobs.drop_last();
        assert forall|k: int| 0 <= k < rest.len() implies #[trigger] rest[k].status != JobStatus::Running by {
            assert(rest[k] == jobs[k]);
        }
        law_fresh_store_has_no_running_job(rest);
        assert(jobs[jobs.len() - 1].status != JobStatus::Running);
        let m = loaded_map(jobs);
        assert forall|id: Seq<char>| m.contains_key(id) && #[trigger] m[id].status == JobStatus::Running implies false by {
            if id != jobs.last().id@ {
                assert(loaded_map(rest).contains_key(id) && m[id] == loaded_map(rest)[id]);
            }
        }
    }
}

/// Whether one step of the queue may take a job from status `a` to status
/// `b`: it stays, or a queued job starts, is cancelled or fails (when it
/// cannot get the worker), or a running job completes or fails.
pub open spec fn status_move_ok(a: JobStatus, b: JobStatus) -> bool {
    ||| a == b
    ||| a == JobStatus::Queued && (b == JobStatus::Running || b == JobStatus::Cancelled || b == JobStatus::Failed)
    ||| a == JobStatus::Running && (b == JobStatus::Completed || b == JobStatus::Failed)
}

/// Whether going from `m1` to `m2` keeps every job, moves each one only as
/// [`status_move_ok`] allows, and adds jobs only as queued ones.
pub open spec fn moves_ok(m1: Map<Seq<char>, GenerationJobView>, m2: Map<Seq<char>, GenerationJobView>) -> bool {
    &&& forall|id: Seq<char>| #[trigger] m1.contains_key(id) ==> m2.contains_key(id) && status_move_ok(
        m1[id].status,
        m2[id].status,
    )
    &&& forall|id: Seq<char>| #[trigger] m2.contains_key(id) && !m1.contains_key(id) ==> m2[id].status
        == JobStatus::Queued
}

/// Whether every running job holds the worker and the job that holds the
/// worker is running.
pub open spec fn worker_holds_running(m: Map<Seq<char>, GenerationJobView>, worker: Option<Seq<char>>) -> bool {
    &&& runs_on_worker(m, worker)
    &&& worker matches Some(id) ==> m.contains_key(id) && m[id].status == JobStatus::Running
}

/// Whether an operation is one the queue performs: a new job gets a fresh
/// id, an outcome is recorded for the job that holds the worker, and a
/// failure otherwise only for a queued job that could not get the worker.
pub open spec fn worker_op_ok(m: Map<Seq<char>, GenerationJobView>, worker: Option<Seq<char>>, op: StoreOp) -> bool {
    match op {
        StoreOp::Enqueue { id, .. } => !m.contains_key(id),
        StoreOp::Complete { id, .. } => worker == Some(id),
        StoreOp::Fail { id, .. } => worker == Some(id) || (m.contains_key(id) && m[id].status
            == JobStatus::Queued),
        _ => true,
    }
}

/// Whether every operation of a run is one the queue performs, in the
/// state that the operations before it leave.
pub open spec fn run_follows_queue(
    m: Map<Seq<char>, GenerationJobView>,
    worker: Option<Seq<char>>,
    ops: Seq<StoreOp>,
) -> bool
    decreases ops.len(),
{
    if ops.len() == 0 {
        true
    } else {
        let r = store_run(m, worker, ops.drop_last());
        run_follows_queue(m, worker, ops.drop_last()) && worker_op_ok(r.0, r.1, ops.last())
    }
}

proof fn lemma_step_moves_ok(m: Map<Seq<char>, GenerationJobView>, worker: Option<Seq<char>>, op: StoreOp)
    requires
        worker_holds_running(m, worker),
        worker_op_ok(m, worker, op),
    ensures
        moves_ok(m, store_step(m, worker, op).0),
        worker_holds_running(store_step(m, worker, op).0, store_step(m, worker, op).1),
{
    lemma_step_keeps_single_worker(m, worker, op);
    let r = store_step(m, worker, op);
    match op {
        StoreOp::Enqueue { id, request, now } => {
            assert forall|x: Seq<char>| #[trigger] m.contains_key(x) implies r.0.contains_key(x) && status_move_ok(
                m[x].status,
                r.0[x].status,
            ) by {
                assert(x != id);
                assert(r.0[x] == m[x]);
            }
            if let Some(w) = worker {
                assert(w != id);
                assert(r.0[w] == m[w]);
            }
        },
        StoreOp::Cancel { id, now } => {
            assert forall|x: Seq<char>| #[trigger] m.contains_key(x) implies r.0.contains_key(x) && status_move_ok(
                m[x].status,
                r.0[x].status,
            ) by {
                if x != id || m[id].status != JobStatus::Queued {
                    assert(r.0[x] == m[x]);
                }
            }
            assert(r.0.dom() =~= m.dom());
            if let Some(w) = worker {
                assert(w != id || m[id].status != JobStatus::Queued);
                assert(r.0[w] == m[w]);
            }
        },
        StoreOp::Start { id, now } => {
            assert forall|x: Seq<char>| #[trigger] m.contains_key(x) implies r.0.contains_key(x) && status_move_ok(
                m[x].status,
                r.0[x].status,
            ) by {
                if x != id || worker is Some || m[id].status != JobStatus::Queued {
                    assert(r.0[x] == m[x]);
                }
            }
            assert(r.0.dom() =~= m.dom());
            if let Some(w) = worker {
                assert(r.0[w] == m[w]);
            }
        },
        StoreOp::Complete { id, asset, logs, now } => {
            assert forall|x: Seq<char>| #[trigger] m.contains_key(x) implies r.0.contains_key(x) && status_move_ok(
                m[x].status,
                r.0[x].status,
            ) by {
                if x != id {
                    assert(r.0[x] == m[x]);
                }
            }
            assert(r.0.dom() =~= m.dom());
        },
        StoreOp::Fail { id, message, now } => {
            assert forall|x: Seq<char>| #[trigger] m.contains_key(x) implies r.0.contains_key(x) && status_move_ok(
                m[x].status,
                r.0[x].status,
            ) by {
                if x != id {
                    assert(r.0[x] == m[x]);
                }
            }
            assert(r.0.dom() =~= m.dom());
            if let Some(w) = r.1 {
                assert(w != id);
                assert(r.0[w] == m[w]);
            }
        },
        StoreOp::Progress { id, progress, phase, elapsed, eta, now } => {
            assert forall|x: Seq<char>| #[trigger] m.contains_key(x) implies r.0.contains_key(x) && status_move_ok(
                m[x].status,
                r.0[x].status,
            ) by {
                if x != id {
                    assert(r.0[x] == m[x]);
                }
            }
            assert(r.0.dom() =~= m.dom());
            if let Some(w) = worker {
                assert(r.0[w].status == m[w].status);
            }
        },
    }
}

/// The life of a job: over any run of queue operations that starts with
/// the worker's job, if any, running, each step keeps every job and moves
/// its status only from queued to running, cancelled or failed, or from
/// running to completed or failed; a new job enters queued.  So a
/// cancelled, completed or failed job never changes status again, and a
/// job is only ever run once.
pub proof fn law_job_status_paths(m: Map<Seq<char>, GenerationJobView>, worker: Option<Seq<char>>, ops: Seq<StoreOp>)
    requires
        worker_holds_running(m, worker),
        run_follows_queue(m, worker, ops),
    ensures
        worker_holds_running(store_run(m, worker, ops).0, store_run(m, worker, ops).1),
        forall|i: int|
            0 <= i < ops.len() ==> moves_ok(
                #[trigger] store_run(m, worker, ops.take(i)).0,
                store_run(m, worker, ops.take(i + 1)).0,
            ),
    decreases ops.len(),
{
    if ops.len() > 0 {
        let init = ops.drop_last();
        law_job_status_paths(m, worker, init);
        let r = store_run(m, worker, init);
        lemma_step_moves_ok(r.0, r.1, ops.last());
        assert forall|i: int| 0 <= i < ops.len() implies moves_ok(
            #[trigger] store_run(m, worker, ops.take(i)).0,
            store_run(m, worker, ops.take(i + 1)).0,
        ) by {
            if i < ops.len() - 1 {
                assert(ops.take(i) == init.take(i));
                assert(ops.take(i + 1) == init.take(i + 1));
            } else {
                assert(ops.take(i) == init);
                assert(ops.take(i + 1) == ops);
                assert(ops.take(i + 1).drop_last() == init);
            }
        }
    }
}

} // verus!
