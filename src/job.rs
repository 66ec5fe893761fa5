use vstd::prelude::*;
use vstd::string::StringExecFns;
use vstd::string::StrSliceExecFns;
use crate::keyed::KeyedList;

verus! {

/// Where a job stands in its lifecycle.
#[derive(Debug)]
pub enum JobStatus {
    Pending,
    InProgress,
    Completed(String),
    Failed(String),
}

impl JobStatus {
    /// `Completed` and `Failed` are terminal: nothing leaves them.
    pub open spec fn is_terminal(&self) -> bool {
        self is Completed || self is Failed
    }

    /// Whether this status is terminal.
    pub fn is_finished(&self) -> (r: bool)
        ensures
            r == self.is_terminal(),
    {
        match self {
            JobStatus::Completed(_) | JobStatus::Failed(_) => true,
            _ => false,
        }
    }

    /// An identical copy of this status.
    pub fn duplicate(&self) -> (r: JobStatus)
        ensures
            r == *self,
    {
        match self {
            JobStatus::Pending => JobStatus::Pending,
            JobStatus::InProgress => JobStatus::InProgress,
            JobStatus::Completed(s) => JobStatus::Completed(s.clone()),
            JobStatus::Failed(s) => JobStatus::Failed(s.clone()),
        }
    }
}

/// The edges of the lifecycle: `Pending` may move to any other status,
/// `InProgress` only to a terminal one, and a terminal status to none.
pub open spec fn may_move(cur: JobStatus, next: JobStatus) -> bool {
    match cur {
        JobStatus::Pending => !(next is Pending),
        JobStatus::InProgress => next.is_terminal(),
        _ => false,
    }
}

/// Whether the lifecycle lets a job move from `cur` to `next`.
pub fn allows_move(cur: &JobStatus, next: &JobStatus) -> (r: bool)
    ensures
        r == may_move(*cur, *next),
{
    match cur {
        JobStatus::Pending => !matches!(next, JobStatus::Pending),
        JobStatus::InProgress => next.is_finished(),
        _ => false,
    }
}

/// The answer to a status query on a pool whose statuses are `m`.
pub open spec fn status_in(m: Map<Seq<char>, JobStatus>, id: Seq<char>) -> Option<JobStatus> {
    if m.contains_key(id) {
        Some(m[id])
    } else {
        None
    }
}

/// A submission: `id` was unknown and is now `Pending`, nothing else changed.
pub open spec fn submit_step(
    before: Map<Seq<char>, JobStatus>,
    after: Map<Seq<char>, JobStatus>,
    id: Seq<char>,
) -> bool {
    &&& !before.contains_key(id)
    &&& after == before.insert(id, JobStatus::Pending)
}

/// A report of `status` for job `id`: it takes effect exactly when the job is
/// known and the lifecycle allows the move; otherwise nothing changes.
pub open spec fn report_step(
    before: Map<Seq<char>, JobStatus>,
    after: Map<Seq<char>, JobStatus>,
    id: Seq<char>,
    status: JobStatus,
) -> bool {
    if before.contains_key(id) && may_move(before[id], status) {
        after == before.insert(id, status)
    } else {
        after == before
    }
}

/// The capability to report the status of one job. Only a pool makes one,
/// once per job, and it cannot be copied.
pub struct JobHandle {
    job_id: String,
}

impl View for JobHandle {
    type V = Seq<char>;

    closed spec fn view(&self) -> Seq<char> {
        self.job_id@
    }
}

impl JobHandle {
    /// The id of the job this handle reports for.
    pub fn get_id(&self) -> (r: &str)
        ensures
            r@ == self@,
    {
        self.job_id.as_str()
    }

    /// Reports `status` for this handle's job in `pool`; returns whether it
    /// took effect.
    pub fn set_status(&self, pool: &mut JobPool, status: JobStatus) -> (r: bool)
        requires
            old(pool).wf(),
        ensures
            final(pool).wf(),
            report_step(old(pool)@, final(pool)@, self@, status),
            r == (old(pool)@.contains_key(self@) && may_move(old(pool)@[self@], status)),
    {
        pool.report(&self.job_id, status)
    }
}

/// Relies on uuid::Uuid::new_v4 and the Display of uuid::Uuid: a random
/// version-4 UUID, written as 36 characters in hyphenated form.
#[verifier::external_body]
fn random_job_id() -> (r: String)
    ensures
        r@.len() == 36,
{
    uuid::Uuid::new_v4().to_string()
}

/// The registry of jobs: each known id with its current status.
pub struct JobPool {
    statuses: KeyedList<JobStatus>,
    longest: usize,
}

impl View for JobPool {
    type V = Map<Seq<char>, JobStatus>;

    closed spec fn view(&self) -> Map<Seq<char>, JobStatus> {
        self.statuses@
    }
}

impl JobPool {
    pub closed spec fn wf(&self) -> bool {
        &&& self.statuses.wf()
        &&& forall|k: Seq<char>| #[trigger] self.statuses@.contains_key(k) ==> k.len() <= self.longest
    }

    /// An empty pool.
    pub fn new() -> (r: JobPool)
        ensures
            r.wf(),
            r@ == Map::<Seq<char>, JobStatus>::empty(),
    {
        JobPool { statuses: KeyedList::new(), longest: 0 }
    }

    /// Registers a new job under `candidate`, or, when that id is taken,
    /// under `candidate` followed by as many `-` as make it unknown. The job
    /// starts `Pending`; the returned handle is the only one for it.
    pub fn register_job(&mut self, candidate: String) -> (h: JobHandle)
        requires
            old(self).wf(),
        ensures
            final(self).wf(),
            submit_step(old(self)@, final(self)@, h@),
            !old(self)@.contains_key(candidate@) ==> h@ == candidate@,
            candidate@.is_prefix_of(h@),
    {
        let mut id = candidate;
        while self.statuses.contains(id.as_str())
            invariant
                self.wf(),
                self == old(self),
                candidate@.is_prefix_of(id@),
                !old(self)@.contains_key(candidate@) ==> id@ == candidate@,
            decreases self.longest + 1 - id@.len(),
        {
            // a taken id is no longer than the longest known one
            assert(id@.len() <= self.longest);
            proof {
                reveal_strlit("-");
            }
            id.append("-");
        }
        let n = id.as_str().unicode_len();
        if n > self.longest {
            self.longest = n;
        }
        self.statuses.set(id.clone(), JobStatus::Pending);
        JobHandle { job_id: id }
    }

    /// Registers a new job under a fresh random id; it starts `Pending`.
    pub fn submit_job(&mut self) -> (h: JobHandle)
        requires
            old(self).wf(),
        ensures
            final(self).wf(),
            submit_step(old(self)@, final(self)@, h@),
    {
        let candidate = random_job_id();
        self.register_job(candidate)
    }

    /// The status of job `job_id`, or `None` if it is unknown here.
    pub fn get_job_status(&self, job_id: &str) -> (r: Option<JobStatus>)
        requires
            self.wf(),
        ensures
            r == status_in(self@, job_id@),
    {
        match self.statuses.get(job_id) {
            Some(s) => Some(s.duplicate()),
            None => None,
        }
    }

    fn report(&mut self, job_id: &String, status: JobStatus) -> (r: bool)
        requires
            old(self).wf(),
        ensures
            final(self).wf(),
            report_step(old(self)@, final(self)@, job_id@, status),
            r == (old(self)@.contains_key(job_id@) && may_move(old(self)@[job_id@], status)),
    {
        let allowed = match self.statuses.get(job_id.as_str()) {
            Some(cur) => allows_move(cur, &status),
            None => false,
        };
        if allowed {
            self.statuses.set(job_id.clone(), status);
        }
        allowed
    }
}

/// One change to a pool, as its operations make it.
pub enum JobEvent {
    Submitted(Seq<char>),
    Reported(Seq<char>, JobStatus),
}

/// `after` follows from `before` by `e`.
pub open spec fn event_step(
    before: Map<Seq<char>, JobStatus>,
    after: Map<Seq<char>, JobStatus>,
    e: JobEvent,
) -> bool {
    match e {
        JobEvent::Submitted(id) => submit_step(before, after, id),
        JobEvent::Reported(id, status) => report_step(before, after, id, status),
    }
}

/// A run of a pool: `states[0]` is a new pool and each `states[i + 1]`
/// follows from `states[i]` by `events[i]`.
pub open spec fn is_run(states: Seq<Map<Seq<char>, JobStatus>>, events: Seq<JobEvent>) -> bool {
    &&& states.len() == events.len() + 1
    &&& states[0] == Map::<Seq<char>, JobStatus>::empty()
    &&& forall|i: int| 0 <= i < events.len() ==> event_step(states[i], states[i + 1], #[trigger] events[i])
}

/// Whether one of the first `n` events submitted `id`.
pub open spec fn submitted_before(events: Seq<JobEvent>, n: int, id: Seq<char>) -> bool {
    exists|i: int| 0 <= i < n && #[trigger] events[i] == JobEvent::Submitted(id)
}

/// Right after a submission, a status read gives `Pending`.
pub proof fn lemma_pending_after_submit(
    before: Map<Seq<char>, JobStatus>,
    after: Map<Seq<char>, JobStatus>,
    id: Seq<char>,
)
    requires
        submit_step(before, after, id),
    ensures
        status_in(after, id) == Some(JobStatus::Pending),
{
}

/// In a run, a pool knows exactly the ids submitted to it: a status read of
/// any other id gives `None`.
pub proof fn lemma_unknown_unless_submitted(
    states: Seq<Map<Seq<char>, JobStatus>>,
    events: Seq<JobEvent>,
    n: int,
    id: Seq<char>,
)
    requires
        is_run(states, events),
        0 <= n < states.len(),
    ensures
        states[n].contains_key(id) <==> submitted_before(events, n, id),
        !submitted_before(events, n, id) ==> status_in(states[n], id) is None,
    decreases n,
{
    if n > 0 {
        lemma_unknown_unless_submitted(states, events, n - 1, id);
        assert(event_step(states[n - 1], states[n], events[n - 1]));
        if submitted_before(events, n - 1, id) {
            let i = choose|i: int| 0 <= i < n - 1 && #[trigger] events[i] == JobEvent::Submitted(id);
            assert(0 <= i < n && events[i] == JobEvent::Submitted(id));
        }
        if submitted_before(events, n, id) && !submitted_before(events, n - 1, id) {
            let i = choose|i: int| 0 <= i < n && #[trigger] events[i] == JobEvent::Submitted(id);
            assert(i == n - 1);
        }
        if events[n - 1] == JobEvent::Submitted(id) {
            assert(submitted_before(events, n, id));
        }
    }
}

/// In a run, once a job is `Completed` or `Failed`, every later state holds
/// that same status for it.
pub proof fn lemma_terminal_is_kept(
    states: Seq<Map<Seq<char>, JobStatus>>,
    events: Seq<JobEvent>,
    i: int,
    j: int,
    id: Seq<char>,
)
    requires
        is_run(states, events),
        0 <= i <= j < states.len(),
        states[i].contains_key(id),
        states[i][id].is_terminal(),
    ensures
        states[j].contains_key(id),
        states[j][id] == states[i][id],
    decreases j - i,
{
    if j > i {
        lemma_terminal_is_kept(states, events, i, j - 1, id);
        assert(event_step(states[j - 1], states[j], events[j - 1]));
    }
}

/// In a run, two submissions never yield the same id.
pub proof fn lemma_submitted_ids_distinct(
    states: Seq<Map<Seq<char>, JobStatus>>,
    events: Seq<JobEvent>,
    i: int,
    j: int,
)
    requires
        is_run(states, events),
        0 <= i < j < events.len(),
        events[i] is Submitted,
        events[j] is Submitted,
    ensures
        events[i]->Submitted_0 != events[j]->Submitted_0,
{
    let id = events[i]->Submitted_0;
    assert(events[i] == JobEvent::Submitted(id));
    assert(submitted_before(events, j, id));
    lemma_unknown_unless_submitted(states, events, j, id);
    assert(event_step(states[j], states[j + 1], events[j]));
}

/// A step for one job leaves the status of every other job as it was.
pub proof fn lemma_other_jobs_untouched(
    before: Map<Seq<char>, JobStatus>,
    after: Map<Seq<char>, JobStatus>,
    e: JobEvent,
    other: Seq<char>,
)
    requires
        event_step(before, after, e),
        match e {
            JobEvent::Submitted(id) => id != other,
            JobEvent::Reported(id, _) => id != other,
        },
    ensures
        status_in(after, other) == status_in(before, other),
{
}

/// Reading a status twice with no change in between gives the same answer.
pub proof fn lemma_reads_repeat(pool: JobPool, id: Seq<char>, first: Option<JobStatus>, second: Option<JobStatus>)
    requires
        first == status_in(pool@, id),
        second == status_in(pool@, id),
    ensures
        first == second,
{
}

} // verus!
