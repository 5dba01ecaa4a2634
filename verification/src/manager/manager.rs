//! The manager's decisions: what a control event, a worker report or the
//! passing of time does to the job table and the scheduling queue, and which
//! effects are to be carried out.

use vstd::prelude::*;
use crate::backend::manager::error::ManagerError;
use crate::backend::manager::event::{ControlEvent, WorkerEvent, worker_event_text};
use crate::backend::manager::queue::{
    JobQueue, entry_precedes, lemma_earliest_time_unique, lemma_next_entry_is_earliest,
};
use crate::manager::status::{
    AnyJob, Effect, Failable, Failed, Job, Paused, Publishing, Running, Success, Suspendable,
    Syncing, TransitionPlan, Verifying,
};
use crate::text::{lemma_seq_less_total, str_equal};
use crate::timestamp::{Timestamp, utc_now};

verus! {

/// The jobs of the manager, one per mirror, kept in a vector with "each
/// mirror once" as its invariant (mirrors are named by strings, and the
/// standard hash map is specified for integer-like keys only).
struct JobTable {
    jobs: Vec<AnyJob>,
    model: Ghost<Map<Seq<char>, AnyJob>>,
}

impl JobTable {
    spec fn view(&self) -> Map<Seq<char>, AnyJob> {
        self.model@
    }

    spec fn wf(&self) -> bool {
        let e = self.jobs@;
        let m = self.model@;
        &&& forall|i: int, j: int|
            0 <= i < e.len() && 0 <= j < e.len() && i != j ==> #[trigger] e[i].id()@
                != #[trigger] e[j].id()@
        &&& forall|i: int|
            0 <= i < e.len() ==> #[trigger] m.contains_key(e[i].id()@) && m[e[i].id()@] == e[i]
        &&& forall|k: Seq<char>|
            #[trigger] m.contains_key(k) ==> exists|i: int| 0 <= i < e.len() && #[trigger] e[i].id()@ == k
    }

    fn new() -> (t: Self)
        ensures
            t.wf(),
            t.view() == Map::<Seq<char>, AnyJob>::empty(),
    {
        JobTable { jobs: Vec::new(), model: Ghost(Map::empty()) }
    }

    fn find(&self, mirror_id: &str) -> (r: Option<usize>)
        requires
            self.wf(),
        ensures
            match r {
                Some(i) => i < self.jobs.len() && self.jobs@[i as int].id()@ == mirror_id@,
                None => !self.view().contains_key(mirror_id@),
            },
    {
        let mut i: usize = 0;
        while i < self.jobs.len()
            invariant
                self.wf(),
                i <= self.jobs.len(),
                forall|j: int| 0 <= j < i ==> self.jobs@[j].id()@ != mirror_id@,
            decreases self.jobs.len() - i,
        {
            if str_equal(self.jobs[i].mirror_id().as_str(), mirror_id) {
                return Some(i);
            }
            i = i + 1;
        }
        None
    }

    /// Stores `job` under its own mirror identifier, replacing any job there.
    fn insert(&mut self, job: AnyJob)
        requires
            old(self).wf(),
        ensures
            final(self).wf(),
            final(self).view() == old(self).view().insert(job.id()@, job),
    {
        let ghost key = job.id()@;
        let ghost old_e = self.jobs@;
        match self.find(job.mirror_id().as_str()) {
            Some(i) => {
                self.jobs.set(i, job);
                proof {
                    self.model@ = self.model@.insert(key, job);
                    assert forall|k: Seq<char>| #[trigger] self.model@.contains_key(k) implies exists|j: int|
                        0 <= j < self.jobs@.len() && #[trigger] self.jobs@[j].id()@ == k by {
                        if k != key {
                            let j = choose|j: int| 0 <= j < old_e.len() && #[trigger] old_e[j].id()@ == k;
                            assert(self.jobs@[j].id()@ == k);
                        } else {
                            assert(self.jobs@[i as int].id()@ == k);
                        }
                    }
                }
            },
            None => {
                self.jobs.push(job);
                proof {
                    self.model@ = self.model@.insert(key, job);
                    assert forall|k: Seq<char>| #[trigger] self.model@.contains_key(k) implies exists|j: int|
                        0 <= j < self.jobs@.len() && #[trigger] self.jobs@[j].id()@ == k by {
                        if k != key {
                            let j = choose|j: int| 0 <= j < old_e.len() && #[trigger] old_e[j].id()@ == k;
                            assert(self.jobs@[j].id()@ == k);
                        } else {
                            assert(self.jobs@[old_e.len() as int].id()@ == k);
                        }
                    }
                }
            },
        }
    }

    /// Takes the job of `mirror_id` out of the table, if there is one.
    fn take(&mut self, mirror_id: &str) -> (r: Option<AnyJob>)
        requires
            old(self).wf(),
        ensures
            final(self).wf(),
            final(self).view() == old(self).view().remove(mirror_id@),
            match r {
                Some(job) => old(self).view().contains_key(mirror_id@) && job == old(
                    self,
                ).view()[mirror_id@],
                None => !old(self).view().contains_key(mirror_id@),
            },
    {
        match self.find(mirror_id) {
            None => {
                assert(self.view().remove(mirror_id@) =~= self.view());
                None
            },
            Some(i) => {
                let ghost old_e = self.jobs@;
                let ghost key = mirror_id@;
                assert(self.model@.contains_key(old_e[i as int].id()@));
                let job = self.jobs.remove(i);
                proof {
                    self.model@ = self.model@.remove(key);
                    let e = self.jobs@;
                    assert forall|j: int| 0 <= j < e.len() implies #[trigger] self.model@.contains_key(
                        e[j].id()@,
                    ) && self.model@[e[j].id()@] == e[j] by {
                        if j < i {
                            assert(e[j] == old_e[j]);
                        } else {
                            assert(e[j] == old_e[j + 1]);
                        }
                    }
                    assert forall|k: Seq<char>| #[trigger] self.model@.contains_key(k) implies exists|j: int|
                        0 <= j < e.len() && #[trigger] e[j].id()@ == k by {
                        let j = choose|j: int| 0 <= j < old_e.len() && #[trigger] old_e[j].id()@ == k;
                        if j < i {
                            assert(e[j].id()@ == k);
                        } else {
                            assert(j != i);
                            assert(e[j - 1].id()@ == k);
                        }
                    }
                    assert forall|a: int, b: int|
                        0 <= a < e.len() && 0 <= b < e.len() && a != b implies #[trigger] e[a].id()@
                        != #[trigger] e[b].id()@ by {
                        let a0 = if a < i { a } else { a + 1 };
                        let b0 = if b < i { b } else { b + 1 };
                        assert(e[a] == old_e[a0]);
                        assert(e[b] == old_e[b0]);
                    }
                }
                Some(job)
            },
        }
    }
}

/// The table that results from storing `jobs` in order, each under its own
/// mirror identifier; a later job replaces an earlier one of the same mirror.
pub open spec fn table_of(jobs: Seq<AnyJob>) -> Map<Seq<char>, AnyJob>
    decreases jobs.len(),
{
    if jobs.len() == 0 {
        Map::empty()
    } else {
        table_of(jobs.drop_last()).insert(jobs.last().id()@, jobs.last())
    }
}

/// The job in its next state and the effects, when `event` is a report that
/// moves `job` on; `None` when the report does not fit the job's state.
pub open spec fn worker_transition(job: AnyJob, event: WorkerEvent) -> Option<(AnyJob, Seq<Effect>)> {
    match (job, event) {
        (AnyJob::Syncing(j), WorkerEvent::SyncSucceeded { .. }) => Some((
            AnyJob::Verifying(Job { mirror_id: j.mirror_id, running_status: Running { business_status: Verifying } }),
            seq![Effect::Verify { mirror_id: j.mirror_id }, Effect::Persist { mirror_id: j.mirror_id }],
        )),
        (AnyJob::Verifying(j), WorkerEvent::VerifySucceeded { .. }) => Some((
            AnyJob::Publishing(Job { mirror_id: j.mirror_id, running_status: Running { business_status: Publishing } }),
            seq![Effect::Publish { mirror_id: j.mirror_id }, Effect::Persist { mirror_id: j.mirror_id }],
        )),
        (AnyJob::Publishing(j), WorkerEvent::PublishSucceeded { .. }) => Some((
            AnyJob::Success(Job { mirror_id: j.mirror_id, running_status: Running { business_status: Success } }),
            seq![Effect::Persist { mirror_id: j.mirror_id }],
        )),
        (AnyJob::Syncing(j), WorkerEvent::SyncFailed { .. }) => Some((
            AnyJob::Failed(Job { mirror_id: j.mirror_id, running_status: Running { business_status: Failed } }),
            seq![Effect::Persist { mirror_id: j.mirror_id }],
        )),
        (AnyJob::Verifying(j), WorkerEvent::VerifyFailed { .. }) => Some((
            AnyJob::Failed(Job { mirror_id: j.mirror_id, running_status: Running { business_status: Failed } }),
            seq![Effect::Persist { mirror_id: j.mirror_id }],
        )),
        (AnyJob::Publishing(j), WorkerEvent::PublishFailed { .. }) => Some((
            AnyJob::Failed(Job { mirror_id: j.mirror_id, running_status: Running { business_status: Failed } }),
            seq![Effect::Persist { mirror_id: j.mirror_id }],
        )),
        _ => None,
    }
}

/// A worker report never moves a job to another mirror, and every move it
/// makes ends by persisting the job's new state.
pub proof fn lemma_worker_transition_keeps_mirror(job: AnyJob, event: WorkerEvent)
    ensures
        worker_transition(job, event) matches Some((next, effects)) ==> {
            &&& next.id() == job.id()
            &&& effects.len() > 0
            &&& effects.last() == (Effect::Persist { mirror_id: job.id() })
        },
{
}

/// Reports that a stage started do not move a job.
pub proof fn lemma_started_reports_do_not_move(job: AnyJob, event: WorkerEvent)
    requires
        event is SyncStarted || event is VerifyStarted || event is PublishStarted,
    ensures
        worker_transition(job, event) is None,
{
}

/// `event` reports that the stage `job` is running failed.
pub open spec fn reports_stage_failure(job: AnyJob, event: WorkerEvent) -> bool {
    ||| job is Syncing && event is SyncFailed
    ||| job is Verifying && event is VerifyFailed
    ||| job is Publishing && event is PublishFailed
}

/// `event` reports that the stage `job` is running succeeded.
pub open spec fn reports_stage_success(job: AnyJob, event: WorkerEvent) -> bool {
    ||| job is Syncing && event is SyncSucceeded
    ||| job is Verifying && event is VerifySucceeded
    ||| job is Publishing && event is PublishSucceeded
}

/// A report that the running stage failed moves the job to the failed state,
/// keeping its mirror, and only its new state is to be persisted.
pub proof fn lemma_failure_reports_fail(job: AnyJob, event: WorkerEvent)
    requires
        reports_stage_failure(job, event),
    ensures
        worker_transition(job, event) matches Some((next, effects)) && next is Failed
            && next.id() == job.id() && effects == seq![Effect::Persist { mirror_id: job.id() }],
{
}

/// A report that the running stage succeeded moves the job to the next stage
/// (synchronising, then verifying, then publishing, then success), keeping
/// its mirror; the next stage is started, and the new state is persisted.
pub proof fn lemma_success_reports_advance(job: AnyJob, event: WorkerEvent)
    requires
        reports_stage_success(job, event),
    ensures
        job is Syncing ==> (worker_transition(job, event) matches Some((next, effects)) && next is Verifying
            && next.id() == job.id() && effects == seq![Effect::Verify { mirror_id: job.id() }, Effect::Persist { mirror_id: job.id() }]),
        job is Verifying ==> (worker_transition(job, event) matches Some((next, effects)) && next is Publishing
            && next.id() == job.id() && effects == seq![Effect::Publish { mirror_id: job.id() }, Effect::Persist { mirror_id: job.id() }]),
        job is Publishing ==> (worker_transition(job, event) matches Some((next, effects)) && next is Success
            && next.id() == job.id() && effects == seq![Effect::Persist { mirror_id: job.id() }]),
{
}

/// A report that neither fails nor completes the job's running stage does
/// not move the job.
pub proof fn lemma_other_reports_do_not_move(job: AnyJob, event: WorkerEvent)
    requires
        !reports_stage_failure(job, event),
        !reports_stage_success(job, event),
    ensures
        worker_transition(job, event) is None,
{
}

/// A synchronising job whose three stages each succeed reaches the success
/// state.
pub proof fn lemma_successful_run(
    job: Job<Running<Syncing>>,
    synced: WorkerEvent,
    verified: WorkerEvent,
    published: WorkerEvent,
)
    requires
        synced is SyncSucceeded,
        verified is VerifySucceeded,
        published is PublishSucceeded,
    ensures
        (worker_transition(AnyJob::Syncing(job), synced) matches Some((j1, _))
            && worker_transition(j1, verified) matches Some((j2, _))
            && worker_transition(j2, published) matches Some((j3, _))
            && j3 == AnyJob::Success(Job { mirror_id: job.mirror_id, running_status: Running { business_status: Success } })),
{
}

/// The control events that the manager handles: pausing a job that is
/// unknown, paused, pending or idle.
pub open spec fn handles_control_event(jobs: Map<Seq<char>, AnyJob>, event: ControlEvent) -> bool {
    match event {
        ControlEvent::Pause { mirror_id } => !jobs.contains_key(mirror_id@) || match jobs[mirror_id@] {
            AnyJob::Paused(_) | AnyJob::Pending(_) | AnyJob::Idle(_) => true,
            _ => false,
        },
        _ => false,
    }
}

/// The job that a plan's next job becomes in the job table.
pub open spec fn converted<NextSt>(job: Job<NextSt>) -> AnyJob where AnyJob: From<Job<NextSt>> {
    <AnyJob as vstd::std_specs::convert::FromSpec<Job<NextSt>>>::from_spec(job)
}

/// `r` is the error that no job is known for `id`.
pub open spec fn is_job_not_found(r: Result<Vec<Effect>, ManagerError>, id: Seq<char>) -> bool {
    r matches Err(ManagerError::JobNotFound { job_mirror_id }) && job_mirror_id@ == id
}

/// `r` succeeded with exactly the effects `effects`.
pub open spec fn is_ok_with(r: Result<Vec<Effect>, ManagerError>, effects: Seq<Effect>) -> bool {
    r matches Ok(v) && v@ == effects
}

/// A tick at time `now` took from queue `before`, leaving queue `after`, the
/// mirrors `due`: exactly the mirrors due at or before `now`, in the order
/// they run; the others stay queued at their times.
pub open spec fn is_tick(
    before: Map<Seq<char>, Timestamp>,
    after: Map<Seq<char>, Timestamp>,
    due: Seq<String>,
    now: Timestamp,
) -> bool {
    &&& forall|k: Seq<char>| #[trigger] after.contains_key(k) <==> (before.contains_key(k) && now.earlier_than(before[k]))
    &&& forall|k: Seq<char>| #[trigger] after.contains_key(k) ==> after[k] == before[k]
    &&& forall|i: int| 0 <= i < due.len() ==> #[trigger] before.contains_key(due[i]@) && !now.earlier_than(before[due[i]@])
    &&& forall|k: Seq<char>| #[trigger] before.contains_key(k) && !now.earlier_than(before[k]) ==> exists|i: int| 0 <= i < due.len() && #[trigger] due[i]@ == k
    &&& forall|i: int, j: int| 0 <= i < j < due.len() ==> entry_precedes(before[#[trigger] due[i]@], due[i]@, before[#[trigger] due[j]@], due[j]@)
}

/// The queue `q` after the queue effect `e`: an enqueue schedules the mirror
/// at `at`, a removal takes it out, other effects leave the queue alone.
pub open spec fn effect_on_queue(q: Map<Seq<char>, Timestamp>, e: Effect, at: Timestamp) -> Map<Seq<char>, Timestamp> {
    match e {
        Effect::QueueEnqueue { mirror_id } => q.insert(mirror_id@, at),
        Effect::QueueRemove { mirror_id } => q.remove(mirror_id@),
        _ => q,
    }
}

/// The queue `q` after the queue effects of `effects`, carried out in order.
pub open spec fn queue_after(q: Map<Seq<char>, Timestamp>, effects: Seq<Effect>, at: Timestamp) -> Map<Seq<char>, Timestamp>
    decreases effects.len(),
{
    if effects.len() == 0 {
        q
    } else {
        effect_on_queue(queue_after(q, effects.drop_last(), at), effects.last(), at)
    }
}

/// `e` acts on the scheduling queue.
pub open spec fn is_queue_effect(e: Effect) -> bool {
    e is QueueEnqueue || e is QueueRemove
}

/// The effects of `effects` that are not queue effects, in order: those
/// left for the caller to carry out.
pub open spec fn io_effects(effects: Seq<Effect>) -> Seq<Effect>
    decreases effects.len(),
{
    if effects.len() == 0 {
        Seq::empty()
    } else if is_queue_effect(effects.last()) {
        io_effects(effects.drop_last())
    } else {
        io_effects(effects.drop_last()).push(effects.last())
    }
}

/// Where nothing is enqueued, the queue after the effects does not depend on
/// the enqueue time.
pub proof fn lemma_queue_after_ignores_time(q: Map<Seq<char>, Timestamp>, effects: Seq<Effect>, a: Timestamp, b: Timestamp)
    requires
        forall|i: int| 0 <= i < effects.len() ==> !(#[trigger] effects[i] is QueueEnqueue),
    ensures
        queue_after(q, effects, a) == queue_after(q, effects, b),
    decreases effects.len(),
{
    if effects.len() > 0 {
        let d = effects.drop_last();
        assert forall|i: int| 0 <= i < d.len() implies !(#[trigger] d[i] is QueueEnqueue) by {
            assert(d[i] == effects[i]);
        }
        lemma_queue_after_ignores_time(q, d, a, b);
        assert(!(effects[effects.len() - 1] is QueueEnqueue));
    }
}

/// Effects with no queue effect change no queue and are all left for the
/// caller.
pub proof fn lemma_no_queue_effects(q: Map<Seq<char>, Timestamp>, effects: Seq<Effect>, at: Timestamp)
    requires
        forall|i: int| 0 <= i < effects.len() ==> !is_queue_effect(#[trigger] effects[i]),
    ensures
        queue_after(q, effects, at) == q,
        io_effects(effects) == effects,
    decreases effects.len(),
{
    if effects.len() > 0 {
        let d = effects.drop_last();
        assert forall|i: int| 0 <= i < d.len() implies !is_queue_effect(#[trigger] d[i]) by {
            assert(d[i] == effects[i]);
        }
        lemma_no_queue_effects(q, d, at);
        assert(!is_queue_effect(effects[effects.len() - 1]));
        assert(d.push(effects.last()) =~= effects);
    }
}

/// The manager's state: one job per mirror and the scheduling queue.
pub struct Manager {
    jobs: JobTable,
    queue: JobQueue,
}

impl Manager {
    /// The job of each mirror.
    pub closed spec fn jobs_view(&self) -> Map<Seq<char>, AnyJob> {
        self.jobs.view()
    }

    /// The scheduled time of each queued mirror.
    pub closed spec fn queue_view(&self) -> Map<Seq<char>, Timestamp> {
        self.queue@
    }

    /// Each job is stored under its own mirror, and the queue is consistent.
    pub closed spec fn wf(&self) -> bool {
        &&& self.jobs.wf()
        &&& self.queue.wf()
        &&& forall|k: Seq<char>| #[trigger] self.jobs.view().contains_key(k) ==> self.jobs.view()[k].id()@ == k
    }

    /// Each job is stored under its own mirror: the job held for `k` is a
    /// job of mirror `k`.
    pub proof fn lemma_jobs_under_own_mirror(&self)
        requires
            self.wf(),
        ensures
            forall|k: Seq<char>| #[trigger] self.jobs_view().contains_key(k) ==> self.jobs_view()[k].id()@ == k,
    {
    }

    /// Creates a manager holding `jobs`, each under its own mirror (a later
    /// job replaces an earlier one of the same mirror), with an empty queue.
    pub fn init(jobs: Vec<AnyJob>) -> (m: Self)
        ensures
            m.wf(),
            m.jobs_view() == table_of(jobs@),
            m.queue_view() == Map::<Seq<char>, Timestamp>::empty(),
    {
        let mut table = JobTable::new();
        let mut jobs = jobs;
        let ghost all = jobs@;
        let ghost mut i: int = 0;
        assert(all.subrange(0, all.len() as int) =~= all);
        while jobs.len() > 0
            invariant
                table.wf(),
                forall|k: Seq<char>| #[trigger] table.view().contains_key(k) ==> table.view()[k].id()@ == k,
                0 <= i <= all.len(),
                jobs@ == all.subrange(i, all.len() as int),
                table.view() == table_of(all.take(i)),
            decreases jobs.len(),
        {
            let job = jobs.remove(0);
            proof {
                assert(jobs@ =~= all.subrange(i + 1, all.len() as int));
                assert(all.take(i + 1).drop_last() =~= all.take(i));
            }
            table.insert(job);
            proof {
                i = i + 1;
            }
        }
        assert(all.take(all.len() as int) =~= all);
        Manager { jobs: table, queue: JobQueue::new() }
    }

    /// Carries out the queue effects of `effects` in order on the scheduling
    /// queue, enqueued mirrors being scheduled at `enqueue_at`, and returns
    /// the other effects, in order, for the caller to carry out.
    fn apply_effects(&mut self, effects: Vec<Effect>, enqueue_at: Timestamp) -> (io: Vec<Effect>)
        requires
            old(self).wf(),
        ensures
            final(self).wf(),
            final(self).jobs_view() == old(self).jobs_view(),
            final(self).queue_view() == queue_after(old(self).queue_view(), effects@, enqueue_at),
            io@ == io_effects(effects@),
    {
        let ghost all = effects@;
        let ghost q0 = self.queue@;
        let mut rest = effects;
        let mut io: Vec<Effect> = Vec::new();
        let ghost mut i: int = 0;
        assert(all.subrange(0, all.len() as int) =~= all);
        assert(all.take(0) =~= Seq::<Effect>::empty());
        while rest.len() > 0
            invariant
                self.wf(),
                self.jobs.view() == old(self).jobs.view(),
                q0 == old(self).queue@,
                0 <= i <= all.len(),
                rest@ == all.subrange(i, all.len() as int),
                self.queue@ == queue_after(q0, all.take(i), enqueue_at),
                io@ == io_effects(all.take(i)),
            decreases rest.len(),
        {
            let e = rest.remove(0);
            proof {
                assert(e == all[i]);
                assert(rest@ =~= all.subrange(i + 1, all.len() as int));
                assert(all.take(i + 1).drop_last() =~= all.take(i));
                assert(all.take(i + 1).last() == e);
            }
            match e {
                Effect::QueueEnqueue { mirror_id } => {
                    self.queue.schedule(mirror_id, enqueue_at);
                },
                Effect::QueueRemove { mirror_id } => {
                    self.queue.remove(mirror_id.as_str());
                },
                other => {
                    io.push(other);
                },
            }
            proof {
                i = i + 1;
            }
        }
        assert(all.take(all.len() as int) =~= all);
        io
    }

    /// Records the next job of `plan` in the job table, under its mirror,
    /// then carries out the plan's queue effects in order (enqueued mirrors
    /// are scheduled at `enqueue_at`), and returns the plan's other effects,
    /// in order, for the caller to carry out.
    pub fn apply_plan<NextSt>(&mut self, plan: TransitionPlan<NextSt>, enqueue_at: Timestamp) -> (effects: Vec<Effect>) where
        AnyJob: From<Job<NextSt>>,
        requires
            old(self).wf(),
            <AnyJob as vstd::std_specs::convert::FromSpec<Job<NextSt>>>::obeys_from_spec(),
            converted(plan.next).id() == plan.next.mirror_id,
        ensures
            final(self).wf(),
            final(self).jobs_view() == old(self).jobs_view().insert(plan.next.mirror_id@, converted(plan.next)),
            final(self).queue_view() == queue_after(old(self).queue_view(), plan.effects@, enqueue_at),
            effects@ == io_effects(plan.effects@),
    {
        let TransitionPlan { next, effects } = plan;
        let new_job = AnyJob::from(next);
        self.jobs.insert(new_job);
        self.apply_effects(effects, enqueue_at)
    }

    /// Applies a plan that enqueues nothing: the job is recorded, the queue
    /// removals are carried out, and the other effects are returned.
    fn apply_plan_without_enqueue<NextSt>(&mut self, plan: TransitionPlan<NextSt>) -> (effects: Vec<Effect>) where
        AnyJob: From<Job<NextSt>>,
        requires
            old(self).wf(),
            <AnyJob as vstd::std_specs::convert::FromSpec<Job<NextSt>>>::obeys_from_spec(),
            converted(plan.next).id() == plan.next.mirror_id,
            forall|i: int| 0 <= i < plan.effects@.len() ==> !(#[trigger] plan.effects@[i] is QueueEnqueue),
        ensures
            final(self).wf(),
            final(self).jobs_view() == old(self).jobs_view().insert(plan.next.mirror_id@, converted(plan.next)),
            forall|at: Timestamp| final(self).queue_view() == #[trigger] queue_after(old(self).queue_view(), plan.effects@, at),
            effects@ == io_effects(plan.effects@),
    {
        // No effect enqueues, so the enqueue time is never read.
        let enqueue_at = Timestamp { secs: 0, nanos: 0 };
        proof {
            assert forall|at: Timestamp| #[trigger] queue_after(self.queue@, plan.effects@, at) == queue_after(self.queue@, plan.effects@, enqueue_at) by {
                lemma_queue_after_ignores_time(self.queue@, plan.effects@, at, enqueue_at);
            }
        }
        self.apply_plan(plan, enqueue_at)
    }

    /// Applies a plan with no queue effects: the job is recorded and every
    /// effect is returned.
    fn apply_stage_plan<NextSt>(&mut self, plan: TransitionPlan<NextSt>) -> (effects: Vec<Effect>) where
        AnyJob: From<Job<NextSt>>,
        requires
            old(self).wf(),
            <AnyJob as vstd::std_specs::convert::FromSpec<Job<NextSt>>>::obeys_from_spec(),
            converted(plan.next).id() == plan.next.mirror_id,
            forall|i: int| 0 <= i < plan.effects@.len() ==> !is_queue_effect(#[trigger] plan.effects@[i]),
        ensures
            final(self).wf(),
            final(self).jobs_view() == old(self).jobs_view().insert(plan.next.mirror_id@, converted(plan.next)),
            final(self).queue_view() == old(self).queue_view(),
            effects@ == plan.effects@,
    {
        let ghost q = self.queue_view();
        let ghost e = plan.effects@;
        let ghost at = Timestamp { secs: 0, nanos: 0 };
        proof {
            lemma_no_queue_effects(q, e, at);
        }
        let effects = self.apply_plan_without_enqueue(plan);
        assert(self.queue_view() == queue_after(q, e, at));
        effects
    }

    /// Moves a job on according to a worker's report.
    ///
    /// An unknown mirror gives `JobNotFound`. A report that does not fit the
    /// job's state gives `InvalidTransition` and leaves the job as it was.
    /// Otherwise the job takes its next state and the transition's effects,
    /// none of which act on the queue, are returned for the caller to carry
    /// out.
    pub fn handle_worker_event(&mut self, worker_event: WorkerEvent) -> (r: Result<Vec<Effect>, ManagerError>)
        requires
            old(self).wf(),
        ensures
            final(self).wf(),
            final(self).queue_view() == old(self).queue_view(),
            !old(self).jobs_view().contains_key(worker_event.id()@) ==> {
                &&& final(self).jobs_view() == old(self).jobs_view()
                &&& is_job_not_found(r, worker_event.id()@)
            },
            old(self).jobs_view().contains_key(worker_event.id()@) && reports_stage_failure(
                old(self).jobs_view()[worker_event.id()@],
                worker_event,
            ) ==> {
                &&& final(self).jobs_view()[worker_event.id()@] is Failed
                &&& final(self).jobs_view()[worker_event.id()@].id() == old(self).jobs_view()[worker_event.id()@].id()
                &&& is_ok_with(r, seq![Effect::Persist { mirror_id: old(self).jobs_view()[worker_event.id()@].id() }])
            },
            old(self).jobs_view().contains_key(worker_event.id()@) && reports_stage_success(
                old(self).jobs_view()[worker_event.id()@],
                worker_event,
            ) ==> {
                let before = old(self).jobs_view()[worker_event.id()@];
                let after = final(self).jobs_view()[worker_event.id()@];
                &&& after.id() == before.id()
                &&& before is Syncing ==> after is Verifying && is_ok_with(
                    r,
                    seq![Effect::Verify { mirror_id: before.id() }, Effect::Persist { mirror_id: before.id() }],
                )
                &&& before is Verifying ==> after is Publishing && is_ok_with(
                    r,
                    seq![Effect::Publish { mirror_id: before.id() }, Effect::Persist { mirror_id: before.id() }],
                )
                &&& before is Publishing ==> after is Success && is_ok_with(
                    r,
                    seq![Effect::Persist { mirror_id: before.id() }],
                )
            },
            old(self).jobs_view().contains_key(worker_event.id()@) && !reports_stage_failure(
                old(self).jobs_view()[worker_event.id()@],
                worker_event,
            ) && !reports_stage_success(old(self).jobs_view()[worker_event.id()@], worker_event) ==> {
                &&& final(self).jobs_view() == old(self).jobs_view()
                &&& r is Err
            },
            old(self).jobs_view().contains_key(worker_event.id()@) ==> match worker_transition(
                old(self).jobs_view()[worker_event.id()@],
                worker_event,
            ) {
                Some((next, effects)) => {
                    &&& final(self).jobs_view() == old(self).jobs_view().insert(worker_event.id()@, next)
                    &&& is_ok_with(r, effects)
                },
                None => {
                    &&& final(self).jobs_view() == old(self).jobs_view()
                    &&& r matches Err(ManagerError::InvalidTransition { from, to })
                    &&& from@ == old(self).jobs_view()[worker_event.id()@].state_name_view()
                    &&& to@ == "worker_event::"@ + worker_event_text(worker_event)
                },
            },
    {
        let mirror_id = worker_event.mirror_id().clone();
        let ghost id = mirror_id@;
        let any_job = match self.jobs.take(mirror_id.as_str()) {
            Some(job) => job,
            None => {
                assert(self.jobs.view() =~= old(self).jobs.view());
                return Err(ManagerError::JobNotFound { job_mirror_id: mirror_id });
            },
        };
        let ghost old_jobs = old(self).jobs.view();
        assert(any_job.id()@ == id);
        match (any_job, worker_event) {
            (AnyJob::Syncing(job), WorkerEvent::SyncSucceeded { .. }) => Ok(self.apply_stage_plan(job.verify())),
            (AnyJob::Verifying(job), WorkerEvent::VerifySucceeded { .. }) => Ok(self.apply_stage_plan(job.publish())),
            (AnyJob::Publishing(job), WorkerEvent::PublishSucceeded { .. }) => Ok(self.apply_stage_plan(job.succeed())),
            (AnyJob::Syncing(job), WorkerEvent::SyncFailed { .. }) => Ok(self.apply_stage_plan(job.fail())),
            (AnyJob::Verifying(job), WorkerEvent::VerifyFailed { .. }) => Ok(self.apply_stage_plan(job.fail())),
            (AnyJob::Publishing(job), WorkerEvent::PublishFailed { .. }) => Ok(self.apply_stage_plan(job.fail())),
            (job, event) => {
                let from = job.state_name().to_string();
                let mut to = "worker_event::".to_string();
                let text = event.describe();
                to.append(text.as_str());
                self.jobs.insert(job);
                proof {
                    assert(self.jobs.view() =~= old_jobs);
                }
                Err(ManagerError::InvalidTransition { from, to })
            },
        }
    }

    /// Whether [`Manager::handle_control_event`] handles `control_event`:
    /// pausing a job that is unknown, paused, pending or idle.
    pub fn can_handle_control_event(&self, control_event: &ControlEvent) -> (b: bool)
        requires
            self.wf(),
        ensures
            b == handles_control_event(self.jobs_view(), *control_event),
    {
        match control_event {
            ControlEvent::Pause { mirror_id } => match self.jobs.find(mirror_id.as_str()) {
                None => true,
                Some(i) => {
                    proof {
                        assert(self.jobs.model@.contains_key(self.jobs.jobs@[i as int].id()@));
                    }
                    match &self.jobs.jobs[i] {
                        AnyJob::Paused(_) | AnyJob::Pending(_) | AnyJob::Idle(_) => true,
                        _ => false,
                    }
                },
            },
            _ => false,
        }
    }

    /// Handles a request from a controlling front end: pausing a job.
    ///
    /// An unknown mirror gives `JobNotFound`. Pausing a paused job changes
    /// nothing. A pending job becomes paused and is taken out of the queue;
    /// persisting it is left for the caller to carry out. Pausing an idle
    /// job gives `InvalidTransition` from `Idle` to `Paused` and keeps the
    /// job as it was.
    pub fn handle_control_event(&mut self, control_event: ControlEvent) -> (r: Result<Vec<Effect>, ManagerError>)
        requires
            old(self).wf(),
            handles_control_event(old(self).jobs_view(), control_event),
        ensures
            final(self).wf(),
            control_event matches ControlEvent::Pause { mirror_id } && ({
                let id = mirror_id@;
                let jobs = old(self).jobs_view();
                if !jobs.contains_key(id) {
                    &&& final(self).jobs_view() == jobs
                    &&& final(self).queue_view() == old(self).queue_view()
                    &&& is_job_not_found(r, id)
                } else {
                    match jobs[id] {
                        AnyJob::Paused(j) => {
                            &&& j.mirror_id@ == id
                            &&& final(self).jobs_view() == jobs
                            &&& final(self).queue_view() == old(self).queue_view()
                            &&& is_ok_with(r, Seq::empty())
                        },
                        AnyJob::Pending(j) => {
                            &&& j.mirror_id@ == id
                            &&& final(self).jobs_view() == jobs.insert(
                                id,
                                AnyJob::Paused(Job { mirror_id: j.mirror_id, running_status: Paused }),
                            )
                            &&& final(self).queue_view() == old(self).queue_view().remove(id)
                            &&& is_ok_with(r, seq![Effect::Persist { mirror_id: j.mirror_id }])
                        },
                        AnyJob::Idle(_) => {
                            &&& final(self).jobs_view() == jobs
                            &&& final(self).queue_view() == old(self).queue_view()
                            &&& r matches Err(ManagerError::InvalidTransition { from, to })
                            &&& from@ == "Idle"@
                            &&& to@ == "Paused"@
                        },
                        _ => false,
                    }
                }
            }),
    {
        match control_event {
            ControlEvent::Pause { mirror_id } => {
                let any_job = match self.jobs.take(mirror_id.as_str()) {
                    Some(job) => job,
                    None => {
                        assert(self.jobs.view() =~= old(self).jobs.view());
                        return Err(ManagerError::JobNotFound { job_mirror_id: mirror_id });
                    },
                };
                let ghost old_jobs = old(self).jobs.view();
                match any_job {
                    AnyJob::Paused(job) => {
                        self.jobs.insert(AnyJob::Paused(job));
                        proof {
                            assert(self.jobs.view() =~= old_jobs);
                        }
                        Ok(Vec::new())
                    },
                    AnyJob::Pending(job) => {
                        let plan = job.pause();
                        let ghost q = self.queue_view();
                        let ghost e = plan.effects@;
                        let ghost at = Timestamp { secs: 0, nanos: 0 };
                        proof {
                            reveal_with_fuel(queue_after, 3);
                            reveal_with_fuel(io_effects, 3);
                            assert(e.drop_last().drop_last() =~= Seq::<Effect>::empty());
                            assert(queue_after(q, e, at) == q.remove(mirror_id@));
                            assert(io_effects(e) =~= seq![Effect::Persist { mirror_id: job.mirror_id }]);
                        }
                        let effects = self.apply_plan_without_enqueue(plan);
                        assert(self.queue_view() == queue_after(q, e, at));
                        Ok(effects)
                    },
                    AnyJob::Idle(job) => {
                        self.jobs.insert(AnyJob::Idle(job));
                        proof {
                            assert(self.jobs.view() =~= old_jobs);
                        }
                        Err(ManagerError::InvalidTransition { from: "Idle".to_string(), to: "Paused".to_string() })
                    },
                    _ => {
                        proof {
                            assert(false);
                        }
                        Err(ManagerError::InvalidTransition { from: String::new(), to: String::new() })
                    },
                }
            },
            _ => {
                proof {
                    assert(false);
                }
                Ok(Vec::new())
            },
        }
    }

    /// Takes from the queue every job due at or before `now`, in the order
    /// they run, and returns their mirrors for the caller to dispatch.
    pub fn tick_at(&mut self, now: Timestamp) -> (due: Vec<String>)
        requires
            old(self).wf(),
        ensures
            final(self).wf(),
            final(self).jobs_view() == old(self).jobs_view(),
            is_tick(old(self).queue_view(), final(self).queue_view(), due@, now),
    {
        let ghost q0 = self.queue@;
        let mut due: Vec<String> = Vec::new();
        loop
            invariant
                self.wf(),
                self.jobs.view() == old(self).jobs.view(),
                q0 == old(self).queue@,
                forall|k: Seq<char>| #[trigger] self.queue@.contains_key(k) ==> q0.contains_key(k) && self.queue@[k] == q0[k],
                forall|k: Seq<char>| #[trigger] q0.contains_key(k) && !self.queue@.contains_key(k) ==> exists|i: int| 0 <= i < due@.len() && #[trigger] due@[i]@ == k,
                forall|i: int| 0 <= i < due@.len() ==> #[trigger] q0.contains_key(due@[i]@) && !now.earlier_than(q0[due@[i]@]) && !self.queue@.contains_key(due@[i]@),
                forall|i: int, j: int| 0 <= i < j < due@.len() ==> entry_precedes(q0[#[trigger] due@[i]@], due@[i]@, q0[#[trigger] due@[j]@], due@[j]@),
                forall|i: int, k: Seq<char>| 0 <= i < due@.len() && #[trigger] self.queue@.contains_key(k) ==> entry_precedes(q0[#[trigger] due@[i]@], due@[i]@, q0[k], k),
            ensures
                self.wf(),
                self.jobs.view() == old(self).jobs.view(),
                is_tick(q0, self.queue@, due@, now),
            decreases self.queue@.len(),
        {
            let next_time = self.queue.peek_time();
            match next_time {
                None => {
                    break;
                },
                Some(time) => {
                    if now.is_before(&time) {
                        proof {
                            assert forall|k: Seq<char>| #[trigger] self.queue@.contains_key(k) implies now.earlier_than(self.queue@[k]) by {
                                assert(!self.queue@[k].earlier_than(time));
                            }
                        }
                        break;
                    }
                    let ghost before = self.queue@;
                    let ghost due_before = due@;
                    proof {
                        self.queue.lemma_view_finite();
                    }
                    match self.queue.dequeue() {
                        None => {
                            break;
                        },
                        Some((id, t)) => {
                            proof {
                                lemma_next_entry_is_earliest(before, id@, t);
                                lemma_earliest_time_unique(before, t, time);
                                assert forall|k: Seq<char>| #[trigger] self.queue@.contains_key(k) implies entry_precedes(q0[id@], id@, q0[k], k) by {
                                    assert(before.contains_key(k));
                                    assert(!entry_precedes(before[k], k, t, id@));
                                    assert(k != id@);
                                    lemma_seq_less_total(k, id@);
                                }
                            }
                            due.push(id);
                            proof {
                                assert forall|k: Seq<char>| #[trigger] q0.contains_key(k) && !self.queue@.contains_key(k) implies exists|i: int| 0 <= i < due@.len() && #[trigger] due@[i]@ == k by {
                                    if before.contains_key(k) {
                                        assert(k == due@[due@.len() - 1]@);
                                    } else {
                                        let i = choose|i: int| 0 <= i < due_before.len() && #[trigger] due_before[i]@ == k;
                                        assert(due@[i]@ == k);
                                    }
                                }
                                assert forall|i: int, j: int| 0 <= i < j < due@.len() implies entry_precedes(q0[#[trigger] due@[i]@], due@[i]@, q0[#[trigger] due@[j]@], due@[j]@) by {
                                    if j == due@.len() - 1 {
                                        assert(due@[i] == due_before[i]);
                                        assert(before.contains_key(due@[j]@));
                                    } else {
                                        assert(due@[i] == due_before[i]);
                                        assert(due@[j] == due_before[j]);
                                    }
                                }
                                assert forall|i: int, k: Seq<char>| 0 <= i < due@.len() && #[trigger] self.queue@.contains_key(k) implies entry_precedes(q0[#[trigger] due@[i]@], due@[i]@, q0[k], k) by {
                                    if i < due@.len() - 1 {
                                        assert(due@[i] == due_before[i]);
                                        assert(before.contains_key(k));
                                    }
                                }
                                assert forall|i: int| 0 <= i < due@.len() implies #[trigger] q0.contains_key(due@[i]@) && !now.earlier_than(q0[due@[i]@]) && !self.queue@.contains_key(due@[i]@) by {
                                    if i < due@.len() - 1 {
                                        assert(due@[i] == due_before[i]);
                                    }
                                }
                            }
                        },
                    }
                },
            }
        }
        due
    }

    /// Takes from the queue every job due at or before the current time, in
    /// the order they run, and returns their mirrors for the caller to
    /// dispatch. The current time is read from the system clock; whatever it
    /// reads, the outcome is that of [`Manager::tick_at`] at that time.
    pub fn tick(&mut self) -> (due: Vec<String>)
        requires
            old(self).wf(),
        ensures
            final(self).wf(),
            final(self).jobs_view() == old(self).jobs_view(),
            exists|now: Timestamp| is_tick(old(self).queue_view(), final(self).queue_view(), due@, now),
    {
        let now = utc_now();
        self.tick_at(now)
    }

    /// Queues `mirror_id` to run at `time`, replacing any earlier time; this
    /// carries out a queue-enqueue effect.
    pub fn schedule(&mut self, mirror_id: String, time: Timestamp)
        requires
            old(self).wf(),
        ensures
            final(self).wf(),
            final(self).jobs_view() == old(self).jobs_view(),
            final(self).queue_view() == old(self).queue_view().insert(mirror_id@, time),
    {
        self.queue.schedule(mirror_id, time);
    }

    /// Takes `mirror_id` out of the queue; this carries out a queue-remove
    /// effect.
    pub fn unschedule(&mut self, mirror_id: &str)
        requires
            old(self).wf(),
        ensures
            final(self).wf(),
            final(self).jobs_view() == old(self).jobs_view(),
            final(self).queue_view() == old(self).queue_view().remove(mirror_id@),
    {
        self.queue.remove(mirror_id);
    }

    /// The scheduling queue.
    pub fn queue(&self) -> (q: &JobQueue)
        ensures
            q@ == self.queue_view(),
            self.wf() ==> q.wf(),
    {
        &self.queue
    }
}

} // verus!
