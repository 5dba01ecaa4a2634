//! Typed job state machine, in the variant whose running stage is started
//! by a single dispatch effect.
//!
//! A [`Job`] carries its state in its type. Each transition consumes the job
//! and yields a [`TransitionPlan`]: the job in its next state together with the
//! side effects the manager must carry out for that transition.

use vstd::prelude::*;

verus! {

/// Business stage marker: the job is synchronising.
#[derive(Debug, Clone)]
pub struct Syncing;

/// Business stage marker: the job is verifying what it synchronised.
#[derive(Debug, Clone)]
pub struct Verifying;

/// Business stage marker: the job is publishing a verified snapshot.
#[derive(Debug, Clone)]
pub struct Publishing;

/// Business stage marker: the last full run succeeded.
#[derive(Debug, Clone)]
pub struct Success;

/// Business stage marker: the last run failed.
#[derive(Debug, Clone)]
pub struct Failed;

/// Run state: the job exists but is not in the scheduling queue.
#[derive(Debug, Clone)]
pub struct Idle;

/// Run state: the job is in the scheduling queue, waiting to run.
#[derive(Debug, Clone)]
pub struct Pending;

/// Run state: the job is running one of its business stages.
#[derive(Debug, Clone)]
pub struct Running<Business> {
    /// The business stage being run.
    pub business_status: Business,
}

/// Run state: the job has been paused.
#[derive(Debug, Clone)]
pub struct Paused;

/// A job whose run state `RunSt` is part of its type.
#[derive(Debug, Clone)]
pub struct Job<RunSt> {
    /// Identifier of the mirror this job synchronises.
    pub mirror_id: String,
    /// The state the job is in.
    pub running_status: RunSt,
}

impl<Biz: Default> Default for Running<Biz> {
    fn default() -> (r: Self)
        ensures
            call_ensures(Biz::default, (), r.business_status),
    {
        Self { business_status: Biz::default() }
    }
}

/// A job of any state, for storing jobs of different states together.
#[derive(Debug, Clone)]
pub enum AnyJob {
    Idle(Job<Idle>),
    Pending(Job<Pending>),
    Syncing(Job<Running<Syncing>>),
    Verifying(Job<Running<Verifying>>),
    Publishing(Job<Running<Publishing>>),
    Success(Job<Running<Success>>),
    Failed(Job<Running<Failed>>),
    Paused(Job<Paused>),
}

/// A side effect that a transition asks the manager to perform.
#[derive(Debug, Clone)]
pub enum Effect {
    /// Put the job into the scheduling queue.
    QueueEnqueue { mirror_id: String },
    /// Take the job out of the scheduling queue.
    QueueRemove { mirror_id: String },
    /// Have a worker run the job at once.
    DispatchRun { mirror_id: String },
    /// Persist the job's state.
    Persist { mirror_id: String },
}

/// The outcome of one transition: the next job and the effects to perform.
#[derive(Debug, Clone)]
pub struct TransitionPlan<NextSt> {
    /// The job in its next state.
    pub next: Job<NextSt>,
    /// The effects that complete the transition, in order.
    pub effects: Vec<Effect>,
}

impl<NextSt> TransitionPlan<NextSt> {
    /// A plan that moves to `next` with no effects.
    pub fn new(next: Job<NextSt>) -> (plan: Self)
        ensures
            plan.next == next,
            plan.effects@ == Seq::<Effect>::empty(),
    {
        Self { next, effects: Vec::<Effect>::new() }
    }

    /// The same plan with `effect` appended to its effects.
    pub fn with_effect(self, effect: Effect) -> (plan: Self)
        ensures
            plan.next == self.next,
            plan.effects@ == self.effects@.push(effect),
    {
        let mut plan = self;
        plan.effects.push(effect);
        plan
    }

    /// The same plan with `effects` appended, in order, to its effects.
    pub fn with_effects(self, effects: Vec<Effect>) -> (plan: Self)
        ensures
            plan.next == self.next,
            plan.effects@ == self.effects@ + effects@,
    {
        let mut plan = self;
        let mut effects = effects;
        plan.effects.append(&mut effects);
        plan
    }
}

impl AnyJob {
    /// The name of the job's state.
    pub open spec fn state_name_view(&self) -> Seq<char> {
        match self {
            AnyJob::Idle(_) => "Idle"@,
            AnyJob::Pending(_) => "Pending"@,
            AnyJob::Syncing(_) => "Syncing"@,
            AnyJob::Verifying(_) => "Verifying"@,
            AnyJob::Publishing(_) => "Publishing"@,
            AnyJob::Success(_) => "Success"@,
            AnyJob::Failed(_) => "Failed"@,
            AnyJob::Paused(_) => "Paused"@,
        }
    }

    /// The mirror identifier of the job, whatever its state.
    pub open spec fn id(&self) -> String {
        match self {
            AnyJob::Idle(j) => j.mirror_id,
            AnyJob::Pending(j) => j.mirror_id,
            AnyJob::Syncing(j) => j.mirror_id,
            AnyJob::Verifying(j) => j.mirror_id,
            AnyJob::Publishing(j) => j.mirror_id,
            AnyJob::Success(j) => j.mirror_id,
            AnyJob::Failed(j) => j.mirror_id,
            AnyJob::Paused(j) => j.mirror_id,
        }
    }

    /// Returns the human readable name of the job's state.
    pub fn state_name(&self) -> (name: &'static str)
        ensures
            name@ == self.state_name_view(),
    {
        match self {
            AnyJob::Idle(_) => "Idle",
            AnyJob::Pending(_) => "Pending",
            AnyJob::Syncing(_) => "Syncing",
            AnyJob::Verifying(_) => "Verifying",
            AnyJob::Publishing(_) => "Publishing",
            AnyJob::Success(_) => "Success",
            AnyJob::Failed(_) => "Failed",
            AnyJob::Paused(_) => "Paused",
        }
    }

    /// Returns the mirror identifier of the job, whatever its state.
    pub fn mirror_id(&self) -> (id: &String)
        ensures
            *id == self.id(),
    {
        match self {
            AnyJob::Idle(j) => &j.mirror_id,
            AnyJob::Pending(j) => &j.mirror_id,
            AnyJob::Syncing(j) => &j.mirror_id,
            AnyJob::Verifying(j) => &j.mirror_id,
            AnyJob::Publishing(j) => &j.mirror_id,
            AnyJob::Success(j) => &j.mirror_id,
            AnyJob::Failed(j) => &j.mirror_id,
            AnyJob::Paused(j) => &j.mirror_id,
        }
    }
}

impl From<Job<Idle>> for AnyJob {
    fn from(job: Job<Idle>) -> (r: Self) {
        AnyJob::Idle(job)
    }
}

impl vstd::std_specs::convert::FromSpecImpl<Job<Idle>> for AnyJob {
    open spec fn obeys_from_spec() -> bool {
        true
    }

    open spec fn from_spec(job: Job<Idle>) -> Self {
        AnyJob::Idle(job)
    }
}

impl From<Job<Pending>> for AnyJob {
    fn from(job: Job<Pending>) -> (r: Self) {
        AnyJob::Pending(job)
    }
}

impl vstd::std_specs::convert::FromSpecImpl<Job<Pending>> for AnyJob {
    open spec fn obeys_from_spec() -> bool {
        true
    }

    open spec fn from_spec(job: Job<Pending>) -> Self {
        AnyJob::Pending(job)
    }
}

impl From<Job<Running<Syncing>>> for AnyJob {
    fn from(job: Job<Running<Syncing>>) -> (r: Self) {
        AnyJob::Syncing(job)
    }
}

impl vstd::std_specs::convert::FromSpecImpl<Job<Running<Syncing>>> for AnyJob {
    open spec fn obeys_from_spec() -> bool {
        true
    }

    open spec fn from_spec(job: Job<Running<Syncing>>) -> Self {
        AnyJob::Syncing(job)
    }
}

impl From<Job<Running<Verifying>>> for AnyJob {
    fn from(job: Job<Running<Verifying>>) -> (r: Self) {
        AnyJob::Verifying(job)
    }
}

impl vstd::std_specs::convert::FromSpecImpl<Job<Running<Verifying>>> for AnyJob {
    open spec fn obeys_from_spec() -> bool {
        true
    }

    open spec fn from_spec(job: Job<Running<Verifying>>) -> Self {
        AnyJob::Verifying(job)
    }
}

impl From<Job<Running<Publishing>>> for AnyJob {
    fn from(job: Job<Running<Publishing>>) -> (r: Self) {
        AnyJob::Publishing(job)
    }
}

impl vstd::std_specs::convert::FromSpecImpl<Job<Running<Publishing>>> for AnyJob {
    open spec fn obeys_from_spec() -> bool {
        true
    }

    open spec fn from_spec(job: Job<Running<Publishing>>) -> Self {
        AnyJob::Publishing(job)
    }
}

impl From<Job<Running<Success>>> for AnyJob {
    fn from(job: Job<Running<Success>>) -> (r: Self) {
        AnyJob::Success(job)
    }
}

impl vstd::std_specs::convert::FromSpecImpl<Job<Running<Success>>> for AnyJob {
    open spec fn obeys_from_spec() -> bool {
        true
    }

    open spec fn from_spec(job: Job<Running<Success>>) -> Self {
        AnyJob::Success(job)
    }
}

impl From<Job<Running<Failed>>> for AnyJob {
    fn from(job: Job<Running<Failed>>) -> (r: Self) {
        AnyJob::Failed(job)
    }
}

impl vstd::std_specs::convert::FromSpecImpl<Job<Running<Failed>>> for AnyJob {
    open spec fn obeys_from_spec() -> bool {
        true
    }

    open spec fn from_spec(job: Job<Running<Failed>>) -> Self {
        AnyJob::Failed(job)
    }
}

impl From<Job<Paused>> for AnyJob {
    fn from(job: Job<Paused>) -> (r: Self) {
        AnyJob::Paused(job)
    }
}

impl vstd::std_specs::convert::FromSpecImpl<Job<Paused>> for AnyJob {
    open spec fn obeys_from_spec() -> bool {
        true
    }

    open spec fn from_spec(job: Job<Paused>) -> Self {
        AnyJob::Paused(job)
    }
}

/// A job that can be paused.
pub trait Suspendable {
    /// Plans the transition to [`Paused`].
    fn pause(self) -> TransitionPlan<Paused>;
}

/// A job that can fail.
pub trait Failable {
    /// Plans the transition to the failed stage.
    fn fail(self) -> TransitionPlan<Running<Failed>>;
}

impl Job<Idle> {
    /// Registers an idle job into the queue: the job becomes pending and its
    /// state is persisted.
    pub fn register(self) -> (plan: TransitionPlan<Pending>)
        ensures
            plan.next == (Job { mirror_id: self.mirror_id, running_status: Pending }),
            plan.effects@ == seq![Effect::Persist { mirror_id: self.mirror_id }],
    {
        let mirror_id = self.mirror_id;
        let next = Job::<Pending> { mirror_id: mirror_id.clone(), running_status: Pending };
        let effects = vec![Effect::Persist { mirror_id: mirror_id }];
        TransitionPlan::new(next).with_effects(effects)
    }
}

impl Suspendable for Job<Idle> {
    /// Pauses an idle job: it is taken out of the queue and its state is
    /// persisted.
    fn pause(self) -> (plan: TransitionPlan<Paused>)
        ensures
            plan.next == (Job { mirror_id: self.mirror_id, running_status: Paused }),
            plan.effects@ == seq![
                Effect::QueueRemove { mirror_id: self.mirror_id },
                Effect::Persist { mirror_id: self.mirror_id },
            ],
    {
        let mirror_id = self.mirror_id;
        let next = Job::<Paused> { mirror_id: mirror_id.clone(), running_status: Paused };
        let effects = vec![
            Effect::QueueRemove { mirror_id: mirror_id.clone() },
            Effect::Persist { mirror_id: mirror_id },
        ];
        TransitionPlan::new(next).with_effects(effects)
    }
}

impl Job<Pending> {
    /// Takes a pending job out of the queue and hands it to a worker; the
    /// state is persisted.
    pub fn execute(self) -> (plan: TransitionPlan<Running<Syncing>>)
        ensures
            plan.next == (Job { mirror_id: self.mirror_id, running_status: Running { business_status: Syncing } }),
            plan.effects@ == seq![
                Effect::DispatchRun { mirror_id: self.mirror_id },
                Effect::Persist { mirror_id: self.mirror_id },
            ],
    {
        let mirror_id = self.mirror_id;
        let next = Job::<Running<Syncing>> {
            mirror_id: mirror_id.clone(),
            running_status: Running { business_status: Syncing },
        };
        let effects = vec![
            Effect::DispatchRun { mirror_id: mirror_id.clone() },
            Effect::Persist { mirror_id },
        ];
        TransitionPlan::new(next).with_effects(effects)
    }
}

impl Job<Running<Syncing>> {
    /// Moves from synchronising to verifying; the state is persisted.
    pub fn verify(self) -> (plan: TransitionPlan<Running<Verifying>>)
        ensures
            plan.next == (Job { mirror_id: self.mirror_id, running_status: Running { business_status: Verifying } }),
            plan.effects@ == seq![Effect::Persist { mirror_id: self.mirror_id }],
    {
        let mirror_id = self.mirror_id;
        let next = Job::<Running<Verifying>> {
            mirror_id: mirror_id.clone(),
            running_status: Running { business_status: Verifying },
        };
        let effects = vec![Effect::Persist { mirror_id: mirror_id }];
        TransitionPlan::new(next).with_effects(effects)
    }
}

impl Job<Running<Verifying>> {
    /// Moves from verifying to publishing; the state is persisted.
    pub fn publish(self) -> (plan: TransitionPlan<Running<Publishing>>)
        ensures
            plan.next == (Job { mirror_id: self.mirror_id, running_status: Running { business_status: Publishing } }),
            plan.effects@ == seq![Effect::Persist { mirror_id: self.mirror_id }],
    {
        let mirror_id = self.mirror_id;
        let next = Job::<Running<Publishing>> {
            mirror_id: mirror_id.clone(),
            running_status: Running { business_status: Publishing },
        };
        let effects = vec![Effect::Persist { mirror_id: mirror_id }];
        TransitionPlan::new(next).with_effects(effects)
    }
}

impl Job<Running<Publishing>> {
    /// Moves from publishing to success; the state is persisted.
    pub fn succeed(self) -> (plan: TransitionPlan<Running<Success>>)
        ensures
            plan.next == (Job { mirror_id: self.mirror_id, running_status: Running { business_status: Success } }),
            plan.effects@ == seq![Effect::Persist { mirror_id: self.mirror_id }],
    {
        let mirror_id = self.mirror_id;
        let next = Job::<Running<Success>> {
            mirror_id: mirror_id.clone(),
            running_status: Running { business_status: Success },
        };
        let effects = vec![Effect::Persist { mirror_id: mirror_id }];
        TransitionPlan::new(next).with_effects(effects)
    }
}

impl Failable for Job<Running<Syncing>> {
    /// Moves from synchronising to failed; the state is persisted.
    fn fail(self) -> (plan: TransitionPlan<Running<Failed>>)
        ensures
            plan.next == (Job { mirror_id: self.mirror_id, running_status: Running { business_status: Failed } }),
            plan.effects@ == seq![Effect::Persist { mirror_id: self.mirror_id }],
    {
        let mirror_id = self.mirror_id;
        let next = Job::<Running<Failed>> {
            mirror_id: mirror_id.clone(),
            running_status: Running { business_status: Failed },
        };
        let effects = vec![Effect::Persist { mirror_id: mirror_id }];
        TransitionPlan::new(next).with_effects(effects)
    }
}

impl Failable for Job<Running<Verifying>> {
    /// Moves from verifying to failed; the state is persisted.
    fn fail(self) -> (plan: TransitionPlan<Running<Failed>>)
        ensures
            plan.next == (Job { mirror_id: self.mirror_id, running_status: Running { business_status: Failed } }),
            plan.effects@ == seq![Effect::Persist { mirror_id: self.mirror_id }],
    {
        let mirror_id = self.mirror_id;
        let next = Job::<Running<Failed>> {
            mirror_id: mirror_id.clone(),
            running_status: Running { business_status: Failed },
        };
        let effects = vec![Effect::Persist { mirror_id: mirror_id }];
        TransitionPlan::new(next).with_effects(effects)
    }
}

impl Failable for Job<Running<Publishing>> {
    /// Moves from publishing to failed; the state is persisted.
    fn fail(self) -> (plan: TransitionPlan<Running<Failed>>)
        ensures
            plan.next == (Job { mirror_id: self.mirror_id, running_status: Running { business_status: Failed } }),
            plan.effects@ == seq![Effect::Persist { mirror_id: self.mirror_id }],
    {
        let mirror_id = self.mirror_id;
        let next = Job::<Running<Failed>> {
            mirror_id: mirror_id.clone(),
            running_status: Running { business_status: Failed },
        };
        let effects = vec![Effect::Persist { mirror_id: mirror_id }];
        TransitionPlan::new(next).with_effects(effects)
    }
}

impl Job<Running<Success>> {
    /// Moves from success back to idle; the job is queued again.
    pub fn idle(self) -> (plan: TransitionPlan<Idle>)
        ensures
            plan.next == (Job { mirror_id: self.mirror_id, running_status: Idle }),
            plan.effects@ == seq![Effect::QueueEnqueue { mirror_id: self.mirror_id }],
    {
        let mirror_id = self.mirror_id;
        let next = Job::<Idle> { mirror_id: mirror_id.clone(), running_status: Idle };
        let effects = vec![Effect::QueueEnqueue { mirror_id: mirror_id }];
        TransitionPlan::new(next).with_effects(effects)
    }
}

impl Job<Running<Failed>> {
    /// Moves from failed back to idle; the job is queued again.
    pub fn idle(self) -> (plan: TransitionPlan<Idle>)
        ensures
            plan.next == (Job { mirror_id: self.mirror_id, running_status: Idle }),
            plan.effects@ == seq![Effect::QueueEnqueue { mirror_id: self.mirror_id }],
    {
        let mirror_id = self.mirror_id;
        let next = Job::<Idle> { mirror_id: mirror_id.clone(), running_status: Idle };
        let effects = vec![Effect::QueueEnqueue { mirror_id: mirror_id }];
        TransitionPlan::new(next).with_effects(effects)
    }
}

impl Job<Paused> {
    /// Resumes a paused job into the success stage: the job is queued again
    /// and its state is persisted.
    pub fn resume(self) -> (plan: TransitionPlan<Running<Success>>)
        ensures
            plan.next == (Job { mirror_id: self.mirror_id, running_status: Running { business_status: Success } }),
            plan.effects@ == seq![
                Effect::QueueEnqueue { mirror_id: self.mirror_id },
                Effect::Persist { mirror_id: self.mirror_id },
            ],
    {
        let mirror_id = self.mirror_id;
        let next = Job::<Running<Success>> {
            mirror_id: mirror_id.clone(),
            running_status: Running { business_status: Success },
        };
        let effects = vec![
            Effect::QueueEnqueue { mirror_id: mirror_id.clone() },
            Effect::Persist { mirror_id: mirror_id },
        ];
        TransitionPlan::new(next).with_effects(effects)
    }
}

/// Something that carries out transition plans.
pub trait TransitExecutor {}

} // verus!
