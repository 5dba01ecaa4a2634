use mirror_manager::backend::manager::status as backend_status;
use mirror_manager::backend::manager::status::Effect as E;
use mirror_manager::manager::status::{
    AnyJob, Effect, Failable, Idle, Job, Paused, Pending, Publishing, Running, Success,
    Suspendable, Syncing, TransitionPlan, Verifying,
};

fn ids(effects: &[Effect]) -> Vec<String> {
    effects
        .iter()
        .map(|e| match e {
            Effect::QueueEnqueue { mirror_id } => format!("enqueue:{mirror_id}"),
            Effect::QueueRemove { mirror_id } => format!("remove:{mirror_id}"),
            Effect::Persist { mirror_id } => format!("persist:{mirror_id}"),
            Effect::Sync { mirror_id } => format!("sync:{mirror_id}"),
            Effect::Verify { mirror_id } => format!("verify:{mirror_id}"),
            Effect::Publish { mirror_id } => format!("publish:{mirror_id}"),
        })
        .collect()
}

fn job<S>(s: S) -> Job<S> {
    Job { mirror_id: "debian".to_string(), running_status: s }
}

#[test]
fn transition_plan_builders_append_in_order() {
    let plan = TransitionPlan::new(job(Idle));
    assert!(plan.effects.is_empty());
    let plan = plan
        .with_effect(Effect::Persist { mirror_id: "a".to_string() })
        .with_effects(vec![
            Effect::QueueEnqueue { mirror_id: "b".to_string() },
            Effect::Sync { mirror_id: "c".to_string() },
        ]);
    assert_eq!(ids(&plan.effects), vec!["persist:a", "enqueue:b", "sync:c"]);
    assert_eq!(plan.next.mirror_id, "debian");
}

#[test]
fn register_persists_pending_job() {
    let plan = job(Idle).register();
    assert_eq!(plan.next.mirror_id, "debian");
    assert_eq!(ids(&plan.effects), vec!["persist:debian"]);
}

#[test]
fn pause_pending_removes_from_queue_and_persists() {
    let plan = job(Pending).pause();
    assert_eq!(ids(&plan.effects), vec!["remove:debian", "persist:debian"]);
}

#[test]
fn pause_idle_only_persists() {
    let plan = job(Idle).pause();
    assert_eq!(ids(&plan.effects), vec!["persist:debian"]);
}

#[test]
fn successful_run_starts_each_stage() {
    let p1 = job(Pending).sync();
    assert_eq!(ids(&p1.effects), vec!["sync:debian", "persist:debian"]);
    let p2 = p1.next.verify();
    assert_eq!(ids(&p2.effects), vec!["verify:debian", "persist:debian"]);
    let p3 = p2.next.publish();
    assert_eq!(ids(&p3.effects), vec!["publish:debian", "persist:debian"]);
    let p4 = p3.next.succeed();
    assert_eq!(ids(&p4.effects), vec!["persist:debian"]);
    let p5 = p4.next.idle();
    assert_eq!(ids(&p5.effects), vec!["enqueue:debian"]);
    assert_eq!(p5.next.mirror_id, "debian");
}

#[test]
fn every_stage_can_fail() {
    let a = job(Running { business_status: Syncing }).fail();
    let b = job(Running { business_status: Verifying }).fail();
    let c = job(Running { business_status: Publishing }).fail();
    for plan in [a, b, c] {
        assert_eq!(ids(&plan.effects), vec!["persist:debian"]);
        let back = plan.next.idle();
        assert_eq!(ids(&back.effects), vec!["enqueue:debian"]);
    }
}

#[test]
fn resume_requeues_and_persists() {
    let plan = job(Paused).resume();
    assert_eq!(ids(&plan.effects), vec!["enqueue:debian", "persist:debian"]);
    let _: Job<Running<Success>> = plan.next;
}

#[test]
fn state_names() {
    let cases: Vec<(AnyJob, &str)> = vec![
        (AnyJob::from(job(Idle)), "Idle"),
        (AnyJob::from(job(Pending)), "Pending"),
        (AnyJob::from(job(Running { business_status: Syncing })), "Syncing"),
        (AnyJob::from(job(Running { business_status: Verifying })), "Verifying"),
        (AnyJob::from(job(Running { business_status: Publishing })), "Publishing"),
        (AnyJob::from(job(Running { business_status: Success })), "Success"),
        (AnyJob::from(job(Running { business_status: mirror_manager::manager::status::Failed })), "Failed"),
        (AnyJob::from(job(Paused)), "Paused"),
    ];
    for (j, name) in cases {
        assert_eq!(j.state_name(), name);
        assert_eq!(j.mirror_id(), "debian");
    }
}

#[test]
fn dispatching_variant_transitions() {
    let show = |effects: &[E]| -> Vec<String> {
        effects
            .iter()
            .map(|e| match e {
                E::QueueEnqueue { mirror_id } => format!("enqueue:{mirror_id}"),
                E::QueueRemove { mirror_id } => format!("remove:{mirror_id}"),
                E::DispatchRun { mirror_id } => format!("dispatch:{mirror_id}"),
                E::Persist { mirror_id } => format!("persist:{mirror_id}"),
            })
            .collect()
    };
    let j = |s| backend_status::Job { mirror_id: "arch".to_string(), running_status: s };
    let p = j(backend_status::Pending).execute();
    assert_eq!(show(&p.effects), vec!["dispatch:arch", "persist:arch"]);
    let v = p.next.verify();
    assert_eq!(show(&v.effects), vec!["persist:arch"]);
    let pb = v.next.publish();
    assert_eq!(show(&pb.effects), vec!["persist:arch"]);
    let s = pb.next.succeed();
    assert_eq!(show(&s.effects), vec!["persist:arch"]);
    let i = s.next.idle();
    assert_eq!(show(&i.effects), vec!["enqueue:arch"]);
    let r = i.next.register();
    assert_eq!(show(&r.effects), vec!["persist:arch"]);
    let paused = backend_status::Suspendable::pause(
        backend_status::Job { mirror_id: "arch".to_string(), running_status: backend_status::Idle },
    );
    assert_eq!(show(&paused.effects), vec!["remove:arch", "persist:arch"]);
    let resumed = paused.next.resume();
    assert_eq!(show(&resumed.effects), vec!["enqueue:arch", "persist:arch"]);
    let failed = backend_status::Failable::fail(backend_status::Job {
        mirror_id: "arch".to_string(),
        running_status: backend_status::Running { business_status: backend_status::Verifying },
    });
    assert_eq!(show(&failed.effects), vec!["persist:arch"]);
    assert_eq!(backend_status::AnyJob::from(failed.next).state_name(), "Failed");
}
