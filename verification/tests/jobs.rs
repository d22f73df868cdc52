use incremental_affix::fixed::{PerSecond, UNIT};
use incremental_affix::job::spc::{postconsume, preconsume, JobSpc};
use incremental_affix::job::{
    initialize_jobs, on_assign_follower, on_unassign_follower, AssignFollower, FollowersAssigned,
    JobKind, UnassignFollower, JOB_COUNT,
};
use incremental_affix::stock::producer_consumer::StockyardProducerConsumer;
use incremental_affix::stock::stockyard::Stockyard;
use incremental_affix::stock::{Stock, StockKind};

#[test]
fn jobs_make_and_use_a_unit_in_a_second() {
    let (made, used) = JobKind::Cook.base_production_consumption();
    assert_eq!(made.len(), 1);
    assert_eq!(made[0].kind, StockKind::Food);
    assert_eq!(made[0].per_second, PerSecond(UNIT as i64));
    let used_kinds: Vec<StockKind> = used.iter().map(|rate| rate.kind).collect();
    assert_eq!(used_kinds, vec![StockKind::Meat, StockKind::Wood]);
    let (made, used) = JobKind::RenderCarcass.base_production_consumption();
    let made_kinds: Vec<StockKind> = made.iter().map(|rate| rate.kind).collect();
    assert_eq!(made_kinds, vec![StockKind::Meat, StockKind::Bone]);
    assert_eq!(used[0].kind, StockKind::Carcass);
    let (made, used) = JobKind::ChopWood.base_production_consumption();
    assert_eq!(made[0].kind, StockKind::Wood);
    assert!(used.is_empty());
    let (made, used) = JobKind::Hunt.base_production_consumption();
    assert_eq!(made[0].kind, StockKind::Carcass);
    assert!(used.is_empty());
}

#[test]
fn jobs_start_in_order_without_followers() {
    let (jobs, effects) = initialize_jobs();
    assert_eq!(jobs.len(), JOB_COUNT);
    assert_eq!(effects.len(), JOB_COUNT);
    for (place, kind) in JobKind::list().iter().enumerate() {
        assert_eq!(jobs[place].kind, *kind);
        assert_eq!(kind.index(), place);
        assert_eq!(jobs[place].followers_assigned, 0);
    }
    assert_eq!(JobKind::RenderCarcass.name(), "Render Carcasses");
    assert_eq!(JobKind::ChopWood.name(), "Chop Wood");
}

#[test]
fn follower_is_assigned_only_while_one_is_free() {
    let (mut jobs, _) = initialize_jobs();
    let mut assigned = FollowersAssigned::default();
    let mut yard = Stockyard::default();
    let event = AssignFollower { job_kind: JobKind::Hunt };
    assert!(!on_assign_follower(&event, &mut assigned, &yard, &mut jobs));
    assert_eq!(assigned.0, 0);
    yard.set(StockKind::Followers, Stock::new(2 * UNIT, Some(10 * UNIT)));
    assert!(on_assign_follower(&event, &mut assigned, &yard, &mut jobs));
    assert!(on_assign_follower(
        &AssignFollower { job_kind: JobKind::Cook },
        &mut assigned,
        &yard,
        &mut jobs
    ));
    assert!(!on_assign_follower(&event, &mut assigned, &yard, &mut jobs));
    assert_eq!(assigned.0, 2);
    assert_eq!(jobs[JobKind::Hunt.index()].followers_assigned, 1);
    assert_eq!(jobs[JobKind::Cook.index()].followers_assigned, 1);
    assert_eq!(jobs[JobKind::ChopWood.index()].followers_assigned, 0);
}

#[test]
fn part_of_a_follower_is_no_follower() {
    let (mut jobs, _) = initialize_jobs();
    let mut assigned = FollowersAssigned(1);
    jobs[0].followers_assigned = 1;
    let mut yard = Stockyard::default();
    yard.set(StockKind::Followers, Stock::new(UNIT + UNIT / 2, Some(10 * UNIT)));
    let event = AssignFollower { job_kind: JobKind::ChopWood };
    assert!(on_assign_follower(&event, &mut assigned, &yard, &mut jobs));
    assert!(!on_assign_follower(&event, &mut assigned, &yard, &mut jobs));
    assert_eq!(assigned.0, 2);
}

#[test]
fn follower_is_unassigned_only_from_a_job_that_has_one() {
    let (mut jobs, _) = initialize_jobs();
    let mut assigned = FollowersAssigned::default();
    let mut yard = Stockyard::default();
    yard.set(StockKind::Followers, Stock::new(3 * UNIT, Some(10 * UNIT)));
    let hunt = AssignFollower { job_kind: JobKind::Hunt };
    assert!(on_assign_follower(&hunt, &mut assigned, &yard, &mut jobs));
    assert!(!on_unassign_follower(
        &UnassignFollower { job_kind: JobKind::Cook },
        &mut assigned,
        &mut jobs
    ));
    assert_eq!(assigned.0, 1);
    assert!(on_unassign_follower(
        &UnassignFollower { job_kind: JobKind::Hunt },
        &mut assigned,
        &mut jobs
    ));
    assert_eq!(assigned.0, 0);
    assert_eq!(jobs[JobKind::Hunt.index()].followers_assigned, 0);
}

#[test]
fn job_asks_and_makes_for_each_of_its_followers() {
    let (mut jobs, _) = initialize_jobs();
    let cook = JobKind::Cook.index();
    jobs[cook].followers_assigned = 3;
    let mut effect = StockyardProducerConsumer::default();
    preconsume(&jobs[cook], &mut effect);
    assert_eq!(
        effect.consumes,
        vec![
            (StockKind::Meat, PerSecond(3 * UNIT as i64)),
            (StockKind::Wood, PerSecond(3 * UNIT as i64)),
        ]
    );
    assert!(effect.produces.is_empty());
    postconsume(&jobs[cook], &mut effect);
    assert_eq!(effect.produces, vec![(StockKind::Food, PerSecond(3 * UNIT as i64))]);
    let idle = JobKind::ChopWood.index();
    let mut effect = StockyardProducerConsumer::default();
    preconsume(&jobs[idle], &mut effect);
    postconsume(&jobs[idle], &mut effect);
    assert_eq!(effect.produces, vec![(StockKind::Wood, PerSecond(0))]);
    let _mark: JobSpc = JobSpc::default();
}
