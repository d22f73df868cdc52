use incremental_affix::action::change::ChangeAction;
use incremental_affix::action::{Action, LearnAction, ProgressOutcome};
use incremental_affix::affinity::Affinity;
use incremental_affix::fixed::{PerSecond, UNIT};
use incremental_affix::job::{AssignFollower, JobKind, UnassignFollower};
use incremental_affix::pipeline::{
    clear_phase, demand_phase, derived_update_phase, initialize_effects, phase_order,
    produce_phase, run_phase, run_tick, EFFECT_COUNT, FIRST_JOB_EFFECT, FOLLOWER_EFFECT,
    PLAYER_EFFECT,
};
use incremental_affix::simulation::{Command, Simulation, TickTimer, TICK_TIME};
use incremental_affix::stats::PlayerActionStats;
use incremental_affix::stock::producer_consumer::StockSystems;
use incremental_affix::stock::{Stock, StockKind};

const SECOND: u64 = 1_000_000_000;

fn amount(sim: &Simulation, kind: StockKind) -> u64 {
    sim.stockyard.get(kind).amount()
}

fn hold(sim: &mut Simulation, kind: StockKind, amount: u64) {
    let limit = sim.stockyard.get(kind).limit();
    sim.stockyard.set(kind, Stock::new(amount, limit));
}

fn clear_marks(sim: &mut Simulation) {
    for kind in StockKind::list() {
        sim.stockyard.has_changed(kind);
    }
}

fn take_up(sim: &mut Simulation, action: Action) -> bool {
    sim.apply(Command::ChangeAction(ChangeAction::new(action)))
}

#[test]
fn effects_stand_in_their_places() {
    let effects = initialize_effects();
    assert_eq!(effects.len(), EFFECT_COUNT);
    assert_eq!((PLAYER_EFFECT, FOLLOWER_EFFECT, FIRST_JOB_EFFECT), (0, 1, 2));
    assert_eq!(effects[FOLLOWER_EFFECT].consumes, vec![(StockKind::Food, PerSecond(0))]);
    assert_eq!(
        phase_order(),
        [
            StockSystems::PreConsume,
            StockSystems::Consume,
            StockSystems::PostConsume,
            StockSystems::Produce
        ]
    );
}

#[test]
fn new_game_is_idle() {
    let mut sim = Simulation::new();
    clear_marks(&mut sim);
    for _ in 0..40 {
        sim.tick(0);
    }
    assert_eq!(amount(&sim, StockKind::Godpower), 10 * UNIT);
    for kind in StockKind::list() {
        assert!(!sim.stockyard.has_changed(kind));
    }
    assert_eq!(sim.current_action.0, None);
    let same = Simulation::default();
    assert_eq!(same.followers_assigned.0, 0);
}

#[test]
fn scheduler_runs_a_tick_every_twentieth_of_a_second() {
    let mut sim = Simulation::new();
    sim.stats.gather_wood =
        PlayerActionStats { base_gain_per_second: PerSecond(2_000_000), affinity: Affinity::new() };
    assert!(take_up(&mut sim, Action::GatherWood));
    assert_eq!(TICK_TIME, SECOND / 20);
    assert!(!sim.tick_stockyard_system(TICK_TIME - 1, 0));
    assert_eq!(amount(&sim, StockKind::Wood), 0);
    assert!(sim.tick_stockyard_system(1, 0));
    assert_eq!(amount(&sim, StockKind::Wood), 100_000);
    assert!(!sim.tick_stockyard_system(TICK_TIME / 2, 0));
    assert!(sim.tick_stockyard_system(TICK_TIME / 2, 0));
    assert_eq!(amount(&sim, StockKind::Wood), 200_000);
    // One tick at most for each call, however much time has passed.
    assert!(sim.tick_stockyard_system(10 * TICK_TIME, 0));
    assert_eq!(amount(&sim, StockKind::Wood), 300_000);
    assert_eq!(TickTimer::new().0.duration_nanos(), TICK_TIME);
}

#[test]
fn rendering_is_held_while_there_is_no_carcass() {
    let mut sim = Simulation::new();
    assert!(take_up(&mut sim, Action::RenderCarcass));
    hold(&mut sim, StockKind::Carcass, 25_000);
    // A fifth of a carcass in a second is a hundredth in a tick.
    sim.tick(0);
    assert_eq!(amount(&sim, StockKind::Carcass), 15_000);
    assert_eq!(amount(&sim, StockKind::Meat), 10_000);
    assert_eq!(amount(&sim, StockKind::Bone), 2_000);
    sim.tick(0);
    assert_eq!(amount(&sim, StockKind::Carcass), 5_000);
    assert_eq!(amount(&sim, StockKind::Meat), 20_000);
    // Half of what is asked for is left: half is made.
    sim.tick(0);
    assert_eq!(amount(&sim, StockKind::Carcass), 0);
    assert_eq!(amount(&sim, StockKind::Meat), 25_000);
    assert_eq!(amount(&sim, StockKind::Bone), 5_000);
    // Nothing is left: the action is held.
    clear_marks(&mut sim);
    for _ in 0..10 {
        sim.tick(0);
    }
    assert_eq!(amount(&sim, StockKind::Meat), 25_000);
    assert_eq!(amount(&sim, StockKind::Bone), 5_000);
    assert!(!sim.stockyard.has_changed(StockKind::Meat));
    assert!(sim.effects[PLAYER_EFFECT].consumes.is_empty());
    assert!(sim.effects[PLAYER_EFFECT].produces.is_empty());
    // With a carcass the work goes on.
    hold(&mut sim, StockKind::Carcass, UNIT);
    sim.tick(0);
    assert_eq!(amount(&sim, StockKind::Carcass), 990_000);
    assert_eq!(amount(&sim, StockKind::Meat), 35_000);
    assert_eq!(amount(&sim, StockKind::Bone), 7_000);
}

#[test]
fn cooking_needs_meat_and_wood() {
    let mut sim = Simulation::new();
    assert!(take_up(&mut sim, Action::CookMeat));
    hold(&mut sim, StockKind::Meat, UNIT);
    sim.tick(0);
    assert_eq!(amount(&sim, StockKind::Food), 0);
    assert_eq!(amount(&sim, StockKind::Meat), UNIT);
    hold(&mut sim, StockKind::Wood, 5_000);
    sim.tick(0);
    assert_eq!(amount(&sim, StockKind::Wood), 0);
    assert_eq!(amount(&sim, StockKind::Meat), UNIT - 5_000);
    assert_eq!(amount(&sim, StockKind::Food), 5_000);
}

#[test]
fn affinity_doubles_what_gathering_brings() {
    let mut sim = Simulation::new();
    sim.stats.gather_wood = PlayerActionStats {
        base_gain_per_second: PerSecond(2_000_000),
        affinity: Affinity { chance: UNIT, multiplier: 2 * UNIT, time: SECOND },
    };
    assert!(take_up(&mut sim, Action::GatherWood));
    sim.tick(0);
    assert_eq!(amount(&sim, StockKind::Wood), 100_000);
    sim.check_affinity_with(5 * SECOND - 1, 0);
    sim.check_affinity_with(1, 999_999);
    assert!(sim.action_spc.affinity_enabled());
    sim.tick(0);
    assert_eq!(amount(&sim, StockKind::Wood), 300_000);
    sim.check_affinity_with(SECOND - 1, 0);
    assert!(!sim.action_spc.affinity_enabled());
    sim.tick(0);
    assert_eq!(amount(&sim, StockKind::Wood), 400_000);
}

#[test]
fn followers_eat_and_raise_godpower() {
    let mut sim = Simulation::new();
    hold(&mut sim, StockKind::Followers, 5 * UNIT);
    hold(&mut sim, StockKind::Food, UNIT);
    // The first tick sets the rates and raises godpower at once: half a
    // unit in a second, no food having been asked for yet.
    sim.tick(0);
    assert_eq!(amount(&sim, StockKind::Food), UNIT);
    assert_eq!(amount(&sim, StockKind::Godpower), 10 * UNIT + 25_000);
    // From the second tick on the followers eat a unit in a second.
    sim.tick(0);
    assert_eq!(amount(&sim, StockKind::Food), UNIT - 50_000);
    assert_eq!(amount(&sim, StockKind::Godpower), 10 * UNIT + 50_000);
}

#[test]
fn hungry_followers_raise_less() {
    let mut sim = Simulation::new();
    hold(&mut sim, StockKind::Followers, 10 * UNIT);
    sim.tick(1_000_000);
    assert_eq!(amount(&sim, StockKind::Godpower), 10 * UNIT + 100_000);
    // They ask for two units of food in a second, a tenth in a tick, and
    // there is a fortieth only.
    hold(&mut sim, StockKind::Food, 25_000);
    sim.tick(1_000_000);
    assert_eq!(amount(&sim, StockKind::Food), 0);
    assert_eq!(sim.effects[FOLLOWER_EFFECT].consumption_fullfilled().as_millionths(), 250_000);
    assert_eq!(amount(&sim, StockKind::Godpower), 10 * UNIT + 125_000);
    sim.tick(1_000_000);
    assert_eq!(amount(&sim, StockKind::Godpower), 10 * UNIT + 125_000);
}

#[test]
fn jobs_work_through_their_followers() {
    let mut sim = Simulation::new();
    hold(&mut sim, StockKind::Followers, 3 * UNIT);
    assert!(sim.apply(Command::AssignFollower(AssignFollower { job_kind: JobKind::ChopWood })));
    assert!(sim.apply(Command::AssignFollower(AssignFollower { job_kind: JobKind::ChopWood })));
    assert!(sim.apply(Command::AssignFollower(AssignFollower { job_kind: JobKind::Cook })));
    assert!(!sim.apply(Command::AssignFollower(AssignFollower { job_kind: JobKind::Cook })));
    assert_eq!(sim.followers_assigned.0, 3);
    hold(&mut sim, StockKind::Meat, UNIT);
    sim.tick(0);
    // Two wood cutters bring two units in a second. The cook finds meat
    // but no wood yet.
    assert_eq!(amount(&sim, StockKind::Wood), 100_000);
    assert_eq!(amount(&sim, StockKind::Food), 0);
    sim.tick(0);
    assert_eq!(amount(&sim, StockKind::Wood), 150_000);
    assert_eq!(amount(&sim, StockKind::Meat), UNIT - 50_000);
    assert_eq!(amount(&sim, StockKind::Food), 50_000);
    assert!(sim.apply(Command::UnassignFollower(UnassignFollower { job_kind: JobKind::Cook })));
    assert!(!sim.apply(Command::UnassignFollower(UnassignFollower { job_kind: JobKind::Cook })));
    assert_eq!(sim.followers_assigned.0, 2);
}

#[test]
fn commands_wait_in_the_queue() {
    let mut sim = Simulation::new();
    sim.enqueue(Command::LearnAction(LearnAction { action: Action::GatherStone }));
    sim.enqueue(Command::ChangeAction(ChangeAction::new(Action::Explore)));
    sim.enqueue(Command::ChangeAction(ChangeAction::new(Action::Explore)));
    sim.enqueue(Command::AssignFollower(AssignFollower { job_kind: JobKind::Hunt }));
    sim.enqueue(Command::ResetPlayerAction);
    assert_eq!(sim.queue.len(), 5);
    assert_eq!(sim.current_action.0, None);
    assert!(!sim.known_actions.knows(Action::GatherStone));
    assert_eq!(sim.apply_queued(), 3);
    assert!(sim.queue.is_empty());
    assert!(sim.known_actions.knows(Action::GatherStone));
    assert_eq!(sim.current_action.0, None);
    assert_eq!(sim.apply_queued(), 0);
}

#[test]
fn first_exploration_teaches_gathering_and_ends_the_action() {
    let mut sim = Simulation::new();
    assert!(take_up(&mut sim, Action::Explore));
    assert_eq!(sim.progress(4 * SECOND), ProgressOutcome::Nothing);
    assert_eq!(sim.current_action.0, Some(Action::Explore));
    assert_eq!(sim.progress(SECOND), ProgressOutcome::FirstExploration);
    assert_eq!(sim.current_action.0, None);
    assert!(sim.known_actions.knows(Action::GatherWood));
    assert!(sim.known_actions.knows(Action::GatherStone));
    assert_eq!(amount(&sim, StockKind::BranchesAndPebbles), UNIT);
    assert_eq!(sim.progress(60 * SECOND), ProgressOutcome::Nothing);
}

#[test]
fn creating_followers_takes_half_a_minute_each() {
    let mut sim = Simulation::new();
    assert!(take_up(&mut sim, Action::CreateFollowers));
    assert_eq!(sim.progress(30 * SECOND), ProgressOutcome::FollowerCreated);
    assert_eq!(amount(&sim, StockKind::Followers), UNIT);
    assert_eq!(amount(&sim, StockKind::Godpower), 0);
    assert_eq!(sim.current_action.0, None);
}

#[test]
fn steps_of_a_tick_can_be_run_one_by_one() {
    let mut by_steps = Simulation::new();
    let mut at_once = Simulation::new();
    for sim in [&mut by_steps, &mut at_once] {
        hold(sim, StockKind::Followers, 4 * UNIT);
        hold(sim, StockKind::Food, 30_000);
        hold(sim, StockKind::Carcass, 3_000);
        assert!(take_up(sim, Action::RenderCarcass));
        assert!(sim.apply(Command::AssignFollower(AssignFollower { job_kind: JobKind::Hunt })));
    }
    for _ in 0..3 {
        let open = by_steps.stockyard.gate_open();
        demand_phase(&mut by_steps.effects, &by_steps.action_spc, &by_steps.jobs, open);
        clear_phase(&mut by_steps.stockyard, &mut by_steps.effects);
        derived_update_phase(
            &by_steps.stockyard,
            &mut by_steps.effects,
            &by_steps.action_spc,
            &by_steps.jobs,
            open,
            0,
        );
        produce_phase(&mut by_steps.stockyard, &by_steps.effects);
        run_tick(
            &mut at_once.stockyard,
            &mut at_once.effects,
            &at_once.action_spc,
            &at_once.jobs,
            0,
        );
        for kind in StockKind::list() {
            assert_eq!(amount(&by_steps, kind), amount(&at_once, kind));
        }
    }
    // The first tick finds three tenths of what rendering asks for; the
    // hunter brings a unit in a second from then on.
    assert_eq!(amount(&at_once, StockKind::Meat), 23_000);
    assert_eq!(amount(&at_once, StockKind::Carcass), 130_000);
}

#[test]
fn stocks_stay_within_their_limits_over_many_ticks() {
    let mut sim = Simulation::new();
    hold(&mut sim, StockKind::Followers, 10 * UNIT);
    sim.stats.hunt =
        PlayerActionStats { base_gain_per_second: PerSecond(150_000_000), affinity: Affinity::new() };
    assert!(take_up(&mut sim, Action::Hunt));
    for job in [JobKind::ChopWood, JobKind::Hunt, JobKind::RenderCarcass, JobKind::Cook] {
        assert!(sim.apply(Command::AssignFollower(AssignFollower { job_kind: job })));
        assert!(sim.apply(Command::AssignFollower(AssignFollower { job_kind: job })));
    }
    for _ in 0..2_000 {
        sim.tick(1_000_000);
        for kind in StockKind::list() {
            let stock = sim.stockyard.get(kind);
            if let Some(limit) = stock.limit() {
                assert!(stock.amount() <= limit);
            }
        }
    }
    assert_eq!(amount(&sim, StockKind::Carcass), 10 * UNIT);
    assert!(amount(&sim, StockKind::Godpower) > 10 * UNIT);
}

#[test]
fn steps_of_a_tick_can_be_run_by_their_names() {
    let mut by_names = Simulation::new();
    let mut at_once = Simulation::new();
    for sim in [&mut by_names, &mut at_once] {
        hold(sim, StockKind::Followers, 10 * UNIT);
        hold(sim, StockKind::Food, 50 * UNIT);
        assert!(take_up(sim, Action::Hunt));
        assert!(sim.apply(Command::AssignFollower(AssignFollower { job_kind: JobKind::ChopWood })));
    }
    for _ in 0..5 {
        let open = by_names.stockyard.gate_open();
        for phase in phase_order() {
            run_phase(
                phase,
                &mut by_names.stockyard,
                &mut by_names.effects,
                &by_names.action_spc,
                &by_names.jobs,
                open,
                1_301_030,
            );
        }
        at_once.tick(1_301_030);
        for kind in StockKind::list() {
            assert_eq!(amount(&by_names, kind), amount(&at_once, kind));
        }
    }
    // Ten followers eat two units in a second and raise one more than the
    // logarithm handed in for them; the first tick sets the rates.
    assert_eq!(amount(&at_once, StockKind::Food), 50 * UNIT - 4 * 100_000);
    assert_eq!(amount(&at_once, StockKind::Godpower), 10 * UNIT + 5 * 115_051);
    assert_eq!(amount(&at_once, StockKind::Wood), 5 * 50_000);
}
