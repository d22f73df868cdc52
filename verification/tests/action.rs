use incremental_affix::action::change::{
    on_change_action, on_reset_player_action, reset_player_action, ChangeAction,
    ResetPlayerAction,
};
use incremental_affix::action::spc::{
    changes_per_second, initialize_action_spc, postconsume, preconsume, PlayerActionSpc,
};
use incremental_affix::action::{
    affinity_check_system, affinity_check_system_with, affinity_state, on_learn_action,
    progress_system, Action, ActionAffinity, ActionProgress, AffinityState, AffinityTimer,
    CurrentAction, ExplorationProgress, KnownActions, LearnAction, ProgressOutcome, ACTION_COUNT,
    AFFINITY_CHECK_TIME, NO_CURRENT_ACTION_DISPLAY,
};
use incremental_affix::affinity::Affinity;
use incremental_affix::fixed::{PerSecond, UNIT};
use incremental_affix::stats::{PlayerActionStats, PlayerActionsStats};
use incremental_affix::stock::producer_consumer::StockyardProducerConsumer;
use incremental_affix::stock::stockyard::Stockyard;
use incremental_affix::stock::StockKind;

const SECOND: u64 = 1_000_000_000;

struct Player {
    current: CurrentAction,
    progress: ActionProgress,
    affinity: ActionAffinity,
    timer: AffinityTimer,
    spc: PlayerActionSpc,
    yard: Stockyard,
    stats: PlayerActionsStats,
}

fn player() -> Player {
    let mut stats = PlayerActionsStats::default();
    stats.gather_wood = PlayerActionStats {
        base_gain_per_second: PerSecond(500_000),
        affinity: Affinity { chance: UNIT, multiplier: 2 * UNIT, time: SECOND },
    };
    stats.hunt = PlayerActionStats {
        base_gain_per_second: PerSecond(100_000),
        affinity: Affinity { chance: 250_000, multiplier: 3 * UNIT, time: 2 * SECOND },
    };
    Player {
        current: CurrentAction::default(),
        progress: ActionProgress::default(),
        affinity: ActionAffinity::new(),
        timer: AffinityTimer::new(),
        spc: PlayerActionSpc::default(),
        yard: Stockyard::default(),
        stats,
    }
}

fn change(player: &mut Player, action: Action) {
    on_change_action(
        &ChangeAction::new(action),
        &player.stats,
        &mut player.current,
        &mut player.progress,
        &mut player.affinity,
        &mut player.timer,
        &mut player.spc,
        &mut player.yard,
    );
}

fn check(player: &mut Player, delta: u64, roll: u64) {
    affinity_check_system_with(
        delta,
        roll,
        &player.current,
        &mut player.timer,
        &mut player.affinity,
        &mut player.spc,
    );
}

#[test]
fn actions_are_what_they_are() {
    assert_eq!(Action::list().len(), ACTION_COUNT);
    for (place, action) in Action::list().iter().enumerate() {
        assert_eq!(action.index(), place);
    }
    assert!(Action::Explore.progresses());
    assert!(Action::CreateFollowers.progresses());
    assert!(!Action::Hunt.progresses());
    assert!(Action::GatherWood.is_passive());
    assert!(Action::GatherStone.is_passive());
    assert!(Action::Hunt.is_passive());
    assert!(!Action::CookMeat.is_passive());
    assert!(!Action::Explore.is_passive());
    assert_eq!(Action::CreateFollowers.progress_time(), 30 * SECOND);
    assert_eq!(Action::Explore.progress_time(), 5 * SECOND);
    assert_eq!(Action::RenderCarcass.name(), "Render Carcasses");
    assert_eq!(Action::GatherWood.name(), "Gather Wood");
    assert_eq!(CurrentAction(None).name(), NO_CURRENT_ACTION_DISPLAY);
    assert_eq!(CurrentAction(None).name(), "Doing Nothing");
    assert_eq!(CurrentAction(Some(Action::CookMeat)).name(), "Cook Meat");
}

#[test]
fn player_knows_five_actions_at_the_start_and_learns_more() {
    let mut known = KnownActions::default();
    assert!(known.knows(Action::Explore));
    assert!(known.knows(Action::CreateFollowers));
    assert!(known.knows(Action::Hunt));
    assert!(known.knows(Action::RenderCarcass));
    assert!(known.knows(Action::CookMeat));
    assert!(!known.knows(Action::GatherWood));
    assert!(!known.knows(Action::GatherStone));
    on_learn_action(&LearnAction { action: Action::GatherWood }, &mut known);
    assert!(known.knows(Action::GatherWood));
    assert!(!known.knows(Action::GatherStone));
}

#[test]
fn taking_up_an_action_sets_its_changes() {
    let mut player = player();
    change(&mut player, Action::RenderCarcass);
    assert_eq!(player.current.0, Some(Action::RenderCarcass));
    assert_eq!(player.progress.time, 5 * SECOND);
    assert_eq!(
        changes_per_second(&player.spc),
        vec![
            (StockKind::Carcass, PerSecond(-200_000)),
            (StockKind::Meat, PerSecond(200_000)),
            (StockKind::Bone, PerSecond(40_000)),
        ]
    );
    assert!(!player.yard.gate_open());
    change(&mut player, Action::CookMeat);
    assert_eq!(
        changes_per_second(&player.spc),
        vec![
            (StockKind::Meat, PerSecond(-200_000)),
            (StockKind::Wood, PerSecond(-200_000)),
            (StockKind::Food, PerSecond(200_000)),
        ]
    );
    change(&mut player, Action::Explore);
    assert!(changes_per_second(&player.spc).is_empty());
    assert!(player.yard.gate_open());
    change(&mut player, Action::CreateFollowers);
    assert_eq!(player.progress.time, 30 * SECOND);
}

#[test]
fn taking_up_a_passive_action_takes_over_its_affinity() {
    let mut player = player();
    change(&mut player, Action::Hunt);
    assert_eq!(changes_per_second(&player.spc), vec![(StockKind::Carcass, PerSecond(100_000))]);
    assert_eq!(player.affinity.affinity.chance, 250_000);
    assert_eq!(player.affinity.affinity.multiplier, 3 * UNIT);
    assert_eq!(player.affinity.affinity.time, 2 * SECOND);
    assert!(!player.timer.0.is_paused());
    assert_eq!(player.spc.affinity_multiplier(), UNIT);
    player.spc.enable_affinity();
    assert_eq!(player.spc.affinity_multiplier(), 3 * UNIT);
    assert_eq!(changes_per_second(&player.spc), vec![(StockKind::Carcass, PerSecond(300_000))]);
}

#[test]
fn taking_up_the_current_action_changes_nothing() {
    let mut player = player();
    change(&mut player, Action::GatherWood);
    player.progress.elapsed = 17;
    check(&mut player, 5 * SECOND - 1, 0);
    check(&mut player, 1, 0);
    assert!(player.spc.affinity_enabled());
    change(&mut player, Action::GatherWood);
    assert_eq!(player.progress.elapsed, 17);
    assert!(player.spc.affinity_enabled());
    assert!(player.affinity.timer.is_some());
}

#[test]
fn changing_the_action_ends_the_affinity_in_force() {
    let mut player = player();
    change(&mut player, Action::GatherWood);
    check(&mut player, 5 * SECOND - 1, 0);
    check(&mut player, 1, 0);
    assert!(player.spc.affinity_enabled());
    change(&mut player, Action::Hunt);
    assert!(!player.spc.affinity_enabled());
    assert!(player.affinity.timer.is_none());
    assert_eq!(player.affinity.time_left(), 0);
    assert_eq!(player.timer.0.elapsed_nanos(), 0);
    assert_eq!(player.progress.elapsed, 0);
}

#[test]
fn laying_the_action_down_clears_everything() {
    let mut player = player();
    change(&mut player, Action::CookMeat);
    player.progress.elapsed = 99;
    reset_player_action(
        &mut player.progress,
        &mut player.affinity,
        &mut player.timer,
        &mut player.current,
        &mut player.spc,
        &mut player.yard,
    );
    assert_eq!(player.current.0, None);
    assert_eq!(player.progress.elapsed, 0);
    assert!(changes_per_second(&player.spc).is_empty());
    assert!(player.yard.gate_open());
    change(&mut player, Action::GatherWood);
    on_reset_player_action(
        &ResetPlayerAction,
        &mut player.progress,
        &mut player.affinity,
        &mut player.timer,
        &mut player.current,
        &mut player.spc,
        &mut player.yard,
    );
    assert_eq!(player.current.0, None);
    assert_eq!(player.spc.affinity_multiplier(), UNIT);
}

#[test]
fn certain_affinity_triggers_at_its_first_check_and_ends_on_time() {
    let mut player = player();
    change(&mut player, Action::GatherWood);
    assert_eq!(AFFINITY_CHECK_TIME, 5 * SECOND);
    // Nothing before the first check is due.
    check(&mut player, 5 * SECOND - 1, 999_999);
    assert!(!player.spc.affinity_enabled());
    assert_eq!(player.affinity.time_left(), 0);
    // The first check is due: with a chance of one it succeeds on the
    // highest roll that there is.
    check(&mut player, 1, 999_999);
    assert!(player.spc.affinity_enabled());
    assert_eq!(player.spc.affinity_multiplier(), 2 * UNIT);
    assert_eq!(player.affinity.time_left(), SECOND - 1);
    // It lasts until its time is up, and no longer.
    check(&mut player, SECOND - 2, 0);
    assert!(player.spc.affinity_enabled());
    assert_eq!(player.affinity.time_left(), 1);
    check(&mut player, 1, 0);
    assert!(!player.spc.affinity_enabled());
    assert_eq!(player.spc.affinity_multiplier(), UNIT);
    assert!(player.affinity.timer.is_none());
    assert_eq!(player.affinity.time_left(), 0);
    assert_eq!(changes_per_second(&player.spc), vec![(StockKind::Wood, PerSecond(500_000))]);
}

#[test]
fn affinity_check_fails_on_a_roll_at_or_above_the_chance() {
    let mut player = player();
    change(&mut player, Action::Hunt);
    check(&mut player, 5 * SECOND - 1, 0);
    check(&mut player, 1, 250_000);
    assert!(!player.spc.affinity_enabled());
    check(&mut player, 5 * SECOND - 1, 0);
    check(&mut player, 1, 249_999);
    assert!(player.spc.affinity_enabled());
    assert_eq!(player.affinity.time_left(), 2 * SECOND - 1);
}

#[test]
fn affinity_that_is_shorter_than_the_frame_ends_within_it() {
    let mut player = player();
    change(&mut player, Action::GatherWood);
    check(&mut player, 5 * SECOND, 0);
    assert!(!player.spc.affinity_enabled());
    assert!(player.affinity.timer.is_none());
    assert_eq!(player.timer.0.elapsed_nanos(), 0);
}

#[test]
fn affinity_that_outlasts_the_frame_stays_in_force() {
    let mut player = player();
    change(&mut player, Action::Hunt);
    check(&mut player, 4 * SECOND, 0);
    check(&mut player, SECOND, 0);
    assert!(player.spc.affinity_enabled());
    assert_eq!(player.affinity.time_left(), SECOND);
    check(&mut player, SECOND, 999_999);
    assert!(!player.spc.affinity_enabled());
}

#[test]
fn affinity_is_not_checked_for_an_action_that_is_not_passive() {
    let mut player = player();
    change(&mut player, Action::GatherWood);
    change(&mut player, Action::Explore);
    check(&mut player, 60 * SECOND, 0);
    assert!(!player.spc.affinity_enabled());
    assert_eq!(player.timer.0.elapsed_nanos(), 0);
    let mut idle = self::player();
    check(&mut idle, 60 * SECOND, 0);
    assert!(!idle.spc.affinity_enabled());
    assert!(idle.timer.0.is_paused());
}

#[test]
fn affinity_check_with_a_drawn_roll_is_certain_at_a_chance_of_one() {
    let mut player = player();
    change(&mut player, Action::GatherWood);
    for delta in [5 * SECOND - 1, 1] {
        affinity_check_system(
            delta,
            &player.current,
            &mut player.timer,
            &mut player.affinity,
            &mut player.spc,
        );
    }
    assert!(player.spc.affinity_enabled());
    assert_eq!(player.affinity.time_left(), SECOND - 1);
    let mut never = self::player();
    never.stats.gather_wood.affinity.chance = 0;
    change(&mut never, Action::GatherWood);
    for _ in 0..50 {
        affinity_check_system(
            SECOND,
            &never.current,
            &mut never.timer,
            &mut never.affinity,
            &mut never.spc,
        );
        assert!(!never.spc.affinity_enabled());
    }
}

#[test]
fn players_effect_asks_for_what_its_action_takes() {
    let mut player = player();
    change(&mut player, Action::CookMeat);
    let (_, mut effect) = initialize_action_spc();
    preconsume(&mut effect, &player.spc, true);
    assert_eq!(
        effect.consumes,
        vec![(StockKind::Meat, PerSecond(200_000)), (StockKind::Wood, PerSecond(200_000))]
    );
    postconsume(&mut effect, &player.spc, true);
    assert_eq!(effect.produces, vec![(StockKind::Food, PerSecond(200_000))]);
    assert_eq!(effect.active_multiplier(), None);
    preconsume(&mut effect, &player.spc, false);
    postconsume(&mut effect, &player.spc, false);
    assert!(effect.consumes.is_empty());
    assert!(effect.produces.is_empty());
}

#[test]
fn players_effect_carries_the_multiplier_of_an_affinity_in_force() {
    let mut spc = PlayerActionSpc::new();
    spc.push_change(StockKind::Wood, PerSecond(-100_000));
    spc.push_change(StockKind::Stone, PerSecond(300_000));
    spc.set_affinity_multiplier(2 * UNIT);
    spc.enable_affinity();
    let mut effect = StockyardProducerConsumer::default();
    preconsume(&mut effect, &spc, true);
    postconsume(&mut effect, &spc, true);
    assert_eq!(effect.consumes, vec![(StockKind::Wood, PerSecond(200_000))]);
    assert_eq!(effect.produces, vec![(StockKind::Stone, PerSecond(300_000))]);
    assert_eq!(effect.active_multiplier(), Some(2 * UNIT));
    spc.disable_affinity();
    postconsume(&mut effect, &spc, true);
    assert_eq!(effect.active_multiplier(), None);
    spc.reset();
    assert_eq!(spc.affinity_multiplier(), UNIT);
    assert!(changes_per_second(&spc).is_empty());
}

#[test]
fn progress_runs_and_starts_over_on_completion() {
    let mut yard = Stockyard::default();
    let mut explored = ExplorationProgress::default();
    let mut progress = ActionProgress { elapsed: 0, time: 5 * SECOND };
    let current = CurrentAction(Some(Action::Hunt));
    let outcome = progress_system(2 * SECOND, &mut progress, &current, &mut yard, &mut explored);
    assert_eq!(outcome, ProgressOutcome::Nothing);
    assert_eq!(progress.elapsed, 2 * SECOND);
    assert_eq!(progress.percent(), 400_000);
    let outcome = progress_system(4 * SECOND, &mut progress, &current, &mut yard, &mut explored);
    assert_eq!(outcome, ProgressOutcome::Nothing);
    assert_eq!(progress.elapsed, SECOND);
    assert_eq!(explored.0, 0);
}

#[test]
fn first_exploration_finds_branches_and_pebbles() {
    let mut yard = Stockyard::default();
    let mut explored = ExplorationProgress::default();
    let mut progress = ActionProgress { elapsed: 0, time: 5 * SECOND };
    let current = CurrentAction(Some(Action::Explore));
    let outcome = progress_system(5 * SECOND, &mut progress, &current, &mut yard, &mut explored);
    assert_eq!(outcome, ProgressOutcome::FirstExploration);
    assert_eq!(explored.0, 1);
    assert_eq!(yard.get(StockKind::BranchesAndPebbles).amount(), UNIT);
    let outcome = progress_system(5 * SECOND, &mut progress, &current, &mut yard, &mut explored);
    assert_eq!(outcome, ProgressOutcome::Nothing);
    assert_eq!(explored.0, 2);
    assert_eq!(yard.get(StockKind::BranchesAndPebbles).amount(), UNIT);
    let mut late = ExplorationProgress(u32::MAX);
    let outcome = progress_system(5 * SECOND, &mut progress, &current, &mut yard, &mut late);
    assert_eq!(outcome, ProgressOutcome::Nothing);
    assert_eq!(late.0, u32::MAX);
}

#[test]
fn creating_a_follower_costs_ten_godpower() {
    let mut yard = Stockyard::default();
    let mut explored = ExplorationProgress::default();
    let mut progress = ActionProgress { elapsed: 0, time: 30 * SECOND };
    let current = CurrentAction(Some(Action::CreateFollowers));
    let outcome = progress_system(29 * SECOND, &mut progress, &current, &mut yard, &mut explored);
    assert_eq!(outcome, ProgressOutcome::Nothing);
    let outcome = progress_system(SECOND, &mut progress, &current, &mut yard, &mut explored);
    assert_eq!(outcome, ProgressOutcome::FollowerCreated);
    assert_eq!(yard.get(StockKind::Followers).amount(), UNIT);
    assert_eq!(yard.get(StockKind::Godpower).amount(), 0);
    assert_eq!(progress.elapsed, 0);
}

#[test]
fn action_that_neither_progresses_nor_is_passive_stands_still() {
    let mut yard = Stockyard::default();
    let mut explored = ExplorationProgress::default();
    let mut progress = ActionProgress { elapsed: 3, time: 5 * SECOND };
    for current in [CurrentAction(Some(Action::CookMeat)), CurrentAction(None)] {
        let outcome =
            progress_system(60 * SECOND, &mut progress, &current, &mut yard, &mut explored);
        assert_eq!(outcome, ProgressOutcome::Nothing);
        assert_eq!(progress.elapsed, 3);
    }
    progress.reset();
    assert_eq!(progress.elapsed, 0);
    assert_eq!(ActionProgress { elapsed: 9, time: 0 }.percent(), UNIT);
    assert_eq!(ActionProgress { elapsed: 9, time: 4 }.percent(), UNIT);
}

#[test]
fn affinity_goes_from_inactive_to_armed_to_triggered_and_back() {
    let mut player = player();
    assert_eq!(affinity_state(&player.current, &player.affinity), AffinityState::Inactive);
    change(&mut player, Action::Explore);
    assert_eq!(affinity_state(&player.current, &player.affinity), AffinityState::Inactive);
    change(&mut player, Action::GatherWood);
    assert_eq!(affinity_state(&player.current, &player.affinity), AffinityState::Armed);
    check(&mut player, 5 * SECOND - 1, 0);
    assert_eq!(affinity_state(&player.current, &player.affinity), AffinityState::Armed);
    check(&mut player, 1, 0);
    assert_eq!(affinity_state(&player.current, &player.affinity), AffinityState::Triggered);
    check(&mut player, SECOND - 1, 0);
    assert_eq!(affinity_state(&player.current, &player.affinity), AffinityState::Armed);
    check(&mut player, 4 * SECOND, 0);
    check(&mut player, 1, 0);
    assert_eq!(affinity_state(&player.current, &player.affinity), AffinityState::Triggered);
    change(&mut player, Action::Hunt);
    assert_eq!(affinity_state(&player.current, &player.affinity), AffinityState::Armed);
    assert_eq!(player.timer.0.elapsed_nanos(), 0);
    change(&mut player, Action::CookMeat);
    assert_eq!(affinity_state(&player.current, &player.affinity), AffinityState::Inactive);
}

#[test]
fn players_effect_starts_from_nothing() {
    let (spc, effect) = initialize_action_spc();
    assert!(!spc.affinity_enabled());
    assert_eq!(spc.affinity_multiplier(), UNIT);
    assert!(changes_per_second(&spc).is_empty());
    assert!(effect.consumes.is_empty());
    assert!(effect.produces.is_empty());
    let fulfilled = effect.consumption_fullfilled();
    assert_eq!((fulfilled.numerator(), fulfilled.denominator()), (0, 1));
    assert_eq!(effect.active_multiplier(), None);
}
