//! Changing the action of the player.

use vstd::prelude::*;
use crate::action::spc::PlayerActionSpc;
use crate::action::{Action, ActionAffinity, ActionProgress, AffinityTimer, CurrentAction};
use crate::fixed::PerSecond;
use crate::stats::PlayerActionsStats;
use crate::stock::producer_consumer::Rates;
use crate::stock::stockyard::Stockyard;
use crate::stock::StockKind;

verus! {

/// The player takes up an action.
#[derive(Debug, Clone, Copy)]
pub struct ChangeAction {
    pub action: Action,
}

impl ChangeAction {
    /// The player takes up `action`.
    pub fn new(action: Action) -> (r: ChangeAction)
        ensures
            r.action == action,
    {
        ChangeAction { action }
    }
}

/// The player lays the current action down.
#[derive(Debug, Clone, Copy)]
pub struct ResetPlayerAction;

/// What an action changes in a second, kind by kind.
///
/// Gathering and hunting gain what the player's equipment gives. Rendering
/// turns a fifth of a carcass into as much meat and a fifth of that in
/// bones; cooking turns a fifth of a unit of meat and of wood into as much
/// food.
pub open spec fn action_changes(action: Action, stats: PlayerActionsStats) -> Rates {
    match action {
        Action::Explore => seq![],
        Action::GatherWood => seq![(StockKind::Wood, stats.gather_wood.base_gain_per_second)],
        Action::GatherStone => seq![(StockKind::Stone, stats.gather_stone.base_gain_per_second)],
        Action::Hunt => seq![(StockKind::Carcass, stats.hunt.base_gain_per_second)],
        Action::RenderCarcass => seq![
            (StockKind::Carcass, PerSecond(-200_000i64)),
            (StockKind::Meat, PerSecond(200_000)),
            (StockKind::Bone, PerSecond(40_000)),
        ],
        Action::CookMeat => seq![
            (StockKind::Meat, PerSecond(-200_000i64)),
            (StockKind::Wood, PerSecond(-200_000i64)),
            (StockKind::Food, PerSecond(200_000)),
        ],
        Action::CreateFollowers => seq![],
    }
}

/// The kinds of stock that an action uses up, and without which it is
/// held.
pub open spec fn action_gate(action: Action) -> Option<Seq<StockKind>> {
    match action {
        Action::RenderCarcass => Some(seq![StockKind::Carcass]),
        Action::CookMeat => Some(seq![StockKind::Meat, StockKind::Wood]),
        _ => None,
    }
}

/// Whether the second state is the first with the current action laid
/// down: its progress, the affinity in force, the check timer, the changes
/// that it made and any gate that it set are all cleared. The stocks stay
/// as they are.
pub open spec fn laid_down(
    progress: ActionProgress,
    affinity: ActionAffinity,
    timer: AffinityTimer,
    stockyard: Stockyard,
    end_progress: ActionProgress,
    end_affinity: ActionAffinity,
    end_timer: AffinityTimer,
    end_current: CurrentAction,
    end_spc: PlayerActionSpc,
    end_stockyard: Stockyard,
) -> bool {
    &&& end_progress.elapsed == 0
    &&& end_progress.time == progress.time
    &&& end_affinity.timer.is_none()
    &&& end_affinity.affinity == affinity.affinity
    &&& end_timer.0 == timer.0.started_over()
    &&& end_current.0.is_none()
    &&& !end_spc.has_affinity()
    &&& end_spc.multiplier_of_affinity() == 0
    &&& end_spc.changes().len() == 0
    &&& end_stockyard.gate().is_none()
    &&& forall|kind: StockKind| end_stockyard.stock(kind) == stockyard.stock(kind)
}

/// Whether the second state is the first with an action taken up that was
/// not the current one.
///
/// The new action starts from nothing: no progress, no affinity in force,
/// the changes that it makes, and a gate of the kinds that it names. For an action
/// with figures of its own the affinity of the player for it is taken over
/// and the check timer runs from nothing; for any other the check timer
/// is started over and stays as held as it was. The stocks stay as they
/// are.
pub open spec fn taken_up(
    action: Action,
    stats: PlayerActionsStats,
    affinity: ActionAffinity,
    timer: AffinityTimer,
    stockyard: Stockyard,
    end_current: CurrentAction,
    end_progress: ActionProgress,
    end_affinity: ActionAffinity,
    end_timer: AffinityTimer,
    end_spc: PlayerActionSpc,
    end_stockyard: Stockyard,
) -> bool {
    &&& end_current.0 == Some(action)
    &&& end_progress.elapsed == 0
    &&& end_progress.time == action.spec_progress_time()
    &&& end_affinity.timer.is_none()
    &&& end_spc.changes() == action_changes(action, stats)
    &&& !end_spc.has_affinity()
    &&& end_stockyard.gate() == action_gate(action)
    &&& forall|kind: StockKind| end_stockyard.stock(kind) == stockyard.stock(kind)
    &&& match stats.spec_bonuses(action) {
        Some(bonuses) => {
            &&& end_affinity.affinity == bonuses.affinity
            &&& end_spc.multiplier_of_affinity() == bonuses.affinity.multiplier
            &&& end_timer.0 == timer.0.started_over().held(false)
        },
        None => {
            &&& end_affinity.affinity == affinity.affinity
            &&& end_spc.multiplier_of_affinity() == 0
            &&& end_timer.0 == timer.0.started_over()
        },
    }
}

/// Laying the action down leaves no affinity to check. Taking an action
/// up arms its affinity from nothing where the action has figures of its
/// own, and leaves none to check where it has not; no multiplier is in
/// force either way.
pub proof fn lemma_change_rearms(
    action: Action,
    stats: PlayerActionsStats,
    affinity: ActionAffinity,
    timer: AffinityTimer,
    stockyard: Stockyard,
    end_current: CurrentAction,
    end_progress: ActionProgress,
    end_affinity: ActionAffinity,
    end_timer: AffinityTimer,
    end_spc: PlayerActionSpc,
    end_stockyard: Stockyard,
)
    requires
        taken_up(
            action,
            stats,
            affinity,
            timer,
            stockyard,
            end_current,
            end_progress,
            end_affinity,
            end_timer,
            end_spc,
            end_stockyard,
        ),
    ensures
        crate::action::spec_affinity_state(end_current, end_affinity) == if action.spec_is_passive() {
            crate::action::AffinityState::Armed
        } else {
            crate::action::AffinityState::Inactive
        },
        end_spc.spec_affinity_multiplier() == crate::fixed::UNIT,
        end_timer.0.elapsed() == 0,
        action.spec_is_passive() ==> !end_timer.0.paused(),
{
    timer.0.lemma_started_over();
    timer.0.started_over().lemma_held(false);
}

/// Lays the current action down: its progress, the affinity in force, the
/// check timer, the changes that it made and any gate that it set are all
/// cleared.
pub fn reset_player_action(
    action_progress: &mut ActionProgress,
    action_affinity: &mut ActionAffinity,
    affinity_timer: &mut AffinityTimer,
    current_action: &mut CurrentAction,
    action_spc: &mut PlayerActionSpc,
    stockyard: &mut Stockyard,
)
    ensures
        laid_down(
            *old(action_progress),
            *old(action_affinity),
            *old(affinity_timer),
            *old(stockyard),
            *final(action_progress),
            *final(action_affinity),
            *final(affinity_timer),
            *final(current_action),
            *final(action_spc),
            *final(stockyard),
        ),
        final(affinity_timer).0.wf(),
        final(action_affinity).wf(),
        old(stockyard).wf() ==> final(stockyard).wf(),
{
    action_progress.reset();
    action_affinity.reset();
    affinity_timer.0.reset();
    current_action.reset();
    action_spc.reset();
    stockyard.clear_gate();
}

/// Lays the current action down on the player's word.
pub fn on_reset_player_action(
    _event: &ResetPlayerAction,
    action_progress: &mut ActionProgress,
    action_affinity: &mut ActionAffinity,
    affinity_timer: &mut AffinityTimer,
    current_action: &mut CurrentAction,
    action_spc: &mut PlayerActionSpc,
    stockyard: &mut Stockyard,
)
    ensures
        laid_down(
            *old(action_progress),
            *old(action_affinity),
            *old(affinity_timer),
            *old(stockyard),
            *final(action_progress),
            *final(action_affinity),
            *final(affinity_timer),
            *final(current_action),
            *final(action_spc),
            *final(stockyard),
        ),
        final(affinity_timer).0.wf(),
        final(action_affinity).wf(),
        old(stockyard).wf() ==> final(stockyard).wf(),
{
    reset_player_action(
        action_progress,
        action_affinity,
        affinity_timer,
        current_action,
        action_spc,
        stockyard,
    );
}

/// Takes up the action of the event, unless it is the current one already.
///
/// The current action is laid down first, so that any affinity in force
/// ends. The new action starts from nothing: its changes are set, and for
/// a passive action the affinity of the player for it is taken over and the
/// check timer is started anew. An action that uses stocks up names them
/// as the stockyard's gate.
pub fn on_change_action(
    event: &ChangeAction,
    player_action_bonuses: &PlayerActionsStats,
    current_action: &mut CurrentAction,
    action_progress: &mut ActionProgress,
    action_affinity: &mut ActionAffinity,
    affinity_timer: &mut AffinityTimer,
    spc: &mut PlayerActionSpc,
    stockyard: &mut Stockyard,
)
    ensures
        forall|kind: StockKind| final(stockyard).stock(kind) == old(stockyard).stock(kind),
        old(stockyard).wf() ==> final(stockyard).wf(),
        old(current_action).0 == Some(event.action) ==> {
            &&& *final(current_action) == *old(current_action)
            &&& *final(action_progress) == *old(action_progress)
            &&& *final(action_affinity) == *old(action_affinity)
            &&& *final(affinity_timer) == *old(affinity_timer)
            &&& *final(spc) == *old(spc)
            &&& *final(stockyard) == *old(stockyard)
        },
        old(current_action).0 != Some(event.action) ==> final(affinity_timer).0.wf()
            && final(action_affinity).wf() && taken_up(
            event.action,
            *player_action_bonuses,
            *old(action_affinity),
            *old(affinity_timer),
            *old(stockyard),
            *final(current_action),
            *final(action_progress),
            *final(action_affinity),
            *final(affinity_timer),
            *final(spc),
            *final(stockyard),
        ),
{
    // The action is the current one already.
    match current_action.0 {
        Some(action) => {
            if action == event.action {
                return ;
            }
        },
        None => {},
    }
    reset_player_action(
        action_progress,
        action_affinity,
        affinity_timer,
        current_action,
        spc,
        stockyard,
    );
    current_action.set(event.action);
    action_progress.time = event.action.progress_time();
    match event.action {
        Action::Explore => {},
        Action::GatherWood => {
            let bonuses = &player_action_bonuses.gather_wood;
            spc.push_change(StockKind::Wood, bonuses.base_gain_per_second);
            spc.set_affinity_multiplier(bonuses.affinity.multiplier);
            action_affinity.affinity = bonuses.affinity;
            affinity_timer.0.unpause();
        },
        Action::GatherStone => {
            let bonuses = &player_action_bonuses.gather_stone;
            spc.push_change(StockKind::Stone, bonuses.base_gain_per_second);
            spc.set_affinity_multiplier(bonuses.affinity.multiplier);
            action_affinity.affinity = bonuses.affinity;
            affinity_timer.0.unpause();
        },
        Action::Hunt => {
            let bonuses = &player_action_bonuses.hunt;
            spc.push_change(StockKind::Carcass, bonuses.base_gain_per_second);
            spc.set_affinity_multiplier(bonuses.affinity.multiplier);
            action_affinity.affinity = bonuses.affinity;
            affinity_timer.0.unpause();
        },
        Action::RenderCarcass => {
            spc.push_change(StockKind::Carcass, PerSecond(-200_000));
            spc.push_change(StockKind::Meat, PerSecond(200_000));
            spc.push_change(StockKind::Bone, PerSecond(40_000));
            let mut gate: Vec<StockKind> = Vec::new();
            gate.push(StockKind::Carcass);
            stockyard.set_gate(gate);
        },
        Action::CookMeat => {
            spc.push_change(StockKind::Meat, PerSecond(-200_000));
            spc.push_change(StockKind::Wood, PerSecond(-200_000));
            spc.push_change(StockKind::Food, PerSecond(200_000));
            let mut gate: Vec<StockKind> = Vec::new();
            gate.push(StockKind::Meat);
            gate.push(StockKind::Wood);
            stockyard.set_gate(gate);
        },
        Action::CreateFollowers => {},
    }
    proof {
        assert(final(spc).changes() =~= action_changes(event.action, *player_action_bonuses));
        match action_gate(event.action) {
            Some(kinds) => {
                assert(final(stockyard).gate().unwrap() =~= kinds);
            },
            None => {},
        }
    }
}

} // verus!
