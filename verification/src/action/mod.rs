//! The actions of the player.
//!
//! The player performs one action at a time.

pub mod change;
pub mod spc;

use vstd::prelude::*;
use crate::action::spc::PlayerActionSpc;
use crate::affinity::Affinity;
use crate::chance::{roll, succeeds};
use crate::fixed::UNIT;
use crate::stock::stockyard::Stockyard;
use crate::stock::{Stock, StockKind};
use crate::timer::{Timer, TimerMode};

verus! {

/// What is shown while the player performs no action.
pub const NO_CURRENT_ACTION_DISPLAY: &'static str = "Doing Nothing";

/// The number of actions.
pub const ACTION_COUNT: usize = 7;

/// The time between two checks of the affinity, in nanoseconds.
pub const AFFINITY_CHECK_TIME: u64 = 5_000_000_000;

/// An action that the player can perform.
#[derive(Debug, Clone, Copy, PartialEq, Eq, Structural, Hash)]
pub enum Action {
    Explore,
    GatherWood,
    GatherStone,
    Hunt,
    RenderCarcass,
    CookMeat,
    CreateFollowers,
}

impl Action {
    /// Whether the action works towards a result that comes when it is
    /// complete.
    pub open spec fn spec_progresses(self) -> bool {
        self == Action::Explore || self == Action::CreateFollowers
    }

    /// Whether the action raises a stock for as long as it lasts.
    pub open spec fn spec_is_passive(self) -> bool {
        self == Action::GatherWood || self == Action::GatherStone || self == Action::Hunt
    }

    /// The time that the action takes to complete, in nanoseconds.
    pub open spec fn spec_progress_time(self) -> u64 {
        if self == Action::CreateFollowers {
            30_000_000_000
        } else {
            5_000_000_000
        }
    }

    /// The place of the action in the list of actions.
    pub open spec fn spec_index(self) -> int {
        match self {
            Action::Explore => 0,
            Action::GatherWood => 1,
            Action::GatherStone => 2,
            Action::Hunt => 3,
            Action::RenderCarcass => 4,
            Action::CookMeat => 5,
            Action::CreateFollowers => 6,
        }
    }

    /// Every action, in the order in which the player sees them.
    pub fn list() -> (r: [Action; 7])
        ensures
            r@ == seq![
                Action::Explore,
                Action::GatherWood,
                Action::GatherStone,
                Action::Hunt,
                Action::RenderCarcass,
                Action::CookMeat,
                Action::CreateFollowers,
            ],
    {
        [
            Action::Explore,
            Action::GatherWood,
            Action::GatherStone,
            Action::Hunt,
            Action::RenderCarcass,
            Action::CookMeat,
            Action::CreateFollowers,
        ]
    }

    /// The place of the action in the list of actions.
    pub fn index(self) -> (r: usize)
        ensures
            r == self.spec_index(),
            r < ACTION_COUNT,
    {
        match self {
            Action::Explore => 0,
            Action::GatherWood => 1,
            Action::GatherStone => 2,
            Action::Hunt => 3,
            Action::RenderCarcass => 4,
            Action::CookMeat => 5,
            Action::CreateFollowers => 6,
        }
    }

    /// Whether the action works towards a result that comes when it is
    /// complete.
    pub fn progresses(&self) -> (r: bool)
        ensures
            r == self.spec_progresses(),
    {
        match self {
            Action::Explore => true,
            Action::CreateFollowers => true,
            _ => false,
        }
    }

    /// Whether the action raises a stock for as long as it lasts.
    pub fn is_passive(self) -> (r: bool)
        ensures
            r == self.spec_is_passive(),
    {
        match self {
            Action::GatherWood | Action::GatherStone | Action::Hunt => true,
            _ => false,
        }
    }

    /// The time that the action takes to complete, in nanoseconds.
    pub fn progress_time(self) -> (r: u64)
        ensures
            r == self.spec_progress_time(),
    {
        match self {
            Action::CreateFollowers => 30_000_000_000,
            _ => 5_000_000_000,
        }
    }

    /// The name of the action as the player reads it.
    pub fn name(&self) -> (r: &'static str)
        ensures
            r@ == self.spec_name(),
    {
        match self {
            Action::Explore => "Explore",
            Action::GatherWood => "Gather Wood",
            Action::GatherStone => "Gather Stone",
            Action::Hunt => "Hunt",
            Action::RenderCarcass => "Render Carcasses",
            Action::CookMeat => "Cook Meat",
            Action::CreateFollowers => "Create Followers",
        }
    }

    /// The name of the action as the player reads it.
    pub open spec fn spec_name(self) -> Seq<char> {
        match self {
            Action::Explore => "Explore"@,
            Action::GatherWood => "Gather Wood"@,
            Action::GatherStone => "Gather Stone"@,
            Action::Hunt => "Hunt"@,
            Action::RenderCarcass => "Render Carcasses"@,
            Action::CookMeat => "Cook Meat"@,
            Action::CreateFollowers => "Create Followers"@,
        }
    }
}

/// How far the current action has come.
#[derive(Debug, Clone, Copy)]
pub struct ActionProgress {
    /// The time for which the action has run since it last completed, in
    /// nanoseconds.
    pub elapsed: u64,
    /// The time that the action takes to complete, in nanoseconds.
    pub time: u64,
}

impl ActionProgress {
    /// Starts the action over.
    pub fn reset(&mut self)
        ensures
            final(self).elapsed == 0,
            final(self).time == old(self).time,
    {
        self.elapsed = 0;
    }

    /// The part of the action that is done, in millionths. An action that
    /// takes no time counts as done.
    pub open spec fn spec_percent(self) -> nat {
        if self.time == 0 || self.elapsed >= self.time {
            UNIT as nat
        } else {
            (self.elapsed as nat * UNIT as nat) / (self.time as nat)
        }
    }

    /// The part of the action that is done, in millionths.
    pub fn percent(&self) -> (r: u64)
        ensures
            r == self.spec_percent(),
            r <= UNIT,
    {
        if self.time == 0 || self.elapsed >= self.time {
            1_000_000
        } else {
            let wide: u128 = crate::fixed::wide_product(self.elapsed, 1_000_000);
            let part: u128 = wide / (self.time as u128);
            proof {
                let fraction = crate::fixed::Fraction { num: self.elapsed, den: self.time };
                crate::fixed::lemma_of_at_most(fraction, UNIT as nat);
                assert(self.elapsed as nat * UNIT as nat == UNIT as nat * self.elapsed as nat)
                    by (nonlinear_arith);
            }
            part as u64
        }
    }
}

impl Default for ActionProgress {
    fn default() -> (r: ActionProgress)
        ensures
            r.elapsed == 0,
            r.time == 0,
    {
        ActionProgress { elapsed: 0, time: 0 }
    }
}

/// The action that the player performs, if any.
#[derive(Debug, Clone, Copy)]
pub struct CurrentAction(pub Option<Action>);

impl CurrentAction {
    /// Makes `action` the current one.
    pub fn set(&mut self, action: Action)
        ensures
            final(self).0 == Some(action),
    {
        self.0 = Some(action)
    }

    /// Leaves the player without an action.
    pub fn reset(&mut self)
        ensures
            final(self).0.is_none(),
    {
        self.0 = None;
    }

    /// What the player reads of the current action.
    pub fn name(&self) -> (r: &'static str)
        ensures
            r@ == match self.0 {
                Some(action) => action.spec_name(),
                None => NO_CURRENT_ACTION_DISPLAY@,
            },
    {
        match self.0 {
            None => NO_CURRENT_ACTION_DISPLAY,
            Some(action) => action.name(),
        }
    }
}

impl Default for CurrentAction {
    fn default() -> (r: CurrentAction)
        ensures
            r.0.is_none(),
    {
        CurrentAction(None)
    }
}

/// The actions that the player knows.
#[derive(Debug)]
pub struct KnownActions {
    known: Vec<bool>,
}

impl KnownActions {
    /// Whether the player knows an action.
    pub closed spec fn contains(self, action: Action) -> bool {
        self.known@[action.spec_index()]
    }

    /// An entry is kept for every action.
    pub closed spec fn wf(self) -> bool {
        self.known@.len() == ACTION_COUNT
    }

    /// Whether the player knows an action.
    pub fn knows(&self, action: Action) -> (r: bool)
        requires
            self.wf(),
        ensures
            r == self.contains(action),
    {
        self.known[action.index()]
    }

    /// Makes an action known to the player.
    pub fn insert(&mut self, action: Action)
        requires
            old(self).wf(),
        ensures
            final(self).wf(),
            final(self).contains(action),
            forall|other: Action| other != action ==> final(self).contains(other) == old(self).contains(other),
    {
        self.known.set(action.index(), true);
    }
}

impl Default for KnownActions {
    /// What the player knows at the start: to explore, to create
    /// followers, to hunt, to render carcasses and to cook meat.
    fn default() -> (r: KnownActions)
        ensures
            r.wf(),
            forall|action: Action| #[trigger]
                r.contains(action) == (action != Action::GatherWood && action
                    != Action::GatherStone),
    {
        let mut known: Vec<bool> = Vec::new();
        known.push(true);
        known.push(false);
        known.push(false);
        known.push(true);
        known.push(true);
        known.push(true);
        known.push(true);
        KnownActions { known }
    }
}

/// The player learns an action.
#[derive(Debug, Clone, Copy)]
pub struct LearnAction {
    pub action: Action,
}

/// Makes the action of the event known to the player.
pub fn on_learn_action(event: &LearnAction, known_actions: &mut KnownActions)
    requires
        old(known_actions).wf(),
    ensures
        final(known_actions).wf(),
        final(known_actions).contains(event.action),
        forall|other: Action| other != event.action ==> final(known_actions).contains(other)
            == old(known_actions).contains(other),
{
    known_actions.insert(event.action);
}

/// How often the player has explored with success.
#[derive(Debug, Clone, Copy, PartialEq, Eq, Structural)]
pub struct ExplorationProgress(pub u32);

impl Default for ExplorationProgress {
    fn default() -> (r: ExplorationProgress)
        ensures
            r.0 == 0,
    {
        ExplorationProgress(0)
    }
}

/// What a step of progress asks the game to do besides the changes that it
/// has made itself.
#[derive(Debug, Clone, Copy, PartialEq, Eq, Structural)]
pub enum ProgressOutcome {
    /// Nothing.
    Nothing,
    /// The first exploration has ended: the player has found branches and
    /// pebbles. The game tells the player so, lets the player learn to
    /// gather wood and stone, and ends the action.
    FirstExploration,
    /// A follower has been created. The game ends the action.
    FollowerCreated,
}

/// Whether an action makes progress from frame to frame.
pub open spec fn advances(current: CurrentAction) -> bool {
    match current.0 {
        Some(action) => action.spec_progresses() || action.spec_is_passive(),
        None => false,
    }
}

/// The time for which an action has run after `delta` more.
pub open spec fn run_after(progress: ActionProgress, delta: u64) -> nat {
    crate::timer::time_sum(progress.elapsed as nat, delta as nat)
}

/// Whether an action is complete after `delta` more.
pub open spec fn completes(progress: ActionProgress, delta: u64) -> bool {
    run_after(progress, delta) >= progress.time
}

/// Lets the current action make progress over `delta` nanoseconds.
///
/// An action that neither progresses nor is passive makes none. Any other
/// runs for `delta` more, and is complete once it has run for its time; it
/// then starts over with what went beyond. On completion an exploration
/// counts one more, and the first one finds a unit of branches and pebbles;
/// the creation of followers adds a follower and takes ten units of
/// godpower.
pub fn progress_system(
    delta: u64,
    progress: &mut ActionProgress,
    current_action: &CurrentAction,
    stockyard: &mut Stockyard,
    exploration_progress: &mut ExplorationProgress,
) -> (outcome: ProgressOutcome)
    requires
        old(stockyard).wf(),
    ensures
        final(stockyard).wf(),
        final(stockyard).gate() == old(stockyard).gate(),
        final(progress).time == old(progress).time,
        final(progress).elapsed == if !advances(*current_action) {
            old(progress).elapsed as nat
        } else if completes(*old(progress), delta) {
            (run_after(*old(progress), delta) - old(progress).time) as nat
        } else {
            run_after(*old(progress), delta)
        },
        final(exploration_progress).0 == if advances(*current_action) && completes(
            *old(progress),
            delta,
        ) && current_action.0 == Some(Action::Explore) && old(exploration_progress).0
            < u32::MAX {
            (old(exploration_progress).0 + 1) as u32
        } else {
            old(exploration_progress).0
        },
        outcome == if advances(*current_action) && completes(*old(progress), delta) {
            if current_action.0 == Some(Action::Explore) {
                if final(exploration_progress).0 == 1 && old(exploration_progress).0 == 0 {
                    ProgressOutcome::FirstExploration
                } else {
                    ProgressOutcome::Nothing
                }
            } else if current_action.0 == Some(Action::CreateFollowers) {
                ProgressOutcome::FollowerCreated
            } else {
                ProgressOutcome::Nothing
            }
        } else {
            ProgressOutcome::Nothing
        },
        match outcome {
            ProgressOutcome::Nothing => final(stockyard).same_as(*old(stockyard)),
            ProgressOutcome::FirstExploration => {
                &&& final(stockyard).stock(StockKind::BranchesAndPebbles).current()
                    == Stock::raised(
                    old(stockyard).stock(StockKind::BranchesAndPebbles).current(),
                    old(stockyard).stock(StockKind::BranchesAndPebbles).ceiling(),
                    UNIT as nat,
                )
                &&& final(stockyard).stock(StockKind::BranchesAndPebbles).dirty()
                &&& final(stockyard).stock(StockKind::BranchesAndPebbles).maximum() == old(stockyard).stock(StockKind::BranchesAndPebbles).maximum()
                &&& forall|kind: StockKind|
                    kind != StockKind::BranchesAndPebbles ==> final(stockyard).stock(kind) == old(stockyard).stock(kind)
            },
            ProgressOutcome::FollowerCreated => {
                &&& final(stockyard).stock(StockKind::Followers).current() == Stock::raised(
                    old(stockyard).stock(StockKind::Followers).current(),
                    old(stockyard).stock(StockKind::Followers).ceiling(),
                    UNIT as nat,
                )
                &&& final(stockyard).stock(StockKind::Godpower).current() == Stock::lowered(
                    old(stockyard).stock(StockKind::Godpower).current(),
                    10 * UNIT as nat,
                )
                &&& final(stockyard).stock(StockKind::Followers).dirty()
                &&& final(stockyard).stock(StockKind::Godpower).dirty()
                &&& final(stockyard).stock(StockKind::Followers).maximum() == old(stockyard).stock(StockKind::Followers).maximum()
                &&& final(stockyard).stock(StockKind::Godpower).maximum() == old(stockyard).stock(StockKind::Godpower).maximum()
                &&& forall|kind: StockKind|
                    kind != StockKind::Followers && kind != StockKind::Godpower ==> final(stockyard).stock(kind) == old(stockyard).stock(kind)
            },
        },
{
    let action: Action = match current_action.0 {
        None => {
            return ProgressOutcome::Nothing;
        },
        Some(action) => {
            if action.progresses() || action.is_passive() {
                action
            } else {
                return ProgressOutcome::Nothing;
            }
        },
    };
    let run: u64 = progress.elapsed.saturating_add(delta);
    if run < progress.time {
        progress.elapsed = run;
        return ProgressOutcome::Nothing;
    }
    progress.elapsed = run - progress.time;
    if !action.progresses() {
        return ProgressOutcome::Nothing;
    }
    match action {
        Action::Explore => {
            let before: u32 = exploration_progress.0;
            if before < u32::MAX {
                exploration_progress.0 = before + 1;
            }
            if before == 0 {
                stockyard.add(StockKind::BranchesAndPebbles, 1_000_000);
                ProgressOutcome::FirstExploration
            } else {
                ProgressOutcome::Nothing
            }
        },
        _ => {
            stockyard.add(StockKind::Followers, 1_000_000);
            stockyard.subtract(StockKind::Godpower, 10_000_000);
            ProgressOutcome::FollowerCreated
        },
    }
}

/// The timer that says when the affinity is checked: every five seconds
/// while it runs. It is held until an action with an affinity begins.
#[derive(Debug, Clone, Copy)]
pub struct AffinityTimer(pub Timer);

impl AffinityTimer {
    /// The timer as it stands before the first action.
    pub open spec fn spec_new() -> AffinityTimer {
        AffinityTimer(Timer::spec_new(AFFINITY_CHECK_TIME, TimerMode::Repeating).held(true))
    }

    /// The timer as it stands before the first action.
    pub fn new() -> (r: AffinityTimer)
        ensures
            r == AffinityTimer::spec_new(),
            r.0.wf(),
            r.0.paused(),
            r.0.duration() == AFFINITY_CHECK_TIME,
            r.0.elapsed() == 0,
            r.0.mode() == TimerMode::Repeating,
    {
        let mut timer: Timer = Timer::new(AFFINITY_CHECK_TIME, TimerMode::Repeating);
        proof {
            Timer::lemma_spec_new(AFFINITY_CHECK_TIME, TimerMode::Repeating);
        }
        timer.pause();
        AffinityTimer(timer)
    }
}

impl Default for AffinityTimer {
    fn default() -> (r: AffinityTimer)
        ensures
            r == AffinityTimer::spec_new(),
            r.0.wf(),
    {
        AffinityTimer::new()
    }
}

/// The affinity of the current action, and the timer of the affinity that
/// is in force, if one is.
#[derive(Debug, Clone, Copy)]
pub struct ActionAffinity {
    pub affinity: Affinity,
    pub timer: Option<Timer>,
}

impl ActionAffinity {
    /// The timer of the affinity in force has never run beyond its length.
    pub open spec fn wf(self) -> bool {
        match self.timer {
            Some(timer) => timer.wf(),
            None => true,
        }
    }

    /// No affinity, and none in force.
    pub fn new() -> (r: ActionAffinity)
        ensures
            r.wf(),
            r.timer.is_none(),
            r.affinity.chance == 0,
            r.affinity.multiplier == 0,
            r.affinity.time == 0,
    {
        ActionAffinity { affinity: Affinity::new(), timer: None }
    }

    /// Ends the affinity that is in force.
    pub fn reset(&mut self)
        ensures
            final(self).timer.is_none(),
            final(self).affinity == old(self).affinity,
    {
        self.timer = None;
    }

    /// The time for which the affinity in force still lasts, in
    /// nanoseconds: none where none is in force.
    pub fn time_left(&self) -> (r: u64)
        requires
            self.wf(),
        ensures
            r == match self.timer {
                Some(timer) => timer.duration() - timer.elapsed(),
                None => 0,
            },
    {
        match &self.timer {
            Some(timer) => timer.remaining(),
            None => 0,
        }
    }
}

/// Whether the affinity is checked for the current action: it is for a
/// passive one.
pub open spec fn eligible(current: CurrentAction) -> bool {
    match current.0 {
        Some(action) => action.spec_is_passive(),
        None => false,
    }
}

/// Whether a check of the affinity is due after `delta` more.
pub open spec fn check_due(check_timer: AffinityTimer, delta: u64) -> bool {
    check_timer.0.after_tick(delta).just_finished()
}

/// Whether a check of the affinity is due after `delta` more and succeeds
/// on `roll`.
pub open spec fn check_hits(
    check_timer: AffinityTimer,
    affinity: ActionAffinity,
    delta: u64,
    roll: u64,
) -> bool {
    check_due(check_timer, delta) && succeeds(affinity.affinity.chance, roll)
}

/// The timer of the affinity in force before it is let run over `delta`: a
/// new one where a check has just succeeded, else the one that was there.
pub open spec fn window_before(affinity: ActionAffinity, hit: bool) -> Option<Timer> {
    if hit {
        Some(Timer::spec_new(affinity.affinity.time, TimerMode::Once))
    } else {
        affinity.timer
    }
}

/// The timer of the affinity in force after `delta`: none where none runs
/// or the one that runs has run out.
pub open spec fn window_after(affinity: ActionAffinity, hit: bool, delta: u64) -> Option<Timer> {
    match window_before(affinity, hit) {
        Some(timer) => if timer.after_tick(delta).just_finished() {
            None
        } else {
            Some(timer.after_tick(delta))
        },
        None => None,
    }
}

/// Whether an affinity is in force on the action after `delta`.
pub open spec fn affinity_after(
    affinity: ActionAffinity,
    was_in_force: bool,
    hit: bool,
    delta: u64,
) -> bool {
    match window_before(affinity, hit) {
        Some(timer) => if timer.after_tick(delta).just_finished() {
            false
        } else {
            hit || was_in_force
        },
        None => was_in_force,
    }
}

/// Where the affinity of the current action stands.
#[derive(Debug, Clone, Copy, PartialEq, Eq, Structural)]
pub enum AffinityState {
    /// No action with an affinity is under way: nothing is checked.
    Inactive,
    /// The affinity is checked every time its check timer runs out.
    Armed,
    /// A check has succeeded: the affinity is in force until its own timer
    /// runs out.
    Triggered,
}

/// Where the affinity of the current action stands.
pub open spec fn spec_affinity_state(current: CurrentAction, affinity: ActionAffinity) -> AffinityState {
    if !eligible(current) {
        AffinityState::Inactive
    } else if affinity.timer.is_some() {
        AffinityState::Triggered
    } else {
        AffinityState::Armed
    }
}

/// Where the affinity of the current action stands.
pub fn affinity_state(current: &CurrentAction, affinity: &ActionAffinity) -> (r: AffinityState)
    ensures
        r == spec_affinity_state(*current, *affinity),
{
    let passive: bool = match current.0 {
        Some(action) => action.is_passive(),
        None => false,
    };
    if !passive {
        AffinityState::Inactive
    } else if affinity.timer.is_some() {
        AffinityState::Triggered
    } else {
        AffinityState::Armed
    }
}

/// A check that is due succeeds on every roll where the chance is one or
/// more, and on none where there is no chance.
pub proof fn lemma_check_at_the_ends_of_chance(
    check_timer: AffinityTimer,
    affinity: ActionAffinity,
    delta: u64,
    roll: u64,
)
    requires
        roll < UNIT,
    ensures
        affinity.affinity.chance >= UNIT ==> check_hits(check_timer, affinity, delta, roll)
            == check_due(check_timer, delta),
        affinity.affinity.chance == 0 ==> !check_hits(check_timer, affinity, delta, roll),
{
}

/// An armed affinity whose check succeeds comes in force, and stays so
/// beyond the frame where it lasts longer than the frame: its timer then
/// shows what is left of its time.
pub proof fn lemma_armed_to_triggered(
    current: CurrentAction,
    affinity: ActionAffinity,
    delta: u64,
    in_force: bool,
)
    requires
        eligible(current),
        delta < affinity.affinity.time,
    ensures
        window_after(affinity, true, delta).is_some(),
        spec_affinity_state(
            current,
            ActionAffinity { timer: window_after(affinity, true, delta), ..affinity },
        ) == AffinityState::Triggered,
        affinity_after(affinity, in_force, true, delta),
        window_after(affinity, true, delta).unwrap().duration() == affinity.affinity.time,
        window_after(affinity, true, delta).unwrap().elapsed() == delta,
{
    let fresh = Timer::spec_new(affinity.affinity.time, TimerMode::Once);
    Timer::lemma_spec_new(affinity.affinity.time, TimerMode::Once);
    fresh.lemma_after_tick(delta);
}

/// An affinity in force ends in the frame in which its timer reaches its
/// length, and not before: it is then armed again and its multiplier is
/// lifted.
pub proof fn lemma_triggered_to_armed(
    current: CurrentAction,
    affinity: ActionAffinity,
    window: Timer,
    delta: u64,
)
    requires
        eligible(current),
        affinity.timer == Some(window),
        window.wf(),
        window.mode() == TimerMode::Once,
        !window.paused(),
        !window.finished(),
    ensures
        window_after(affinity, false, delta).is_none() == (window.elapsed() + delta
            >= window.duration()),
        affinity_after(affinity, true, false, delta) == (window.elapsed() + delta
            < window.duration()),
        window_after(affinity, false, delta).is_none() ==> spec_affinity_state(
            current,
            ActionAffinity { timer: window_after(affinity, false, delta), ..affinity },
        ) == AffinityState::Armed,
        window_after(affinity, false, delta).is_some() ==> window_after(
            affinity,
            false,
            delta,
        ).unwrap().elapsed() == window.elapsed() + delta,
{
    window.lemma_after_tick(delta);
    window.lemma_countable();
    let after = window.after_tick(delta);
    let run = crate::timer::time_sum(window.elapsed(), delta as nat);
    assert(window.ticked(delta as nat, after));
    assert(after.just_finished() == (run >= window.duration()));
    assert((run >= window.duration()) == (window.elapsed() + delta >= window.duration()));
}

/// Without a check that succeeds an armed affinity stays armed, and one
/// that is not in force does not come in force.
pub proof fn lemma_armed_stays_armed(current: CurrentAction, affinity: ActionAffinity, delta: u64)
    requires
        eligible(current),
        affinity.timer.is_none(),
    ensures
        window_after(affinity, false, delta).is_none(),
        !affinity_after(affinity, false, false, delta),
{
}

/// Checks the affinity of the current action over `delta` nanoseconds, on
/// a given roll.
///
/// Nothing happens unless the current action is passive. The check timer
/// runs for `delta`; where it runs out and the roll succeeds against the
/// chance of the affinity, the affinity comes in force for its time. The
/// timer of an affinity in force, a new one too, runs for `delta`; where it
/// runs out the affinity is lifted.
pub fn affinity_check_system_with(
    delta: u64,
    roll: u64,
    current_action: &CurrentAction,
    affinity_check_timer: &mut AffinityTimer,
    action_affinity: &mut ActionAffinity,
    spc: &mut PlayerActionSpc,
)
    requires
        old(affinity_check_timer).0.wf(),
        old(action_affinity).wf(),
    ensures
        final(affinity_check_timer).0.wf(),
        final(action_affinity).wf(),
        final(action_affinity).affinity == old(action_affinity).affinity,
        final(spc).changes() == old(spc).changes(),
        final(spc).multiplier_of_affinity() == old(spc).multiplier_of_affinity(),
        !eligible(*current_action) ==> {
            &&& *final(affinity_check_timer) == *old(affinity_check_timer)
            &&& *final(action_affinity) == *old(action_affinity)
            &&& final(spc).has_affinity() == old(spc).has_affinity()
        },
        eligible(*current_action) ==> {
            let hit = check_hits(*old(affinity_check_timer), *old(action_affinity), delta, roll);
            &&& final(affinity_check_timer).0 == old(affinity_check_timer).0.after_tick(delta)
            &&& final(action_affinity).timer == window_after(*old(action_affinity), hit, delta)
            &&& final(spc).has_affinity() == affinity_after(
                *old(action_affinity),
                old(spc).has_affinity(),
                hit,
                delta,
            )
        },
{
    let passive: bool = match current_action.0 {
        Some(action) => action.is_passive(),
        None => false,
    };
    if !passive {
        return ;
    }
    affinity_check_timer.0.tick(delta);
    if affinity_check_timer.0.is_just_finished() && action_affinity.affinity.check_with(roll) {
        spc.enable_affinity();
        action_affinity.timer = Some(Timer::new(action_affinity.affinity.time, TimerMode::Once));
    }
    match action_affinity.timer {
        Some(timer) => {
            let mut running: Timer = timer;
            running.tick(delta);
            if running.is_just_finished() {
                spc.disable_affinity();
                action_affinity.timer = None;
            } else {
                action_affinity.timer = Some(running);
            }
        },
        None => {},
    }
}

/// Checks the affinity of the current action over `delta` nanoseconds. A
/// roll is drawn where a check is due.
///
/// What happens is what `affinity_check_system_with` does on some roll
/// below one.
pub fn affinity_check_system(
    delta: u64,
    current_action: &CurrentAction,
    affinity_check_timer: &mut AffinityTimer,
    action_affinity: &mut ActionAffinity,
    spc: &mut PlayerActionSpc,
)
    requires
        old(affinity_check_timer).0.wf(),
        old(action_affinity).wf(),
    ensures
        final(affinity_check_timer).0.wf(),
        final(action_affinity).wf(),
        final(action_affinity).affinity == old(action_affinity).affinity,
        final(spc).changes() == old(spc).changes(),
        final(spc).multiplier_of_affinity() == old(spc).multiplier_of_affinity(),
        !eligible(*current_action) ==> {
            &&& *final(affinity_check_timer) == *old(affinity_check_timer)
            &&& *final(action_affinity) == *old(action_affinity)
            &&& final(spc).has_affinity() == old(spc).has_affinity()
        },
        eligible(*current_action) ==> exists|roll: u64|
            {
                let hit = #[trigger] check_hits(
                    *old(affinity_check_timer),
                    *old(action_affinity),
                    delta,
                    roll,
                );
                &&& roll < UNIT
                &&& final(affinity_check_timer).0 == old(affinity_check_timer).0.after_tick(delta)
                &&& final(action_affinity).timer == window_after(
                    *old(action_affinity),
                    hit,
                    delta,
                )
                &&& final(spc).has_affinity() == affinity_after(
                    *old(action_affinity),
                    old(spc).has_affinity(),
                    hit,
                    delta,
                )
            },
{
    let mut probe: Timer = affinity_check_timer.0;
    probe.tick(delta);
    let drawn: u64 = if probe.is_just_finished() {
        roll()
    } else {
        0
    };
    affinity_check_system_with(
        delta,
        drawn,
        current_action,
        affinity_check_timer,
        action_affinity,
        spc,
    );
    proof {
        if eligible(*current_action) {
            assert(check_hits(*old(affinity_check_timer), *old(action_affinity), delta, drawn)
                == check_hits(*old(affinity_check_timer), *old(action_affinity), delta, drawn));
        }
    }
}

} // verus!
