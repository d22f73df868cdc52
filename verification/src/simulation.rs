//! The simulation: the stockyard, the effects and the state of the player
//! and the jobs in one place, with the scheduler that runs the ticks and
//! the commands that change the state between them.

use vstd::prelude::*;
use crate::action::change::{
    laid_down, on_change_action, reset_player_action, taken_up, ChangeAction,
};
use crate::action::spc::PlayerActionSpc;
use crate::action::{
    advances, affinity_after, affinity_check_system_with, check_hits, completes, eligible,
    on_learn_action, progress_system, window_after, Action, ActionAffinity, ActionProgress,
    AffinityTimer, CurrentAction, ExplorationProgress, KnownActions, LearnAction, ProgressOutcome,
};
use crate::chance::roll;
use crate::fixed::UNIT;
use crate::job::{
    follower_free, followers_in_jobs, initialize_jobs, jobs_changed, jobs_in_order,
    on_assign_follower, on_unassign_follower, AssignFollower, FollowersAssigned, Job,
    UnassignFollower,
};
use crate::pipeline::{effects_wf, initialize_effects, run_tick, tick_runs};
use crate::stats::PlayerActionsStats;
use crate::stock::producer_consumer::StockyardProducerConsumer;
use crate::stock::stockyard::Stockyard;
use crate::stock::StockKind;
use crate::timer::{Timer, TimerMode};

verus! {

/// The time between two ticks, in nanoseconds: a twentieth of a second.
pub const TICK_TIME: u64 = 50_000_000;

/// The timer that says when a tick is due.
#[derive(Debug, Clone, Copy)]
pub struct TickTimer(pub Timer);

impl TickTimer {
    /// A timer that runs out every twentieth of a second.
    pub fn new() -> (r: TickTimer)
        ensures
            r.0 == Timer::spec_new(TICK_TIME, TimerMode::Repeating),
            r.0.wf(),
    {
        TickTimer(Timer::new(TICK_TIME, TimerMode::Repeating))
    }
}

/// Something that the player asks of the game. Commands are carried out
/// between ticks.
#[derive(Debug, Clone, Copy)]
pub enum Command {
    /// Take up an action.
    ChangeAction(ChangeAction),
    /// Lay the current action down.
    ResetPlayerAction,
    /// Give a follower a job.
    AssignFollower(AssignFollower),
    /// Take a follower from a job.
    UnassignFollower(UnassignFollower),
    /// Learn an action.
    LearnAction(LearnAction),
}

/// The state of the game.
#[derive(Debug)]
pub struct Simulation {
    pub stockyard: Stockyard,
    pub effects: Vec<StockyardProducerConsumer>,
    pub tick_timer: TickTimer,
    pub action_spc: PlayerActionSpc,
    pub current_action: CurrentAction,
    pub action_progress: ActionProgress,
    pub action_affinity: ActionAffinity,
    pub affinity_timer: AffinityTimer,
    pub known_actions: KnownActions,
    pub exploration_progress: ExplorationProgress,
    pub stats: PlayerActionsStats,
    pub jobs: Vec<Job>,
    pub followers_assigned: FollowersAssigned,
    pub queue: Vec<Command>,
}

impl Simulation {
    /// Every part of the state is sound, and the followers counted as
    /// assigned are those that the jobs hold.
    pub open spec fn wf(self) -> bool {
        &&& self.stockyard.wf()
        &&& effects_wf(self.effects@)
        &&& self.tick_timer.0.wf()
        &&& self.action_affinity.wf()
        &&& self.affinity_timer.0.wf()
        &&& self.known_actions.wf()
        &&& jobs_in_order(self.jobs@)
        &&& followers_in_jobs(self.jobs@) == self.followers_assigned.0
    }

    /// Whether two states agree in the player's action and all that
    /// belongs to it.
    pub open spec fn same_player(self, other: Simulation) -> bool {
        &&& self.action_spc == other.action_spc
        &&& self.current_action == other.current_action
        &&& self.action_progress == other.action_progress
        &&& self.action_affinity == other.action_affinity
        &&& self.affinity_timer == other.affinity_timer
        &&& self.known_actions == other.known_actions
        &&& self.exploration_progress == other.exploration_progress
        &&& self.stats == other.stats
    }

    /// Whether two states agree in the jobs and their followers.
    pub open spec fn same_jobs(self, other: Simulation) -> bool {
        &&& self.jobs == other.jobs
        &&& self.followers_assigned == other.followers_assigned
    }

    /// Whether two states agree in the stockyard, the effects and the tick
    /// timer.
    pub open spec fn same_economy(self, other: Simulation) -> bool {
        &&& self.stockyard == other.stockyard
        &&& self.effects == other.effects
        &&& self.tick_timer == other.tick_timer
    }

    /// What a command makes of a state, and whether it is carried out.
    pub open spec fn applied(self, command: Command, end: Simulation, done: bool) -> bool {
        &&& end.effects == self.effects
        &&& end.tick_timer == self.tick_timer
        &&& end.stats == self.stats
        &&& end.exploration_progress == self.exploration_progress
        &&& match command {
            Command::ChangeAction(event) => {
                &&& end.same_jobs(self)
                &&& end.known_actions == self.known_actions
                &&& done == (self.current_action.0 != Some(event.action))
                &&& if done {
                    taken_up(
                        event.action,
                        self.stats,
                        self.action_affinity,
                        self.affinity_timer,
                        self.stockyard,
                        end.current_action,
                        end.action_progress,
                        end.action_affinity,
                        end.affinity_timer,
                        end.action_spc,
                        end.stockyard,
                    )
                } else {
                    &&& end.same_player(self)
                    &&& end.stockyard == self.stockyard
                }
            },
            Command::ResetPlayerAction => {
                &&& end.same_jobs(self)
                &&& end.known_actions == self.known_actions
                &&& done
                &&& laid_down(
                    self.action_progress,
                    self.action_affinity,
                    self.affinity_timer,
                    self.stockyard,
                    end.action_progress,
                    end.action_affinity,
                    end.affinity_timer,
                    end.current_action,
                    end.action_spc,
                    end.stockyard,
                )
            },
            Command::AssignFollower(event) => {
                &&& end.same_player(self)
                &&& end.stockyard == self.stockyard
                &&& done == follower_free(self.stockyard, self.followers_assigned.0)
                &&& end.followers_assigned.0 == self.followers_assigned.0 + if done {
                    1int
                } else {
                    0int
                }
                &&& jobs_changed(self.jobs@, end.jobs@, event.job_kind, if done {
                    1
                } else {
                    0
                })
            },
            Command::UnassignFollower(event) => {
                &&& end.same_player(self)
                &&& end.stockyard == self.stockyard
                &&& done == (self.jobs@[event.job_kind.spec_index()].followers_assigned > 0)
                &&& end.followers_assigned.0 == self.followers_assigned.0 - if done {
                    1int
                } else {
                    0int
                }
                &&& jobs_changed(self.jobs@, end.jobs@, event.job_kind, if done {
                    -1
                } else {
                    0
                })
            },
            Command::LearnAction(event) => {
                &&& end.same_jobs(self)
                &&& end.stockyard == self.stockyard
                &&& end.action_spc == self.action_spc
                &&& end.current_action == self.current_action
                &&& end.action_progress == self.action_progress
                &&& end.action_affinity == self.action_affinity
                &&& end.affinity_timer == self.affinity_timer
                &&& done
                &&& end.known_actions.contains(event.action)
                &&& forall|other: Action|
                    other != event.action ==> end.known_actions.contains(other)
                        == self.known_actions.contains(other)
            },
        }
    }

    /// The state with which a game starts.
    pub fn new() -> (r: Simulation)
        ensures
            r.wf(),
            r.queue@.len() == 0,
            r.current_action.0.is_none(),
            r.followers_assigned.0 == 0,
            r.exploration_progress.0 == 0,
            r.action_spc.changes().len() == 0,
            !r.action_spc.has_affinity(),
            r.action_affinity.timer.is_none(),
            r.stockyard.gate().is_none(),
            r.affinity_timer == AffinityTimer::spec_new(),
            r.tick_timer.0 == Timer::spec_new(TICK_TIME, TimerMode::Repeating),
            forall|action: Action| #[trigger]
                r.known_actions.contains(action) == (action != Action::GatherWood && action
                    != Action::GatherStone),
            forall|kind: StockKind| #[trigger]
                r.stockyard.stock(kind).current() == crate::stock::stockyard::starting_stock(
                    kind,
                ).0 * UNIT,
    {
        let (jobs, _) = initialize_jobs();
        Simulation {
            stockyard: Stockyard::default(),
            effects: initialize_effects(),
            tick_timer: TickTimer::new(),
            action_spc: PlayerActionSpc::default(),
            current_action: CurrentAction::default(),
            action_progress: ActionProgress::default(),
            action_affinity: ActionAffinity::new(),
            affinity_timer: AffinityTimer::new(),
            known_actions: KnownActions::default(),
            exploration_progress: ExplorationProgress::default(),
            stats: PlayerActionsStats::default(),
            jobs,
            followers_assigned: FollowersAssigned::default(),
            queue: Vec::new(),
        }
    }

    /// Runs one tick.
    ///
    /// `logarithm` is the decimal logarithm of the number of followers, in
    /// millionths.
    pub fn tick(&mut self, logarithm: u64)
        requires
            old(self).wf(),
        ensures
            final(self).wf(),
            final(self).same_player(*old(self)),
            final(self).same_jobs(*old(self)),
            final(self).queue == old(self).queue,
            final(self).tick_timer == old(self).tick_timer,
            tick_runs(
                old(self).stockyard,
                old(self).effects@,
                old(self).action_spc,
                old(self).jobs@,
                logarithm,
                final(self).stockyard,
                final(self).effects@,
            ),
    {
        run_tick(&mut self.stockyard, &mut self.effects, &self.action_spc, &self.jobs, logarithm);
    }

    /// The scheduler: lets `delta` nanoseconds pass, and runs a tick where
    /// one is due. Tells whether it ran one.
    pub fn tick_stockyard_system(&mut self, delta: u64, logarithm: u64) -> (ran: bool)
        requires
            old(self).wf(),
        ensures
            final(self).wf(),
            final(self).same_player(*old(self)),
            final(self).same_jobs(*old(self)),
            final(self).queue == old(self).queue,
            final(self).tick_timer.0 == old(self).tick_timer.0.after_tick(delta),
            ran == final(self).tick_timer.0.just_finished(),
            ran ==> tick_runs(
                old(self).stockyard,
                old(self).effects@,
                old(self).action_spc,
                old(self).jobs@,
                logarithm,
                final(self).stockyard,
                final(self).effects@,
            ),
            !ran ==> final(self).stockyard == old(self).stockyard && final(self).effects == old(self).effects,
    {
        self.tick_timer.0.tick(delta);
        if self.tick_timer.0.is_just_finished() {
            self.tick(logarithm);
            true
        } else {
            false
        }
    }

    /// Carries a command out, and tells whether there was anything to do.
    pub fn apply(&mut self, command: Command) -> (done: bool)
        requires
            old(self).wf(),
        ensures
            final(self).wf(),
            final(self).queue == old(self).queue,
            old(self).applied(command, *final(self), done),
    {
        match command {
            Command::ChangeAction(event) => {
                let same: bool = match self.current_action.0 {
                    Some(action) => action == event.action,
                    None => false,
                };
                on_change_action(
                    &event,
                    &self.stats,
                    &mut self.current_action,
                    &mut self.action_progress,
                    &mut self.action_affinity,
                    &mut self.affinity_timer,
                    &mut self.action_spc,
                    &mut self.stockyard,
                );
                !same
            },
            Command::ResetPlayerAction => {
                reset_player_action(
                    &mut self.action_progress,
                    &mut self.action_affinity,
                    &mut self.affinity_timer,
                    &mut self.current_action,
                    &mut self.action_spc,
                    &mut self.stockyard,
                );
                true
            },
            Command::AssignFollower(event) => {
                on_assign_follower(
                    &event,
                    &mut self.followers_assigned,
                    &self.stockyard,
                    &mut self.jobs,
                )
            },
            Command::UnassignFollower(event) => {
                on_unassign_follower(&event, &mut self.followers_assigned, &mut self.jobs)
            },
            Command::LearnAction(event) => {
                on_learn_action(&event, &mut self.known_actions);
                true
            },
        }
    }

    /// Puts a command in the queue, to be carried out between ticks.
    pub fn enqueue(&mut self, command: Command)
        ensures
            final(self).queue@ == old(self).queue@.push(command),
            final(self).same_player(*old(self)),
            final(self).same_jobs(*old(self)),
            final(self).same_economy(*old(self)),
    {
        self.queue.push(command);
    }

    /// What carrying out a list of commands in their order makes of a
    /// state, and how many of them had anything to do.
    pub open spec fn applied_all(self, commands: Seq<Command>, end: Simulation, count: nat) -> bool
        decreases commands.len(),
    {
        if commands.len() == 0 {
            end.same_player(self) && end.same_jobs(self) && end.same_economy(self) && count == 0
        } else {
            exists|middle: Simulation, done: bool|
                {
                    &&& #[trigger] middle.applied(commands.last(), end, done)
                    &&& middle.wf()
                    &&& done ==> count > 0
                    &&& self.applied_all(
                        commands.drop_last(),
                        middle,
                        if done {
                            (count - 1) as nat
                        } else {
                            count
                        },
                    )
                }
        }
    }

    /// Carrying out one more command carries out the longer list.
    proof fn lemma_applied_next(
        self,
        commands: Seq<Command>,
        middle: Simulation,
        before: nat,
        done: bool,
        end: Simulation,
        count: nat,
    )
        requires
            commands.len() > 0,
            self.applied_all(commands.drop_last(), middle, before),
            middle.wf(),
            middle.applied(commands.last(), end, done),
            count == before + if done {
                1nat
            } else {
                0nat
            },
        ensures
            self.applied_all(commands, end, count),
    {
    }

    /// Carries out the commands in the queue, in their order, and empties
    /// the queue. Tells how many of them had anything to do.
    pub fn apply_queued(&mut self) -> (count: usize)
        requires
            old(self).wf(),
        ensures
            final(self).wf(),
            final(self).queue@.len() == 0,
            old(self).applied_all(old(self).queue@, *final(self), count as nat),
    {
        let mut commands: Vec<Command> = Vec::new();
        std::mem::swap(&mut commands, &mut self.queue);
        let ghost queued = old(self).queue@;
        let mut count: usize = 0;
        let mut i: usize = 0;
        while i < commands.len()
            invariant
                i <= commands.len(),
                commands@ == queued,
                count <= i,
                self.wf(),
                self.queue@.len() == 0,
                old(self).applied_all(queued.take(i as int), *self, count as nat),
            decreases commands.len() - i,
        {
            let command: Command = commands[i];
            let ghost before = *self;
            let done: bool = self.apply(command);
            proof {
                assert(queued.take(i + 1).drop_last() =~= queued.take(i as int));
                assert(queued.take(i + 1).last() == command);
                assert(old(self).applied_all(queued.take(i + 1).drop_last(), before, count as nat));
                assert(before.applied(queued.take(i + 1).last(), *self, done));
                let next: nat = if done {
                    (count + 1) as nat
                } else {
                    count as nat
                };
                old(self).lemma_applied_next(queued.take(i + 1), before, count as nat, done, *self, next);
            }
            if done {
                count = count + 1;
            }
            i = i + 1;
        }
        proof {
            assert(queued.take(commands.len() as int) =~= queued);
        }
        count
    }

    /// Lets the current action make progress over `delta` nanoseconds, and
    /// carries out what its completion asks for: after the first
    /// exploration the player learns to gather wood and stone and the
    /// action is laid down; after the creation of a follower the action is
    /// laid down.
    pub fn progress(&mut self, delta: u64) -> (outcome: ProgressOutcome)
        requires
            old(self).wf(),
        ensures
            final(self).wf(),
            final(self).same_jobs(*old(self)),
            final(self).queue == old(self).queue,
            final(self).effects == old(self).effects,
            final(self).tick_timer == old(self).tick_timer,
            final(self).stats == old(self).stats,
            (outcome != ProgressOutcome::Nothing) == (advances(old(self).current_action)
                && completes(old(self).action_progress, delta) && (old(self).current_action.0
                == Some(Action::CreateFollowers) || (old(self).current_action.0 == Some(
                Action::Explore,
            ) && old(self).exploration_progress.0 == 0))),
            outcome == ProgressOutcome::Nothing ==> {
                &&& final(self).stockyard.same_as(old(self).stockyard)
                &&& final(self).action_spc == old(self).action_spc
                &&& final(self).current_action == old(self).current_action
                &&& final(self).action_affinity == old(self).action_affinity
                &&& final(self).affinity_timer == old(self).affinity_timer
                &&& final(self).known_actions == old(self).known_actions
            },
            final(self).action_progress.time == old(self).action_progress.time,
            final(self).action_affinity.affinity == old(self).action_affinity.affinity,
            outcome == ProgressOutcome::Nothing ==> final(self).exploration_progress.0 == if advances(
                old(self).current_action,
            ) && completes(old(self).action_progress, delta) && old(self).current_action.0 == Some(
                Action::Explore,
            ) && old(self).exploration_progress.0 < u32::MAX {
                (old(self).exploration_progress.0 + 1) as u32
            } else {
                old(self).exploration_progress.0
            },
            outcome == ProgressOutcome::Nothing ==> final(self).action_progress.elapsed == if !advances(
                old(self).current_action,
            ) {
                old(self).action_progress.elapsed as nat
            } else if completes(old(self).action_progress, delta) {
                (crate::action::run_after(old(self).action_progress, delta) - old(self).action_progress.time) as nat
            } else {
                crate::action::run_after(old(self).action_progress, delta)
            },
            outcome != ProgressOutcome::Nothing ==> {
                &&& final(self).current_action.0.is_none()
                &&& final(self).action_progress.elapsed == 0
                &&& final(self).action_spc.changes().len() == 0
                &&& final(self).action_spc.multiplier_of_affinity() == 0
                &&& !final(self).action_spc.has_affinity()
                &&& final(self).action_affinity.timer.is_none()
                &&& final(self).affinity_timer.0 == old(self).affinity_timer.0.started_over()
                &&& final(self).stockyard.gate().is_none()
            },
            outcome == ProgressOutcome::FirstExploration ==> forall|kind: StockKind|
                kind != StockKind::BranchesAndPebbles ==> final(self).stockyard.stock(kind) == old(self).stockyard.stock(kind),
            outcome == ProgressOutcome::FollowerCreated ==> final(self).exploration_progress == old(self).exploration_progress && forall|kind: StockKind|
                kind != StockKind::Followers && kind != StockKind::Godpower ==> final(self).stockyard.stock(kind) == old(self).stockyard.stock(kind),
            outcome == ProgressOutcome::FirstExploration ==> {
                &&& final(self).known_actions.contains(Action::GatherWood)
                &&& final(self).known_actions.contains(Action::GatherStone)
                &&& forall|other: Action|
                    other != Action::GatherWood && other != Action::GatherStone ==> final(self).known_actions.contains(other) == old(self).known_actions.contains(other)
                &&& final(self).exploration_progress.0 == 1
                &&& final(self).stockyard.stock(StockKind::BranchesAndPebbles).current()
                    == crate::stock::Stock::raised(
                    old(self).stockyard.stock(StockKind::BranchesAndPebbles).current(),
                    old(self).stockyard.stock(StockKind::BranchesAndPebbles).ceiling(),
                    UNIT as nat,
                )
            },
            outcome == ProgressOutcome::FollowerCreated ==> {
                &&& final(self).known_actions == old(self).known_actions
                &&& final(self).stockyard.stock(StockKind::Followers).current()
                    == crate::stock::Stock::raised(
                    old(self).stockyard.stock(StockKind::Followers).current(),
                    old(self).stockyard.stock(StockKind::Followers).ceiling(),
                    UNIT as nat,
                )
                &&& final(self).stockyard.stock(StockKind::Godpower).current()
                    == crate::stock::Stock::lowered(
                    old(self).stockyard.stock(StockKind::Godpower).current(),
                    10 * UNIT as nat,
                )
            },
    {
        let outcome: ProgressOutcome = progress_system(
            delta,
            &mut self.action_progress,
            &self.current_action,
            &mut self.stockyard,
            &mut self.exploration_progress,
        );
        match outcome {
            ProgressOutcome::Nothing => {},
            ProgressOutcome::FirstExploration => {
                self.known_actions.insert(Action::GatherWood);
                self.known_actions.insert(Action::GatherStone);
                reset_player_action(
                    &mut self.action_progress,
                    &mut self.action_affinity,
                    &mut self.affinity_timer,
                    &mut self.current_action,
                    &mut self.action_spc,
                    &mut self.stockyard,
                );
            },
            ProgressOutcome::FollowerCreated => {
                reset_player_action(
                    &mut self.action_progress,
                    &mut self.action_affinity,
                    &mut self.affinity_timer,
                    &mut self.current_action,
                    &mut self.action_spc,
                    &mut self.stockyard,
                );
            },
        }
        outcome
    }

    /// Checks the affinity of the current action over `delta` nanoseconds,
    /// on a given roll.
    pub fn check_affinity_with(&mut self, delta: u64, roll: u64)
        requires
            old(self).wf(),
        ensures
            final(self).wf(),
            final(self).same_jobs(*old(self)),
            final(self).same_economy(*old(self)),
            final(self).queue == old(self).queue,
            final(self).current_action == old(self).current_action,
            final(self).action_progress == old(self).action_progress,
            final(self).known_actions == old(self).known_actions,
            final(self).exploration_progress == old(self).exploration_progress,
            final(self).stats == old(self).stats,
            final(self).action_affinity.affinity == old(self).action_affinity.affinity,
            final(self).action_spc.changes() == old(self).action_spc.changes(),
            final(self).action_spc.multiplier_of_affinity() == old(self).action_spc.multiplier_of_affinity(),
            !eligible(old(self).current_action) ==> {
                &&& final(self).affinity_timer == old(self).affinity_timer
                &&& final(self).action_affinity == old(self).action_affinity
                &&& final(self).action_spc.has_affinity() == old(self).action_spc.has_affinity()
            },
            eligible(old(self).current_action) ==> {
                let hit = check_hits(
                    old(self).affinity_timer,
                    old(self).action_affinity,
                    delta,
                    roll,
                );
                &&& final(self).affinity_timer.0 == old(self).affinity_timer.0.after_tick(delta)
                &&& final(self).action_affinity.timer == window_after(
                    old(self).action_affinity,
                    hit,
                    delta,
                )
                &&& final(self).action_spc.has_affinity() == affinity_after(
                    old(self).action_affinity,
                    old(self).action_spc.has_affinity(),
                    hit,
                    delta,
                )
            },
    {
        affinity_check_system_with(
            delta,
            roll,
            &self.current_action,
            &mut self.affinity_timer,
            &mut self.action_affinity,
            &mut self.action_spc,
        );
    }
}

impl Default for Simulation {
    fn default() -> (r: Simulation)
        ensures
            r.wf(),
            r.queue@.len() == 0,
            r.current_action.0.is_none(),
    {
        Simulation::new()
    }
}

} // verus!
