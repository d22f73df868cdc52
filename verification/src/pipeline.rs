//! The tick: the steps that the effects and the stockyard go through, in
//! their fixed order.
//!
//! The effects stand in one list. The first is that of the player's
//! action, the second that of the followers, and then comes that of each
//! job, in the order of the jobs.

use vstd::prelude::*;
use crate::action::spc::{demands_of, supplies_of, PlayerActionSpc};
use crate::fixed::PerSecond;
use crate::job::spc::rates_of;
use crate::job::{jobs_in_order, Job, JOB_COUNT};
use crate::stock::follower::{
    food_rate, godpower_rate, init_follower_stockyard_producer_consumer, update_follower_modifier,
};
use crate::stock::producer_consumer::{
    consume_modifiers, consumed, produce_modifiers, produced, settled, StockSystems,
    StockyardProducerConsumer,
};
use crate::stock::stockyard::Stockyard;
use crate::stock::StockKind;

verus! {

/// The place of the effect of the player's action.
pub const PLAYER_EFFECT: usize = 0;

/// The place of the effect of the followers.
pub const FOLLOWER_EFFECT: usize = 1;

/// The place of the effect of the first job.
pub const FIRST_JOB_EFFECT: usize = 2;

/// The number of effects.
pub const EFFECT_COUNT: usize = 6;

/// Whether a list of effects holds the effect of the player's action, that
/// of the followers and that of each job, each with a fulfillment between
/// zero and one.
pub open spec fn effects_wf(effects: Seq<StockyardProducerConsumer>) -> bool {
    &&& effects.len() == EFFECT_COUNT
    &&& forall|i: int| 0 <= i < EFFECT_COUNT ==> (#[trigger] effects[i]).wf()
    &&& effects[FOLLOWER_EFFECT as int].consumes@.len() > 0
    &&& effects[FOLLOWER_EFFECT as int].produces@.len() > 0
}

/// Whether two lists of effects differ in nothing but what the effects
/// consume.
pub open spec fn same_but_consumes(
    before: Seq<StockyardProducerConsumer>,
    after: Seq<StockyardProducerConsumer>,
) -> bool {
    &&& after.len() == before.len()
    &&& forall|i: int|
        0 <= i < before.len() ==> {
            &&& (#[trigger] after[i]).produces == before[i].produces
            &&& after[i].fulfillment() == before[i].fulfillment()
            &&& after[i].multiplier() == before[i].multiplier()
        }
}

/// Whether two lists of effects differ in nothing but the fulfillment of
/// the effects.
pub open spec fn same_but_fulfillment(
    before: Seq<StockyardProducerConsumer>,
    after: Seq<StockyardProducerConsumer>,
) -> bool {
    &&& after.len() == before.len()
    &&& forall|i: int|
        0 <= i < before.len() ==> {
            &&& (#[trigger] after[i]).consumes == before[i].consumes
            &&& after[i].produces == before[i].produces
            &&& after[i].multiplier() == before[i].multiplier()
        }
}

/// What the first step of a tick makes of the effects: the player's action
/// asks for what its changes take, unless the stockyard holds it back, and each job
/// asks for what its followers use. The followers ask for what was set at
/// the tick before.
pub open spec fn demanded(
    before: Seq<StockyardProducerConsumer>,
    after: Seq<StockyardProducerConsumer>,
    action_spc: PlayerActionSpc,
    jobs: Seq<Job>,
    gate_open: bool,
) -> bool {
    &&& same_but_consumes(before, after)
    &&& after[PLAYER_EFFECT as int].consumes@ == if gate_open {
        demands_of(action_spc.changes(), action_spc.spec_affinity_multiplier())
    } else {
        Seq::empty()
    }
    &&& after[FOLLOWER_EFFECT as int].consumes == before[FOLLOWER_EFFECT as int].consumes
    &&& forall|j: int|
        0 <= j < JOB_COUNT ==> (#[trigger] after[FIRST_JOB_EFFECT + j]).consumes@ == rates_of(
            jobs[j].consumes@,
            jobs[j].followers_assigned,
        )
}

/// What the third step of a tick makes of the effects: the player's action
/// makes what its changes give, unless the stockyard holds it back, under the
/// multiplier of an affinity in force; the followers eat and raise what
/// their number after consumption asks for; each job makes what its
/// followers make.
pub open spec fn derived(
    before: Seq<StockyardProducerConsumer>,
    after: Seq<StockyardProducerConsumer>,
    action_spc: PlayerActionSpc,
    jobs: Seq<Job>,
    gate_open: bool,
    followers: nat,
    logarithm: u64,
) -> bool {
    &&& after.len() == before.len()
    &&& forall|i: int|
        0 <= i < before.len() ==> (#[trigger] after[i]).fulfillment() == before[i].fulfillment()
    &&& forall|i: int|
        0 <= i < before.len() && i != FOLLOWER_EFFECT ==> (#[trigger] after[i]).consumes
            == before[i].consumes
    &&& forall|i: int|
        1 <= i < before.len() ==> (#[trigger] after[i]).multiplier() == before[i].multiplier()
    &&& after[PLAYER_EFFECT as int].produces@ == if gate_open {
        supplies_of(action_spc.changes())
    } else {
        Seq::empty()
    }
    &&& after[PLAYER_EFFECT as int].multiplier() == if action_spc.has_affinity() {
        Some(action_spc.multiplier_of_affinity())
    } else {
        None
    }
    &&& after[FOLLOWER_EFFECT as int].consumes@ == before[FOLLOWER_EFFECT as int].consumes@.update(
        0,
        (before[FOLLOWER_EFFECT as int].consumes@[0].0, PerSecond(food_rate(followers) as i64)),
    )
    &&& after[FOLLOWER_EFFECT as int].produces@ == before[FOLLOWER_EFFECT as int].produces@.update(
        0,
        (
            before[FOLLOWER_EFFECT as int].produces@[0].0,
            PerSecond(godpower_rate(followers, logarithm as nat) as i64),
        ),
    )
    &&& forall|j: int|
        0 <= j < JOB_COUNT ==> (#[trigger] after[FIRST_JOB_EFFECT + j]).produces@ == rates_of(
            jobs[j].produces@,
            jobs[j].followers_assigned,
        )
}

/// What a whole tick makes of the stockyard and the effects: the four
/// steps, each on what the step before left.
pub open spec fn tick_runs(
    yard: Stockyard,
    effects: Seq<StockyardProducerConsumer>,
    action_spc: PlayerActionSpc,
    jobs: Seq<Job>,
    logarithm: u64,
    end_yard: Stockyard,
    end_effects: Seq<StockyardProducerConsumer>,
) -> bool {
    exists|asked: Seq<StockyardProducerConsumer>,
        cleared: Seq<StockyardProducerConsumer>,
        middle: Stockyard,
    |
        {
            &&& #[trigger] demanded(effects, asked, action_spc, jobs, yard.spec_gate_open())
            &&& same_but_fulfillment(asked, cleared)
            &&& settled(cleared, yard)
            &&& #[trigger] consumed(yard, cleared, middle)
            &&& derived(
                cleared,
                end_effects,
                action_spc,
                jobs,
                yard.spec_gate_open(),
                middle.stock(StockKind::Followers).current(),
                logarithm,
            )
            &&& produced(middle, end_effects, end_yard)
        }
}

/// The effects before the first tick.
pub fn initialize_effects() -> (r: Vec<StockyardProducerConsumer>)
    ensures
        effects_wf(r@),
        r@[FOLLOWER_EFFECT as int].consumes@ == seq![(StockKind::Food, PerSecond(0))],
        r@[FOLLOWER_EFFECT as int].produces@ == seq![(StockKind::Godpower, PerSecond(0))],
        forall|i: int|
            0 <= i < EFFECT_COUNT && i != FOLLOWER_EFFECT ==> (#[trigger] r@[i]).consumes@.len()
                == 0 && r@[i].produces@.len() == 0,
        forall|i: int| 0 <= i < EFFECT_COUNT ==> (#[trigger] r@[i]).multiplier().is_none(),
{
    let mut effects: Vec<StockyardProducerConsumer> = Vec::new();
    effects.push(StockyardProducerConsumer::default());
    effects.push(init_follower_stockyard_producer_consumer());
    let mut j: usize = 0;
    while j < JOB_COUNT
        invariant
            j <= JOB_COUNT,
            effects@.len() == 2 + j,
            effects@[FOLLOWER_EFFECT as int].consumes@ == seq![(StockKind::Food, PerSecond(0))],
            effects@[FOLLOWER_EFFECT as int].produces@ == seq![
                (StockKind::Godpower, PerSecond(0)),
            ],
            forall|i: int|
                0 <= i < effects@.len() && i != FOLLOWER_EFFECT ==> (
                #[trigger] effects@[i]).consumes@.len() == 0 && effects@[i].produces@.len() == 0,
            forall|i: int|
                0 <= i < effects@.len() ==> (#[trigger] effects@[i]).multiplier().is_none()
                    && effects@[i].wf(),
        decreases JOB_COUNT - j,
    {
        effects.push(StockyardProducerConsumer::default());
        j = j + 1;
    }
    effects
}

/// The first step of a tick: every effect is told what to ask for.
pub fn demand_phase(
    effects: &mut Vec<StockyardProducerConsumer>,
    action_spc: &PlayerActionSpc,
    jobs: &Vec<Job>,
    gate_open: bool,
)
    requires
        effects_wf(old(effects)@),
        jobs_in_order(jobs@),
    ensures
        effects_wf(final(effects)@),
        demanded(old(effects)@, final(effects)@, *action_spc, jobs@, gate_open),
{
    crate::action::spc::preconsume(&mut effects[PLAYER_EFFECT], action_spc, gate_open);
    let mut j: usize = 0;
    while j < JOB_COUNT
        invariant
            j <= JOB_COUNT,
            jobs@.len() == JOB_COUNT,
            effects@.len() == EFFECT_COUNT,
            same_but_consumes(old(effects)@, effects@),
            effects@[PLAYER_EFFECT as int].consumes@ == if gate_open {
                demands_of(action_spc.changes(), action_spc.spec_affinity_multiplier())
            } else {
                Seq::empty()
            },
            effects@[FOLLOWER_EFFECT as int].consumes == old(effects)@[FOLLOWER_EFFECT as int].consumes,
            forall|k: int|
                0 <= k < j ==> (#[trigger] effects@[FIRST_JOB_EFFECT + k]).consumes@ == rates_of(
                    jobs@[k].consumes@,
                    jobs@[k].followers_assigned,
                ),
        decreases JOB_COUNT - j,
    {
        crate::job::spc::preconsume(&jobs[j], &mut effects[FIRST_JOB_EFFECT + j]);
        j = j + 1;
    }
}

/// The second step of a tick: consumption.
pub fn clear_phase(stockyard: &mut Stockyard, effects: &mut Vec<StockyardProducerConsumer>)
    requires
        old(stockyard).wf(),
        effects_wf(old(effects)@),
    ensures
        final(stockyard).wf(),
        effects_wf(final(effects)@),
        same_but_fulfillment(old(effects)@, final(effects)@),
        settled(final(effects)@, *old(stockyard)),
        consumed(*old(stockyard), final(effects)@, *final(stockyard)),
{
    consume_modifiers(stockyard, effects);
}

/// The third step of a tick: what each effect makes is set, from what
/// consumption has left.
pub fn derived_update_phase(
    stockyard: &Stockyard,
    effects: &mut Vec<StockyardProducerConsumer>,
    action_spc: &PlayerActionSpc,
    jobs: &Vec<Job>,
    gate_open: bool,
    logarithm: u64,
)
    requires
        stockyard.wf(),
        effects_wf(old(effects)@),
        jobs_in_order(jobs@),
    ensures
        effects_wf(final(effects)@),
        derived(
            old(effects)@,
            final(effects)@,
            *action_spc,
            jobs@,
            gate_open,
            stockyard.stock(StockKind::Followers).current(),
            logarithm,
        ),
{
    crate::action::spc::postconsume(&mut effects[PLAYER_EFFECT], action_spc, gate_open);
    update_follower_modifier(stockyard, &mut effects[FOLLOWER_EFFECT], logarithm);
    let ghost followers = stockyard.stock(StockKind::Followers).current();
    let mut j: usize = 0;
    while j < JOB_COUNT
        invariant
            j <= JOB_COUNT,
            jobs@.len() == JOB_COUNT,
            effects@.len() == EFFECT_COUNT,
            forall|i: int|
                0 <= i < EFFECT_COUNT ==> (#[trigger] effects@[i]).fulfillment() == old(effects)@[i].fulfillment(),
            forall|i: int|
                0 <= i < EFFECT_COUNT && i != FOLLOWER_EFFECT ==> (#[trigger] effects@[i]).consumes
                    == old(effects)@[i].consumes,
            forall|i: int|
                1 <= i < EFFECT_COUNT ==> (#[trigger] effects@[i]).multiplier() == old(effects)@[i].multiplier(),
            effects@[PLAYER_EFFECT as int].produces@ == if gate_open {
                supplies_of(action_spc.changes())
            } else {
                Seq::empty()
            },
            effects@[PLAYER_EFFECT as int].multiplier() == if action_spc.has_affinity() {
                Some(action_spc.multiplier_of_affinity())
            } else {
                None
            },
            effects@[FOLLOWER_EFFECT as int].consumes@ == old(effects)@[FOLLOWER_EFFECT as int].consumes@.update(
                0,
                (
                    old(effects)@[FOLLOWER_EFFECT as int].consumes@[0].0,
                    PerSecond(food_rate(followers) as i64),
                ),
            ),
            effects@[FOLLOWER_EFFECT as int].produces@ == old(effects)@[FOLLOWER_EFFECT as int].produces@.update(
                0,
                (
                    old(effects)@[FOLLOWER_EFFECT as int].produces@[0].0,
                    PerSecond(godpower_rate(followers, logarithm as nat) as i64),
                ),
            ),
            forall|k: int|
                0 <= k < j ==> (#[trigger] effects@[FIRST_JOB_EFFECT + k]).produces@ == rates_of(
                    jobs@[k].produces@,
                    jobs@[k].followers_assigned,
                ),
        decreases JOB_COUNT - j,
    {
        crate::job::spc::postconsume(&jobs[j], &mut effects[FIRST_JOB_EFFECT + j]);
        j = j + 1;
    }
}

/// The fourth step of a tick: production.
pub fn produce_phase(stockyard: &mut Stockyard, effects: &Vec<StockyardProducerConsumer>)
    requires
        old(stockyard).wf(),
        effects_wf(effects@),
    ensures
        final(stockyard).wf(),
        produced(*old(stockyard), effects@, *final(stockyard)),
{
    produce_modifiers(stockyard, effects);
}

/// Runs one step of a tick.
///
/// `gate_open` is what the stockyard said of its gate before the first
/// step of the tick. `logarithm` is the decimal logarithm of the number of
/// followers, in millionths; the third step reads it.
pub fn run_phase(
    phase: StockSystems,
    stockyard: &mut Stockyard,
    effects: &mut Vec<StockyardProducerConsumer>,
    action_spc: &PlayerActionSpc,
    jobs: &Vec<Job>,
    gate_open: bool,
    logarithm: u64,
)
    requires
        old(stockyard).wf(),
        effects_wf(old(effects)@),
        jobs_in_order(jobs@),
    ensures
        final(stockyard).wf(),
        effects_wf(final(effects)@),
        match phase {
            StockSystems::PreConsume => {
                &&& *final(stockyard) == *old(stockyard)
                &&& demanded(old(effects)@, final(effects)@, *action_spc, jobs@, gate_open)
            },
            StockSystems::Consume => {
                &&& same_but_fulfillment(old(effects)@, final(effects)@)
                &&& settled(final(effects)@, *old(stockyard))
                &&& consumed(*old(stockyard), final(effects)@, *final(stockyard))
            },
            StockSystems::PostConsume => {
                &&& *final(stockyard) == *old(stockyard)
                &&& derived(
                    old(effects)@,
                    final(effects)@,
                    *action_spc,
                    jobs@,
                    gate_open,
                    old(stockyard).stock(StockKind::Followers).current(),
                    logarithm,
                )
            },
            StockSystems::Produce => {
                &&& final(effects)@ == old(effects)@
                &&& produced(*old(stockyard), old(effects)@, *final(stockyard))
            },
        },
{
    match phase {
        StockSystems::PreConsume => {
            demand_phase(effects, action_spc, jobs, gate_open);
        },
        StockSystems::Consume => {
            clear_phase(stockyard, effects);
        },
        StockSystems::PostConsume => {
            derived_update_phase(stockyard, effects, action_spc, jobs, gate_open, logarithm);
        },
        StockSystems::Produce => {
            produce_phase(stockyard, effects);
        },
    }
}

/// Runs one tick: the four steps in their order. The stockyard's gate
/// is read once, before the first step, and holds the player's action for
/// the whole tick where it is shut.
///
/// `logarithm` is the decimal logarithm of the number of followers, in
/// millionths.
pub fn run_tick(
    stockyard: &mut Stockyard,
    effects: &mut Vec<StockyardProducerConsumer>,
    action_spc: &PlayerActionSpc,
    jobs: &Vec<Job>,
    logarithm: u64,
)
    requires
        old(stockyard).wf(),
        effects_wf(old(effects)@),
        jobs_in_order(jobs@),
    ensures
        final(stockyard).wf(),
        effects_wf(final(effects)@),
        final(stockyard).gate() == old(stockyard).gate(),
        tick_runs(
            *old(stockyard),
            old(effects)@,
            *action_spc,
            jobs@,
            logarithm,
            *final(stockyard),
            final(effects)@,
        ),
{
    let gate_open: bool = stockyard.gate_open();
    let order: [StockSystems; 4] = phase_order();
    let ghost mut asked = effects@;
    let ghost mut cleared = effects@;
    let ghost mut middle = *stockyard;
    let ghost mut shaped = effects@;
    let mut step: usize = 0;
    while step < 4
        invariant
            step <= 4,
            order@ == seq![
                StockSystems::PreConsume,
                StockSystems::Consume,
                StockSystems::PostConsume,
                StockSystems::Produce,
            ],
            gate_open == old(stockyard).spec_gate_open(),
            stockyard.wf(),
            effects_wf(effects@),
            jobs_in_order(jobs@),
            step == 0 ==> effects@ == old(effects)@ && *stockyard == *old(stockyard),
            step >= 1 ==> demanded(old(effects)@, asked, *action_spc, jobs@, gate_open),
            step == 1 ==> effects@ == asked && *stockyard == *old(stockyard),
            step >= 2 ==> same_but_fulfillment(asked, cleared) && settled(cleared, *old(stockyard))
                && consumed(*old(stockyard), cleared, middle),
            step == 2 ==> effects@ == cleared && *stockyard == middle,
            step >= 3 ==> derived(
                cleared,
                shaped,
                *action_spc,
                jobs@,
                gate_open,
                middle.stock(StockKind::Followers).current(),
                logarithm,
            ),
            step == 3 ==> effects@ == shaped && *stockyard == middle,
            step == 4 ==> effects@ == shaped && produced(middle, shaped, *stockyard),
        decreases 4 - step,
    {
        run_phase(order[step], stockyard, effects, action_spc, jobs, gate_open, logarithm);
        proof {
            if step == 0 {
                asked = effects@;
            } else if step == 1 {
                cleared = effects@;
                middle = *stockyard;
            } else if step == 2 {
                shaped = effects@;
            }
        }
        step = step + 1;
    }
    proof {
        assert(demanded(old(effects)@, asked, *action_spc, jobs@, old(stockyard).spec_gate_open()));
        assert(consumed(*old(stockyard), cleared, middle));
    }
}

/// The steps of a tick in the order in which they run.
pub fn phase_order() -> (r: [StockSystems; 4])
    ensures
        r@ == seq![
            StockSystems::PreConsume,
            StockSystems::Consume,
            StockSystems::PostConsume,
            StockSystems::Produce,
        ],
{
    [
        StockSystems::PreConsume,
        StockSystems::Consume,
        StockSystems::PostConsume,
        StockSystems::Produce,
    ]
}

} // verus!
