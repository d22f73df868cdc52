use incremental_affix::fixed::{PerSecond, UNIT};
use incremental_affix::stock::producer_consumer::{
    consume_modifiers, produce_modifiers, StockSystems, StockyardProducerConsumer,
};
use incremental_affix::stock::stockyard::Stockyard;
use incremental_affix::stock::{Stock, StockKind};

fn per_tick(units: u64) -> PerSecond {
    PerSecond((units * UNIT * 20) as i64)
}

fn effect(
    consumes: Vec<(StockKind, PerSecond)>,
    produces: Vec<(StockKind, PerSecond)>,
) -> StockyardProducerConsumer {
    StockyardProducerConsumer::with_lists(consumes, produces)
}

fn amount(yard: &Stockyard, kind: StockKind) -> u64 {
    yard.get(kind).amount()
}

fn clear_marks(yard: &mut Stockyard) {
    for kind in StockKind::list() {
        yard.has_changed(kind);
    }
}

#[test]
fn two_effects_share_a_scarce_stock() {
    let mut yard = Stockyard::default();
    yard.set(StockKind::Wood, Stock::new(10 * UNIT, Some(100 * UNIT)));
    let mut effects = vec![
        effect(vec![(StockKind::Wood, per_tick(10))], vec![(StockKind::Stone, per_tick(4))]),
        effect(vec![(StockKind::Wood, per_tick(10))], vec![(StockKind::Food, per_tick(6))]),
    ];
    consume_modifiers(&mut yard, &mut effects);
    for one in effects.iter() {
        let got = one.consumption_fullfilled();
        assert_eq!(got.numerator() * 2, got.denominator());
        assert_eq!(got.as_millionths(), 500_000);
    }
    assert_eq!(amount(&yard, StockKind::Wood), 0);
    produce_modifiers(&mut yard, &effects);
    assert_eq!(amount(&yard, StockKind::Stone), 2 * UNIT);
    assert_eq!(amount(&yard, StockKind::Food), 3 * UNIT);
}

#[test]
fn demand_of_exactly_what_is_held_is_paid_in_full() {
    let mut yard = Stockyard::default();
    yard.set(StockKind::Wood, Stock::new(10 * UNIT, Some(100 * UNIT)));
    let mut effects = vec![
        effect(vec![(StockKind::Wood, per_tick(4))], vec![]),
        effect(vec![(StockKind::Wood, per_tick(6))], vec![]),
    ];
    consume_modifiers(&mut yard, &mut effects);
    for one in effects.iter() {
        let got = one.consumption_fullfilled();
        assert_eq!((got.numerator(), got.denominator()), (1, 1));
    }
    assert_eq!(amount(&yard, StockKind::Wood), 0);
}

#[test]
fn demand_on_an_empty_stock_gets_nothing() {
    let mut yard = Stockyard::default();
    let mut effects =
        vec![effect(vec![(StockKind::Wood, per_tick(1))], vec![(StockKind::Stone, per_tick(1))])];
    consume_modifiers(&mut yard, &mut effects);
    assert_eq!(effects[0].consumption_fullfilled().numerator(), 0);
    assert_eq!(effects[0].consumption_fullfilled().as_millionths(), 0);
    produce_modifiers(&mut yard, &effects);
    assert_eq!(amount(&yard, StockKind::Stone), 0);
}

#[test]
fn effect_that_asks_for_nothing_is_fulfilled_whatever_others_get() {
    let mut yard = Stockyard::default();
    let mut effects = vec![
        effect(vec![(StockKind::Wood, per_tick(5))], vec![]),
        effect(vec![], vec![(StockKind::Stone, per_tick(2))]),
    ];
    consume_modifiers(&mut yard, &mut effects);
    assert_eq!(effects[0].consumption_fullfilled().numerator(), 0);
    let free = effects[1].consumption_fullfilled();
    assert_eq!((free.numerator(), free.denominator()), (1, 1));
    produce_modifiers(&mut yard, &effects);
    assert_eq!(amount(&yard, StockKind::Stone), 2 * UNIT);
}

#[test]
fn effect_is_held_to_the_scarcest_of_its_kinds() {
    // One effect asks for wood only, the other for wood and for stone, of
    // which there is none.
    let mut yard = Stockyard::default();
    yard.set(StockKind::Wood, Stock::new(10 * UNIT, Some(100 * UNIT)));
    let mut effects = vec![
        effect(vec![(StockKind::Wood, per_tick(10))], vec![]),
        effect(vec![(StockKind::Wood, per_tick(10)), (StockKind::Stone, per_tick(10))], vec![]),
    ];
    consume_modifiers(&mut yard, &mut effects);
    assert_eq!(effects[0].consumption_fullfilled().as_millionths(), 500_000);
    assert_eq!(effects[1].consumption_fullfilled().as_millionths(), 0);
    assert_eq!(amount(&yard, StockKind::Wood), 5 * UNIT);
}

#[test]
fn consumption_never_takes_more_than_was_held() {
    let mut yard = Stockyard::default();
    yard.set(StockKind::Meat, Stock::new(10, Some(100 * UNIT)));
    let mut effects = vec![
        effect(vec![(StockKind::Meat, PerSecond(7 * 20))], vec![]),
        effect(vec![(StockKind::Meat, PerSecond(7 * 20))], vec![]),
        effect(vec![(StockKind::Meat, PerSecond(7 * 20))], vec![]),
    ];
    consume_modifiers(&mut yard, &mut effects);
    // Each draws seven times ten over twenty-one, rounded down: three.
    assert_eq!(amount(&yard, StockKind::Meat), 1);
    for one in effects.iter() {
        let got = one.consumption_fullfilled();
        assert_eq!((got.numerator(), got.denominator()), (10, 21));
    }
}

#[test]
fn starved_stock_is_drawn_to_nothing_when_the_cut_divides() {
    let mut yard = Stockyard::default();
    yard.set(StockKind::Food, Stock::new(9 * UNIT, Some(100 * UNIT)));
    let mut effects = vec![
        effect(vec![(StockKind::Food, per_tick(6))], vec![]),
        effect(vec![(StockKind::Food, per_tick(12))], vec![]),
    ];
    consume_modifiers(&mut yard, &mut effects);
    assert_eq!(amount(&yard, StockKind::Food), 0);
    assert_eq!(effects[0].consumption_fullfilled().as_millionths(), 500_000);
}

#[test]
fn satisfied_demand_is_taken_in_full() {
    let mut yard = Stockyard::default();
    yard.set(StockKind::Wood, Stock::new(50 * UNIT, Some(100 * UNIT)));
    yard.set(StockKind::Stone, Stock::new(20 * UNIT, Some(100 * UNIT)));
    let mut effects = vec![
        effect(vec![(StockKind::Wood, per_tick(10)), (StockKind::Stone, per_tick(5))], vec![]),
        effect(vec![(StockKind::Wood, per_tick(15))], vec![]),
    ];
    consume_modifiers(&mut yard, &mut effects);
    assert_eq!(amount(&yard, StockKind::Wood), 25 * UNIT);
    assert_eq!(amount(&yard, StockKind::Stone), 15 * UNIT);
    for one in effects.iter() {
        assert_eq!(one.consumption_fullfilled().as_millionths(), UNIT);
    }
}

#[test]
fn idle_tick_changes_nothing() {
    let mut yard = Stockyard::default();
    yard.set(StockKind::Wood, Stock::new(5 * UNIT, Some(100 * UNIT)));
    clear_marks(&mut yard);
    let mut effects = vec![effect(vec![], vec![]), effect(vec![], vec![])];
    consume_modifiers(&mut yard, &mut effects);
    produce_modifiers(&mut yard, &effects);
    assert_eq!(amount(&yard, StockKind::Wood), 5 * UNIT);
    assert_eq!(amount(&yard, StockKind::Godpower), 10 * UNIT);
    for kind in StockKind::list() {
        assert!(!yard.has_changed(kind));
    }
    for one in effects.iter() {
        assert_eq!(one.consumption_fullfilled().as_millionths(), UNIT);
    }
}

#[test]
fn tick_without_effects_changes_nothing() {
    let mut yard = Stockyard::default();
    clear_marks(&mut yard);
    let mut effects: Vec<StockyardProducerConsumer> = Vec::new();
    consume_modifiers(&mut yard, &mut effects);
    produce_modifiers(&mut yard, &effects);
    assert_eq!(amount(&yard, StockKind::Godpower), 10 * UNIT);
    for kind in StockKind::list() {
        assert!(!yard.has_changed(kind));
    }
}

#[test]
fn changed_stocks_are_marked() {
    let mut yard = Stockyard::default();
    yard.set(StockKind::Wood, Stock::new(5 * UNIT, Some(100 * UNIT)));
    clear_marks(&mut yard);
    let mut effects =
        vec![effect(vec![(StockKind::Wood, per_tick(1))], vec![(StockKind::Stone, per_tick(1))])];
    consume_modifiers(&mut yard, &mut effects);
    assert!(yard.has_changed(StockKind::Wood));
    assert!(!yard.has_changed(StockKind::Stone));
    produce_modifiers(&mut yard, &effects);
    assert!(yard.has_changed(StockKind::Stone));
    assert!(!yard.has_changed(StockKind::Wood));
    assert!(!yard.has_changed(StockKind::Food));
}

#[test]
fn production_stops_at_the_limit() {
    let mut yard = Stockyard::default();
    yard.set(StockKind::Carcass, Stock::new(9 * UNIT, Some(10 * UNIT)));
    let effects = vec![
        effect(vec![], vec![(StockKind::Carcass, per_tick(3))]),
        effect(vec![], vec![(StockKind::Carcass, per_tick(3))]),
    ];
    produce_modifiers(&mut yard, &effects);
    assert_eq!(amount(&yard, StockKind::Carcass), 10 * UNIT);
}

#[test]
fn production_is_scaled_by_the_multiplier_in_force() {
    let mut yard = Stockyard::default();
    let mut gatherer = effect(vec![], vec![(StockKind::Wood, per_tick(2))]);
    gatherer.set_multiplier(Some(2_500_000));
    assert_eq!(gatherer.active_multiplier(), Some(2_500_000));
    let effects = vec![gatherer];
    produce_modifiers(&mut yard, &effects);
    assert_eq!(amount(&yard, StockKind::Wood), 5 * UNIT);
}

#[test]
fn new_effect_counts_as_unfulfilled_until_it_consumes() {
    let fresh = StockyardProducerConsumer::new();
    assert_eq!(fresh.consumption_fullfilled().numerator(), 0);
    assert!(fresh.consumes.is_empty());
    assert!(fresh.produces.is_empty());
    let other = StockyardProducerConsumer::default();
    assert_eq!(other.active_multiplier(), None);
}

#[test]
fn rates_that_take_ask_for_nothing() {
    let mut yard = Stockyard::default();
    yard.set(StockKind::Wood, Stock::new(5 * UNIT, Some(100 * UNIT)));
    let mut effects = vec![effect(
        vec![(StockKind::Wood, PerSecond(-20_000_000))],
        vec![(StockKind::Stone, PerSecond(-20_000_000))],
    )];
    consume_modifiers(&mut yard, &mut effects);
    produce_modifiers(&mut yard, &effects);
    assert_eq!(amount(&yard, StockKind::Wood), 5 * UNIT);
    assert_eq!(amount(&yard, StockKind::Stone), 0);
    assert_eq!(effects[0].consumption_fullfilled().as_millionths(), UNIT);
}

#[test]
fn demand_beyond_what_can_be_counted_is_counted_to_the_end() {
    let mut yard = Stockyard::default();
    yard.set(StockKind::BranchesAndPebbles, Stock::new(u64::MAX, None));
    let mut effects = Vec::new();
    for _ in 0..41 {
        effects.push(effect(vec![(StockKind::BranchesAndPebbles, PerSecond(i64::MAX))], vec![]));
    }
    consume_modifiers(&mut yard, &mut effects);
    let got = effects[0].consumption_fullfilled();
    assert_eq!((got.numerator(), got.denominator()), (1, 1));
    assert_eq!(amount(&yard, StockKind::BranchesAndPebbles), 0);
}

#[test]
fn steps_are_told_apart() {
    assert_ne!(StockSystems::PreConsume, StockSystems::Consume);
    assert_ne!(StockSystems::PostConsume, StockSystems::Produce);
}
