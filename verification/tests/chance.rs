use incremental_affix::affinity::Affinity;
use incremental_affix::chance::{counted_from, random_between, random_index, roll};
use incremental_affix::critical::Critical;
use incremental_affix::fixed::UNIT;

#[test]
fn rolls_lie_below_one() {
    for _ in 0..1_000 {
        assert!(roll() < UNIT);
    }
}

#[test]
fn draw_from_a_range_of_one_value_is_that_value() {
    assert_eq!(random_between(5, 5), 5);
    assert_eq!(random_between(-7, -7), -7);
    assert_eq!(random_between(i32::MAX, i32::MAX), i32::MAX);
    assert_eq!(random_between(i32::MIN, i32::MIN), i32::MIN);
    assert_eq!(random_index(1), 0);
}

#[test]
fn draws_lie_within_their_range() {
    let mut seen = [false; 4];
    for _ in 0..1_000 {
        let drawn = random_between(-1, 2);
        assert!((-1..=2).contains(&drawn));
        seen[(drawn + 1) as usize] = true;
        assert!(random_index(3) < 3);
        let wide = random_between(i32::MIN, i32::MAX);
        assert!(wide >= i32::MIN);
    }
    assert!(seen.iter().all(|one| *one));
}

#[test]
fn affinity_check_goes_by_the_roll() {
    let affinity = Affinity { chance: 300_000, multiplier: 2 * UNIT, time: 1 };
    assert!(affinity.check_with(0));
    assert!(affinity.check_with(299_999));
    assert!(!affinity.check_with(300_000));
    let none = Affinity::new();
    assert_eq!((none.chance, none.multiplier, none.time), (0, 0, 0));
    assert!(!none.check_with(0));
    assert!(!none.check());
    let same = Affinity::default();
    assert_eq!(same.chance, 0);
    let sure = Affinity { chance: UNIT, multiplier: UNIT, time: 0 };
    assert!(sure.check_with(999_999));
    for _ in 0..100 {
        assert!(sure.check());
    }
}

#[test]
fn critical_has_an_even_chance_of_double_work_for_a_second() {
    let critical = Critical::new();
    assert_eq!(critical.chance, 500_000);
    assert_eq!(critical.multiplier, 2_000_000);
    assert_eq!(critical.time, 1_000_000_000);
    assert!(critical.check_with(499_999));
    assert!(!critical.check_with(500_000));
    let sure = Critical { chance: UNIT, multiplier: UNIT, time: 0 };
    assert!(sure.check());
    let never = Critical { chance: 0, multiplier: UNIT, time: 0 };
    assert!(!never.check());
}

#[test]
fn draw_is_counted_on_from_the_low_end() {
    assert_eq!(counted_from(5, 0), 5);
    assert_eq!(counted_from(-3, 7), 4);
    assert_eq!(counted_from(10, 10), 20);
    assert_eq!(counted_from(i32::MIN, u32::MAX as u64), i32::MAX);
    assert_eq!(counted_from(i32::MAX, 0), i32::MAX);
}
