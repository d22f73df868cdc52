use incremental_affix::text::{
    digit, magnitude, push_decimal, push_fixed_hundredths, push_hundredths, push_millionths,
    push_signed, push_text, round_to_hundredths, sign,
};

fn with(write: impl Fn(&mut String)) -> String {
    let mut out = String::from(">");
    write(&mut out);
    out
}

#[test]
fn decimal_digits_of_whole_numbers() {
    assert_eq!(with(|out| push_decimal(out, 0)), ">0");
    assert_eq!(with(|out| push_decimal(out, 7)), ">7");
    assert_eq!(with(|out| push_decimal(out, 1_030)), ">1030");
    assert_eq!(with(|out| push_decimal(out, u64::MAX)), format!(">{}", u64::MAX));
}

#[test]
fn signed_numbers_carry_their_minus() {
    assert_eq!(with(|out| push_signed(out, -15)), ">-15");
    assert_eq!(with(|out| push_signed(out, 15)), ">15");
    assert_eq!(with(|out| push_signed(out, i64::MIN)), format!(">{}", i64::MIN));
}

#[test]
fn hundredths_drop_the_zeros_behind_the_point() {
    assert_eq!(with(|out| push_hundredths(out, 50)), ">0.5");
    assert_eq!(with(|out| push_hundredths(out, 120)), ">1.2");
    assert_eq!(with(|out| push_hundredths(out, 100)), ">1");
    assert_eq!(with(|out| push_hundredths(out, 5)), ">0.05");
    assert_eq!(with(|out| push_hundredths(out, 0)), ">0");
    assert_eq!(with(|out| push_hundredths(out, -15)), ">-0.15");
    assert_eq!(with(|out| push_hundredths(out, 12_345)), ">123.45");
}

#[test]
fn hundredths_agree_with_the_shortest_decimal_of_the_quotient() {
    for n in -300..300i64 {
        let expected = format!(">{}", n as f32 / 100.0);
        assert_eq!(with(|out| push_hundredths(out, n)), expected);
    }
}

#[test]
fn fixed_hundredths_keep_both_digits() {
    assert_eq!(with(|out| push_fixed_hundredths(out, 500)), ">5.00");
    assert_eq!(with(|out| push_fixed_hundredths(out, 7)), ">0.07");
    assert_eq!(with(|out| push_fixed_hundredths(out, 1_230)), ">12.30");
}

#[test]
fn millionths_drop_the_zeros_behind_the_point() {
    assert_eq!(with(|out| push_millionths(out, 100_000_000)), ">100");
    assert_eq!(with(|out| push_millionths(out, 10_500_000)), ">10.5");
    assert_eq!(with(|out| push_millionths(out, 1)), ">0.000001");
    assert_eq!(with(|out| push_millionths(out, 1_000_100)), ">1.0001");
    assert_eq!(with(|out| push_millionths(out, 0)), ">0");
}

#[test]
fn rounding_to_hundredths_takes_halves_up() {
    assert_eq!(round_to_hundredths(4_999), 0);
    assert_eq!(round_to_hundredths(5_000), 1);
    assert_eq!(round_to_hundredths(1_234_567), 123);
    assert_eq!(round_to_hundredths(u64::MAX), u64::MAX / 10_000);
    assert_eq!(round_to_hundredths(u64::MAX - 1_615 - 5_000), u64::MAX / 10_000);
}

#[test]
fn signs_digits_and_sizes() {
    assert_eq!(sign(3), '+');
    assert_eq!(sign(0), '-');
    assert_eq!(sign(-3), '-');
    assert_eq!(digit(0), '0');
    assert_eq!(digit(9), '9');
    assert_eq!(magnitude(-5), 5);
    assert_eq!(magnitude(5), 5);
    assert_eq!(magnitude(i64::MIN), 1u64 << 63);
    assert_eq!(with(|out| push_text(out, "abc")), ">abc");
}
