use facturx_create::decimal::{
    decimal_string, drop_digits, format_rounded, magnitude, push_plain, round_half_even,
};

#[test]
fn whole_numbers() {
    assert_eq!(decimal_string(0), "0");
    assert_eq!(decimal_string(7), "7");
    assert_eq!(decimal_string(380), "380");
    assert_eq!(decimal_string(u128::MAX), u128::MAX.to_string());
    assert_eq!(drop_digits(12345, 2), 123);
    assert_eq!(drop_digits(5, 3), 0);
    assert_eq!(magnitude(-5), 5);
    assert_eq!(magnitude(i128::MIN), 1u128 << 127);
    assert_eq!(magnitude(i128::MAX), i128::MAX as u128);
}

#[test]
fn rounding_goes_half_to_even() {
    assert_eq!(round_half_even(125, 10), 12);
    assert_eq!(round_half_even(135, 10), 14);
    assert_eq!(round_half_even(126, 10), 13);
    assert_eq!(round_half_even(124, 10), 12);
    assert_eq!(round_half_even(5, 10), 0);
    assert_eq!(round_half_even(15, 10), 2);
    assert_eq!(round_half_even(7, 1), 7);
    assert_eq!(round_half_even(u128::MAX, 1), u128::MAX);
    assert_eq!(round_half_even(u128::MAX, 2), 1u128 << 127);
    assert_eq!(round_half_even(u128::MAX, u128::MAX), 1);
    assert_eq!(round_half_even(u128::MAX - 1, u128::MAX), 1);
    assert_eq!(round_half_even(3, 7), 0);
    assert_eq!(round_half_even(4, 7), 1);
}

#[test]
fn fixed_point_text() {
    assert_eq!(format_rounded(200_000_000_000, 1_000_000, 2), "2000.00");
    assert_eq!(format_rounded(400_000_000_000_000, 10_000_000_000, 2), "400.00");
    assert_eq!(format_rounded(2000, 1, 2), "20.00");
    assert_eq!(format_rounded(550, 10, 1), "5.5");
    assert_eq!(format_rounded(555, 10, 1), "5.6");
    assert_eq!(format_rounded(545, 10, 1), "5.4");
    assert_eq!(format_rounded(5, 1, 2), "0.05");
    assert_eq!(format_rounded(0, 1, 2), "0.00");
    assert_eq!(format_rounded(0, 1_000_000, 2), "0.00");
    assert_eq!(format_rounded(12345, 1, 0), "12345");
    assert_eq!(format_rounded(12345, 100, 0), "123");
    assert_eq!(format_rounded(12350, 100, 0), "124");
    assert_eq!(format_rounded(12250, 100, 0), "122");
    // 5 247 375 000 steps of 10^-8 are 52.47375
    assert_eq!(format_rounded(5_247_375_000, 1_000_000, 2), "52.47");
    assert_eq!(format_rounded(12_500_000, 1_000_000, 2), "0.12");
    assert_eq!(format_rounded(13_500_000, 1_000_000, 2), "0.14");
    assert_eq!(format_rounded(12_500_001, 1_000_000, 2), "0.13");
    assert_eq!(format_rounded(999_500_000, 1_000_000, 2), "10.00");
    assert_eq!(format_rounded(7, 1, 3), "0.007");
}

#[test]
fn amounts_below_zero_keep_their_sign() {
    assert_eq!(format_rounded(-150, 1, 2), "-1.50");
    assert_eq!(format_rounded(-125, 10, 1), "-1.2");
    assert_eq!(format_rounded(-1, 1_000_000, 2), "-0.00");
    assert_eq!(
        format_rounded(i128::MIN, 1, 2),
        "-1701411834604692317316873037158841057.28"
    );
    assert_eq!(format_rounded(i128::MAX, 1, 0), i128::MAX.to_string());
}

#[test]
fn agrees_with_the_standard_formatting_of_exact_values() {
    for cents in [0i128, 1, 9, 10, 99, 100, 101, 123456, 1999, 99999999] {
        let ours = format_rounded(cents, 1, 2);
        let theirs = format!("{}.{:02}", cents / 100, cents % 100);
        assert_eq!(ours, theirs);
    }
    for (value, text) in [(0.5f64, "0.5"), (20.0, "20.0"), (5.5, "5.5"), (100.0, "100.0")] {
        let tenths = (value * 10.0).round() as i128;
        assert_eq!(format_rounded(tenths * 10, 10, 1), text);
        assert_eq!(format!("{:.1}", value), text);
    }
}

#[test]
fn plain_text() {
    let plain = |value: i128, digits: u8| {
        let mut s = String::from(">");
        push_plain(&mut s, value, digits);
        s
    };
    assert_eq!(plain(0, 2), ">0");
    assert_eq!(plain(100, 2), ">1");
    assert_eq!(plain(150, 2), ">1.5");
    assert_eq!(plain(155, 2), ">1.55");
    assert_eq!(plain(5, 2), ">0.05");
    assert_eq!(plain(-150, 2), ">-1.5");
    assert_eq!(plain(12345, 0), ">12345");
    assert_eq!(plain(1200, 0), ">1200");
    assert_eq!(plain(1_000_000_000_000, 12), ">1");
    assert_eq!(plain(1, 12), ">0.000000000001");
    for (hundredths, value) in [(150i128, 1.5f64), (1000, 10.0), (1999, 19.99), (5, 0.05)] {
        assert_eq!(plain(hundredths, 2), format!(">{}", value));
    }
}
