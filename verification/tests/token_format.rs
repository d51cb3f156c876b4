use clawdis::format_tokens;

fn double_precision_text(count: u64) -> String {
    if count >= 1_000_000 {
        format!("{:.1}M", count as f64 / 1_000_000.0)
    } else if count >= 1_000 {
        format!("{:.1}k", count as f64 / 1_000.0)
    } else {
        format!("{}", count)
    }
}

#[test]
fn plain_numbers_below_a_thousand() {
    assert_eq!(format_tokens(0), "0");
    assert_eq!(format_tokens(7), "7");
    assert_eq!(format_tokens(42), "42");
    assert_eq!(format_tokens(999), "999");
}

#[test]
fn thousands_take_one_decimal_and_k() {
    assert_eq!(format_tokens(1_000), "1.0k");
    assert_eq!(format_tokens(1_500), "1.5k");
    assert_eq!(format_tokens(12_345), "12.3k");
    assert_eq!(format_tokens(999_949), "999.9k");
}

#[test]
fn millions_take_one_decimal_and_m() {
    assert_eq!(format_tokens(1_000_000), "1.0M");
    assert_eq!(format_tokens(2_500_000), "2.5M");
    assert_eq!(format_tokens(123_456_789), "123.5M");
}

#[test]
fn rounding_carries_into_the_whole_part() {
    assert_eq!(format_tokens(999_999), "1000.0k");
    assert_eq!(format_tokens(1_999_999), "2.0M");
}

#[test]
fn exact_ties_go_to_the_even_digit() {
    assert_eq!(format_tokens(1_250), "1.2k");
    assert_eq!(format_tokens(1_750), "1.8k");
    assert_eq!(format_tokens(2_250_000), "2.2M");
}

#[test]
fn inexact_ties_follow_the_double() {
    assert_eq!(format_tokens(1_150), double_precision_text(1_150));
    assert_eq!(format_tokens(1_350), double_precision_text(1_350));
    assert_eq!(format_tokens(1_450), double_precision_text(1_450));
}

#[test]
fn largest_count() {
    assert_eq!(format_tokens(u64::MAX), "18446744073709.6M");
    assert_eq!(format_tokens(u64::MAX), double_precision_text(u64::MAX));
}

#[test]
fn every_count_shown_in_thousands_matches_double_precision() {
    let mut count: u64 = 1_000;
    while count < 1_000_000 {
        assert_eq!(format_tokens(count), double_precision_text(count), "count {}", count);
        count += 1;
    }
}

#[test]
fn ties_in_millions_match_double_precision() {
    let mut count: u64 = 1_050_000;
    while count < 20_000_000_000 {
        assert_eq!(format_tokens(count), double_precision_text(count), "count {}", count);
        assert_eq!(format_tokens(count - 1), double_precision_text(count - 1), "count {}", count - 1);
        assert_eq!(format_tokens(count + 1), double_precision_text(count + 1), "count {}", count + 1);
        count += 100_000;
    }
}

#[test]
fn scattered_counts_match_double_precision() {
    let mut seed: u64 = 0x9e37_79b9_7f4a_7c15;
    let mut round: u32 = 0;
    while round < 200_000 {
        seed = seed.wrapping_mul(6_364_136_223_846_793_005).wrapping_add(1_442_695_040_888_963_407);
        let count = seed >> (round % 44);
        assert_eq!(format_tokens(count), double_precision_text(count), "count {}", count);
        round += 1;
    }
}

#[test]
fn large_counts_near_ties_match_double_precision() {
    let mut base: u64 = 50_000;
    let mut round: u32 = 0;
    while round < 100_000 {
        base = base.wrapping_add(0x0000_7a31_9c5d_e000 / 100_000 * 100_000 + 100_000 * (round as u64 % 977));
        let tie = base / 100_000 * 100_000 + 50_000;
        let mut offset: u64 = 0;
        while offset < 5 {
            let below = tie.wrapping_sub(offset * 1_021);
            let above = tie.wrapping_add(offset * 1_021);
            assert_eq!(format_tokens(below), double_precision_text(below), "count {}", below);
            assert_eq!(format_tokens(above), double_precision_text(above), "count {}", above);
            offset += 1;
        }
        round += 1;
    }
}
