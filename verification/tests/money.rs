use code_review::money::{cost_of, Money, Rates, Usage, MICROCENTS_PER_CENT};

#[test]
fn cost_of_a_million_and_half_a_million_tokens() {
    let usage = Usage { prompt_tokens: 1_000_000, completion_tokens: 500_000 };
    let rates = Rates { prompt: 110, completion: 440 };
    let cost = cost_of(usage, rates);
    assert_eq!(cost.microcents, 330_000_000);
    assert_eq!(cost.cents(), 330);
    assert_eq!(cost.format(), "3.30");
}

#[test]
fn cost_prices_each_kind_of_token_at_its_rate() {
    let rates = Rates { prompt: 110, completion: 440 };
    assert_eq!(cost_of(Usage { prompt_tokens: 1_000_000, completion_tokens: 0 }, rates).format(), "1.10");
    assert_eq!(cost_of(Usage { prompt_tokens: 0, completion_tokens: 500_000 }, rates).format(), "2.20");
    assert_eq!(cost_of(Usage { prompt_tokens: 3, completion_tokens: 2 }, rates).microcents, 3 * 110 + 2 * 440);
    assert_eq!(cost_of(Usage { prompt_tokens: 0, completion_tokens: 0 }, rates), Money::zero());
}

#[test]
fn cost_of_the_largest_usage_does_not_overflow() {
    let usage = Usage { prompt_tokens: u64::MAX, completion_tokens: u64::MAX };
    let rates = Rates { prompt: u32::MAX, completion: u32::MAX };
    let expected = 2 * (u64::MAX as u128) * (u32::MAX as u128);
    assert_eq!(cost_of(usage, rates).microcents, expected);
}

#[test]
fn zero_is_written_with_two_decimals() {
    assert_eq!(Money::zero().microcents, 0);
    assert_eq!(Money::zero().format(), "0.00");
}

#[test]
fn one_cent_is_a_million_microcents() {
    assert_eq!(MICROCENTS_PER_CENT, 1_000_000);
    assert_eq!(Money { microcents: 1_000_000 }.cents(), 1);
    assert_eq!(Money { microcents: 1_000_000 }.format(), "0.01");
}

#[test]
fn amounts_round_to_the_nearest_cent() {
    assert_eq!(Money { microcents: 499_999 }.format(), "0.00");
    assert_eq!(Money { microcents: 500_001 }.format(), "0.01");
    assert_eq!(Money { microcents: 1_499_999 }.format(), "0.01");
    assert_eq!(Money { microcents: 1_500_001 }.format(), "0.02");
    assert_eq!(Money { microcents: 123_456_789 }.format(), "1.23");
    assert_eq!(Money { microcents: 123_556_789 }.format(), "1.24");
}

#[test]
fn halves_round_to_the_even_cent() {
    assert_eq!(Money { microcents: 500_000 }.cents(), 0);
    assert_eq!(Money { microcents: 1_500_000 }.cents(), 2);
    assert_eq!(Money { microcents: 2_500_000 }.cents(), 2);
    assert_eq!(Money { microcents: 3_500_000 }.cents(), 4);
    assert_eq!(Money { microcents: 12_500_000 }.format(), "0.12");
}

#[test]
fn rounding_carries_into_the_dollars() {
    assert_eq!(Money { microcents: 99_500_000 }.format(), "1.00");
    assert_eq!(Money { microcents: 999_999_999 }.format(), "10.00");
    assert_eq!(Money { microcents: 100_000_000 }.format(), "1.00");
    assert_eq!(Money { microcents: 105_000_000 }.format(), "1.05");
}

#[test]
fn the_largest_amount_is_written_in_full() {
    let text = Money { microcents: u128::MAX }.format();
    assert_eq!(text, "3402823669209384634633746074317.68");
}
