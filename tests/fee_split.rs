use hoard_token::fee::{split, FeeSplit};
use hoard_token::types::TokenError;

fn parts(net_amount: u64, ecosystem_fee: u64, reward_fee: u64) -> FeeSplit {
    FeeSplit { net_amount, ecosystem_fee, reward_fee }
}

#[test]
fn split_of_hundred() {
    assert_eq!(split(100), Ok(parts(96, 2, 2)));
}

#[test]
fn split_of_one() {
    assert_eq!(split(1), Ok(parts(1, 0, 0)));
}

#[test]
fn split_of_ninety_nine_gives_odd_unit_to_reward() {
    assert_eq!(split(99), Ok(parts(96, 1, 2)));
}

#[test]
fn split_below_twenty_five_has_no_fee() {
    for amount in 0..25u64 {
        assert_eq!(split(amount), Ok(parts(amount, 0, 0)));
    }
    assert_eq!(split(25), Ok(parts(24, 0, 1)));
}

#[test]
fn split_parts_add_up() {
    for amount in [0u64, 26, 49, 50, 1_000, 123_456_789, (1u64 << 62) - 1] {
        let f = split(amount).unwrap();
        assert_eq!(f.net_amount + f.ecosystem_fee + f.reward_fee, amount);
        assert!(f.ecosystem_fee <= f.reward_fee);
    }
}

#[test]
fn split_of_largest_amount() {
    let amount = (1u64 << 62) - 1;
    let fee = amount / 25;
    assert_eq!(split(amount), Ok(parts(amount - fee, fee / 2, fee - fee / 2)));
}

#[test]
fn split_overflow_is_rejected() {
    assert_eq!(split(1u64 << 62), Err(TokenError::AmountOverflow));
    assert_eq!(split(u64::MAX), Err(TokenError::AmountOverflow));
}
