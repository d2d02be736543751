use fixed::types::I80F48 as Fx;
use mango_tcs::fixed_point::I80F48;
use mango_tcs::token_conditional_swap::{
    Bank, TokenConditionalSwap, TokenConditionalSwapDisplayPriceStyle,
    TokenConditionalSwapIntention, TOKEN_INDEX_UNSET,
};

fn fx(v: f64) -> I80F48 {
    I80F48::from_bits(Fx::from_num(v).to_bits())
}

fn bank(deposits: bool, borrows: bool) -> Bank {
    Bank { deposits_reduce_only: deposits, borrows_reduce_only: borrows }
}

fn sample() -> TokenConditionalSwap {
    let mut t = TokenConditionalSwap::default();
    t.id = 1;
    t.max_buy = 1000;
    t.bought = 0;
    t.max_sell = 2000;
    t.sold = 0;
    t.expiry_timestamp = 5000;
    t.price_lower_limit = 18.0f64.to_bits();
    t.price_upper_limit = 22.0f64.to_bits();
    t.price_premium_rate = 0.01f64.to_bits();
    t.taker_fee_rate = 0.001f32.to_bits();
    t.maker_fee_rate = 0.002f32.to_bits();
    t.buy_token_index = 0;
    t.sell_token_index = 1;
    t.set_has_data(true);
    t
}

#[test]
fn default_record_is_empty() {
    let t = TokenConditionalSwap::default();
    assert!(!t.has_data());
    assert_eq!(t.expiry_timestamp, u64::MAX);
    assert_eq!(t.buy_token_index, TOKEN_INDEX_UNSET);
    assert_eq!(t.sell_token_index, u16::MAX);
    assert_eq!(t.max_buy, 0);
    assert_eq!(t.display_price_style, 0);
    assert_eq!(t.intention, 0);
    assert!(t.reserved.iter().all(|b| *b == 0));
    assert!(!t.is_expired(u64::MAX - 1));
    assert!(t.is_expired(u64::MAX));
}

#[test]
fn set_has_data_toggles_flag() {
    let mut t = TokenConditionalSwap::default();
    t.set_has_data(true);
    assert_eq!(t.has_data, 1);
    assert!(t.has_data());
    t.set_has_data(false);
    assert_eq!(t.has_data, 0);
    assert!(!t.has_data());
}

#[test]
fn expiry_is_inclusive() {
    let t = sample();
    assert!(!t.is_expired(4999));
    assert!(t.is_expired(5000));
    assert!(t.is_expired(5001));
}

#[test]
fn flags_read_only_one_as_true() {
    let mut t = sample();
    t.allow_creating_deposits = 1;
    t.allow_creating_borrows = 2;
    assert!(t.allow_creating_deposits());
    assert!(!t.allow_creating_borrows());
}

#[test]
fn remaining_plus_filled_is_ceiling() {
    let mut t = sample();
    t.bought = 300;
    t.sold = 1999;
    assert_eq!(t.remaining_buy(), 700);
    assert_eq!(t.remaining_sell(), 1);
    assert_eq!(t.remaining_buy() + t.bought, t.max_buy);
    assert_eq!(t.remaining_sell() + t.sold, t.max_sell);
}

#[test]
fn price_range_scenario() {
    let t = sample();
    assert!(t.price_in_range(20.0f64.to_bits()));
    assert!(!t.price_in_range(17.99f64.to_bits()));
    assert!(!t.price_in_range(22.01f64.to_bits()));
}

#[test]
fn price_range_includes_limits() {
    let t = sample();
    let lower = 18.0f64.to_bits();
    let upper = 22.0f64.to_bits();
    assert!(t.price_in_range(lower));
    assert!(t.price_in_range(upper));
    // the next representable values outside either limit
    assert!(!t.price_in_range(lower - 1));
    assert!(!t.price_in_range(upper + 1));
    assert!(!t.price_in_range(f64::NAN.to_bits()));
    assert!(!t.price_in_range(f64::INFINITY.to_bits()));
}

#[test]
fn price_range_treats_both_zeros_alike() {
    let mut t = sample();
    t.price_lower_limit = 0.0f64.to_bits();
    t.price_upper_limit = 0.0f64.to_bits();
    assert!(t.price_in_range((-0.0f64).to_bits()));
    assert!(t.price_in_range(0.0f64.to_bits()));
    assert!(!t.price_in_range((-1e-300f64).to_bits()));
}

#[test]
fn price_range_with_negative_limits() {
    let mut t = sample();
    t.price_lower_limit = (-3.0f64).to_bits();
    t.price_upper_limit = (-1.0f64).to_bits();
    assert!(t.price_in_range((-2.0f64).to_bits()));
    assert!(!t.price_in_range((-4.0f64).to_bits()));
    assert!(!t.price_in_range(0.0f64.to_bits()));
}

#[test]
fn executable_needs_data_time_and_price() {
    let mut t = sample();
    let p = 20.0f64.to_bits();
    assert!(t.is_executable(100, p));
    assert!(!t.is_executable(5000, p));
    assert!(!t.is_executable(100, 23.0f64.to_bits()));
    t.display_price_style = TokenConditionalSwapDisplayPriceStyle::BuyTokenPerSellToken.to_u8();
    assert!(t.is_executable(100, p));
    t.set_has_data(false);
    assert!(!t.is_executable(100, p));
}

#[test]
fn fill_of_whole_buy_side_empties_slot() {
    let mut t = sample();
    assert!(t.is_executable(100, 20.0f64.to_bits()));
    t.record_fill(1000, 20000 / 10);
    assert_eq!(t.remaining_buy(), 0);
    assert!(!t.has_data());
    assert_eq!(t.bought, 1000);
    assert_eq!(t.sold, 2000);
}

#[test]
fn partial_fill_keeps_slot() {
    let mut t = sample();
    t.record_fill(400, 800);
    assert_eq!(t.remaining_buy(), 600);
    assert_eq!(t.remaining_sell(), 1200);
    assert!(t.has_data());
    t.record_fill(0, 1200);
    assert_eq!(t.remaining_sell(), 0);
    assert!(!t.has_data());
}

#[test]
fn maker_and_taker_fee_exact() {
    let t = sample();
    assert_eq!(t.maker_fee(fx(1000.0)), Some(2));
    assert_eq!(t.taker_fee(fx(1000.0)), Some(1));
    assert_eq!(t.taker_fee(fx(12345.678)), Some(12));
    assert_eq!(t.maker_fee(fx(999.0)), Some(1));
    let expected = (Fx::from_num(1_000_000) * Fx::from_num(0.002f32)).floor().to_num::<u64>();
    assert_eq!(t.maker_fee(fx(1_000_000.0)), Some(expected));
    assert_eq!(expected, 2000);
}

#[test]
fn tiny_rates_round_like_fixed() {
    let mut t = sample();
    t.taker_fee_rate = 1e-10f32.to_bits();
    let expected = (Fx::from_num(1e12) * Fx::from_num(1e-10f32)).floor().to_num::<u64>();
    assert_eq!(t.taker_fee(fx(1e12)), Some(expected));
    assert_eq!(expected, 99);
    t.maker_fee_rate = f32::from_bits(1).to_bits();
    assert_eq!(t.maker_fee(fx(1e12)), Some(0));
}

#[test]
fn fee_of_zero_is_zero() {
    let t = sample();
    assert_eq!(t.maker_fee(fx(0.0)), Some(0));
    assert_eq!(t.taker_fee(fx(0.0)), Some(0));
}

#[test]
fn fee_is_monotone() {
    let t = sample();
    let mut last = 0;
    for amount in [0.0, 1.0, 499.0, 500.0, 501.0, 1e6, 7.5e9] {
        let f = t.maker_fee(fx(amount)).unwrap();
        assert!(f >= last);
        last = f;
    }
}

#[test]
fn fee_fails_where_it_cannot_be_represented() {
    let mut t = sample();
    // negative fee
    assert_eq!(t.maker_fee(fx(-1000.0)), None);
    // product beyond the fixed-point range
    assert_eq!(t.maker_fee(I80F48::from_bits(i128::MAX)), None);
    // rate without a fixed-point form
    t.maker_fee_rate = f32::NAN.to_bits();
    assert_eq!(t.maker_fee(fx(1000.0)), None);
    t.taker_fee_rate = f32::INFINITY.to_bits();
    assert_eq!(t.taker_fee(fx(1000.0)), None);
    t.taker_fee_rate = f32::NEG_INFINITY.to_bits();
    assert_eq!(t.taker_fee(fx(1000.0)), None);
    // a fee above u64::MAX
    t.maker_fee_rate = 1e6f32.to_bits();
    assert_eq!(t.maker_fee(fx(1e17)), None);
}

#[test]
fn max_buy_unbounded_when_deposits_allowed() {
    let mut t = sample();
    t.allow_creating_deposits = 1;
    assert_eq!(t.max_buy_for_position(fx(3.0), &bank(false, false)), 1000);
    assert_eq!(t.max_buy_for_position(fx(-5.0), &bank(false, true)), 1000);
    // reduce-only deposits bind the position again
    assert_eq!(t.max_buy_for_position(fx(-5.0), &bank(true, false)), 5);
}

#[test]
fn max_buy_without_new_deposits() {
    let mut t = sample();
    t.allow_creating_deposits = 0;
    for b in [bank(false, false), bank(true, false), bank(false, true), bank(true, true)] {
        assert_eq!(t.max_buy_for_position(fx(-5.0), &b), 5);
        assert_eq!(t.max_buy_for_position(fx(3.0), &b), 0);
    }
    t.bought = 997;
    assert_eq!(t.max_buy_for_position(fx(-5.0), &bank(false, false)), 3);
}

#[test]
fn max_buy_rounds_up() {
    let t = sample();
    assert_eq!(t.max_buy_for_position(fx(-4.5), &bank(false, false)), 5);
    assert_eq!(t.max_buy_for_position(fx(-0.25), &bank(false, false)), 1);
    assert_eq!(t.max_buy_for_position(fx(0.0), &bank(false, false)), 0);
    assert_eq!(t.max_buy_for_position(I80F48::from_bits(i128::MIN), &bank(false, false)), 1000);
}

#[test]
fn max_buy_is_repeatable() {
    let t = sample();
    let a = t.max_buy_for_position(fx(-42.3), &bank(true, true));
    let b = t.max_buy_for_position(fx(-42.3), &bank(true, true));
    assert_eq!(a, b);
    assert_eq!(a, 43);
}

#[test]
fn max_sell_rounds_down() {
    let t = sample();
    assert_eq!(t.max_sell_for_position(fx(7.9), &bank(false, false)), 7);
    assert_eq!(t.max_sell_for_position(fx(-2.0), &bank(false, false)), 0);
    assert_eq!(t.max_sell_for_position(fx(0.5), &bank(false, false)), 0);
    assert_eq!(t.max_sell_for_position(fx(1e9), &bank(false, false)), 2000);
    assert_eq!(t.max_sell_for_position(I80F48::from_bits(i128::MAX), &bank(false, false)), 2000);
}

#[test]
fn max_sell_unbounded_when_borrows_allowed() {
    let mut t = sample();
    t.allow_creating_borrows = 1;
    assert_eq!(t.max_sell_for_position(fx(-3.0), &bank(false, false)), 2000);
    assert_eq!(t.max_sell_for_position(fx(3.0), &bank(false, true)), 3);
    t.sold = 1500;
    assert_eq!(t.max_sell_for_position(fx(-3.0), &bank(true, false)), 500);
}

#[test]
fn enum_bytes() {
    assert_eq!(TokenConditionalSwapIntention::Unknown.to_u8(), 0);
    assert_eq!(TokenConditionalSwapIntention::StopLoss.to_u8(), 1);
    assert_eq!(TokenConditionalSwapIntention::TakeProfit.to_u8(), 2);
    assert_eq!(TokenConditionalSwapIntention::try_from_u8(2), Some(TokenConditionalSwapIntention::TakeProfit));
    assert_eq!(TokenConditionalSwapIntention::try_from_u8(3), None);
    assert_eq!(TokenConditionalSwapDisplayPriceStyle::SellTokenPerBuyToken.to_u8(), 0);
    assert_eq!(
        TokenConditionalSwapDisplayPriceStyle::try_from_u8(1),
        Some(TokenConditionalSwapDisplayPriceStyle::BuyTokenPerSellToken)
    );
    assert_eq!(TokenConditionalSwapDisplayPriceStyle::try_from_u8(2), None);
}

#[test]
fn bank_flags() {
    let b = bank(true, false);
    assert!(b.are_deposits_reduce_only());
    assert!(!b.are_borrows_reduce_only());
}

#[test]
fn binding_fill_amount_takes_smallest_cap() {
    let t = sample();
    let free = bank(false, false);
    assert_eq!(t.binding_fill_amount(500, fx(-700.0), &free, fx(300.5), &free), 300);
    assert_eq!(t.binding_fill_amount(500, fx(-200.0), &free, fx(3000.0), &free), 200);
    assert_eq!(t.binding_fill_amount(50, fx(-200.0), &free, fx(3000.0), &free), 50);
    assert_eq!(t.binding_fill_amount(5000, fx(-5000.0), &free, fx(5000.0), &free), 1000);
}
