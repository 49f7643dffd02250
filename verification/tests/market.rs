use std::str::FromStr;

use dutch_auction_vault::decimal::Decimal;
use dutch_auction_vault::error::{ContractError, StdError};
use dutch_auction_vault::market::{Cost, Market};

fn dec(text: &str) -> Decimal {
    Decimal::new(cosmwasm_std::Decimal::from_str(text).unwrap().atomics().u128())
}

// Helper function to create a Market instance for testing
fn create_test_market() -> Market {
    Market::new(dec("1.0"), dec("0.1"), 0u128, 86400u128, 0u128, 1000u128)
}

#[test]
fn test_new_market() {
    let market = create_test_market();

    assert_eq!(market.start_price, dec("1.0"));
    assert_eq!(market.min_price, dec("0.1"));
    assert_eq!(market.units_sold, 0u128);
    assert_eq!(market.target_duration, 86400u128);
    assert_eq!(market.total_spent, 0u128);
}

#[test]
fn test_calculate_price() {
    let mut market = create_test_market();

    // Check price calculation when no units are sold
    let price = market.calculate_price(100, 0).unwrap();
    assert_eq!(price, dec("1.0"));

    // Buy some units and check the price calculation
    market.buy_units(100u128, 0).unwrap();
    let price = market.calculate_price(100, 0).unwrap();
    assert_eq!(price, dec("1.0"));
}

#[test]
fn test_buy_units() {
    let mut market = create_test_market();

    // Buy some units
    market.buy_units(100u128, 0).unwrap();

    assert_eq!(market.total_spent, 100u128);
    assert_eq!(market.units_sold, 100u128);
}

#[test]
fn test_market_new() {
    let market = Market::new(dec("1.0"), dec("0.5"), 0, 3600u128, 0u128, 1000u128);

    assert_eq!(market.start_price, dec("1.0"));
    assert_eq!(market.min_price, dec("0.5"));
    assert_eq!(market.units_sold, 0u128);
    assert_eq!(market.target_duration, 3600u128);
    assert_eq!(market.total_spent, 0u128);
}

#[test]
fn test_market_calculate_price() {
    let market = Market::new(dec("1.0"), dec("0.5"), 0u128, 3600u128, 0u128, 1000u128);

    let units = 1000u128;
    let price = market.calculate_price(units, 0).unwrap();
    assert_eq!(price, dec("1.0"));
}

#[test]
fn test_market_buy_units() {
    let mut market = Market::new(dec("0.8"), dec("0.5"), 0u128, 3600u128, 0u128, 1000u128);

    let amount = 1000u128;
    market.buy_units(amount, 0).unwrap();

    assert_eq!(market.total_spent, 800u128);
    assert_eq!(market.units_sold, 1000u128);
}

#[test]
fn test_market_simulation() {
    let mut market = Market::new(dec("1.0"), dec("0.5"), 0u128, 1000u128, 0u128, 1000u128);

    let mut time_elapsed = 1u128;

    let purchase_amounts: Vec<u128> = vec![100, 200, 100, 50, 100, 200];
    // calculated each by hand
    let expected_prices: Vec<cosmwasm_std::Decimal> = vec![
        cosmwasm_std::Decimal::from_str("10000").unwrap(), // (100 / ((1000 * 1.0) / 1000)) ^ 2
        cosmwasm_std::Decimal::from_str("22500").unwrap(), // (300 / ((1000 * 2.0) / 1000)) ^ 2
        cosmwasm_std::Decimal::from_str("17777.777777777777777688").unwrap(), // (400 / ((1000 * 3.0) / 1000)) ^ 2
        cosmwasm_std::Decimal::from_str("12656.25").unwrap(), // (450 / ((1000 * 4.0) / 1000)) ^ 2
        cosmwasm_std::Decimal::from_str("12100").unwrap(), // (550 / ((1000 * 5.0) / 1000)) ^ 2
        cosmwasm_std::Decimal::from_str("15625").unwrap(), // (750 / ((1000 * 6.0) / 1000)) ^ 2
    ];

    for (i, units) in purchase_amounts.iter().enumerate() {
        let price = market.calculate_price(*units, time_elapsed).unwrap();
        let price_outside = cosmwasm_std::Decimal::new(cosmwasm_std::Uint128::new(price.atomics()));
        let received = market
            .calculate_received(
                (price_outside
                    * cosmwasm_std::Decimal::from_ratio(
                        cosmwasm_std::Uint128::from(*units),
                        cosmwasm_std::Uint128::one(),
                    ))
                .to_uint_ceil()
                .u128(),
                time_elapsed,
            )
            .unwrap();
        assert_eq!(received, *units);
        assert_eq!(price_outside.to_string(), expected_prices[i].to_string());
        market.buy_units(*units, time_elapsed).unwrap();
        time_elapsed += 1u128;
    }

    let expected_total_spent =
        purchase_amounts.iter().zip(expected_prices).fold(0u128, |acc, (amount, price)| {
            acc + (price * cosmwasm_std::Decimal::from_str(&amount.to_string()).unwrap())
                .to_uint_ceil()
                .u128()
        });
    assert_eq!(market.units_sold, 750u128);
    assert_eq!(market.total_spent, expected_total_spent);
    assert_eq!(time_elapsed, 7u128);
    assert_eq!(
        // (751 / ((1000 * 7.0) / 1000)) ^ 2
        market.calculate_price(1, time_elapsed).unwrap(),
        dec("11510.224489795918367285")
    );
}

#[test]
fn a_purchase_far_ahead_of_schedule_costs_the_square_of_the_lead() {
    let mut market = Market::new(dec("1.0"), dec("0.1"), 0, 1000, 0, 1000);
    // One unit is expected after one second, a hundred are bought.
    assert_eq!(market.calculate_price(100, 1).unwrap(), dec("10000"));
    assert_eq!(market.calculate_cost(100, 1), Ok(Cost(1_000_000)));
    assert_eq!(market.buy_units(100, 1), Ok(Cost(1_000_000)));
    assert_eq!(market.units_sold, 100);
    assert_eq!(market.total_spent, 1_000_000);
}

#[test]
fn the_price_is_never_below_the_minimum() {
    let market = Market::new(dec("1.0"), dec("0.1"), 0, 100, 0, 100_000);
    // 7000 units are expected after 7 seconds, 10 are sold: the ratio is tiny.
    assert_eq!(market.calculate_price(10, 7).unwrap(), dec("0.1"));
    for elapsed in [1u128, 2, 50, 99, 100, 1000] {
        for units in [0u128, 1, 10, 1000, 99_999] {
            let price = market.calculate_price(units, elapsed).unwrap();
            assert!(price.atomics() >= dec("0.1").atomics());
        }
    }
}

#[test]
fn a_purchase_on_schedule_is_at_the_start_price() {
    let mut market = Market::new(dec("2.5"), dec("0.1"), 0, 1000, 0, 1000);
    assert_eq!(market.calculate_price(10, 10).unwrap(), dec("2.5"));
    market.buy_units(10, 10).unwrap();
    assert_eq!(market.calculate_price(15, 25).unwrap(), dec("2.5"));
    // Where the minimum is above the start price, the minimum is charged.
    let floored = Market::new(dec("0.5"), dec("0.75"), 0, 1000, 0, 1000);
    assert_eq!(floored.calculate_price(10, 10).unwrap(), dec("0.75"));
}

#[test]
fn the_cost_is_the_price_times_the_units_rounded_up() {
    let market = Market::new(dec("0.5"), dec("0.1"), 0, 3600, 0, 1000);
    assert_eq!(market.calculate_cost(0, 0), Ok(Cost(0)));
    assert_eq!(market.calculate_cost(1, 0), Ok(Cost(1)));
    assert_eq!(market.calculate_cost(2, 0), Ok(Cost(1)));
    assert_eq!(market.calculate_cost(3, 0), Ok(Cost(2)));
    let third = Market::new(dec("0.333333333333333333"), dec("0.1"), 0, 3600, 0, 1000);
    assert_eq!(third.calculate_cost(3, 0), Ok(Cost(1)));
    assert_eq!(third.calculate_cost(4, 0), Ok(Cost(2)));
    // 400 of 3 expected: (400 / 3)^2 = 17777.777777777777777688 a unit.
    let ahead = Market::new(dec("1.0"), dec("0.5"), 300, 1000, 0, 1000);
    assert_eq!(ahead.calculate_cost(100, 3), Ok(Cost(1_777_778)));
}

#[test]
fn the_cost_of_a_purchase_buys_its_units() {
    let market = Market::new(dec("1.0"), dec("1.0"), 0, 1000, 0, 1000);
    for elapsed in [0u128, 1, 5, 500] {
        for units in [0u128, 1, 2, 17, 500, 998, 999, 1000] {
            let Cost(cost) = market.calculate_cost(units, elapsed).unwrap();
            assert_eq!(market.calculate_received(cost, elapsed), Ok(units));
        }
    }
    let partly_sold = Market::new(dec("1.0"), dec("0.5"), 300, 1000, 0, 1000);
    for units in 0u128..=700 {
        let Cost(cost) = partly_sold.calculate_cost(units, 3).unwrap();
        assert_eq!(partly_sold.calculate_received(cost, 3), Ok(units));
    }
}

#[test]
fn of_counts_of_the_same_cost_the_first_tried_is_bought() {
    // At half a coin a unit, one unit and two units both cost one coin.
    let market = Market::new(dec("0.5"), dec("0.1"), 0, 3600, 0, 1000);
    assert_eq!(market.calculate_cost(1, 0), Ok(Cost(1)));
    assert_eq!(market.calculate_cost(2, 0), Ok(Cost(1)));
    assert_eq!(market.calculate_received(1, 0), Ok(1));
    assert_eq!(market.calculate_cost(3, 0), Ok(Cost(2)));
    assert_eq!(market.calculate_cost(4, 0), Ok(Cost(2)));
    assert_eq!(market.calculate_received(2, 0), Ok(3));
    assert_eq!(market.calculate_received(0, 0), Ok(0));
    // A price of nothing: the first count tried is half of what is left.
    let free = Market::new(dec("0"), dec("0"), 10, 3600, 0, 1000);
    assert_eq!(free.calculate_received(0, 0), Ok(495));
    // On schedule at the minimum price of a tenth, 7 to 10 units cost one coin.
    let floored = Market::new(dec("1.0"), dec("0.1"), 0, 1000, 0, 1000);
    for units in 7u128..=10 {
        assert_eq!(floored.calculate_cost(units, 1000), Ok(Cost(1)));
    }
    assert_eq!(floored.calculate_cost(6, 1000), Ok(Cost(1)));
    assert_eq!(floored.calculate_cost(11, 1000), Ok(Cost(2)));
    assert_eq!(floored.calculate_received(1, 1000), Ok(7));
    // Whatever count is bought costs what was paid.
    for paid in 0u128..=40 {
        let bought = floored.calculate_received(paid, 1000).unwrap();
        assert_eq!(floored.calculate_cost(bought, 1000), Ok(Cost(paid)));
    }
}

#[test]
fn a_payment_between_two_costs_buys_the_lesser_count() {
    let market = Market::new(dec("3.0"), dec("1.0"), 0, 1000, 0, 1000);
    // Nothing is expected yet: each unit costs 3.
    assert_eq!(market.calculate_received(0, 0), Ok(0));
    assert_eq!(market.calculate_received(2, 0), Ok(0));
    assert_eq!(market.calculate_received(3, 0), Ok(1));
    assert_eq!(market.calculate_received(299, 0), Ok(99));
    assert_eq!(market.calculate_received(300, 0), Ok(100));
    assert_eq!(market.calculate_received(301, 0), Ok(100));
}

#[test]
fn the_search_reaches_all_that_is_left() {
    let market = Market::new(dec("1.0"), dec("1.0"), 0, 1000, 0, 1000);
    assert_eq!(market.calculate_cost(1000, 0), Ok(Cost(1000)));
    assert_eq!(market.calculate_received(1000, 0), Ok(1000));
    assert_eq!(market.calculate_received(999, 0), Ok(999));
    assert_eq!(market.calculate_received(u128::MAX, 0), Ok(1000));
    // Nothing sold of as much as the range holds, at a price of nothing: the
    // first count tried whose cost is in range is 2^68 - 1.
    let vast = Market::new(dec("0"), dec("0"), 0, 1000, 0, u128::MAX);
    assert_eq!(vast.calculate_received(0, 0), Ok(295147905179352825855));
    // With a payment to spare, the greatest count whose cost is in range.
    let vast = Market::new(dec("0.000000000000000001"), dec("0"), 0, 1000, 0, u128::MAX);
    assert_eq!(vast.calculate_received(u128::MAX, 0), Ok(340282366920938463463));
}

#[test]
fn the_search_ends_at_once_with_one_unit_or_none_left() {
    let one_left = Market::new(dec("1.0"), dec("0.5"), 999, 1000, 0, 1000);
    assert_eq!(one_left.calculate_cost(1, 0), Ok(Cost(1)));
    assert_eq!(one_left.calculate_received(0, 0), Ok(0));
    assert_eq!(one_left.calculate_received(1, 0), Ok(1));
    assert_eq!(one_left.calculate_received(5, 0), Ok(1));
    let none_left = Market::new(dec("1.0"), dec("1.0"), 1000, 1000, 0, 1000);
    assert_eq!(none_left.calculate_received(0, 0), Ok(0));
    assert_eq!(none_left.calculate_received(5, 0), Ok(0));
    let two_left = Market::new(dec("1.0"), dec("1.0"), 998, 1000, 0, 1000);
    assert_eq!(two_left.calculate_received(0, 0), Ok(0));
    assert_eq!(two_left.calculate_received(1, 0), Ok(1));
    assert_eq!(two_left.calculate_received(2, 0), Ok(2));
    assert_eq!(two_left.calculate_received(5, 0), Ok(2));
}

#[test]
fn more_sold_than_supplied_is_out_of_range() {
    let market = Market::new(dec("1.0"), dec("1.0"), 1001, 1000, 0, 1000);
    assert_eq!(market.calculate_received(5, 0), Err(ContractError::Std(StdError::Overflow)));
}

#[test]
fn a_target_duration_of_zero_is_a_division_by_zero() {
    let mut market = Market::new(dec("1.0"), dec("0.1"), 0, 0, 0, 1000);
    assert_eq!(market.calculate_price(1, 1), Err(ContractError::Std(StdError::DivideByZero)));
    assert_eq!(market.calculate_cost(1, 1), Err(ContractError::Std(StdError::DivideByZero)));
    assert_eq!(market.buy_units(1, 1), Err(ContractError::Std(StdError::DivideByZero)));
    assert_eq!(market.units_sold, 0);
    assert_eq!(market.total_spent, 0);
}

#[test]
fn results_beyond_the_range_are_overflows() {
    // elapsed * total_units
    let market = Market::new(dec("1.0"), dec("0.1"), 0, 1000, 0, u128::MAX);
    assert_eq!(market.calculate_price(1, 2), Err(ContractError::Std(StdError::Overflow)));
    // units_sold + units
    let market = Market::new(dec("1.0"), dec("0.1"), u128::MAX, 1000, 0, 1000);
    assert_eq!(market.calculate_price(1, 1), Err(ContractError::Std(StdError::Overflow)));
    // the ratio of units sold to units expected
    let market = Market::new(dec("1.0"), dec("0.1"), u128::MAX / 2, 1000, 0, 1000);
    assert_eq!(market.calculate_price(1, 1), Err(ContractError::Std(StdError::Overflow)));
    // its square
    let market = Market::new(dec("1.0"), dec("0.1"), 0, 1000, 0, 1000);
    assert_eq!(
        market.calculate_price(100_000_000_000_000, 1),
        Err(ContractError::Std(StdError::Overflow))
    );
    // the start price times the ratio
    let market = Market::new(dec("1000000000000"), dec("0.1"), 0, 1000, 0, 1000);
    assert_eq!(market.calculate_price(100_000, 1), Err(ContractError::Std(StdError::Overflow)));
    // the units as a decimal
    let market = Market::new(dec("0"), dec("0"), 0, 1000, 0, 1000);
    assert_eq!(
        market.calculate_cost(400_000_000_000_000_000_000, 0),
        Err(ContractError::Std(StdError::Overflow))
    );
    // the price times the units
    let market = Market::new(dec("100000000000000000000"), dec("0"), 0, 1000, 0, 1000);
    assert_eq!(market.calculate_cost(4, 0), Err(ContractError::Std(StdError::Overflow)));
}

#[test]
fn a_purchase_that_overflows_the_accounting_changes_nothing() {
    let mut market = Market::new(dec("1.0"), dec("0.1"), 0, 1000, u128::MAX, 1000);
    assert_eq!(market.buy_units(1, 0), Err(ContractError::Std(StdError::Overflow)));
    assert_eq!(market.units_sold, 0);
    assert_eq!(market.total_spent, u128::MAX);
    let mut market = Market::new(dec("0"), dec("0"), u128::MAX, 1000, 0, 1000);
    assert_eq!(market.buy_units(1, 0), Err(ContractError::Std(StdError::Overflow)));
    assert_eq!(market.units_sold, u128::MAX);
    assert_eq!(market.total_spent, 0);
}

#[test]
fn a_count_whose_cost_is_out_of_range_is_too_dear() {
    // Three units cost 3 * 10^20; the cost of four is beyond the range.
    let market = Market::new(dec("100000000000000000000"), dec("0"), 0, 1000, 0, 1000);
    assert_eq!(market.calculate_cost(3, 0), Ok(Cost(300_000_000_000_000_000_000)));
    assert_eq!(market.calculate_cost(4, 0), Err(ContractError::Std(StdError::Overflow)));
    assert_eq!(market.calculate_received(5, 0), Ok(0));
    assert_eq!(market.calculate_received(300_000_000_000_000_000_000, 0), Ok(3));
    assert_eq!(market.calculate_received(u128::MAX, 0), Ok(3));
    assert!(market.affords(3, 300_000_000_000_000_000_000, 0));
    assert!(!market.affords(3, 299_999_999_999_999_999_999, 0));
    assert!(!market.affords(4, u128::MAX, 0));
}

#[test]
fn a_search_without_any_cost_fails() {
    let endless = Market::new(dec("1.0"), dec("0.1"), 0, 0, 0, 1000);
    assert_eq!(endless.calculate_received(5, 1), Err(ContractError::Std(StdError::DivideByZero)));
    let vast = Market::new(dec("1.0"), dec("0.1"), 0, 1000, 0, u128::MAX);
    assert_eq!(vast.calculate_received(5, 2), Err(ContractError::Std(StdError::Overflow)));
    // So far ahead of schedule that not even the price of nothing is in range:
    // one unit is expected, 10^30 are sold.
    let huge = 1_000_000_000_000_000_000_000_000_000_000u128;
    let ahead = Market::new(dec("1.0"), dec("0.1"), huge, huge, 0, huge + 7);
    assert_eq!(ahead.calculate_cost(0, 1), Err(ContractError::Std(StdError::Overflow)));
    assert_eq!(ahead.calculate_received(5, 1), Err(ContractError::Std(StdError::Overflow)));
    // Before anything is expected the same market sells at the start price.
    assert_eq!(ahead.calculate_received(5, 0), Ok(5));
    assert_eq!(ahead.calculate_received(50, 0), Ok(7));
}

#[test]
fn decimals_multiply_and_divide_with_truncation() {
    assert_eq!(Decimal::checked_from_ratio(1, 3), Ok(dec("0.333333333333333333")));
    assert_eq!(Decimal::checked_from_ratio(2, 3), Ok(dec("0.666666666666666666")));
    assert_eq!(Decimal::checked_from_ratio(1, 0), Err(StdError::DivideByZero));
    assert_eq!(Decimal::checked_from_ratio(u128::MAX, 1), Err(StdError::Overflow));
    assert_eq!(dec("1.5").checked_mul(dec("2.5")), Ok(dec("3.75")));
    assert_eq!(dec("0.000000000000000001").checked_mul(dec("0.5")), Ok(dec("0")));
    assert_eq!(Decimal::new(u128::MAX).checked_mul(dec("1.000000000000000001")), Err(StdError::Overflow));
    assert_eq!(dec("1.5").checked_square(), Ok(dec("2.25")));
    assert_eq!(dec("133.333333333333333333").checked_square(), Ok(dec("17777.777777777777777688")));
    assert_eq!(Decimal::new(u128::MAX).checked_square(), Err(StdError::Overflow));
    assert_eq!(dec("0").to_uint_ceil(), 0);
    assert_eq!(dec("0.000000000000000001").to_uint_ceil(), 1);
    assert_eq!(dec("12.345").to_uint_ceil(), 13);
    assert_eq!(dec("75.0").to_uint_ceil(), 75);
    assert_eq!(Decimal::new(u128::MAX).to_uint_ceil(), 340282366920938463464);
    assert_eq!(dec("1.5").max(dec("2.5")), dec("2.5"));
    assert_eq!(dec("2.5").max(dec("1.5")), dec("2.5"));
    assert_eq!(Decimal::one(), dec("1"));
    assert_eq!(Decimal::zero(), dec("0"));
    assert_eq!(Decimal::one().atomics(), 1_000_000_000_000_000_000);
}
