use price_stats::{weighted_average_price, Price, PricingError, WeightedAverage};

fn prices(values: &[f64]) -> Vec<Price> {
    values.iter().map(|value| Price::from_bits(value.to_bits())).collect()
}

fn average_value(values: &[f64], quantities: &[i64]) -> Result<f64, PricingError> {
    match weighted_average_price(&prices(values), quantities)? {
        WeightedAverage::Zero => Ok(0.0),
        WeightedAverage::WeightedSumOver { total_qty } => {
            let weighted_sum: f64 =
                values.iter().zip(quantities.iter()).map(|(&p, &q)| p * q as f64).sum();
            Ok(weighted_sum / total_qty as f64)
        }
    }
}

#[test]
fn two_prices_against_three_quantities_are_refused() {
    let result = weighted_average_price(&prices(&[10.0, 20.0]), &[1, 1, 1]);
    assert_eq!(result, Err(PricingError::InvalidArgument));
    assert_eq!(average_value(&[10.0, 20.0], &[1, 1, 1]), Err(PricingError::InvalidArgument));
}

#[test]
fn any_difference_in_number_is_refused() {
    assert_eq!(weighted_average_price(&prices(&[1.0]), &[]), Err(PricingError::InvalidArgument));
    assert_eq!(weighted_average_price(&[], &[1]), Err(PricingError::InvalidArgument));
    assert_eq!(
        weighted_average_price(&prices(&[1.0, 2.0, 3.0]), &[0, 0]),
        Err(PricingError::InvalidArgument)
    );
}

#[test]
fn the_refusal_says_what_is_wrong() {
    let error = weighted_average_price(&prices(&[10.0, 20.0]), &[1, 1, 1]).unwrap_err();
    assert_eq!(error.message(), "Prices and quantities must have the same length");
    assert_eq!(
        PricingError::InvalidArgument.message(),
        String::from("Prices and quantities must have the same length")
    );
}

#[test]
fn the_average_of_nothing_is_zero() {
    assert_eq!(weighted_average_price(&[], &[]), Ok(WeightedAverage::Zero));
    assert_eq!(average_value(&[], &[]), Ok(0.0));
}

#[test]
fn quantities_of_zero_average_to_zero() {
    assert_eq!(weighted_average_price(&prices(&[5.0, 15.0]), &[0, 0]), Ok(WeightedAverage::Zero));
    assert_eq!(average_value(&[5.0, 15.0], &[0, 0]), Ok(0.0));
}

#[test]
fn quantities_that_cancel_average_to_zero() {
    assert_eq!(weighted_average_price(&prices(&[5.0, 15.0]), &[3, -3]), Ok(WeightedAverage::Zero));
    assert_eq!(average_value(&[5.0, 15.0], &[3, -3]), Ok(0.0));
    assert_eq!(
        weighted_average_price(&prices(&[1.0, 2.0, 3.0]), &[i64::MAX, i64::MIN, 1]),
        Ok(WeightedAverage::Zero)
    );
}

#[test]
fn one_and_three_of_ten_and_twenty_average_to_seventeen_and_a_half() {
    assert_eq!(
        weighted_average_price(&prices(&[10.0, 20.0]), &[1, 3]),
        Ok(WeightedAverage::WeightedSumOver { total_qty: 4 })
    );
    assert_eq!(average_value(&[10.0, 20.0], &[1, 3]), Ok(17.5));
}

#[test]
fn the_divisor_is_the_sum_of_the_quantities() {
    assert_eq!(
        weighted_average_price(&prices(&[2.0]), &[7]),
        Ok(WeightedAverage::WeightedSumOver { total_qty: 7 })
    );
    assert_eq!(
        weighted_average_price(&prices(&[2.0, 4.0, 6.0]), &[1, -5, 2]),
        Ok(WeightedAverage::WeightedSumOver { total_qty: -2 })
    );
    assert_eq!(average_value(&[2.0, 4.0, 6.0], &[1, -5, 2]), Ok((2.0 - 20.0 + 12.0) / -2.0));
    assert_eq!(average_value(&[3.0, 3.0, 3.0], &[1, 2, 3]), Ok(3.0));
}

#[test]
fn the_divisor_is_exact_beyond_the_range_of_one_quantity() {
    assert_eq!(
        weighted_average_price(&prices(&[1.0, 1.0]), &[i64::MAX, i64::MAX]),
        Ok(WeightedAverage::WeightedSumOver { total_qty: 2 * (i64::MAX as i128) })
    );
    assert_eq!(
        weighted_average_price(&prices(&[1.0, 1.0]), &[i64::MAX, 1]),
        Ok(WeightedAverage::WeightedSumOver { total_qty: 1i128 << 63 })
    );
}

#[test]
fn the_prices_themselves_do_not_decide() {
    assert_eq!(
        weighted_average_price(&prices(&[f64::NAN, f64::INFINITY]), &[2, 2]),
        weighted_average_price(&prices(&[1.0, 2.0]), &[2, 2])
    );
    assert_eq!(
        weighted_average_price(&prices(&[f64::NAN, f64::INFINITY]), &[2, -2]),
        Ok(WeightedAverage::Zero)
    );
}

#[test]
fn repeated_calls_give_the_same_average() {
    let observed = prices(&[10.0, 20.0]);
    let first = weighted_average_price(&observed, &[1, 3]);
    let second = weighted_average_price(&observed, &[1, 3]);
    assert_eq!(first, second);
    assert_eq!(weighted_average_price(&observed, &[1]), weighted_average_price(&observed, &[1]));
}
