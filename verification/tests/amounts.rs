//! Numbers by their bit patterns.
use alpaca_options::amount::Amount;

const VALUES: [f64; 14] = [
    0.0,
    -0.0,
    1.0,
    -1.0,
    0.5,
    -0.5,
    1e-310,
    -1e-310,
    f64::MAX,
    f64::MIN,
    f64::INFINITY,
    f64::NEG_INFINITY,
    f64::NAN,
    0.1,
];

fn amount(value: f64) -> Amount {
    Amount { bits: value.to_bits() }
}

#[test]
fn comparisons_agree_with_floating_point() {
    for left in VALUES {
        for right in VALUES {
            assert_eq!(amount(left).is_below(amount(right)), left < right);
            assert_eq!(amount(left).is_at_most(amount(right)), left <= right);
        }
        assert_eq!(amount(left).is_above_zero(), left > 0.0);
        assert_eq!(amount(left).is_zero(), left == 0.0);
        assert_eq!(amount(left).is_zero_or_below(), left <= 0.0);
        assert_eq!(amount(left).is_finite(), left.is_finite());
        assert_eq!(amount(left).not_a_number(), left.is_nan());
        assert_eq!(amount(left).negated().bits, (-left).to_bits());
    }
}

#[test]
fn total_keys_order_as_total_comparison_does() {
    for left in VALUES {
        for right in VALUES {
            assert_eq!(
                amount(left).total_key() < amount(right).total_key(),
                left.total_cmp(&right) == std::cmp::Ordering::Less,
            );
        }
    }
}

#[test]
fn larger_and_smaller_agree_on_numbers() {
    for left in VALUES {
        for right in VALUES {
            if left.is_nan() || right.is_nan() || left == right {
                continue;
            }
            assert_eq!(amount(left).larger(amount(right)), amount(left.max(right)));
            assert_eq!(amount(left).smaller(amount(right)), amount(left.min(right)));
        }
    }
    assert_eq!(amount(f64::NAN).larger(amount(1.0)), amount(1.0));
    assert_eq!(amount(2.0).smaller(amount(f64::NAN)), amount(2.0));
}

#[test]
fn negation_reverses_the_order() {
    assert!(amount(1.0).is_below(amount(2.0)));
    assert!(amount(2.0).negated().is_below(amount(1.0).negated()));
}
