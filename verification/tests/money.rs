//! Money: exact conversion to and from text, arithmetic, and prices.
use armature_payments::decimal::{Decimal, MAX_MANTISSA};
use armature_payments::{Currency, Money, MoneyError, Price};

/// Every currency there is.
const ALL: [Currency; 20] = [
    Currency::USD,
    Currency::EUR,
    Currency::GBP,
    Currency::JPY,
    Currency::CAD,
    Currency::AUD,
    Currency::CHF,
    Currency::CNY,
    Currency::INR,
    Currency::MXN,
    Currency::BRL,
    Currency::SGD,
    Currency::HKD,
    Currency::NZD,
    Currency::SEK,
    Currency::NOK,
    Currency::DKK,
    Currency::PLN,
    Currency::ZAR,
    Currency::KRW,
];

#[test]
fn test_money_creation() {
    let money = Money::usd(2999);
    assert_eq!(money.amount, 2999);
    assert_eq!(money.currency, Currency::USD);
}

#[test]
fn try_from_decimal_scales_to_minor_units() {
    assert_eq!(
        Money::try_from_decimal(Decimal::from_str_exact("29.99").unwrap(), Currency::USD),
        Ok(Money::usd(2999))
    );
    assert_eq!(
        Money::try_from_decimal(Decimal::from_str_exact("-29.99").unwrap(), Currency::USD),
        Ok(Money::usd(-2999))
    );
    assert_eq!(
        Money::try_from_decimal(Decimal::from_str_exact("1000").unwrap(), Currency::JPY),
        Ok(Money::new(1000, Currency::JPY))
    );
    assert_eq!(
        Money::try_from_decimal(Decimal::from_str_exact("0.125").unwrap(), Currency::USD),
        Ok(Money::usd(12))
    );
    assert_eq!(
        Money::try_from_decimal(Decimal::from_str_exact("0.135").unwrap(), Currency::USD),
        Ok(Money::usd(14))
    );
}

#[test]
fn try_from_decimal_reports_overflow_instead_of_zero() {
    for huge in ["100000000000000000000", "-100000000000000000000"] {
        let amount = Decimal::from_str_exact(huge).unwrap();
        assert!(
            matches!(Money::try_from_decimal(amount, Currency::USD), Err(MoneyError::Overflow { .. })),
            "{huge} must not silently become 0"
        );
    }
    let largest = Decimal::new(MAX_MANTISSA, 0).unwrap();
    assert!(matches!(
        Money::try_from_decimal(largest, Currency::USD),
        Err(MoneyError::Overflow { .. })
    ));
}

#[test]
fn test_money_format() {
    let money = Money::usd(2999);
    assert_eq!(money.format(), "$29.99");

    let yen = Money::new(1000, Currency::JPY);
    assert_eq!(yen.format(), "¥1000");
}

#[test]
fn test_money_arithmetic() {
    let a = Money::usd(1000);
    let b = Money::usd(500);

    assert_eq!((a + b).amount, 1500);
    assert_eq!((a - b).amount, 500);
    assert_eq!((a * 2).amount, 2000);
}

#[test]
fn gateway_amounts_round_trip_exactly() {
    for money in [
        Money::usd(2999),
        Money::usd(0),
        Money::usd(5),
        Money::usd(-2999),
        Money::eur(123456),
        Money::new(1000, Currency::JPY),
        Money::new(0, Currency::KRW),
        Money::usd(i64::MAX),
        Money::usd(i64::MIN),
    ] {
        let rendered = money.to_gateway_string();
        assert_eq!(
            Money::from_gateway_string(&rendered, money.currency),
            Some(money),
            "{rendered} did not round-trip"
        );
    }
}

#[test]
fn gateway_amounts_are_parsed_exactly_not_through_a_float() {
    assert_eq!(Money::from_gateway_string("0.29", Currency::USD), Some(Money::usd(29)));
    assert_eq!(Money::from_gateway_string("1.15", Currency::USD), Some(Money::usd(115)));
    assert_eq!(
        Money::from_gateway_string("1000", Currency::JPY),
        Some(Money::new(1000, Currency::JPY))
    );
    assert_eq!(Money::from_gateway_string(" 12.50 ", Currency::USD), Some(Money::usd(1250)));
}

#[test]
fn unrepresentable_gateway_amounts_are_rejected_not_zeroed() {
    for bad in ["", "abc", "12,50", "1.2.3", "NaN", "12 34", "$12.50"] {
        assert_eq!(Money::from_gateway_string(bad, Currency::USD), None, "{bad:?} should not parse");
    }
    assert_eq!(Money::from_gateway_string("29.999", Currency::USD), None);
    assert_eq!(Money::from_gateway_string("1000.50", Currency::JPY), None);
    assert_eq!(Money::from_gateway_string("29.990", Currency::USD), Some(Money::usd(2999)));
}

#[test]
fn from_code_is_case_insensitive_and_total() {
    for currency in ALL {
        let code = currency.code();
        assert_eq!(Currency::from_code(code), Some(currency));
        assert_eq!(Currency::from_code(&code.to_lowercase()), Some(currency));
    }
    assert_eq!(Currency::from_code("uSd"), Some(Currency::USD));
    assert_eq!(Currency::from_code("nonsense"), None);
    assert_eq!(Currency::from_code(""), None);
    assert_eq!(Currency::from_code("US"), None);
}

#[test]
fn every_currency_scales_without_overflowing() {
    for currency in ALL {
        assert!(
            10i64.checked_pow(currency.decimals()).is_some(),
            "{} has an unrepresentable precision",
            currency.code()
        );
        assert_eq!(10i64.pow(currency.decimals()), currency.minor_units());
    }
}

#[test]
fn test_currency() {
    assert_eq!(Currency::USD.symbol(), "$");
    assert_eq!(Currency::EUR.symbol(), "€");
    assert_eq!(Currency::JPY.decimals(), 0);
    assert!(Currency::JPY.is_zero_decimal());
}

#[test]
fn gateway_string_uses_two_decimals_for_minor_unit_currencies() {
    assert_eq!(Money::usd(2999).to_gateway_string(), "29.99");
    assert_eq!(Money::usd(0).to_gateway_string(), "0.00");
    assert_eq!(Money::usd(5).to_gateway_string(), "0.05");
    assert_eq!(Money::usd(100).to_gateway_string(), "1.00");
    assert_eq!(Money::eur(123456).to_gateway_string(), "1234.56");
    assert_eq!(Money::gbp(1).to_gateway_string(), "0.01");
}

#[test]
fn gateway_string_emits_no_decimals_for_zero_decimal_currencies() {
    assert_eq!(Money::new(1000, Currency::JPY).to_gateway_string(), "1000");
    assert_eq!(Money::new(0, Currency::JPY).to_gateway_string(), "0");
    assert_eq!(Money::new(1, Currency::JPY).to_gateway_string(), "1");
    assert_eq!(Money::new(50000, Currency::KRW).to_gateway_string(), "50000");
}

#[test]
fn gateway_string_matches_currency_decimals_for_every_variant() {
    for currency in [
        Currency::USD,
        Currency::EUR,
        Currency::GBP,
        Currency::JPY,
        Currency::KRW,
        Currency::CHF,
        Currency::INR,
    ] {
        let rendered = Money::new(12345, currency).to_gateway_string();
        let fractional = rendered.split_once('.').map_or(0, |(_, f)| f.len());
        assert_eq!(
            fractional,
            currency.decimals() as usize,
            "{} rendered as {rendered}",
            currency.code()
        );
    }
}

#[test]
fn gateway_string_carries_no_symbol_or_separator() {
    let s = Money::usd(123456789).to_gateway_string();
    assert_eq!(s, "1234567.89");
    assert!(!s.contains('$'));
    assert!(!s.contains(','));
}

#[test]
fn gateway_string_handles_negative_amounts() {
    assert_eq!(Money::usd(-2999).to_gateway_string(), "-29.99");
    assert_eq!(Money::new(-1000, Currency::JPY).to_gateway_string(), "-1000");
}

fn discount_percent(price: &Price) -> Option<f64> {
    price.discount().map(|(saved, from)| saved as f64 / from as f64 * 100.0)
}

#[test]
fn test_price_discount() {
    let price = Price::new(Money::usd(2000)).with_compare_at(Money::usd(2500));
    assert!(price.is_on_sale());
    assert!((discount_percent(&price).unwrap() - 20.0).abs() < 0.01);
}

#[test]
fn price_comparison_requires_a_matching_currency() {
    let price = Price::new(Money::usd(2000)).with_compare_at(Money::new(2500, Currency::JPY));
    assert!(!price.is_on_sale(), "cross-currency compare-at is not a sale");
    assert_eq!(discount_percent(&price), None);

    let same = Price::new(Money::usd(2000)).with_compare_at(Money::usd(2500));
    assert!(same.is_on_sale());
    assert!((discount_percent(&same).unwrap() - 20.0).abs() < 0.01);

    let bare = Price::new(Money::usd(2000));
    assert!(!bare.is_on_sale());
    assert_eq!(discount_percent(&bare), None);
}

#[test]
fn a_discount_is_exact() {
    let price = Price::new(Money::usd(2000)).with_compare_at(Money::usd(2500));
    assert_eq!(price.discount(), Some((500, 2500)));
    let dearer = Price::new(Money::usd(2500)).with_compare_at(Money::usd(2000));
    assert_eq!(dearer.discount(), Some((-500, 2000)));
    let free = Price::new(Money::usd(2500)).with_compare_at(Money::usd(0));
    assert_eq!(free.discount(), Some((0, 1)));
    let widest = Price::new(Money::usd(i64::MIN)).with_compare_at(Money::usd(i64::MAX));
    assert_eq!(widest.discount(), Some((u64::MAX as i128, i64::MAX)));
}

#[test]
fn a_sale_needs_a_lower_price_in_the_same_currency() {
    let sale = Price::new(Money::usd(2000)).with_compare_at(Money::usd(2500));
    assert!(sale.is_on_sale());
    let foreign = Price::new(Money::usd(2000)).with_compare_at(Money::new(2500, Currency::JPY));
    assert!(!foreign.is_on_sale());
    let dearer = Price::new(Money::usd(2500)).with_compare_at(Money::usd(2000));
    assert!(!dearer.is_on_sale());
    assert!(!Price::new(Money::usd(2000)).is_on_sale());
}

#[test]
fn signs_are_turned_and_dropped() {
    assert!(Money::usd(-5).is_negative());
    assert_eq!(Money::usd(-5).abs(), Money::usd(5));
    assert_eq!(Money::usd(5).negate(), Money::usd(-5));
    assert!(Money::usd(0).is_zero());
}

#[test]
fn decimals_are_exact() {
    let d = Decimal::from_str_exact("-0.050").unwrap();
    assert_eq!(d.mantissa(), -50);
    assert_eq!(d.scale(), 3);
    assert_eq!(d.to_string(), "-0.050");
    assert_eq!(Decimal::new(2999, 2).unwrap().to_string(), "29.99");
    assert_eq!(Decimal::new(2999, 2).unwrap().to_string_with(4), "29.9900");
    assert_eq!(Decimal::of_quotient(3000, 100).to_string(), "30");
    assert_eq!(Decimal::of_quotient(2999, 100).to_string(), "29.99");
    assert_eq!(Decimal::new(2999, 2).unwrap().checked_mul(100).unwrap().exact_i64(), Some(2999));
    assert_eq!(Decimal::new(25, 1).unwrap().round_to_i64(), Some(2));
    assert_eq!(Decimal::new(35, 1).unwrap().round_to_i64(), Some(4));
    assert_eq!(Decimal::new(25, 1).unwrap().exact_i64(), None);
    assert!(Decimal::new(MAX_MANTISSA, 29).is_none());
    assert!(Decimal::from_str_exact("one").is_none());
}

#[test]
fn a_refused_amount_says_which_and_why() {
    let amount = Decimal::from_str_exact("100000000000000000000").unwrap();
    let err = Money::try_from_decimal(amount, Currency::USD).unwrap_err();
    assert!(err.to_string().contains("100000000000000000000"), "got {}", err.to_string());
    assert!(err.to_string().contains("USD"), "got {}", err.to_string());
}

#[test]
fn a_representable_decimal_becomes_money() {
    let amount = Decimal::from_str_exact("29.99").unwrap();
    assert_eq!(Money::from_decimal(amount, Currency::USD), Money::usd(2999));
    let halfway = Decimal::from_str_exact("0.125").unwrap();
    assert_eq!(Money::from_decimal(halfway, Currency::USD), Money::usd(12));
}

#[test]
#[should_panic(expected = "money amount is not representable")]
fn deprecated_from_decimal_panics_rather_than_returning_zero() {
    let _ = Money::from_decimal(Decimal::new(MAX_MANTISSA, 0).unwrap(), Currency::USD);
}

#[test]
fn text_of_another_shape_is_no_amount() {
    for bad in ["", ".", "-", "+", "_", "1.2.3", "1e2", "12-", "1,50", "$5", "--1", "٣"] {
        assert_eq!(Money::from_gateway_string(bad, Currency::USD), None, "{bad:?}");
    }
    assert_eq!(Money::from_gateway_string("+1_000.5", Currency::USD), Some(Money::usd(100_050)));
}
