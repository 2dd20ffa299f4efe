use dely::money::{Currency, Money, Price, PriceUnit};
use dely::service::{Discount, DiscountType, Service, ServiceError, ServiceId};
use dely::time::{TimeInterval, TimeOfDayInterval, Timestamp};

fn price(amount: i64) -> Price {
    Price::new(Money::new(amount, Currency::JPY), PriceUnit::OneTime)
}

fn tod(from_hour: i64, to_hour: i64) -> TimeOfDayInterval {
    TimeOfDayInterval {
        start: from_hour * 3_600_000,
        end: to_hour * 3_600_000,
    }
}

fn at_hour(h: i64) -> Timestamp {
    Timestamp::new(h * 3_600_000)
}

fn service() -> Service {
    Service {
        id: ServiceId(1),
        name: "基本コース".to_owned(),
        description: String::new(),
        default_price: price(10000),
        extension_price: Some(price(3000)),
        time_based_prices: vec![(tod(18, 24), price(15000)), (tod(6, 12), price(8000))],
        discounts: Vec::new(),
    }
}

#[test]
fn base_price_picks_bracket_or_default() {
    let s = service();
    assert_eq!(s.base_price(at_hour(7)), Money::new(8000, Currency::JPY));
    assert_eq!(s.base_price(at_hour(20)), Money::new(15000, Currency::JPY));
    assert_eq!(s.base_price(at_hour(13)), Money::new(10000, Currency::JPY));
    // The next day's 7 o'clock falls in the same bracket.
    assert_eq!(s.base_price(at_hour(24 + 7)), Money::new(8000, Currency::JPY));
}

#[test]
fn overlapping_brackets_resolve_to_earliest_start() {
    let mut s = service();
    s.time_based_prices = vec![(tod(8, 12), price(7000)), (tod(6, 12), price(6000))];
    // Both brackets contain 9 o'clock; the one starting at 6 wins.
    assert_eq!(s.base_price(at_hour(9)), Money::new(6000, Currency::JPY));
}

#[test]
fn discounts_stack_and_clamp() {
    let mut s = service();
    let whole_day = TimeInterval::new(at_hour(0), at_hour(24));
    s.discounts = vec![
        Discount {
            discount_type: DiscountType::Percentage { percentage: 10 },
            period: whole_day,
        },
        Discount {
            discount_type: DiscountType::Amount { amount: price(500) },
            period: whole_day,
        },
        Discount {
            discount_type: DiscountType::Amount { amount: price(200) },
            period: TimeInterval::new(at_hour(23), at_hour(24)),
        },
    ];
    // At 13 o'clock the base is the default 10000: 10% + 500, the dated
    // discount does not apply.
    assert_eq!(s.discount_price(at_hour(13)), Money::new(1500, Currency::JPY));
    assert_eq!(s.calculate_price(at_hour(13)), Money::new(8500, Currency::JPY));

    // A discount larger than the base clamps to the base; the price floors
    // at zero.
    s.discounts = vec![Discount {
        discount_type: DiscountType::Percentage { percentage: 150 },
        period: whole_day,
    }];
    assert_eq!(s.discount_price(at_hour(13)), Money::new(10000, Currency::JPY));
    assert_eq!(s.calculate_price(at_hour(13)), Money::new(0, Currency::JPY));
}

#[test]
fn price_without_discounts_is_base() {
    let s = service();
    assert_eq!(s.calculate_price(at_hour(20)), Money::new(15000, Currency::JPY));
}

#[test]
fn extension_charge_multiplies_hours() {
    let s = service();
    assert_eq!(
        s.extension_charge(3),
        Some(Money::new(9000, Currency::JPY))
    );
    let mut bare = service();
    bare.extension_price = None;
    assert_eq!(bare.extension_charge(3), None);
    let mut huge = service();
    huge.extension_price = Some(price(i64::MAX));
    assert_eq!(huge.extension_charge(2), None);
}

#[test]
fn service_validations() {
    let s = service();
    assert_eq!(s.validate_id(&ServiceId(1)), Ok(()));
    assert_eq!(s.validate_id(&ServiceId(2)), Err(ServiceError::MismatchedId));
    assert_eq!(s.validate_name("コース"), Ok(()));
    assert_eq!(s.validate_name("  "), Err(ServiceError::NameIsBlank));
    assert_eq!(s.validate_default_price(&price(0)), Ok(()));
    assert_eq!(
        s.validate_default_price(&price(-1)),
        Err(ServiceError::PriceIsNegative)
    );
}
