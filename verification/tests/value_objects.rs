use dely::money::{Currency, Money, Price, PriceUnit};
use dely::prostitute::{Bust, CupSize, Figure, FigureType, VitalStatistics};
use dely::time::{Birthday, Date};

#[test]
fn test_price_display() {
    let price = Money::new(1000000, Currency::JPY);
    assert_eq!(price.to_display(), "¥1,000,000");
}

#[test]
fn money_display_small_and_negative() {
    assert_eq!(Money::new(0, Currency::JPY).to_display(), "¥0");
    assert_eq!(Money::new(999, Currency::JPY).to_display(), "¥999");
    assert_eq!(Money::new(1000, Currency::JPY).to_display(), "¥1,000");
    assert_eq!(Money::new(-1234567, Currency::JPY).to_display(), "¥-1,234,567");
    assert_eq!(Money::new(i64::MIN, Currency::JPY).to_display(), "¥-9,223,372,036,854,775,808");
}

#[test]
fn price_negativity() {
    assert!(Price::new(Money::new(-1, Currency::JPY), PriceUnit::OneTime).is_negative());
    assert!(!Price::new(Money::new(0, Currency::JPY), PriceUnit::Hourly).is_negative());
}

#[test]
fn test_cup_size_from() {
    assert_eq!(CupSize::new(88, 65), CupSize::F);
    assert_eq!(CupSize::new(89, 65), CupSize::G);
    assert_eq!(CupSize::new(91, 65), CupSize::G);
    assert_eq!(CupSize::new(92, 65), CupSize::H);
    assert_eq!(CupSize::new(98, 80), CupSize::D);
}

#[test]
fn cup_size_ladder_ends() {
    assert_eq!(CupSize::new(60, 65), CupSize::AAA);
    assert_eq!(CupSize::new(71, 65), CupSize::AAA);
    assert_eq!(CupSize::new(72, 65), CupSize::AA);
    assert_eq!(CupSize::new(137, 65), CupSize::Z);
    assert_eq!(CupSize::new(500, 0), CupSize::Z);
}

#[test]
fn test_figure_figure_type() {
    let figure = Figure {
        vital_statistics: Some(VitalStatistics {
            bust: Bust {
                top: 98,
                under: Some(80),
            },
            waist: 71,
            hip: 98,
        }),
        cup_size: None,
        height: Some(168),
        weight: Some(60),
    };
    assert_eq!(figure.figure_type(), vec![FigureType::Tall, FigureType::Voluptuous]);
}

#[test]
fn figure_type_bands() {
    let petite_slender = Figure {
        vital_statistics: None,
        cup_size: None,
        height: Some(150),
        weight: Some(40),
    };
    assert_eq!(
        petite_slender.figure_type(),
        vec![FigureType::Petite, FigureType::Slender]
    );

    let normal = Figure {
        vital_statistics: None,
        cup_size: None,
        height: Some(160),
        weight: Some(52),
    };
    assert_eq!(normal.figure_type(), vec![FigureType::Normal]);

    let chubby = Figure {
        vital_statistics: None,
        cup_size: None,
        height: Some(160),
        weight: Some(70),
    };
    assert_eq!(chubby.figure_type(), vec![FigureType::Chubby]);

    let plump = Figure {
        vital_statistics: None,
        cup_size: None,
        height: Some(160),
        weight: Some(60),
    };
    assert_eq!(plump.figure_type(), vec![FigureType::Plump]);

    let unmeasured = Figure {
        vital_statistics: None,
        cup_size: None,
        height: None,
        weight: None,
    };
    assert_eq!(unmeasured.figure_type(), Vec::<FigureType>::new());
}

#[test]
fn figure_cup_size_prefers_explicit() {
    let f = Figure {
        vital_statistics: Some(VitalStatistics {
            bust: Bust {
                top: 88,
                under: Some(65),
            },
            waist: 60,
            hip: 88,
        }),
        cup_size: Some(CupSize::B),
        height: None,
        weight: None,
    };
    assert_eq!(f.cup_size(), Some(CupSize::B));
    let g = Figure { cup_size: None, ..f };
    assert_eq!(g.cup_size(), Some(CupSize::F));
    assert_eq!(Bust { top: 88, under: None }.cup_size(), None);
}

#[test]
fn birthday_age() {
    let b = Birthday(Date::new(1990, 6, 15).unwrap());
    assert_eq!(b.age_on(Date::new(2020, 6, 15).unwrap()), 30);
    assert_eq!(b.age_on(Date::new(2020, 6, 14).unwrap()), 29);
    assert_eq!(b.age_on(Date::new(2020, 7, 1).unwrap()), 30);
    assert_eq!(b.age_on(Date::new(2020, 5, 31).unwrap()), 29);
}

#[test]
fn date_validity() {
    assert!(Date::new(2020, 2, 29).is_some());
    assert!(Date::new(2021, 2, 29).is_none());
    assert!(Date::new(1900, 2, 29).is_none());
    assert!(Date::new(2000, 2, 29).is_some());
    assert!(Date::new(2020, 4, 31).is_none());
    assert!(Date::new(2020, 0, 1).is_none());
    assert!(Date::new(2020, 12, 31).is_some());
}
