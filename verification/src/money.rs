//! Money and price value objects.
//!
//! Amounts are signed 64-bit integers of the smallest currency unit. The
//! display form of a yen amount is the yen sign followed by the decimal
//! digits grouped in threes.

use vstd::prelude::*;
use vstd::string::*;
use crate::text;

verus! {

/// Supported currencies.
#[derive(Clone, Copy, Debug, PartialEq, Eq, Structural)]
pub enum Currency {
    /// Japanese yen.
    JPY,
}

/// An amount of a currency.
#[derive(Clone, Copy, Debug, PartialEq, Eq, Structural)]
pub struct Money {
    pub amount: i64,
    pub currency: Currency,
}

/// The magnitude of a money amount.
pub open spec fn money_magnitude(amount: i64) -> nat {
    if amount < 0 {
        (-(amount as int)) as nat
    } else {
        amount as nat
    }
}

/// The display form of a money value: the currency sign, a minus sign for
/// negative amounts, then the digits grouped in threes.
pub open spec fn money_text(m: Money) -> Seq<char> {
    let digits = text::grouped(text::dec_digits(money_magnitude(m.amount)));
    if m.amount < 0 {
        seq!['\u{00A5}', '-'] + digits
    } else {
        seq!['\u{00A5}'] + digits
    }
}

impl Money {
    /// A money value with the given amount and currency.
    pub fn new(amount: i64, currency: Currency) -> (r: Money)
        ensures
            r == (Money { amount, currency }),
    {
        Money { amount, currency }
    }

    /// Whether the amount is below zero.
    pub fn is_negative(&self) -> (r: bool)
        ensures
            r == (self.amount < 0),
    {
        self.amount < 0
    }

    /// Renders the value for display, e.g. a seven-figure yen amount as the
    /// yen sign followed by digits grouped in threes.
    pub fn to_display(&self) -> (r: String)
        ensures
            r@ == money_text(*self),
    {
        let mag: u64 = if self.amount >= 0 {
            self.amount as u64
        } else {
            (-(self.amount as i128)) as u64
        };
        let digits = text::u64_to_dec(mag);
        let grouped = text::group_digits(digits.as_str());
        proof {
            reveal_strlit("\u{00A5}");
            reveal_strlit("-");
        }
        let mut r = String::new();
        r.append("\u{00A5}");
        if self.amount < 0 {
            r.append("-");
        }
        r.append(grouped.as_str());
        proof {
            assert(mag as nat == money_magnitude(self.amount));
            assert(r@ =~= money_text(*self));
        }
        r
    }
}

impl Default for Money {
    /// Zero yen.
    fn default() -> (r: Money)
        ensures
            r == (Money { amount: 0, currency: Currency::JPY }),
    {
        Money { amount: 0, currency: Currency::JPY }
    }
}

/// How a price is charged.
#[derive(Clone, Copy, Debug, PartialEq, Eq, Structural)]
pub enum PriceUnit {
    /// Charged once.
    OneTime,
    /// Charged per hour.
    Hourly,
}

/// A money amount together with its charging unit.
#[derive(Clone, Copy, Debug, PartialEq, Eq, Structural)]
pub struct Price {
    pub amount: Money,
    pub unit: PriceUnit,
}

impl Price {
    /// A price with the given amount and unit.
    pub fn new(amount: Money, unit: PriceUnit) -> (r: Price)
        ensures
            r == (Price { amount, unit }),
    {
        Price { amount, unit }
    }

    /// Whether the amount is below zero.
    pub fn is_negative(&self) -> (r: bool)
        ensures
            r == (self.amount.amount < 0),
    {
        self.amount.is_negative()
    }
}

impl Default for Price {
    /// Zero yen, charged once.
    fn default() -> (r: Price)
        ensures
            r == (Price { amount: Money { amount: 0, currency: Currency::JPY }, unit: PriceUnit::OneTime }),
    {
        Price { amount: Money { amount: 0, currency: Currency::JPY }, unit: PriceUnit::OneTime }
    }
}

} // verus!
