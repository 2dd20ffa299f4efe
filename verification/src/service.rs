//! The service aggregate: a bookable service with a default price,
//! time-of-day prices, an optional extension price and dated discounts.
//!
//! The price of a booking at an instant is the time-of-day bracket's price
//! if one contains the instant (the bracket with the earliest start when
//! several do), else the default price; discounts whose period contains the
//! instant are then taken off, percentages before fixed amounts, the total
//! discount clamped at the base and the final price floored at zero.

use vstd::prelude::*;
use crate::money::{Money, Price};
use crate::text;
use crate::time::{
    TimeInterval, TimeOfDayInterval, Timestamp, interval_contains, time_of_day_contains,
    time_of_day_of,
};

verus! {

/// Identifier of a service.
#[derive(Clone, Copy, Debug, PartialEq, Eq, Hash, Structural)]
pub struct ServiceId(pub u64);

impl Default for ServiceId {
    /// The zero id.
    fn default() -> (r: Self)
        ensures
            r == ServiceId(0),
    {
        ServiceId(0)
    }
}

/// How a discount reduces the base price.
#[derive(Clone, Copy, Debug, PartialEq, Eq, Structural)]
pub enum DiscountType {
    /// A fixed amount off.
    Amount { amount: Price },
    /// A percentage of the base price off.
    Percentage { percentage: i32 },
}

/// A discount that applies during a period.
#[derive(Clone, Copy, Debug, PartialEq, Eq, Structural)]
pub struct Discount {
    pub discount_type: DiscountType,
    pub period: TimeInterval,
}

/// Validation failures of service data.
#[derive(Clone, Copy, Debug, PartialEq, Eq, Structural)]
pub enum ServiceError {
    /// The event names another aggregate.
    MismatchedId,
    /// The name is empty or white space only.
    NameIsBlank,
    /// A price is below zero.
    PriceIsNegative,
}

/// Events of the service aggregate.
#[derive(Debug, PartialEq, Eq)]
pub enum ServiceEvent {
    /// The service was registered.
    ServiceCreated {
        id: ServiceId,
        name: String,
        description: String,
        default_price: Price,
        extension_price: Option<Price>,
        time_based_prices: Vec<(TimeOfDayInterval, Price)>,
        discounts: Vec<Discount>,
    },
    /// The service was renamed.
    ServiceNameChanged { id: ServiceId, name: String },
    /// The description was replaced.
    ServiceDescriptionChanged { id: ServiceId, description: String },
    /// The default price was replaced.
    ServiceDefaultPriceChanged { id: ServiceId, default_price: Price },
    /// The extension price was replaced or removed.
    ServiceExtensionPriceChanged { id: ServiceId, extension_price: Option<Price> },
    /// The whole time-of-day price table was replaced.
    ServiceTimeBasedPriceChanged {
        id: ServiceId,
        time_based_prices: Vec<(TimeOfDayInterval, Price)>,
    },
    /// One time-of-day bracket was added.
    ServiceTimeBasedPriceAdded { id: ServiceId, time: TimeOfDayInterval, price: Price },
    /// One time-of-day bracket was removed.
    ServiceTimeBasedPriceDeleted { id: ServiceId, time: TimeOfDayInterval },
    /// The whole discount list was replaced.
    ServiceDiscountChanged { id: ServiceId, discounts: Vec<Discount> },
    /// One discount was added.
    ServiceDiscountAdded { id: ServiceId, discount: Discount },
    /// One discount was removed.
    ServiceDiscountDeleted { id: ServiceId, discount: Discount },
    /// The service was removed.
    ServiceDeleted { id: ServiceId },
}

/// A bookable service.
#[derive(Debug, PartialEq, Eq)]
pub struct Service {
    pub id: ServiceId,
    pub name: String,
    pub description: String,
    pub default_price: Price,
    pub extension_price: Option<Price>,
    pub time_based_prices: Vec<(TimeOfDayInterval, Price)>,
    pub discounts: Vec<Discount>,
}

/// The bracket that prices this time of day: among the entries whose range
/// contains it, the one with the earliest start; ties keep the earliest
/// entry.
pub open spec fn best_bracket(
    entries: Seq<(TimeOfDayInterval, Price)>,
    tod: int,
) -> Option<(TimeOfDayInterval, Price)>
    decreases entries.len(),
{
    if entries.len() == 0 {
        None
    } else {
        let rest = best_bracket(entries.drop_last(), tod);
        if time_of_day_contains(entries.last().0, tod) {
            match rest {
                None => Some(entries.last()),
                Some(e) => if entries.last().0.start < e.0.start {
                    Some(entries.last())
                } else {
                    Some(e)
                },
            }
        } else {
            rest
        }
    }
}

/// The base amount at an instant: the containing bracket's price, else the
/// default price.
pub open spec fn base_amount_of(s: Service, t: Timestamp) -> Money {
    match best_bracket(s.time_based_prices@, time_of_day_of(t)) {
        Some(e) => e.1.amount,
        None => s.default_price.amount,
    }
}

/// The raw sum of the discounts active at `t`: each percentage discount
/// takes its share of the base, each amount discount its amount.
pub open spec fn discount_sum(ds: Seq<Discount>, t: Timestamp, base: int) -> int
    decreases ds.len(),
{
    if ds.len() == 0 {
        0
    } else {
        discount_sum(ds.drop_last(), t, base) + discount_term(ds.last(), t, base)
    }
}

/// One discount's contribution at `t`.
pub open spec fn discount_term(d: Discount, t: Timestamp, base: int) -> int {
    if interval_contains(d.period, t) {
        match d.discount_type {
            DiscountType::Amount { amount } => amount.amount.amount as int,
            DiscountType::Percentage { percentage } => base * percentage / 100,
        }
    } else {
        0
    }
}

/// The total discount at `t`: the raw sum, clamped at the base.
pub open spec fn discount_amount_of(s: Service, t: Timestamp) -> int {
    let base = base_amount_of(s, t).amount as int;
    let raw = discount_sum(s.discounts@, t, base);
    if raw > base {
        base
    } else {
        raw
    }
}

/// The final amount at `t`: base less discount, floored at zero.
pub open spec fn price_amount_of(s: Service, t: Timestamp) -> int {
    let base = base_amount_of(s, t).amount as int;
    let total = base - discount_amount_of(s, t);
    if total < 0 {
        0
    } else {
        total
    }
}

/// All of the service's prices and discounts are non-negative, as the data
/// model demands.
pub open spec fn service_prices_nonneg(s: Service) -> bool {
    &&& s.default_price.amount.amount >= 0
    &&& (match s.extension_price {
        Some(p) => p.amount.amount >= 0,
        None => true,
    })
    &&& (forall|i: int|
        0 <= i < s.time_based_prices@.len() ==> (
        #[trigger] s.time_based_prices@[i]).1.amount.amount >= 0)
    &&& (forall|i: int|
        0 <= i < s.discounts@.len() ==> match (#[trigger] s.discounts@[i]).discount_type {
            DiscountType::Amount { amount } => amount.amount.amount >= 0,
            DiscountType::Percentage { percentage } => percentage >= 0,
        })
}

/// Every bracket price is non-negative, so the chosen one is.
proof fn lemma_best_bracket_nonneg(entries: Seq<(TimeOfDayInterval, Price)>, tod: int)
    requires
        forall|i: int| 0 <= i < entries.len() ==> (#[trigger] entries[i]).1.amount.amount >= 0,
    ensures
        match best_bracket(entries, tod) {
            Some(e) => e.1.amount.amount >= 0,
            None => true,
        },
    decreases entries.len(),
{
    if entries.len() > 0 {
        let head = entries.drop_last();
        assert forall|i: int| 0 <= i < head.len() implies (#[trigger] head[i]).1.amount.amount
            >= 0 by {
            assert(head[i] == entries[i]);
        }
        lemma_best_bracket_nonneg(head, tod);
        assert(entries.last() == entries[entries.len() - 1]);
    }
}

impl Service {
    /// The aggregate's id.
    pub fn id(&self) -> (r: ServiceId)
        ensures
            r == self.id,
    {
        self.id
    }

    /// `MismatchedId` unless `id` is the aggregate's own.
    pub fn validate_id(&self, id: &ServiceId) -> (r: Result<(), ServiceError>)
        ensures
            r == if *id != self.id {
                Err::<(), ServiceError>(ServiceError::MismatchedId)
            } else {
                Ok::<(), ServiceError>(())
            },
    {
        if id.0 != self.id.0 {
            Err(ServiceError::MismatchedId)
        } else {
            Ok(())
        }
    }

    /// `NameIsBlank` when the name is empty or white space only.
    pub fn validate_name(&self, name: &str) -> (r: Result<(), ServiceError>)
        ensures
            r == if text::blank(name@) {
                Err::<(), ServiceError>(ServiceError::NameIsBlank)
            } else {
                Ok::<(), ServiceError>(())
            },
    {
        if text::is_blank(name) {
            Err(ServiceError::NameIsBlank)
        } else {
            Ok(())
        }
    }

    /// `PriceIsNegative` when the price is below zero.
    pub fn validate_price_is_negative(&self, price: &Price) -> (r: Result<(), ServiceError>)
        ensures
            r == if price.amount.amount < 0 {
                Err::<(), ServiceError>(ServiceError::PriceIsNegative)
            } else {
                Ok::<(), ServiceError>(())
            },
    {
        if price.is_negative() {
            Err(ServiceError::PriceIsNegative)
        } else {
            Ok(())
        }
    }

    /// `PriceIsNegative` when the default price is below zero.
    pub fn validate_default_price(&self, price: &Price) -> (r: Result<(), ServiceError>)
        ensures
            r == if price.amount.amount < 0 {
                Err::<(), ServiceError>(ServiceError::PriceIsNegative)
            } else {
                Ok::<(), ServiceError>(())
            },
    {
        self.validate_price_is_negative(price)
    }

    /// The base amount at `date_time`: the time-of-day bracket that
    /// contains it (the one with the earliest start when several do), else
    /// the default price.
    pub fn base_price(&self, date_time: Timestamp) -> (r: Money)
        ensures
            r == base_amount_of(*self, date_time),
    {
        let tod = date_time.time_of_day_millis();
        let n = self.time_based_prices.len();
        let mut best: Option<(TimeOfDayInterval, Price)> = None;
        let mut i: usize = 0;
        while i < n
            invariant
                0 <= i <= n,
                n == self.time_based_prices@.len(),
                tod == time_of_day_of(date_time),
                best == best_bracket(self.time_based_prices@.subrange(0, i as int), tod as int),
            decreases n - i,
        {
            let ghost prefix = self.time_based_prices@.subrange(0, i as int);
            let ghost prefix2 = self.time_based_prices@.subrange(0, i as int + 1);
            proof {
                assert(prefix2.drop_last() =~= prefix);
                assert(prefix2.last() == self.time_based_prices@[i as int]);
            }
            let entry = self.time_based_prices[i];
            if entry.0.contains(tod) {
                best = match best {
                    None => Some(entry),
                    Some(e) => if entry.0.start < e.0.start {
                        Some(entry)
                    } else {
                        Some(e)
                    },
                };
            }
            i = i + 1;
        }
        proof {
            assert(self.time_based_prices@.subrange(0, n as int) =~= self.time_based_prices@);
        }
        match best {
            Some(e) => e.1.amount,
            None => self.default_price.amount,
        }
    }

    /// The total discount at `date_time`, clamped at the base amount.
    /// Demands non-negative prices and discounts, which the data model
    /// guarantees.
    pub fn discount_price(&self, date_time: Timestamp) -> (r: Money)
        requires
            service_prices_nonneg(*self),
        ensures
            r.amount == discount_amount_of(*self, date_time),
            0 <= r.amount <= base_amount_of(*self, date_time).amount,
            r.currency == base_amount_of(*self, date_time).currency,
    {
        let base_money = self.base_price(date_time);
        proof {
            lemma_best_bracket_nonneg(self.time_based_prices@, time_of_day_of(date_time));
        }
        let base = base_money.amount;
        let ghost basei = base as int;
        let n = self.discounts.len();
        let mut acc: i64 = 0;
        let mut i: usize = 0;
        while i < n
            invariant
                0 <= i <= n,
                n == self.discounts@.len(),
                service_prices_nonneg(*self),
                0 <= base,
                basei == base,
                0 <= acc <= base,
                acc == ({
                    let raw = discount_sum(self.discounts@.subrange(0, i as int), date_time, basei);
                    if raw > basei {
                        basei
                    } else {
                        raw
                    }
                }),
                discount_sum(self.discounts@.subrange(0, i as int), date_time, basei) >= 0,
            decreases n - i,
        {
            let ghost prefix = self.discounts@.subrange(0, i as int);
            let ghost prefix2 = self.discounts@.subrange(0, i as int + 1);
            proof {
                assert(prefix2.drop_last() =~= prefix);
                assert(prefix2.last() == self.discounts@[i as int]);
            }
            let d = self.discounts[i];
            let term: u128 = if d.period.contains(&date_time) {
                match d.discount_type {
                    DiscountType::Amount { amount } => amount.amount.amount as u128,
                    DiscountType::Percentage { percentage } => {
                        proof {
                            assert((base as u128) * (percentage as u128) <= (i64::MAX as u128) * (
                            i32::MAX as u128)) by (nonlinear_arith)
                                requires
                                    0 <= base <= i64::MAX,
                                    0 <= percentage <= i32::MAX,
                            ;
                        }
                        let wide: u128 = (base as u128) * (percentage as u128);
                        wide / 100
                    },
                }
            } else {
                0
            };
            proof {
                assert(term == discount_term(self.discounts@[i as int], date_time, basei));
            }
            if term >= (base - acc) as u128 {
                acc = base;
            } else {
                acc = acc + (term as i64);
            }
            i = i + 1;
        }
        proof {
            assert(self.discounts@.subrange(0, n as int) =~= self.discounts@);
        }
        Money { amount: acc, currency: base_money.currency }
    }

    /// The final amount at `date_time`: the base less the active discounts,
    /// floored at zero. Demands non-negative prices and discounts, which
    /// the data model guarantees.
    pub fn calculate_price(&self, date_time: Timestamp) -> (r: Money)
        requires
            service_prices_nonneg(*self),
        ensures
            r.amount == price_amount_of(*self, date_time),
            r.currency == base_amount_of(*self, date_time).currency,
    {
        let base = self.base_price(date_time);
        let discount = self.discount_price(date_time);
        proof {
            lemma_best_bracket_nonneg(self.time_based_prices@, time_of_day_of(date_time));
        }
        let total = base.amount - discount.amount;
        if total < 0 {
            Money { amount: 0, currency: base.currency }
        } else {
            Money { amount: total, currency: base.currency }
        }
    }

    /// The charge for `hours` extension hours: the extension price times
    /// the hours, `None` when no extension is sold or the product does not
    /// fit a money amount.
    pub fn extension_charge(&self, hours: u32) -> (r: Option<Money>)
        ensures
            match self.extension_price {
                None => r is None,
                Some(p) => {
                    let product = (p.amount.amount as int) * (hours as int);
                    if i64::MIN <= product <= i64::MAX {
                        r == Some(Money { amount: product as i64, currency: p.amount.currency })
                    } else {
                        r is None
                    }
                },
            },
    {
        let p = match &self.extension_price {
            Some(p) => *p,
            None => {
                return None;
            },
        };
        proof {
            assert(i128::MIN <= (p.amount.amount as int) * (hours as int) <= i128::MAX)
                by (nonlinear_arith)
                requires
                    i64::MIN <= p.amount.amount <= i64::MAX,
                    0 <= hours <= u32::MAX,
            ;
        }
        let wide: i128 = (p.amount.amount as i128) * (hours as i128);
        if wide < i64::MIN as i128 || wide > i64::MAX as i128 {
            return None;
        }
        Some(Money { amount: wide as i64, currency: p.amount.currency })
    }
}

impl Default for Service {
    /// A blank service.
    fn default() -> (r: Service)
        ensures
            r.id == ServiceId(0),
            r.name@ == Seq::<char>::empty(),
            r.description@ == Seq::<char>::empty(),
            r.default_price == (Price {
                amount: Money { amount: 0, currency: crate::money::Currency::JPY },
                unit: crate::money::PriceUnit::OneTime,
            }),
            r.extension_price is None,
            r.time_based_prices@ == Seq::<(TimeOfDayInterval, Price)>::empty(),
            r.discounts@ == Seq::<Discount>::empty(),
    {
        let r = Service {
            id: ServiceId(0),
            name: String::new(),
            description: String::new(),
            default_price: Price::default(),
            extension_price: None,
            time_based_prices: Vec::new(),
            discounts: Vec::new(),
        };
        proof {
            assert(r.name@ =~= Seq::<char>::empty());
            assert(r.description@ =~= Seq::<char>::empty());
            assert(r.time_based_prices@ =~= Seq::<(TimeOfDayInterval, Price)>::empty());
            assert(r.discounts@ =~= Seq::<Discount>::empty());
        }
        r
    }
}

} // verus!
