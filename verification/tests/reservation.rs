use dely::customer::CustomerId;
use dely::money::{Currency, Money, Price, PriceUnit};
use dely::prostitute::ProstituteId;
use dely::reservation::{
    Reservation, ReservationCustomer, ReservationDetail, ReservationDetailError,
    ReservationDetailId, ReservationError, ReservationId,
};
use dely::time::{TimeInterval, Timestamp};

fn booking_window() -> TimeInterval {
    TimeInterval::new(Timestamp::new(1_000), Timestamp::new(5_000))
}

fn registered() -> ReservationCustomer {
    ReservationCustomer::Registered { id: CustomerId(8) }
}

fn detail(id: u64, name: &str) -> ReservationDetail {
    ReservationDetail::create(
        ReservationDetailId(id),
        name.to_owned(),
        1,
        Price::new(Money::new(1000, Currency::JPY), PriceUnit::OneTime),
    )
    .unwrap()
}

#[test]
fn create_validations() {
    assert_eq!(
        Reservation::create(ReservationId(1), Vec::new(), booking_window(), registered()).err(),
        Some(ReservationError::NoProstitutes)
    );
    assert_eq!(
        Reservation::create(
            ReservationId(1),
            vec![ProstituteId(1)],
            TimeInterval::new(Timestamp::new(5_000), Timestamp::new(5_000)),
            registered()
        )
        .err(),
        Some(ReservationError::InvalidTime)
    );
    assert_eq!(
        Reservation::create(
            ReservationId(1),
            vec![ProstituteId(1)],
            booking_window(),
            ReservationCustomer::Anonymous
        )
        .err(),
        Some(ReservationError::AnonymousNotAllowed)
    );
    assert_eq!(
        Reservation::create(
            ReservationId(1),
            vec![ProstituteId(1)],
            booking_window(),
            ReservationCustomer::Unregistered {
                name: String::new(),
                phone: "090".to_owned()
            }
        )
        .err(),
        Some(ReservationError::UnregisteredCustomerNameRequired)
    );
    assert_eq!(
        Reservation::create(
            ReservationId(1),
            vec![ProstituteId(1)],
            booking_window(),
            ReservationCustomer::Unregistered {
                name: "客".to_owned(),
                phone: String::new()
            }
        )
        .err(),
        Some(ReservationError::UnregisteredCustomerPhoneRequired)
    );
    let ok = Reservation::create(
        ReservationId(1),
        vec![ProstituteId(1), ProstituteId(2)],
        booking_window(),
        registered(),
    )
    .unwrap();
    assert_eq!(ok.id(), ReservationId(1));
    assert_eq!(ok.prostitute_ids(), &vec![ProstituteId(1), ProstituteId(2)]);
    assert_eq!(ok.customer(), &registered());
}

#[test]
fn details_are_unique_by_id() {
    let mut r = Reservation::create(
        ReservationId(1),
        vec![ProstituteId(1)],
        booking_window(),
        registered(),
    )
    .unwrap();
    assert_eq!(r.add_detail(detail(1, "延長")), Ok(()));
    assert_eq!(r.add_detail(detail(1, "別名")), Err(ReservationError::DuplicateDetail));
    assert_eq!(r.add_detail(detail(2, "オプション")), Ok(()));
    assert_eq!(r.details().len(), 2);
    assert_eq!(
        r.delete_detail(ReservationDetailId(9)),
        Err(ReservationError::DetailNotFound)
    );
    assert_eq!(r.delete_detail(ReservationDetailId(1)), Ok(()));
    assert_eq!(r.details().len(), 1);
    assert_eq!(r.details()[0].name(), "オプション");
}

#[test]
fn detail_validations() {
    assert_eq!(
        ReservationDetail::create(
            ReservationDetailId(1),
            String::new(),
            1,
            Price::new(Money::new(0, Currency::JPY), PriceUnit::OneTime)
        )
        .err(),
        Some(ReservationDetailError::NameRequired)
    );
    assert_eq!(
        ReservationDetail::create(
            ReservationDetailId(1),
            "x".to_owned(),
            0,
            Price::new(Money::new(0, Currency::JPY), PriceUnit::OneTime)
        )
        .err(),
        Some(ReservationDetailError::InvalidQuantity)
    );
    let d = detail(3, "named");
    assert_eq!(d.id(), ReservationDetailId(3));
    assert_eq!(
        d.price(),
        &Price::new(Money::new(1000, Currency::JPY), PriceUnit::OneTime)
    );
}

#[test]
fn reservation_replay_reproduces_state() {
    let mut live = Reservation::create(
        ReservationId(4),
        vec![ProstituteId(1)],
        booking_window(),
        ReservationCustomer::Unregistered {
            name: "客".to_owned(),
            phone: "09012345678".to_owned(),
        },
    )
    .unwrap();
    live.add_detail(detail(1, "延長")).unwrap();
    live.add_detail(detail(2, "オプション")).unwrap();
    live.delete_detail(ReservationDetailId(1)).unwrap();

    let history = live.events.pop_all();
    let replayed = Reservation::replay(history).unwrap();
    assert_eq!(replayed.id(), ReservationId(4));
    assert_eq!(replayed.details().len(), 1);
    assert_eq!(replayed.details()[0].id(), ReservationDetailId(2));
    assert_eq!(replayed.events.len(), 0);
}
