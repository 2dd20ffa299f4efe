use dely::extra_service::{ExtraService, ExtraServiceError, ExtraServiceEvent, ExtraServiceId};
use dely::money::{Currency, Money};

#[test]
fn test_extra_service_create() {
    let service = ExtraService::create(
        ExtraServiceId(30),
        "AF".to_owned(),
        "アナルセックスを指します。".to_owned(),
        Money::new(10000, Currency::JPY),
    )
    .unwrap();
    assert_eq!(service.id(), ExtraServiceId(30));
    assert_eq!(service.name(), "AF");
    assert_eq!(service.description(), "アナルセックスを指します。");
    assert_eq!(service.price(), &Money::new(10000, Currency::JPY));
}

#[test]
fn create_rejects_blank_name() {
    let r = ExtraService::create(
        ExtraServiceId(1),
        "  \u{3000} ".to_owned(),
        "desc".to_owned(),
        Money::new(100, Currency::JPY),
    );
    assert_eq!(r.err(), Some(ExtraServiceError::NameIsBlank));
    let mut ok = ExtraService::create(
        ExtraServiceId(1),
        "a".to_owned(),
        "desc".to_owned(),
        Money::new(100, Currency::JPY),
    )
    .unwrap();
    assert_eq!(ok.change_name("   ".to_owned()), Err(ExtraServiceError::NameIsBlank));
    assert_eq!(ok.name(), "a");
}

#[test]
fn lifecycle_replay_matches_live_state() {
    let mut live = ExtraService::create(
        ExtraServiceId(30),
        "AF".to_owned(),
        "desc".to_owned(),
        Money::new(10000, Currency::JPY),
    )
    .unwrap();
    live.change_name("AF改".to_owned()).unwrap();
    live.change_description("desc2".to_owned());
    live.change_price(Money::new(12000, Currency::JPY));

    let history = live.events.pop_all();
    assert_eq!(history.len(), 4);

    let replayed = ExtraService::replay(history).unwrap();
    assert_eq!(replayed.id(), ExtraServiceId(30));
    assert_eq!(replayed.name(), "AF改");
    assert_eq!(replayed.description(), "desc2");
    assert_eq!(replayed.price(), &Money::new(12000, Currency::JPY));
    assert_eq!(replayed.events.len(), 0);
}

#[test]
fn validate_rejects_mismatched_id() {
    let service = ExtraService::create(
        ExtraServiceId(30),
        "AF".to_owned(),
        "desc".to_owned(),
        Money::new(10000, Currency::JPY),
    )
    .unwrap();
    let event = ExtraServiceEvent::ExtraServiceNameChanged {
        id: ExtraServiceId(31),
        name: "x".to_owned(),
    };
    assert_eq!(service.validate(&event), Err(ExtraServiceError::MismatchedId));
    let event = ExtraServiceEvent::ExtraServiceDeleted { id: ExtraServiceId(30) };
    assert_eq!(service.validate(&event), Ok(()));
}

#[test]
fn replay_of_empty_stream_is_none() {
    assert!(ExtraService::replay(Vec::new()).is_none());
}
