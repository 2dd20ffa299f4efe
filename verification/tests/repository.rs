use dely::extra_service::{ExtraService, ExtraServiceId};
use dely::media::MediaId;
use dely::money::{Currency, Money};
use dely::prostitute::{Figure, Prostitute, ProstituteId};
use dely::repository::{
    extra_service_delete_plan, extra_service_save_plan, map_log_error, masks_to_missing,
    prostitute_save_plan, schedule_save_plan, DataAccessError, ExpectedRevision, LogErrorKind,
};
use dely::schedule::{Schedule, ScheduleId, Shift, ShiftId, ShiftStatus};
use dely::time::{TimeInterval, Timestamp};

fn sample() -> ExtraService {
    ExtraService::create(
        ExtraServiceId(30),
        "AF".to_owned(),
        "desc".to_owned(),
        Money::new(10000, Currency::JPY),
    )
    .unwrap()
}

#[test]
fn save_plan_of_fresh_aggregate_requires_no_stream() {
    let mut entity = sample();
    entity.change_name("AF改".to_owned()).unwrap();
    let plan = extra_service_save_plan(&mut entity).unwrap();
    assert_eq!(plan.stream, "extra_service-30");
    assert_eq!(plan.expected, ExpectedRevision::NoStream);
    assert_eq!(plan.events.len(), 2);
    assert_eq!(plan.events[0].event_type, "ExtraServiceCreated");
    assert_eq!(plan.events[1].event_type, "ExtraServiceNameChanged");
    // The queue is drained by planning the save.
    assert_eq!(entity.events.len(), 0);
    assert!(extra_service_save_plan(&mut entity).is_none());
}

#[test]
fn save_plan_of_loaded_aggregate_requires_existing_stream() {
    let mut entity = sample();
    let history = entity.events.pop_all();
    let mut loaded = ExtraService::replay(history).unwrap();
    loaded.change_price(Money::new(500, Currency::JPY));
    let plan = extra_service_save_plan(&mut loaded).unwrap();
    assert_eq!(plan.expected, ExpectedRevision::StreamExists);
    assert_eq!(plan.events.len(), 1);
    assert_eq!(loaded.events.len(), 0);
}

#[test]
fn save_plans_for_other_aggregates() {
    let mut p = Prostitute::join(
        ProstituteId(7),
        "n".to_owned(),
        "c".to_owned(),
        String::new(),
        String::new(),
        Figure::default(),
        None,
        None,
        Vec::new(),
        vec![MediaId(1)],
        None,
    )
    .unwrap();
    let plan = prostitute_save_plan(&mut p).unwrap();
    assert_eq!(plan.stream, "prostitute-7");
    assert_eq!(plan.expected, ExpectedRevision::NoStream);
    assert_eq!(plan.events[0].event_type, "Joined");

    let mut s = Schedule::create(ScheduleId(5), ProstituteId(7));
    let shift = Shift::create(
        ShiftId(1),
        TimeInterval::new(Timestamp::new(0), Timestamp::new(10)),
        ShiftStatus::Editing,
    )
    .unwrap();
    s.add_shift(shift).unwrap();
    let plan = schedule_save_plan(&mut s).unwrap();
    assert_eq!(plan.stream, "schedule-5");
    assert_eq!(plan.events.len(), 2);
    assert_eq!(plan.events[1].event_type, "ShiftAdded");
    assert_eq!(s.events.len(), 0);
}

#[test]
fn delete_plan_appends_tombstone_under_existing_stream() {
    let entity = sample();
    let plan = extra_service_delete_plan(&entity);
    assert_eq!(plan.stream, "extra_service-30");
    assert_eq!(plan.expected, ExpectedRevision::StreamExists);
    assert_eq!(plan.tombstone_type, "ExtraServiceDeleted");
}

#[test]
fn log_errors_map_to_data_access_errors() {
    let m = |k: LogErrorKind| map_log_error(k, "cause".to_owned());
    assert_eq!(
        m(LogErrorKind::ConnectionClosed),
        DataAccessError::ConnectionError("cause".to_owned())
    );
    assert_eq!(
        m(LogErrorKind::DeadlineExceeded),
        DataAccessError::ConnectionError("cause".to_owned())
    );
    assert_eq!(
        m(LogErrorKind::ServerError),
        DataAccessError::QueryError("cause".to_owned())
    );
    assert_eq!(
        m(LogErrorKind::AccessDenied),
        DataAccessError::QueryError("cause".to_owned())
    );
    assert_eq!(
        m(LogErrorKind::ResourceNotFound),
        DataAccessError::ReadError("cause".to_owned())
    );
    assert_eq!(
        m(LogErrorKind::WrongExpectedVersion),
        DataAccessError::WriteError("cause".to_owned())
    );
    assert_eq!(
        m(LogErrorKind::ResourceAlreadyExists),
        DataAccessError::WriteError("cause".to_owned())
    );
    assert_eq!(
        m(LogErrorKind::IllegalStateError),
        DataAccessError::ClientSideError("cause".to_owned())
    );
}

#[test]
fn missing_streams_mask_to_none() {
    assert!(masks_to_missing(LogErrorKind::ResourceNotFound));
    assert!(masks_to_missing(LogErrorKind::ResourceDeleted));
    assert!(!masks_to_missing(LogErrorKind::WrongExpectedVersion));
    assert!(!masks_to_missing(LogErrorKind::ConnectionClosed));
}
