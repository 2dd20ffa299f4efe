use dely::prostitute::ProstituteId;
use dely::schedule::{
    Schedule, ScheduleError, ScheduleId, Shift, ShiftError, ShiftId, ShiftStatus,
};
use dely::time::{TimeInterval, Timestamp};

fn hours(h: i64) -> Timestamp {
    Timestamp::new(h * 3_600_000)
}

fn interval(from_hour: i64, to_hour: i64) -> TimeInterval {
    TimeInterval::new(hours(from_hour), hours(to_hour))
}

#[test]
fn shift_overlap_is_rejected() {
    let mut schedule = Schedule::create(ScheduleId(1), ProstituteId(9));
    let first = Shift::create(ShiftId(1), interval(10, 12), ShiftStatus::Editing).unwrap();
    assert_eq!(schedule.add_shift(first), Ok(()));

    let clashing = Shift::create(ShiftId(2), interval(11, 13), ShiftStatus::Editing).unwrap();
    assert_eq!(schedule.add_shift(clashing), Err(ScheduleError::OverlappingShift));

    let adjacent = Shift::create(ShiftId(2), interval(12, 13), ShiftStatus::Editing).unwrap();
    assert_eq!(schedule.add_shift(adjacent), Ok(()));
}

#[test]
fn duplicate_shift_id_is_rejected() {
    let mut schedule = Schedule::create(ScheduleId(1), ProstituteId(9));
    let first = Shift::create(ShiftId(1), interval(10, 12), ShiftStatus::Editing).unwrap();
    schedule.add_shift(first).unwrap();
    let same_id = Shift::create(ShiftId(1), interval(14, 15), ShiftStatus::Editing).unwrap();
    assert_eq!(schedule.add_shift(same_id), Err(ScheduleError::DuplicateShift));
}

#[test]
fn shift_status_transitions() {
    let mut shift = Shift::create(ShiftId(1), interval(10, 12), ShiftStatus::Confirmed).unwrap();
    assert_eq!(
        shift.change_status(ShiftStatus::Reviewing),
        Err(ShiftError::InvalidStatusTransition)
    );
    assert_eq!(shift.change_status(ShiftStatus::Canceled), Ok(()));
    assert_eq!(shift.status(), ShiftStatus::Canceled);
    assert_eq!(shift.change_status(ShiftStatus::Editing), Ok(()));
    assert_eq!(shift.change_status(ShiftStatus::Reviewing), Ok(()));
    assert_eq!(shift.change_status(ShiftStatus::Confirmed), Ok(()));
    assert_eq!(
        shift.change_status(ShiftStatus::Confirmed),
        Err(ShiftError::InvalidStatusTransition)
    );
}

#[test]
fn schedule_status_change_follows_table() {
    let mut schedule = Schedule::create(ScheduleId(1), ProstituteId(9));
    let shift = Shift::create(ShiftId(1), interval(10, 12), ShiftStatus::Confirmed).unwrap();
    schedule.add_shift(shift).unwrap();
    assert_eq!(
        schedule.change_shift_status(ShiftId(1), ShiftStatus::Reviewing),
        Err(ScheduleError::ShiftError(ShiftError::InvalidStatusTransition))
    );
    assert_eq!(schedule.change_shift_status(ShiftId(1), ShiftStatus::Canceled), Ok(()));
    assert_eq!(schedule.shift(&ShiftId(1)).unwrap().status(), ShiftStatus::Canceled);
    assert_eq!(
        schedule.change_shift_status(ShiftId(2), ShiftStatus::Editing),
        Err(ScheduleError::ShiftNotFound)
    );
}

#[test]
fn change_time_excludes_the_shift_itself() {
    let mut schedule = Schedule::create(ScheduleId(1), ProstituteId(9));
    let a = Shift::create(ShiftId(1), interval(10, 12), ShiftStatus::Editing).unwrap();
    let b = Shift::create(ShiftId(2), interval(13, 14), ShiftStatus::Editing).unwrap();
    schedule.add_shift(a).unwrap();
    schedule.add_shift(b).unwrap();

    // Shrinking within its own old window must not count as an overlap.
    assert_eq!(schedule.change_shift_time(ShiftId(1), interval(11, 12)), Ok(()));
    assert_eq!(schedule.shift(&ShiftId(1)).unwrap().time(), interval(11, 12));

    // Moving onto the other shift is rejected.
    assert_eq!(
        schedule.change_shift_time(ShiftId(1), interval(13, 15)),
        Err(ScheduleError::OverlappingShift)
    );
    // An inverted interval is rejected.
    assert_eq!(
        schedule.change_shift_time(ShiftId(1), interval(12, 11)),
        Err(ScheduleError::ShiftError(ShiftError::InvalidDuration))
    );
}

#[test]
fn delete_shifts_removes_listed_ids() {
    let mut schedule = Schedule::create(ScheduleId(1), ProstituteId(9));
    let a = Shift::create(ShiftId(1), interval(10, 12), ShiftStatus::Editing).unwrap();
    let b = Shift::create(ShiftId(2), interval(13, 14), ShiftStatus::Editing).unwrap();
    schedule.add_shift(a).unwrap();
    schedule.add_shift(b).unwrap();

    assert_eq!(
        schedule.delete_shifts(vec![ShiftId(7)]),
        Err(ScheduleError::ShiftNotFound)
    );
    assert_eq!(schedule.delete_shifts(vec![ShiftId(1)]), Ok(()));
    assert!(schedule.shift(&ShiftId(1)).is_none());
    assert!(schedule.shift(&ShiftId(2)).is_some());
}

#[test]
fn schedule_replay_reproduces_state() {
    let mut live = Schedule::create(ScheduleId(5), ProstituteId(9));
    let a = Shift::create(ShiftId(1), interval(10, 12), ShiftStatus::Editing).unwrap();
    live.add_shift(a).unwrap();
    live.change_shift_status(ShiftId(1), ShiftStatus::Reviewing).unwrap();

    let history = live.events.pop_all();
    let replayed = Schedule::replay(history).unwrap();
    assert_eq!(replayed.id(), ScheduleId(5));
    assert_eq!(replayed.prostitute_id(), ProstituteId(9));
    assert_eq!(replayed.shift(&ShiftId(1)).unwrap().status(), ShiftStatus::Reviewing);
    assert_eq!(replayed.events.len(), 0);
}

#[test]
fn shift_duration_and_invalid_interval() {
    assert_eq!(
        Shift::create(ShiftId(1), interval(12, 11), ShiftStatus::Editing),
        Err(ShiftError::InvalidDuration)
    );
    let s = Shift::create(ShiftId(1), interval(10, 12), ShiftStatus::Editing).unwrap();
    assert_eq!(s.duration_millis(), 2 * 3_600_000);
}
