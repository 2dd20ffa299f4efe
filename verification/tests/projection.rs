use dely::codec::{CoreEvent, ProstitutePayload};
use dely::extra_service::{ExtraServiceEvent, ExtraServiceId};
use dely::media::MediaId;
use dely::money::{Currency, Money};
use dely::projection::{
    apply_to_document, next_checkpoint, route_core, route_extra_service, route_prostitute,
    route_schedule, Checkpoint, IndexOp, MeiliSchedule, MeiliShift, Position, ProstituteDoc,
    StepOutcome,
};
use dely::prostitute::{Figure, ProstituteEvent, ProstituteId};
use dely::schedule::{ScheduleEvent, ScheduleId, Shift, ShiftId, ShiftStatus};
use dely::time::{TimeInterval, Timestamp};

fn doc(images: Vec<MediaId>) -> ProstituteDoc {
    ProstituteDoc {
        id: ProstituteId(12),
        name: "さくら".to_owned(),
        catchphrase: "よろしく".to_owned(),
        profile: String::new(),
        message: String::new(),
        figure: Figure::default(),
        blood: None,
        birthday: None,
        questions: Vec::new(),
        images,
        video: None,
        leaved: false,
    }
}

#[test]
fn read_modify_write_image_swap() {
    let stored = doc(vec![MediaId(1), MediaId(2), MediaId(3)]);
    let event = ProstituteEvent::ImageSwapped {
        id: ProstituteId(12),
        media_id_a: MediaId(1),
        media_id_b: MediaId(3),
    };
    match route_prostitute(event) {
        IndexOp::ReadModifyWriteProstitute { id, event } => {
            assert_eq!(id, ProstituteId(12));
            let written = apply_to_document(stored, event);
            assert_eq!(written.images, vec![MediaId(3), MediaId(2), MediaId(1)]);
        }
        other => panic!("expected a read-modify-write, got {:?}", other),
    }
}

#[test]
fn checkpoint_advances_only_on_success() {
    let old = Checkpoint {
        event_id: 1,
        position: Position { commit: 10, prepare: 10 },
    };
    let p = Position { commit: 20, prepare: 19 };

    let advanced = next_checkpoint(Some(old), StepOutcome::IndexOpDone, 2, p);
    assert_eq!(advanced, Some(Checkpoint { event_id: 2, position: p }));

    let skipped = next_checkpoint(Some(old), StepOutcome::SystemRecord, 3, p);
    assert_eq!(skipped, Some(Checkpoint { event_id: 3, position: p }));

    let stalled = next_checkpoint(Some(old), StepOutcome::IndexOpFailed, 4, p);
    assert_eq!(stalled, Some(old));

    let from_start = next_checkpoint(None, StepOutcome::IndexOpFailed, 4, p);
    assert_eq!(from_start, None);
}

#[test]
fn extra_service_routes() {
    let add = route_extra_service(ExtraServiceEvent::ExtraServiceCreated {
        id: ExtraServiceId(30),
        name: "AF".to_owned(),
        description: "d".to_owned(),
        price: Money::new(10000, Currency::JPY),
    });
    match add {
        IndexOp::AddExtraService { doc } => {
            assert_eq!(doc.id, ExtraServiceId(30));
            assert_eq!(doc.name, "AF");
        }
        other => panic!("expected an add, got {:?}", other),
    }

    let invalid = route_extra_service(ExtraServiceEvent::ExtraServiceCreated {
        id: ExtraServiceId(30),
        name: "  ".to_owned(),
        description: "d".to_owned(),
        price: Money::new(10000, Currency::JPY),
    });
    assert_eq!(invalid, IndexOp::Skip);

    let delete = route_extra_service(ExtraServiceEvent::ExtraServiceDeleted {
        id: ExtraServiceId(30),
    });
    assert_eq!(delete, IndexOp::DeleteExtraService { id: ExtraServiceId(30) });
}

#[test]
fn prostitute_membership_routes_as_partial_updates() {
    assert_eq!(
        route_prostitute(ProstituteEvent::Leaved { id: ProstituteId(1) }),
        IndexOp::UpdateProstituteLeaved { id: ProstituteId(1), leaved: true }
    );
    assert_eq!(
        route_prostitute(ProstituteEvent::Rejoined { id: ProstituteId(1) }),
        IndexOp::UpdateProstituteLeaved { id: ProstituteId(1), leaved: false }
    );
    assert_eq!(
        route_prostitute(ProstituteEvent::NameChanged {
            id: ProstituteId(1),
            name: "n".to_owned()
        }),
        IndexOp::UpdateProstitute {
            id: ProstituteId(1),
            payload: ProstitutePayload::NameChanged { name: "n".to_owned() }
        }
    );
}

#[test]
fn schedule_routes_split_into_two_indexes() {
    let created = route_schedule(ScheduleEvent::ScheduleCreated {
        id: ScheduleId(5),
        prostitute_id: ProstituteId(9),
    });
    assert_eq!(
        created,
        IndexOp::AddSchedule {
            doc: MeiliSchedule {
                id: ScheduleId(5),
                prostitute_id: ProstituteId(9)
            }
        }
    );

    let time = TimeInterval::new(Timestamp::new(0), Timestamp::new(3_600_000));
    let shift = Shift::create(ShiftId(3), time, ShiftStatus::Editing).unwrap();
    let added = route_schedule(ScheduleEvent::ShiftAdded { id: ScheduleId(5), shift });
    assert_eq!(
        added,
        IndexOp::AddShift {
            doc: MeiliShift {
                id: ShiftId(3),
                schedule_id: Some(ScheduleId(5)),
                time: Some(time),
                status: Some(ShiftStatus::Editing),
            }
        }
    );

    let deleted = route_schedule(ScheduleEvent::ShiftsDeleted {
        shift_ids: vec![ShiftId(3), ShiftId(4)],
    });
    assert_eq!(
        deleted,
        IndexOp::DeleteShifts { ids: vec![ShiftId(3), ShiftId(4)] }
    );
}

#[test]
fn core_events_route_by_kind() {
    let op = route_core(CoreEvent::ScheduleEvent(ScheduleEvent::ScheduleDeleted {
        id: ScheduleId(2),
    }));
    assert_eq!(op, IndexOp::DeleteSchedule { id: ScheduleId(2) });
    let op = route_core(CoreEvent::ProstituteEvent(ProstituteEvent::Deleted {
        id: ProstituteId(2),
    }));
    assert_eq!(op, IndexOp::DeleteProstitute { id: ProstituteId(2) });
}

#[test]
fn read_modify_write_question_delete() {
    let mut stored = doc(Vec::new());
    stored.questions = vec![
        dely::prostitute::Question {
            question: "q1".to_owned(),
            answer: "a1".to_owned(),
        },
        dely::prostitute::Question {
            question: "q2".to_owned(),
            answer: "a2".to_owned(),
        },
    ];
    let written = apply_to_document(
        stored,
        ProstituteEvent::QuestionDeleted { id: ProstituteId(12), index: 0 },
    );
    assert_eq!(written.questions.len(), 1);
    assert_eq!(written.questions[0].question, "q2");
}
