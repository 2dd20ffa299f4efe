use dely::codec::{
    decode_extra_service, decode_media, decode_prostitute, decode_schedule, encode_extra_service,
    encode_media, encode_prostitute, encode_schedule, entity_name, parse_stream, parse_stream_id,
    stream_name, EntityKind, EventConvertError, ExtraServicePayload, MediaPayload,
    ProstitutePayload, SchedulePayload,
};
use dely::extra_service::{ExtraServiceEvent, ExtraServiceId};
use dely::media::{MediaEvent, MediaId, Mime};
use dely::money::{Currency, Money};
use dely::prostitute::{ProstituteEvent, ProstituteId};
use dely::schedule::{ScheduleEvent, ScheduleId, Shift, ShiftId, ShiftStatus};
use dely::time::{TimeInterval, Timestamp};

#[test]
fn stream_names() {
    assert_eq!(stream_name(EntityKind::ExtraService, 100), "extra_service-100");
    assert_eq!(stream_name(EntityKind::Media, 0), "media-0");
    assert_eq!(entity_name(EntityKind::Prostitute), "prostitute");
    assert_eq!(
        stream_name(EntityKind::Schedule, u64::MAX),
        "schedule-18446744073709551615"
    );
}

#[test]
fn stream_parsing() {
    assert_eq!(parse_stream_id(EntityKind::ExtraService, "extra_service-100"), Some(100));
    assert_eq!(parse_stream_id(EntityKind::ExtraService, "extra_service-"), None);
    assert_eq!(parse_stream_id(EntityKind::ExtraService, "extra_service100"), None);
    assert_eq!(parse_stream_id(EntityKind::ExtraService, "media-100"), None);
    assert_eq!(parse_stream_id(EntityKind::ExtraService, "extra_service-12x"), None);
    assert_eq!(
        parse_stream_id(EntityKind::Media, "media-18446744073709551616"),
        None
    );
    assert_eq!(parse_stream("prostitute-7"), Some((EntityKind::Prostitute, 7)));
    assert_eq!(parse_stream("service-3"), Some((EntityKind::Service, 3)));
    assert_eq!(parse_stream("$stats-0.0.0.0:2113"), None);
    assert_eq!(parse_stream("reservation-08"), Some((EntityKind::Reservation, 8)));
}

#[test]
fn extra_service_event_round_trip() {
    let event = ExtraServiceEvent::ExtraServiceCreated {
        id: ExtraServiceId(999),
        name: "サービス名".to_owned(),
        description: "説明".to_owned(),
        price: Money::new(1500, Currency::JPY),
    };
    let env = encode_extra_service(event);
    assert_eq!(env.stream, "extra_service-999");
    assert_eq!(env.event_type, "ExtraServiceCreated");
    let back = decode_extra_service(&env.stream, &env.event_type, env.payload).unwrap();
    assert_eq!(
        back,
        ExtraServiceEvent::ExtraServiceCreated {
            id: ExtraServiceId(999),
            name: "サービス名".to_owned(),
            description: "説明".to_owned(),
            price: Money::new(1500, Currency::JPY),
        }
    );
}

#[test]
fn decode_rejects_foreign_stream_and_tag() {
    let env = encode_extra_service(ExtraServiceEvent::ExtraServiceDeleted {
        id: ExtraServiceId(1),
    });
    assert_eq!(
        decode_extra_service("media-1", &env.event_type, ExtraServicePayload::Deleted),
        Err(EventConvertError)
    );
    assert_eq!(
        decode_extra_service(&env.stream, "SomethingElse", ExtraServicePayload::Deleted),
        Err(EventConvertError)
    );
}

#[test]
fn media_event_round_trip() {
    let event = MediaEvent::MediaCreated {
        id: MediaId(4),
        mime: Mime::ImageGif,
        data: vec![1, 2, 3],
    };
    let env = encode_media(event);
    assert_eq!(env.stream, "media-4");
    assert_eq!(env.event_type, "MediaCreated");
    assert_eq!(
        env.payload,
        MediaPayload::Created {
            mime: Mime::ImageGif,
            data: vec![1, 2, 3]
        }
    );
    let back = decode_media(&env.stream, &env.event_type, env.payload).unwrap();
    assert_eq!(
        back,
        MediaEvent::MediaCreated {
            id: MediaId(4),
            mime: Mime::ImageGif,
            data: vec![1, 2, 3],
        }
    );
}

#[test]
fn prostitute_event_round_trip() {
    let event = ProstituteEvent::ImageSwapped {
        id: ProstituteId(12),
        media_id_a: MediaId(1),
        media_id_b: MediaId(3),
    };
    let env = encode_prostitute(event);
    assert_eq!(env.stream, "prostitute-12");
    assert_eq!(env.event_type, "ImageSwapped");
    let back = decode_prostitute(&env.stream, &env.event_type, env.payload).unwrap();
    assert_eq!(
        back,
        ProstituteEvent::ImageSwapped {
            id: ProstituteId(12),
            media_id_a: MediaId(1),
            media_id_b: MediaId(3),
        }
    );
}

#[test]
fn schedule_event_round_trip_recovers_id_from_stream() {
    let shift = Shift::create(
        ShiftId(3),
        TimeInterval::new(Timestamp::new(0), Timestamp::new(3_600_000)),
        ShiftStatus::Editing,
    )
    .unwrap();
    let event = ScheduleEvent::ShiftAdded {
        id: ScheduleId(77),
        shift,
    };
    let env = encode_schedule(ScheduleId(77), event);
    assert_eq!(env.stream, "schedule-77");
    assert_eq!(env.event_type, "ShiftAdded");
    let back = decode_schedule(&env.stream, &env.event_type, env.payload).unwrap();
    assert_eq!(back, ScheduleEvent::ShiftAdded { id: ScheduleId(77), shift });

    // A shift event carries no schedule id of its own: the stream supplies it.
    let event = ScheduleEvent::ShiftStatusChanged {
        shift_id: ShiftId(3),
        status: ShiftStatus::Reviewing,
    };
    let env = encode_schedule(ScheduleId(77), event);
    assert_eq!(
        decode_schedule(&env.stream, &env.event_type, env.payload).unwrap(),
        ScheduleEvent::ShiftStatusChanged {
            shift_id: ShiftId(3),
            status: ShiftStatus::Reviewing,
        }
    );
    assert_eq!(
        decode_schedule(
            "schedule-77",
            "ShiftStatusChanged",
            SchedulePayload::ScheduleDeleted
        ),
        Err(EventConvertError)
    );
}
