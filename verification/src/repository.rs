//! The pure half of the event-log repositories.
//!
//! Loading folds a stream's decoded events over a default aggregate (each
//! aggregate's `replay`); saving drains the event queue into an append
//! plan under an expected-revision guard; deleting plans a tombstone
//! followed by a stream deletion. The I/O that carries a plan to the log
//! database stays outside; it hands back an error kind that maps to the
//! library's data-access errors here.

use vstd::prelude::*;
use crate::codec::{
    EntityKind, EventEnvelope, ExtraServicePayload, MediaPayload, ProstitutePayload,
    SchedulePayload, encode_extra_service, encode_media, encode_prostitute, encode_schedule,
    extra_service_payload_of, extra_service_tag_text, media_payload_of, media_tag_text,
    prostitute_payload_of, prostitute_tag_text, schedule_payload_of, schedule_tag_text,
    stream_name, stream_text,
};
use crate::extra_service::{ExtraService, ExtraServiceEvent};
use crate::media::{Media, MediaEvent};
use crate::prostitute::{Prostitute, ProstituteEvent};
use crate::schedule::{Schedule, ScheduleEvent};

verus! {

/// The failures of the data-access layer, with the cause's description.
#[derive(Debug, PartialEq, Eq)]
pub enum DataAccessError {
    /// The log database could not be reached.
    ConnectionError(String),
    /// The log database refused or mishandled the request.
    QueryError(String),
    /// The stream could not be read.
    ReadError(String),
    /// The append was rejected, e.g. by the expected-revision guard.
    WriteError(String),
    /// The client itself was misused.
    ClientSideError(String),
}

/// The error kinds the log database client reports, as plain values.
#[derive(Clone, Copy, Debug, PartialEq, Eq, Structural)]
pub enum LogErrorKind {
    ConnectionClosed,
    Grpc,
    GrpcConnectionError,
    DeadlineExceeded,
    InitializationError,
    ServerError,
    NotLeaderException,
    AccessDenied,
    UnsupportedFeature,
    InternalParsingError,
    InternalClientError,
    ResourceNotFound,
    ResourceDeleted,
    ResourceAlreadyExists,
    WrongExpectedVersion,
    IllegalStateError,
}

/// The five classes of data-access failure.
#[derive(Clone, Copy, Debug, PartialEq, Eq, Structural)]
pub enum DataAccessClass {
    Connection,
    Query,
    Read,
    Write,
    ClientSide,
}

/// The class of a data-access error.
pub open spec fn error_class_of(e: DataAccessError) -> DataAccessClass {
    match e {
        DataAccessError::ConnectionError(_) => DataAccessClass::Connection,
        DataAccessError::QueryError(_) => DataAccessClass::Query,
        DataAccessError::ReadError(_) => DataAccessClass::Read,
        DataAccessError::WriteError(_) => DataAccessClass::Write,
        DataAccessError::ClientSideError(_) => DataAccessClass::ClientSide,
    }
}

/// The wrapped cause's description.
pub open spec fn error_message_of(e: DataAccessError) -> Seq<char> {
    match e {
        DataAccessError::ConnectionError(m) => m@,
        DataAccessError::QueryError(m) => m@,
        DataAccessError::ReadError(m) => m@,
        DataAccessError::WriteError(m) => m@,
        DataAccessError::ClientSideError(m) => m@,
    }
}

/// How each log error kind maps: connection troubles to `ConnectionError`,
/// server-side refusals to `QueryError`, missing or deleted streams to
/// `ReadError`, revision conflicts to `WriteError`, client misuse to
/// `ClientSideError`.
pub open spec fn log_error_class(kind: LogErrorKind) -> DataAccessClass {
    match kind {
        LogErrorKind::ConnectionClosed | LogErrorKind::Grpc | LogErrorKind::GrpcConnectionError
            | LogErrorKind::DeadlineExceeded | LogErrorKind::InitializationError => {
            DataAccessClass::Connection
        },
        LogErrorKind::ServerError | LogErrorKind::NotLeaderException | LogErrorKind::AccessDenied
            | LogErrorKind::UnsupportedFeature | LogErrorKind::InternalParsingError
            | LogErrorKind::InternalClientError => DataAccessClass::Query,
        LogErrorKind::ResourceNotFound | LogErrorKind::ResourceDeleted => DataAccessClass::Read,
        LogErrorKind::ResourceAlreadyExists | LogErrorKind::WrongExpectedVersion => {
            DataAccessClass::Write
        },
        LogErrorKind::IllegalStateError => DataAccessClass::ClientSide,
    }
}

/// Maps a log error kind and its description to the library's error.
pub fn map_log_error(kind: LogErrorKind, message: String) -> (r: DataAccessError)
    ensures
        error_class_of(r) == log_error_class(kind),
        error_message_of(r) == message@,
{
    match kind {
        LogErrorKind::ConnectionClosed | LogErrorKind::Grpc | LogErrorKind::GrpcConnectionError
            | LogErrorKind::DeadlineExceeded | LogErrorKind::InitializationError => {
            DataAccessError::ConnectionError(message)
        },
        LogErrorKind::ServerError | LogErrorKind::NotLeaderException | LogErrorKind::AccessDenied
            | LogErrorKind::UnsupportedFeature | LogErrorKind::InternalParsingError
            | LogErrorKind::InternalClientError => DataAccessError::QueryError(message),
        LogErrorKind::ResourceNotFound | LogErrorKind::ResourceDeleted => {
            DataAccessError::ReadError(message)
        },
        LogErrorKind::ResourceAlreadyExists | LogErrorKind::WrongExpectedVersion => {
            DataAccessError::WriteError(message)
        },
        LogErrorKind::IllegalStateError => DataAccessError::ClientSideError(message),
    }
}

/// Whether a read failure means the aggregate is simply absent: a missing
/// or deleted stream reads as no aggregate, every other failure surfaces.
pub fn masks_to_missing(kind: LogErrorKind) -> (r: bool)
    ensures
        r == (kind == LogErrorKind::ResourceNotFound || kind == LogErrorKind::ResourceDeleted),
{
    match kind {
        LogErrorKind::ResourceNotFound | LogErrorKind::ResourceDeleted => true,
        _ => false,
    }
}

/// The expected-revision guard of an append: the stream must not exist
/// yet, or must already exist.
#[derive(Clone, Copy, Debug, PartialEq, Eq, Structural)]
pub enum ExpectedRevision {
    NoStream,
    StreamExists,
}

/// Whether the log accepts an append under the guard, given whether the
/// stream exists.
pub open spec fn append_accepted(stream_exists: bool, expected: ExpectedRevision) -> bool {
    match expected {
        ExpectedRevision::NoStream => !stream_exists,
        ExpectedRevision::StreamExists => stream_exists,
    }
}

/// Whether the stream exists after an append attempt.
pub open spec fn stream_after_append(stream_exists: bool, accepted: bool) -> bool {
    stream_exists || accepted
}

/// Concurrency guard: two writers that both loaded the aggregate as absent
/// both plan a creation append under `NoStream`. Whichever the log serializes
/// first is accepted; the other is rejected, and the rejection
/// (`WrongExpectedVersion`) surfaces as a `WriteError`.
pub proof fn lemma_concurrency_guard(e1: ExpectedRevision, e2: ExpectedRevision)
    requires
        e1 == ExpectedRevision::NoStream,
        e2 == ExpectedRevision::NoStream,
    ensures
        append_accepted(false, e1),
        !append_accepted(stream_after_append(false, append_accepted(false, e1)), e2),
        log_error_class(LogErrorKind::WrongExpectedVersion) == DataAccessClass::Write,
{
}

/// One planned append: the events to write to a stream, under an
/// expected-revision guard.
pub struct SavePlan<P> {
    pub stream: String,
    pub expected: ExpectedRevision,
    pub events: Vec<EventEnvelope<P>>,
}

/// A planned removal: a tombstone event appended to the existing stream,
/// then a deletion of the stream itself.
pub struct DeletePlan<P> {
    pub stream: String,
    pub expected: ExpectedRevision,
    pub tombstone_type: String,
    pub tombstone: P,
}

/// Drains the extra-service aggregate's queue into an append plan. `None`
/// when nothing is queued; otherwise the plan writes every queued event,
/// oldest first, to the aggregate's stream, demanding a fresh stream
/// exactly when the first queued event is the creation event, and the
/// queue is left empty.
pub fn extra_service_save_plan(entity: &mut ExtraService) -> (r: Option<SavePlan<
    ExtraServicePayload,
>>)
    ensures
        final(entity).state() == old(entity).state(),
        match r {
            None => old(entity).events@.len() == 0 && final(entity).events@ == old(entity).events@,
            Some(plan) => {
                &&& old(entity).events@.len() > 0
                &&& final(entity).events@.len() == 0
                &&& plan.stream@ == stream_text(EntityKind::ExtraService, old(entity).id.0)
                &&& plan.expected == (if old(
                    entity,
                ).events@[0] is ExtraServiceCreated {
                    ExpectedRevision::NoStream
                } else {
                    ExpectedRevision::StreamExists
                })
                &&& plan.events@.len() == old(entity).events@.len()
                &&& forall|i: int|
                    0 <= i < plan.events@.len() ==> (#[trigger] plan.events@[i]).payload
                        == extra_service_payload_of(old(entity).events@[i])
                        && plan.events@[i].event_type@ == extra_service_tag_text(
                        extra_service_payload_of(old(entity).events@[i]),
                    )
            },
        },
{
    let first_is_creation = match entity.events.peek() {
        None => {
            return None;
        },
        Some(e) => matches!(e, ExtraServiceEvent::ExtraServiceCreated { .. }),
    };
    let expected = if first_is_creation {
        ExpectedRevision::NoStream
    } else {
        ExpectedRevision::StreamExists
    };
    let stream = stream_name(EntityKind::ExtraService, entity.id.0);
    let drained = entity.events.pop_all();
    let ghost all = drained@;
    let mut drained = drained;
    let mut encoded: Vec<EventEnvelope<ExtraServicePayload>> = Vec::new();
    while drained.len() > 0
        invariant
            all.len() == encoded@.len() + drained@.len(),
            drained@ =~= all.subrange(encoded@.len() as int, all.len() as int),
            forall|i: int|
                0 <= i < encoded@.len() ==> (#[trigger] encoded@[i]).payload
                    == extra_service_payload_of(all[i]) && encoded@[i].event_type@
                    == extra_service_tag_text(extra_service_payload_of(all[i])),
        decreases drained@.len(),
    {
        let ghost before = drained@;
        let e = drained.remove(0);
        proof {
            assert(drained@ =~= before.drop_first());
            assert(e == all[encoded@.len() as int]);
        }
        let env = encode_extra_service(e);
        encoded.push(env);
    }
    Some(SavePlan { stream, expected, events: encoded })
}

/// Drains the media aggregate's queue into an append plan; see
/// `extra_service_save_plan`.
pub fn media_save_plan(entity: &mut Media) -> (r: Option<SavePlan<MediaPayload>>)
    ensures
        final(entity).state() == old(entity).state(),
        match r {
            None => old(entity).events@.len() == 0 && final(entity).events@ == old(entity).events@,
            Some(plan) => {
                &&& old(entity).events@.len() > 0
                &&& final(entity).events@.len() == 0
                &&& plan.stream@ == stream_text(EntityKind::Media, old(entity).id.0)
                &&& plan.expected == (if old(entity).events@[0] is MediaCreated {
                    ExpectedRevision::NoStream
                } else {
                    ExpectedRevision::StreamExists
                })
                &&& plan.events@.len() == old(entity).events@.len()
                &&& forall|i: int|
                    0 <= i < plan.events@.len() ==> (#[trigger] plan.events@[i]).payload
                        == media_payload_of(old(entity).events@[i]) && plan.events@[i].event_type@
                        == media_tag_text(media_payload_of(old(entity).events@[i]))
            },
        },
{
    let first_is_creation = match entity.events.peek() {
        None => {
            return None;
        },
        Some(e) => matches!(e, MediaEvent::MediaCreated { .. }),
    };
    let expected = if first_is_creation {
        ExpectedRevision::NoStream
    } else {
        ExpectedRevision::StreamExists
    };
    let stream = stream_name(EntityKind::Media, entity.id.0);
    let drained = entity.events.pop_all();
    let ghost all = drained@;
    let mut drained = drained;
    let mut encoded: Vec<EventEnvelope<MediaPayload>> = Vec::new();
    while drained.len() > 0
        invariant
            all.len() == encoded@.len() + drained@.len(),
            drained@ =~= all.subrange(encoded@.len() as int, all.len() as int),
            forall|i: int|
                0 <= i < encoded@.len() ==> (#[trigger] encoded@[i]).payload == media_payload_of(
                    all[i],
                ) && encoded@[i].event_type@ == media_tag_text(media_payload_of(all[i])),
        decreases drained@.len(),
    {
        let ghost before = drained@;
        let e = drained.remove(0);
        proof {
            assert(drained@ =~= before.drop_first());
            assert(e == all[encoded@.len() as int]);
        }
        let env = encode_media(e);
        encoded.push(env);
    }
    Some(SavePlan { stream, expected, events: encoded })
}

/// Drains the prostitute aggregate's queue into an append plan; see
/// `extra_service_save_plan`.
pub fn prostitute_save_plan(entity: &mut Prostitute) -> (r: Option<SavePlan<ProstitutePayload>>)
    ensures
        final(entity).state() == old(entity).state(),
        match r {
            None => old(entity).events@.len() == 0 && final(entity).events@ == old(entity).events@,
            Some(plan) => {
                &&& old(entity).events@.len() > 0
                &&& final(entity).events@.len() == 0
                &&& plan.stream@ == stream_text(EntityKind::Prostitute, old(entity).id.0)
                &&& plan.expected == (if old(entity).events@[0] is Joined {
                    ExpectedRevision::NoStream
                } else {
                    ExpectedRevision::StreamExists
                })
                &&& plan.events@.len() == old(entity).events@.len()
                &&& forall|i: int|
                    0 <= i < plan.events@.len() ==> (#[trigger] plan.events@[i]).payload
                        == prostitute_payload_of(old(entity).events@[i])
                        && plan.events@[i].event_type@ == prostitute_tag_text(
                        prostitute_payload_of(old(entity).events@[i]),
                    )
            },
        },
{
    let first_is_creation = match entity.events.peek() {
        None => {
            return None;
        },
        Some(e) => matches!(e, ProstituteEvent::Joined { .. }),
    };
    let expected = if first_is_creation {
        ExpectedRevision::NoStream
    } else {
        ExpectedRevision::StreamExists
    };
    let stream = stream_name(EntityKind::Prostitute, entity.id.0);
    let drained = entity.events.pop_all();
    let ghost all = drained@;
    let mut drained = drained;
    let mut encoded: Vec<EventEnvelope<ProstitutePayload>> = Vec::new();
    while drained.len() > 0
        invariant
            all.len() == encoded@.len() + drained@.len(),
            drained@ =~= all.subrange(encoded@.len() as int, all.len() as int),
            forall|i: int|
                0 <= i < encoded@.len() ==> (#[trigger] encoded@[i]).payload
                    == prostitute_payload_of(all[i]) && encoded@[i].event_type@
                    == prostitute_tag_text(prostitute_payload_of(all[i])),
        decreases drained@.len(),
    {
        let ghost before = drained@;
        let e = drained.remove(0);
        proof {
            assert(drained@ =~= before.drop_first());
            assert(e == all[encoded@.len() as int]);
        }
        let env = encode_prostitute(e);
        encoded.push(env);
    }
    Some(SavePlan { stream, expected, events: encoded })
}

/// Drains the schedule aggregate's queue into an append plan; see
/// `extra_service_save_plan`.
pub fn schedule_save_plan(entity: &mut Schedule) -> (r: Option<SavePlan<SchedulePayload>>)
    ensures
        final(entity).state() == old(entity).state(),
        match r {
            None => old(entity).events@.len() == 0 && final(entity).events@ == old(entity).events@,
            Some(plan) => {
                &&& old(entity).events@.len() > 0
                &&& final(entity).events@.len() == 0
                &&& plan.stream@ == stream_text(EntityKind::Schedule, old(entity).id.0)
                &&& plan.expected == (if old(entity).events@[0] is ScheduleCreated {
                    ExpectedRevision::NoStream
                } else {
                    ExpectedRevision::StreamExists
                })
                &&& plan.events@.len() == old(entity).events@.len()
                &&& forall|i: int|
                    0 <= i < plan.events@.len() ==> (#[trigger] plan.events@[i]).payload
                        == schedule_payload_of(old(entity).events@[i])
                        && plan.events@[i].event_type@ == schedule_tag_text(
                        schedule_payload_of(old(entity).events@[i]),
                    )
            },
        },
{
    let first_is_creation = match entity.events.peek() {
        None => {
            return None;
        },
        Some(e) => matches!(e, ScheduleEvent::ScheduleCreated { .. }),
    };
    let expected = if first_is_creation {
        ExpectedRevision::NoStream
    } else {
        ExpectedRevision::StreamExists
    };
    let id = entity.id;
    let stream = stream_name(EntityKind::Schedule, id.0);
    let drained = entity.events.pop_all();
    let ghost all = drained@;
    let mut drained = drained;
    let mut encoded: Vec<EventEnvelope<SchedulePayload>> = Vec::new();
    while drained.len() > 0
        invariant
            all.len() == encoded@.len() + drained@.len(),
            drained@ =~= all.subrange(encoded@.len() as int, all.len() as int),
            forall|i: int|
                0 <= i < encoded@.len() ==> (#[trigger] encoded@[i]).payload == schedule_payload_of(
                    all[i],
                ) && encoded@[i].event_type@ == schedule_tag_text(schedule_payload_of(all[i])),
        decreases drained@.len(),
    {
        let ghost before = drained@;
        let e = drained.remove(0);
        proof {
            assert(drained@ =~= before.drop_first());
            assert(e == all[encoded@.len() as int]);
        }
        let env = encode_schedule(id, e);
        encoded.push(env);
    }
    Some(SavePlan { stream, expected, events: encoded })
}

/// Plans the removal of an extra service: its tombstone event appended to
/// the existing stream, then the stream's deletion.
pub fn extra_service_delete_plan(entity: &ExtraService) -> (r: DeletePlan<ExtraServicePayload>)
    ensures
        r.stream@ == stream_text(EntityKind::ExtraService, entity.id.0),
        r.expected == ExpectedRevision::StreamExists,
        r.tombstone == ExtraServicePayload::Deleted,
        r.tombstone_type@ == extra_service_tag_text(ExtraServicePayload::Deleted),
{
    let id = entity.id;
    let env = encode_extra_service(ExtraServiceEvent::ExtraServiceDeleted { id });
    DeletePlan {
        stream: env.stream,
        expected: ExpectedRevision::StreamExists,
        tombstone_type: env.event_type,
        tombstone: env.payload,
    }
}

/// Plans the removal of a media blob; see `extra_service_delete_plan`.
pub fn media_delete_plan(entity: &Media) -> (r: DeletePlan<MediaPayload>)
    ensures
        r.stream@ == stream_text(EntityKind::Media, entity.id.0),
        r.expected == ExpectedRevision::StreamExists,
        r.tombstone == MediaPayload::Deleted,
        r.tombstone_type@ == media_tag_text(MediaPayload::Deleted),
{
    let id = entity.id;
    let env = encode_media(MediaEvent::MediaDeleted { id });
    DeletePlan {
        stream: env.stream,
        expected: ExpectedRevision::StreamExists,
        tombstone_type: env.event_type,
        tombstone: env.payload,
    }
}

/// Plans the removal of a prostitute; see `extra_service_delete_plan`.
pub fn prostitute_delete_plan(entity: &Prostitute) -> (r: DeletePlan<ProstitutePayload>)
    ensures
        r.stream@ == stream_text(EntityKind::Prostitute, entity.id.0),
        r.expected == ExpectedRevision::StreamExists,
        r.tombstone == ProstitutePayload::Deleted,
        r.tombstone_type@ == prostitute_tag_text(ProstitutePayload::Deleted),
{
    let id = entity.id;
    let env = encode_prostitute(ProstituteEvent::Deleted { id });
    DeletePlan {
        stream: env.stream,
        expected: ExpectedRevision::StreamExists,
        tombstone_type: env.event_type,
        tombstone: env.payload,
    }
}

/// Plans the removal of a schedule; see `extra_service_delete_plan`.
pub fn schedule_delete_plan(entity: &Schedule) -> (r: DeletePlan<SchedulePayload>)
    ensures
        r.stream@ == stream_text(EntityKind::Schedule, entity.id.0),
        r.expected == ExpectedRevision::StreamExists,
        r.tombstone == SchedulePayload::ScheduleDeleted,
        r.tombstone_type@ == schedule_tag_text(SchedulePayload::ScheduleDeleted),
{
    let id = entity.id;
    let env = encode_schedule(id, ScheduleEvent::ScheduleDeleted { id });
    DeletePlan {
        stream: env.stream,
        expected: ExpectedRevision::StreamExists,
        tombstone_type: env.event_type,
        tombstone: env.payload,
    }
}

} // verus!
