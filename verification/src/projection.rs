//! The projection worker's pure half: routing domain events to search
//! index operations, and the checkpoint rule.
//!
//! The worker consumes the all-streams log in global position order, one
//! record at a time. Each decoded event routes to one index operation;
//! records that decode to no domain event only advance the checkpoint. The
//! checkpoint advances after a system record or a completed index
//! operation, and stays put when the operation failed, so a restart
//! resumes at the failed record. Collection-valued mutations of a
//! prostitute document are read-modify-write: the caller must drain any
//! pending index task, fetch the current document, fold the event into it
//! with `apply_to_document`, and write it back.

use vstd::prelude::*;
use crate::codec::{CoreEvent, ExtraServicePayload, ProstitutePayload, SchedulePayload};
use crate::extra_service::{ExtraServiceEvent, ExtraServiceId};
use crate::media::{MediaEvent, MediaId, Mime, sniff_spec};
use crate::money::Money;
use crate::prostitute::{
    BloodType, Figure, Prostitute, ProstituteEvent, ProstituteId, ProstituteState, Question,
    prostitute_step,
};
use crate::queue::EventQueue;
use crate::schedule::{ScheduleEvent, ScheduleId, Shift, ShiftId, ShiftStatus};
use crate::text;
use crate::time::{Birthday, TimeInterval};

verus! {

/// A global position in the all-streams log.
#[derive(Clone, Copy, Debug, PartialEq, Eq, Hash, Structural)]
pub struct Position {
    pub commit: u64,
    pub prepare: u64,
}

/// Log order of positions: by commit offset, then prepare offset.
pub open spec fn position_le(a: Position, b: Position) -> bool {
    a.commit < b.commit || (a.commit == b.commit && a.prepare <= b.prepare)
}

/// The worker's durable progress: the last handled record and its
/// position, stored as the single checkpoint document.
#[derive(Clone, Copy, Debug, PartialEq, Eq, Structural)]
pub struct Checkpoint {
    pub event_id: u128,
    pub position: Position,
}

/// What happened to the record the worker just took from the log.
#[derive(Clone, Copy, Debug, PartialEq, Eq, Structural)]
pub enum StepOutcome {
    /// The record decoded to no domain event; it is passed over.
    SystemRecord,
    /// The record's index operation was accepted.
    IndexOpDone,
    /// The record's index operation failed; it will be retried after a
    /// restart.
    IndexOpFailed,
}

/// The checkpoint after handling one record: it moves to the record after
/// a system record or a completed index operation, and stays put after a
/// failed one.
pub open spec fn next_checkpoint_spec(
    current: Option<Checkpoint>,
    outcome: StepOutcome,
    event_id: u128,
    position: Position,
) -> Option<Checkpoint> {
    match outcome {
        StepOutcome::SystemRecord | StepOutcome::IndexOpDone => Some(
            Checkpoint { event_id, position },
        ),
        StepOutcome::IndexOpFailed => current,
    }
}

/// The checkpoint after handling one record.
pub fn next_checkpoint(
    current: Option<Checkpoint>,
    outcome: StepOutcome,
    event_id: u128,
    position: Position,
) -> (r: Option<Checkpoint>)
    ensures
        r == next_checkpoint_spec(current, outcome, event_id, position),
{
    match outcome {
        StepOutcome::SystemRecord | StepOutcome::IndexOpDone => Some(
            Checkpoint { event_id, position },
        ),
        StepOutcome::IndexOpFailed => current,
    }
}

/// Projection monotonicity: handling the record at position `p` moves the
/// checkpoint to `p` after a system record or a completed index operation,
/// and leaves it unchanged after a failed one; when records arrive in log
/// order the checkpoint never moves backwards.
pub proof fn lemma_checkpoint_monotonic(
    current: Checkpoint,
    outcome: StepOutcome,
    event_id: u128,
    position: Position,
)
    requires
        position_le(current.position, position),
    ensures
        match next_checkpoint_spec(Some(current), outcome, event_id, position) {
            Some(c2) => position_le(current.position, c2.position) && (outcome
                == StepOutcome::IndexOpFailed ==> c2 == current) && (outcome
                != StepOutcome::IndexOpFailed ==> c2.position == position),
            None => false,
        },
{
}

/// The searchable view of an extra service.
#[derive(Debug, PartialEq, Eq)]
pub struct ExtraServiceDoc {
    pub id: ExtraServiceId,
    pub name: String,
    pub description: String,
    pub price: Money,
}

/// The searchable view of a media blob.
#[derive(Debug, PartialEq, Eq)]
pub struct MediaDoc {
    pub id: MediaId,
    pub mime: Mime,
    pub data: Vec<u8>,
}

/// The searchable view of a prostitute: the aggregate's fields with the
/// membership flag, without the event queue.
#[derive(Debug, PartialEq, Eq)]
pub struct ProstituteDoc {
    pub id: ProstituteId,
    pub name: String,
    pub catchphrase: String,
    pub profile: String,
    pub message: String,
    pub figure: Figure,
    pub blood: Option<BloodType>,
    pub birthday: Option<Birthday>,
    pub questions: Vec<Question>,
    pub images: Vec<MediaId>,
    pub video: Option<MediaId>,
    pub leaved: bool,
}

/// The searchable view of a schedule.
#[derive(Clone, Copy, Debug, PartialEq, Eq, Structural)]
pub struct MeiliSchedule {
    pub id: ScheduleId,
    pub prostitute_id: ProstituteId,
}

/// The searchable view of a shift; absent fields stay untouched on a
/// partial update.
#[derive(Clone, Copy, Debug, PartialEq, Eq, Structural)]
pub struct MeiliShift {
    pub id: ShiftId,
    pub schedule_id: Option<ScheduleId>,
    pub time: Option<TimeInterval>,
    pub status: Option<ShiftStatus>,
}

/// One search index operation, keyed by the document ids.
#[derive(Debug, PartialEq, Eq)]
pub enum IndexOp {
    /// Add the document to the `extra_service` index.
    AddExtraService { doc: ExtraServiceDoc },
    /// Partially update the `extra_service` document with the changed
    /// field.
    UpdateExtraService { id: ExtraServiceId, payload: ExtraServicePayload },
    /// Delete from the `extra_service` index.
    DeleteExtraService { id: ExtraServiceId },
    /// Add the document to the `media` index.
    AddMedia { doc: MediaDoc },
    /// Delete from the `media` index.
    DeleteMedia { id: MediaId },
    /// Add the document to the `prostitute` index.
    AddProstitute { doc: ProstituteDoc },
    /// Partially update the membership flag.
    UpdateProstituteLeaved { id: ProstituteId, leaved: bool },
    /// Partially update the `prostitute` document with the changed field.
    UpdateProstitute { id: ProstituteId, payload: ProstitutePayload },
    /// Drain any pending index task, fetch the document, fold the event in
    /// with `apply_to_document`, and write the result back.
    ReadModifyWriteProstitute { id: ProstituteId, event: ProstituteEvent },
    /// Delete from the `prostitute` index.
    DeleteProstitute { id: ProstituteId },
    /// Add the document to the `schedule` index.
    AddSchedule { doc: MeiliSchedule },
    /// Delete from the `schedule` index.
    DeleteSchedule { id: ScheduleId },
    /// Add the document to the `shift` index.
    AddShift { doc: MeiliShift },
    /// Partially update one shift's interval.
    UpdateShiftTime { id: ShiftId, time: TimeInterval },
    /// Partially update one shift's status.
    UpdateShiftStatus { id: ShiftId, status: ShiftStatus },
    /// Delete the listed shifts from the `shift` index.
    DeleteShifts { ids: Vec<ShiftId> },
    /// Write nothing: the event carried an invalid creation payload.
    Skip,
}

/// Where an extra-service event routes: creations add the projected
/// document (skipped when invalid), changes update by id, the tombstone
/// deletes.
pub open spec fn route_extra_service_spec(e: ExtraServiceEvent) -> IndexOp {
    match e {
        ExtraServiceEvent::ExtraServiceCreated { id, name, description, price } => {
            if text::blank(name@) {
                IndexOp::Skip
            } else {
                IndexOp::AddExtraService { doc: ExtraServiceDoc { id, name, description, price } }
            }
        },
        ExtraServiceEvent::ExtraServiceNameChanged { id, name } => IndexOp::UpdateExtraService {
            id,
            payload: ExtraServicePayload::NameChanged { name },
        },
        ExtraServiceEvent::ExtraServiceDescriptionChanged { id, description } => {
            IndexOp::UpdateExtraService {
                id,
                payload: ExtraServicePayload::DescriptionChanged { description },
            }
        },
        ExtraServiceEvent::ExtraServicePriceChanged { id, price } => IndexOp::UpdateExtraService {
            id,
            payload: ExtraServicePayload::PriceChanged { price },
        },
        ExtraServiceEvent::ExtraServiceDeleted { id } => IndexOp::DeleteExtraService { id },
    }
}

/// Routes an extra-service event to its index operation.
pub fn route_extra_service(e: ExtraServiceEvent) -> (r: IndexOp)
    ensures
        r == route_extra_service_spec(e),
{
    match e {
        ExtraServiceEvent::ExtraServiceCreated { id, name, description, price } => {
            if text::is_blank(name.as_str()) {
                IndexOp::Skip
            } else {
                IndexOp::AddExtraService { doc: ExtraServiceDoc { id, name, description, price } }
            }
        },
        ExtraServiceEvent::ExtraServiceNameChanged { id, name } => IndexOp::UpdateExtraService {
            id,
            payload: ExtraServicePayload::NameChanged { name },
        },
        ExtraServiceEvent::ExtraServiceDescriptionChanged { id, description } => {
            IndexOp::UpdateExtraService {
                id,
                payload: ExtraServicePayload::DescriptionChanged { description },
            }
        },
        ExtraServiceEvent::ExtraServicePriceChanged { id, price } => IndexOp::UpdateExtraService {
            id,
            payload: ExtraServicePayload::PriceChanged { price },
        },
        ExtraServiceEvent::ExtraServiceDeleted { id } => IndexOp::DeleteExtraService { id },
    }
}

/// Where a media event routes: a valid creation adds the document with the
/// sniffed media type, an invalid one is skipped, the tombstone deletes.
pub open spec fn route_media_spec(e: MediaEvent) -> IndexOp {
    match e {
        MediaEvent::MediaCreated { id, data, .. } => {
            match sniff_spec(data@) {
                Some(m) => IndexOp::AddMedia { doc: MediaDoc { id, mime: m, data } },
                None => IndexOp::Skip,
            }
        },
        MediaEvent::MediaDeleted { id } => IndexOp::DeleteMedia { id },
    }
}

/// Routes a media event to its index operation.
pub fn route_media(e: MediaEvent) -> (r: IndexOp)
    ensures
        r == route_media_spec(e),
{
    match e {
        MediaEvent::MediaCreated { id, data, .. } => {
            match crate::media::sniff(data.as_slice()) {
                Some(m) => IndexOp::AddMedia { doc: MediaDoc { id, mime: m, data } },
                None => IndexOp::Skip,
            }
        },
        MediaEvent::MediaDeleted { id } => IndexOp::DeleteMedia { id },
    }
}

/// Where a prostitute event routes: a valid joining adds the document;
/// leaving and rejoining flip the membership flag; simple changes update
/// the changed field; the questionnaire and image reorderings are
/// read-modify-write; the tombstone deletes.
pub open spec fn route_prostitute_spec(e: ProstituteEvent) -> IndexOp {
    match e {
        ProstituteEvent::Joined {
            id,
            name,
            catchphrase,
            profile,
            message,
            figure,
            blood,
            birthday,
            questions,
            images,
            video,
        } => {
            if text::blank(name@) || text::blank(catchphrase@) || !crate::queue::distinct_seq(
                images@,
            ) {
                IndexOp::Skip
            } else {
                IndexOp::AddProstitute {
                    doc: ProstituteDoc {
                        id,
                        name,
                        catchphrase,
                        profile,
                        message,
                        figure,
                        blood,
                        birthday,
                        questions,
                        images,
                        video,
                        leaved: false,
                    },
                }
            }
        },
        ProstituteEvent::Rejoined { id } => IndexOp::UpdateProstituteLeaved { id, leaved: false },
        ProstituteEvent::Leaved { id } => IndexOp::UpdateProstituteLeaved { id, leaved: true },
        ProstituteEvent::NameChanged { id, name } => IndexOp::UpdateProstitute {
            id,
            payload: ProstitutePayload::NameChanged { name },
        },
        ProstituteEvent::CatchphraseChanged { id, catchphrase } => IndexOp::UpdateProstitute {
            id,
            payload: ProstitutePayload::CatchphraseChanged { catchphrase },
        },
        ProstituteEvent::ProfileChanged { id, profile } => IndexOp::UpdateProstitute {
            id,
            payload: ProstitutePayload::ProfileChanged { profile },
        },
        ProstituteEvent::MessageChanged { id, message } => IndexOp::UpdateProstitute {
            id,
            payload: ProstitutePayload::MessageChanged { message },
        },
        ProstituteEvent::FigureChanged { id, figure } => IndexOp::UpdateProstitute {
            id,
            payload: ProstitutePayload::FigureChanged { figure },
        },
        ProstituteEvent::BloodTypeChanged { id, blood } => IndexOp::UpdateProstitute {
            id,
            payload: ProstitutePayload::BloodTypeChanged { blood },
        },
        ProstituteEvent::BirthdayChanged { id, birthday } => IndexOp::UpdateProstitute {
            id,
            payload: ProstitutePayload::BirthdayChanged { birthday },
        },
        ProstituteEvent::QuestionsChanged { id, questions } => IndexOp::UpdateProstitute {
            id,
            payload: ProstitutePayload::QuestionsChanged { questions },
        },
        ProstituteEvent::ImagesChanged { id, media_ids } => IndexOp::UpdateProstitute {
            id,
            payload: ProstitutePayload::ImagesChanged { media_ids },
        },
        ProstituteEvent::VideoChanged { id, media_id } => IndexOp::UpdateProstitute {
            id,
            payload: ProstitutePayload::VideoChanged { media_id },
        },
        ProstituteEvent::QuestionAdded { id, .. } => IndexOp::ReadModifyWriteProstitute {
            id,
            event: e,
        },
        ProstituteEvent::QuestionDeleted { id, .. } => IndexOp::ReadModifyWriteProstitute {
            id,
            event: e,
        },
        ProstituteEvent::QuestionSwapped { id, .. } => IndexOp::ReadModifyWriteProstitute {
            id,
            event: e,
        },
        ProstituteEvent::ImageAdded { id, .. } => IndexOp::ReadModifyWriteProstitute {
            id,
            event: e,
        },
        ProstituteEvent::ImageDeleted { id, .. } => IndexOp::ReadModifyWriteProstitute {
            id,
            event: e,
        },
        ProstituteEvent::ImageSwapped { id, .. } => IndexOp::ReadModifyWriteProstitute {
            id,
            event: e,
        },
        ProstituteEvent::Deleted { id } => IndexOp::DeleteProstitute { id },
    }
}

/// Routes a prostitute event to its index operation.
pub fn route_prostitute(e: ProstituteEvent) -> (r: IndexOp)
    ensures
        r == route_prostitute_spec(e),
{
    match e {
        ProstituteEvent::Joined {
            id,
            name,
            catchphrase,
            profile,
            message,
            figure,
            blood,
            birthday,
            questions,
            images,
            video,
        } => {
            if text::is_blank(name.as_str()) || text::is_blank(catchphrase.as_str())
                || !crate::prostitute::media_ids_distinct(&images) {
                IndexOp::Skip
            } else {
                IndexOp::AddProstitute {
                    doc: ProstituteDoc {
                        id,
                        name,
                        catchphrase,
                        profile,
                        message,
                        figure,
                        blood,
                        birthday,
                        questions,
                        images,
                        video,
                        leaved: false,
                    },
                }
            }
        },
        ProstituteEvent::Rejoined { id } => IndexOp::UpdateProstituteLeaved { id, leaved: false },
        ProstituteEvent::Leaved { id } => IndexOp::UpdateProstituteLeaved { id, leaved: true },
        ProstituteEvent::NameChanged { id, name } => IndexOp::UpdateProstitute {
            id,
            payload: ProstitutePayload::NameChanged { name },
        },
        ProstituteEvent::CatchphraseChanged { id, catchphrase } => IndexOp::UpdateProstitute {
            id,
            payload: ProstitutePayload::CatchphraseChanged { catchphrase },
        },
        ProstituteEvent::ProfileChanged { id, profile } => IndexOp::UpdateProstitute {
            id,
            payload: ProstitutePayload::ProfileChanged { profile },
        },
        ProstituteEvent::MessageChanged { id, message } => IndexOp::UpdateProstitute {
            id,
            payload: ProstitutePayload::MessageChanged { message },
        },
        ProstituteEvent::FigureChanged { id, figure } => IndexOp::UpdateProstitute {
            id,
            payload: ProstitutePayload::FigureChanged { figure },
        },
        ProstituteEvent::BloodTypeChanged { id, blood } => IndexOp::UpdateProstitute {
            id,
            payload: ProstitutePayload::BloodTypeChanged { blood },
        },
        ProstituteEvent::BirthdayChanged { id, birthday } => IndexOp::UpdateProstitute {
            id,
            payload: ProstitutePayload::BirthdayChanged { birthday },
        },
        ProstituteEvent::QuestionsChanged { id, questions } => IndexOp::UpdateProstitute {
            id,
            payload: ProstitutePayload::QuestionsChanged { questions },
        },
        ProstituteEvent::ImagesChanged { id, media_ids } => IndexOp::UpdateProstitute {
            id,
            payload: ProstitutePayload::ImagesChanged { media_ids },
        },
        ProstituteEvent::VideoChanged { id, media_id } => IndexOp::UpdateProstitute {
            id,
            payload: ProstitutePayload::VideoChanged { media_id },
        },
        ProstituteEvent::QuestionAdded { id, question } => {
            let event = ProstituteEvent::QuestionAdded { id, question };
            IndexOp::ReadModifyWriteProstitute { id, event }
        },
        ProstituteEvent::QuestionDeleted { id, index } => {
            let event = ProstituteEvent::QuestionDeleted { id, index };
            IndexOp::ReadModifyWriteProstitute { id, event }
        },
        ProstituteEvent::QuestionSwapped { id, index_a, index_b } => {
            let event = ProstituteEvent::QuestionSwapped { id, index_a, index_b };
            IndexOp::ReadModifyWriteProstitute { id, event }
        },
        ProstituteEvent::ImageAdded { id, media_id } => {
            let event = ProstituteEvent::ImageAdded { id, media_id };
            IndexOp::ReadModifyWriteProstitute { id, event }
        },
        ProstituteEvent::ImageDeleted { id, media_id } => {
            let event = ProstituteEvent::ImageDeleted { id, media_id };
            IndexOp::ReadModifyWriteProstitute { id, event }
        },
        ProstituteEvent::ImageSwapped { id, media_id_a, media_id_b } => {
            let event = ProstituteEvent::ImageSwapped { id, media_id_a, media_id_b };
            IndexOp::ReadModifyWriteProstitute { id, event }
        },
        ProstituteEvent::Deleted { id } => IndexOp::DeleteProstitute { id },
    }
}

/// Where a schedule event routes: the schedule index holds the id pair,
/// the shift index one document per shift.
pub open spec fn route_schedule_spec(e: ScheduleEvent) -> IndexOp {
    match e {
        ScheduleEvent::ScheduleCreated { id, prostitute_id } => IndexOp::AddSchedule {
            doc: MeiliSchedule { id, prostitute_id },
        },
        ScheduleEvent::ScheduleDeleted { id } => IndexOp::DeleteSchedule { id },
        ScheduleEvent::ShiftAdded { id, shift } => IndexOp::AddShift {
            doc: MeiliShift {
                id: shift.id,
                schedule_id: Some(id),
                time: Some(shift.time),
                status: Some(shift.status),
            },
        },
        ScheduleEvent::ShiftTimeChanged { shift_id, time } => IndexOp::UpdateShiftTime {
            id: shift_id,
            time,
        },
        ScheduleEvent::ShiftStatusChanged { shift_id, status } => IndexOp::UpdateShiftStatus {
            id: shift_id,
            status,
        },
        ScheduleEvent::ShiftsDeleted { shift_ids } => IndexOp::DeleteShifts { ids: shift_ids },
    }
}

/// Routes a schedule event to its index operation.
pub fn route_schedule(e: ScheduleEvent) -> (r: IndexOp)
    ensures
        r == route_schedule_spec(e),
{
    match e {
        ScheduleEvent::ScheduleCreated { id, prostitute_id } => IndexOp::AddSchedule {
            doc: MeiliSchedule { id, prostitute_id },
        },
        ScheduleEvent::ScheduleDeleted { id } => IndexOp::DeleteSchedule { id },
        ScheduleEvent::ShiftAdded { id, shift } => IndexOp::AddShift {
            doc: MeiliShift {
                id: shift.id,
                schedule_id: Some(id),
                time: Some(shift.time),
                status: Some(shift.status),
            },
        },
        ScheduleEvent::ShiftTimeChanged { shift_id, time } => IndexOp::UpdateShiftTime {
            id: shift_id,
            time,
        },
        ScheduleEvent::ShiftStatusChanged { shift_id, status } => IndexOp::UpdateShiftStatus {
            id: shift_id,
            status,
        },
        ScheduleEvent::ShiftsDeleted { shift_ids } => IndexOp::DeleteShifts { ids: shift_ids },
    }
}

/// Where a core event routes.
pub open spec fn route_core_spec(e: CoreEvent) -> IndexOp {
    match e {
        CoreEvent::ExtraServiceEvent(e) => route_extra_service_spec(e),
        CoreEvent::MediaEvent(e) => route_media_spec(e),
        CoreEvent::ProstituteEvent(e) => route_prostitute_spec(e),
        CoreEvent::ScheduleEvent(e) => route_schedule_spec(e),
    }
}

/// Routes a decoded core event to its index operation.
pub fn route_core(e: CoreEvent) -> (r: IndexOp)
    ensures
        r == route_core_spec(e),
{
    match e {
        CoreEvent::ExtraServiceEvent(e) => route_extra_service(e),
        CoreEvent::MediaEvent(e) => route_media(e),
        CoreEvent::ProstituteEvent(e) => route_prostitute(e),
        CoreEvent::ScheduleEvent(e) => route_schedule(e),
    }
}

/// The aggregate state a stored document stands for.
pub open spec fn doc_state(d: ProstituteDoc) -> ProstituteState {
    ProstituteState {
        id: d.id,
        name: d.name@,
        catchphrase: d.catchphrase@,
        profile: d.profile@,
        message: d.message@,
        figure: d.figure,
        blood: d.blood,
        birthday: d.birthday,
        questions: d.questions@,
        images: d.images@,
        video: d.video,
        leaved: d.leaved,
    }
}

/// Folds one event into a fetched prostitute document, exactly as the
/// aggregate's `apply` would change its state; in particular exchanging
/// two images is a positional exchange of the two ids.
pub fn apply_to_document(doc: ProstituteDoc, event: ProstituteEvent) -> (r: ProstituteDoc)
    ensures
        doc_state(r) == prostitute_step(doc_state(doc), event),
{
    let mut entity = Prostitute {
        id: doc.id,
        name: doc.name,
        catchphrase: doc.catchphrase,
        profile: doc.profile,
        message: doc.message,
        figure: doc.figure,
        blood: doc.blood,
        birthday: doc.birthday,
        questions: doc.questions,
        images: doc.images,
        video: doc.video,
        leaved: doc.leaved,
        events: EventQueue::new(),
    };
    entity.apply(event);
    ProstituteDoc {
        id: entity.id,
        name: entity.name,
        catchphrase: entity.catchphrase,
        profile: entity.profile,
        message: entity.message,
        figure: entity.figure,
        blood: entity.blood,
        birthday: entity.birthday,
        questions: entity.questions,
        images: entity.images,
        video: entity.video,
        leaved: entity.leaved,
    }
}

} // verus!
