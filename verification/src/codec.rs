//! The event envelope codec.
//!
//! A log record carries a stream name `<entity>-<id>`, an event type tag
//! naming the variant, and the variant's payload without the id field; the
//! id travels in the stream name alone. Encoding splits an event into those
//! three parts; decoding recovers the id from the stream name, checks the
//! tag against the payload's variant, and reassembles the event. The byte
//! rendering of a payload happens at the I/O boundary; this module owns the
//! names, the tags, the id arithmetic and the round trip.

use vstd::prelude::*;
use vstd::string::*;
use crate::extra_service::{ExtraServiceEvent, ExtraServiceId};
use crate::media::{MediaEvent, MediaId, Mime};
use crate::money::Money;
use crate::prostitute::{BloodType, Figure, ProstituteEvent, ProstituteId, Question};
use crate::schedule::{ScheduleEvent, ScheduleId, Shift, ShiftId, ShiftStatus};
use crate::text;
use crate::time::{Birthday, TimeInterval};

verus! {

/// Decoding failed: the stream name, the event type or the payload does
/// not belong to a known event.
#[derive(Clone, Copy, Debug, PartialEq, Eq, Structural)]
pub struct EventConvertError;

/// The entity kinds whose streams appear in the log.
#[derive(Clone, Copy, Debug, PartialEq, Eq, Structural)]
pub enum EntityKind {
    ExtraService,
    Media,
    Prostitute,
    Schedule,
    Reservation,
    Service,
}

/// The wire name of each entity kind.
pub open spec fn entity_text(kind: EntityKind) -> Seq<char> {
    match kind {
        EntityKind::ExtraService => "extra_service"@,
        EntityKind::Media => "media"@,
        EntityKind::Prostitute => "prostitute"@,
        EntityKind::Schedule => "schedule"@,
        EntityKind::Reservation => "reservation"@,
        EntityKind::Service => "service"@,
    }
}

/// The wire name of an entity kind.
pub fn entity_name(kind: EntityKind) -> (r: &'static str)
    ensures
        r@ == entity_text(kind),
{
    match kind {
        EntityKind::ExtraService => "extra_service",
        EntityKind::Media => "media",
        EntityKind::Prostitute => "prostitute",
        EntityKind::Schedule => "schedule",
        EntityKind::Reservation => "reservation",
        EntityKind::Service => "service",
    }
}

/// The stream name of one aggregate: the entity name, a dash, the id in
/// decimal.
pub open spec fn stream_text(kind: EntityKind, id: u64) -> Seq<char> {
    entity_text(kind) + seq!['-'] + text::dec_digits(id as nat)
}

/// Builds the stream name of one aggregate.
pub fn stream_name(kind: EntityKind, id: u64) -> (r: String)
    ensures
        r@ == stream_text(kind, id),
{
    let mut r = entity_name(kind).to_owned();
    proof {
        reveal_strlit("-");
    }
    r.append("-");
    let digits = text::u64_to_dec(id);
    r.append(digits.as_str());
    proof {
        assert(r@ =~= stream_text(kind, id));
    }
    r
}

/// The id a stream name carries, when the name is this kind's name, a
/// dash, and a decimal number that fits 64 bits.
pub open spec fn split_stream(kind: EntityKind, s: Seq<char>) -> Option<u64> {
    let kt = entity_text(kind);
    let k = kt.len() as int;
    if s.len() >= k + 2 && s.subrange(0, k) == kt && s[k] == '-' && all_digits_value_fits(
        s.subrange(k + 1, s.len() as int),
    ) {
        Some(text::dec_value(s.subrange(k + 1, s.len() as int)) as u64)
    } else {
        None
    }
}

/// Non-empty, digits only, and the value fits 64 bits.
pub open spec fn all_digits_value_fits(s: Seq<char>) -> bool {
    s.len() > 0 && text::all_digits(s) && text::dec_value(s) <= u64::MAX
}

/// Reads the id from a stream name of the given kind; `None` when the name
/// is not of that kind or carries no readable id.
pub fn parse_stream_id(kind: EntityKind, stream: &str) -> (r: Option<u64>)
    ensures
        r == split_stream(kind, stream@),
{
    let kind_str = entity_name(kind);
    let k: usize = kind_str.unicode_len();
    let n: usize = stream.unicode_len();
    if n < 2 || k > n - 2 {
        return None;
    }
    let prefix = stream.substring_char(0, k);
    if !text::str_eq(prefix, kind_str) {
        return None;
    }
    if stream.get_char(k) != '-' {
        return None;
    }
    let digits = stream.substring_char(k + 1, n);
    match text::parse_u64(digits) {
        Some(v) => Some(v),
        None => None,
    }
}

/// Reading back a built stream name yields the id it was built from.
pub proof fn lemma_stream_roundtrip(kind: EntityKind, id: u64)
    ensures
        split_stream(kind, stream_text(kind, id)) == Some(id),
{
    let kt = entity_text(kind);
    let k = kt.len() as int;
    let digits = text::dec_digits(id as nat);
    let s = stream_text(kind, id);
    text::lemma_dec_roundtrip(id as nat);
    assert(s.len() == k + 1 + digits.len());
    assert(s.subrange(0, k) =~= kt);
    assert(s[k] == '-');
    assert(s.subrange(k + 1, s.len() as int) =~= digits);
}

/// Decides which entity kind a stream belongs to, with the id it carries.
/// Tries the known kinds; `None` for system streams and foreign names.
pub open spec fn parse_stream_spec(s: Seq<char>) -> Option<(EntityKind, u64)> {
    if split_stream(EntityKind::ExtraService, s) is Some {
        Some((EntityKind::ExtraService, split_stream(EntityKind::ExtraService, s)->Some_0))
    } else if split_stream(EntityKind::Media, s) is Some {
        Some((EntityKind::Media, split_stream(EntityKind::Media, s)->Some_0))
    } else if split_stream(EntityKind::Prostitute, s) is Some {
        Some((EntityKind::Prostitute, split_stream(EntityKind::Prostitute, s)->Some_0))
    } else if split_stream(EntityKind::Schedule, s) is Some {
        Some((EntityKind::Schedule, split_stream(EntityKind::Schedule, s)->Some_0))
    } else if split_stream(EntityKind::Reservation, s) is Some {
        Some((EntityKind::Reservation, split_stream(EntityKind::Reservation, s)->Some_0))
    } else if split_stream(EntityKind::Service, s) is Some {
        Some((EntityKind::Service, split_stream(EntityKind::Service, s)->Some_0))
    } else {
        None
    }
}

/// Decides which entity kind a stream belongs to, with the id it carries.
pub fn parse_stream(stream: &str) -> (r: Option<(EntityKind, u64)>)
    ensures
        r == parse_stream_spec(stream@),
{
    if let Some(id) = parse_stream_id(EntityKind::ExtraService, stream) {
        return Some((EntityKind::ExtraService, id));
    }
    if let Some(id) = parse_stream_id(EntityKind::Media, stream) {
        return Some((EntityKind::Media, id));
    }
    if let Some(id) = parse_stream_id(EntityKind::Prostitute, stream) {
        return Some((EntityKind::Prostitute, id));
    }
    if let Some(id) = parse_stream_id(EntityKind::Schedule, stream) {
        return Some((EntityKind::Schedule, id));
    }
    if let Some(id) = parse_stream_id(EntityKind::Reservation, stream) {
        return Some((EntityKind::Reservation, id));
    }
    if let Some(id) = parse_stream_id(EntityKind::Service, stream) {
        return Some((EntityKind::Service, id));
    }
    None
}

/// One log record, before its payload is rendered to bytes: the stream
/// name, the event type tag, and the typed payload.
#[derive(Debug, PartialEq, Eq)]
pub struct EventEnvelope<P> {
    pub stream: String,
    pub event_type: String,
    pub payload: P,
}

/// The payload of an extra-service event: the variant's fields without the
/// id.
#[derive(Debug, PartialEq, Eq)]
pub enum ExtraServicePayload {
    Created { name: String, description: String, price: Money },
    NameChanged { name: String },
    DescriptionChanged { description: String },
    PriceChanged { price: Money },
    Deleted,
}

/// The id an extra-service event carries.
pub open spec fn extra_service_event_id(e: ExtraServiceEvent) -> ExtraServiceId {
    match e {
        ExtraServiceEvent::ExtraServiceCreated { id, .. } => id,
        ExtraServiceEvent::ExtraServiceNameChanged { id, .. } => id,
        ExtraServiceEvent::ExtraServiceDescriptionChanged { id, .. } => id,
        ExtraServiceEvent::ExtraServicePriceChanged { id, .. } => id,
        ExtraServiceEvent::ExtraServiceDeleted { id } => id,
    }
}

/// The payload of an extra-service event.
pub open spec fn extra_service_payload_of(e: ExtraServiceEvent) -> ExtraServicePayload {
    match e {
        ExtraServiceEvent::ExtraServiceCreated { name, description, price, .. } => {
            ExtraServicePayload::Created { name, description, price }
        },
        ExtraServiceEvent::ExtraServiceNameChanged { name, .. } => ExtraServicePayload::NameChanged {
            name,
        },
        ExtraServiceEvent::ExtraServiceDescriptionChanged { description, .. } => {
            ExtraServicePayload::DescriptionChanged { description }
        },
        ExtraServiceEvent::ExtraServicePriceChanged { price, .. } => {
            ExtraServicePayload::PriceChanged { price }
        },
        ExtraServiceEvent::ExtraServiceDeleted { .. } => ExtraServicePayload::Deleted,
    }
}

/// The event a payload reassembles to under a recovered id.
pub open spec fn extra_service_assemble(id: u64, p: ExtraServicePayload) -> ExtraServiceEvent {
    match p {
        ExtraServicePayload::Created { name, description, price } => {
            ExtraServiceEvent::ExtraServiceCreated {
                id: ExtraServiceId(id),
                name,
                description,
                price,
            }
        },
        ExtraServicePayload::NameChanged { name } => ExtraServiceEvent::ExtraServiceNameChanged {
            id: ExtraServiceId(id),
            name,
        },
        ExtraServicePayload::DescriptionChanged { description } => {
            ExtraServiceEvent::ExtraServiceDescriptionChanged { id: ExtraServiceId(id), description }
        },
        ExtraServicePayload::PriceChanged { price } => ExtraServiceEvent::ExtraServicePriceChanged {
            id: ExtraServiceId(id),
            price,
        },
        ExtraServicePayload::Deleted => ExtraServiceEvent::ExtraServiceDeleted {
            id: ExtraServiceId(id),
        },
    }
}

/// The event type tag of an extra-service payload.
pub open spec fn extra_service_tag_text(p: ExtraServicePayload) -> Seq<char> {
    match p {
        ExtraServicePayload::Created { .. } => "ExtraServiceCreated"@,
        ExtraServicePayload::NameChanged { .. } => "ExtraServiceNameChanged"@,
        ExtraServicePayload::DescriptionChanged { .. } => "ExtraServiceDescriptionChanged"@,
        ExtraServicePayload::PriceChanged { .. } => "ExtraServicePriceChanged"@,
        ExtraServicePayload::Deleted => "ExtraServiceDeleted"@,
    }
}

/// The event type tag of an extra-service payload.
pub fn extra_service_tag(p: &ExtraServicePayload) -> (r: &'static str)
    ensures
        r@ == extra_service_tag_text(*p),
{
    match p {
        ExtraServicePayload::Created { .. } => "ExtraServiceCreated",
        ExtraServicePayload::NameChanged { .. } => "ExtraServiceNameChanged",
        ExtraServicePayload::DescriptionChanged { .. } => "ExtraServiceDescriptionChanged",
        ExtraServicePayload::PriceChanged { .. } => "ExtraServicePriceChanged",
        ExtraServicePayload::Deleted => "ExtraServiceDeleted",
    }
}

/// Splits an extra-service event into its log record parts.
pub fn encode_extra_service(e: ExtraServiceEvent) -> (env: EventEnvelope<ExtraServicePayload>)
    ensures
        env.stream@ == stream_text(EntityKind::ExtraService, extra_service_event_id(e).0),
        env.event_type@ == extra_service_tag_text(extra_service_payload_of(e)),
        env.payload == extra_service_payload_of(e),
{
    let (id, payload) = match e {
        ExtraServiceEvent::ExtraServiceCreated { id, name, description, price } => (
            id,
            ExtraServicePayload::Created { name, description, price },
        ),
        ExtraServiceEvent::ExtraServiceNameChanged { id, name } => (
            id,
            ExtraServicePayload::NameChanged { name },
        ),
        ExtraServiceEvent::ExtraServiceDescriptionChanged { id, description } => (
            id,
            ExtraServicePayload::DescriptionChanged { description },
        ),
        ExtraServiceEvent::ExtraServicePriceChanged { id, price } => (
            id,
            ExtraServicePayload::PriceChanged { price },
        ),
        ExtraServiceEvent::ExtraServiceDeleted { id } => (id, ExtraServicePayload::Deleted),
    };
    let stream = stream_name(EntityKind::ExtraService, id.0);
    let event_type = extra_service_tag(&payload).to_owned();
    EventEnvelope { stream, event_type, payload }
}

/// What decoding an extra-service record yields: the reassembled event when
/// the stream parses to this kind and the tag names the payload's variant,
/// an error otherwise.
pub open spec fn decode_extra_service_spec(
    stream: Seq<char>,
    event_type: Seq<char>,
    p: ExtraServicePayload,
) -> Result<ExtraServiceEvent, EventConvertError> {
    match split_stream(EntityKind::ExtraService, stream) {
        None => Err(EventConvertError),
        Some(id) => {
            if event_type == extra_service_tag_text(p) {
                Ok(extra_service_assemble(id, p))
            } else {
                Err(EventConvertError)
            }
        },
    }
}

/// Decodes an extra-service record.
pub fn decode_extra_service(stream: &str, event_type: &str, payload: ExtraServicePayload) -> (r:
    Result<ExtraServiceEvent, EventConvertError>)
    ensures
        r == decode_extra_service_spec(stream@, event_type@, payload),
{
    let id = match parse_stream_id(EntityKind::ExtraService, stream) {
        Some(id) => id,
        None => {
            return Err(EventConvertError);
        },
    };
    if !text::str_eq(event_type, extra_service_tag(&payload)) {
        return Err(EventConvertError);
    }
    Ok(
        match payload {
            ExtraServicePayload::Created { name, description, price } => {
                ExtraServiceEvent::ExtraServiceCreated {
                    id: ExtraServiceId(id),
                    name,
                    description,
                    price,
                }
            },
            ExtraServicePayload::NameChanged { name } => {
                ExtraServiceEvent::ExtraServiceNameChanged { id: ExtraServiceId(id), name }
            },
            ExtraServicePayload::DescriptionChanged { description } => {
                ExtraServiceEvent::ExtraServiceDescriptionChanged {
                    id: ExtraServiceId(id),
                    description,
                }
            },
            ExtraServicePayload::PriceChanged { price } => {
                ExtraServiceEvent::ExtraServicePriceChanged { id: ExtraServiceId(id), price }
            },
            ExtraServicePayload::Deleted => ExtraServiceEvent::ExtraServiceDeleted {
                id: ExtraServiceId(id),
            },
        },
    )
}

/// Round trip: decoding the three parts an event encodes to yields the
/// event again; the id travels through the stream name.
pub proof fn lemma_extra_service_roundtrip(e: ExtraServiceEvent)
    ensures
        decode_extra_service_spec(
            stream_text(EntityKind::ExtraService, extra_service_event_id(e).0),
            extra_service_tag_text(extra_service_payload_of(e)),
            extra_service_payload_of(e),
        ) == Ok::<ExtraServiceEvent, EventConvertError>(e),
{
    lemma_stream_roundtrip(EntityKind::ExtraService, extra_service_event_id(e).0);
}

/// The payload of a media event. On the wire the created blob's bytes are
/// the record body and the media type rides in the metadata.
#[derive(Debug, PartialEq, Eq)]
pub enum MediaPayload {
    Created { mime: Mime, data: Vec<u8> },
    Deleted,
}

/// The id a media event carries.
pub open spec fn media_event_id(e: MediaEvent) -> MediaId {
    match e {
        MediaEvent::MediaCreated { id, .. } => id,
        MediaEvent::MediaDeleted { id } => id,
    }
}

/// The payload of a media event.
pub open spec fn media_payload_of(e: MediaEvent) -> MediaPayload {
    match e {
        MediaEvent::MediaCreated { mime, data, .. } => MediaPayload::Created { mime, data },
        MediaEvent::MediaDeleted { .. } => MediaPayload::Deleted,
    }
}

/// The event a media payload reassembles to under a recovered id.
pub open spec fn media_assemble(id: u64, p: MediaPayload) -> MediaEvent {
    match p {
        MediaPayload::Created { mime, data } => MediaEvent::MediaCreated {
            id: MediaId(id),
            mime,
            data,
        },
        MediaPayload::Deleted => MediaEvent::MediaDeleted { id: MediaId(id) },
    }
}

/// The event type tag of a media payload.
pub open spec fn media_tag_text(p: MediaPayload) -> Seq<char> {
    match p {
        MediaPayload::Created { .. } => "MediaCreated"@,
        MediaPayload::Deleted => "MediaDeleted"@,
    }
}

/// The event type tag of a media payload.
pub fn media_tag(p: &MediaPayload) -> (r: &'static str)
    ensures
        r@ == media_tag_text(*p),
{
    match p {
        MediaPayload::Created { .. } => "MediaCreated",
        MediaPayload::Deleted => "MediaDeleted",
    }
}

/// Splits a media event into its log record parts.
pub fn encode_media(e: MediaEvent) -> (env: EventEnvelope<MediaPayload>)
    ensures
        env.stream@ == stream_text(EntityKind::Media, media_event_id(e).0),
        env.event_type@ == media_tag_text(media_payload_of(e)),
        env.payload == media_payload_of(e),
{
    let (id, payload) = match e {
        MediaEvent::MediaCreated { id, mime, data } => (id, MediaPayload::Created { mime, data }),
        MediaEvent::MediaDeleted { id } => (id, MediaPayload::Deleted),
    };
    let stream = stream_name(EntityKind::Media, id.0);
    let event_type = media_tag(&payload).to_owned();
    EventEnvelope { stream, event_type, payload }
}

/// What decoding a media record yields.
pub open spec fn decode_media_spec(
    stream: Seq<char>,
    event_type: Seq<char>,
    p: MediaPayload,
) -> Result<MediaEvent, EventConvertError> {
    match split_stream(EntityKind::Media, stream) {
        None => Err(EventConvertError),
        Some(id) => {
            if event_type == media_tag_text(p) {
                Ok(media_assemble(id, p))
            } else {
                Err(EventConvertError)
            }
        },
    }
}

/// Decodes a media record.
pub fn decode_media(stream: &str, event_type: &str, payload: MediaPayload) -> (r: Result<
    MediaEvent,
    EventConvertError,
>)
    ensures
        r == decode_media_spec(stream@, event_type@, payload),
{
    let id = match parse_stream_id(EntityKind::Media, stream) {
        Some(id) => id,
        None => {
            return Err(EventConvertError);
        },
    };
    if !text::str_eq(event_type, media_tag(&payload)) {
        return Err(EventConvertError);
    }
    Ok(
        match payload {
            MediaPayload::Created { mime, data } => MediaEvent::MediaCreated {
                id: MediaId(id),
                mime,
                data,
            },
            MediaPayload::Deleted => MediaEvent::MediaDeleted { id: MediaId(id) },
        },
    )
}

/// Round trip for media events.
pub proof fn lemma_media_roundtrip(e: MediaEvent)
    ensures
        decode_media_spec(
            stream_text(EntityKind::Media, media_event_id(e).0),
            media_tag_text(media_payload_of(e)),
            media_payload_of(e),
        ) == Ok::<MediaEvent, EventConvertError>(e),
{
    lemma_stream_roundtrip(EntityKind::Media, media_event_id(e).0);
}

/// The payload of a prostitute event: the variant's fields without the id.
#[derive(Debug, PartialEq, Eq)]
pub enum ProstitutePayload {
    Joined {
        name: String,
        catchphrase: String,
        profile: String,
        message: String,
        figure: Figure,
        blood: Option<BloodType>,
        birthday: Option<Birthday>,
        questions: Vec<Question>,
        images: Vec<MediaId>,
        video: Option<MediaId>,
    },
    Rejoined,
    Leaved,
    NameChanged { name: String },
    CatchphraseChanged { catchphrase: String },
    ProfileChanged { profile: String },
    MessageChanged { message: String },
    FigureChanged { figure: Figure },
    BloodTypeChanged { blood: Option<BloodType> },
    BirthdayChanged { birthday: Option<Birthday> },
    QuestionsChanged { questions: Vec<Question> },
    QuestionAdded { question: Question },
    QuestionDeleted { index: usize },
    QuestionSwapped { index_a: usize, index_b: usize },
    ImagesChanged { media_ids: Vec<MediaId> },
    ImageAdded { media_id: MediaId },
    ImageDeleted { media_id: MediaId },
    ImageSwapped { media_id_a: MediaId, media_id_b: MediaId },
    VideoChanged { media_id: Option<MediaId> },
    Deleted,
}

/// The id a prostitute event carries.
pub open spec fn prostitute_event_id(e: ProstituteEvent) -> ProstituteId {
    match e {
        ProstituteEvent::Joined { id, .. } => id,
        ProstituteEvent::Rejoined { id } => id,
        ProstituteEvent::Leaved { id } => id,
        ProstituteEvent::NameChanged { id, .. } => id,
        ProstituteEvent::CatchphraseChanged { id, .. } => id,
        ProstituteEvent::ProfileChanged { id, .. } => id,
        ProstituteEvent::MessageChanged { id, .. } => id,
        ProstituteEvent::FigureChanged { id, .. } => id,
        ProstituteEvent::BloodTypeChanged { id, .. } => id,
        ProstituteEvent::BirthdayChanged { id, .. } => id,
        ProstituteEvent::QuestionsChanged { id, .. } => id,
        ProstituteEvent::QuestionAdded { id, .. } => id,
        ProstituteEvent::QuestionDeleted { id, .. } => id,
        ProstituteEvent::QuestionSwapped { id, .. } => id,
        ProstituteEvent::ImagesChanged { id, .. } => id,
        ProstituteEvent::ImageAdded { id, .. } => id,
        ProstituteEvent::ImageDeleted { id, .. } => id,
        ProstituteEvent::ImageSwapped { id, .. } => id,
        ProstituteEvent::VideoChanged { id, .. } => id,
        ProstituteEvent::Deleted { id } => id,
    }
}

/// The payload of a prostitute event.
pub open spec fn prostitute_payload_of(e: ProstituteEvent) -> ProstitutePayload {
    match e {
        ProstituteEvent::Joined {
            name,
            catchphrase,
            profile,
            message,
            figure,
            blood,
            birthday,
            questions,
            images,
            video,
            ..
        } => ProstitutePayload::Joined {
            name,
            catchphrase,
            profile,
            message,
            figure,
            blood,
            birthday,
            questions,
            images,
            video,
        },
        ProstituteEvent::Rejoined { .. } => ProstitutePayload::Rejoined,
        ProstituteEvent::Leaved { .. } => ProstitutePayload::Leaved,
        ProstituteEvent::NameChanged { name, .. } => ProstitutePayload::NameChanged { name },
        ProstituteEvent::CatchphraseChanged { catchphrase, .. } => {
            ProstitutePayload::CatchphraseChanged { catchphrase }
        },
        ProstituteEvent::ProfileChanged { profile, .. } => ProstitutePayload::ProfileChanged {
            profile,
        },
        ProstituteEvent::MessageChanged { message, .. } => ProstitutePayload::MessageChanged {
            message,
        },
        ProstituteEvent::FigureChanged { figure, .. } => ProstitutePayload::FigureChanged {
            figure,
        },
        ProstituteEvent::BloodTypeChanged { blood, .. } => ProstitutePayload::BloodTypeChanged {
            blood,
        },
        ProstituteEvent::BirthdayChanged { birthday, .. } => ProstitutePayload::BirthdayChanged {
            birthday,
        },
        ProstituteEvent::QuestionsChanged { questions, .. } => ProstitutePayload::QuestionsChanged {
            questions,
        },
        ProstituteEvent::QuestionAdded { question, .. } => ProstitutePayload::QuestionAdded {
            question,
        },
        ProstituteEvent::QuestionDeleted { index, .. } => ProstitutePayload::QuestionDeleted {
            index,
        },
        ProstituteEvent::QuestionSwapped { index_a, index_b, .. } => {
            ProstitutePayload::QuestionSwapped { index_a, index_b }
        },
        ProstituteEvent::ImagesChanged { media_ids, .. } => ProstitutePayload::ImagesChanged {
            media_ids,
        },
        ProstituteEvent::ImageAdded { media_id, .. } => ProstitutePayload::ImageAdded { media_id },
        ProstituteEvent::ImageDeleted { media_id, .. } => ProstitutePayload::ImageDeleted {
            media_id,
        },
        ProstituteEvent::ImageSwapped { media_id_a, media_id_b, .. } => {
            ProstitutePayload::ImageSwapped { media_id_a, media_id_b }
        },
        ProstituteEvent::VideoChanged { media_id, .. } => ProstitutePayload::VideoChanged {
            media_id,
        },
        ProstituteEvent::Deleted { .. } => ProstitutePayload::Deleted,
    }
}

/// The event a prostitute payload reassembles to under a recovered id.
pub open spec fn prostitute_assemble(id: u64, p: ProstitutePayload) -> ProstituteEvent {
    let pid = ProstituteId(id);
    match p {
        ProstitutePayload::Joined {
            name,
            catchphrase,
            profile,
            message,
            figure,
            blood,
            birthday,
            questions,
            images,
            video,
        } => ProstituteEvent::Joined {
            id: pid,
            name,
            catchphrase,
            profile,
            message,
            figure,
            blood,
            birthday,
            questions,
            images,
            video,
        },
        ProstitutePayload::Rejoined => ProstituteEvent::Rejoined { id: pid },
        ProstitutePayload::Leaved => ProstituteEvent::Leaved { id: pid },
        ProstitutePayload::NameChanged { name } => ProstituteEvent::NameChanged { id: pid, name },
        ProstitutePayload::CatchphraseChanged { catchphrase } => {
            ProstituteEvent::CatchphraseChanged { id: pid, catchphrase }
        },
        ProstitutePayload::ProfileChanged { profile } => ProstituteEvent::ProfileChanged {
            id: pid,
            profile,
        },
        ProstitutePayload::MessageChanged { message } => ProstituteEvent::MessageChanged {
            id: pid,
            message,
        },
        ProstitutePayload::FigureChanged { figure } => ProstituteEvent::FigureChanged {
            id: pid,
            figure,
        },
        ProstitutePayload::BloodTypeChanged { blood } => ProstituteEvent::BloodTypeChanged {
            id: pid,
            blood,
        },
        ProstitutePayload::BirthdayChanged { birthday } => ProstituteEvent::BirthdayChanged {
            id: pid,
            birthday,
        },
        ProstitutePayload::QuestionsChanged { questions } => ProstituteEvent::QuestionsChanged {
            id: pid,
            questions,
        },
        ProstitutePayload::QuestionAdded { question } => ProstituteEvent::QuestionAdded {
            id: pid,
            question,
        },
        ProstitutePayload::QuestionDeleted { index } => ProstituteEvent::QuestionDeleted {
            id: pid,
            index,
        },
        ProstitutePayload::QuestionSwapped { index_a, index_b } => {
            ProstituteEvent::QuestionSwapped { id: pid, index_a, index_b }
        },
        ProstitutePayload::ImagesChanged { media_ids } => ProstituteEvent::ImagesChanged {
            id: pid,
            media_ids,
        },
        ProstitutePayload::ImageAdded { media_id } => ProstituteEvent::ImageAdded {
            id: pid,
            media_id,
        },
        ProstitutePayload::ImageDeleted { media_id } => ProstituteEvent::ImageDeleted {
            id: pid,
            media_id,
        },
        ProstitutePayload::ImageSwapped { media_id_a, media_id_b } => {
            ProstituteEvent::ImageSwapped { id: pid, media_id_a, media_id_b }
        },
        ProstitutePayload::VideoChanged { media_id } => ProstituteEvent::VideoChanged {
            id: pid,
            media_id,
        },
        ProstitutePayload::Deleted => ProstituteEvent::Deleted { id: pid },
    }
}

/// The event type tag of a prostitute payload.
pub open spec fn prostitute_tag_text(p: ProstitutePayload) -> Seq<char> {
    match p {
        ProstitutePayload::Joined { .. } => "Joined"@,
        ProstitutePayload::Rejoined => "Rejoined"@,
        ProstitutePayload::Leaved => "Leaved"@,
        ProstitutePayload::NameChanged { .. } => "NameChanged"@,
        ProstitutePayload::CatchphraseChanged { .. } => "CatchphraseChanged"@,
        ProstitutePayload::ProfileChanged { .. } => "ProfileChanged"@,
        ProstitutePayload::MessageChanged { .. } => "MessageChanged"@,
        ProstitutePayload::FigureChanged { .. } => "FigureChanged"@,
        ProstitutePayload::BloodTypeChanged { .. } => "BloodTypeChanged"@,
        ProstitutePayload::BirthdayChanged { .. } => "BirthdayChanged"@,
        ProstitutePayload::QuestionsChanged { .. } => "QuestionsChanged"@,
        ProstitutePayload::QuestionAdded { .. } => "QuestionAdded"@,
        ProstitutePayload::QuestionDeleted { .. } => "QuestionDeleted"@,
        ProstitutePayload::QuestionSwapped { .. } => "QuestionSwapped"@,
        ProstitutePayload::ImagesChanged { .. } => "ImagesChanged"@,
        ProstitutePayload::ImageAdded { .. } => "ImageAdded"@,
        ProstitutePayload::ImageDeleted { .. } => "ImageDeleted"@,
        ProstitutePayload::ImageSwapped { .. } => "ImageSwapped"@,
        ProstitutePayload::VideoChanged { .. } => "VideoChanged"@,
        ProstitutePayload::Deleted => "Deleted"@,
    }
}

/// The event type tag of a prostitute payload.
pub fn prostitute_tag(p: &ProstitutePayload) -> (r: &'static str)
    ensures
        r@ == prostitute_tag_text(*p),
{
    match p {
        ProstitutePayload::Joined { .. } => "Joined",
        ProstitutePayload::Rejoined => "Rejoined",
        ProstitutePayload::Leaved => "Leaved",
        ProstitutePayload::NameChanged { .. } => "NameChanged",
        ProstitutePayload::CatchphraseChanged { .. } => "CatchphraseChanged",
        ProstitutePayload::ProfileChanged { .. } => "ProfileChanged",
        ProstitutePayload::MessageChanged { .. } => "MessageChanged",
        ProstitutePayload::FigureChanged { .. } => "FigureChanged",
        ProstitutePayload::BloodTypeChanged { .. } => "BloodTypeChanged",
        ProstitutePayload::BirthdayChanged { .. } => "BirthdayChanged",
        ProstitutePayload::QuestionsChanged { .. } => "QuestionsChanged",
        ProstitutePayload::QuestionAdded { .. } => "QuestionAdded",
        ProstitutePayload::QuestionDeleted { .. } => "QuestionDeleted",
        ProstitutePayload::QuestionSwapped { .. } => "QuestionSwapped",
        ProstitutePayload::ImagesChanged { .. } => "ImagesChanged",
        ProstitutePayload::ImageAdded { .. } => "ImageAdded",
        ProstitutePayload::ImageDeleted { .. } => "ImageDeleted",
        ProstitutePayload::ImageSwapped { .. } => "ImageSwapped",
        ProstitutePayload::VideoChanged { .. } => "VideoChanged",
        ProstitutePayload::Deleted => "Deleted",
    }
}

/// Splits a prostitute event into its log record parts.
pub fn encode_prostitute(e: ProstituteEvent) -> (env: EventEnvelope<ProstitutePayload>)
    ensures
        env.stream@ == stream_text(EntityKind::Prostitute, prostitute_event_id(e).0),
        env.event_type@ == prostitute_tag_text(prostitute_payload_of(e)),
        env.payload == prostitute_payload_of(e),
{
    let (id, payload) = match e {
        ProstituteEvent::Joined {
            id,
            name,
            catchphrase,
            profile,
            message,
            figure,
            blood,
            birthday,
            questions,
            images,
            video,
        } => (
            id,
            ProstitutePayload::Joined {
                name,
                catchphrase,
                profile,
                message,
                figure,
                blood,
                birthday,
                questions,
                images,
                video,
            },
        ),
        ProstituteEvent::Rejoined { id } => (id, ProstitutePayload::Rejoined),
        ProstituteEvent::Leaved { id } => (id, ProstitutePayload::Leaved),
        ProstituteEvent::NameChanged { id, name } => (id, ProstitutePayload::NameChanged { name }),
        ProstituteEvent::CatchphraseChanged { id, catchphrase } => (
            id,
            ProstitutePayload::CatchphraseChanged { catchphrase },
        ),
        ProstituteEvent::ProfileChanged { id, profile } => (
            id,
            ProstitutePayload::ProfileChanged { profile },
        ),
        ProstituteEvent::MessageChanged { id, message } => (
            id,
            ProstitutePayload::MessageChanged { message },
        ),
        ProstituteEvent::FigureChanged { id, figure } => (
            id,
            ProstitutePayload::FigureChanged { figure },
        ),
        ProstituteEvent::BloodTypeChanged { id, blood } => (
            id,
            ProstitutePayload::BloodTypeChanged { blood },
        ),
        ProstituteEvent::BirthdayChanged { id, birthday } => (
            id,
            ProstitutePayload::BirthdayChanged { birthday },
        ),
        ProstituteEvent::QuestionsChanged { id, questions } => (
            id,
            ProstitutePayload::QuestionsChanged { questions },
        ),
        ProstituteEvent::QuestionAdded { id, question } => (
            id,
            ProstitutePayload::QuestionAdded { question },
        ),
        ProstituteEvent::QuestionDeleted { id, index } => (
            id,
            ProstitutePayload::QuestionDeleted { index },
        ),
        ProstituteEvent::QuestionSwapped { id, index_a, index_b } => (
            id,
            ProstitutePayload::QuestionSwapped { index_a, index_b },
        ),
        ProstituteEvent::ImagesChanged { id, media_ids } => (
            id,
            ProstitutePayload::ImagesChanged { media_ids },
        ),
        ProstituteEvent::ImageAdded { id, media_id } => (
            id,
            ProstitutePayload::ImageAdded { media_id },
        ),
        ProstituteEvent::ImageDeleted { id, media_id } => (
            id,
            ProstitutePayload::ImageDeleted { media_id },
        ),
        ProstituteEvent::ImageSwapped { id, media_id_a, media_id_b } => (
            id,
            ProstitutePayload::ImageSwapped { media_id_a, media_id_b },
        ),
        ProstituteEvent::VideoChanged { id, media_id } => (
            id,
            ProstitutePayload::VideoChanged { media_id },
        ),
        ProstituteEvent::Deleted { id } => (id, ProstitutePayload::Deleted),
    };
    let stream = stream_name(EntityKind::Prostitute, id.0);
    let event_type = prostitute_tag(&payload).to_owned();
    EventEnvelope { stream, event_type, payload }
}

/// What decoding a prostitute record yields.
pub open spec fn decode_prostitute_spec(
    stream: Seq<char>,
    event_type: Seq<char>,
    p: ProstitutePayload,
) -> Result<ProstituteEvent, EventConvertError> {
    match split_stream(EntityKind::Prostitute, stream) {
        None => Err(EventConvertError),
        Some(id) => {
            if event_type == prostitute_tag_text(p) {
                Ok(prostitute_assemble(id, p))
            } else {
                Err(EventConvertError)
            }
        },
    }
}

/// Decodes a prostitute record.
pub fn decode_prostitute(stream: &str, event_type: &str, payload: ProstitutePayload) -> (r: Result<
    ProstituteEvent,
    EventConvertError,
>)
    ensures
        r == decode_prostitute_spec(stream@, event_type@, payload),
{
    let id = match parse_stream_id(EntityKind::Prostitute, stream) {
        Some(id) => id,
        None => {
            return Err(EventConvertError);
        },
    };
    if !text::str_eq(event_type, prostitute_tag(&payload)) {
        return Err(EventConvertError);
    }
    let pid = ProstituteId(id);
    Ok(
        match payload {
            ProstitutePayload::Joined {
                name,
                catchphrase,
                profile,
                message,
                figure,
                blood,
                birthday,
                questions,
                images,
                video,
            } => ProstituteEvent::Joined {
                id: pid,
                name,
                catchphrase,
                profile,
                message,
                figure,
                blood,
                birthday,
                questions,
                images,
                video,
            },
            ProstitutePayload::Rejoined => ProstituteEvent::Rejoined { id: pid },
            ProstitutePayload::Leaved => ProstituteEvent::Leaved { id: pid },
            ProstitutePayload::NameChanged { name } => ProstituteEvent::NameChanged {
                id: pid,
                name,
            },
            ProstitutePayload::CatchphraseChanged { catchphrase } => {
                ProstituteEvent::CatchphraseChanged { id: pid, catchphrase }
            },
            ProstitutePayload::ProfileChanged { profile } => ProstituteEvent::ProfileChanged {
                id: pid,
                profile,
            },
            ProstitutePayload::MessageChanged { message } => ProstituteEvent::MessageChanged {
                id: pid,
                message,
            },
            ProstitutePayload::FigureChanged { figure } => ProstituteEvent::FigureChanged {
                id: pid,
                figure,
            },
            ProstitutePayload::BloodTypeChanged { blood } => ProstituteEvent::BloodTypeChanged {
                id: pid,
                blood,
            },
            ProstitutePayload::BirthdayChanged { birthday } => ProstituteEvent::BirthdayChanged {
                id: pid,
                birthday,
            },
            ProstitutePayload::QuestionsChanged { questions } => ProstituteEvent::QuestionsChanged {
                id: pid,
                questions,
            },
            ProstitutePayload::QuestionAdded { question } => ProstituteEvent::QuestionAdded {
                id: pid,
                question,
            },
            ProstitutePayload::QuestionDeleted { index } => ProstituteEvent::QuestionDeleted {
                id: pid,
                index,
            },
            ProstitutePayload::QuestionSwapped { index_a, index_b } => {
                ProstituteEvent::QuestionSwapped { id: pid, index_a, index_b }
            },
            ProstitutePayload::ImagesChanged { media_ids } => ProstituteEvent::ImagesChanged {
                id: pid,
                media_ids,
            },
            ProstitutePayload::ImageAdded { media_id } => ProstituteEvent::ImageAdded {
                id: pid,
                media_id,
            },
            ProstitutePayload::ImageDeleted { media_id } => ProstituteEvent::ImageDeleted {
                id: pid,
                media_id,
            },
            ProstitutePayload::ImageSwapped { media_id_a, media_id_b } => {
                ProstituteEvent::ImageSwapped { id: pid, media_id_a, media_id_b }
            },
            ProstitutePayload::VideoChanged { media_id } => ProstituteEvent::VideoChanged {
                id: pid,
                media_id,
            },
            ProstitutePayload::Deleted => ProstituteEvent::Deleted { id: pid },
        },
    )
}

/// Round trip for prostitute events.
pub proof fn lemma_prostitute_roundtrip(e: ProstituteEvent)
    ensures
        decode_prostitute_spec(
            stream_text(EntityKind::Prostitute, prostitute_event_id(e).0),
            prostitute_tag_text(prostitute_payload_of(e)),
            prostitute_payload_of(e),
        ) == Ok::<ProstituteEvent, EventConvertError>(e),
{
    lemma_stream_roundtrip(EntityKind::Prostitute, prostitute_event_id(e).0);
}

/// The payload of a schedule event. Shift events carry no schedule id of
/// their own; the schedule id travels in the stream name.
#[derive(Debug, PartialEq, Eq)]
pub enum SchedulePayload {
    ScheduleCreated { prostitute_id: ProstituteId },
    ScheduleDeleted,
    ShiftAdded { shift: Shift },
    ShiftTimeChanged { shift_id: ShiftId, time: TimeInterval },
    ShiftStatusChanged { shift_id: ShiftId, status: ShiftStatus },
    ShiftsDeleted { shift_ids: Vec<ShiftId> },
}

/// The payload of a schedule event.
pub open spec fn schedule_payload_of(e: ScheduleEvent) -> SchedulePayload {
    match e {
        ScheduleEvent::ScheduleCreated { prostitute_id, .. } => SchedulePayload::ScheduleCreated {
            prostitute_id,
        },
        ScheduleEvent::ScheduleDeleted { .. } => SchedulePayload::ScheduleDeleted,
        ScheduleEvent::ShiftAdded { shift, .. } => SchedulePayload::ShiftAdded { shift },
        ScheduleEvent::ShiftTimeChanged { shift_id, time } => SchedulePayload::ShiftTimeChanged {
            shift_id,
            time,
        },
        ScheduleEvent::ShiftStatusChanged { shift_id, status } => {
            SchedulePayload::ShiftStatusChanged { shift_id, status }
        },
        ScheduleEvent::ShiftsDeleted { shift_ids } => SchedulePayload::ShiftsDeleted { shift_ids },
    }
}

/// The event a schedule payload reassembles to under a recovered id.
pub open spec fn schedule_assemble(id: u64, p: SchedulePayload) -> ScheduleEvent {
    match p {
        SchedulePayload::ScheduleCreated { prostitute_id } => ScheduleEvent::ScheduleCreated {
            id: ScheduleId(id),
            prostitute_id,
        },
        SchedulePayload::ScheduleDeleted => ScheduleEvent::ScheduleDeleted { id: ScheduleId(id) },
        SchedulePayload::ShiftAdded { shift } => ScheduleEvent::ShiftAdded {
            id: ScheduleId(id),
            shift,
        },
        SchedulePayload::ShiftTimeChanged { shift_id, time } => ScheduleEvent::ShiftTimeChanged {
            shift_id,
            time,
        },
        SchedulePayload::ShiftStatusChanged { shift_id, status } => {
            ScheduleEvent::ShiftStatusChanged { shift_id, status }
        },
        SchedulePayload::ShiftsDeleted { shift_ids } => ScheduleEvent::ShiftsDeleted { shift_ids },
    }
}

/// The event type tag of a schedule payload.
pub open spec fn schedule_tag_text(p: SchedulePayload) -> Seq<char> {
    match p {
        SchedulePayload::ScheduleCreated { .. } => "ScheduleCreated"@,
        SchedulePayload::ScheduleDeleted => "ScheduleDeleted"@,
        SchedulePayload::ShiftAdded { .. } => "ShiftAdded"@,
        SchedulePayload::ShiftTimeChanged { .. } => "ShiftTimeChanged"@,
        SchedulePayload::ShiftStatusChanged { .. } => "ShiftStatusChanged"@,
        SchedulePayload::ShiftsDeleted { .. } => "ShiftsDeleted"@,
    }
}

/// The event type tag of a schedule payload.
pub fn schedule_tag(p: &SchedulePayload) -> (r: &'static str)
    ensures
        r@ == schedule_tag_text(*p),
{
    match p {
        SchedulePayload::ScheduleCreated { .. } => "ScheduleCreated",
        SchedulePayload::ScheduleDeleted => "ScheduleDeleted",
        SchedulePayload::ShiftAdded { .. } => "ShiftAdded",
        SchedulePayload::ShiftTimeChanged { .. } => "ShiftTimeChanged",
        SchedulePayload::ShiftStatusChanged { .. } => "ShiftStatusChanged",
        SchedulePayload::ShiftsDeleted { .. } => "ShiftsDeleted",
    }
}

/// Splits a schedule event into its log record parts. The shift events
/// carry no schedule id, so the owning schedule's id is passed alongside.
pub fn encode_schedule(schedule_id: ScheduleId, e: ScheduleEvent) -> (env: EventEnvelope<
    SchedulePayload,
>)
    ensures
        env.stream@ == stream_text(EntityKind::Schedule, schedule_id.0),
        env.event_type@ == schedule_tag_text(schedule_payload_of(e)),
        env.payload == schedule_payload_of(e),
{
    let payload = match e {
        ScheduleEvent::ScheduleCreated { prostitute_id, .. } => SchedulePayload::ScheduleCreated {
            prostitute_id,
        },
        ScheduleEvent::ScheduleDeleted { .. } => SchedulePayload::ScheduleDeleted,
        ScheduleEvent::ShiftAdded { shift, .. } => SchedulePayload::ShiftAdded { shift },
        ScheduleEvent::ShiftTimeChanged { shift_id, time } => SchedulePayload::ShiftTimeChanged {
            shift_id,
            time,
        },
        ScheduleEvent::ShiftStatusChanged { shift_id, status } => {
            SchedulePayload::ShiftStatusChanged { shift_id, status }
        },
        ScheduleEvent::ShiftsDeleted { shift_ids } => SchedulePayload::ShiftsDeleted { shift_ids },
    };
    let stream = stream_name(EntityKind::Schedule, schedule_id.0);
    let event_type = schedule_tag(&payload).to_owned();
    EventEnvelope { stream, event_type, payload }
}

/// What decoding a schedule record yields.
pub open spec fn decode_schedule_spec(
    stream: Seq<char>,
    event_type: Seq<char>,
    p: SchedulePayload,
) -> Result<ScheduleEvent, EventConvertError> {
    match split_stream(EntityKind::Schedule, stream) {
        None => Err(EventConvertError),
        Some(id) => {
            if event_type == schedule_tag_text(p) {
                Ok(schedule_assemble(id, p))
            } else {
                Err(EventConvertError)
            }
        },
    }
}

/// Decodes a schedule record.
pub fn decode_schedule(stream: &str, event_type: &str, payload: SchedulePayload) -> (r: Result<
    ScheduleEvent,
    EventConvertError,
>)
    ensures
        r == decode_schedule_spec(stream@, event_type@, payload),
{
    let id = match parse_stream_id(EntityKind::Schedule, stream) {
        Some(id) => id,
        None => {
            return Err(EventConvertError);
        },
    };
    if !text::str_eq(event_type, schedule_tag(&payload)) {
        return Err(EventConvertError);
    }
    Ok(
        match payload {
            SchedulePayload::ScheduleCreated { prostitute_id } => ScheduleEvent::ScheduleCreated {
                id: ScheduleId(id),
                prostitute_id,
            },
            SchedulePayload::ScheduleDeleted => ScheduleEvent::ScheduleDeleted {
                id: ScheduleId(id),
            },
            SchedulePayload::ShiftAdded { shift } => ScheduleEvent::ShiftAdded {
                id: ScheduleId(id),
                shift,
            },
            SchedulePayload::ShiftTimeChanged { shift_id, time } => {
                ScheduleEvent::ShiftTimeChanged { shift_id, time }
            },
            SchedulePayload::ShiftStatusChanged { shift_id, status } => {
                ScheduleEvent::ShiftStatusChanged { shift_id, status }
            },
            SchedulePayload::ShiftsDeleted { shift_ids } => ScheduleEvent::ShiftsDeleted {
                shift_ids,
            },
        },
    )
}

/// Round trip for schedule events: decoding what an event encodes to, for
/// the schedule whose id the creation and shift-addition events carry,
/// yields the event again.
pub proof fn lemma_schedule_roundtrip(schedule_id: ScheduleId, e: ScheduleEvent)
    requires
        match e {
            ScheduleEvent::ScheduleCreated { id, .. } => id == schedule_id,
            ScheduleEvent::ScheduleDeleted { id } => id == schedule_id,
            ScheduleEvent::ShiftAdded { id, .. } => id == schedule_id,
            _ => true,
        },
    ensures
        decode_schedule_spec(
            stream_text(EntityKind::Schedule, schedule_id.0),
            schedule_tag_text(schedule_payload_of(e)),
            schedule_payload_of(e),
        ) == Ok::<ScheduleEvent, EventConvertError>(e),
{
    lemma_stream_roundtrip(EntityKind::Schedule, schedule_id.0);
}

/// The events the projection worker consumes, over all entity kinds.
#[derive(Debug, PartialEq, Eq)]
pub enum CoreEvent {
    ExtraServiceEvent(ExtraServiceEvent),
    MediaEvent(MediaEvent),
    ProstituteEvent(ProstituteEvent),
    ScheduleEvent(ScheduleEvent),
}

} // verus!
