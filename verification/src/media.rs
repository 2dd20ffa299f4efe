//! The media aggregate: a binary blob whose media type is derived by
//! sniffing the content at creation.
//!
//! A blob is accepted only when it is non-empty and recognizable as JPEG,
//! PNG, GIF, WebP or an MP4 with a video track. Format recognition calls
//! the `image` and `mp4parse` crates through trusted wrappers; the decision
//! tree over their answers is verified.

use vstd::prelude::*;
use image::ImageDecoder;
use crate::queue::EventQueue;
use crate::text;

verus! {

/// Identifier of a media blob.
#[derive(Clone, Copy, Debug, PartialEq, Eq, Hash, Structural)]
pub struct MediaId(pub u64);

impl Default for MediaId {
    /// The zero id, used only by default-constructed aggregates.
    fn default() -> (r: Self)
        ensures
            r == MediaId(0),
    {
        MediaId(0)
    }
}

/// The media types this service stores, plus the wildcard default.
#[derive(Clone, Copy, Debug, PartialEq, Eq, Hash, Structural)]
pub enum Mime {
    /// `*/*`, the default before any content is known.
    Star,
    /// `image/jpeg`
    ImageJpeg,
    /// `image/png`
    ImagePng,
    /// `image/gif`
    ImageGif,
    /// `image/webp`
    ImageWebp,
    /// `video/mp4`
    VideoMp4,
}

/// The text form of each media type.
pub open spec fn mime_text(m: Mime) -> Seq<char> {
    match m {
        Mime::Star => "*/*"@,
        Mime::ImageJpeg => "image/jpeg"@,
        Mime::ImagePng => "image/png"@,
        Mime::ImageGif => "image/gif"@,
        Mime::ImageWebp => "image/webp"@,
        Mime::VideoMp4 => "video/mp4"@,
    }
}

impl Mime {
    /// The media type as text, e.g. `image/jpeg`.
    pub fn as_str(&self) -> (r: &'static str)
        ensures
            r@ == mime_text(*self),
    {
        match self {
            Mime::Star => "*/*",
            Mime::ImageJpeg => "image/jpeg",
            Mime::ImagePng => "image/png",
            Mime::ImageGif => "image/gif",
            Mime::ImageWebp => "image/webp",
            Mime::VideoMp4 => "video/mp4",
        }
    }

    /// Reads a media type back from its text form; `None` for any other
    /// string.
    pub fn parse(s: &str) -> (r: Option<Mime>)
        ensures
            match r {
                Some(m) => s@ == mime_text(m),
                None => forall|m: Mime| s@ != mime_text(m),
            },
    {
        if text::str_eq(s, "*/*") {
            Some(Mime::Star)
        } else if text::str_eq(s, "image/jpeg") {
            Some(Mime::ImageJpeg)
        } else if text::str_eq(s, "image/png") {
            Some(Mime::ImagePng)
        } else if text::str_eq(s, "image/gif") {
            Some(Mime::ImageGif)
        } else if text::str_eq(s, "image/webp") {
            Some(Mime::ImageWebp)
        } else if text::str_eq(s, "video/mp4") {
            Some(Mime::VideoMp4)
        } else {
            assert forall|m: Mime| s@ != mime_text(m) by {
                match m {
                    Mime::Star => assert(s@ != mime_text(m)),
                    Mime::ImageJpeg => assert(s@ != mime_text(m)),
                    Mime::ImagePng => assert(s@ != mime_text(m)),
                    Mime::ImageGif => assert(s@ != mime_text(m)),
                    Mime::ImageWebp => assert(s@ != mime_text(m)),
                    Mime::VideoMp4 => assert(s@ != mime_text(m)),
                }
            }
            None
        }
    }
}

impl Default for Mime {
    /// The wildcard type.
    fn default() -> (r: Mime)
        ensures
            r == Mime::Star,
    {
        Mime::Star
    }
}

/// The image container formats the signature sniffer can recognize.
#[derive(Clone, Copy, Debug, PartialEq, Eq, Structural)]
pub enum ImageKind {
    Jpeg,
    Png,
    Gif,
    WebP,
}

/// What `image::guess_format` answers on these bytes, reduced to the four
/// formats the service accepts.
pub uninterp spec fn guess_of(bytes: Seq<u8>) -> Option<ImageKind>;

/// The header dimensions a JPEG decoder reports for these bytes, `None`
/// when it rejects them.
pub uninterp spec fn jpeg_dims_of(bytes: Seq<u8>) -> Option<(u32, u32)>;

/// The header dimensions a PNG decoder reports for these bytes.
pub uninterp spec fn png_dims_of(bytes: Seq<u8>) -> Option<(u32, u32)>;

/// The header dimensions a GIF decoder reports for these bytes.
pub uninterp spec fn gif_dims_of(bytes: Seq<u8>) -> Option<(u32, u32)>;

/// The header dimensions a WebP decoder reports for these bytes.
pub uninterp spec fn webp_dims_of(bytes: Seq<u8>) -> Option<(u32, u32)>;

/// Whether these bytes parse as an MP4 container with a video track.
pub uninterp spec fn mp4_video_of(bytes: Seq<u8>) -> bool;

/// Relies on `image::guess_format`: detects the container format from the
/// magic bytes alone, a function of the bytes.
#[verifier::external_body]
fn guess_image_kind(data: &[u8]) -> (r: Option<ImageKind>)
    ensures
        r == guess_of(data@),
{
    match image::guess_format(data) {
        Ok(image::ImageFormat::Jpeg) => Some(ImageKind::Jpeg),
        Ok(image::ImageFormat::Png) => Some(ImageKind::Png),
        Ok(image::ImageFormat::Gif) => Some(ImageKind::Gif),
        Ok(image::ImageFormat::WebP) => Some(ImageKind::WebP),
        _ => None,
    }
}

/// Relies on `image::codecs::jpeg::JpegDecoder::new` and
/// `ImageDecoder::dimensions`: reads the header dimensions, a function of
/// the bytes.
#[verifier::external_body]
fn jpeg_dimensions(data: &[u8]) -> (r: Option<(u32, u32)>)
    ensures
        r == jpeg_dims_of(data@),
{
    match image::codecs::jpeg::JpegDecoder::new(std::io::Cursor::new(data)) {
        Ok(d) => Some(d.dimensions()),
        Err(_) => None,
    }
}

/// Relies on `image::codecs::png::PngDecoder::new` and
/// `ImageDecoder::dimensions`: reads the header dimensions, a function of
/// the bytes.
#[verifier::external_body]
fn png_dimensions(data: &[u8]) -> (r: Option<(u32, u32)>)
    ensures
        r == png_dims_of(data@),
{
    match image::codecs::png::PngDecoder::new(std::io::Cursor::new(data)) {
        Ok(d) => Some(d.dimensions()),
        Err(_) => None,
    }
}

/// Relies on `image::codecs::gif::GifDecoder::new` and
/// `ImageDecoder::dimensions`: reads the header dimensions, a function of
/// the bytes.
#[verifier::external_body]
fn gif_dimensions(data: &[u8]) -> (r: Option<(u32, u32)>)
    ensures
        r == gif_dims_of(data@),
{
    match image::codecs::gif::GifDecoder::new(std::io::Cursor::new(data)) {
        Ok(d) => Some(d.dimensions()),
        Err(_) => None,
    }
}

/// Relies on `image::codecs::webp::WebPDecoder::new` and
/// `ImageDecoder::dimensions`: reads the header dimensions, a function of
/// the bytes.
#[verifier::external_body]
fn webp_dimensions(data: &[u8]) -> (r: Option<(u32, u32)>)
    ensures
        r == webp_dims_of(data@),
{
    match image::codecs::webp::WebPDecoder::new(std::io::Cursor::new(data)) {
        Ok(d) => Some(d.dimensions()),
        Err(_) => None,
    }
}

/// Relies on `mp4parse::read_mp4`: parses the container and lists its
/// tracks, a function of the bytes.
#[verifier::external_body]
fn mp4_has_video(data: &[u8]) -> (r: bool)
    ensures
        r == mp4_video_of(data@),
{
    match mp4parse::read_mp4(&mut std::io::Cursor::new(data)) {
        Ok(ctx) => ctx.tracks.iter().any(
            |t| matches!(t.track_type, mp4parse::TrackType::Video),
        ),
        Err(_) => false,
    }
}

/// Both header dimensions are positive.
pub open spec fn dims_positive(d: Option<(u32, u32)>) -> bool {
    match d {
        Some(wh) => wh.0 > 0 && wh.1 > 0,
        None => false,
    }
}

/// The decision over the sniffing answers: a guessed image format counts
/// only if its decoder reports positive dimensions; bytes no image format
/// claims count as MP4 video if the container parser finds a video track.
pub open spec fn resolve_sniff_spec(
    guess: Option<ImageKind>,
    dims: Option<(u32, u32)>,
    mp4_video: bool,
) -> Option<Mime> {
    match guess {
        Some(ImageKind::Jpeg) => if dims_positive(dims) {
            Some(Mime::ImageJpeg)
        } else {
            None
        },
        Some(ImageKind::Png) => if dims_positive(dims) {
            Some(Mime::ImagePng)
        } else {
            None
        },
        Some(ImageKind::Gif) => if dims_positive(dims) {
            Some(Mime::ImageGif)
        } else {
            None
        },
        Some(ImageKind::WebP) => if dims_positive(dims) {
            Some(Mime::ImageWebp)
        } else {
            None
        },
        None => if mp4_video {
            Some(Mime::VideoMp4)
        } else {
            None
        },
    }
}

/// Decides the media type from the sniffing answers; `guess` is the
/// guessed image format, `dims` the dimensions that format's decoder
/// reported, and `mp4_video` whether the bytes hold an MP4 video track.
pub fn resolve_sniff(guess: Option<ImageKind>, dims: Option<(u32, u32)>, mp4_video: bool) -> (r:
    Option<Mime>)
    ensures
        r == resolve_sniff_spec(guess, dims, mp4_video),
{
    match guess {
        Some(kind) => {
            let ok = match dims {
                Some((w, h)) => w > 0 && h > 0,
                None => false,
            };
            if !ok {
                None
            } else {
                match kind {
                    ImageKind::Jpeg => Some(Mime::ImageJpeg),
                    ImageKind::Png => Some(Mime::ImagePng),
                    ImageKind::Gif => Some(Mime::ImageGif),
                    ImageKind::WebP => Some(Mime::ImageWebp),
                }
            }
        },
        None => if mp4_video {
            Some(Mime::VideoMp4)
        } else {
            None
        },
    }
}

/// What sniffing decides for these bytes.
pub open spec fn sniff_spec(bytes: Seq<u8>) -> Option<Mime> {
    resolve_sniff_spec(guess_of(bytes), guessed_dims_of(bytes), mp4_video_of(bytes))
}

/// The dimensions reported by the decoder of the guessed format.
pub open spec fn guessed_dims_of(bytes: Seq<u8>) -> Option<(u32, u32)> {
    match guess_of(bytes) {
        Some(ImageKind::Jpeg) => jpeg_dims_of(bytes),
        Some(ImageKind::Png) => png_dims_of(bytes),
        Some(ImageKind::Gif) => gif_dims_of(bytes),
        Some(ImageKind::WebP) => webp_dims_of(bytes),
        None => None,
    }
}

/// Sniffs the media type of `data`.
pub fn sniff(data: &[u8]) -> (r: Option<Mime>)
    ensures
        r == sniff_spec(data@),
{
    let guess = guess_image_kind(data);
    let dims: Option<(u32, u32)> = match &guess {
        Some(ImageKind::Jpeg) => jpeg_dimensions(data),
        Some(ImageKind::Png) => png_dimensions(data),
        Some(ImageKind::Gif) => gif_dimensions(data),
        Some(ImageKind::WebP) => webp_dimensions(data),
        None => None,
    };
    let mp4_video = match &guess {
        Some(_) => false,
        None => mp4_has_video(data),
    };
    resolve_sniff(guess, dims, mp4_video)
}

/// Events of the media aggregate.
#[derive(Clone, Debug, PartialEq, Eq)]
pub enum MediaEvent {
    /// The blob was stored. Establishes the aggregate's identity; on the
    /// wire the body is the raw bytes and the media type rides in the
    /// record metadata.
    MediaCreated { id: MediaId, mime: Mime, data: Vec<u8> },
    /// The blob was removed; emitted as a tombstone before stream deletion.
    MediaDeleted { id: MediaId },
}

/// Validation failures of media commands.
#[derive(Clone, Copy, Debug, PartialEq, Eq, Structural)]
pub enum MediaError {
    /// The event names another aggregate.
    MismatchedId,
    /// The blob is empty.
    DataIsEmpty,
    /// The blob is not a recognizable image or MP4 video.
    UnsupportedFormat,
}

/// The state of a media aggregate, event queue left out.
pub struct MediaState {
    pub id: MediaId,
    pub mime: Mime,
    pub data: Seq<u8>,
}

/// The state of a default-constructed aggregate, before any event.
pub open spec fn media_default_state() -> MediaState {
    MediaState { id: MediaId(0), mime: Mime::Star, data: Seq::empty() }
}

/// What `validate` decides: creation demands non-empty, recognizable
/// bytes; deletion must carry the aggregate's id.
pub open spec fn media_validate(s: MediaState, e: MediaEvent) -> Result<(), MediaError> {
    match e {
        MediaEvent::MediaCreated { data, .. } => {
            if data@.len() == 0 {
                Err(MediaError::DataIsEmpty)
            } else if sniff_spec(data@) is None {
                Err(MediaError::UnsupportedFormat)
            } else {
                Ok(())
            }
        },
        MediaEvent::MediaDeleted { id } => {
            if id != s.id {
                Err(MediaError::MismatchedId)
            } else {
                Ok(())
            }
        },
    }
}

/// What `apply` does to the state. The media type is re-derived from the
/// bytes, so stored metadata can never contradict the content; bytes that
/// sniffing rejects leave the state unchanged, which the validated command
/// path never reaches.
pub open spec fn media_step(s: MediaState, e: MediaEvent) -> MediaState {
    match e {
        MediaEvent::MediaCreated { id, data, .. } => {
            match sniff_spec(data@) {
                Some(m) => MediaState { id, mime: m, data: data@ },
                None => s,
            }
        },
        MediaEvent::MediaDeleted { .. } => s,
    }
}

/// The state reached by applying `es` in order, oldest first, to `s`.
pub open spec fn media_replay(s: MediaState, es: Seq<MediaEvent>) -> MediaState
    decreases es.len(),
{
    if es.len() == 0 {
        s
    } else {
        media_replay(media_step(s, es[0]), es.drop_first())
    }
}

/// A run of successful commands from `s0` to `sn`.
pub open spec fn media_trace(s0: MediaState, es: Seq<MediaEvent>, sn: MediaState) -> bool
    decreases es.len(),
{
    if es.len() == 0 {
        sn == s0
    } else {
        media_validate(s0, es[0]) is Ok && media_trace(media_step(s0, es[0]), es.drop_first(), sn)
    }
}

/// Replay fidelity: a fresh aggregate fed the events a run of successful
/// commands emitted, oldest first, reaches the state those commands built.
pub proof fn lemma_replay_fidelity(s0: MediaState, es: Seq<MediaEvent>, sn: MediaState)
    requires
        media_trace(s0, es, sn),
    ensures
        sn == media_replay(s0, es),
    decreases es.len(),
{
    if es.len() > 0 {
        lemma_replay_fidelity(media_step(s0, es[0]), es.drop_first(), sn);
    }
}

/// The aggregate's invariant: once created, the bytes are non-empty and
/// the media type is exactly what sniffing derives from them.
pub open spec fn media_inv(s: MediaState) -> bool {
    s.id != MediaId(0) ==> s.data.len() > 0 && sniff_spec(s.data) == Some(s.mime)
}

/// Validated events keep the invariant.
pub proof fn lemma_validate_preserves_inv(s: MediaState, e: MediaEvent)
    requires
        media_inv(s),
        media_validate(s, e) is Ok,
    ensures
        media_inv(media_step(s, e)),
{
}

/// Every state a run of successful commands reaches satisfies the
/// invariant.
pub proof fn lemma_trace_preserves_inv(s0: MediaState, es: Seq<MediaEvent>, sn: MediaState)
    requires
        media_inv(s0),
        media_trace(s0, es, sn),
    ensures
        media_inv(sn),
    decreases es.len(),
{
    if es.len() > 0 {
        lemma_validate_preserves_inv(s0, es[0]);
        lemma_trace_preserves_inv(media_step(s0, es[0]), es.drop_first(), sn);
    }
}

/// Id coherence: a non-creation event whose id differs from the state's is
/// rejected with `MismatchedId`.
pub proof fn lemma_id_coherence(s: MediaState, e: MediaEvent)
    requires
        !(e is MediaCreated),
        match e {
            MediaEvent::MediaDeleted { id } => id != s.id,
            _ => false,
        },
    ensures
        media_validate(s, e) == Err::<(), MediaError>(MediaError::MismatchedId),
{
}

/// A stored media blob.
#[derive(Debug)]
pub struct Media {
    pub id: MediaId,
    pub mime: Mime,
    pub data: Vec<u8>,
    pub events: EventQueue<MediaEvent>,
}

impl Media {
    /// The abstract state: the fields without the event queue.
    pub open spec fn state(&self) -> MediaState {
        MediaState { id: self.id, mime: self.mime, data: self.data@ }
    }

    /// Stores a new blob. Fails with `DataIsEmpty` on empty bytes and
    /// `UnsupportedFormat` on bytes sniffing rejects; otherwise the media
    /// type is the sniffed one and the creation event is queued.
    pub fn create(id: MediaId, data: Vec<u8>) -> (r: Result<Self, MediaError>)
        ensures
            match r {
                Ok(a) => data@.len() > 0 && sniff_spec(data@) == Some(a.mime) && a.state() == (
                MediaState { id, mime: a.mime, data: data@ }) && a.events@ =~= seq![
                    MediaEvent::MediaCreated { id, mime: a.mime, data },
                ],
                Err(e) => (e == MediaError::DataIsEmpty && data@.len() == 0) || (e
                    == MediaError::UnsupportedFormat && data@.len() > 0 && sniff_spec(data@)
                    is None),
            },
    {
        if data.len() == 0 {
            return Err(MediaError::DataIsEmpty);
        }
        let mime = match sniff(data.as_slice()) {
            Some(m) => m,
            None => {
                return Err(MediaError::UnsupportedFormat);
            },
        };
        let mut entity = Media { id, mime, data: crate::queue::clone_vec(&data), events: EventQueue::new() };
        entity.events.push(MediaEvent::MediaCreated { id, mime, data });
        Ok(entity)
    }

    /// The aggregate's id.
    pub fn id(&self) -> (r: MediaId)
        ensures
            r == self.id,
    {
        self.id
    }

    /// The sniffed media type.
    pub fn mime(&self) -> (r: &Mime)
        ensures
            r == &self.mime,
    {
        &self.mime
    }

    /// The stored bytes.
    pub fn data(&self) -> (r: &Vec<u8>)
        ensures
            r == &self.data,
    {
        &self.data
    }

    /// Decides whether `event` may be applied to the current state.
    pub fn validate(&self, event: &MediaEvent) -> (r: Result<(), MediaError>)
        ensures
            r == media_validate(self.state(), *event),
    {
        match event {
            MediaEvent::MediaCreated { data, .. } => {
                if data.len() == 0 {
                    Err(MediaError::DataIsEmpty)
                } else if sniff(data.as_slice()).is_none() {
                    Err(MediaError::UnsupportedFormat)
                } else {
                    Ok(())
                }
            },
            MediaEvent::MediaDeleted { id } => {
                if id.0 != self.id.0 {
                    Err(MediaError::MismatchedId)
                } else {
                    Ok(())
                }
            },
        }
    }

    /// Applies `event` to the state and appends it to the queue. Total;
    /// the media type of a stored blob is re-derived from the bytes.
    pub fn apply(&mut self, event: MediaEvent)
        ensures
            final(self).state() == media_step(old(self).state(), event),
            final(self).events@ == old(self).events@.push(event),
    {
        match &event {
            MediaEvent::MediaCreated { id, data, .. } => {
                match sniff(data.as_slice()) {
                    Some(m) => {
                        self.id = *id;
                        self.mime = m;
                        self.data = crate::queue::clone_vec(data);
                    },
                    None => {},
                }
            },
            MediaEvent::MediaDeleted { .. } => {},
        }
        self.events.push(event);
    }

    /// Reconstitutes an aggregate from its stored stream; `None` exactly
    /// when the stream is empty.
    pub fn replay(events: Vec<MediaEvent>) -> (r: Option<Self>)
        ensures
            match r {
                Some(a) => events@.len() > 0 && a.state() == media_replay(
                    media_default_state(),
                    events@,
                ) && a.events@.len() == 0,
                None => events@.len() == 0,
            },
    {
        if events.len() == 0 {
            return None;
        }
        let ghost all = events@;
        let mut events = events;
        let mut entity = Media::default();
        while events.len() > 0
            invariant
                media_replay(media_default_state(), all) == media_replay(entity.state(), events@),
            decreases events@.len(),
        {
            let ghost before = events@;
            let event = events.remove(0);
            proof {
                assert(events@ =~= before.drop_first());
            }
            entity.apply(event);
        }
        entity.events.clear();
        Some(entity)
    }
}

impl Default for Media {
    /// A blank aggregate, the starting point of replay.
    fn default() -> (r: Self)
        ensures
            r.state() == media_default_state(),
            r.events@.len() == 0,
    {
        let r = Media {
            id: MediaId(0),
            mime: Mime::Star,
            data: Vec::new(),
            events: EventQueue::new(),
        };
        proof {
            assert(r.state().data =~= Seq::<u8>::empty());
        }
        r
    }
}

} // verus!
