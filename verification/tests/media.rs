use dely::media::{ImageKind, Media, MediaError, MediaEvent, MediaId, Mime, resolve_sniff};

const GIF_BYTES: &[u8] = b"\x47\x49\x46\x38\x39\x61\x01\x00\x01\x00\xF0\x00\x00\xFF\xFF\xFF\x00\x00\x00\x2C\x00\x00\x00\x00\x01\x00\x01\x00\x00\x02\x02\x44\x01\x00\x3B";

// A 1x1 black pixel PNG.
const PNG_BYTES: &[u8] = &[
    0x89, 0x50, 0x4E, 0x47, 0x0D, 0x0A, 0x1A, 0x0A, 0x00, 0x00, 0x00, 0x0D, 0x49, 0x48, 0x44,
    0x52, 0x00, 0x00, 0x00, 0x01, 0x00, 0x00, 0x00, 0x01, 0x08, 0x00, 0x00, 0x00, 0x00, 0x3A,
    0x7E, 0x9B, 0x55, 0x00, 0x00, 0x00, 0x0A, 0x49, 0x44, 0x41, 0x54, 0x78, 0x9C, 0x63, 0x60,
    0x00, 0x00, 0x00, 0x02, 0x00, 0x01, 0x73, 0x75, 0x01, 0x18, 0x00, 0x00, 0x00, 0x00, 0x49,
    0x45, 0x4E, 0x44, 0xAE, 0x42, 0x60, 0x82,
];

#[test]
fn media_create_sniffs_gif() {
    let media = Media::create(MediaId(1), GIF_BYTES.to_vec()).unwrap();
    assert_eq!(media.id(), MediaId(1));
    assert_eq!(media.mime(), &Mime::ImageGif);
    assert_eq!(media.data().as_slice(), GIF_BYTES);
}

#[test]
fn media_create_sniffs_png() {
    let media = Media::create(MediaId(2), PNG_BYTES.to_vec()).unwrap();
    assert_eq!(media.mime(), &Mime::ImagePng);
}

#[test]
fn media_create_rejects_empty_and_garbage() {
    assert_eq!(Media::create(MediaId(1), Vec::new()).err(), Some(MediaError::DataIsEmpty));
    assert_eq!(
        Media::create(MediaId(1), b"not an image at all".to_vec()).err(),
        Some(MediaError::UnsupportedFormat)
    );
    // A GIF signature with a broken header sniffs as GIF but fails to
    // decode, so it is rejected too.
    assert_eq!(
        Media::create(MediaId(1), b"GIF89a".to_vec()).err(),
        Some(MediaError::UnsupportedFormat)
    );
}

#[test]
fn sniff_decision_table() {
    assert_eq!(
        resolve_sniff(Some(ImageKind::Jpeg), Some((10, 10)), false),
        Some(Mime::ImageJpeg)
    );
    assert_eq!(resolve_sniff(Some(ImageKind::Png), Some((0, 10)), false), None);
    assert_eq!(resolve_sniff(Some(ImageKind::Gif), None, true), None);
    assert_eq!(
        resolve_sniff(Some(ImageKind::WebP), Some((1, 1)), false),
        Some(Mime::ImageWebp)
    );
    assert_eq!(resolve_sniff(None, None, true), Some(Mime::VideoMp4));
    assert_eq!(resolve_sniff(None, None, false), None);
}

#[test]
fn mime_text_round_trip() {
    for mime in [
        Mime::Star,
        Mime::ImageJpeg,
        Mime::ImagePng,
        Mime::ImageGif,
        Mime::ImageWebp,
        Mime::VideoMp4,
    ] {
        assert_eq!(Mime::parse(mime.as_str()), Some(mime));
    }
    assert_eq!(Mime::parse("text/plain"), None);
    assert_eq!(Mime::Star.as_str(), "*/*");
}

#[test]
fn media_validate_and_replay() {
    let media = Media::create(MediaId(5), GIF_BYTES.to_vec()).unwrap();
    assert_eq!(
        media.validate(&MediaEvent::MediaDeleted { id: MediaId(6) }),
        Err(MediaError::MismatchedId)
    );
    assert_eq!(media.validate(&MediaEvent::MediaDeleted { id: MediaId(5) }), Ok(()));

    let mut live = Media::create(MediaId(5), GIF_BYTES.to_vec()).unwrap();
    let history = live.events.pop_all();
    let replayed = Media::replay(history).unwrap();
    assert_eq!(replayed.id(), MediaId(5));
    assert_eq!(replayed.mime(), &Mime::ImageGif);
    assert_eq!(replayed.events.len(), 0);
}
