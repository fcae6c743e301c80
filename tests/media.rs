use sendtg::media::{
    accept_thumbnail, classify, determine_media_type, guess_mime_type, metadata_request, sniff_mime_type,
    ClassifyNote, MediaKind, MetadataRequest, PHOTO_MAX_BYTES,
};

#[test]
fn photo_just_over_the_limit_becomes_document() {
    let c = classify(Some("image/jpeg"), false, Some(10 * 1024 * 1024 + 1));
    assert_eq!(c.kind, MediaKind::Document);
    assert_eq!(c.note, ClassifyNote::Oversized);
}

#[test]
fn photo_at_the_limit_stays_photo() {
    let c = classify(Some("image/jpeg"), false, Some(10 * 1024 * 1024));
    assert_eq!(c.kind, MediaKind::Photo);
    assert_eq!(c.note, ClassifyNote::Plain);
    assert_eq!(PHOTO_MAX_BYTES, 10 * 1024 * 1024);
}

#[test]
fn photo_of_unknown_size_becomes_document() {
    let c = classify(Some("image/png"), false, None);
    assert_eq!(c.kind, MediaKind::Document);
    assert_eq!(c.note, ClassifyNote::SizeUnknown);
}

#[test]
fn as_file_forces_document() {
    let c = classify(Some("video/mp4"), true, Some(5));
    assert_eq!(c.kind, MediaKind::Document);
    assert_eq!(c.note, ClassifyNote::Plain);
}

#[test]
fn large_video_is_not_downgraded() {
    let c = classify(Some("video/mp4"), false, Some(PHOTO_MAX_BYTES * 5));
    assert_eq!(c.kind, MediaKind::Video);
}

#[test]
fn media_types_by_major_type() {
    assert_eq!(determine_media_type(Some("image/gif")), MediaKind::Photo);
    assert_eq!(determine_media_type(Some("video/webm")), MediaKind::Video);
    assert_eq!(determine_media_type(Some("audio/mpeg")), MediaKind::Audio);
    assert_eq!(determine_media_type(Some("application/pdf")), MediaKind::Document);
    assert_eq!(determine_media_type(Some("image")), MediaKind::Document);
    assert_eq!(determine_media_type(None), MediaKind::Document);
}

#[test]
fn metadata_requests_follow_the_mime_type() {
    assert_eq!(metadata_request(Some("video/mp4")), MetadataRequest::Video);
    assert_eq!(metadata_request(Some("image/png")), MetadataRequest::Photo);
    assert_eq!(metadata_request(Some("audio/ogg")), MetadataRequest::Nothing);
    assert_eq!(metadata_request(None), MetadataRequest::Nothing);
}

#[test]
fn thumbnails_are_capped() {
    assert_eq!(accept_thumbnail(Vec::new()), None);
    assert_eq!(accept_thumbnail(vec![1u8; 200_000]), Some(vec![1u8; 200_000]));
    assert_eq!(accept_thumbnail(vec![1u8; 200_001]), None);
}

#[test]
fn mime_from_extension() {
    assert_eq!(guess_mime_type("holiday/beach.png"), Some("image/png".to_string()));
    assert_eq!(guess_mime_type("clip.mp4"), Some("video/mp4".to_string()));
    assert_eq!(guess_mime_type("noextension"), None);
}

#[test]
fn mime_from_content_when_extension_is_unknown() {
    let png = [0x89u8, 0x50, 0x4E, 0x47, 0x0D, 0x0A, 0x1A, 0x0A, 0, 0, 0, 0x0D];
    assert_eq!(sniff_mime_type(&png), Some("image/png".to_string()));
    assert_eq!(sniff_mime_type(&[1, 2, 3]), None);
}
