//! Media kinds and the classification of a file into one of them.
use vstd::prelude::*;
use crate::text::opt_view;

verus! {

/// The four kinds of attachment that the bot API distinguishes.
#[derive(PartialEq, Eq, Structural, Clone, Copy, Debug)]
pub enum MediaKind {
    Photo,
    Video,
    Audio,
    Document,
}

impl MediaKind {
    /// Documents form their own class; photos, videos and audio may share an album.
    pub open spec fn spec_is_document(self) -> bool {
        self == MediaKind::Document
    }

    pub fn is_document(&self) -> (r: bool)
        ensures
            r == self.spec_is_document(),
    {
        match self {
            MediaKind::Document => true,
            _ => false,
        }
    }
}

/// Photos larger than this many bytes are sent as documents.
pub const PHOTO_MAX_BYTES: u64 = 10485760;

/// Generated thumbnails larger than this many bytes are discarded.
pub const THUMBNAIL_MAX_BYTES: usize = 200000;

/// Whether `p` is a prefix of `s`.
pub open spec fn has_prefix(s: Seq<char>, p: Seq<char>) -> bool {
    p.len() <= s.len() && s.subrange(0, p.len() as int) == p
}

/// The view of an optional borrowed text.
pub open spec fn opt_str_view(o: Option<&str>) -> Option<Seq<char>> {
    match o {
        Some(s) => Some(s@),
        None => None,
    }
}

/// Whether a MIME type is present and of the given major type (`"image/"` and so on).
pub open spec fn mime_is(mime: Option<Seq<char>>, major: Seq<char>) -> bool {
    match mime {
        Some(m) => has_prefix(m, major),
        None => false,
    }
}

/// The kind that a MIME type stands for: images are photos, then videos and
/// audio; anything else, or no type at all, is a document.
pub open spec fn kind_of_mime(mime: Option<Seq<char>>) -> MediaKind {
    if mime_is(mime, "image/"@) {
        MediaKind::Photo
    } else if mime_is(mime, "video/"@) {
        MediaKind::Video
    } else if mime_is(mime, "audio/"@) {
        MediaKind::Audio
    } else {
        MediaKind::Document
    }
}

/// Tells whether `p` is a prefix of `s`.
pub fn has_prefix_text(s: &str, p: &str) -> (r: bool)
    ensures
        r == has_prefix(s@, p@),
{
    let n = s.unicode_len();
    let m = p.unicode_len();
    if m > n {
        return false;
    }
    let mut i: usize = 0;
    while i < m
        invariant
            n == s@.len(),
            m == p@.len(),
            m <= n,
            0 <= i <= m,
            forall|j: int| 0 <= j < i ==> s@[j] == p@[j],
        decreases m - i,
    {
        if s.get_char(i) != p.get_char(i) {
            proof {
                assert(s@.subrange(0, m as int)[i as int] != p@[i as int]);
            }
            return false;
        }
        i = i + 1;
    }
    proof {
        assert(s@.subrange(0, m as int) =~= p@);
    }
    true
}

/// Maps a MIME type to the kind of media it describes.
pub fn determine_media_type(mime_type: Option<&str>) -> (r: MediaKind)
    ensures
        r == kind_of_mime(opt_str_view(mime_type)),
{
    match mime_type {
        Some(mt) => {
            if has_prefix_text(mt, "image/") {
                MediaKind::Photo
            } else if has_prefix_text(mt, "video/") {
                MediaKind::Video
            } else if has_prefix_text(mt, "audio/") {
                MediaKind::Audio
            } else {
                MediaKind::Document
            }
        },
        None => MediaKind::Document,
    }
}

/// What classification has to report beside the kind.
#[derive(PartialEq, Eq, Structural, Clone, Copy, Debug)]
pub enum ClassifyNote {
    /// Nothing to report.
    Plain,
    /// A photo above the size limit, sent as a document instead.
    Oversized,
    /// A photo whose size could not be read, sent as a document instead.
    SizeUnknown,
}

/// The outcome of classifying one file.
#[derive(PartialEq, Eq, Structural, Clone, Copy, Debug)]
pub struct Classification {
    pub kind: MediaKind,
    pub note: ClassifyNote,
}

/// The kind before the size rule: documents when sending as files, else by MIME type.
pub open spec fn sniffed_kind(mime: Option<Seq<char>>, as_file: bool) -> MediaKind {
    if as_file {
        MediaKind::Document
    } else {
        kind_of_mime(mime)
    }
}

/// The kind of a file after the size rule: a photo above the limit, or of
/// unknown size, becomes a document.
pub open spec fn classified_kind(mime: Option<Seq<char>>, as_file: bool, size: Option<u64>) -> MediaKind {
    let k = sniffed_kind(mime, as_file);
    if k == MediaKind::Photo && (size is None || size->0 > PHOTO_MAX_BYTES) {
        MediaKind::Document
    } else {
        k
    }
}

/// The note that goes with a classification.
pub open spec fn classified_note(mime: Option<Seq<char>>, as_file: bool, size: Option<u64>) -> ClassifyNote {
    if sniffed_kind(mime, as_file) != MediaKind::Photo {
        ClassifyNote::Plain
    } else {
        match size {
            None => ClassifyNote::SizeUnknown,
            Some(n) => if n > PHOTO_MAX_BYTES {
                ClassifyNote::Oversized
            } else {
                ClassifyNote::Plain
            },
        }
    }
}

/// Classifies a file from its MIME type, the send-as-file option and its size.
pub fn classify(mime_type: Option<&str>, as_file: bool, size: Option<u64>) -> (r: Classification)
    ensures
        r.kind == classified_kind(opt_str_view(mime_type), as_file, size),
        r.note == classified_note(opt_str_view(mime_type), as_file, size),
{
    let kind = if as_file {
        MediaKind::Document
    } else {
        determine_media_type(mime_type)
    };
    match kind {
        MediaKind::Photo => match size {
            None => Classification { kind: MediaKind::Document, note: ClassifyNote::SizeUnknown },
            Some(n) => if n > PHOTO_MAX_BYTES {
                Classification { kind: MediaKind::Document, note: ClassifyNote::Oversized }
            } else {
                Classification { kind, note: ClassifyNote::Plain }
            },
        },
        _ => Classification { kind, note: ClassifyNote::Plain },
    }
}

/// Which metadata to extract for a file, by its MIME type.
#[derive(PartialEq, Eq, Structural, Clone, Copy, Debug)]
pub enum MetadataRequest {
    Video,
    Photo,
    Nothing,
}

/// Videos get duration, size and a thumbnail; images a thumbnail; others nothing.
pub fn metadata_request(mime_type: Option<&str>) -> (r: MetadataRequest)
    ensures
        r == (if mime_is(opt_str_view(mime_type), "video/"@) {
            MetadataRequest::Video
        } else if mime_is(opt_str_view(mime_type), "image/"@) {
            MetadataRequest::Photo
        } else {
            MetadataRequest::Nothing
        }),
{
    match mime_type {
        Some(mt) => {
            if has_prefix_text(mt, "video/") {
                MetadataRequest::Video
            } else if has_prefix_text(mt, "image/") {
                MetadataRequest::Photo
            } else {
                MetadataRequest::Nothing
            }
        },
        None => MetadataRequest::Nothing,
    }
}

/// Metadata of a video file.
#[derive(Debug)]
pub struct VideoMetadata {
    pub duration: Option<u64>,
    pub width: Option<u32>,
    pub height: Option<u32>,
    pub thumbnail: Option<Vec<u8>>,
}

/// Metadata of one attachment.
#[derive(Debug)]
pub enum MediaMetadata {
    Video(VideoMetadata),
    Photo { thumbnail: Option<Vec<u8>> },
}

impl MediaMetadata {
    /// The thumbnail that the metadata carries, if any.
    pub open spec fn spec_thumbnail(&self) -> Option<Vec<u8>> {
        match self {
            MediaMetadata::Video(v) => v.thumbnail,
            MediaMetadata::Photo { thumbnail } => *thumbnail,
        }
    }
}

/// Keeps a generated thumbnail only when it is neither empty nor above the size cap.
pub fn accept_thumbnail(bytes: Vec<u8>) -> (r: Option<Vec<u8>>)
    ensures
        r == (if bytes@.len() == 0 || bytes@.len() > THUMBNAIL_MAX_BYTES {
            None
        } else {
            Some(bytes)
        }),
{
    if bytes.len() == 0 || bytes.len() > THUMBNAIL_MAX_BYTES {
        None
    } else {
        Some(bytes)
    }
}

/// The MIME type that the extension table gives for a path, if any.
pub uninterp spec fn mime_of_path(path: Seq<char>) -> Option<Seq<char>>;

/// The MIME type that content sniffing finds in the first bytes of a file, if any.
pub uninterp spec fn sniffed_mime(head: Seq<u8>) -> Option<Seq<char>>;

/// Relies on `mime_guess::from_path(..).first_raw()`: the first MIME type
/// registered for the path's extension, a function of the path alone; no disk
/// access.
#[verifier::external_body]
fn guess_mime_from_path(path: &str) -> (r: Option<String>)
    ensures
        opt_view(r) == mime_of_path(path@),
{
    match mime_guess::from_path(path).first_raw() {
        Some(m) => Some(m.to_string()),
        None => None,
    }
}

/// The most bytes from the start of a file that content sniffing looks at.
pub const SNIFF_MAX_BYTES: usize = 512;

/// Relies on `infer::Infer::new().get(..)` and `Type::mime_type`: the MIME type
/// of the first signature that matches the bytes, a function of the bytes
/// alone. Some matchers recurse over the buffer, so it is kept short.
#[verifier::external_body]
fn sniff_mime(head: &[u8]) -> (r: Option<String>)
    requires
        head@.len() <= SNIFF_MAX_BYTES,
    ensures
        opt_view(r) == sniffed_mime(head@),
{
    match infer::Infer::new().get(head) {
        Some(t) => Some(t.mime_type().to_string()),
        None => None,
    }
}

/// The MIME type that a file's extension gives, without reading the file.
/// This is tried first; a file's contents are sniffed only when it gives nothing.
pub fn guess_mime_type(path: &str) -> (r: Option<String>)
    ensures
        opt_view(r) == mime_of_path(path@),
{
    guess_mime_from_path(path)
}

/// The MIME type that the first bytes of a file show, for a file whose
/// extension gives nothing.
pub fn sniff_mime_type(head: &[u8]) -> (r: Option<String>)
    requires
        head@.len() <= SNIFF_MAX_BYTES,
    ensures
        opt_view(r) == sniffed_mime(head@),
{
    sniff_mime(head)
}

} // verus!
