//! What each plan step sends: the single-item and group requests, and the
//! chat action shown while a step is under way.
use vstd::prelude::*;
use crate::batch::{spoiler_capable, MediaItem};
use crate::media::{MediaKind, MediaMetadata, VideoMetadata};
use crate::planner::{step_in_batch, PlanStep};

verus! {

/// The view of optional bytes.
pub open spec fn opt_bytes(o: Option<Vec<u8>>) -> Option<Seq<u8>> {
    match o {
        Some(b) => Some(b@),
        None => None,
    }
}

/// The spoiler flag that a request carries for an item: only photos and
/// videos are ever sent under a spoiler.
pub open spec fn spoiler_flag(item: MediaItem) -> bool {
    item.spoiler && spoiler_capable(item.kind)
}

/// The video metadata of an item, if it has any.
pub open spec fn video_meta(item: MediaItem) -> Option<VideoMetadata> {
    match item.metadata {
        Some(MediaMetadata::Video(v)) => Some(v),
        _ => None,
    }
}

/// The thumbnail bytes of an item, if it has any.
pub open spec fn thumbnail_of(item: MediaItem) -> Option<Seq<u8>> {
    match item.metadata {
        Some(m) => opt_bytes(m.spec_thumbnail()),
        None => None,
    }
}

/// The duration, width and height of an item, each when known.
pub open spec fn duration_of(item: MediaItem) -> Option<u64> {
    match video_meta(item) {
        Some(v) => v.duration,
        None => None,
    }
}

pub open spec fn width_of(item: MediaItem) -> Option<u32> {
    match video_meta(item) {
        Some(v) => v.width,
        None => None,
    }
}

pub open spec fn height_of(item: MediaItem) -> Option<u32> {
    match video_meta(item) {
        Some(v) => v.height,
        None => None,
    }
}

/// A request that sends one item on its own.
pub struct SingleRequest {
    /// Decides the endpoint and the name of the file part.
    pub kind: MediaKind,
    /// The position of the file in the input list.
    pub source: usize,
    pub file_name: String,
    pub caption: Option<String>,
    pub has_spoiler: bool,
    pub supports_streaming: bool,
    pub duration: Option<u64>,
    pub width: Option<u32>,
    pub height: Option<u32>,
    /// Sent as a separate part named `thumbnail`.
    pub thumbnail: Option<Vec<u8>>,
}

fn copy_bytes(b: &Vec<u8>) -> (r: Vec<u8>)
    ensures
        r@ == b@,
{
    let r = b.clone();
    proof {
        assert(r@ =~= b@);
    }
    r
}

fn item_thumbnail(item: &MediaItem) -> (r: Option<Vec<u8>>)
    ensures
        opt_bytes(r) == thumbnail_of(*item),
{
    match &item.metadata {
        Some(MediaMetadata::Video(v)) => match &v.thumbnail {
            Some(b) => Some(copy_bytes(b)),
            None => None,
        },
        Some(MediaMetadata::Photo { thumbnail }) => match thumbnail {
            Some(b) => Some(copy_bytes(b)),
            None => None,
        },
        None => None,
    }
}

/// Builds the request for a single send: the item's own caption, or else the
/// batch caption; the spoiler flag only on photos and videos; streaming on
/// videos; the video fields and the thumbnail when known.
pub fn build_single_request(item: &MediaItem, batch_caption: &Option<String>) -> (r: SingleRequest)
    ensures
        r.kind == item.kind,
        r.source == item.source,
        r.file_name@ == item.file_name@,
        r.caption == (match item.caption {
            Some(c) => Some(c),
            None => *batch_caption,
        }),
        r.has_spoiler == spoiler_flag(*item),
        r.supports_streaming == (item.kind == MediaKind::Video),
        r.duration == duration_of(*item),
        r.width == width_of(*item),
        r.height == height_of(*item),
        opt_bytes(r.thumbnail) == thumbnail_of(*item),
{
    let caption = match &item.caption {
        Some(c) => Some(c.clone()),
        None => batch_caption.clone(),
    };
    let (duration, width, height) = match &item.metadata {
        Some(MediaMetadata::Video(v)) => (v.duration, v.width, v.height),
        _ => (None, None, None),
    };
    let capable = match item.kind {
        MediaKind::Photo | MediaKind::Video => true,
        _ => false,
    };
    SingleRequest {
        kind: item.kind,
        source: item.source,
        file_name: item.file_name.clone(),
        caption,
        has_spoiler: item.spoiler && capable,
        supports_streaming: match item.kind {
            MediaKind::Video => true,
            _ => false,
        },
        duration,
        width,
        height,
        thumbnail: item_thumbnail(item),
    }
}

/// One entry of a group's media array.
pub struct MediaDescriptor {
    pub kind: MediaKind,
    /// The batch position of the item, which names its file part.
    pub slot: usize,
    pub caption: Option<String>,
    pub has_spoiler: bool,
    pub width: Option<u32>,
    pub height: Option<u32>,
    pub duration: Option<u64>,
    /// Whether a thumbnail part goes with the item.
    pub has_thumbnail: bool,
}

/// The bytes of a thumbnail and the slot of the item that it belongs to.
pub struct ThumbnailPart {
    pub slot: usize,
    pub bytes: Vec<u8>,
}

/// A request that sends a run of items as one album.
pub struct GroupRequest {
    pub descriptors: Vec<MediaDescriptor>,
    pub thumbnails: Vec<ThumbnailPart>,
}

/// Whether `d` describes the item at batch position `slot`.
pub open spec fn describes(d: MediaDescriptor, item: MediaItem, slot: int) -> bool {
    &&& d.kind == item.kind
    &&& d.slot == slot
    &&& d.caption == item.caption
    &&& d.has_spoiler == spoiler_flag(item)
    &&& d.width == width_of(item)
    &&& d.height == height_of(item)
    &&& d.duration == duration_of(item)
    &&& d.has_thumbnail == (thumbnail_of(item) is Some)
}

/// The thumbnail parts of the items at positions `start .. end`, in order.
pub open spec fn thumbnail_parts(items: Seq<MediaItem>, start: int, end: int) -> Seq<(int, Seq<u8>)>
    decreases end - start,
{
    if end <= start {
        Seq::empty()
    } else {
        let before = thumbnail_parts(items, start, end - 1);
        match thumbnail_of(items[end - 1]) {
            Some(b) => before.push((end - 1, b)),
            None => before,
        }
    }
}

/// The view of a list of thumbnail parts.
pub open spec fn parts_view(parts: Seq<ThumbnailPart>) -> Seq<(int, Seq<u8>)> {
    parts.map_values(|p: ThumbnailPart| (p.slot as int, p.bytes@))
}

/// Builds the request for the group of items at positions `start .. end`:
/// one descriptor per item, in order, and one thumbnail part for each item
/// that has a thumbnail.
pub fn build_group_request(items: &Vec<MediaItem>, start: usize, end: usize) -> (r: GroupRequest)
    requires
        start <= end <= items@.len(),
    ensures
        r.descriptors@.len() == end - start,
        forall|t: int|
            0 <= t < r.descriptors@.len() ==> describes(
                #[trigger] r.descriptors@[t],
                items@[start + t],
                start + t,
            ),
        parts_view(r.thumbnails@) == thumbnail_parts(items@, start as int, end as int),
{
    let mut descriptors: Vec<MediaDescriptor> = Vec::new();
    let mut thumbnails: Vec<ThumbnailPart> = Vec::new();
    let mut j: usize = start;
    while j < end
        invariant
            start <= j <= end <= items@.len(),
            descriptors@.len() == j - start,
            forall|t: int|
                0 <= t < descriptors@.len() ==> describes(
                    #[trigger] descriptors@[t],
                    items@[start + t],
                    start + t,
                ),
            parts_view(thumbnails@) == thumbnail_parts(items@, start as int, j as int),
        decreases end - j,
    {
        let item = &items[j];
        let (duration, width, height) = match &item.metadata {
            Some(MediaMetadata::Video(v)) => (v.duration, v.width, v.height),
            _ => (None, None, None),
        };
        let capable = match item.kind {
            MediaKind::Photo | MediaKind::Video => true,
            _ => false,
        };
        let thumb = item_thumbnail(item);
        let caption = match &item.caption {
            Some(c) => Some(c.clone()),
            None => None,
        };
        descriptors.push(
            MediaDescriptor {
                kind: item.kind,
                slot: j,
                caption,
                has_spoiler: item.spoiler && capable,
                width,
                height,
                duration,
                has_thumbnail: thumb.is_some(),
            },
        );
        let ghost old_parts = thumbnails@;
        match thumb {
            Some(bytes) => {
                thumbnails.push(ThumbnailPart { slot: j, bytes });
                proof {
                    assert(parts_view(thumbnails@) =~= parts_view(old_parts).push((j as int, thumbnail_of(items@[j as int])->0)));
                }
            },
            None => {},
        }
        j = j + 1;
    }
    GroupRequest { descriptors, thumbnails }
}

/// The name of a kind, as the API spells it in media descriptors and as the
/// name of a single send's file part.
pub fn kind_name(kind: MediaKind) -> (r: &'static str)
    ensures
        r@ == (match kind {
            MediaKind::Photo => "photo"@,
            MediaKind::Video => "video"@,
            MediaKind::Audio => "audio"@,
            MediaKind::Document => "document"@,
        }),
{
    match kind {
        MediaKind::Photo => "photo",
        MediaKind::Video => "video",
        MediaKind::Audio => "audio",
        MediaKind::Document => "document",
    }
}

/// The API method that sends one item of a kind.
pub fn send_method(kind: MediaKind) -> (r: &'static str)
    ensures
        r@ == (match kind {
            MediaKind::Photo => "sendPhoto"@,
            MediaKind::Video => "sendVideo"@,
            MediaKind::Audio => "sendAudio"@,
            MediaKind::Document => "sendDocument"@,
        }),
{
    match kind {
        MediaKind::Photo => "sendPhoto",
        MediaKind::Video => "sendVideo",
        MediaKind::Audio => "sendAudio",
        MediaKind::Document => "sendDocument",
    }
}

/// The chat action shown while an item of a kind is uploaded.
pub fn upload_action(kind: MediaKind) -> (r: &'static str)
    ensures
        r@ == (match kind {
            MediaKind::Photo => "upload_photo"@,
            MediaKind::Video => "upload_video"@,
            MediaKind::Audio => "upload_audio"@,
            MediaKind::Document => "upload_document"@,
        }),
{
    match kind {
        MediaKind::Photo => "upload_photo",
        MediaKind::Video => "upload_video",
        MediaKind::Audio => "upload_audio",
        MediaKind::Document => "upload_document",
    }
}

/// The position of the first item that a step sends.
pub open spec fn first_position(step: PlanStep) -> int {
    match step {
        PlanStep::Single { index } => index as int,
        PlanStep::Group { start, end } => start as int,
    }
}

/// The kind whose upload action is shown before a step: that of its first item.
pub fn step_kind(items: &Vec<MediaItem>, step: PlanStep) -> (r: MediaKind)
    requires
        0 <= first_position(step) < items@.len(),
    ensures
        r == items@[first_position(step)].kind,
{
    match step {
        PlanStep::Single { index } => items[index].kind,
        PlanStep::Group { start, end } => items[start].kind,
    }
}

/// The request that one step sends.
pub enum StepRequest {
    Single(SingleRequest),
    Group(GroupRequest),
}

/// One step, ready to dispatch: the chat action to show, then the request.
pub struct PreparedStep {
    pub action: &'static str,
    pub request: StepRequest,
}

/// Prepares a plan step: the upload action of its first item's kind, and the
/// single or group request for its items.
pub fn prepare_step(items: &Vec<MediaItem>, step: PlanStep, batch_caption: &Option<String>) -> (r: PreparedStep)
    requires
        step_in_batch(step, items@.len() as int),
    ensures
        r.action@ == (match items@[first_position(step)].kind {
            MediaKind::Photo => "upload_photo"@,
            MediaKind::Video => "upload_video"@,
            MediaKind::Audio => "upload_audio"@,
            MediaKind::Document => "upload_document"@,
        }),
        match step {
            PlanStep::Single { index } => r.request matches StepRequest::Single(q) && {
                let item = items@[index as int];
                &&& q.kind == item.kind
                &&& q.source == item.source
                &&& q.file_name@ == item.file_name@
                &&& q.caption == (match item.caption {
                    Some(c) => Some(c),
                    None => *batch_caption,
                })
                &&& q.has_spoiler == spoiler_flag(item)
                &&& q.supports_streaming == (item.kind == MediaKind::Video)
                &&& q.duration == duration_of(item)
                &&& q.width == width_of(item)
                &&& q.height == height_of(item)
                &&& opt_bytes(q.thumbnail) == thumbnail_of(item)
            },
            PlanStep::Group { start, end } => r.request matches StepRequest::Group(g) && {
                &&& g.descriptors@.len() == end - start
                &&& forall|t: int|
                    0 <= t < g.descriptors@.len() ==> describes(
                        #[trigger] g.descriptors@[t],
                        items@[start + t],
                        start + t,
                    )
                &&& parts_view(g.thumbnails@) == thumbnail_parts(items@, start as int, end as int)
            },
        },
{
    let kind = step_kind(items, step);
    let action = upload_action(kind);
    let request = match step {
        PlanStep::Single { index } => StepRequest::Single(build_single_request(&items[index], batch_caption)),
        PlanStep::Group { start, end } => StepRequest::Group(build_group_request(items, start, end)),
    };
    PreparedStep { action, request }
}

/// A spoiler is never requested for audio or a document, in a single send or
/// in a group.
pub proof fn lemma_no_spoiler_on_audio_or_document(item: MediaItem, d: MediaDescriptor, slot: int)
    requires
        item.kind == MediaKind::Audio || item.kind == MediaKind::Document,
    ensures
        !spoiler_flag(item),
        describes(d, item, slot) ==> !d.has_spoiler,
{
}

} // verus!
