//! Turns the probed input files into the batch of media items to plan.
use vstd::prelude::*;
use crate::media::{classify, classified_kind, classified_note, ClassifyNote, MediaKind, MediaMetadata};
use crate::text::opt_view;

verus! {

/// What was learnt about one input file before planning.
pub struct FileEntry {
    /// The file's name, when it has one that is valid text.
    pub file_name: Option<String>,
    /// Whether the path names a regular file that could be opened for reading.
    pub readable: bool,
    /// The detected MIME type.
    pub mime: Option<String>,
    /// The file's size in bytes, when it could be read.
    pub size: Option<u64>,
    /// Extracted metadata, when extraction succeeded.
    pub metadata: Option<MediaMetadata>,
}

/// One attachment of the batch, ready for planning.
pub struct MediaItem {
    pub kind: MediaKind,
    /// The position of the file in the input list.
    pub source: usize,
    /// The file name used for the upload.
    pub file_name: String,
    pub caption: Option<String>,
    /// Whether the item is sent under a spoiler.
    pub spoiler: bool,
    pub metadata: Option<MediaMetadata>,
}

/// Something to report about one input file while assembling the batch.
#[derive(PartialEq, Eq, Structural, Clone, Copy, Debug)]
pub enum BatchNote {
    /// The path does not name a readable regular file; the file is left out.
    NotFound { source: usize },
    /// A photo above the size limit, sent as a document.
    Oversized { source: usize, size: u64 },
    /// A photo whose size could not be read, sent as a document.
    SizeUnknown { source: usize },
}

/// The assembled batch and what was reported on the way.
pub struct Batch {
    pub items: Vec<MediaItem>,
    pub notes: Vec<BatchNote>,
}

/// The name under which a file is uploaded when it has none of its own.
pub open spec fn fallback_file_name() -> Seq<char> {
    seq!['m', 'e', 'd', 'i', 'a']
}

/// Whether a kind can be shown under a spoiler.
pub open spec fn spoiler_capable(kind: MediaKind) -> bool {
    kind == MediaKind::Photo || kind == MediaKind::Video
}

/// The positions of the entries that name readable regular files, in order.
pub open spec fn kept(entries: Seq<FileEntry>) -> Seq<int>
    decreases entries.len(),
{
    if entries.len() == 0 {
        Seq::empty()
    } else {
        let rest = kept(entries.drop_last());
        if entries.last().readable {
            rest.push(entries.len() - 1)
        } else {
            rest
        }
    }
}

/// The note for the entry at position `j`, if any.
pub open spec fn entry_notes(e: FileEntry, j: int, as_file: bool) -> Seq<BatchNote> {
    if !e.readable {
        seq![BatchNote::NotFound { source: j as usize }]
    } else {
        match classified_note(opt_view(e.mime), as_file, e.size) {
            ClassifyNote::Plain => Seq::empty(),
            ClassifyNote::Oversized => seq![BatchNote::Oversized { source: j as usize, size: e.size->0 }],
            ClassifyNote::SizeUnknown => seq![BatchNote::SizeUnknown { source: j as usize }],
        }
    }
}

/// All notes for a list of entries, in order.
pub open spec fn notes_of(entries: Seq<FileEntry>, as_file: bool) -> Seq<BatchNote>
    decreases entries.len(),
{
    if entries.len() == 0 {
        Seq::empty()
    } else {
        notes_of(entries.drop_last(), as_file) + entry_notes(
            entries.last(),
            entries.len() - 1,
            as_file,
        )
    }
}

/// Whether `item`, at position `t` of the batch, is what the entry `e` at
/// input position `j` becomes.
pub open spec fn item_from_entry(
    item: MediaItem,
    t: int,
    e: FileEntry,
    j: int,
    caption: Option<String>,
    as_file: bool,
    spoiler: bool,
) -> bool {
    &&& item.kind == classified_kind(opt_view(e.mime), as_file, e.size)
    &&& item.source == j
    &&& item.file_name@ == match e.file_name {
        Some(n) => n@,
        None => fallback_file_name(),
    }
    &&& item.caption == (if t == 0 {
        caption
    } else {
        None
    })
    &&& item.spoiler == (spoiler && spoiler_capable(item.kind))
    &&& item.metadata == e.metadata
}

/// Whether `items` is the batch assembled from `entries`: one item for each
/// readable regular file, in input order, the caption on the first of them only.
pub open spec fn assembled(
    entries: Seq<FileEntry>,
    caption: Option<String>,
    as_file: bool,
    spoiler: bool,
    items: Seq<MediaItem>,
) -> bool {
    &&& items.len() == kept(entries).len()
    &&& forall|t: int|
        0 <= t < items.len() ==> item_from_entry(
            #[trigger] items[t],
            t,
            entries[kept(entries)[t]],
            kept(entries)[t],
            caption,
            as_file,
            spoiler,
        )
}

proof fn lemma_kept_bounds(entries: Seq<FileEntry>)
    ensures
        forall|t: int| 0 <= t < kept(entries).len() ==> 0 <= #[trigger] kept(entries)[t] < entries.len(),
    decreases entries.len(),
{
    if entries.len() > 0 {
        let pre = entries.drop_last();
        lemma_kept_bounds(pre);
        assert forall|t: int| 0 <= t < kept(entries).len() implies 0 <= #[trigger] kept(entries)[t]
            < entries.len() by {
            if t < kept(pre).len() {
                assert(kept(entries)[t] == kept(pre)[t]);
            }
        }
    }
}

/// Assembles the batch: leaves out what is not a readable regular file, classifies the
/// rest, gives the caption to the first item only, and keeps the spoiler flag
/// only on photos and videos.
pub fn assemble_batch(entries: Vec<FileEntry>, caption: Option<String>, as_file: bool, spoiler: bool) -> (r: Batch)
    ensures
        assembled(entries@, caption, as_file, spoiler, r.items@),
        r.notes@ == notes_of(entries@, as_file),
{
    let ghost all = entries@;
    let n = entries.len();
    let mut rest = entries;
    let mut items: Vec<MediaItem> = Vec::new();
    let mut notes: Vec<BatchNote> = Vec::new();
    let mut caption_left = caption;
    let mut j: usize = 0;
    while j < n
        invariant
            items@.len() == 0 ==> caption_left == caption,
            n == all.len(),
            0 <= j <= n,
            rest@ == all.subrange(j as int, n as int),
            assembled(all.subrange(0, j as int), caption, as_file, spoiler, items@),
            notes@ == notes_of(all.subrange(0, j as int), as_file),
        decreases n - j,
    {
        let ghost pre = all.subrange(0, j as int);
        let ghost next = all.subrange(0, j + 1);
        proof {
            assert(next.drop_last() =~= pre);
            assert(next.last() == all[j as int]);
            lemma_kept_bounds(pre);
        }
        let e = rest.remove(0);
        proof {
            assert(e == all[j as int]);
            assert(rest@ =~= all.subrange(j + 1, n as int));
        }
        if !e.readable {
            notes.push(BatchNote::NotFound { source: j });
            proof {
                assert(kept(next) == kept(pre));
                assert(forall|t: int| 0 <= t < kept(pre).len() ==> next[kept(pre)[t]] == pre[kept(pre)[t]]);
            }
        } else {
            let FileEntry { file_name, readable: _, mime, size, metadata } = e;
            let c = match &mime {
                Some(m) => classify(Some(m.as_str()), as_file, size),
                None => classify(None, as_file, size),
            };
            match c.note {
                ClassifyNote::Oversized => {
                    notes.push(BatchNote::Oversized { source: j, size: size.unwrap() });
                },
                ClassifyNote::SizeUnknown => {
                    notes.push(BatchNote::SizeUnknown { source: j });
                },
                ClassifyNote::Plain => {},
            }
            let name = match file_name {
                Some(s) => s,
                None => {
                    let s = "media".to_owned();
                    proof {
                        reveal_strlit("media");
                        assert(s@ =~= fallback_file_name());
                    }
                    s
                },
            };
            let item_caption = if items.len() == 0 {
                caption_left.take()
            } else {
                None
            };
            let item_spoiler = spoiler && match c.kind {
                MediaKind::Photo | MediaKind::Video => true,
                _ => false,
            };
            let ghost t = items.len() as int;
            items.push(
                MediaItem {
                    kind: c.kind,
                    source: j,
                    file_name: name,
                    caption: item_caption,
                    spoiler: item_spoiler,
                    metadata,
                },
            );
            proof {
                assert(kept(next) == kept(pre).push(j as int));
                assert(forall|u: int| 0 <= u < kept(pre).len() ==> next[kept(pre)[u]] == pre[kept(pre)[u]]);
                assert(item_from_entry(items@[t], t, next[j as int], j as int, caption, as_file, spoiler));
            }
        }
        proof {
            assert(notes@ =~= notes_of(next, as_file));
        }
        j = j + 1;
    }
    proof {
        assert(all.subrange(0, n as int) =~= all);
    }
    Batch { items, notes }
}

/// At most one item of an assembled batch carries a caption, and only the
/// first one: the first input file that is a readable regular file.
pub proof fn lemma_single_caption(
    entries: Seq<FileEntry>,
    caption: Option<String>,
    as_file: bool,
    spoiler: bool,
    items: Seq<MediaItem>,
)
    requires
        assembled(entries, caption, as_file, spoiler, items),
    ensures
        forall|t: int| 0 < t < items.len() ==> (#[trigger] items[t]).caption is None,
        items.len() > 0 ==> items[0].caption == caption && items[0].source == kept(entries)[0],
        items.len() > 0 ==> forall|j: int| 0 <= j < kept(entries)[0] ==> !(#[trigger] entries[j]).readable,
{
    if items.len() > 0 {
        assert(item_from_entry(items[0], 0, entries[kept(entries)[0]], kept(entries)[0], caption, as_file, spoiler));
        lemma_first_kept(entries);
    }
    assert forall|t: int| 0 < t < items.len() implies (#[trigger] items[t]).caption is None by {
        assert(item_from_entry(items[t], t, entries[kept(entries)[t]], kept(entries)[t], caption, as_file, spoiler));
    }
}

proof fn lemma_first_kept(entries: Seq<FileEntry>)
    requires
        kept(entries).len() > 0,
    ensures
        0 <= kept(entries)[0] < entries.len(),
        entries[kept(entries)[0]].readable,
        forall|j: int| 0 <= j < kept(entries)[0] ==> !(#[trigger] entries[j]).readable,
    decreases entries.len(),
{
    let pre = entries.drop_last();
    if kept(pre).len() > 0 {
        lemma_first_kept(pre);
        assert(kept(entries)[0] == kept(pre)[0]);
        assert forall|j: int| 0 <= j < kept(entries)[0] implies !(#[trigger] entries[j]).readable by {
            assert(entries[j] == pre[j]);
        }
    } else {
        lemma_none_kept(pre);
        assert(kept(entries)[0] == entries.len() - 1);
        assert forall|j: int| 0 <= j < kept(entries)[0] implies !(#[trigger] entries[j]).readable by {
            assert(entries[j] == pre[j]);
        }
    }
}

proof fn lemma_none_kept(entries: Seq<FileEntry>)
    requires
        kept(entries).len() == 0,
    ensures
        forall|j: int| 0 <= j < entries.len() ==> !(#[trigger] entries[j]).readable,
    decreases entries.len(),
{
    if entries.len() > 0 {
        lemma_none_kept(entries.drop_last());
        assert forall|j: int| 0 <= j < entries.len() implies !(#[trigger] entries[j]).readable by {
            if j < entries.len() - 1 {
                assert(entries[j] == entries.drop_last()[j]);
            }
        }
    }
}

} // verus!
