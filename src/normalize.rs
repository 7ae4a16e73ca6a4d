//! The blob, aspect-ratio and embed normalizers.
use vstd::prelude::*;
use crate::events::{BlobRef, EventTime, ExternalLink, MediaItem, PostEmbed};
use crate::rows::{
    AspectMap, AvatarStruct, BlobStruct, EmbedStruct, ExternalRef, MediaEmbedItem, MediaKind,
    UtcTime, embed_exclusive,
};

verus! {

/// The stored size column: the byte size when it is known and fits the
/// column's signed 64-bit range, null otherwise.
pub open spec fn size_column(size: Option<u64>) -> Option<i64> {
    match size {
        Some(s) => if s <= i64::MAX as u64 { Some(s as i64) } else { None },
        None => None,
    }
}

pub open spec fn blob_struct(b: BlobRef) -> BlobStruct {
    BlobStruct { cid: b.cid, mime_type: b.mime_type, size: size_column(b.size) }
}

pub open spec fn avatar_struct(a: Option<BlobRef>) -> AvatarStruct {
    match a {
        Some(b) => AvatarStruct {
            cid: Some(b.cid),
            mime_type: Some(b.mime_type),
            size: size_column(b.size),
        },
        None => AvatarStruct { cid: None, mime_type: None, size: None },
    }
}

/// The stored aspect map: present exactly when the source gives a ratio whose
/// width and height both fit the map's 32-bit values.
pub open spec fn aspect_map(ratio: Option<(u64, u64)>) -> Option<AspectMap> {
    match ratio {
        Some((w, h)) => if w <= i32::MAX as u64 && h <= i32::MAX as u64 {
            Some(AspectMap { width: w as i32, height: h as i32 })
        } else {
            None
        },
        None => None,
    }
}

pub open spec fn media_item(m: MediaItem) -> MediaEmbedItem {
    match m {
        MediaItem::Image { blob, alt, aspect_ratio } => MediaEmbedItem {
            kind: MediaKind::Image,
            alt: Some(alt),
            blob: blob_struct(blob),
            aspect_ratio: aspect_map(aspect_ratio),
        },
        MediaItem::Video { blob, alt, aspect_ratio } => MediaEmbedItem {
            kind: MediaKind::Video,
            alt: alt,
            blob: blob_struct(blob),
            aspect_ratio: aspect_map(aspect_ratio),
        },
    }
}

pub open spec fn thumb_struct(t: Option<BlobRef>) -> Option<BlobStruct> {
    match t {
        Some(b) => Some(blob_struct(b)),
        None => None,
    }
}

pub open spec fn external_ref(l: ExternalLink) -> ExternalRef {
    ExternalRef {
        description: l.description,
        thumb: thumb_struct(l.thumb),
        title: l.title,
        uri: l.uri,
    }
}

/// The embed struct of a post: exactly the branch that matches the source
/// embed is populated.
pub open spec fn embed_struct_matches(e: Option<PostEmbed>, r: EmbedStruct) -> bool {
    match e {
        Some(PostEmbed::Media(items)) => {
            &&& r.media@ == items@.map_values(|m: MediaItem| media_item(m))
            &&& r.external is None
            &&& r.record is None
        },
        Some(PostEmbed::External(l)) => {
            &&& r.media@.len() == 0
            &&& r.external == Some(external_ref(l))
            &&& r.record is None
        },
        Some(PostEmbed::Record(id)) => {
            &&& r.media@.len() == 0
            &&& r.external is None
            &&& r.record == Some(id)
        },
        None => {
            &&& r.media@.len() == 0
            &&& r.external is None
            &&& r.record is None
        },
    }
}

pub open spec fn utc_of(t: EventTime) -> UtcTime {
    UtcTime { unix_secs: t.unix_secs, nanos: t.nanos }
}

/// Converts a blob size to the size column; an absent or out-of-range size
/// becomes null rather than failing the record.
pub fn size_to_column(size: Option<u64>) -> (r: Option<i64>)
    ensures
        r == size_column(size),
{
    match size {
        Some(s) => if s <= i64::MAX as u64 { Some(s as i64) } else { None },
        None => None,
    }
}

/// Flattens a blob descriptor.
pub fn normalize_blob(b: BlobRef) -> (r: BlobStruct)
    ensures
        r == blob_struct(b),
{
    let size = size_to_column(b.size);
    BlobStruct { cid: b.cid, mime_type: b.mime_type, size }
}

/// Builds a profile's avatar struct: fully null when there is no avatar.
pub fn normalize_avatar(a: Option<BlobRef>) -> (r: AvatarStruct)
    ensures
        r == avatar_struct(a),
        a is None ==> r.cid is None && r.mime_type is None && r.size is None,
{
    match a {
        Some(b) => {
            let size = size_to_column(b.size);
            AvatarStruct { cid: Some(b.cid), mime_type: Some(b.mime_type), size }
        },
        None => AvatarStruct { cid: None, mime_type: None, size: None },
    }
}

/// Builds the aspect map of a media item; a ratio that does not fit the
/// map's values is dropped rather than truncated.
pub fn normalize_aspect(ratio: Option<(u64, u64)>) -> (r: Option<AspectMap>)
    ensures
        r == aspect_map(ratio),
        ratio is None ==> r is None,
{
    match ratio {
        Some((w, h)) => if w <= i32::MAX as u64 && h <= i32::MAX as u64 {
            Some(AspectMap { width: w as i32, height: h as i32 })
        } else {
            None
        },
        None => None,
    }
}

/// Normalizes one media attachment, tagging it with its kind.
pub fn normalize_media(m: MediaItem) -> (r: MediaEmbedItem)
    ensures
        r == media_item(m),
{
    match m {
        MediaItem::Image { blob, alt, aspect_ratio } => MediaEmbedItem {
            kind: MediaKind::Image,
            alt: Some(alt),
            blob: normalize_blob(blob),
            aspect_ratio: normalize_aspect(aspect_ratio),
        },
        MediaItem::Video { blob, alt, aspect_ratio } => MediaEmbedItem {
            kind: MediaKind::Video,
            alt,
            blob: normalize_blob(blob),
            aspect_ratio: normalize_aspect(aspect_ratio),
        },
    }
}

/// Normalizes every media attachment of a list, in order.
pub fn normalize_media_list(items: Vec<MediaItem>) -> (r: Vec<MediaEmbedItem>)
    ensures
        r@ == items@.map_values(|m: MediaItem| media_item(m)),
{
    let ghost all = items@;
    let mut rest = items;
    let mut out: Vec<MediaEmbedItem> = Vec::new();
    while rest.len() > 0
        invariant
            out@.len() + rest@.len() == all.len(),
            rest@ == all.subrange(out@.len() as int, all.len() as int),
            out@ == all.subrange(0, out@.len() as int).map_values(|m: MediaItem| media_item(m)),
        decreases rest@.len(),
    {
        let m = rest.remove(0);
        let item = normalize_media(m);
        proof {
            let k = out@.len() as int;
            assert(all.subrange(0, k + 1) == all.subrange(0, k).push(all[k]));
        }
        out.push(item);
        proof {
            let k = out@.len() as int;
            assert(rest@ =~= all.subrange(k, all.len() as int));
            assert(out@ =~= all.subrange(0, k).map_values(|m: MediaItem| media_item(m)));
        }
    }
    proof {
        assert(all.subrange(0, all.len() as int) =~= all);
    }
    out
}

/// Normalizes an external link, carrying its thumbnail through when present.
pub fn normalize_external(l: ExternalLink) -> (r: ExternalRef)
    ensures
        r == external_ref(l),
{
    let thumb = match l.thumb {
        Some(b) => Some(normalize_blob(b)),
        None => None,
    };
    ExternalRef { description: l.description, thumb, title: l.title, uri: l.uri }
}

/// Normalizes a post's optional embed into a single embed struct with at
/// most one populated branch.
pub fn normalize_embed(e: Option<PostEmbed>) -> (r: EmbedStruct)
    ensures
        embed_struct_matches(e, r),
        embed_exclusive(r),
        e is None ==> r.media@.len() == 0 && r.external is None && r.record is None,
{
    match e {
        Some(PostEmbed::Media(items)) => {
            let media = normalize_media_list(items);
            EmbedStruct { media, external: None, record: None }
        },
        Some(PostEmbed::External(l)) => {
            EmbedStruct { media: Vec::new(), external: Some(normalize_external(l)), record: None }
        },
        Some(PostEmbed::Record(id)) => EmbedStruct { media: Vec::new(), external: None, record: Some(id) },
        None => EmbedStruct { media: Vec::new(), external: None, record: None },
    }
}

/// The same instant in UTC: the source's offset only changes how it was written.
pub fn to_utc(t: EventTime) -> (r: UtcTime)
    ensures
        r == utc_of(t),
{
    UtcTime { unix_secs: t.unix_secs, nanos: t.nanos }
}

} // verus!
