//! Outgoing storage rows and their embedded sub-records.
use vstd::prelude::*;

verus! {

/// An instant in UTC: seconds and nanoseconds since the Unix epoch.
#[derive(Debug, Clone, Copy, PartialEq, Eq)]
pub struct UtcTime {
    pub unix_secs: i64,
    pub nanos: u32,
}

/// A flat, storage-ready blob with an independently nullable size.
#[derive(Debug, Clone, PartialEq, Eq)]
pub struct BlobStruct {
    pub cid: String,
    pub mime_type: String,
    pub size: Option<i64>,
}

/// A profile's avatar; every field is nullable and the struct is always present.
#[derive(Debug, Clone, PartialEq, Eq)]
pub struct AvatarStruct {
    pub cid: Option<String>,
    pub mime_type: Option<String>,
    pub size: Option<i64>,
}

/// An aspect ratio, stored as a map with exactly the keys `"width"` and `"height"`.
#[derive(Debug, Clone, Copy, PartialEq, Eq)]
pub struct AspectMap {
    pub width: i32,
    pub height: i32,
}

impl AspectMap {
    /// The map's entries, as the store's map column holds them.
    pub fn entries(&self) -> (r: Vec<(String, i32)>)
        ensures
            r@.len() == 2,
            r@[0].0@ == "width"@,
            r@[0].1 == self.width,
            r@[1].0@ == "height"@,
            r@[1].1 == self.height,
    {
        let mut r: Vec<(String, i32)> = Vec::new();
        r.push(("width".to_owned(), self.width));
        r.push(("height".to_owned(), self.height));
        r
    }
}

/// The kind of a media embed item.
#[derive(Debug, Clone, Copy, PartialEq, Eq)]
pub enum MediaKind {
    Image,
    Video,
}

pub open spec fn kind_tag(k: MediaKind) -> Seq<char> {
    match k {
        MediaKind::Image => "Image"@,
        MediaKind::Video => "Video"@,
    }
}

impl MediaKind {
    /// The kind tag stored with the item: `"Image"` or `"Video"`.
    pub fn tag(&self) -> (r: String)
        ensures
            r@ == kind_tag(*self),
    {
        match self {
            MediaKind::Image => "Image".to_owned(),
            MediaKind::Video => "Video".to_owned(),
        }
    }
}

/// One normalized media attachment.
#[derive(Debug, Clone, PartialEq, Eq)]
pub struct MediaEmbedItem {
    pub kind: MediaKind,
    pub alt: Option<String>,
    pub blob: BlobStruct,
    pub aspect_ratio: Option<AspectMap>,
}

/// A normalized external link.
#[derive(Debug, Clone, PartialEq, Eq)]
pub struct ExternalRef {
    pub description: String,
    pub thumb: Option<BlobStruct>,
    pub title: String,
    pub uri: String,
}

/// A post's denormalized embed. At most one branch is populated; without an
/// embed, `media` is empty and the other two are null.
#[derive(Debug, Clone, PartialEq, Eq)]
pub struct EmbedStruct {
    pub media: Vec<MediaEmbedItem>,
    pub external: Option<ExternalRef>,
    pub record: Option<String>,
}

/// At most one of the three branches of an embed struct is populated.
pub open spec fn embed_exclusive(e: EmbedStruct) -> bool {
    &&& e.media@.len() > 0 ==> e.external is None && e.record is None
    &&& e.external is Some ==> e.record is None
}

/// A post's reply references; both null when the post is no reply.
#[derive(Debug, Clone, PartialEq, Eq)]
pub struct ReplyStruct {
    pub parent: Option<String>,
    pub root: Option<String>,
}

/// The `profile` row, keyed by `did`.
#[derive(Debug, Clone, PartialEq, Eq)]
pub struct ProfileRow {
    pub did: String,
    pub avatar: AvatarStruct,
    pub created_at: Option<UtcTime>,
    pub description: Option<String>,
    pub display_name: Option<String>,
    pub labels: Option<Vec<String>>,
    pub pinned_post: Option<String>,
}

/// The `likes_by_author` audit row.
#[derive(Debug, Clone, PartialEq, Eq)]
pub struct LikeAuthorRow {
    pub author: String,
    pub subject: String,
    pub created_at: UtcTime,
    pub cid: Option<String>,
}

/// The `post` row, keyed by post id.
#[derive(Debug, Clone, PartialEq, Eq)]
pub struct PostRow {
    pub author: String,
    pub created_at: UtcTime,
    pub content: String,
    pub id: String,
    pub language: Vec<String>,
    pub reply: ReplyStruct,
    pub tags: Vec<String>,
    pub labels: Vec<String>,
    pub embed: EmbedStruct,
}

} // verus!
