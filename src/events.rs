//! Incoming domain events, as plain values.
use vstd::prelude::*;

verus! {

/// A blob descriptor attached to a record (content id, MIME type, byte size).
#[derive(Debug, Clone, PartialEq, Eq)]
pub struct BlobRef {
    pub cid: String,
    pub mime_type: String,
    pub size: Option<u64>,
}

/// An instant as the event source reports it: seconds and nanoseconds since
/// the Unix epoch (in UTC), together with the UTC offset it was written in.
#[derive(Debug, Clone, Copy, PartialEq, Eq)]
pub struct EventTime {
    pub unix_secs: i64,
    pub nanos: u32,
    pub offset_secs: i32,
}

/// A media attachment of a post. An image's alt text is always present; a
/// video's may be absent.
#[derive(Debug, Clone, PartialEq, Eq)]
pub enum MediaItem {
    Image { blob: BlobRef, alt: String, aspect_ratio: Option<(u64, u64)> },
    Video { blob: BlobRef, alt: Option<String>, aspect_ratio: Option<(u64, u64)> },
}

/// A link to an external page, with an optional thumbnail.
#[derive(Debug, Clone, PartialEq, Eq)]
pub struct ExternalLink {
    pub description: String,
    pub title: String,
    pub uri: String,
    pub thumb: Option<BlobRef>,
}

/// What a post embeds: a list of media, an external link, or another record.
#[derive(Debug, Clone, PartialEq, Eq)]
pub enum PostEmbed {
    Media(Vec<MediaItem>),
    External(ExternalLink),
    Record(String),
}

/// The references of a reply: the post replied to and the thread's root.
#[derive(Debug, Clone, PartialEq, Eq)]
pub struct ReplyRef {
    pub parent: String,
    pub root: String,
}

/// A profile update.
#[derive(Debug, Clone, PartialEq, Eq)]
pub struct ProfileEvent {
    pub did: String,
    pub avatar: Option<BlobRef>,
    pub created_at: Option<EventTime>,
    pub description: Option<String>,
    pub display_name: Option<String>,
    pub labels: Option<Vec<String>>,
    pub pinned_post: Option<String>,
}

/// A like of a subject (the liked item's identifier) by an author.
#[derive(Debug, Clone, PartialEq, Eq)]
pub struct LikeEvent {
    pub author: String,
    pub subject: String,
    pub created_at: EventTime,
    pub cid: Option<String>,
}

/// A post creation.
#[derive(Debug, Clone, PartialEq, Eq)]
pub struct PostEvent {
    pub author: String,
    pub id: String,
    pub text: String,
    pub language: Vec<String>,
    pub reply: Option<ReplyRef>,
    pub tags: Vec<String>,
    pub labels: Vec<String>,
    pub embed: Option<PostEmbed>,
    pub created_at: EventTime,
}

/// One item of the event stream. `Other` stands for every kind of event that
/// is not modelled here.
#[derive(Debug, Clone, PartialEq, Eq)]
pub enum Event {
    Profile(ProfileEvent),
    Like(LikeEvent),
    Post(PostEvent),
    Other,
}

} // verus!
