//! The record transformers, the logical writes they produce, and the dispatcher.
use vstd::prelude::*;
use crate::events::{Event, LikeEvent, PostEvent, ProfileEvent, ReplyRef};
use crate::normalize::{
    avatar_struct, embed_struct_matches, normalize_avatar, normalize_embed, to_utc, utc_of,
};
use crate::rows::{LikeAuthorRow, PostRow, ProfileRow, ReplyStruct, UtcTime, embed_exclusive};

verus! {

/// The consistency levels a write can be issued with.
#[derive(Debug, Clone, Copy, PartialEq, Eq)]
pub enum Consistency {
    Any,
    One,
    Two,
    Three,
    Quorum,
    All,
    LocalQuorum,
    EachQuorum,
    LocalOne,
}

/// A logical write against one of the four tables.
#[derive(Debug, Clone, PartialEq, Eq)]
pub enum WriteOp {
    /// Upsert into `profile`, keyed by the row's `did`.
    UpsertProfile(ProfileRow),
    /// Append an audit row to `likes_by_author`.
    AppendLike(LikeAuthorRow),
    /// Add `by` to the `post_likes` counter of `subject`.
    IncrementLikes { subject: String, by: i64 },
    /// Insert into `post`, keyed by the row's `id`.
    InsertPost(PostRow),
}

/// A write together with the consistency level it is issued with.
#[derive(Debug, Clone, PartialEq, Eq)]
pub struct Write {
    pub op: WriteOp,
    pub consistency: Consistency,
}

/// Every write of this pipeline is issued at local quorum.
pub open spec fn write_at(op: WriteOp) -> Write {
    Write { op, consistency: Consistency::LocalQuorum }
}

pub open spec fn opt_utc(t: Option<crate::events::EventTime>) -> Option<UtcTime> {
    match t {
        Some(t) => Some(utc_of(t)),
        None => None,
    }
}

pub open spec fn profile_row_of(ev: ProfileEvent) -> ProfileRow {
    ProfileRow {
        did: ev.did,
        avatar: avatar_struct(ev.avatar),
        created_at: opt_utc(ev.created_at),
        description: ev.description,
        display_name: ev.display_name,
        labels: ev.labels,
        pinned_post: ev.pinned_post,
    }
}

pub open spec fn like_row_of(ev: LikeEvent) -> LikeAuthorRow {
    LikeAuthorRow {
        author: ev.author,
        subject: ev.subject,
        created_at: utc_of(ev.created_at),
        cid: ev.cid,
    }
}

pub open spec fn reply_struct_of(r: Option<ReplyRef>) -> ReplyStruct {
    match r {
        Some(r) => ReplyStruct { parent: Some(r.parent), root: Some(r.root) },
        None => ReplyStruct { parent: None, root: None },
    }
}

/// The post row of an event; its embed is fixed by `embed_struct_matches`.
pub open spec fn post_row_matches(ev: PostEvent, r: PostRow) -> bool {
    &&& r.author == ev.author
    &&& r.created_at == utc_of(ev.created_at)
    &&& r.content == ev.text
    &&& r.id == ev.id
    &&& r.language == ev.language
    &&& r.reply == reply_struct_of(ev.reply)
    &&& r.tags == ev.tags
    &&& r.labels == ev.labels
    &&& embed_struct_matches(ev.embed, r.embed)
}

pub open spec fn profile_writes(ev: ProfileEvent) -> Seq<Write> {
    seq![write_at(WriteOp::UpsertProfile(profile_row_of(ev)))]
}

pub open spec fn like_writes(ev: LikeEvent) -> Seq<Write> {
    seq![
        write_at(WriteOp::AppendLike(like_row_of(ev))),
        write_at(WriteOp::IncrementLikes { subject: ev.subject, by: 1 }),
    ]
}

/// The writes of a post event: one insert of a row that matches the event.
pub open spec fn post_writes_match(ev: PostEvent, ws: Seq<Write>) -> bool {
    &&& ws.len() == 1
    &&& ws[0].consistency == Consistency::LocalQuorum
    &&& ws[0].op matches WriteOp::InsertPost(row) && post_row_matches(ev, row)
}

/// The writes that an event of the stream produces; `Other` produces none.
pub open spec fn event_writes_match(e: Event, ws: Seq<Write>) -> bool {
    match e {
        Event::Profile(p) => ws == profile_writes(p),
        Event::Like(l) => ws == like_writes(l),
        Event::Post(p) => post_writes_match(p, ws),
        Event::Other => ws.len() == 0,
    }
}

/// Maps a profile event onto its row; every optional field stays
/// independently nullable and a missing avatar gives a fully null avatar.
pub fn profile_row(ev: ProfileEvent) -> (r: ProfileRow)
    ensures
        r == profile_row_of(ev),
        ev.avatar is None ==> r.avatar.cid is None && r.avatar.mime_type is None
            && r.avatar.size is None,
{
    let avatar = normalize_avatar(ev.avatar);
    let created_at = match ev.created_at {
        Some(t) => Some(to_utc(t)),
        None => None,
    };
    ProfileRow {
        did: ev.did,
        avatar,
        created_at,
        description: ev.description,
        display_name: ev.display_name,
        labels: ev.labels,
        pinned_post: ev.pinned_post,
    }
}

/// Maps a like event onto its audit row.
pub fn like_row(ev: LikeEvent) -> (r: LikeAuthorRow)
    ensures
        r == like_row_of(ev),
{
    LikeAuthorRow {
        author: ev.author,
        subject: ev.subject,
        created_at: to_utc(ev.created_at),
        cid: ev.cid,
    }
}

/// Builds a post's reply struct: both references null when it is no reply.
pub fn reply_struct(r: Option<ReplyRef>) -> (s: ReplyStruct)
    ensures
        s == reply_struct_of(r),
        r is None ==> s.parent is None && s.root is None,
{
    match r {
        Some(r) => ReplyStruct { parent: Some(r.parent), root: Some(r.root) },
        None => ReplyStruct { parent: None, root: None },
    }
}

/// Maps a post event onto its row.
pub fn post_row(ev: PostEvent) -> (r: PostRow)
    ensures
        post_row_matches(ev, r),
        ev.reply is None ==> r.reply.parent is None && r.reply.root is None,
        embed_exclusive(r.embed),
{
    let reply = reply_struct(ev.reply);
    let embed = normalize_embed(ev.embed);
    PostRow {
        author: ev.author,
        created_at: to_utc(ev.created_at),
        content: ev.text,
        id: ev.id,
        language: ev.language,
        reply,
        tags: ev.tags,
        labels: ev.labels,
        embed,
    }
}

/// The writes of a profile event: one upsert keyed by `did`.
pub fn handle_profile(val: ProfileEvent) -> (r: Vec<Write>)
    ensures
        r@ == profile_writes(val),
{
    let mut r: Vec<Write> = Vec::new();
    r.push(Write { op: WriteOp::UpsertProfile(profile_row(val)), consistency: Consistency::LocalQuorum });
    r
}

/// The writes of a like event: an audit row, then an increment by one of the
/// subject's counter. The two are independent and neither is idempotent.
pub fn handle_like(val: LikeEvent) -> (r: Vec<Write>)
    ensures
        r@ == like_writes(val),
{
    let subject = val.subject.clone();
    let row = like_row(val);
    let mut r: Vec<Write> = Vec::new();
    r.push(Write { op: WriteOp::AppendLike(row), consistency: Consistency::LocalQuorum });
    r.push(Write {
        op: WriteOp::IncrementLikes { subject, by: 1 },
        consistency: Consistency::LocalQuorum,
    });
    r
}

/// The writes of a post event: one insert keyed by post id.
pub fn handle_post(val: PostEvent) -> (r: Vec<Write>)
    ensures
        post_writes_match(val, r@),
{
    let row = post_row(val);
    let mut r: Vec<Write> = Vec::new();
    r.push(Write { op: WriteOp::InsertPost(row), consistency: Consistency::LocalQuorum });
    r
}

/// Routes one event of the stream to its transformer; events of any other
/// kind produce no write.
pub fn dispatch(event: Event) -> (r: Vec<Write>)
    ensures
        event_writes_match(event, r@),
{
    match event {
        Event::Profile(p) => handle_profile(p),
        Event::Like(l) => handle_like(l),
        Event::Post(p) => handle_post(p),
        Event::Other => Vec::new(),
    }
}

} // verus!
