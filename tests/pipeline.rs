use social_ingest::events::{
    BlobRef, Event, EventTime, ExternalLink, LikeEvent, MediaItem, PostEmbed, PostEvent,
    ProfileEvent, ReplyRef,
};
use social_ingest::normalize::{
    normalize_aspect, normalize_avatar, normalize_blob, normalize_embed, normalize_media,
    size_to_column, to_utc,
};
use social_ingest::rows::{AspectMap, BlobStruct, ExternalRef, LikeAuthorRow, MediaKind, UtcTime};
use social_ingest::transform::{
    dispatch, handle_like, handle_post, handle_profile, like_row, post_row, profile_row,
    reply_struct, Consistency, WriteOp,
};

fn s(x: &str) -> String {
    x.to_string()
}

fn time(secs: i64) -> EventTime {
    EventTime { unix_secs: secs, nanos: 250, offset_secs: 3600 }
}

fn blob(cid: &str, size: Option<u64>) -> BlobRef {
    BlobRef { cid: s(cid), mime_type: s("image/png"), size }
}

fn profile(avatar: Option<BlobRef>) -> ProfileEvent {
    ProfileEvent {
        did: s("did:plc:carol"),
        avatar,
        created_at: Some(time(1_700_000_000)),
        description: Some(s("hello")),
        display_name: None,
        labels: Some(vec![s("bot")]),
        pinned_post: None,
    }
}

fn post(reply: Option<ReplyRef>, embed: Option<PostEmbed>) -> PostEvent {
    PostEvent {
        author: s("did:plc:dave"),
        id: s("at://dave/post/7"),
        text: s("some text"),
        language: vec![s("en")],
        reply,
        tags: vec![s("rust")],
        labels: vec![],
        embed,
        created_at: time(1_700_000_100),
    }
}

fn like() -> LikeEvent {
    LikeEvent {
        author: s("did:alice"),
        subject: s("at://bob/post/1"),
        created_at: time(1_700_000_200),
        cid: Some(s("bafyreib")),
    }
}

#[test]
fn profile_without_avatar_has_null_avatar() {
    let row = profile_row(profile(None));
    assert_eq!(row.avatar.cid, None);
    assert_eq!(row.avatar.mime_type, None);
    assert_eq!(row.avatar.size, None);
    assert_eq!(row.did, "did:plc:carol");
}

#[test]
fn profile_with_avatar_keeps_fields() {
    let row = profile_row(profile(Some(blob("bafyav", Some(1234)))));
    assert_eq!(row.avatar.cid, Some(s("bafyav")));
    assert_eq!(row.avatar.mime_type, Some(s("image/png")));
    assert_eq!(row.avatar.size, Some(1234));
    assert_eq!(row.created_at, Some(UtcTime { unix_secs: 1_700_000_000, nanos: 250 }));
    assert_eq!(row.description, Some(s("hello")));
    assert_eq!(row.display_name, None);
    assert_eq!(row.labels, Some(vec![s("bot")]));
    assert_eq!(row.pinned_post, None);
}

#[test]
fn avatar_without_size_has_null_size() {
    let a = normalize_avatar(Some(blob("bafyav", None)));
    assert_eq!(a.cid, Some(s("bafyav")));
    assert_eq!(a.size, None);
}

#[test]
fn blob_size_out_of_column_range_is_null() {
    assert_eq!(size_to_column(Some(u64::MAX)), None);
    assert_eq!(size_to_column(Some(i64::MAX as u64)), Some(i64::MAX));
    assert_eq!(size_to_column(None), None);
    let b = normalize_blob(blob("c1", Some(10)));
    assert_eq!(b, BlobStruct { cid: s("c1"), mime_type: s("image/png"), size: Some(10) });
}

#[test]
fn utc_conversion_keeps_the_instant() {
    let t = EventTime { unix_secs: -5, nanos: 7, offset_secs: -18000 };
    assert_eq!(to_utc(t), UtcTime { unix_secs: -5, nanos: 7 });
}

#[test]
fn post_without_reply_has_null_reply() {
    let row = post_row(post(None, None));
    assert_eq!(row.reply.parent, None);
    assert_eq!(row.reply.root, None);
    assert_eq!(row.id, "at://dave/post/7");
    assert_eq!(row.author, "did:plc:dave");
    assert_eq!(row.content, "some text");
    assert_eq!(row.language, vec![s("en")]);
    assert_eq!(row.tags, vec![s("rust")]);
    assert_eq!(row.created_at, UtcTime { unix_secs: 1_700_000_100, nanos: 250 });
}

#[test]
fn post_with_reply_keeps_references() {
    let r = reply_struct(Some(ReplyRef { parent: s("at://p"), root: s("at://r") }));
    assert_eq!(r.parent, Some(s("at://p")));
    assert_eq!(r.root, Some(s("at://r")));
}

#[test]
fn post_without_embed_has_empty_embed() {
    let row = post_row(post(None, None));
    assert!(row.embed.media.is_empty());
    assert_eq!(row.embed.external, None);
    assert_eq!(row.embed.record, None);
}

#[test]
fn embed_branches_are_exclusive() {
    let media = normalize_embed(Some(PostEmbed::Media(vec![MediaItem::Image {
        blob: blob("img", Some(1)),
        alt: s("a"),
        aspect_ratio: None,
    }])));
    assert_eq!(media.media.len(), 1);
    assert_eq!(media.external, None);
    assert_eq!(media.record, None);

    let record = normalize_embed(Some(PostEmbed::Record(s("at://x/post/2"))));
    assert!(record.media.is_empty());
    assert_eq!(record.external, None);
    assert_eq!(record.record, Some(s("at://x/post/2")));

    let empty_media = normalize_embed(Some(PostEmbed::Media(vec![])));
    assert!(empty_media.media.is_empty());
    assert_eq!(empty_media.external, None);
    assert_eq!(empty_media.record, None);
}

#[test]
fn image_with_aspect_ratio_maps_to_width_and_height() {
    let item = normalize_media(MediaItem::Image {
        blob: blob("img", Some(99)),
        alt: s("a cat"),
        aspect_ratio: Some((16, 9)),
    });
    assert_eq!(item.kind, MediaKind::Image);
    assert_eq!(item.kind.tag(), "Image");
    assert_eq!(item.alt, Some(s("a cat")));
    assert_eq!(item.aspect_ratio, Some(AspectMap { width: 16, height: 9 }));
    let entries = item.aspect_ratio.unwrap().entries();
    assert_eq!(entries, vec![(s("width"), 16), (s("height"), 9)]);
}

#[test]
fn video_keeps_optional_alt() {
    let item = normalize_media(MediaItem::Video {
        blob: blob("vid", Some(5)),
        alt: None,
        aspect_ratio: None,
    });
    assert_eq!(item.kind.tag(), "Video");
    assert_eq!(item.alt, None);
    assert_eq!(item.aspect_ratio, None);
    assert_eq!(item.blob.cid, "vid");
}

#[test]
fn aspect_ratio_out_of_range_is_null() {
    assert_eq!(normalize_aspect(Some((1u64 << 31, 9))), None);
    assert_eq!(normalize_aspect(Some((i32::MAX as u64, 1))), Some(AspectMap { width: i32::MAX, height: 1 }));
    assert_eq!(normalize_aspect(None), None);
}

#[test]
fn media_list_keeps_order() {
    let e = normalize_embed(Some(PostEmbed::Media(vec![
        MediaItem::Image { blob: blob("first", Some(1)), alt: s(""), aspect_ratio: None },
        MediaItem::Video { blob: blob("second", Some(2)), alt: Some(s("v")), aspect_ratio: Some((4, 3)) },
    ])));
    assert_eq!(e.media.len(), 2);
    assert_eq!(e.media[0].blob.cid, "first");
    assert_eq!(e.media[0].kind, MediaKind::Image);
    assert_eq!(e.media[1].blob.cid, "second");
    assert_eq!(e.media[1].kind, MediaKind::Video);
    assert_eq!(e.media[1].aspect_ratio, Some(AspectMap { width: 4, height: 3 }));
}

#[test]
fn like_scenario_writes_row_and_increments_counter() {
    let ws = handle_like(like());
    assert_eq!(ws.len(), 2);
    match &ws[0].op {
        WriteOp::AppendLike(row) => {
            assert_eq!(
                *row,
                LikeAuthorRow {
                    author: s("did:alice"),
                    subject: s("at://bob/post/1"),
                    created_at: UtcTime { unix_secs: 1_700_000_200, nanos: 250 },
                    cid: Some(s("bafyreib")),
                }
            );
        }
        other => panic!("unexpected write {:?}", other),
    }
    assert_eq!(ws[1].op, WriteOp::IncrementLikes { subject: s("at://bob/post/1"), by: 1 });
    assert!(ws.iter().all(|w| w.consistency == Consistency::LocalQuorum));
    assert_eq!(like_row(like()).cid, Some(s("bafyreib")));
}

#[test]
fn like_replay_increments_twice() {
    let mut all = handle_like(like());
    all.extend(handle_like(like()));
    let increments: i64 = all
        .iter()
        .map(|w| match &w.op {
            WriteOp::IncrementLikes { subject, by } if subject == "at://bob/post/1" => *by,
            _ => 0,
        })
        .sum();
    let appends = all.iter().filter(|w| matches!(w.op, WriteOp::AppendLike(_))).count();
    assert_eq!(increments, 2);
    assert_eq!(appends, 2);
}

#[test]
fn profile_replay_writes_the_same_upsert() {
    let first = handle_profile(profile(Some(blob("bafyav", Some(3)))));
    let second = handle_profile(profile(Some(blob("bafyav", Some(3)))));
    assert_eq!(first.len(), 1);
    assert_eq!(first, second);
    match &first[0].op {
        WriteOp::UpsertProfile(row) => assert_eq!(row.did, "did:plc:carol"),
        other => panic!("unexpected write {:?}", other),
    }
    assert_eq!(first[0].consistency, Consistency::LocalQuorum);
}

#[test]
fn post_replay_writes_the_same_insert() {
    let first = handle_post(post(None, Some(PostEmbed::Record(s("at://x")))));
    let second = handle_post(post(None, Some(PostEmbed::Record(s("at://x")))));
    assert_eq!(first.len(), 1);
    assert_eq!(first, second);
    match &first[0].op {
        WriteOp::InsertPost(row) => assert_eq!(row.id, "at://dave/post/7"),
        other => panic!("unexpected write {:?}", other),
    }
}

#[test]
fn post_external_scenario() {
    let row = post_row(post(
        None,
        Some(PostEmbed::External(ExternalLink {
            description: s("d"),
            title: s("Example"),
            uri: s("https://example.com"),
            thumb: None,
        })),
    ));
    assert!(row.embed.media.is_empty());
    assert_eq!(
        row.embed.external,
        Some(ExternalRef {
            description: s("d"),
            thumb: None,
            title: s("Example"),
            uri: s("https://example.com"),
        })
    );
    assert_eq!(row.embed.record, None);
}

#[test]
fn external_thumbnail_is_normalized() {
    let e = normalize_embed(Some(PostEmbed::External(ExternalLink {
        description: s("d"),
        title: s("t"),
        uri: s("u"),
        thumb: Some(blob("thumb", Some(u64::MAX))),
    })));
    let ext = e.external.unwrap();
    assert_eq!(ext.thumb, Some(BlobStruct { cid: s("thumb"), mime_type: s("image/png"), size: None }));
}

#[test]
fn dispatch_routes_each_kind() {
    assert!(dispatch(Event::Other).is_empty());
    assert_eq!(dispatch(Event::Like(like())).len(), 2);
    assert_eq!(dispatch(Event::Profile(profile(None))), handle_profile(profile(None)));
    let ws = dispatch(Event::Post(post(None, None)));
    assert_eq!(ws.len(), 1);
    assert!(matches!(ws[0].op, WriteOp::InsertPost(_)));
}
