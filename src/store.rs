//! A state model of the four tables, the effect of each write on it, and the
//! replay laws of the pipeline's writes.
use vstd::prelude::*;
use crate::events::{LikeEvent, PostEvent, ProfileEvent};
use crate::rows::{LikeAuthorRow, PostRow, ProfileRow};
use crate::transform::{
    Write, WriteOp, like_row_of, like_writes, post_row_matches, post_writes_match,
    profile_row_of, profile_writes,
};

verus! {

/// The contents of the four tables: `profile` and `post` keyed by did and
/// post id, the append-only `likes_by_author` log, and the `post_likes`
/// counters keyed by subject.
pub struct StoreState {
    pub profiles: Map<Seq<char>, ProfileRow>,
    pub likes_by_author: Seq<LikeAuthorRow>,
    pub post_likes: Map<Seq<char>, int>,
    pub posts: Map<Seq<char>, PostRow>,
}

/// A counter that was never incremented reads as zero.
pub open spec fn likes_of(s: StoreState, subject: Seq<char>) -> int {
    if s.post_likes.contains_key(subject) { s.post_likes[subject] } else { 0 }
}

/// The effect of one write: upserts replace the row under their key, the
/// audit log grows by one row, and a counter grows by the increment.
pub open spec fn apply_write(s: StoreState, w: Write) -> StoreState {
    match w.op {
        WriteOp::UpsertProfile(row) => StoreState {
            profiles: s.profiles.insert(row.did@, row),
            ..s
        },
        WriteOp::AppendLike(row) => StoreState {
            likes_by_author: s.likes_by_author.push(row),
            ..s
        },
        WriteOp::IncrementLikes { subject, by } => StoreState {
            post_likes: s.post_likes.insert(subject@, likes_of(s, subject@) + by),
            ..s
        },
        WriteOp::InsertPost(row) => StoreState {
            posts: s.posts.insert(row.id@, row),
            ..s
        },
    }
}

/// The effect of a sequence of writes, issued in order.
pub open spec fn apply_writes(s: StoreState, ws: Seq<Write>) -> StoreState
    decreases ws.len(),
{
    if ws.len() == 0 {
        s
    } else {
        apply_writes(apply_write(s, ws[0]), ws.drop_first())
    }
}

proof fn lemma_apply_one(s: StoreState, ws: Seq<Write>)
    requires
        ws.len() == 1,
    ensures
        apply_writes(s, ws) == apply_write(s, ws[0]),
{
    let t = apply_write(s, ws[0]);
    assert(ws.drop_first().len() == 0);
    assert(apply_writes(t, ws.drop_first()) == t);
}

proof fn lemma_apply_two(s: StoreState, ws: Seq<Write>)
    requires
        ws.len() == 2,
    ensures
        apply_writes(s, ws) == apply_write(apply_write(s, ws[0]), ws[1]),
{
    let t = apply_write(s, ws[0]);
    lemma_apply_one(t, ws.drop_first());
}

/// Writing a profile event leaves exactly one row under its did, the event's
/// row, and writing the same event again changes nothing.
pub proof fn lemma_profile_replay_idempotent(s: StoreState, ev: ProfileEvent)
    ensures
        ({
            let once = apply_writes(s, profile_writes(ev));
            &&& once.profiles.dom() == s.profiles.dom().insert(ev.did@)
            &&& once.profiles[ev.did@] == profile_row_of(ev)
            &&& apply_writes(once, profile_writes(ev)) == once
        }),
{
    let ws = profile_writes(ev);
    lemma_apply_one(s, ws);
    let once = apply_writes(s, ws);
    lemma_apply_one(once, ws);
    assert(once.profiles.insert(ev.did@, profile_row_of(ev)) =~= once.profiles);
}

/// Writing the same post event twice, each time transformed anew, leaves one
/// row under its id (the last one written, which matches the event), and
/// every other row and table as it was.
pub proof fn lemma_post_replay_one_row(
    s: StoreState,
    ev: PostEvent,
    first: Seq<Write>,
    second: Seq<Write>,
)
    requires
        post_writes_match(ev, first),
        post_writes_match(ev, second),
    ensures
        ({
            let once = apply_writes(s, first);
            let twice = apply_writes(once, second);
            &&& once.posts.dom() == s.posts.dom().insert(ev.id@)
            &&& twice.posts.dom() == once.posts.dom()
            &&& post_row_matches(ev, twice.posts[ev.id@])
            &&& forall|k: Seq<char>| k != ev.id@ && #[trigger] s.posts.contains_key(k)
                ==> twice.posts[k] == s.posts[k]
            &&& twice.profiles == s.profiles
            &&& twice.likes_by_author == s.likes_by_author
            &&& twice.post_likes == s.post_likes
        }),
{
    lemma_apply_one(s, first);
    let once = apply_writes(s, first);
    lemma_apply_one(once, second);
    let twice = apply_writes(once, second);
    assert(once.posts.dom() =~= s.posts.dom().insert(ev.id@));
    assert(twice.posts.dom() =~= once.posts.dom());
}

/// Writing a like event appends its audit row and increments the subject's
/// counter by exactly one.
pub proof fn lemma_like_write_effect(s: StoreState, ev: LikeEvent)
    ensures
        ({
            let once = apply_writes(s, like_writes(ev));
            &&& once.likes_by_author == s.likes_by_author.push(like_row_of(ev))
            &&& likes_of(once, ev.subject@) == likes_of(s, ev.subject@) + 1
            &&& forall|k: Seq<char>| k != ev.subject@ ==> #[trigger] likes_of(once, k) == likes_of(s, k)
            &&& once.profiles == s.profiles
            &&& once.posts == s.posts
        }),
{
    lemma_apply_two(s, like_writes(ev));
}

/// Writing the same like event twice appends two identical audit rows and
/// increments the subject's counter by two: like writes are not idempotent.
pub proof fn lemma_like_replay_counts_twice(s: StoreState, ev: LikeEvent)
    ensures
        ({
            let twice = apply_writes(apply_writes(s, like_writes(ev)), like_writes(ev));
            &&& twice.likes_by_author == s.likes_by_author.push(like_row_of(ev)).push(
                like_row_of(ev),
            )
            &&& likes_of(twice, ev.subject@) == likes_of(s, ev.subject@) + 2
            &&& twice.profiles == s.profiles
            &&& twice.posts == s.posts
        }),
{
    let ws = like_writes(ev);
    lemma_apply_two(s, ws);
    let once = apply_writes(s, ws);
    lemma_apply_two(once, ws);
}

} // verus!
