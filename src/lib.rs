//! Normalization of social-network firehose events into storage rows.
//!
//! Incoming events (profile updates, likes, posts) are mapped onto flat,
//! denormalized rows and the logical writes that persist them. The storage
//! collaborator itself is described by a state model whose laws (upserts are
//! idempotent, like counters are not) are proved in [`store`].
pub mod events;
pub mod rows;
pub mod normalize;
pub mod transform;
pub mod store;
pub mod retry;
