//! Priority classes and the pool families they map onto.
//!
//! The orchestrator partitions its workers into three pool families; each of
//! the six priority classes is served by exactly one family. The mapping is a
//! capacity partition, not a priority queue: within one pool, units are served
//! in submission order.

use vstd::prelude::*;

verus! {

/// A scheduling class for a submitted unit of work.
#[derive(Clone, Copy, Debug, PartialEq, Eq, Structural)]
pub enum Priority {
    Immediate,
    Normal,
    Deferred,
    Frame,
    VideoFrame,
    Background,
}

/// One of the orchestrator's three worker-pool families.
#[derive(Clone, Copy, Debug, PartialEq, Eq, Structural)]
pub enum PoolFamily {
    DefaultPool,
    FramePool,
    BackgroundPool,
}

/// The pool family that serves a priority class: interactive classes go to
/// the default pool, frame rendering to the frame pool, and background work
/// to the background pool.
pub open spec fn spec_pool_of(p: Priority) -> PoolFamily {
    match p {
        Priority::Immediate => PoolFamily::DefaultPool,
        Priority::Normal => PoolFamily::DefaultPool,
        Priority::Deferred => PoolFamily::DefaultPool,
        Priority::Frame => PoolFamily::FramePool,
        Priority::VideoFrame => PoolFamily::FramePool,
        Priority::Background => PoolFamily::BackgroundPool,
    }
}

/// Maps a priority class to the pool family that serves it.
#[verifier::when_used_as_spec(spec_pool_of)]
pub fn pool_of(p: Priority) -> (f: PoolFamily)
    ensures
        f == spec_pool_of(p),
{
    match p {
        Priority::Immediate | Priority::Normal | Priority::Deferred => PoolFamily::DefaultPool,
        Priority::Frame | Priority::VideoFrame => PoolFamily::FramePool,
        Priority::Background => PoolFamily::BackgroundPool,
    }
}

} // verus!
