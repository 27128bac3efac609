//! The video backend: a decoder per source, a shared cache of open decode
//! sessions keyed by source identifier with per-entry mutual exclusion, and
//! the renderer capability that turns a render job into a pending decode.
//! Concurrent requests against the same source serialize through that
//! source's entry; requests against different sources proceed in parallel.
//!
//! Decoding itself is an external collaborator; this backend models the
//! built-in stand-in, which produces a solid frame whose color is derived
//! from the timestamp, so playback is observable.
//!
//! Two caches take part in a render: scheduling validates the job and
//! opens the source's session in the plugin's own cache, and the worker
//! that later runs the task decodes through the cache its pool shares.
//! Each is governed by the same contracts; which one a decode runs against
//! is the embedder's wiring.

use vstd::prelude::*;

use crate::error::CoreError;
use crate::plugin::{Plugin, PluginReport, Schedule};
use crate::render::{PixelFormat, RawImage, RenderJob, RenderKind, RenderTask, RenderWork, Renderer};
use crate::render::PropertyValue;
use crate::world::WorldState;

verus! {

/// The fixed dimensions of the stand-in decoder's frames.
pub const MOCK_WIDTH: u32 = 1920;

/// The fixed dimensions of the stand-in decoder's frames.
pub const MOCK_HEIGHT: u32 = 1080;

/// The largest frame number a render job may carry; larger frames cannot be
/// mapped to a millisecond timestamp and are rejected as validation errors.
pub const MAX_RENDER_FRAME: u64 = 0x20000000000000;

/// The stand-in frame for a timestamp at the given dimensions: a solid
/// fill whose red, green and blue channels vary with the timestamp so
/// playback is visible, with opaque alpha.
pub open spec fn mock_frame(width: u32, height: u32, ts: int) -> Seq<u8> {
    crate::render::solid_frame(
        width,
        height,
        (ts % 255) as u8,
        ((ts / 2) % 255) as u8,
        ((ts / 3) % 255) as u8,
        255u8,
    )
}

/// An open decode session for one source.
pub struct Decoder {
    width: u32,
    height: u32,
}

impl Decoder {
    /// The width of the frames this session produces.
    pub closed spec fn spec_width(self) -> u32 {
        self.width
    }

    /// The height of the frames this session produces.
    pub closed spec fn spec_height(self) -> u32 {
        self.height
    }

    /// Opens a decode session for a source. The stand-in always opens at
    /// its fixed dimensions; a real backend may fail with a resource error.
    pub fn new(source: &String) -> (r: Result<Decoder, CoreError>)
        ensures
            r matches Ok(d) ==> d.spec_width() == MOCK_WIDTH && d.spec_height() == MOCK_HEIGHT,
            r is Ok,
    {
        Ok(Decoder { width: MOCK_WIDTH, height: MOCK_HEIGHT })
    }

    /// Decodes the frame at a timestamp: a valid image of the session's
    /// dimensions whose pixels all carry the timestamp's color.
    pub fn decode_frame(&mut self, timestamp_ms: i64) -> (r: Result<RawImage, CoreError>)
        requires
            timestamp_ms >= 0,
        ensures
            *final(self) == *old(self),
            r matches Ok(img) ==> {
                &&& img.wf()
                &&& img@.width == old(self).spec_width()
                &&& img@.height == old(self).spec_height()
                &&& img@.format == PixelFormat::Rgba8Unorm
                &&& img@.bytes == mock_frame(
                    old(self).spec_width(),
                    old(self).spec_height(),
                    timestamp_ms as int,
                )
            },
            r is Ok,
    {
        let red = (timestamp_ms % 255) as u8;
        let green = ((timestamp_ms / 2) % 255) as u8;
        let blue = ((timestamp_ms / 3) % 255) as u8;
        let img = crate::render::fill_image(self.width, self.height, red, green, blue, 255);
        Ok(img)
    }
}

/// One cached decode session: its source key, its guard, and the session.
/// `busy` is the per-entry mutual exclusion: at most one render holds an
/// entry at a time, so decodes against the same source are serialized.
pub struct CacheEntry {
    pub key: String,
    pub busy: bool,
    pub decoder: Decoder,
}

impl CacheEntry {
    /// The canonical source identifier this entry is keyed by.
    pub open spec fn spec_key(self) -> Seq<char> {
        self.key@
    }

    /// Whether a render currently holds this entry.
    pub open spec fn spec_busy(self) -> bool {
        self.busy
    }

    /// The cached session.
    pub open spec fn spec_decoder(self) -> Decoder {
        self.decoder
    }
}

/// The shared cache of open decode sessions, keyed by canonical source
/// identifier, each entry independently guarded: no single lock spans the
/// cached resources.
pub struct DecoderCache {
    entries: Vec<CacheEntry>,
}

impl DecoderCache {
    /// The cached entries, in the order their sources were first seen.
    pub closed spec fn entries_seq(self) -> Seq<CacheEntry> {
        self.entries@
    }

    /// Well-formed: one entry per source.
    pub open spec fn wf(self) -> bool {
        forall|i: int, j: int|
            0 <= i < j < self.entries_seq().len() ==> (#[trigger] self.entries_seq()[i]).spec_key()
                != (#[trigger] self.entries_seq()[j]).spec_key()
    }

    /// Whether the cache holds an entry for a source.
    pub open spec fn has_source(self, key: Seq<char>) -> bool {
        exists|i: int|
            0 <= i < self.entries_seq().len() && (#[trigger] self.entries_seq()[i]).spec_key()
                == key
    }

    /// The position of a source's entry.
    pub open spec fn idx_of(self, key: Seq<char>) -> int {
        choose|i: int|
            0 <= i < self.entries_seq().len() && (#[trigger] self.entries_seq()[i]).spec_key()
                == key
    }

    /// Whether a render currently holds the source's entry.
    pub open spec fn busy(self, key: Seq<char>) -> bool {
        self.has_source(key) && self.entries_seq()[self.idx_of(key)].spec_busy()
    }

    /// An empty cache.
    pub fn new() -> (c: DecoderCache)
        ensures
            c.wf(),
            c.entries_seq() =~= Seq::<CacheEntry>::empty(),
    {
        DecoderCache { entries: Vec::new() }
    }

    /// The number of cached sessions.
    pub fn len(&self) -> (n: usize)
        ensures
            n == self.entries_seq().len(),
    {
        self.entries.len()
    }

    /// Drops every cached session.
    pub fn clear(&mut self)
        ensures
            final(self).wf(),
            final(self).entries_seq() =~= Seq::<CacheEntry>::empty(),
    {
        self.entries.clear();
    }

    /// Whether a render currently holds the source's entry.
    pub fn is_busy(&self, key: &String) -> (r: bool)
        requires
            self.wf(),
        ensures
            r == self.busy(key@),
    {
        match self.lookup(key) {
            Option::Some(i) => self.entries[i].busy,
            Option::None => false,
        }
    }

    /// The position of a source's entry, if the source is cached.
    fn lookup(&self, key: &String) -> (r: Option<usize>)
        requires
            self.wf(),
        ensures
            r is Some <==> self.has_source(key@),
            r matches Some(i) ==> {
                &&& 0 <= i < self.entries_seq().len()
                &&& self.entries_seq()[i as int].spec_key() == key@
                &&& i == self.idx_of(key@)
            },
    {
        let mut i: usize = 0;
        #[verifier::loop_isolation(false)]
        while i < self.entries.len()
            invariant
                i <= self.entries.len(),
                forall|k: int| 0 <= k < i ==> (#[trigger] self.entries_seq()[k]).spec_key() != key@,
            decreases self.entries.len() - i,
        {
            if self.entries[i].key == *key {
                proof {
                    let j = self.idx_of(key@);
                    if j != i {
                        assert(self.entries_seq()[j].spec_key() == key@);
                    }
                }
                return Option::Some(i);
            }
            i = i + 1;
        }
        Option::None
    }

    /// Opens the source's session if none is cached yet; either way the
    /// source is cached afterwards, with its guard and session untouched if
    /// it already was.
    pub fn ensure_entry(&mut self, key: &String) -> (r: usize)
        requires
            old(self).wf(),
            old(self).entries_seq().len() < usize::MAX,
        ensures
            final(self).wf(),
            final(self).has_source(key@),
            r == final(self).idx_of(key@),
            r < final(self).entries_seq().len(),
            final(self).entries_seq()[r as int].spec_key() == key@,
            old(self).has_source(key@) ==> *final(self) == *old(self),
            !old(self).has_source(key@) ==> {
                &&& final(self).entries_seq().len() == old(self).entries_seq().len() + 1
                &&& final(self).entries_seq().subrange(0, old(self).entries_seq().len() as int)
                    == old(self).entries_seq()
                &&& r == old(self).entries_seq().len()
                &&& !final(self).entries_seq()[r as int].spec_busy()
                &&& final(self).entries_seq()[r as int].spec_decoder().spec_width() == MOCK_WIDTH
                &&& final(self).entries_seq()[r as int].spec_decoder().spec_height() == MOCK_HEIGHT
            },
    {
        let found = self.lookup(key);
        match found {
            Option::Some(i) => i,
            Option::None => {
                let decoder = match Decoder::new(key) {
                    Ok(d) => d,
                    Err(_) => {
                        proof {
                            assert(false);
                        }
                        Decoder { width: MOCK_WIDTH, height: MOCK_HEIGHT }
                    },
                };
                let entry = CacheEntry { key: clone_string(key), busy: false, decoder };
                let i = self.entries.len();
                self.entries.push(entry);
                proof {
                    assert(self.entries_seq().subrange(0, i as int) =~= old(self).entries_seq());
                    assert(self.entries_seq()[i as int].spec_key() == key@);
                    let j = self.idx_of(key@);
                    if j != i {
                        assert(self.entries_seq()[j].spec_key() == key@);
                        if j < i {
                            assert(old(self).entries_seq()[j].spec_key() == key@);
                        }
                    }
                }
                i
            },
        }
    }

    /// Takes the source's guard if the source is cached and free: the
    /// caller then holds the entry exclusively until `release`. A busy
    /// entry yields `None` — the caller must wait — and entries of every
    /// other source are untouched either way.
    pub fn acquire(&mut self, key: &String) -> (r: Option<usize>)
        requires
            old(self).wf(),
        ensures
            final(self).wf(),
            final(self).entries_seq().len() == old(self).entries_seq().len(),
            r is Some <==> old(self).has_source(key@) && !old(self).busy(key@),
            r matches Some(i) ==> {
                &&& i == old(self).idx_of(key@)
                &&& final(self).entries_seq() == old(self).entries_seq().update(
                    i as int,
                    CacheEntry {
                        key: old(self).entries_seq()[i as int].key,
                        busy: true,
                        decoder: old(self).entries_seq()[i as int].decoder,
                    },
                )
            },
            r is None ==> *final(self) == *old(self),
    {
        let found = self.lookup(key);
        match found {
            Option::Some(i) => {
                if self.entries[i].busy {
                    Option::None
                } else {
                    self.entries[i].busy = true;
                    Option::Some(i)
                }
            },
            Option::None => Option::None,
        }
    }

    /// Returns a held guard: the entry becomes free again, and entries of
    /// every other source are untouched.
    pub fn release(&mut self, i: usize)
        requires
            old(self).wf(),
            i < old(self).entries_seq().len(),
        ensures
            final(self).wf(),
            final(self).entries_seq() == old(self).entries_seq().update(
                i as int,
                CacheEntry {
                    key: old(self).entries_seq()[i as int].key,
                    busy: false,
                    decoder: old(self).entries_seq()[i as int].decoder,
                },
            ),
    {
        self.entries[i].busy = false;
    }

    /// Decodes a frame through a held entry. The guard must be held: this
    /// is what serializes decodes against one source while decodes against
    /// different sources proceed in parallel.
    pub fn decode_held(&mut self, i: usize, timestamp_ms: i64) -> (r: Result<RawImage, CoreError>)
        requires
            old(self).wf(),
            i < old(self).entries_seq().len(),
            old(self).entries_seq()[i as int].spec_busy(),
            timestamp_ms >= 0,
        ensures
            final(self).wf(),
            final(self).entries_seq() == old(self).entries_seq(),
            r matches Ok(img) ==> {
                &&& img.wf()
                &&& img@.width == old(self).entries_seq()[i as int].spec_decoder().spec_width()
                &&& img@.height == old(self).entries_seq()[i as int].spec_decoder().spec_height()
                &&& img@.bytes == mock_frame(
                    old(self).entries_seq()[i as int].spec_decoder().spec_width(),
                    old(self).entries_seq()[i as int].spec_decoder().spec_height(),
                    timestamp_ms as int,
                )
            },
            r is Ok,
    {
        let r = self.entries[i].decoder.decode_frame(timestamp_ms);
        proof {
            assert(self.entries_seq() =~= old(self).entries_seq());
        }
        r
    }
}

/// Source serialization: a successful `acquire` of one source leaves every
/// other source's entry — its guard included — exactly as it was, so
/// holding one source never blocks work against another.
pub proof fn lemma_distinct_sources_independent(
    pre: DecoderCache,
    post: DecoderCache,
    k1: Seq<char>,
    k2: Seq<char>,
    i: int,
)
    requires
        pre.wf(),
        pre.has_source(k1),
        i == pre.idx_of(k1),
        post.entries_seq() == pre.entries_seq().update(
            i,
            CacheEntry {
                key: pre.entries_seq()[i].key,
                busy: true,
                decoder: pre.entries_seq()[i].decoder,
            },
        ),
        k2 != k1,
        pre.has_source(k2),
    ensures
        post.has_source(k2),
        post.busy(k2) == pre.busy(k2),
{
    assert(0 <= i < pre.entries_seq().len());
    assert(pre.entries_seq()[i].spec_key() == k1);
    let j = pre.idx_of(k2);
    assert(pre.entries_seq()[j].spec_key() == k2);
    assert(j != i);
    assert(post.entries_seq()[j].spec_key() == k2);
    assert(post.has_source(k2));
    let j2 = post.idx_of(k2);
    assert(post.entries_seq()[j2].spec_key() == k2);
    if j2 != j {
        if j2 == i {
            assert(post.entries_seq()[i].spec_key() == k1);
        } else {
            assert(pre.entries_seq()[j2].spec_key() == k2);
        }
    }
    assert(post.entries_seq()[j2].spec_busy() == pre.entries_seq()[j].spec_busy());
}

/// The video renderer plugin: keeps the shared decode-session cache and
/// schedules decode tasks for render jobs that name a video source.
pub struct VideoPlugin {
    /// Open decode sessions, keyed by source, each independently guarded.
    pub decoders: DecoderCache,
}

/// The first value of the named parameter, if the job carries one.
pub open spec fn spec_param(params: Seq<(String, PropertyValue)>, name: Seq<char>) -> Option<
    PropertyValue,
>
    decreases params.len(),
{
    if params.len() == 0 {
        Option::None
    } else if params[0].0@ == name {
        Option::Some(params[0].1)
    } else {
        spec_param(params.drop_first(), name)
    }
}

/// The source string of a path parameter value, for the two accepted
/// shapes.
pub open spec fn spec_path_of(v: PropertyValue) -> Option<Seq<char>> {
    match v {
        PropertyValue::Text(s) => Option::Some(s@),
        PropertyValue::PathText(s) => Option::Some(s@),
        PropertyValue::Number(_) => Option::None,
    }
}

impl VideoPlugin {
    /// Validates the job's `path` parameter and frame number, opens or
    /// reuses the source's decode session, and returns the pending decode:
    /// a video-frame task whose timestamp maps the frame at 60 frames per
    /// second. A missing or mistyped `path`, or a frame beyond the
    /// representable range, is a validation error; only a valid job touches
    /// the cache.
    pub fn schedule_video_render(&mut self, job: RenderJob) -> (r: Result<RenderTask, CoreError>)
        requires
            old(self).decoders.wf(),
        ensures
            final(self).decoders.wf(),
            r is Ok <==> {
                &&& spec_param(job.params@, "path"@) matches Option::Some(v)
                &&& spec_path_of(v) is Some
                &&& job.frame <= MAX_RENDER_FRAME
                &&& old(self).decoders.entries_seq().len() < usize::MAX
            },
            r matches Err(e) ==> e is Validation && *final(self) == *old(self),
            r matches Ok(t) ==> {
                &&& t.target == job.target
                &&& t.kind == RenderKind::Video
                &&& (t.work matches RenderWork::Decode { source, timestamp_ms } ==> {
                    &&& Option::Some(source@) == spec_path_of(
                        spec_param(job.params@, "path"@).unwrap(),
                    )
                    &&& timestamp_ms == (job.frame * 1000) / 60
                    &&& timestamp_ms >= 0
                    &&& final(self).decoders.has_source(source@)
                    &&& old(self).decoders.has_source(source@)
                        ==> final(self).decoders.entries_seq() == old(
                        self,
                    ).decoders.entries_seq()
                    &&& !old(self).decoders.has_source(source@) ==> {
                        &&& final(self).decoders.entries_seq().len() == old(
                            self,
                        ).decoders.entries_seq().len() + 1
                        &&& final(self).decoders.entries_seq().subrange(
                            0,
                            old(self).decoders.entries_seq().len() as int,
                        ) == old(self).decoders.entries_seq()
                        &&& final(self).decoders.entries_seq().last().spec_key() == source@
                        &&& !final(self).decoders.entries_seq().last().spec_busy()
                    }
                })
                &&& t.work is Decode
            },
    {
        let pname = String::from_str("path");
        let pidx = match find_param_idx(&job.params, &pname) {
            Option::Some(i) => i,
            Option::None => {
                return Err(
                    CoreError::Validation {
                        name: String::from_str("path"),
                        reason: String::from_str("missing path property for video render job"),
                    },
                );
            },
        };
        let key: String = match &job.params[pidx].1 {
            PropertyValue::Text(st) => clone_string(st),
            PropertyValue::PathText(st) => clone_string(st),
            PropertyValue::Number(_) => {
                return Err(
                    CoreError::Validation {
                        name: String::from_str("path"),
                        reason: String::from_str("path property must be a string or a path"),
                    },
                );
            },
        };
        if job.frame > MAX_RENDER_FRAME {
            return Err(
                CoreError::Validation {
                    name: String::from_str("frame"),
                    reason: String::from_str("frame number beyond the representable range"),
                },
            );
        }
        if self.decoders.len() == usize::MAX {
            return Err(
                CoreError::Validation {
                    name: String::from_str("path"),
                    reason: String::from_str("decoder cache is full"),
                },
            );
        }
        self.decoders.ensure_entry(&key);
        let timestamp_ms = ((job.frame * 1000) / 60) as i64;
        Ok(
            RenderTask {
                target: job.target,
                kind: RenderKind::Video,
                work: RenderWork::Decode { source: key, timestamp_ms },
            },
        )
    }
}

impl Renderer for VideoPlugin {
    open spec fn ready(&self) -> bool {
        self.decoders.wf()
    }

    fn schedule_render(&mut self, job: RenderJob) -> (r: Result<RenderTask, CoreError>) {
        self.schedule_video_render(job)
    }
}

/// The position of the first parameter with the given name, if the job
/// carries one.
fn find_param_idx(params: &Vec<(String, PropertyValue)>, name: &String) -> (r: Option<usize>)
    ensures
        r is Some <==> spec_param(params@, name@) is Some,
        r matches Some(i) ==> {
            &&& 0 <= i < params@.len()
            &&& params@[i as int].0@ == name@
            &&& spec_param(params@, name@) == Option::Some(params@[i as int].1)
        },
{
    let mut i: usize = 0;
    proof {
        assert(params@.skip(0) =~= params@);
    }
    #[verifier::loop_isolation(false)]
    while i < params.len()
        invariant
            i <= params.len(),
            spec_param(params@, name@) == spec_param(params@.skip(i as int), name@),
        decreases params.len() - i,
    {
        proof {
            assert(params@.skip(i as int)[0] == params@[i as int]);
            assert(params@.skip(i as int).drop_first() =~= params@.skip(i + 1));
        }
        if params[i].0.eq(name) {
            proof {
                assert(spec_param(params@.skip(i as int), name@) == Option::Some(
                    params@[i as int].1,
                ));
            }
            return Option::Some(i);
        }
        i = i + 1;
    }
    proof {
        assert(params@.skip(params@.len() as int).len() == 0);
    }
    Option::None
}

/// An exact copy of a string's characters.
pub fn clone_string(s: &String) -> (r: String)
    ensures
        r@ == s@,
{
    s.clone()
}

impl Plugin for VideoPlugin {
    fn new() -> (p: VideoPlugin) {
        VideoPlugin { decoders: DecoderCache::new() }
    }

    fn name(&self) -> &'static str {
        "Video Backend"
    }

    fn init(&mut self, world: &mut WorldState) -> Result<(), CoreError> {
        Ok(())
    }

    fn add_schedule(&mut self, schedule: &mut Schedule) -> Result<(), CoreError> {
        Ok(())
    }

    fn update_world(&mut self, world: &mut WorldState) -> Result<(), CoreError> {
        Ok(())
    }

    fn report(&self) -> PluginReport {
        PluginReport::Operational
    }

    fn shutdown(&mut self, world: &mut WorldState) {
    }

    fn reset(&mut self, world: &mut WorldState) {
        self.decoders.clear();
    }

    fn take_ui_state(&mut self) -> Option<crate::bridge::UiValue> {
        Option::None
    }
}

} // verus!
