//! Images and the render pipeline's data model: the in-memory image type,
//! render requests and jobs, the registry of available renderers, and the
//! per-tick dispatch routine that turns entity-attached render requests into
//! orchestrator jobs.

use vstd::prelude::*;

use crate::counting::{count_where, lemma_count_prefix_extend, lemma_count_full_prefix};
use crate::error::CoreError;
use crate::orchestrator::Orchestrator;
use crate::priority::Priority;
use crate::triangle::{TriangleRenderer, TRIANGLE_BLUE, TRIANGLE_GREEN, TRIANGLE_RED};
use crate::video::{mock_frame, spec_param, spec_path_of, DecoderCache, VideoPlugin, MAX_RENDER_FRAME, MOCK_HEIGHT, MOCK_WIDTH};
use crate::world::{EntityId, EntityRecord, WorldState};

verus! {

/// The pixel layout of an in-memory image.
#[derive(Clone, Copy, Debug, PartialEq, Eq, Structural)]
pub enum PixelFormat {
    Rgba8Unorm,
}

/// Bytes each pixel occupies in every supported format.
pub const BYTES_PER_PIXEL: u64 = 4;


/// A render request attached to an entity: "render this entity for frame
/// `frame`, optionally with the named renderer instead of the active one".
/// It is removed the moment it is dispatched, so it cannot be dispatched
/// twice.
#[derive(Clone, Debug)]
pub struct RenderRequest {
    /// The frame number to render.
    pub frame: u64,
    /// Overrides the active renderer by name, when present.
    pub renderer_name: Option<String>,
}

/// The mathematical content of an image: its dimensions, format tag and
/// bytes.
pub struct ImageView {
    pub width: u32,
    pub height: u32,
    pub format: PixelFormat,
    pub bytes: Seq<u8>,
}

impl ImageView {
    /// A valid image: the buffer holds exactly the bytes its dimensions
    /// require.
    pub open spec fn wf(self) -> bool {
        self.bytes.len() == self.width * self.height * BYTES_PER_PIXEL
    }
}

/// An in-memory image: dimensions, a pixel format tag, and the raw byte
/// buffer, whose length always matches the dimensions.
#[derive(Clone, Debug)]
pub struct RawImage {
    width: u32,
    height: u32,
    format: PixelFormat,
    bytes: Vec<u8>,
}

impl View for RawImage {
    type V = ImageView;

    closed spec fn view(&self) -> ImageView {
        ImageView {
            width: self.width,
            height: self.height,
            format: self.format,
            bytes: self.bytes@,
        }
    }
}

impl RawImage {
    /// A valid image: the buffer holds exactly the bytes its dimensions
    /// require.
    pub open spec fn wf(self) -> bool {
        self@.wf()
    }

    /// Builds an image whose buffer is already known to match.
    fn from_parts(format: PixelFormat, width: u32, height: u32, bytes: Vec<u8>) -> (r: RawImage)
        requires
            bytes@.len() == width * height * BYTES_PER_PIXEL,
        ensures
            r.wf(),
            r@ == (ImageView { width, height, format, bytes: bytes@ }),
    {
        RawImage { width, height, format, bytes }
    }

    /// Builds an image from its parts, validating that the buffer length
    /// matches the dimensions; a mismatched buffer is a validation error.
    pub fn from_bytes(format: PixelFormat, width: u32, height: u32, bytes: Vec<u8>) -> (r: Result<
        RawImage,
        CoreError,
    >)
        ensures
            r is Ok <==> bytes@.len() == width * height * BYTES_PER_PIXEL,
            r matches Ok(img) ==> {
                &&& img.wf()
                &&& img@ == (ImageView { width, height, format, bytes: bytes@ })
            },
            r matches Err(e) ==> e is Validation,
    {
        proof {
            assert((width as int) * (height as int) * (BYTES_PER_PIXEL as int) <= 0xffff_ffff
                * 0xffff_ffff * 4) by (nonlinear_arith)
                requires
                    0 <= width as int <= 0xffff_ffff,
                    0 <= height as int <= 0xffff_ffff,
            ;
        }
        let expected: u128 = (width as u128) * (height as u128) * (BYTES_PER_PIXEL as u128);
        if (bytes.len() as u128) == expected {
            Ok(RawImage { width, height, format, bytes })
        } else {
            Err(
                CoreError::Validation {
                    name: String::from_str("bytes"),
                    reason: String::from_str("buffer length does not match the dimensions"),
                },
            )
        }
    }

    /// Builds an 8-bit RGBA image from a raw buffer, validating its length.
    pub fn from_rgba8(width: u32, height: u32, data: Vec<u8>) -> (r: Result<RawImage, CoreError>)
        ensures
            r is Ok <==> data@.len() == width * height * BYTES_PER_PIXEL,
            r matches Ok(img) ==> {
                &&& img.wf()
                &&& img@ == (ImageView {
                    width,
                    height,
                    format: PixelFormat::Rgba8Unorm,
                    bytes: data@,
                })
            },
            r matches Err(e) ==> e is Validation,
    {
        RawImage::from_bytes(PixelFormat::Rgba8Unorm, width, height, data)
    }

    /// The image's width in pixels.
    pub fn width(&self) -> (w: u32)
        ensures
            w == self@.width,
    {
        self.width
    }

    /// The image's height in pixels.
    pub fn height(&self) -> (h: u32)
        ensures
            h == self@.height,
    {
        self.height
    }

    /// The image's pixel format tag.
    pub fn pixel_format(&self) -> (f: PixelFormat)
        ensures
            f == self@.format,
    {
        self.format
    }

    /// The image's raw bytes.
    pub fn as_bytes(&self) -> (b: &Vec<u8>)
        ensures
            b@ == self@.bytes,
    {
        &self.bytes
    }

    /// An exact copy of the image.
    pub fn duplicate(&self) -> (r: RawImage)
        ensures
            r@ == self@,
    {
        let mut out: Vec<u8> = Vec::new();
        let mut i: usize = 0;
        #[verifier::loop_isolation(false)]
        while i < self.bytes.len()
            invariant
                i <= self.bytes.len(),
                out@ =~= self.bytes@.subrange(0, i as int),
            decreases self.bytes.len() - i,
        {
            out.push(self.bytes[i]);
            i = i + 1;
        }
        proof {
            assert(out@ =~= self.bytes@);
        }
        RawImage { width: self.width, height: self.height, format: self.format, bytes: out }
    }
}

/// A solid color's byte at one position of an RGBA buffer.
pub open spec fn solid_byte(red: u8, green: u8, blue: u8, alpha: u8, i: int) -> u8 {
    if i % 4 == 0 {
        red
    } else if i % 4 == 1 {
        green
    } else if i % 4 == 2 {
        blue
    } else {
        alpha
    }
}

/// A whole RGBA buffer of one solid color at the given dimensions.
pub open spec fn solid_frame(width: u32, height: u32, red: u8, green: u8, blue: u8, alpha: u8) -> Seq<
    u8,
> {
    Seq::new((width * height * 4) as nat, |i: int| solid_byte(red, green, blue, alpha, i))
}

/// Fills a fresh image of the given dimensions with one solid color.
pub fn fill_image(width: u32, height: u32, red: u8, green: u8, blue: u8, alpha: u8) -> (r: RawImage)
    ensures
        r.wf(),
        r@.width == width,
        r@.height == height,
        r@.format == PixelFormat::Rgba8Unorm,
        r@.bytes == solid_frame(width, height, red, green, blue, alpha),
{
    proof {
        assert((width as int) * (height as int) <= 0xffff_ffff * 0xffff_ffff) by (nonlinear_arith)
            requires
                0 <= width as int <= 0xffff_ffff,
                0 <= height as int <= 0xffff_ffff,
        ;
    }
    let pixels: u64 = (width as u64) * (height as u64);
    let mut data: Vec<u8> = Vec::new();
    let mut p: u64 = 0;
    let ghost frame = solid_frame(width, height, red, green, blue, alpha);
    #[verifier::loop_isolation(false)]
    while p < pixels
        invariant
            p <= pixels,
            data@.len() == 4 * p,
            forall|i: int| 0 <= i < data@.len() ==> #[trigger] data@[i] == frame[i],
        decreases pixels - p,
    {
        data.push(red);
        data.push(green);
        data.push(blue);
        data.push(alpha);
        proof {
            let base = 4 * (p as int);
            assert(base % 4 == 0);
            assert((base + 1) % 4 == 1);
            assert((base + 2) % 4 == 2);
            assert((base + 3) % 4 == 3);
        }
        p = p + 1;
    }
    proof {
        assert(data@ =~= frame);
    }
    RawImage::from_parts(PixelFormat::Rgba8Unorm, width, height, data)
}

/// A typed value of a render job's named parameter map.
#[derive(Clone, Debug)]
pub enum PropertyValue {
    Text(String),
    PathText(String),
    Number(i64),
}

/// A render job: the target entity, the frame to render, a named parameter
/// map, and an optional renderer-name override.
#[derive(Debug)]
pub struct RenderJob {
    pub target: EntityId,
    pub frame: u64,
    pub params: Vec<(String, PropertyValue)>,
    pub renderer_override: Option<String>,
}

/// Which priority class a render task is served at: stills at `Frame`,
/// video at `VideoFrame`.
#[derive(Clone, Copy, Debug, PartialEq, Eq, Structural)]
pub enum RenderKind {
    Still,
    Video,
}

/// The computation a pending render performs when a worker runs it.
#[derive(Debug)]
pub enum RenderWork {
    /// Fill a fresh target with one color.
    Fill { width: u32, height: u32, red: u8, green: u8, blue: u8, alpha: u8 },
    /// Decode the frame at a timestamp from a video source.
    Decode { source: String, timestamp_ms: i64 },
}

/// A pending computation that will yield an image for its target entity;
/// created by a renderer, executed on a worker of the orchestrator's frame
/// pool.
#[derive(Debug)]
pub struct RenderTask {
    pub target: EntityId,
    pub kind: RenderKind,
    pub work: RenderWork,
}

/// The renderer capability: turns a render job into a pending task without
/// blocking. The only errors returned here are validation failures; every
/// runtime failure resolves through the task's eventual result instead.
pub trait Renderer: Sized {
    /// The renderer's internal invariant: when it can accept jobs.
    spec fn ready(&self) -> bool;

    /// Schedules a render job, returning immediately with the pending task
    /// or a validation error.
    fn schedule_render(&mut self, job: RenderJob) -> (r: Result<RenderTask, CoreError>)
        requires
            old(self).ready(),
        ensures
            final(self).ready(),
            r matches Ok(t) ==> t.target == job.target,
            r matches Err(e) ==> e is Validation,
    ;
}

/// One registered renderer: the name it was registered under and the
/// renderer itself.
pub struct NamedRenderer {
    pub name: String,
    pub slot: RendererSlot,
}

/// A registered renderer instance: one of the built-in backends.
pub enum RendererSlot {
    Triangle(TriangleRenderer),
    Video(VideoPlugin),
}

/// Whether a renderer slot accepts a job synchronously: the triangle
/// renderer accepts every job; the video backend demands a string or path
/// `path` parameter, a frame in the representable range, and room in its
/// session cache.
pub open spec fn slot_accepts(
    slot: RendererSlot,
    frame: u64,
    params: Seq<(String, PropertyValue)>,
) -> bool {
    match slot {
        RendererSlot::Triangle(_) => true,
        RendererSlot::Video(v) => {
            &&& (spec_param(params, "path"@) matches Option::Some(p) && spec_path_of(p) is Some)
            &&& frame <= MAX_RENDER_FRAME
            &&& v.decoders.entries_seq().len() < usize::MAX
        },
    }
}

/// The task a renderer slot returns for a job it accepts: the fill of the
/// triangle renderer's fixed target with its fragment color, or the decode
/// of the job's source at the frame's timestamp.
pub open spec fn slot_schedules(
    slot: RendererSlot,
    target: EntityId,
    frame: u64,
    params: Seq<(String, PropertyValue)>,
    t: RenderTask,
) -> bool {
    match slot {
        RendererSlot::Triangle(tr) => t == (RenderTask {
            target,
            kind: RenderKind::Still,
            work: RenderWork::Fill {
                width: tr.spec_width(),
                height: tr.spec_height(),
                red: TRIANGLE_RED,
                green: TRIANGLE_GREEN,
                blue: TRIANGLE_BLUE,
                alpha: 255,
            },
        }),
        RendererSlot::Video(_) => {
            &&& t.target == target
            &&& t.kind == RenderKind::Video
            &&& (t.work matches RenderWork::Decode { source, timestamp_ms } && Option::Some(
                source@,
            ) == spec_path_of(spec_param(params, "path"@).unwrap()) && timestamp_ms == (frame
                * 1000) / 60 && timestamp_ms >= 0)
        },
    }
}

impl RendererSlot {
    /// The slot's internal invariant.
    pub open spec fn slot_ready(self) -> bool {
        match self {
            RendererSlot::Triangle(_) => true,
            RendererSlot::Video(v) => v.decoders.wf(),
        }
    }

    /// Schedules a job on the registered renderer: non-blocking, succeeding
    /// exactly when the slot accepts the job — then with exactly the task
    /// the slot's backend states — and failing only with a validation
    /// error, leaving the slot untouched.
    pub fn schedule(&mut self, job: RenderJob) -> (r: Result<RenderTask, CoreError>)
        requires
            old(self).slot_ready(),
        ensures
            final(self).slot_ready(),
            r is Ok <==> slot_accepts(*old(self), job.frame, job.params@),
            r matches Ok(t) ==> slot_schedules(*old(self), job.target, job.frame, job.params@, t),
            r matches Err(e) ==> e is Validation,
            r is Err ==> *final(self) == *old(self),
            *old(self) is Triangle ==> *final(self) == *old(self),
    {
        match self {
            RendererSlot::Triangle(t) => t.schedule_triangle_render(job),
            RendererSlot::Video(v) => v.schedule_video_render(job),
        }
    }
}

/// The registry of available renderers: name to renderer, plus the
/// designated active renderer used when a request carries no override.
pub struct AvailableRenderers {
    renderers: Vec<NamedRenderer>,
    active_renderer: Option<usize>,
}

impl AvailableRenderers {
    /// The registered renderers, in registration order.
    pub closed spec fn entries(self) -> Seq<NamedRenderer> {
        self.renderers@
    }

    /// The registered names, in registration order.
    pub open spec fn names(self) -> Seq<Seq<char>> {
        Seq::new(self.entries().len(), |i: int| self.entries()[i].name@)
    }

    /// The position of the active renderer, if one is designated.
    pub closed spec fn active_idx(self) -> Option<usize> {
        self.active_renderer
    }

    /// Well-formed: names are unique, the active position is in range, and
    /// every renderer is ready.
    pub open spec fn wf(self) -> bool {
        &&& forall|i: int, j: int|
            0 <= i < j < self.entries().len() ==> (#[trigger] self.entries()[i]).name@ != (
            #[trigger] self.entries()[j]).name@
        &&& (self.active_idx() matches Some(a) ==> a < self.entries().len())
        &&& forall|i: int|
            0 <= i < self.entries().len() ==> (#[trigger] self.entries()[i]).slot.slot_ready()
    }

    /// Whether a renderer is registered under this name.
    pub open spec fn has_name(self, n: Seq<char>) -> bool {
        exists|i: int| 0 <= i < self.entries().len() && (#[trigger] self.entries()[i]).name@ == n
    }

    /// The position of the renderer registered under this name.
    pub open spec fn idx_of_name(self, n: Seq<char>) -> int {
        choose|i: int| 0 <= i < self.entries().len() && (#[trigger] self.entries()[i]).name@ == n
    }

    /// An empty registry with no active renderer.
    pub fn new() -> (r: AvailableRenderers)
        ensures
            r.wf(),
            r.entries() =~= Seq::<NamedRenderer>::empty(),
            r.active_idx() is None,
    {
        AvailableRenderers { renderers: Vec::new(), active_renderer: Option::None }
    }

    /// The number of registered renderers.
    pub fn len(&self) -> (n: usize)
        ensures
            n == self.entries().len(),
    {
        self.renderers.len()
    }

    /// The position of the renderer registered under a name.
    fn lookup(&self, name: &String) -> (r: Option<usize>)
        requires
            self.wf(),
        ensures
            r is Some <==> self.has_name(name@),
            r matches Some(i) ==> {
                &&& 0 <= i < self.entries().len()
                &&& self.entries()[i as int].name@ == name@
                &&& i == self.idx_of_name(name@)
                &&& name_index(self.entries(), name@) == Option::Some(i as int)
            },
            r is None ==> name_index(self.entries(), name@) is None,
    {
        let mut i: usize = 0;
        #[verifier::loop_isolation(false)]
        while i < self.renderers.len()
            invariant
                i <= self.renderers.len(),
                forall|k: int| 0 <= k < i ==> (#[trigger] self.entries()[k]).name@ != name@,
            decreases self.renderers.len() - i,
        {
            if self.renderers[i].name.eq(name) {
                proof {
                    let j = self.idx_of_name(name@);
                    if j != i {
                        assert(self.entries()[j].name@ == name@);
                    }
                    lemma_name_index_from_first(self.entries(), name@, i as int);
                }
                return Option::Some(i);
            }
            i = i + 1;
        }
        proof {
            lemma_name_index_none(self.entries(), name@);
        }
        Option::None
    }

    /// Registers a renderer under a name. A name registered before has its
    /// renderer replaced; a new name is appended, and the first renderer
    /// ever registered becomes the active one.
    pub fn register(&mut self, name: String, slot: RendererSlot) -> (idx: usize)
        requires
            old(self).wf(),
            slot.slot_ready(),
            old(self).entries().len() < usize::MAX,
        ensures
            final(self).wf(),
            final(self).has_name(name@),
            idx == final(self).idx_of_name(name@),
            old(self).has_name(name@) ==> {
                &&& final(self).names() == old(self).names()
                &&& final(self).active_idx() == old(self).active_idx()
                &&& idx == old(self).idx_of_name(name@)
            },
            !old(self).has_name(name@) ==> {
                &&& final(self).entries().len() == old(self).entries().len() + 1
                &&& final(self).names() =~= old(self).names().push(name@)
                &&& idx == old(self).entries().len()
                &&& final(self).active_idx() == (if old(self).active_idx() is Some {
                    old(self).active_idx()
                } else {
                    Some(old(self).entries().len() as usize)
                })
            },
    {
        let found = self.lookup(&name);
        match found {
            Option::Some(i) => {
                self.renderers[i].slot = slot;
                proof {
                    assert(self.names() =~= old(self).names());
                    let j = self.idx_of_name(name@);
                    if j != i {
                        assert(self.entries()[j].name@ == name@);
                    }
                }
                i
            },
            Option::None => {
                let i = self.renderers.len();
                self.renderers.push(NamedRenderer { name, slot });
                if self.active_renderer.is_none() {
                    self.active_renderer = Option::Some(i);
                }
                proof {
                    assert(self.names() =~= old(self).names().push(
                        self.entries()[i as int].name@,
                    ));
                    let j = self.idx_of_name(self.entries()[i as int].name@);
                    if j != i {
                        assert(self.entries()[j].name@ == self.entries()[i as int].name@);
                        if j < i {
                            assert(old(self).entries()[j].name@ == self.entries()[i as int].name@);
                        }
                    }
                }
                i
            },
        }
    }

    /// The name of the active renderer, if one is designated.
    pub fn active_name(&self) -> (r: Option<&String>)
        requires
            self.wf(),
        ensures
            r is Some <==> self.active_idx() is Some,
            r matches Some(n) ==> (self.active_idx() matches Some(a) && n@
                == self.entries()[a as int].name@),
    {
        match self.active_renderer {
            Option::Some(a) => Option::Some(&self.renderers[a].name),
            Option::None => Option::None,
        }
    }

    /// Resolves the renderer a request should use: the override name when
    /// one is given, else the active renderer. An unknown override name, or
    /// no active renderer, is a validation error.
    pub fn resolve(&self, override_name: &Option<String>) -> (r: Result<usize, CoreError>)
        requires
            self.wf(),
        ensures
            override_name matches Some(n) ==> {
                &&& (name_index(self.entries(), n@) matches Some(i) ==> (r matches Ok(ri) && ri
                    == i))
                &&& (name_index(self.entries(), n@) is None ==> (r matches Err(e) && e
                    is Validation))
                &&& self.has_name(n@) ==> (r matches Ok(i) && i == self.idx_of_name(n@))
                &&& !self.has_name(n@) ==> (r matches Err(e) && e is Validation)
            },
            override_name is None ==> {
                &&& self.active_idx() matches Some(a) ==> r == Ok::<usize, CoreError>(a)
                &&& self.active_idx() is None ==> (r matches Err(e) && e is Validation)
            },
            r matches Ok(i) ==> i < self.entries().len(),
    {
        match override_name {
            Option::Some(n) => {
                match self.lookup(n) {
                    Option::Some(i) => Ok(i),
                    Option::None => Err(
                        CoreError::Validation {
                            name: String::from_str("renderer"),
                            reason: String::from_str("no renderer registered under this name"),
                        },
                    ),
                }
            },
            Option::None => {
                match self.active_renderer {
                    Option::Some(a) => Ok(a),
                    Option::None => Err(
                        CoreError::Validation {
                            name: String::from_str("renderer"),
                            reason: String::from_str("no active renderer is designated"),
                        },
                    ),
                }
            },
        }
    }

    /// Schedules a job on the renderer at one position: it succeeds
    /// exactly when that slot accepts the job, with exactly the task the
    /// slot's backend states. The registry's names, active designation and
    /// every other slot are untouched; only the addressed renderer's own
    /// state may change, and a failed or stateless schedule leaves even
    /// that as it was.
    pub fn schedule_at(&mut self, i: usize, job: RenderJob) -> (r: Result<RenderTask, CoreError>)
        requires
            old(self).wf(),
            i < old(self).entries().len(),
        ensures
            final(self).wf(),
            final(self).entries().len() == old(self).entries().len(),
            final(self).names() == old(self).names(),
            final(self).active_idx() == old(self).active_idx(),
            forall|k: int|
                0 <= k < old(self).entries().len() && k != i ==> #[trigger] final(self).entries()[k]
                    == old(self).entries()[k],
            r is Ok <==> slot_accepts(old(self).entries()[i as int].slot, job.frame, job.params@),
            r matches Ok(t) ==> slot_schedules(
                old(self).entries()[i as int].slot,
                job.target,
                job.frame,
                job.params@,
                t,
            ),
            r matches Err(e) ==> e is Validation,
            r is Err ==> final(self).entries() == old(self).entries(),
            old(self).entries()[i as int].slot is Triangle ==> final(self).entries() == old(
                self,
            ).entries(),
    {
        let r = self.renderers[i].slot.schedule(job);
        proof {
            assert(self.names() =~= old(self).names());
            if r is Err || old(self).entries()[i as int].slot is Triangle {
                assert(self.entries() =~= old(self).entries());
            }
        }
        r
    }
}

/// The position of the first renderer registered under a name, if any.
pub open spec fn name_index(entries: Seq<NamedRenderer>, n: Seq<char>) -> Option<int>
    decreases entries.len(),
{
    if entries.len() == 0 {
        Option::None
    } else if entries[0].name@ == n {
        Option::Some(0)
    } else {
        match name_index(entries.drop_first(), n) {
            Option::Some(i) => Option::Some(i + 1),
            Option::None => Option::None,
        }
    }
}

/// A position holding the name, with none before it, is the name's index.
proof fn lemma_name_index_from_first(entries: Seq<NamedRenderer>, n: Seq<char>, i: int)
    requires
        0 <= i < entries.len(),
        entries[i].name@ == n,
        forall|k: int| 0 <= k < i ==> (#[trigger] entries[k]).name@ != n,
    ensures
        name_index(entries, n) == Option::Some(i),
    decreases i,
{
    if i == 0 {
    } else {
        assert(entries[0].name@ != n);
        let rest = entries.drop_first();
        assert(rest[i - 1] == entries[i]);
        assert forall|k: int| 0 <= k < i - 1 implies (#[trigger] rest[k]).name@ != n by {
            assert(rest[k] == entries[k + 1]);
        }
        lemma_name_index_from_first(rest, n, i - 1);
    }
}

/// A name no position holds has no index.
proof fn lemma_name_index_none(entries: Seq<NamedRenderer>, n: Seq<char>)
    requires
        forall|k: int| 0 <= k < entries.len() ==> (#[trigger] entries[k]).name@ != n,
    ensures
        name_index(entries, n) is None,
    decreases entries.len(),
{
    if entries.len() > 0 {
        let rest = entries.drop_first();
        assert forall|k: int| 0 <= k < rest.len() implies (#[trigger] rest[k]).name@ != n by {
            assert(rest[k] == entries[k + 1]);
        }
        lemma_name_index_none(rest, n);
    }
}

/// The priority class a render task is submitted at: stills at `Frame`,
/// video at `VideoFrame`.
pub open spec fn spec_frame_priority(k: RenderKind) -> Priority {
    match k {
        RenderKind::Still => Priority::Frame,
        RenderKind::Video => Priority::VideoFrame,
    }
}

/// The renderer a request resolves to: the entry registered under its
/// override name, else the active entry.
pub open spec fn spec_resolved_slot(
    entries: Seq<NamedRenderer>,
    active: Option<usize>,
    req: RenderRequest,
) -> Option<RendererSlot> {
    match req.renderer_name {
        Option::Some(n) => match name_index(entries, n@) {
            Option::Some(i) => Option::Some(entries[i].slot),
            Option::None => Option::None,
        },
        Option::None => match active {
            Option::Some(a) => if a < entries.len() {
                Option::Some(entries[a as int].slot)
            } else {
                Option::None
            },
            Option::None => Option::None,
        },
    }
}

/// Whether an entity's render request produces a task at dispatch: it
/// carries a request that resolves to a renderer, and that renderer
/// accepts the dispatch job (which carries an empty parameter map).
pub open spec fn dispatchable(
    entries: Seq<NamedRenderer>,
    active: Option<usize>,
    rec: EntityRecord,
) -> bool {
    match rec.request {
        Option::Some(req) => match spec_resolved_slot(entries, active, req) {
            Option::Some(slot) => slot_accepts(slot, req.frame, Seq::empty()),
            Option::None => false,
        },
        Option::None => false,
    }
}

/// Some task of the batch targets this entity.
pub open spec fn request_served(tasks: Seq<PendingRender>, id: EntityId) -> bool {
    exists|j: int| 0 <= j < tasks.len() && (#[trigger] tasks[j]).task.target == id
}

/// The task is exactly what some entity's resolvable, accepted request
/// scheduled: its target is that entity, and its content is what the
/// resolved renderer states for the request's frame.
pub open spec fn task_from_request(
    v: Seq<EntityRecord>,
    entries: Seq<NamedRenderer>,
    active: Option<usize>,
    pr: PendingRender,
) -> bool {
    exists|k: int|
        {
            &&& 0 <= k < v.len()
            &&& (#[trigger] v[k]).request matches Option::Some(req)
            &&& (spec_resolved_slot(entries, active, req) matches Option::Some(slot)
                && slot_accepts(slot, req.frame, Seq::empty()) && pr.task.target == v[k].id
                && slot_schedules(slot, v[k].id, req.frame, Seq::empty(), pr.task))
        }
}

/// A dispatched render: the orchestrator handle the task was submitted
/// under, and the task itself, awaiting execution on a worker.
pub struct PendingRender {
    pub handle: u64,
    pub task: RenderTask,
}

/// The per-tick dispatch routine: for every entity carrying a render
/// request, resolves the renderer (the override name, else the active
/// one), schedules the job, submits the pending task to the orchestrator
/// at `Frame` or `VideoFrame` priority by task kind, and removes the
/// request either way — a validation failure drops the request without
/// retry, and no request survives dispatch.
pub fn dispatch_render_requests(
    world: &mut WorldState,
    renderers: &mut AvailableRenderers,
    orch: &mut Orchestrator,
) -> (tasks: Vec<PendingRender>)
    requires
        old(world)@.wf(),
        old(renderers).wf(),
        old(orch).wf(),
        old(orch).next_handle() <= u64::MAX - old(world)@.entities.len(),
        old(orch).jobs().len() <= usize::MAX - old(world)@.entities.len(),
    ensures
        final(world)@.wf(),
        final(renderers).wf(),
        final(orch).wf(),
        final(world)@.entities.len() == old(world)@.entities.len(),
        forall|k: int|
            0 <= k < old(world)@.entities.len() ==> #[trigger] final(world)@.entities[k] == (
            EntityRecord { request: Option::None, ..old(world)@.entities[k] }),
        final(world)@.next == old(world)@.next,
        final(world)@.playhead == old(world)@.playhead,
        final(world)@.quit == old(world)@.quit,
        final(renderers).entries() == old(renderers).entries(),
        final(renderers).active_idx() == old(renderers).active_idx(),
        tasks@.len() <= old(world)@.entities.len(),
        tasks@.len() == count_where(
            old(world)@.entities,
            |rec: EntityRecord|
                dispatchable(old(renderers).entries(), old(renderers).active_idx(), rec),
        ),
        final(orch).jobs().len() == old(orch).jobs().len() + tasks@.len(),
        final(orch).jobs().subrange(0, old(orch).jobs().len() as int) == old(orch).jobs(),
        final(orch).next_handle() == old(orch).next_handle() + tasks@.len(),
        forall|g: crate::priority::PoolFamily| final(orch).workers(g) == old(orch).workers(g),
        forall|j: int|
            0 <= j < tasks@.len() ==> {
                let rec = #[trigger] final(orch).jobs()[old(orch).jobs().len() + j];
                &&& rec.id == tasks@[j].handle
                &&& rec.state is Pending
                &&& rec.kind is RunToCompletion
                &&& rec.priority == spec_frame_priority(tasks@[j].task.kind)
            },
        forall|j: int|
            0 <= j < tasks@.len() ==> task_from_request(
                old(world)@.entities,
                old(renderers).entries(),
                old(renderers).active_idx(),
                #[trigger] tasks@[j],
            ),
        forall|k: int|
            0 <= k < old(world)@.entities.len() && dispatchable(
                old(renderers).entries(),
                old(renderers).active_idx(),
                #[trigger] old(world)@.entities[k],
            ) ==> request_served(tasks@, old(world)@.entities[k].id),
        forall|j: int|
            0 <= j < tasks@.len() ==> ((#[trigger] tasks@[j]).task.work
                matches RenderWork::Decode { timestamp_ms, .. } ==> timestamp_ms >= 0),
{
    let mut tasks: Vec<PendingRender> = Vec::new();
    let n = world.entity_count();
    let ghost orch0 = *orch;
    let ghost entries0 = old(renderers).entries();
    let ghost active0 = old(renderers).active_idx();
    let ghost dp = |rec: EntityRecord| dispatchable(entries0, active0, rec);
    let mut i: usize = 0;
    #[verifier::loop_isolation(false)]
    while i < n
        invariant
            i <= n,
            n == world@.entities.len(),
            world@.wf(),
            renderers.wf(),
            orch.wf(),
            world@.next == old(world)@.next,
            world@.playhead == old(world)@.playhead,
            world@.quit == old(world)@.quit,
            renderers.entries() == entries0,
            renderers.active_idx() == active0,
            forall|k: int|
                0 <= k < i ==> #[trigger] world@.entities[k] == (EntityRecord {
                    request: Option::None,
                    ..old(world)@.entities[k]
                }),
            forall|k: int| i <= k < n ==> #[trigger] world@.entities[k] == old(world)@.entities[k],
            tasks@.len() <= i,
            orch.jobs().len() == orch0.jobs().len() + tasks@.len(),
            orch.jobs().subrange(0, orch0.jobs().len() as int) == orch0.jobs(),
            orch.next_handle() == orch0.next_handle() + tasks@.len(),
            forall|g: crate::priority::PoolFamily| orch.workers(g) == orch0.workers(g),
            forall|j: int|
                0 <= j < tasks@.len() ==> {
                    let rec = #[trigger] orch.jobs()[orch0.jobs().len() + j];
                    &&& rec.id == tasks@[j].handle
                    &&& rec.state is Pending
                    &&& rec.kind is RunToCompletion
                    &&& rec.priority == spec_frame_priority(tasks@[j].task.kind)
                },
            tasks@.len() == count_where(old(world)@.entities.subrange(0, i as int), dp),
            forall|j: int|
                0 <= j < tasks@.len() ==> task_from_request(
                    old(world)@.entities,
                    entries0,
                    active0,
                    #[trigger] tasks@[j],
                ),
            forall|k: int|
                0 <= k < i && dp(#[trigger] old(world)@.entities[k]) ==> request_served(
                    tasks@,
                    old(world)@.entities[k].id,
                ),
            forall|j: int|
                0 <= j < tasks@.len() ==> ((#[trigger] tasks@[j]).task.work
                    matches RenderWork::Decode { timestamp_ms, .. } ==> timestamp_ms >= 0),
        decreases n - i,
    {
        let ghost tasks0 = tasks@;
        proof {
            lemma_count_prefix_extend(old(world)@.entities, dp, i as int);
        }
        let taken = world.take_request_at(i);
        match taken {
            Option::None => {
                proof {
                    assert(world@.entities[i as int] == (EntityRecord {
                        request: Option::None,
                        ..old(world)@.entities[i as int]
                    }));
                    assert(!dp(old(world)@.entities[i as int]));
                }
            },
            Option::Some(req) => {
                let id = world.entity_at(i).id;
                let ghost req0 = req;
                proof {
                    assert(old(world)@.entities[i as int].request == Option::Some(req0));
                }
                let resolved = renderers.resolve(&req.renderer_name);
                match resolved {
                    Result::Err(_) => {
                        proof {
                            assert(spec_resolved_slot(entries0, active0, req0) is None);
                            assert(!dp(old(world)@.entities[i as int]));
                        }
                    },
                    Result::Ok(ridx) => {
                        proof {
                            assert(spec_resolved_slot(entries0, active0, req0) == Option::Some(
                                entries0[ridx as int].slot,
                            ));
                        }
                        let job = RenderJob {
                            target: id,
                            frame: req.frame,
                            params: Vec::new(),
                            renderer_override: req.renderer_name,
                        };
                        proof {
                            assert(job.params@ =~= Seq::<(String, PropertyValue)>::empty());
                        }
                        let scheduled = renderers.schedule_at(ridx, job);
                        match scheduled {
                            Result::Err(_) => {
                                proof {
                                    assert(!slot_accepts(
                                        entries0[ridx as int].slot,
                                        req0.frame,
                                        Seq::empty(),
                                    ));
                                    assert(!dp(old(world)@.entities[i as int]));
                                }
                            },
                            Result::Ok(task) => {
                                proof {
                                    // an accepted dispatch job has no parameters, so the
                                    // accepting slot cannot be the video backend
                                    assert(spec_param(
                                        Seq::<(String, PropertyValue)>::empty(),
                                        "path"@,
                                    ) is None);
                                    assert(entries0[ridx as int].slot is Triangle);
                                    assert(renderers.entries() =~= entries0);
                                    assert(dp(old(world)@.entities[i as int]));
                                }
                                let pri = match task.kind {
                                    RenderKind::Still => Priority::Frame,
                                    RenderKind::Video => Priority::VideoFrame,
                                };
                                let h = orch.submit_job(pri);
                                tasks.push(PendingRender { handle: h, task });
                                proof {
                                    assert(orch.jobs().subrange(0, orch0.jobs().len() as int)
                                        =~= orch0.jobs());
                                    let j = tasks@.len() - 1;
                                    assert(tasks@[j].task.target
                                        == old(world)@.entities[i as int].id);
                                    assert(slot_schedules(
                                        entries0[ridx as int].slot,
                                        old(world)@.entities[i as int].id,
                                        req0.frame,
                                        Seq::empty(),
                                        tasks@[j].task,
                                    ));
                                    assert(task_from_request(
                                        old(world)@.entities,
                                        entries0,
                                        active0,
                                        tasks@[j],
                                    )) by {
                                        let v = old(world)@.entities;
                                        assert(0 <= i < v.len() && v[i as int].request
                                            == Option::Some(req0));
                                    };
                                    assert(tasks@[j].task.work is Fill);
                                    assert forall|k: int|
                                        0 <= k < i + 1 && dp(
                                            #[trigger] old(world)@.entities[k],
                                        ) implies request_served(
                                        tasks@,
                                        old(world)@.entities[k].id,
                                    ) by {
                                        if k < i {
                                            let jj = choose|jj: int|
                                                0 <= jj < tasks0.len() && (
                                                #[trigger] tasks0[jj]).task.target == old(
                                                    world,
                                                )@.entities[k].id;
                                            assert(tasks@[jj] == tasks0[jj]);
                                        } else {
                                            assert(tasks@[j].task.target == old(
                                                world,
                                            )@.entities[k].id);
                                        }
                                    }
                                }
                            },
                        }
                    },
                }
            },
        }
        i = i + 1;
    }
    proof {
        lemma_count_full_prefix(old(world)@.entities, dp);
    }
    tasks
}

/// Executes a pending render task on a worker: a fill paints its target
/// color; a decode takes the source's guard (waiting is modeled as a
/// resource error when the source is busy), decodes the frame, and returns
/// the guard. Sources other than the task's own are never touched.
pub fn run_render_task(task: &RenderTask, cache: &mut DecoderCache) -> (r: Result<
    RawImage,
    CoreError,
>)
    requires
        old(cache).wf(),
        old(cache).entries_seq().len() < usize::MAX,
        task.work matches RenderWork::Decode { timestamp_ms, .. } ==> timestamp_ms >= 0,
    ensures
        final(cache).wf(),
        task.work matches RenderWork::Fill { width, height, red, green, blue, alpha } ==> {
            &&& *final(cache) == *old(cache)
            &&& (r matches Ok(img) && img.wf() && img@.bytes == solid_frame(
                width,
                height,
                red,
                green,
                blue,
                alpha,
            ) && img@.width == width && img@.height == height)
        },
        task.work matches RenderWork::Decode { source, timestamp_ms } ==> {
            &&& (old(cache).has_source(source@) && !old(cache).busy(source@)) ==> {
                &&& final(cache).entries_seq() =~= old(cache).entries_seq()
                &&& (r matches Ok(img) && img.wf() && img@.bytes == mock_frame(
                    old(cache).entries_seq()[old(cache).idx_of(source@)].spec_decoder().spec_width(),
                    old(cache).entries_seq()[old(cache).idx_of(source@)].spec_decoder().spec_height(),
                    timestamp_ms as int,
                ))
            }
            &&& !old(cache).has_source(source@) ==> {
                &&& final(cache).has_source(source@)
                &&& (r matches Ok(img) && img.wf() && img@.bytes == mock_frame(
                    MOCK_WIDTH,
                    MOCK_HEIGHT,
                    timestamp_ms as int,
                ))
            }
            &&& old(cache).busy(source@) ==> {
                &&& *final(cache) == *old(cache)
                &&& (r matches Err(e) && e is Resource)
            }
        },
{
    match &task.work {
        RenderWork::Fill { width, height, red, green, blue, alpha } => {
            Ok(fill_image(*width, *height, *red, *green, *blue, *alpha))
        },
        RenderWork::Decode { source, timestamp_ms } => {
            if cache.is_busy(source) {
                return Err(
                    CoreError::Resource {
                        reason: String::from_str("decode session is held by another render"),
                    },
                );
            }
            let idx = cache.ensure_entry(source);
            proof {
                assert(cache.entries_seq()[idx as int].spec_key() == source@);
                assert(!cache.busy(source@)) by {
                    let j = cache.idx_of(source@);
                    if j != idx {
                        assert(cache.entries_seq()[j].spec_key() == source@);
                    }
                    if old(cache).has_source(source@) {
                        assert(cache.entries_seq()[j]
                            == old(cache).entries_seq()[old(cache).idx_of(source@)]);
                    }
                };
            }
            let held = cache.acquire(source);
            match held {
                Option::Some(i) => {
                    let r = cache.decode_held(i, *timestamp_ms);
                    cache.release(i);
                    proof {
                        if old(cache).has_source(source@) {
                            assert(cache.entries_seq() =~= old(cache).entries_seq());
                        }
                        assert(cache.entries_seq()[i as int].spec_key() == source@);
                        assert(cache.has_source(source@));
                    }
                    r
                },
                Option::None => {
                    proof {
                        assert(false);
                    }
                    Err(CoreError::Resource { reason: String::new() })
                },
            }
        },
    }
}

/// Applies a completed render task's result to the store: a successful
/// image overwrites the target entity's render output, but only if the
/// entity still exists — a result for a removed entity is discarded
/// silently, with no write and no error. A failed render leaves any prior
/// output untouched.
pub fn apply_render_result(
    world: &mut WorldState,
    entity: EntityId,
    result: Result<RawImage, CoreError>,
) -> (wrote: bool)
    requires
        old(world)@.wf(),
    ensures
        final(world)@.wf(),
        !old(world)@.has_entity(entity) ==> final(world)@ == old(world)@ && !wrote,
        result is Err ==> final(world)@ == old(world)@ && !wrote,
        result matches Ok(img) ==> old(world)@.has_entity(entity) ==> {
            &&& wrote
            &&& final(world)@.entities == old(world)@.entities.update(
                old(world)@.idx_of(entity),
                EntityRecord {
                    output: Some(img),
                    ..old(world)@.entities[old(world)@.idx_of(entity)]
                },
            )
            &&& final(world)@.next == old(world)@.next
            &&& final(world)@.playhead == old(world)@.playhead
            &&& final(world)@.quit == old(world)@.quit
        },
{
    match result {
        Result::Ok(img) => world.write_output(entity, img),
        Result::Err(_) => false,
    }
}

} // verus!
