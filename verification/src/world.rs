//! The single-writer entity/component world and its fixed per-tick
//! schedule. The world thread owns the sole writable handle to this store;
//! every tick it applies inbound UI commands, dispatches render requests,
//! runs the plugin lifecycle hooks in registration order, and publishes a
//! snapshot of the state through the bridge without ever blocking.

use vstd::prelude::*;

use crate::bridge::{Channel, PluginId, SendOutcome, UiToWorldCommand, UiValue, WorldToUiState};
use crate::counting::count_where;
use crate::error::CoreError;
use crate::orchestrator::Orchestrator;
use crate::plugin::{collect_ui_states, run_plugin_updates, CorePlugin};
use crate::render::{
    dispatch_render_requests, dispatchable, request_served, task_from_request,
    AvailableRenderers, ImageView, PendingRender, RawImage, RenderRequest,
};
use crate::timeline::{Playhead, TimelineElement};

verus! {

/// Identifies one entity of the store. Identifiers are issued in spawn
/// order and never reused.
pub type EntityId = u64;

/// One entity and the components attached to it.
#[derive(Clone, Debug)]
pub struct EntityRecord {
    pub id: EntityId,
    /// "Render this entity"; consumed by the dispatch routine.
    pub request: Option<RenderRequest>,
    /// The most recently successfully rendered image for this entity.
    pub output: Option<RawImage>,
    /// The entity's place on the timeline, if it is a timeline element.
    pub element: Option<TimelineElement>,
}

/// The mathematical content of the store: the entities in spawn order, the
/// next identifier, the playhead tick and the quit flag.
pub struct WorldView {
    pub entities: Seq<EntityRecord>,
    pub next: EntityId,
    pub playhead: u64,
    pub quit: bool,
}

impl WorldView {
    /// Well-formed: entity identifiers strictly increase in spawn order (so
    /// no two entities share one) and stay below the next identifier.
    pub open spec fn wf(self) -> bool {
        &&& forall|i: int, j: int|
            0 <= i < j < self.entities.len() ==> (#[trigger] self.entities[i]).id < (
            #[trigger] self.entities[j]).id
        &&& forall|i: int|
            0 <= i < self.entities.len() ==> (#[trigger] self.entities[i]).id < self.next
    }

    /// Whether an entity with this identifier exists.
    pub open spec fn has_entity(self, e: EntityId) -> bool {
        exists|i: int| 0 <= i < self.entities.len() && (#[trigger] self.entities[i]).id == e
    }

    /// The index of the entity with this identifier.
    pub open spec fn idx_of(self, e: EntityId) -> int {
        choose|i: int| 0 <= i < self.entities.len() && (#[trigger] self.entities[i]).id == e
    }

    /// The record of the entity with this identifier.
    pub open spec fn record_of(self, e: EntityId) -> EntityRecord {
        self.entities[self.idx_of(e)]
    }

    /// One UI command applied to the store: `RequestRender` attaches a
    /// request component to the target entity (a command naming an entity
    /// that no longer exists is ignored), `SetPlayhead` moves the playhead,
    /// and `Quit` raises the quit flag so the loop ends after the current
    /// tick.
    pub open spec fn apply_command(self, c: UiToWorldCommand) -> WorldView {
        match c {
            UiToWorldCommand::RequestRender { entity, frame } => {
                if self.has_entity(entity) {
                    WorldView {
                        entities: self.entities.update(
                            self.idx_of(entity),
                            EntityRecord {
                                request: Some(
                                    RenderRequest { frame, renderer_name: Option::None },
                                ),
                                ..self.entities[self.idx_of(entity)]
                            },
                        ),
                        ..self
                    }
                } else {
                    self
                }
            },
            UiToWorldCommand::SetPlayhead(t) => WorldView { playhead: t, ..self },
            UiToWorldCommand::Quit => WorldView { quit: true, ..self },
        }
    }

    /// A sequence of UI commands applied in order, oldest first.
    pub open spec fn apply_commands(self, cs: Seq<UiToWorldCommand>) -> WorldView
        decreases cs.len(),
    {
        if cs.len() == 0 {
            self
        } else {
            self.apply_commands(cs.drop_last()).apply_command(cs.last())
        }
    }
}

/// Uniqueness of entity indices: in a well-formed store, two positions
/// holding the same identifier are the same position.
pub proof fn lemma_entity_index_unique(v: WorldView, i: int, j: int)
    requires
        v.wf(),
        0 <= i < v.entities.len(),
        0 <= j < v.entities.len(),
        v.entities[i].id == v.entities[j].id,
    ensures
        i == j,
{
    if i < j {
        assert(v.entities[i].id < v.entities[j].id);
    }
    if j < i {
        assert(v.entities[j].id < v.entities[i].id);
    }
}

/// The single-writer entity/component store.
pub struct WorldState {
    entities: Vec<EntityRecord>,
    next_entity: EntityId,
    playhead: Playhead,
    quit: bool,
}

impl View for WorldState {
    type V = WorldView;

    closed spec fn view(&self) -> WorldView {
        WorldView {
            entities: self.entities@,
            next: self.next_entity,
            playhead: self.playhead.current,
            quit: self.quit,
        }
    }
}

impl WorldState {
    /// A fresh, empty store with the playhead at zero.
    pub fn new() -> (w: WorldState)
        ensures
            w@.wf(),
            w@.entities =~= Seq::<EntityRecord>::empty(),
            w@.next == 0,
            w@.playhead == 0,
            !w@.quit,
    {
        WorldState {
            entities: Vec::new(),
            next_entity: 0,
            playhead: Playhead { current: 0 },
            quit: false,
        }
    }

    /// Spawns a new entity with no components and returns its identifier.
    pub fn spawn(&mut self) -> (e: EntityId)
        requires
            old(self)@.wf(),
            old(self)@.next < u64::MAX,
            old(self)@.entities.len() < usize::MAX,
        ensures
            final(self)@.wf(),
            e == old(self)@.next,
            final(self)@.entities == old(self)@.entities.push(
                EntityRecord {
                    id: e,
                    request: Option::None,
                    output: Option::None,
                    element: Option::None,
                },
            ),
            final(self)@.next == old(self)@.next + 1,
            final(self)@.playhead == old(self)@.playhead,
            final(self)@.quit == old(self)@.quit,
    {
        let e = self.next_entity;
        self.entities.push(
            EntityRecord { id: e, request: Option::None, output: Option::None, element: Option::None },
        );
        self.next_entity = self.next_entity + 1;
        e
    }

    /// Whether an entity with this identifier exists.
    pub fn contains(&self, e: EntityId) -> (r: bool)
        requires
            self@.wf(),
        ensures
            r == self@.has_entity(e),
    {
        match self.index_of(e) {
            Option::Some(_) => true,
            Option::None => false,
        }
    }

    /// The position of the entity with this identifier, if it exists.
    fn index_of(&self, e: EntityId) -> (r: Option<usize>)
        requires
            self@.wf(),
        ensures
            r is Some <==> self@.has_entity(e),
            r matches Some(i) ==> {
                &&& 0 <= i < self@.entities.len()
                &&& self@.entities[i as int].id == e
                &&& i == self@.idx_of(e)
            },
    {
        let mut idx: usize = 0;
        #[verifier::loop_isolation(false)]
        while idx < self.entities.len()
            invariant
                idx <= self.entities.len(),
                forall|k: int| 0 <= k < idx ==> (#[trigger] self@.entities[k]).id != e,
            decreases self.entities.len() - idx,
        {
            if self.entities[idx].id == e {
                proof {
                    lemma_entity_index_unique(self@, idx as int, self@.idx_of(e));
                }
                return Option::Some(idx);
            }
            idx = idx + 1;
        }
        Option::None
    }

    /// Removes an entity and every component attached to it; returns
    /// whether it existed.
    pub fn despawn(&mut self, e: EntityId) -> (r: bool)
        requires
            old(self)@.wf(),
        ensures
            final(self)@.wf(),
            r == old(self)@.has_entity(e),
            r ==> final(self)@.entities == old(self)@.entities.remove(old(self)@.idx_of(e)),
            !r ==> final(self)@ == old(self)@,
            final(self)@.next == old(self)@.next,
            final(self)@.playhead == old(self)@.playhead,
            final(self)@.quit == old(self)@.quit,
            !final(self)@.has_entity(e),
    {
        let found = self.index_of(e);
        match found {
            Option::Some(i) => {
                let ghost pre = self@.entities;
                self.entities.remove(i);
                proof {
                    let post = self@.entities;
                    assert(post == pre.remove(i as int));
                    assert forall|a: int, b: int|
                        0 <= a < b < post.len() implies (#[trigger] post[a]).id < (
                    #[trigger] post[b]).id by {
                        if b < i {
                            assert(post[a] == pre[a] && post[b] == pre[b]);
                        } else if a >= i {
                            assert(post[a] == pre[a + 1] && post[b] == pre[b + 1]);
                        } else {
                            assert(post[a] == pre[a] && post[b] == pre[b + 1]);
                        }
                    }
                    assert forall|k: int| 0 <= k < post.len() implies (#[trigger] post[k]).id
                        != e by {
                        if k < i {
                            lemma_entity_index_unique_contra(old(self)@, k, i as int, e);
                        } else {
                            lemma_entity_index_unique_contra(old(self)@, k + 1, i as int, e);
                        }
                    }
                }
                true
            },
            Option::None => false,
        }
    }

    /// Attaches a render request to an entity, replacing any earlier one;
    /// returns whether the entity existed.
    pub fn insert_request(&mut self, e: EntityId, req: RenderRequest) -> (r: bool)
        requires
            old(self)@.wf(),
        ensures
            final(self)@.wf(),
            r == old(self)@.has_entity(e),
            r ==> final(self)@.entities == old(self)@.entities.update(
                old(self)@.idx_of(e),
                EntityRecord {
                    request: Some(req),
                    ..old(self)@.entities[old(self)@.idx_of(e)]
                },
            ),
            !r ==> final(self)@ == old(self)@,
            final(self)@.next == old(self)@.next,
            final(self)@.playhead == old(self)@.playhead,
            final(self)@.quit == old(self)@.quit,
    {
        let found = self.index_of(e);
        match found {
            Option::Some(i) => {
                self.entities[i].request = Some(req);
                true
            },
            Option::None => false,
        }
    }

    /// Attaches a timeline element to an entity, replacing any earlier one;
    /// returns whether the entity existed.
    pub fn insert_element(&mut self, e: EntityId, el: TimelineElement) -> (r: bool)
        requires
            old(self)@.wf(),
        ensures
            final(self)@.wf(),
            r == old(self)@.has_entity(e),
            r ==> final(self)@.entities == old(self)@.entities.update(
                old(self)@.idx_of(e),
                EntityRecord {
                    element: Some(el),
                    ..old(self)@.entities[old(self)@.idx_of(e)]
                },
            ),
            !r ==> final(self)@ == old(self)@,
            final(self)@.next == old(self)@.next,
            final(self)@.playhead == old(self)@.playhead,
            final(self)@.quit == old(self)@.quit,
    {
        let found = self.index_of(e);
        match found {
            Option::Some(i) => {
                self.entities[i].element = Some(el);
                true
            },
            Option::None => false,
        }
    }

    /// Writes an entity's render output, overwriting any earlier image;
    /// returns whether the entity existed.
    pub fn write_output(&mut self, e: EntityId, img: RawImage) -> (r: bool)
        requires
            old(self)@.wf(),
        ensures
            final(self)@.wf(),
            r == old(self)@.has_entity(e),
            r ==> final(self)@.entities == old(self)@.entities.update(
                old(self)@.idx_of(e),
                EntityRecord {
                    output: Some(img),
                    ..old(self)@.entities[old(self)@.idx_of(e)]
                },
            ),
            !r ==> final(self)@ == old(self)@,
            final(self)@.next == old(self)@.next,
            final(self)@.playhead == old(self)@.playhead,
            final(self)@.quit == old(self)@.quit,
    {
        let found = self.index_of(e);
        match found {
            Option::Some(i) => {
                self.entities[i].output = Some(img);
                true
            },
            Option::None => false,
        }
    }


    /// The number of entities in the store.
    pub fn entity_count(&self) -> (n: usize)
        ensures
            n == self@.entities.len(),
    {
        self.entities.len()
    }

    /// The record at one position of the store, in spawn order.
    pub fn entity_at(&self, i: usize) -> (r: &EntityRecord)
        requires
            i < self@.entities.len(),
        ensures
            *r == self@.entities[i as int],
    {
        &self.entities[i]
    }

    /// Detaches and returns the render request at one position: the
    /// dispatch routine consumes requests through this, so a request drives
    /// at most one dispatch.
    pub fn take_request_at(&mut self, i: usize) -> (r: Option<RenderRequest>)
        requires
            old(self)@.wf(),
            i < old(self)@.entities.len(),
        ensures
            final(self)@.wf(),
            r == old(self)@.entities[i as int].request,
            final(self)@.entities == old(self)@.entities.update(
                i as int,
                EntityRecord { request: Option::None, ..old(self)@.entities[i as int] },
            ),
            final(self)@.next == old(self)@.next,
            final(self)@.playhead == old(self)@.playhead,
            final(self)@.quit == old(self)@.quit,
    {
        let r = self.entities[i].request.take();
        r
    }

    /// The render output of an entity, if it exists and has one.
    pub fn output_of(&self, e: EntityId) -> (r: Option<&RawImage>)
        requires
            self@.wf(),
        ensures
            r is Some <==> self@.has_entity(e) && self@.record_of(e).output is Some,
            r matches Some(img) ==> Some(*img) == self@.record_of(e).output,
    {
        match self.index_of(e) {
            Option::Some(i) => {
                match &self.entities[i].output {
                    Option::Some(img) => Option::Some(img),
                    Option::None => Option::None,
                }
            },
            Option::None => Option::None,
        }
    }

    /// The render request of an entity, if it exists and has one.
    pub fn request_of(&self, e: EntityId) -> (r: Option<&RenderRequest>)
        requires
            self@.wf(),
        ensures
            r is Some <==> self@.has_entity(e) && self@.record_of(e).request is Some,
            r matches Some(req) ==> Some(*req) == self@.record_of(e).request,
    {
        match self.index_of(e) {
            Option::Some(i) => {
                match &self.entities[i].request {
                    Option::Some(req) => Option::Some(req),
                    Option::None => Option::None,
                }
            },
            Option::None => Option::None,
        }
    }

    /// The current playhead tick.
    pub fn playhead(&self) -> (t: u64)
        ensures
            t == self@.playhead,
    {
        self.playhead.current
    }

    /// Whether a quit command has been received.
    pub fn quit_requested(&self) -> (q: bool)
        ensures
            q == self@.quit,
    {
        self.quit
    }

    /// Applies one inbound UI command to the store.
    pub fn apply_ui_command(&mut self, c: UiToWorldCommand)
        requires
            old(self)@.wf(),
        ensures
            final(self)@.wf(),
            final(self)@ == old(self)@.apply_command(c),
    {
        match c {
            UiToWorldCommand::RequestRender { entity, frame } => {
                self.insert_request(entity, RenderRequest { frame, renderer_name: Option::None });
            },
            UiToWorldCommand::SetPlayhead(t) => {
                self.playhead.current = t;
            },
            UiToWorldCommand::Quit => {
                self.quit = true;
            },
        }
    }

    /// Step one of the tick: drains every inbound UI command and applies
    /// them in arrival order.
    pub fn apply_ui_commands_to_world(&mut self, commands: &mut Channel<UiToWorldCommand>)
        requires
            old(self)@.wf(),
            old(commands).wf(),
        ensures
            final(self)@.wf(),
            final(commands).wf(),
            final(commands).contents() =~= Seq::<UiToWorldCommand>::empty(),
            final(commands).cap() == old(commands).cap(),
            final(self)@ == old(self)@.apply_commands(old(commands).contents()),
    {
        let ghost all = commands.contents();
        let ghost consumed: Seq<UiToWorldCommand> = Seq::empty();
        #[verifier::loop_isolation(false)]
        loop
            invariant
                self@.wf(),
                commands.wf(),
                commands.cap() == old(commands).cap(),
                all == consumed + commands.contents(),
                self@ == old(self)@.apply_commands(consumed),
            decreases commands.contents().len(),
        {
            let next = commands.try_recv();
            match next {
                Option::Some(c) => {
                    proof {
                        let ghost stepped = consumed.push(c);
                        assert(stepped.drop_last() =~= consumed);
                        assert(all =~= stepped + commands.contents());
                        consumed = stepped;
                    }
                    self.apply_ui_command(c);
                },
                Option::None => {
                    proof {
                        assert(all =~= consumed);
                    }
                    break ;
                },
            }
        }
    }
}

/// Whether a batch of commands asks the world loop to terminate.
pub open spec fn has_quit(cs: Seq<UiToWorldCommand>) -> bool {
    exists|i: int| 0 <= i < cs.len() && (#[trigger] cs[i]) is Quit
}

/// The quit flag after a batch of commands: raised exactly when it already
/// was, or some command of the batch is `Quit` — commands never lower it.
pub proof fn lemma_apply_commands_quit(v: WorldView, cs: Seq<UiToWorldCommand>)
    ensures
        v.apply_commands(cs).quit == (v.quit || has_quit(cs)),
    decreases cs.len(),
{
    if cs.len() == 0 {
    } else {
        let pre = cs.drop_last();
        lemma_apply_commands_quit(v, pre);
        assert(forall|i: int| 0 <= i < pre.len() ==> #[trigger] pre[i] == cs[i]);
        if has_quit(cs) {
            let i = choose|i: int| 0 <= i < cs.len() && (#[trigger] cs[i]) is Quit;
            if i < cs.len() - 1 {
                assert(pre[i] is Quit);
                assert(has_quit(pre));
            } else {
                assert(cs.last() is Quit);
            }
        }
        if has_quit(pre) {
            let i = choose|i: int| 0 <= i < pre.len() && (#[trigger] pre[i]) is Quit;
            assert(cs[i] is Quit);
            assert(has_quit(cs));
        }
        if cs.last() is Quit {
            assert(cs[cs.len() - 1] is Quit);
            assert(has_quit(cs));
        }
    }
}

/// Commands neither spawn nor remove entities, and they keep the store
/// well-formed.
pub proof fn lemma_apply_commands_shape(v: WorldView, cs: Seq<UiToWorldCommand>)
    ensures
        v.apply_commands(cs).entities.len() == v.entities.len(),
        v.wf() ==> v.apply_commands(cs).wf(),
    decreases cs.len(),
{
    if cs.len() > 0 {
        lemma_apply_commands_shape(v, cs.drop_last());
    }
}

/// The render outputs of the store, in entity order: what a snapshot
/// carries to the UI.
pub open spec fn spec_renders(entities: Seq<EntityRecord>) -> Seq<(EntityId, ImageView)>
    decreases entities.len(),
{
    if entities.len() == 0 {
        Seq::empty()
    } else {
        let rest = spec_renders(entities.drop_last());
        match entities.last().output {
            Some(img) => rest.push((entities.last().id, img@)),
            None => rest,
        }
    }
}

/// The mathematical content of a gathered render list.
pub open spec fn renders_view(v: Seq<(EntityId, RawImage)>) -> Seq<(EntityId, ImageView)> {
    Seq::new(v.len(), |i: int| (v[i].0, v[i].1@))
}

/// Step four of the tick, first half: gathers every entity's render output,
/// the playhead and the plugins' opaque UI states into a snapshot that
/// fully describes what the UI may draw.
pub fn snapshot(world: &WorldState, plugin_states: Vec<(PluginId, UiValue)>) -> (s: WorldToUiState)
    ensures
        s.playhead == world@.playhead,
        s.plugin_ui_states == plugin_states,
        renders_view(s.latest_renders@) == spec_renders(world@.entities),
{
    let mut renders: Vec<(EntityId, RawImage)> = Vec::new();
    let mut i: usize = 0;
    let n = world.entity_count();
    #[verifier::loop_isolation(false)]
    while i < n
        invariant
            i <= n,
            n == world@.entities.len(),
            renders_view(renders@) =~= spec_renders(world@.entities.subrange(0, i as int)),
        decreases n - i,
    {
        proof {
            assert(world@.entities.subrange(0, i + 1).drop_last() =~= world@.entities.subrange(
                0,
                i as int,
            ));
            assert(world@.entities.subrange(0, i + 1).last() == world@.entities[i as int]);
        }
        let rec = world.entity_at(i);
        match &rec.output {
            Option::Some(img) => {
                renders.push((rec.id, img.duplicate()));
                proof {
                    assert(renders_view(renders@) =~= spec_renders(
                        world@.entities.subrange(0, i + 1),
                    ));
                }
            },
            Option::None => {
                proof {
                    assert(renders_view(renders@) =~= spec_renders(
                        world@.entities.subrange(0, i + 1),
                    ));
                }
            },
        }
        i = i + 1;
    }
    proof {
        assert(world@.entities.subrange(0, n as int) =~= world@.entities);
        assert(renders_view(renders@) =~= spec_renders(world@.entities));
    }
    WorldToUiState { latest_renders: renders, playhead: world.playhead(), plugin_ui_states: plugin_states }
}

/// The store with every entity's render request detached — what dispatch
/// leaves behind — and everything else exactly as it was.
pub open spec fn clear_requests(v: WorldView) -> WorldView {
    WorldView {
        entities: Seq::new(
            v.entities.len(),
            |i: int| EntityRecord { request: Option::None, ..v.entities[i] },
        ),
        ..v
    }
}

/// What one tick reported back to the loop that drives it.
pub struct TickOutcome {
    /// False once a quit command has been applied: the loop ends after the
    /// current tick.
    pub continue_running: bool,
    /// What became of publishing the snapshot: delivered, or dropped
    /// because the UI had not drained its channel — never blocked.
    pub publish: SendOutcome,
    /// The renders dispatched this tick, with their orchestrator handles.
    pub tasks: Vec<PendingRender>,
    /// Each plugin's `update_world` result, in registration order; a
    /// failure stopped neither the other plugins nor the tick.
    pub plugin_results: Vec<Result<(), CoreError>>,
}

/// One tick of the world loop, in its fixed order: (1) apply every inbound
/// UI command, (2) dispatch render requests to the orchestrator, (3) run
/// every plugin's update hook in registration order, (4) snapshot the
/// store and publish it without blocking. The store that leaves the tick
/// is exactly the old store with the drained commands applied and every
/// render request consumed by dispatch.
pub fn world_tick(
    world: &mut WorldState,
    orch: &mut Orchestrator,
    renderers: &mut AvailableRenderers,
    plugins: &mut Vec<CorePlugin>,
    commands: &mut Channel<UiToWorldCommand>,
    states: &mut Channel<WorldToUiState>,
) -> (outcome: TickOutcome)
    requires
        old(world)@.wf(),
        old(renderers).wf(),
        old(orch).wf(),
        old(commands).wf(),
        old(states).wf(),
        old(orch).next_handle() <= u64::MAX - old(world)@.entities.len(),
        old(orch).jobs().len() <= usize::MAX - old(world)@.entities.len(),
    ensures
        final(world)@.wf(),
        final(renderers).wf(),
        final(orch).wf(),
        final(commands).wf(),
        final(states).wf(),
        final(commands).contents() =~= Seq::<UiToWorldCommand>::empty(),
        final(commands).cap() == old(commands).cap(),
        final(states).cap() == old(states).cap(),
        outcome.continue_running == !old(world)@.apply_commands(old(commands).contents()).quit,
        final(world)@ == clear_requests(
            old(world)@.apply_commands(old(commands).contents()),
        ),
        outcome.plugin_results@.len() == old(plugins)@.len(),
        forall|j: int|
            0 <= j < outcome.plugin_results@.len() ==> (
            #[trigger] outcome.plugin_results@[j]) is Ok,
        final(plugins)@.len() == old(plugins)@.len(),
        old(states).spec_closed() ==> {
            &&& outcome.publish == SendOutcome::DroppedClosed
            &&& final(states).contents() == old(states).contents()
        },
        !old(states).spec_closed() && old(states).contents().len() < old(states).cap() ==> {
            &&& outcome.publish == SendOutcome::Delivered
            &&& final(states).contents().len() == old(states).contents().len() + 1
            &&& final(states).contents().last().playhead == final(world)@.playhead
            &&& renders_view(final(states).contents().last().latest_renders@) == spec_renders(
                final(world)@.entities,
            )
            &&& final(states).contents().subrange(0, old(states).contents().len() as int) == old(
                states,
            ).contents()
        },
        !old(states).spec_closed() && old(states).contents().len() >= old(states).cap() ==> {
            &&& outcome.publish == SendOutcome::DroppedFull
            &&& final(states).contents() == old(states).contents()
        },
        final(orch).jobs().len() == old(orch).jobs().len() + outcome.tasks@.len(),
        final(orch).jobs().subrange(0, old(orch).jobs().len() as int) == old(orch).jobs(),
        final(orch).next_handle() == old(orch).next_handle() + outcome.tasks@.len(),
        forall|g: crate::priority::PoolFamily| final(orch).workers(g) == old(orch).workers(g),
        forall|j: int|
            0 <= j < outcome.tasks@.len() ==> {
                let rec = #[trigger] final(orch).jobs()[old(orch).jobs().len() + j];
                &&& rec.id == outcome.tasks@[j].handle
                &&& rec.state is Pending
                &&& rec.kind is RunToCompletion
                &&& rec.priority == crate::render::spec_frame_priority(
                    outcome.tasks@[j].task.kind,
                )
            },
        outcome.tasks@.len() == count_where(
            old(world)@.apply_commands(old(commands).contents()).entities,
            |rec: EntityRecord|
                dispatchable(old(renderers).entries(), old(renderers).active_idx(), rec),
        ),
        forall|j: int|
            0 <= j < outcome.tasks@.len() ==> task_from_request(
                old(world)@.apply_commands(old(commands).contents()).entities,
                old(renderers).entries(),
                old(renderers).active_idx(),
                #[trigger] outcome.tasks@[j],
            ),
        forall|k: int|
            0 <= k < old(world)@.apply_commands(old(commands).contents()).entities.len()
                && dispatchable(
                old(renderers).entries(),
                old(renderers).active_idx(),
                #[trigger] old(world)@.apply_commands(old(commands).contents()).entities[k],
            ) ==> request_served(
                outcome.tasks@,
                old(world)@.apply_commands(old(commands).contents()).entities[k].id,
            ),
        final(renderers).entries() == old(renderers).entries(),
        final(renderers).active_idx() == old(renderers).active_idx(),
{
    world.apply_ui_commands_to_world(commands);
    let continue_running = !world.quit_requested();
    proof {
        lemma_apply_commands_shape(old(world)@, old(commands).contents());
    }
    let tasks = dispatch_render_requests(world, renderers, orch);
    proof {
        let w1 = old(world)@.apply_commands(old(commands).contents());
        assert(world@.entities =~= clear_requests(w1).entities);
        assert(world@ == clear_requests(w1));
    }
    let plugin_results = run_plugin_updates(plugins, world);
    let ui_states = collect_ui_states(plugins);
    let snap = snapshot(world, ui_states);
    let publish = states.try_send(snap);
    proof {
        if !old(states).spec_closed() && old(states).contents().len() < old(states).cap() {
            assert(states.contents().subrange(0, old(states).contents().len() as int) =~= old(
                states,
            ).contents());
        }
    }
    TickOutcome { continue_running, publish, tasks, plugin_results }
}

/// Contradiction helper: in a well-formed store a position other than
/// `idx_of(e)`'s cannot hold identifier `e`.
proof fn lemma_entity_index_unique_contra(v: WorldView, k: int, i: int, e: EntityId)
    requires
        v.wf(),
        0 <= k < v.entities.len(),
        0 <= i < v.entities.len(),
        v.entities[i].id == e,
        k != i,
    ensures
        v.entities[k].id != e,
{
    if v.entities[k].id == e {
        lemma_entity_index_unique(v, k, i);
    }
}

} // verus!
