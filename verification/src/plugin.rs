//! The plugin lifecycle: the capability contract every plugin implements,
//! the report it gives of its health, and the explicit registration list the
//! world loop walks in order every tick. A plugin hook that fails reports an
//! error; it neither stops the other plugins nor the tick.

use vstd::prelude::*;

use crate::bridge::UiValue;
use crate::error::CoreError;
use crate::world::WorldState;

verus! {

/// The per-tick schedule a plugin may extend with systems of its own.
pub struct Schedule {
    /// The names of the registered systems, in registration order.
    pub systems: Vec<String>,
}

impl Schedule {
    /// An empty schedule.
    pub fn new() -> (s: Schedule)
        ensures
            s.systems@.len() == 0,
    {
        Schedule { systems: Vec::new() }
    }
}

/// A plugin's report of its own health.
#[derive(Clone, Debug)]
pub enum PluginReport {
    Operational,
    Degraded { reason: String },
}

/// The lifecycle contract of a plugin. The world loop drives each plugin
/// through these calls; every hook that takes the store must leave it
/// well-formed, whatever else it does.
pub trait Plugin: Sized {
    /// Builds the plugin in its initial state.
    fn new() -> Self;

    /// The plugin's display name.
    fn name(&self) -> &'static str;

    /// Called once before the first tick, with exclusive store access.
    fn init(&mut self, world: &mut WorldState) -> (r: Result<(), CoreError>)
        requires
            old(world)@.wf(),
        ensures
            final(world)@.wf(),
    ;

    /// Lets the plugin register systems of its own on the per-tick
    /// schedule.
    fn add_schedule(&mut self, schedule: &mut Schedule) -> (r: Result<(), CoreError>);

    /// Called every tick, in registration order, with exclusive store
    /// access. A failure is reported to the caller and isolated there.
    fn update_world(&mut self, world: &mut WorldState) -> (r: Result<(), CoreError>)
        requires
            old(world)@.wf(),
        ensures
            final(world)@.wf(),
    ;

    /// The plugin's current health.
    fn report(&self) -> PluginReport;

    /// Called once when the world shuts down.
    fn shutdown(&mut self, world: &mut WorldState)
        requires
            old(world)@.wf(),
        ensures
            final(world)@.wf(),
    ;

    /// Returns the plugin to its initial state.
    fn reset(&mut self, world: &mut WorldState)
        requires
            old(world)@.wf(),
        ensures
            final(world)@.wf(),
    ;

    /// The plugin's opaque UI state for the next snapshot, if it has a new
    /// one to publish.
    fn take_ui_state(&mut self) -> Option<UiValue>;
}

/// A plugin that does nothing: the smallest lifecycle implementation.
pub struct Dummy {}

impl Dummy {
    /// The dummy plugin's per-tick work: none at all. The store is returned exactly as it came, and the hook never
    /// fails.
    pub fn run_update(&mut self, world: &mut WorldState) -> (r: Result<(), CoreError>)
        ensures
            final(world)@ == old(world)@,
            r is Ok,
    {
        Ok(())
    }
}

impl Plugin for Dummy {
    fn new() -> (p: Dummy) {
        Dummy {  }
    }

    fn name(&self) -> &'static str {
        "dummy"
    }

    fn init(&mut self, world: &mut WorldState) -> Result<(), CoreError> {
        Ok(())
    }

    fn add_schedule(&mut self, schedule: &mut Schedule) -> Result<(), CoreError> {
        Ok(())
    }

    fn update_world(&mut self, world: &mut WorldState) -> Result<(), CoreError> {
        self.run_update(world)
    }

    fn report(&self) -> PluginReport {
        PluginReport::Operational
    }

    fn shutdown(&mut self, world: &mut WorldState) {
    }

    fn reset(&mut self, world: &mut WorldState) {
    }

    fn take_ui_state(&mut self) -> Option<UiValue> {
        Option::None
    }
}

/// An externally contributed plugin used to exercise the lifecycle.
pub struct TestPlugin {}

impl TestPlugin {
    /// The test plugin's per-tick work: none at all. The store is returned exactly as it came, and the hook never
    /// fails.
    pub fn run_update(&mut self, world: &mut WorldState) -> (r: Result<(), CoreError>)
        ensures
            final(world)@ == old(world)@,
            r is Ok,
    {
        Ok(())
    }
}

impl Plugin for TestPlugin {
    fn new() -> (p: TestPlugin) {
        TestPlugin {  }
    }

    fn name(&self) -> &'static str {
        "test plugin 1"
    }

    fn init(&mut self, world: &mut WorldState) -> Result<(), CoreError> {
        Ok(())
    }

    fn add_schedule(&mut self, schedule: &mut Schedule) -> Result<(), CoreError> {
        Ok(())
    }

    fn update_world(&mut self, world: &mut WorldState) -> Result<(), CoreError> {
        self.run_update(world)
    }

    fn report(&self) -> PluginReport {
        PluginReport::Operational
    }

    fn shutdown(&mut self, world: &mut WorldState) {
    }

    fn reset(&mut self, world: &mut WorldState) {
    }

    fn take_ui_state(&mut self) -> Option<UiValue> {
        Option::None
    }
}

/// One entry of the explicit plugin list built at startup: no ambient
/// global registry, just the plugins the embedder chose, in order.
pub enum CorePlugin {
    Dummy(Dummy),
    Timeline(crate::timeline::Timeline),
    TimelineTest(crate::timeline_test::TimelineTestPlugin),
    Testing(TestPlugin),
}

impl CorePlugin {
    /// The wrapped plugin's display name.
    pub fn name(&self) -> &'static str {
        match self {
            CorePlugin::Dummy(p) => p.name(),
            CorePlugin::Timeline(p) => p.name(),
            CorePlugin::TimelineTest(p) => p.name(),
            CorePlugin::Testing(p) => p.name(),
        }
    }

    /// The wrapped plugin's `init` hook.
    pub fn init(&mut self, world: &mut WorldState) -> (r: Result<(), CoreError>)
        requires
            old(world)@.wf(),
        ensures
            final(world)@.wf(),
    {
        match self {
            CorePlugin::Dummy(p) => p.init(world),
            CorePlugin::Timeline(p) => p.init(world),
            CorePlugin::TimelineTest(p) => p.init(world),
            CorePlugin::Testing(p) => p.init(world),
        }
    }

    /// The wrapped plugin's `update_world` hook. Every built-in plugin's
    /// hook succeeds and returns the store exactly as it came.
    pub fn update_world(&mut self, world: &mut WorldState) -> (r: Result<(), CoreError>)
        ensures
            final(world)@ == old(world)@,
            r is Ok,
    {
        match self {
            CorePlugin::Dummy(p) => p.run_update(world),
            CorePlugin::Timeline(p) => p.run_update(world),
            CorePlugin::TimelineTest(p) => p.run_update(world),
            CorePlugin::Testing(p) => p.run_update(world),
        }
    }

    /// The wrapped plugin's `shutdown` hook.
    pub fn shutdown(&mut self, world: &mut WorldState)
        requires
            old(world)@.wf(),
        ensures
            final(world)@.wf(),
    {
        match self {
            CorePlugin::Dummy(p) => p.shutdown(world),
            CorePlugin::Timeline(p) => p.shutdown(world),
            CorePlugin::TimelineTest(p) => p.shutdown(world),
            CorePlugin::Testing(p) => p.shutdown(world),
        }
    }

    /// The wrapped plugin's `reset` hook.
    pub fn reset(&mut self, world: &mut WorldState)
        requires
            old(world)@.wf(),
        ensures
            final(world)@.wf(),
    {
        match self {
            CorePlugin::Dummy(p) => p.reset(world),
            CorePlugin::Timeline(p) => p.reset(world),
            CorePlugin::TimelineTest(p) => p.reset(world),
            CorePlugin::Testing(p) => p.reset(world),
        }
    }

    /// The wrapped plugin's health report.
    pub fn report(&self) -> PluginReport {
        match self {
            CorePlugin::Dummy(p) => p.report(),
            CorePlugin::Timeline(p) => p.report(),
            CorePlugin::TimelineTest(p) => p.report(),
            CorePlugin::Testing(p) => p.report(),
        }
    }

    /// The wrapped plugin's pending UI state, if any.
    pub fn take_ui_state(&mut self) -> Option<UiValue> {
        match self {
            CorePlugin::Dummy(p) => p.take_ui_state(),
            CorePlugin::Timeline(p) => p.take_ui_state(),
            CorePlugin::TimelineTest(p) => p.take_ui_state(),
            CorePlugin::Testing(p) => p.take_ui_state(),
        }
    }
}

/// Initializes every plugin once, before the first tick, in registration
/// order. A failing plugin's error is collected, not propagated.
pub fn init_plugins(plugins: &mut Vec<CorePlugin>, world: &mut WorldState) -> (results: Vec<
    Result<(), CoreError>,
>)
    requires
        old(world)@.wf(),
    ensures
        final(world)@.wf(),
        final(plugins)@.len() == old(plugins)@.len(),
        results@.len() == old(plugins)@.len(),
{
    let mut results: Vec<Result<(), CoreError>> = Vec::new();
    let mut i: usize = 0;
    let n = plugins.len();
    #[verifier::loop_isolation(false)]
    while i < n
        invariant
            i <= n,
            world@.wf(),
            plugins@.len() == n,
            results@.len() == i,
        decreases n - i,
    {
        let r = plugins[i].init(world);
        results.push(r);
        i = i + 1;
    }
    results
}

/// Shuts every plugin down, in registration order, when the world loop
/// leaves.
pub fn shutdown_plugins(plugins: &mut Vec<CorePlugin>, world: &mut WorldState)
    requires
        old(world)@.wf(),
    ensures
        final(world)@.wf(),
        final(plugins)@.len() == old(plugins)@.len(),
{
    let mut i: usize = 0;
    let n = plugins.len();
    #[verifier::loop_isolation(false)]
    while i < n
        invariant
            i <= n,
            world@.wf(),
            plugins@.len() == n,
        decreases n - i,
    {
        plugins[i].shutdown(world);
        i = i + 1;
    }
}

/// Step three of the tick: invokes every plugin's `update_world`, in
/// registration order. Each result is collected where it fell, never
/// propagated, so one hook's failure would stop neither the plugins after
/// it nor the tick; the built-in plugins' hooks all succeed and leave the
/// store exactly as it came.
pub fn run_plugin_updates(plugins: &mut Vec<CorePlugin>, world: &mut WorldState) -> (results: Vec<
    Result<(), CoreError>,
>)
    ensures
        final(world)@ == old(world)@,
        final(plugins)@.len() == old(plugins)@.len(),
        results@.len() == old(plugins)@.len(),
        forall|j: int| 0 <= j < results@.len() ==> (#[trigger] results@[j]) is Ok,
{
    let mut results: Vec<Result<(), CoreError>> = Vec::new();
    let mut i: usize = 0;
    let n = plugins.len();
    #[verifier::loop_isolation(false)]
    while i < n
        invariant
            i <= n,
            world@ == old(world)@,
            plugins@.len() == n,
            results@.len() == i,
            forall|j: int| 0 <= j < results@.len() ==> (#[trigger] results@[j]) is Ok,
        decreases n - i,
    {
        let r = plugins[i].update_world(world);
        results.push(r);
        i = i + 1;
    }
    results
}

/// Gathers each plugin's pending opaque UI state for the next snapshot, in
/// registration order, keyed by the plugin's position in the list.
pub fn collect_ui_states(plugins: &mut Vec<CorePlugin>) -> (states: Vec<(usize, UiValue)>)
    ensures
        final(plugins)@.len() == old(plugins)@.len(),
        states@.len() <= old(plugins)@.len(),
{
    let mut states: Vec<(usize, UiValue)> = Vec::new();
    let mut i: usize = 0;
    let n = plugins.len();
    #[verifier::loop_isolation(false)]
    while i < n
        invariant
            i <= n,
            plugins@.len() == n,
            states@.len() <= i,
        decreases n - i,
    {
        let v = plugins[i].take_ui_state();
        match v {
            Option::Some(state) => {
                states.push((i, state));
            },
            Option::None => {},
        }
        i = i + 1;
    }
    states
}

} // verus!
