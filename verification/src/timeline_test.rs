//! A small plugin that exercises the timeline: it tracks one entity of its
//! own and the last frame rendered for it.

use vstd::prelude::*;

use crate::bridge::UiValue;
use crate::error::CoreError;
use crate::plugin::{Plugin, PluginReport, Schedule};
use crate::world::{EntityId, WorldState};

verus! {

/// The UI state of the timeline test plugin.
#[derive(Clone, Copy, Debug, PartialEq, Eq, Structural)]
pub struct TimelineTestUiState {
    pub entity_id: Option<EntityId>,
    pub last_rendered_frame: Option<u64>,
}

/// The entity the timeline test plugin manages.
#[derive(Clone, Copy, Debug, PartialEq, Eq, Structural)]
pub struct TimelineTestEntity(pub EntityId);

/// A plugin that manages one test entity on the timeline; the entity's
/// identifier is kept in the world, which keeps the plugin itself
/// stateless.
pub struct TimelineTestPlugin {}

impl TimelineTestPlugin {
    /// The test plugin's per-tick work: none yet — the store is returned
    /// exactly as it came, and the hook never fails.
    pub fn run_update(&mut self, world: &mut WorldState) -> (r: Result<(), CoreError>)
        ensures
            final(world)@ == old(world)@,
            r is Ok,
    {
        Ok(())
    }
}

impl Plugin for TimelineTestPlugin {
    fn new() -> (p: TimelineTestPlugin) {
        TimelineTestPlugin {  }
    }

    fn name(&self) -> &'static str {
        "Timeline Test"
    }

    fn init(&mut self, world: &mut WorldState) -> Result<(), CoreError> {
        Ok(())
    }

    fn add_schedule(&mut self, schedule: &mut Schedule) -> Result<(), CoreError> {
        Ok(())
    }

    fn update_world(&mut self, world: &mut WorldState) -> Result<(), CoreError> {
        self.run_update(world)
    }

    fn report(&self) -> PluginReport {
        PluginReport::Operational
    }

    fn shutdown(&mut self, world: &mut WorldState) {
    }

    fn reset(&mut self, world: &mut WorldState) {
    }

    fn take_ui_state(&mut self) -> Option<UiValue> {
        Option::None
    }
}

} // verus!
