//! A simple built-in renderer that produces a single hard-coded image: the
//! stand-in for a GPU renderer, which is an external collaborator. Its jobs
//! always validate, and its task fills a fixed-size target with the
//! renderer's one fragment color.

use vstd::prelude::*;

use crate::error::CoreError;
use crate::plugin::{Plugin, PluginReport, Schedule};
use crate::render::{RenderJob, RenderKind, RenderTask, RenderWork, Renderer};
use crate::world::WorldState;

verus! {

/// The fixed render-target width.
pub const TRIANGLE_TARGET_WIDTH: u32 = 128;

/// The fixed render-target height.
pub const TRIANGLE_TARGET_HEIGHT: u32 = 128;

/// The renderer's fragment color, as 8-bit RGBA.
pub const TRIANGLE_RED: u8 = 51;

/// The renderer's fragment color, as 8-bit RGBA.
pub const TRIANGLE_GREEN: u8 = 76;

/// The renderer's fragment color, as 8-bit RGBA.
pub const TRIANGLE_BLUE: u8 = 229;

/// A renderer that draws one hard-coded shape to a fixed-size target.
pub struct TriangleRenderer {
    width: u32,
    height: u32,
}

impl TriangleRenderer {
    /// The render-target width.
    pub closed spec fn spec_width(self) -> u32 {
        self.width
    }

    /// The render-target height.
    pub closed spec fn spec_height(self) -> u32 {
        self.height
    }

    /// Schedules the renderer's one job: a frame task that fills the fixed
    /// target with the fragment color. Nothing about the job can fail
    /// validation, so this never errs.
    pub fn schedule_triangle_render(&mut self, job: RenderJob) -> (r: Result<
        RenderTask,
        CoreError,
    >)
        ensures
            *final(self) == *old(self),
            r is Ok,
            r matches Ok(t) ==> t == (RenderTask {
                target: job.target,
                kind: RenderKind::Still,
                work: RenderWork::Fill {
                    width: old(self).spec_width(),
                    height: old(self).spec_height(),
                    red: TRIANGLE_RED,
                    green: TRIANGLE_GREEN,
                    blue: TRIANGLE_BLUE,
                    alpha: 255,
                },
            }),
    {
        Ok(
            RenderTask {
                target: job.target,
                kind: RenderKind::Still,
                work: RenderWork::Fill {
                    width: self.width,
                    height: self.height,
                    red: TRIANGLE_RED,
                    green: TRIANGLE_GREEN,
                    blue: TRIANGLE_BLUE,
                    alpha: 255,
                },
            },
        )
    }
}

impl Renderer for TriangleRenderer {
    open spec fn ready(&self) -> bool {
        true
    }

    fn schedule_render(&mut self, job: RenderJob) -> (r: Result<RenderTask, CoreError>) {
        self.schedule_triangle_render(job)
    }
}

impl Plugin for TriangleRenderer {
    fn new() -> (p: TriangleRenderer) {
        TriangleRenderer { width: TRIANGLE_TARGET_WIDTH, height: TRIANGLE_TARGET_HEIGHT }
    }

    fn name(&self) -> &'static str {
        "TriangleRenderer"
    }

    fn init(&mut self, world: &mut WorldState) -> Result<(), CoreError> {
        Ok(())
    }

    fn add_schedule(&mut self, schedule: &mut Schedule) -> Result<(), CoreError> {
        Ok(())
    }

    fn update_world(&mut self, world: &mut WorldState) -> Result<(), CoreError> {
        Ok(())
    }

    fn report(&self) -> PluginReport {
        PluginReport::Operational
    }

    fn shutdown(&mut self, world: &mut WorldState) {
    }

    fn reset(&mut self, world: &mut WorldState) {
    }

    fn take_ui_state(&mut self) -> Option<crate::bridge::UiValue> {
        Option::None
    }
}

} // verus!
