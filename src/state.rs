//! The render context as a whole, and what it does for each window event:
//! reconfigure on resize, render one frame on redraw, stop on close.

use vstd::prelude::*;
use vstd::pervasive::unreached;
use crate::format::ColorFormat;
use crate::frame::{FramePlan, FrameRenderer, plan_for};
use crate::pipeline::Pipeline;
use crate::surface::{
    SurfaceConfig,
    SurfaceError,
    SurfaceManager,
    SurfaceSize,
    chosen_format,
    depth_for,
    resized,
};

verus! {

/// Vertices uploaded for the triangle.
pub const TRIANGLE_VERTEX_COUNT: u32 = 3;

/// The surface, its one pipeline and the frame protocol, owned together.
pub struct State {
    pub surface: SurfaceManager,
    pub pipeline: Pipeline,
    pub renderer: FrameRenderer,
}

/// A notification from the window.
#[derive(Clone, Copy, Debug, PartialEq, Eq, Structural)]
pub enum HostEvent {
    CloseRequested,
    RedrawRequested,
    SurfaceResized(SurfaceSize),
    Other,
}

/// What the event loop must do after an event.
#[derive(Clone, Copy, Debug, PartialEq, Eq, Structural)]
pub enum HostAction {
    /// Leave the event loop.
    Exit,
    /// Record, submit and present this frame, then ask for the next redraw.
    Draw(FramePlan),
    /// Apply this configuration to the surface and recreate the depth
    /// texture at its size.
    Reconfigure(SurfaceConfig),
    /// Nothing.
    Idle,
}

/// The frame rendered for a surface in the state of `m` with pipeline `p`.
pub open spec fn frame_of(m: SurfaceManager, p: Pipeline) -> FramePlan {
    plan_for(
        m.config.width,
        m.config.height,
        m.config.view_format,
        m.depth,
        p,
        TRIANGLE_VERTEX_COUNT,
    )
}

/// Every frame rendered for a well-formed surface has color and depth
/// attachments of the surface's exact size, so once a resize has been
/// applied no frame mixes the old and the new size.
pub proof fn lemma_frame_attachments_match(m: SurfaceManager, p: Pipeline)
    requires
        m.wf(),
    ensures
        frame_of(m, p).color.width == frame_of(m, p).depth.width == m.config.width,
        frame_of(m, p).color.height == frame_of(m, p).depth.height == m.config.height,
{
}

impl State {
    /// Well formed: the surface is well formed, the pipeline is the one for
    /// its color format, and no acquired image is held between calls.
    pub open spec fn wf(&self) -> bool {
        &&& self.surface.wf()
        &&& self.pipeline.built_for(self.surface.config.color_format)
        &&& !self.renderer.in_flight
    }

    /// Sets up the surface for a window of `size` in the first usable
    /// advertised format, and builds the pipeline for that format.
    pub fn new(advertised: &Vec<Option<ColorFormat>>, size: SurfaceSize) -> (r: Result<
        State,
        SurfaceError,
    >)
        ensures
            chosen_format(advertised@) is None <==> r == Err::<State, SurfaceError>(
                SurfaceError::NoCompatibleFormat,
            ),
            chosen_format(advertised@) is Some && !size.is_valid() <==> r == Err::<
                State,
                SurfaceError,
            >(SurfaceError::ZeroSize),
            r is Ok <==> chosen_format(advertised@) is Some && size.is_valid(),
            r matches Ok(s) ==> {
                &&& s.wf()
                &&& chosen_format(advertised@) == Some(s.surface.config.color_format)
                &&& s.surface.config.size() == size
            },
    {
        let surface = match SurfaceManager::initialize(advertised, size) {
            Ok(m) => m,
            Err(e) => return Err(e),
        };
        let pipeline = Pipeline::build(surface.config.color_format);
        Ok(State { surface, pipeline, renderer: FrameRenderer::new() })
    }

    /// Follows the window to `new_size`: the surface and its depth
    /// attachment take that size, unless a dimension is zero, in which case
    /// nothing changes. The pipeline is never rebuilt. Returns whether the
    /// surface was reconfigured.
    pub fn resize(&mut self, new_size: SurfaceSize) -> (applied: bool)
        requires
            old(self).wf(),
        ensures
            final(self).wf(),
            applied == new_size.is_valid(),
            final(self).surface.config.size() == resized(old(self).surface.config.size(), new_size),
            final(self).surface.depth == depth_for(final(self).surface.config.size()),
            final(self).surface.config.color_format == old(self).surface.config.color_format,
            !applied ==> final(self).surface == old(self).surface,
            final(self).pipeline == old(self).pipeline,
    {
        self.surface.reconfigure(new_size)
    }

    /// Handles one window event: a close request ends the loop (between
    /// frames, so no acquired image is left unpresented), a redraw renders
    /// one frame, a resize reconfigures the surface unless a dimension is
    /// zero, and anything else is ignored.
    pub fn handle_event(&mut self, event: HostEvent) -> (action: HostAction)
        requires
            old(self).wf(),
        ensures
            final(self).wf(),
            final(self).pipeline == old(self).pipeline,
            event == HostEvent::CloseRequested ==> action == HostAction::Exit && final(self).surface
                == old(self).surface,
            event == HostEvent::RedrawRequested ==> action == HostAction::Draw(
                frame_of(old(self).surface, old(self).pipeline),
            ) && final(self).surface == old(self).surface,
            event == HostEvent::Other ==> action == HostAction::Idle && final(self).surface
                == old(self).surface,
            event matches HostEvent::SurfaceResized(size) ==> {
                &&& final(self).surface.config.size() == resized(
                    old(self).surface.config.size(),
                    size,
                )
                &&& size.is_valid() ==> action == HostAction::Reconfigure(final(self).surface.config)
                &&& !size.is_valid() ==> action == HostAction::Idle && final(self).surface == old(
                    self,
                ).surface
            },
    {
        match event {
            HostEvent::CloseRequested => HostAction::Exit,
            HostEvent::RedrawRequested => HostAction::Draw(self.render()),
            HostEvent::SurfaceResized(size) => {
                if self.resize(size) {
                    HostAction::Reconfigure(self.surface.config)
                } else {
                    HostAction::Idle
                }
            },
            HostEvent::Other => HostAction::Idle,
        }
    }

    /// Renders one frame: acquires the surface's image, records the pass
    /// that clears and draws the triangle, and presents the image. The
    /// color and depth attachments have the surface's current size.
    pub fn render(&mut self) -> (plan: FramePlan)
        requires
            old(self).wf(),
        ensures
            final(self).wf(),
            plan == frame_of(old(self).surface, old(self).pipeline),
            plan.color.width == plan.depth.width == old(self).surface.config.width,
            plan.color.height == plan.depth.height == old(self).surface.config.height,
            final(self).surface == old(self).surface,
            final(self).pipeline == old(self).pipeline,
    {
        let ticket = match self.renderer.acquire(&self.surface) {
            Ok(t) => t,
            Err(_) => unreached(),
        };
        let plan = match self.renderer.record(&ticket, &self.surface, &self.pipeline, TRIANGLE_VERTEX_COUNT) {
            Ok(p) => p,
            Err(_) => unreached(),
        };
        let _ = self.renderer.present(ticket);
        plan
    }
}

} // verus!
