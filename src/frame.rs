//! One frame: acquire a presentable image, record a single render pass that
//! clears and draws, then present the image. At most one acquired image is
//! held at a time.

use vstd::prelude::*;
use crate::format::{ColorFormat, DepthFormat};
use crate::pipeline::Pipeline;
use crate::surface::{DepthAttachment, SurfaceManager};

verus! {

/// The value the color target is cleared to.
#[derive(Clone, Copy, Debug, PartialEq, Eq, Structural)]
pub enum ClearColor {
    /// All four channels zero.
    Transparent,
}

/// The value the depth channel is cleared to.
#[derive(Clone, Copy, Debug, PartialEq, Eq, Structural)]
pub enum DepthClear {
    /// The far plane, depth 1.0.
    Far,
}

/// The color attachment of the render pass: a view of the acquired image.
#[derive(Clone, Copy, Debug, PartialEq, Eq, Structural)]
pub struct ColorTarget {
    pub width: u32,
    pub height: u32,
    pub view_format: ColorFormat,
    pub clear: ClearColor,
    pub store: bool,
}

/// The depth/stencil attachment of the render pass.
#[derive(Clone, Copy, Debug, PartialEq, Eq, Structural)]
pub struct DepthTarget {
    pub width: u32,
    pub height: u32,
    pub format: DepthFormat,
    pub depth_clear: DepthClear,
    pub stencil_clear: u32,
    pub store: bool,
}

/// One non-indexed draw: `vertex_count` vertices from `first_vertex`,
/// `instance_count` instances from `first_instance`.
#[derive(Clone, Copy, Debug, PartialEq, Eq, Structural)]
pub struct DrawCall {
    pub first_vertex: u32,
    pub vertex_count: u32,
    pub first_instance: u32,
    pub instance_count: u32,
}

/// Everything one frame's render pass records.
#[derive(Clone, Copy, Debug, PartialEq, Eq, Structural)]
pub struct FramePlan {
    pub color: ColorTarget,
    pub depth: DepthTarget,
    pub bind_group_entries: usize,
    pub draw: DrawCall,
}

/// One acquired presentable image, of the surface's size at acquisition.
/// It is consumed by `present` or `discard`.
#[derive(Debug)]
pub struct FrameTicket {
    pub width: u32,
    pub height: u32,
    pub view_format: ColorFormat,
}

/// A misuse of the frame protocol.
#[derive(Clone, Copy, Debug, PartialEq, Eq, Structural)]
pub enum FrameError {
    /// An image was acquired while another one is still held.
    TicketOutstanding,
    /// No acquired image is held.
    NoTicket,
    /// The acquired image and the depth attachment differ in size.
    SizeMismatch,
}

/// The render pass recorded into an image of `ticket`'s size and format,
/// with `depth` as depth attachment, drawing `vertex_count` vertices once.
pub open spec fn plan_for(
    width: u32,
    height: u32,
    view_format: ColorFormat,
    depth: DepthAttachment,
    pipeline: Pipeline,
    vertex_count: u32,
) -> FramePlan {
    FramePlan {
        color: ColorTarget { width, height, view_format, clear: ClearColor::Transparent, store: true },
        depth: DepthTarget {
            width: depth.width,
            height: depth.height,
            format: depth.format,
            depth_clear: DepthClear::Far,
            stencil_clear: 0,
            store: true,
        },
        bind_group_entries: pipeline.bind_group_entries,
        draw: DrawCall { first_vertex: 0, vertex_count, first_instance: 0, instance_count: 1 },
    }
}

/// Tracks whether an acquired image is held.
pub struct FrameRenderer {
    pub in_flight: bool,
}

impl FrameRenderer {
    /// A renderer that holds no image.
    pub fn new() -> (r: FrameRenderer)
        ensures
            !r.in_flight,
    {
        FrameRenderer { in_flight: false }
    }

    /// Acquires the surface's next image. Refused while another is held.
    pub fn acquire(&mut self, surface: &SurfaceManager) -> (r: Result<FrameTicket, FrameError>)
        requires
            surface.wf(),
        ensures
            old(self).in_flight <==> r is Err,
            r is Err ==> r == Err::<FrameTicket, FrameError>(FrameError::TicketOutstanding)
                && final(self).in_flight,
            r matches Ok(t) ==> {
                &&& final(self).in_flight
                &&& t.width == surface.config.width
                &&& t.height == surface.config.height
                &&& t.view_format == surface.config.view_format
            },
    {
        if self.in_flight {
            return Err(FrameError::TicketOutstanding);
        }
        self.in_flight = true;
        Ok(
            FrameTicket {
                width: surface.config.width,
                height: surface.config.height,
                view_format: surface.config.view_format,
            },
        )
    }

    /// Records the frame's render pass into the image of `ticket`: clear
    /// color to transparent, depth to the far plane and stencil to 0, keep
    /// all three, bind the pipeline and its (empty) resource set, and draw
    /// `vertex_count` vertices once. Refused when no image is held, or when
    /// the image and the depth attachment differ in size.
    pub fn record(
        &self,
        ticket: &FrameTicket,
        surface: &SurfaceManager,
        pipeline: &Pipeline,
        vertex_count: u32,
    ) -> (r: Result<FramePlan, FrameError>)
        ensures
            !self.in_flight <==> r == Err::<FramePlan, FrameError>(FrameError::NoTicket),
            self.in_flight && (ticket.width != surface.depth.width || ticket.height
                != surface.depth.height) <==> r == Err::<FramePlan, FrameError>(
                FrameError::SizeMismatch,
            ),
            r is Ok <==> self.in_flight && ticket.width == surface.depth.width && ticket.height
                == surface.depth.height,
            r matches Ok(p) ==> p == plan_for(
                ticket.width,
                ticket.height,
                ticket.view_format,
                surface.depth,
                *pipeline,
                vertex_count,
            ),
            r matches Ok(p) ==> p.color.width == p.depth.width && p.color.height == p.depth.height,
    {
        if !self.in_flight {
            return Err(FrameError::NoTicket);
        }
        if ticket.width != surface.depth.width || ticket.height != surface.depth.height {
            return Err(FrameError::SizeMismatch);
        }
        Ok(
            FramePlan {
                color: ColorTarget {
                    width: ticket.width,
                    height: ticket.height,
                    view_format: ticket.view_format,
                    clear: ClearColor::Transparent,
                    store: true,
                },
                depth: DepthTarget {
                    width: surface.depth.width,
                    height: surface.depth.height,
                    format: surface.depth.format,
                    depth_clear: DepthClear::Far,
                    stencil_clear: 0,
                    store: true,
                },
                bind_group_entries: pipeline.bind_group_entries,
                draw: DrawCall { first_vertex: 0, vertex_count, first_instance: 0, instance_count: 1 },
            },
        )
    }

    /// Presents the held image, which retires it.
    pub fn present(&mut self, ticket: FrameTicket) -> (r: Result<(), FrameError>)
        ensures
            !final(self).in_flight,
            old(self).in_flight <==> r is Ok,
            r is Err ==> r == Err::<(), FrameError>(FrameError::NoTicket),
    {
        self.retire(ticket)
    }

    /// Gives the held image back without presenting it.
    pub fn discard(&mut self, ticket: FrameTicket) -> (r: Result<(), FrameError>)
        ensures
            !final(self).in_flight,
            old(self).in_flight <==> r is Ok,
            r is Err ==> r == Err::<(), FrameError>(FrameError::NoTicket),
    {
        self.retire(ticket)
    }

    fn retire(&mut self, ticket: FrameTicket) -> (r: Result<(), FrameError>)
        ensures
            !final(self).in_flight,
            old(self).in_flight <==> r is Ok,
            r is Err ==> r == Err::<(), FrameError>(FrameError::NoTicket),
    {
        if !self.in_flight {
            return Err(FrameError::NoTicket);
        }
        self.in_flight = false;
        Ok(())
    }
}

} // verus!
