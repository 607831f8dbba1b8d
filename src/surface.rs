//! The presentable surface's configuration and its depth attachment, kept
//! the same size as each other, and never of zero width or height.

use vstd::prelude::*;
use crate::format::{ColorFormat, DepthFormat, srgb_view_format, srgb_view_of};

verus! {

/// Size of a window's drawable area, in physical pixels.
#[derive(Clone, Copy, Debug, PartialEq, Eq, Structural)]
pub struct SurfaceSize {
    pub width: u32,
    pub height: u32,
}

impl SurfaceSize {
    pub open spec fn is_valid(self) -> bool {
        self.width > 0 && self.height > 0
    }
}

/// The size a configuration of size `current` has after a resize request
/// to `requested`: a request with a zero dimension is ignored.
pub open spec fn resized(current: SurfaceSize, requested: SurfaceSize) -> SurfaceSize {
    if requested.is_valid() {
        requested
    } else {
        current
    }
}

/// The size in effect after the resize requests `requests`, in order,
/// starting from `start`.
pub open spec fn size_after(start: SurfaceSize, requests: Seq<SurfaceSize>) -> SurfaceSize
    decreases requests.len(),
{
    if requests.len() == 0 {
        start
    } else {
        resized(size_after(start, requests.drop_last()), requests.last())
    }
}

/// After any sequence of resize requests, the size in effect is that of the
/// last request whose width and height are both non-zero, or the starting
/// size when there is none; so it is never of zero width or height, and
/// requests with a zero dimension never change it.
pub proof fn lemma_size_after_resizes(start: SurfaceSize, requests: Seq<SurfaceSize>)
    requires
        start.is_valid(),
    ensures
        size_after(start, requests).is_valid(),
        forall|k: int|
            0 <= k < requests.len() && (#[trigger] requests[k]).is_valid() && (forall|j: int|
                k < j < requests.len() ==> !requests[j].is_valid()) ==> size_after(start, requests)
                == requests[k],
        (forall|j: int| 0 <= j < requests.len() ==> !(#[trigger] requests[j]).is_valid())
            ==> size_after(start, requests) == start,
    decreases requests.len(),
{
    if requests.len() > 0 {
        let init = requests.drop_last();
        lemma_size_after_resizes(start, init);
        let n = requests.len() - 1;
        assert forall|k: int|
            0 <= k < requests.len() && (#[trigger] requests[k]).is_valid() && (forall|j: int|
                k < j < requests.len() ==> !requests[j].is_valid()) implies size_after(
            start,
            requests,
        ) == requests[k] by {
            if k < n {
                assert(!requests[n].is_valid());
                assert(init[k] == requests[k]);
                assert forall|j: int| k < j < init.len() implies !init[j].is_valid() by {
                    assert(init[j] == requests[j]);
                }
            }
        }
        if forall|j: int| 0 <= j < requests.len() ==> !(#[trigger] requests[j]).is_valid() {
            assert(!requests[n].is_valid());
            assert forall|j: int| 0 <= j < init.len() implies !(#[trigger] init[j]).is_valid() by {
                assert(init[j] == requests[j]);
            }
        }
    }
}

/// When presented images are shown.
#[derive(Clone, Copy, Debug, PartialEq, Eq, Structural)]
pub enum PresentMode {
    AutoVsync,
}

/// How the surface's alpha is composited with the desktop.
#[derive(Clone, Copy, Debug, PartialEq, Eq, Structural)]
pub enum AlphaMode {
    PreMultiplied,
}

/// Frames the device may queue ahead of the one being shown.
pub const MAX_QUEUED_FRAMES: u32 = 2;

/// Configuration of the presentable surface.
#[derive(Clone, Copy, Debug, PartialEq, Eq, Structural)]
pub struct SurfaceConfig {
    pub width: u32,
    pub height: u32,
    pub color_format: ColorFormat,
    pub view_format: ColorFormat,
    pub present_mode: PresentMode,
    pub alpha_mode: AlphaMode,
    pub max_queued_frames: u32,
}

impl SurfaceConfig {
    pub open spec fn size(self) -> SurfaceSize {
        SurfaceSize { width: self.width, height: self.height }
    }
}

/// The depth/stencil texture that backs the surface.
#[derive(Clone, Copy, Debug, PartialEq, Eq, Structural)]
pub struct DepthAttachment {
    pub width: u32,
    pub height: u32,
    pub format: DepthFormat,
}

/// Why a surface could not be set up.
#[derive(Clone, Copy, Debug, PartialEq, Eq, Structural)]
pub enum SurfaceError {
    /// None of the advertised formats is one the renderer can draw into.
    NoCompatibleFormat,
    /// The window has a zero width or height.
    ZeroSize,
}

/// Owner of the surface configuration and of its depth attachment.
pub struct SurfaceManager {
    pub config: SurfaceConfig,
    pub depth: DepthAttachment,
}

/// The first advertised format the renderer can draw into, if any.
pub open spec fn chosen_format(advertised: Seq<Option<ColorFormat>>) -> Option<ColorFormat>
    decreases advertised.len(),
{
    if advertised.len() == 0 {
        None
    } else if advertised[0] is Some {
        advertised[0]
    } else {
        chosen_format(advertised.drop_first())
    }
}

/// The configuration for a surface of `size` drawn in format `f`.
pub open spec fn config_for(f: ColorFormat, size: SurfaceSize) -> SurfaceConfig {
    SurfaceConfig {
        width: size.width,
        height: size.height,
        color_format: f,
        view_format: srgb_view_of(f),
        present_mode: PresentMode::AutoVsync,
        alpha_mode: AlphaMode::PreMultiplied,
        max_queued_frames: MAX_QUEUED_FRAMES,
    }
}

/// The depth attachment that matches a surface of `size`.
pub open spec fn depth_for(size: SurfaceSize) -> DepthAttachment {
    DepthAttachment {
        width: size.width,
        height: size.height,
        format: DepthFormat::Depth24PlusStencil8,
    }
}

/// Picks the first advertised format that the renderer can draw into
/// (`None` stands for one it cannot).
pub fn select_color_format(advertised: &Vec<Option<ColorFormat>>) -> (r: Option<ColorFormat>)
    ensures
        r == chosen_format(advertised@),
{
    let mut i: usize = 0;
    assert(advertised@.subrange(0, advertised@.len() as int) =~= advertised@);
    while i < advertised.len()
        invariant
            i <= advertised@.len(),
            chosen_format(advertised@) == chosen_format(advertised@.subrange(i as int, advertised@.len() as int)),
        decreases advertised@.len() - i,
    {
        let ghost rest = advertised@.subrange(i as int, advertised@.len() as int);
        assert(rest[0] == advertised@[i as int]);
        if let Some(f) = advertised[i] {
            return Some(f);
        }
        assert(rest.drop_first() =~= advertised@.subrange(i + 1, advertised@.len() as int));
        i = i + 1;
    }
    None
}

impl SurfaceManager {
    /// Well formed: a configured, non-empty surface whose depth attachment
    /// has exactly the surface's size, viewed through the sRGB form of its
    /// color format.
    pub open spec fn wf(&self) -> bool {
        &&& self.config.size().is_valid()
        &&& self.config == config_for(self.config.color_format, self.config.size())
        &&& self.depth == depth_for(self.config.size())
    }

    /// Sets up the surface for a window of `size`, in the first format that
    /// is both advertised and one the renderer can draw into.
    pub fn initialize(advertised: &Vec<Option<ColorFormat>>, size: SurfaceSize) -> (r: Result<
        SurfaceManager,
        SurfaceError,
    >)
        ensures
            chosen_format(advertised@) is None <==> r == Err::<SurfaceManager, SurfaceError>(
                SurfaceError::NoCompatibleFormat,
            ),
            chosen_format(advertised@) is Some && !size.is_valid() <==> r == Err::<
                SurfaceManager,
                SurfaceError,
            >(SurfaceError::ZeroSize),
            r is Ok <==> chosen_format(advertised@) is Some && size.is_valid(),
            r matches Ok(m) ==> {
                &&& m.wf()
                &&& chosen_format(advertised@) == Some(m.config.color_format)
                &&& m.config.size() == size
            },
    {
        let f = match select_color_format(advertised) {
            Some(f) => f,
            None => return Err(SurfaceError::NoCompatibleFormat),
        };
        if size.width == 0 || size.height == 0 {
            return Err(SurfaceError::ZeroSize);
        }
        let config = SurfaceConfig {
            width: size.width,
            height: size.height,
            color_format: f,
            view_format: srgb_view_format(f),
            present_mode: PresentMode::AutoVsync,
            alpha_mode: AlphaMode::PreMultiplied,
            max_queued_frames: MAX_QUEUED_FRAMES,
        };
        let depth = DepthAttachment {
            width: size.width,
            height: size.height,
            format: DepthFormat::Depth24PlusStencil8,
        };
        Ok(SurfaceManager { config, depth })
    }

    /// Reconfigures the surface for a window of `size` and replaces the
    /// depth attachment with one of that size. A size with a zero dimension
    /// (a minimized window) is ignored. Returns whether anything changed.
    pub fn reconfigure(&mut self, size: SurfaceSize) -> (applied: bool)
        requires
            old(self).wf(),
        ensures
            final(self).wf(),
            applied == size.is_valid(),
            final(self).config.size() == resized(old(self).config.size(), size),
            final(self).config.color_format == old(self).config.color_format,
            !applied ==> *final(self) == *old(self),
            applied ==> final(self).depth == depth_for(size),
    {
        if size.width == 0 || size.height == 0 {
            return false;
        }
        self.config.width = size.width;
        self.config.height = size.height;
        self.depth = DepthAttachment {
            width: size.width,
            height: size.height,
            format: self.depth.format,
        };
        true
    }
}

} // verus!
