//! The GPU instance as the library sees it: the configuration of the window
//! surface, the limit of the device that bounds it, and the surface's record.
use crate::handle::Handle;
use crate::surface::WindowSurface;
use vstd::prelude::*;

verus! {

/// How the window surface is configured.
#[derive(Clone, Copy, Debug, PartialEq, Eq, Structural)]
pub struct SurfaceConfiguration {
    /// The position of the texture format in the list that the surface offers.
    pub format: usize,
    pub width: u32,
    pub height: u32,
    pub desired_maximum_frame_latency: u32,
}

/// What has to be done about a new window size.
#[derive(Clone, Copy, Debug, PartialEq, Eq, Structural)]
pub enum ResizeAction {
    /// The size is beyond what the device can draw to: ask the window to
    /// shrink to this size. The surface keeps its configuration.
    RequestInnerSize { width: u32, height: u32 },
    /// Configure the surface again, with the configuration as it is now.
    Configure { width: u32, height: u32 },
    /// The window has no area: leave everything as it is.
    Ignore,
}

/// Picks the format of the surface among those that it offers, given for each
/// whether it is an sRGB format: the first that is not, or the first of all
/// where every format is.
pub fn select_surface_format(is_srgb: &Vec<bool>) -> (format: usize)
    requires
        is_srgb@.len() > 0,
    ensures
        format < is_srgb@.len(),
        forall|i: int| 0 <= i < format ==> is_srgb@[i],
        is_srgb@[format as int] ==> format == 0 && forall|i: int|
            0 <= i < is_srgb@.len() ==> is_srgb@[i],
{
    let mut i: usize = 0;
    while i < is_srgb.len()
        invariant
            i <= is_srgb@.len(),
            forall|j: int| 0 <= j < i ==> is_srgb@[j],
        decreases is_srgb@.len() - i,
    {
        if !is_srgb[i] {
            return i;
        }
        i += 1;
    }
    0
}

/// A side of a window cut to what the device can draw to.
pub open spec fn clamped(side: u32, limit: u32) -> u32 {
    if side > limit {
        limit
    } else {
        side
    }
}

/// What a new window size asks for on a device that draws to textures of at
/// most `limit` pixels a side: where a side is beyond the limit, the window is
/// asked to shrink to the size with both sides cut to the limit; a size within
/// the limit that has an area configures the surface.
pub open spec fn resize_action(new_size: (u32, u32), limit: u32) -> ResizeAction {
    if new_size.0 > limit || new_size.1 > limit {
        ResizeAction::RequestInnerSize {
            width: clamped(new_size.0, limit),
            height: clamped(new_size.1, limit),
        }
    } else if new_size.0 > 0 && new_size.1 > 0 {
        ResizeAction::Configure { width: new_size.0, height: new_size.1 }
    } else {
        ResizeAction::Ignore
    }
}

/// The library's view of the GPU and the window surface.
pub struct Instance {
    surface: WindowSurface,
    config: SurfaceConfiguration,
    max_texture_dimension: u32,
}

impl Instance {
    /// The configuration of the window surface.
    pub closed spec fn config(&self) -> SurfaceConfiguration {
        self.config
    }

    /// The largest width or height of a texture that the device draws to.
    pub closed spec fn limit(&self) -> u32 {
        self.max_texture_dimension
    }

    /// The record of the window surface.
    pub closed spec fn surface(&self) -> WindowSurface {
        self.surface
    }

    /// Creates the instance for a window surface that was configured with the
    /// window's size and the chosen format, on a device with the given limit.
    pub fn new(surface: Handle, size: (u32, u32), format: usize, max_texture_dimension: u32) -> (instance: Self)
        ensures
            instance.config() == (SurfaceConfiguration {
                format,
                width: size.0,
                height: size.1,
                desired_maximum_frame_latency: 2,
            }),
            instance.limit() == max_texture_dimension,
            instance.surface().surface() == surface,
            instance.surface().outstanding() is None,
    {
        Instance {
            surface: WindowSurface::new(surface),
            config: SurfaceConfiguration {
                format,
                width: size.0,
                height: size.1,
                desired_maximum_frame_latency: 2,
            },
            max_texture_dimension,
        }
    }

    /// Responds to a changed window size. The configuration takes the new size
    /// only where the surface is to be configured with it, so no width or height
    /// beyond the device's limit ever reaches the configuration.
    pub fn resize(&mut self, new_size: (u32, u32)) -> (action: ResizeAction)
        ensures
            action == resize_action(new_size, old(self).limit()),
            final(self).limit() == old(self).limit(),
            final(self).surface() == old(self).surface(),
            final(self).config() == match action {
                ResizeAction::Configure { width, height } => SurfaceConfiguration {
                    width,
                    height,
                    ..old(self).config()
                },
                _ => old(self).config(),
            },
    {
        let max_extent = self.max_texture_dimension;
        if new_size.0 > max_extent || new_size.1 > max_extent {
            return ResizeAction::RequestInnerSize {
                width: if new_size.0 > max_extent {
                    max_extent
                } else {
                    new_size.0
                },
                height: if new_size.1 > max_extent {
                    max_extent
                } else {
                    new_size.1
                },
            };
        }
        if new_size.0 > 0 && new_size.1 > 0 {
            self.config.width = new_size.0;
            self.config.height = new_size.1;
            return ResizeAction::Configure { width: new_size.0, height: new_size.1 };
        }
        ResizeAction::Ignore
    }

    /// The configuration of the window surface.
    pub fn raw_config(&self) -> (config: &SurfaceConfiguration)
        ensures
            *config == self.config(),
    {
        &self.config
    }

    /// The largest width or height of a texture that the device draws to.
    pub fn max_texture_dimension(&self) -> (limit: u32)
        ensures
            limit == self.limit(),
    {
        self.max_texture_dimension
    }

    /// The record of the window surface.
    pub fn window_surface(&self) -> (surface: &WindowSurface)
        ensures
            *surface == self.surface(),
    {
        &self.surface
    }

    /// The record of the window surface, for writing. Nothing else changes.
    pub fn window_surface_mut(&mut self) -> (surface: &mut WindowSurface)
        ensures
            *surface == old(self).surface(),
            final(self).surface() == *final(surface),
            final(self).config() == old(self).config(),
            final(self).limit() == old(self).limit(),
    {
        &mut self.surface
    }
}

/// A size beyond the device's limit is never configured: the window is asked
/// to shrink to the size with every side beyond the limit cut to the limit and
/// every other side as it came, so that neither side of what is asked for is
/// beyond the limit. What is configured is the requested size unchanged, and
/// lies within the limit.
pub proof fn resize_clamps_to_limit(new_size: (u32, u32), limit: u32)
    ensures
        new_size.0 > limit || new_size.1 > limit ==> resize_action(new_size, limit) == (
        ResizeAction::RequestInnerSize {
            width: if new_size.0 > limit {
                limit
            } else {
                new_size.0
            },
            height: if new_size.1 > limit {
                limit
            } else {
                new_size.1
            },
        }),
        match resize_action(new_size, limit) {
            ResizeAction::Configure { width, height } => (width, height) == new_size && 0 < width
                <= limit && 0 < height <= limit,
            ResizeAction::RequestInnerSize { width, height } => (new_size.0 > limit || new_size.1
                > limit) && width <= limit && height <= limit && width <= new_size.0 && height
                <= new_size.1,
            ResizeAction::Ignore => (new_size.0 == 0 || new_size.1 == 0) && new_size.0 <= limit
                && new_size.1 <= limit,
        },
{
}

} // verus!
