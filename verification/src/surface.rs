//! The window surface and the texture of the frame that is being drawn.
//!
//! A surface hands out one texture per frame. The texture has to be presented
//! before the next one is asked for: a second texture taken while the first is
//! still outstanding would leave the first one behind, never presented. This
//! module keeps the record that rules this out. The application asks it what a
//! request for the view has to do, reports the texture that it acquired, and
//! asks it for the texture to present at the end of the frame.
use crate::handle::Handle;
use vstd::prelude::*;

verus! {

/// The texture of one frame, as the surface handed it out.
#[derive(Clone, Copy, Debug, PartialEq, Eq, Structural)]
pub struct SurfaceTexture {
    pub texture: Handle,
    pub width: u32,
    pub height: u32,
}

/// What a request for the view of the current frame has to do.
#[derive(Clone, Copy, Debug, PartialEq, Eq, Structural)]
pub enum ViewRequest {
    /// No texture is outstanding: acquire one from the surface and report it.
    Acquire,
    /// A texture is outstanding: use the view onto this texture again.
    Outstanding(SurfaceTexture),
}

/// A misuse of a surface.
#[derive(Clone, Copy, Debug, PartialEq, Eq, Structural)]
pub enum SurfaceError {
    /// A texture was reported while the one of this frame was still
    /// outstanding. The outstanding texture holds this one.
    AlreadyAcquired(SurfaceTexture),
}

/// The record of a presentable surface: the surface itself and the texture of
/// the current frame while it is outstanding.
pub struct WindowSurface {
    surf: Handle,
    curr_tex: Option<SurfaceTexture>,
}

impl WindowSurface {
    /// The surface that this record is about.
    pub closed spec fn surface(&self) -> Handle {
        self.surf
    }

    /// The texture that was acquired and not yet presented, if there is one.
    pub closed spec fn outstanding(&self) -> Option<SurfaceTexture> {
        self.curr_tex
    }

    /// Creates the record of a surface of which no texture is outstanding.
    pub fn new(surf: Handle) -> (surface: Self)
        ensures
            surface.surface() == surf,
            surface.outstanding() is None,
    {
        WindowSurface { surf, curr_tex: None }
    }

    /// The surface that this record is about.
    pub fn raw_surface(&self) -> (surf: Handle)
        ensures
            surf == self.surface(),
    {
        self.surf
    }

    /// Says what a request for the view of the current frame has to do: acquire
    /// a texture if none is outstanding, use the outstanding one otherwise.
    pub fn get_view(&self) -> (request: ViewRequest)
        ensures
            request == match self.outstanding() {
                Some(texture) => ViewRequest::Outstanding(texture),
                None => ViewRequest::Acquire,
            },
    {
        match self.curr_tex {
            Some(texture) => ViewRequest::Outstanding(texture),
            None => ViewRequest::Acquire,
        }
    }

    /// Records the texture that was acquired for the current frame. While a
    /// texture is outstanding the record is left as it is and the misuse is
    /// reported, together with the texture that is still outstanding.
    pub fn attach_texture(&mut self, texture: SurfaceTexture) -> (r: Result<(), SurfaceError>)
        ensures
            final(self).surface() == old(self).surface(),
            final(self).outstanding() == attached_to(old(self).outstanding(), texture),
            r == match old(self).outstanding() {
                Some(first) => Err::<(), SurfaceError>(SurfaceError::AlreadyAcquired(first)),
                None => Ok::<(), SurfaceError>(()),
            },
    {
        match self.curr_tex {
            Some(first) => Err(SurfaceError::AlreadyAcquired(first)),
            None => {
                self.curr_tex = Some(texture);
                Ok(())
            },
        }
    }

    /// Ends the frame: hands out the outstanding texture, which is to be
    /// presented, and records that none is outstanding any more. Without an
    /// outstanding texture there is nothing to present.
    pub fn present(&mut self) -> (texture: Option<SurfaceTexture>)
        ensures
            texture == old(self).outstanding(),
            final(self).outstanding() is None,
            final(self).surface() == old(self).surface(),
    {
        let texture = self.curr_tex;
        self.curr_tex = None;
        texture
    }

    /// The width of the outstanding texture in pixels, or 0 if there is none.
    pub fn width(&self) -> (width: u32)
        ensures
            width == match self.outstanding() {
                Some(texture) => texture.width,
                None => 0,
            },
    {
        match self.curr_tex {
            Some(texture) => texture.width,
            None => 0,
        }
    }

    /// The height of the outstanding texture in pixels, or 0 if there is none.
    pub fn height(&self) -> (height: u32)
        ensures
            height == match self.outstanding() {
                Some(texture) => texture.height,
                None => 0,
            },
    {
        match self.curr_tex {
            Some(texture) => texture.height,
            None => 0,
        }
    }
}

/// The texture that is outstanding once `texture` was reported to a surface
/// with `outstanding`: the one that was outstanding, or else the reported one.
pub open spec fn attached_to(
    outstanding: Option<SurfaceTexture>,
    texture: SurfaceTexture,
) -> Option<SurfaceTexture> {
    match outstanding {
        Some(first) => Some(first),
        None => Some(texture),
    }
}

/// The texture that is outstanding once the textures of a list were reported
/// one after the other, with no presentation in between.
pub open spec fn after_reports(
    start: Option<SurfaceTexture>,
    reported: Seq<SurfaceTexture>,
) -> Option<SurfaceTexture> {
    reported.fold_left(start, |o: Option<SurfaceTexture>, t: SurfaceTexture| attached_to(o, t))
}

/// At most one texture is taken per frame: however many textures are reported
/// without a presentation in between, the first one stays outstanding. So
/// every request for the view in that time is answered with the same texture,
/// the next presentation hands out that texture, and none is left behind.
pub proof fn first_texture_stays_outstanding(
    start: Option<SurfaceTexture>,
    reported: Seq<SurfaceTexture>,
)
    ensures
        after_reports(start, reported) == match start {
            Some(first) => Some(first),
            None => if reported.len() == 0 {
                None
            } else {
                Some(reported[0])
            },
        },
    decreases reported.len(),
{
    reveal_with_fuel(Seq::fold_left, 2);
    if reported.len() > 0 {
        first_texture_stays_outstanding(start, reported.drop_last());
        if reported.len() > 1 {
            assert(reported.drop_last()[0] == reported[0]);
        }
    }
}

} // verus!
