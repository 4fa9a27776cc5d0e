use ebb::handle::Handle;
use ebb::surface::{SurfaceError, SurfaceTexture, ViewRequest, WindowSurface};

fn frame(id: u64) -> SurfaceTexture {
    SurfaceTexture { texture: Handle(id), width: 640, height: 480 }
}

#[test]
fn new_surface_has_no_texture_outstanding() {
    let surface = WindowSurface::new(Handle(5));
    assert_eq!(surface.raw_surface(), Handle(5));
    assert_eq!(surface.get_view(), ViewRequest::Acquire);
    assert_eq!(surface.width(), 0);
    assert_eq!(surface.height(), 0);
}

#[test]
fn view_asked_twice_is_the_same_view() {
    let mut surface = WindowSurface::new(Handle(5));
    assert_eq!(surface.get_view(), ViewRequest::Acquire);
    assert_eq!(surface.attach_texture(frame(1)), Ok(()));
    assert_eq!(surface.get_view(), ViewRequest::Outstanding(frame(1)));
    assert_eq!(surface.get_view(), ViewRequest::Outstanding(frame(1)));
    assert_eq!(surface.width(), 640);
    assert_eq!(surface.height(), 480);
}

#[test]
fn second_texture_without_presentation_is_reported_and_first_is_kept() {
    let mut surface = WindowSurface::new(Handle(5));
    assert_eq!(surface.attach_texture(frame(1)), Ok(()));
    assert_eq!(surface.attach_texture(frame(2)), Err(SurfaceError::AlreadyAcquired(frame(1))));
    assert_eq!(surface.attach_texture(frame(3)), Err(SurfaceError::AlreadyAcquired(frame(1))));
    assert_eq!(surface.get_view(), ViewRequest::Outstanding(frame(1)));
    assert_eq!(surface.present(), Some(frame(1)));
    assert_eq!(surface.present(), None);
}

#[test]
fn presentation_ends_the_frame() {
    let mut surface = WindowSurface::new(Handle(9));
    assert_eq!(surface.present(), None);
    assert_eq!(surface.attach_texture(frame(1)), Ok(()));
    assert_eq!(surface.present(), Some(frame(1)));
    assert_eq!(surface.get_view(), ViewRequest::Acquire);
    assert_eq!(surface.width(), 0);
    assert_eq!(surface.height(), 0);
    let next = SurfaceTexture { texture: Handle(2), width: 800, height: 600 };
    assert_eq!(surface.attach_texture(next), Ok(()));
    assert_eq!(surface.get_view(), ViewRequest::Outstanding(next));
    assert_eq!(surface.width(), 800);
    assert_eq!(surface.height(), 600);
    assert_eq!(surface.raw_surface(), Handle(9));
}
