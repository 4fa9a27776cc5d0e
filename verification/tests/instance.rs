use ebb::handle::Handle;
use ebb::instance::{select_surface_format, Instance, ResizeAction, SurfaceConfiguration};
use ebb::surface::{SurfaceTexture, ViewRequest};

fn instance() -> Instance {
    Instance::new(Handle(1), (800, 600), 3, 2048)
}

#[test]
fn new_instance_is_configured_with_the_window_size() {
    let instance = instance();
    assert_eq!(
        *instance.raw_config(),
        SurfaceConfiguration { format: 3, width: 800, height: 600, desired_maximum_frame_latency: 2 }
    );
    assert_eq!(instance.max_texture_dimension(), 2048);
    assert_eq!(instance.window_surface().raw_surface(), Handle(1));
    assert_eq!(instance.window_surface().get_view(), ViewRequest::Acquire);
}

#[test]
fn resize_beyond_the_limit_clamps_the_width() {
    let mut instance = instance();
    assert_eq!(
        instance.resize((4000, 300)),
        ResizeAction::RequestInnerSize { width: 2048, height: 300 }
    );
    assert_eq!(instance.raw_config().width, 800);
    assert_eq!(instance.raw_config().height, 600);
    assert_eq!(
        instance.resize((2049, 1)),
        ResizeAction::RequestInnerSize { width: 2048, height: 1 }
    );
    assert_eq!(
        instance.resize((u32::MAX, 0)),
        ResizeAction::RequestInnerSize { width: 2048, height: 0 }
    );
    assert_eq!(instance.raw_config().width, 800);
}

#[test]
fn resize_beyond_the_limit_clamps_the_height() {
    let mut instance = instance();
    assert_eq!(
        instance.resize((300, 4000)),
        ResizeAction::RequestInnerSize { width: 300, height: 2048 }
    );
    assert_eq!(instance.raw_config().width, 800);
    assert_eq!(instance.raw_config().height, 600);
}

#[test]
fn resize_with_both_sides_beyond_the_limit_clamps_both() {
    let mut instance = instance();
    assert_eq!(
        instance.resize((4096, 4096)),
        ResizeAction::RequestInnerSize { width: 2048, height: 2048 }
    );
    assert_eq!(
        instance.resize((5000, 4000)),
        ResizeAction::RequestInnerSize { width: 2048, height: 2048 }
    );
    assert_eq!(
        instance.resize((u32::MAX, u32::MAX)),
        ResizeAction::RequestInnerSize { width: 2048, height: 2048 }
    );
    assert_eq!(instance.raw_config().width, 800);
    assert_eq!(instance.raw_config().height, 600);
    assert_eq!(instance.resize((2048, 2048)), ResizeAction::Configure { width: 2048, height: 2048 });
    assert_eq!(instance.raw_config().width, 2048);
    assert_eq!(instance.raw_config().height, 2048);
}

#[test]
fn resize_within_the_limit_configures_the_surface() {
    let mut instance = instance();
    assert_eq!(instance.resize((1024, 768)), ResizeAction::Configure { width: 1024, height: 768 });
    assert_eq!(
        *instance.raw_config(),
        SurfaceConfiguration { format: 3, width: 1024, height: 768, desired_maximum_frame_latency: 2 }
    );
    assert_eq!(instance.resize((1, 1)), ResizeAction::Configure { width: 1, height: 1 });
    assert_eq!(instance.raw_config().width, 1);
    assert_eq!(instance.raw_config().height, 1);
    assert_eq!(instance.max_texture_dimension(), 2048);
}

#[test]
fn resize_to_no_area_is_ignored() {
    let mut instance = instance();
    assert_eq!(instance.resize((0, 600)), ResizeAction::Ignore);
    assert_eq!(instance.resize((800, 0)), ResizeAction::Ignore);
    assert_eq!(instance.resize((0, 0)), ResizeAction::Ignore);
    assert_eq!(instance.raw_config().width, 800);
    assert_eq!(instance.raw_config().height, 600);
}

#[test]
fn window_surface_is_written_through_the_instance() {
    let mut instance = instance();
    let texture = SurfaceTexture { texture: Handle(4), width: 800, height: 600 };
    assert_eq!(instance.window_surface_mut().attach_texture(texture), Ok(()));
    assert_eq!(instance.window_surface().get_view(), ViewRequest::Outstanding(texture));
    assert_eq!(instance.window_surface_mut().present(), Some(texture));
    assert_eq!(instance.window_surface().get_view(), ViewRequest::Acquire);
    assert_eq!(instance.raw_config().width, 800);
}

#[test]
fn first_format_that_is_not_srgb_is_selected() {
    assert_eq!(select_surface_format(&vec![false]), 0);
    assert_eq!(select_surface_format(&vec![true]), 0);
    assert_eq!(select_surface_format(&vec![true, false]), 1);
    assert_eq!(select_surface_format(&vec![true, true, false, false]), 2);
    assert_eq!(select_surface_format(&vec![false, true, false]), 0);
    assert_eq!(select_surface_format(&vec![true, true, true]), 0);
}
