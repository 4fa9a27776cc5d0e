use ebb::ecs::Entity;
use ebb::engine::Engine;
use ebb::handle::Handle;
use ebb::instance::Instance;
use ebb::scene::SceneComponent;
use ebb::window::{Event, Key, Window, WindowAction, WindowEvent};

fn window() -> Window {
    Window::new((1920, 1080), String::from("Ebb Test Window"), false)
}

#[test]
fn window_is_what_it_was_asked_to_be() {
    let window = window();
    assert_eq!(window.size(), (1920, 1080));
    assert_eq!(window.title(), "Ebb Test Window");
    assert!(!window.resizable());
    assert!(Window::new((1, 2), String::new(), true).resizable());
}

#[test]
fn own_events_call_for_their_actions() {
    let window = window();
    let own = |event| Event::Window { own: true, event };
    assert_eq!(window.run(own(WindowEvent::RedrawRequested)), WindowAction::Render);
    assert_eq!(window.run(own(WindowEvent::CloseRequested)), WindowAction::Exit);
    assert_eq!(window.run(own(WindowEvent::KeyPressed(Key::Escape))), WindowAction::Exit);
    assert_eq!(window.run(own(WindowEvent::KeyPressed(Key::Other))), WindowAction::Nothing);
    assert_eq!(
        window.run(own(WindowEvent::Resized { width: 640, height: 480 })),
        WindowAction::Resize { width: 640, height: 480 }
    );
    assert_eq!(window.run(own(WindowEvent::Other)), WindowAction::Nothing);
}

#[test]
fn events_of_other_windows_call_for_nothing() {
    let window = window();
    let other = |event| Event::Window { own: false, event };
    assert_eq!(window.run(other(WindowEvent::RedrawRequested)), WindowAction::Nothing);
    assert_eq!(window.run(other(WindowEvent::CloseRequested)), WindowAction::Nothing);
    assert_eq!(window.run(other(WindowEvent::KeyPressed(Key::Escape))), WindowAction::Nothing);
    assert_eq!(
        window.run(other(WindowEvent::Resized { width: 640, height: 480 })),
        WindowAction::Nothing
    );
}

#[test]
fn loop_asks_for_the_next_drawing_when_it_runs_dry() {
    let window = window();
    assert_eq!(window.run(Event::AboutToWait), WindowAction::RequestRedraw);
    assert_eq!(window.run(Event::Other), WindowAction::Nothing);
}

#[test]
fn new_engine_holds_an_empty_world() {
    let instance = Instance::new(Handle(1), (800, 600), 0, 8192);
    let mut engine: Engine<SceneComponent> =
        Engine::new(Window::new((800, 600), String::from("Ebb Test - Portals"), false), instance);
    assert_eq!(engine.window.size(), (800, 600));
    assert_eq!(engine.window.title(), "Ebb Test - Portals");
    assert_eq!(engine.instance.raw_config().width, 800);
    assert_eq!(engine.world.get_entities().len(), 0);
    engine.world.add_entity(Entity::new());
    engine.world.update();
    assert_eq!(engine.world.get_entities().len(), 1);
}
