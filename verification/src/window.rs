//! The window as the library sees it: what it was asked to be, and what each
//! event of its loop calls for.
use vstd::prelude::*;

verus! {

/// A key of the keyboard, as far as the window cares.
#[derive(Clone, Copy, Debug, PartialEq, Eq, Structural)]
pub enum Key {
    Escape,
    Other,
}

/// An event that is addressed to a window.
#[derive(Clone, Copy, Debug, PartialEq, Eq, Structural)]
pub enum WindowEvent {
    /// The window has to be drawn again.
    RedrawRequested,
    /// The user asked to close the window.
    CloseRequested,
    /// A key went down.
    KeyPressed(Key),
    /// The window has a new inner size, in pixels.
    Resized { width: u32, height: u32 },
    /// Anything else.
    Other,
}

/// An event of the loop that a window runs.
#[derive(Clone, Copy, Debug, PartialEq, Eq, Structural)]
pub enum Event {
    /// An event for a window; `own` tells whether it is this window.
    Window { own: bool, event: WindowEvent },
    /// The loop has handled all events and is about to wait for more.
    AboutToWait,
    /// Anything else.
    Other,
}

/// What an event calls for.
#[derive(Clone, Copy, Debug, PartialEq, Eq, Structural)]
pub enum WindowAction {
    /// Call the render callback.
    Render,
    /// Call the resize callback with this size.
    Resize { width: u32, height: u32 },
    /// Leave the loop.
    Exit,
    /// Ask for the window to be drawn again.
    RequestRedraw,
    /// Nothing.
    Nothing,
}

/// What an event of the loop calls for: this window is drawn when it has to
/// be, the loop ends when the window is to be closed or Escape goes down in
/// it, a new size is reported, and whenever the loop runs dry the next
/// drawing is asked for. Events for other windows call for nothing.
pub open spec fn action_for(event: Event) -> WindowAction {
    match event {
        Event::Window { own: true, event: WindowEvent::RedrawRequested } => WindowAction::Render,
        Event::Window { own: true, event: WindowEvent::CloseRequested } => WindowAction::Exit,
        Event::Window { own: true, event: WindowEvent::KeyPressed(Key::Escape) } => WindowAction::Exit,
        Event::Window { own: true, event: WindowEvent::Resized { width, height } } => WindowAction::Resize {
            width,
            height,
        },
        Event::AboutToWait => WindowAction::RequestRedraw,
        _ => WindowAction::Nothing,
    }
}

/// A viewport of the application: a window on a desktop, a canvas in a
/// browser. This is what it was asked to be.
pub struct Window {
    size: (u32, u32),
    title: String,
    resizable: bool,
}

impl Window {
    /// The inner size that was asked for, in pixels.
    pub closed spec fn requested_size(&self) -> (u32, u32) {
        self.size
    }

    /// The title.
    pub closed spec fn requested_title(&self) -> String {
        self.title
    }

    /// Whether the user may resize the window.
    pub closed spec fn is_resizable(&self) -> bool {
        self.resizable
    }

    /// Describes a window of the given inner size and title.
    pub fn new(size: (u32, u32), title: String, resizable: bool) -> (window: Window)
        ensures
            window.requested_size() == size,
            window.requested_title() == title,
            window.is_resizable() == resizable,
    {
        Window { size, title, resizable }
    }

    /// The inner size that was asked for, in pixels.
    pub fn size(&self) -> (size: (u32, u32))
        ensures
            size == self.requested_size(),
    {
        self.size
    }

    /// The title.
    pub fn title(&self) -> (title: &String)
        ensures
            *title == self.requested_title(),
    {
        &self.title
    }

    /// Whether the user may resize the window.
    pub fn resizable(&self) -> (resizable: bool)
        ensures
            resizable == self.is_resizable(),
    {
        self.resizable
    }

    /// Says what an event of the window's loop calls for.
    pub fn run(&self, event: Event) -> (action: WindowAction)
        ensures
            action == action_for(event),
    {
        match event {
            Event::Window { own, event } => {
                if !own {
                    return WindowAction::Nothing;
                }
                match event {
                    WindowEvent::RedrawRequested => WindowAction::Render,
                    WindowEvent::CloseRequested => WindowAction::Exit,
                    WindowEvent::KeyPressed(key) => match key {
                        Key::Escape => WindowAction::Exit,
                        Key::Other => WindowAction::Nothing,
                    },
                    WindowEvent::Resized { width, height } => WindowAction::Resize { width, height },
                    WindowEvent::Other => WindowAction::Nothing,
                }
            },
            Event::AboutToWait => WindowAction::RequestRedraw,
            Event::Other => WindowAction::Nothing,
        }
    }
}

} // verus!
