use vstd::prelude::*;

verus! {

/// Width and height of a window area, in pixels.
#[derive(Clone, Copy, Debug, PartialEq, Eq, Structural)]
pub struct Size {
    pub width: u32,
    pub height: u32,
}

/// The area that a frame is drawn into.
#[derive(Clone, Copy, Debug, PartialEq, Eq, Structural)]
pub struct Viewport {
    /// Left edge of the drawn rectangle.
    pub x: i32,
    /// Top edge of the drawn rectangle.
    pub y: i32,
    /// Width of the drawn rectangle.
    pub w: i32,
    /// Height of the drawn rectangle.
    pub h: i32,
    /// Size of the drawable area, in pixels.
    pub draw_size: Size,
    /// Logical size of the window.
    pub window_size: Size,
}

/// One event of the window's event loop.
#[derive(Clone, Copy, Debug, PartialEq, Eq, Structural)]
pub enum Event {
    /// A frame should be drawn now, into the given viewport.
    Render(Viewport),
    /// The buffers were just swapped.
    AfterRender,
    /// The drawable area changed to the given size.
    Resize(Size),
    /// The application state should advance; the delivered event tells by
    /// how much time.
    Update,
    /// The event loop has nothing to do.
    Idle,
    /// Anything else, such as user input. Its details (which key, where the
    /// mouse went) stay in the delivered event that a session carries beside
    /// this one.
    Input,
}

/// The identity tag of an event kind; `Empty` stands for no event at all.
#[derive(Clone, Copy, Debug, PartialEq, Eq, Structural)]
pub enum EventId {
    Empty,
    Render,
    AfterRender,
    Resize,
    Update,
    Idle,
    Input,
}

/// The identity tag of an event.
pub open spec fn id_of(e: Event) -> EventId {
    match e {
        Event::Render(_) => EventId::Render,
        Event::AfterRender => EventId::AfterRender,
        Event::Resize(_) => EventId::Resize,
        Event::Update => EventId::Update,
        Event::Idle => EventId::Idle,
        Event::Input => EventId::Input,
    }
}

/// The identity tag of a possibly absent event.
pub open spec fn id_of_current(e: Option<Event>) -> EventId {
    match e {
        Some(e) => id_of(e),
        None => EventId::Empty,
    }
}

/// Whether an event is present and asks for a frame to be drawn.
pub open spec fn is_render(e: Option<Event>) -> bool {
    e matches Some(Event::Render(_))
}

impl Event {
    /// The identity tag of this event.
    pub fn event_id(&self) -> (r: EventId)
        ensures
            r == id_of(*self),
    {
        match self {
            Event::Render(_) => EventId::Render,
            Event::AfterRender => EventId::AfterRender,
            Event::Resize(_) => EventId::Resize,
            Event::Update => EventId::Update,
            Event::Idle => EventId::Idle,
            Event::Input => EventId::Input,
        }
    }

    /// The viewport of a render request; `None` for every other event.
    pub fn render_args(&self) -> (r: Option<Viewport>)
        ensures
            r == (match *self {
                Event::Render(v) => Some(v),
                _ => None::<Viewport>,
            }),
    {
        match self {
            Event::Render(v) => Some(*v),
            _ => None,
        }
    }

    /// Whether this event tells that the buffers were just swapped.
    pub fn after_render_args(&self) -> (r: bool)
        ensures
            r == (*self == Event::AfterRender),
    {
        match self {
            Event::AfterRender => true,
            _ => false,
        }
    }

    /// The new size of the drawable area, for a resize notification.
    pub fn resize_args(&self) -> (r: Option<Size>)
        ensures
            r == (match *self {
                Event::Resize(s) => Some(s),
                _ => None::<Size>,
            }),
    {
        match self {
            Event::Resize(s) => Some(*s),
            _ => None,
        }
    }

    /// Rebuilds an event of kind `id` from the payload `args`. Only a payload
    /// of that very kind can be rebuilt into it.
    pub fn from_args(id: EventId, args: &Event) -> (r: Option<Event>)
        ensures
            r == (if id_of(*args) == id {
                Some(*args)
            } else {
                None::<Event>
            }),
    {
        let k = args.event_id();
        if k == id {
            Some(*args)
        } else {
            None
        }
    }
}

} // verus!
