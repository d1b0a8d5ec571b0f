use vstd::prelude::*;

use crate::event::{id_of, id_of_current, is_render, Event, EventId, Size, Viewport};

verus! {

/// Width and height of the command stream's render target.
#[derive(Clone, Copy, Debug, PartialEq, Eq, Structural)]
pub struct Output {
    pub width: u32,
    pub height: u32,
}

/// One operation on the GPU side. A session hands these out in the order in
/// which they must be carried out.
#[derive(Clone, Copy, Debug, PartialEq, Eq, Structural)]
pub enum Command {
    /// Reclaim the device resources of the frame that was just presented.
    Cleanup,
    /// Give the render target of the command stream a new size.
    SetOutput(Output),
    /// Run the 2D renderer over the command stream, in the given viewport,
    /// with the caller's drawing callback.
    Draw2d(Viewport),
    /// Hand the command stream to the caller's 3D drawing callback.
    Draw3d,
    /// Flush the command stream to the device.
    Flush,
}

/// A snapshot of the window session: the shared resources, the event that
/// this snapshot was made for (none for the first one), and the application
/// state.
///
/// `R` holds the shared handles of the window, the command stream, the
/// device, the 2D renderer, the event loop and the resource factory; every
/// snapshot of one session holds clones of the same handles.
///
/// `P` is the event as the event loop delivered it, with everything that it
/// carries (which key, where the mouse went, how much time passed). The
/// session never reads it: it keeps it beside `event`, which is what the
/// session's own bookkeeping goes by, and hands it to the application.
#[derive(Clone, Debug)]
pub struct PistonWindow<R, T, P> {
    pub resources: R,
    pub event: Option<Event>,
    pub raw: Option<P>,
    pub app: T,
}

/// The render target that fits a drawable area of the given size.
pub open spec fn output_for(s: Size) -> Output {
    Output { width: s.width, height: s.height }
}

/// What must happen on the GPU side when the event loop yields `e`, before
/// the session for `e` is handed out.
pub open spec fn prepare_plan(e: Event) -> Seq<Command> {
    match e {
        Event::AfterRender => seq![Command::Cleanup],
        Event::Resize(s) => seq![Command::SetOutput(output_for(s))],
        _ => Seq::empty(),
    }
}

/// What a 2D draw call does in a session whose current event is `e`.
pub open spec fn draw_2d_plan(e: Option<Event>) -> Seq<Command> {
    match e {
        Some(Event::Render(v)) => seq![Command::Draw2d(v), Command::Flush],
        _ => Seq::empty(),
    }
}

/// What a 3D draw call does in a session whose current event is `e`.
pub open spec fn draw_3d_plan(e: Option<Event>) -> Seq<Command> {
    match e {
        Some(Event::Render(_)) => seq![Command::Draw3d, Command::Flush],
        _ => Seq::empty(),
    }
}

/// Everything that happens for one event: the session's own bookkeeping,
/// then a 2D and a 3D draw call by the application.
pub open spec fn frame(e: Event) -> Seq<Command> {
    prepare_plan(e) + draw_2d_plan(Some(e)) + draw_3d_plan(Some(e))
}

/// Everything that happens over a run of events, in order.
pub open spec fn frames(es: Seq<Event>) -> Seq<Command>
    decreases es.len(),
{
    if es.len() == 0 {
        Seq::empty()
    } else {
        frames(es.drop_last()) + frame(es.last())
    }
}

/// Whether a command draws, with either renderer.
pub open spec fn is_draw(c: Command) -> bool {
    c matches Command::Draw2d(_) || c matches Command::Draw3d
}

/// The size of the render target after the commands `cs`, from `o`.
pub open spec fn output_after(o: Output, cs: Seq<Command>) -> Output
    decreases cs.len(),
{
    if cs.len() == 0 {
        o
    } else {
        match cs.last() {
            Command::SetOutput(n) => n,
            _ => output_after(o, cs.drop_last()),
        }
    }
}

/// How many times the commands `cs` clean up the device.
pub open spec fn count_cleanups(cs: Seq<Command>) -> nat
    decreases cs.len(),
{
    if cs.len() == 0 {
        0
    } else {
        count_cleanups(cs.drop_last()) + if cs.last() == Command::Cleanup {
            1nat
        } else {
            0nat
        }
    }
}

/// How many post-present notifications the events `es` hold.
pub open spec fn count_presents(es: Seq<Event>) -> nat
    decreases es.len(),
{
    if es.len() == 0 {
        0
    } else {
        count_presents(es.drop_last()) + if es.last() == Event::AfterRender {
            1nat
        } else {
            0nat
        }
    }
}

/// The render target that fits a drawable area of the given size.
pub fn output_for_size(s: Size) -> (r: Output)
    ensures
        r == output_for(s),
{
    Output { width: s.width, height: s.height }
}

impl<R, T, P> PistonWindow<R, T, P> {
    /// The first snapshot of a session, over freshly made resources; it
    /// carries no event.
    pub fn new(resources: R, app: T) -> (r: Self)
        ensures
            r.resources == resources,
            r.app == app,
            r.event.is_none(),
            r.raw.is_none(),
    {
        PistonWindow { resources, event: None, raw: None, app }
    }

    /// The same session with another application state: the resources and
    /// the current event are kept as they are.
    pub fn app<U>(self, app: U) -> (r: PistonWindow<R, U, P>)
        ensures
            r.resources == self.resources,
            r.event == self.event,
            r.raw == self.raw,
            r.app == app,
    {
        PistonWindow { resources: self.resources, event: self.event, raw: self.raw, app }
    }

    /// The commands of a 2D draw call: for a render request, draw in its
    /// viewport and flush; for any other event, or none, nothing at all.
    pub fn draw_2d(&self) -> (r: Vec<Command>)
        ensures
            r@ == draw_2d_plan(self.event),
            (exists|i: int| 0 <= i < r@.len() && is_draw(r@[i])) <==> is_render(self.event),
    {
        let mut r: Vec<Command> = Vec::new();
        match self.event {
            Some(Event::Render(v)) => {
                r.push(Command::Draw2d(v));
                r.push(Command::Flush);
                assert(is_draw(r@[0]));
            },
            _ => {},
        }
        r
    }

    /// The commands of a 3D draw call: for a render request, hand over the
    /// command stream and flush; for any other event, or none, nothing at all.
    pub fn draw_3d(&self) -> (r: Vec<Command>)
        ensures
            r@ == draw_3d_plan(self.event),
            (exists|i: int| 0 <= i < r@.len() && is_draw(r@[i])) <==> is_render(self.event),
    {
        let mut r: Vec<Command> = Vec::new();
        match self.event {
            Some(Event::Render(_)) => {
                r.push(Command::Draw3d);
                r.push(Command::Flush);
                assert(is_draw(r@[0]));
            },
            _ => {},
        }
        r
    }

    /// The identity tag of the current event, or `EventId::Empty` when there
    /// is none.
    pub fn event_id(&self) -> (r: EventId)
        ensures
            r == id_of_current(self.event),
    {
        match &self.event {
            Some(e) => e.event_id(),
            None => EventId::Empty,
        }
    }

    /// Hands the current event, and the event as the event loop delivered
    /// it, to `f` and returns what `f` returns. There must be a current event.
    pub fn with_args<F, U>(&self, f: F) -> (r: U) where F: FnOnce(Event, &P) -> U
        requires
            self.event.is_some(),
            self.raw.is_some(),
            f.requires((self.event.unwrap(), &self.raw.unwrap())),
        ensures
            f.ensures((self.event.unwrap(), &self.raw.unwrap()), r),
    {
        let e = self.event.unwrap();
        let p = self.raw.as_ref().unwrap();
        f(e, p)
    }
}

impl<R: Clone, T: Clone, P> PistonWindow<R, T, P> {
    /// Advances the session by what the event loop yielded: the event `ev`
    /// together with `raw`, the event as the loop delivered it, or `None`
    /// once the loop is exhausted. Returns the snapshot for the event, which
    /// shares this one's resources and application state and carries `raw`
    /// untouched, together with the commands that must be carried out before
    /// it is used: a cleanup after a post-present notification, a new render
    /// target size after a resize notification.
    pub fn next(&self, pulled: Option<(Event, P)>) -> (r: Option<
        (PistonWindow<R, T, P>, Vec<Command>),
    >)
        ensures
            r.is_none() <==> pulled.is_none(),
            r matches Some((s, cs)) ==> pulled matches Some((ev, raw)) && {
                &&& s.event == Some(ev)
                &&& s.raw == Some(raw)
                &&& cloned(self.resources, s.resources)
                &&& cloned(self.app, s.app)
                &&& cs@ == prepare_plan(ev)
            },
    {
        match pulled {
            None => None,
            Some((ev, raw)) => {
                let mut cs: Vec<Command> = Vec::new();
                if ev.after_render_args() {
                    cs.push(Command::Cleanup);
                }
                match ev.resize_args() {
                    Some(size) => cs.push(Command::SetOutput(output_for_size(size))),
                    None => {},
                }
                let s = PistonWindow {
                    resources: self.resources.clone(),
                    event: Some(ev),
                    raw: Some(raw),
                    app: self.app.clone(),
                };
                Some((s, cs))
            },
        }
    }

    /// Rebuilds a snapshot whose current event is of kind `id`, made from the
    /// payload `args` and the delivered event `raw`, over the resources of
    /// `prior`. There is none when `prior` has no current event or when
    /// `args` is not of kind `id`.
    pub fn from_args(id: EventId, args: &Event, raw: P, prior: &Self) -> (r: Option<Self>)
        ensures
            r.is_some() <==> (prior.event.is_some() && id_of(*args) == id),
            r matches Some(s) ==> {
                &&& s.event == Some(*args)
                &&& s.raw == Some(raw)
                &&& cloned(prior.resources, s.resources)
                &&& cloned(prior.app, s.app)
            },
    {
        match prior.event {
            None => None,
            Some(_) => match Event::from_args(id, args) {
                Some(e) => Some(
                    PistonWindow {
                        resources: prior.resources.clone(),
                        event: Some(e),
                        raw: Some(raw),
                        app: prior.app.clone(),
                    },
                ),
                None => None,
            },
        }
    }
}

} // verus!
