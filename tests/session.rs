use piston_window::session::output_for_size;
use piston_window::{Command, Event, EventId, Output, PistonWindow, Size, Viewport};
use std::rc::Rc;

fn viewport(w: u32, h: u32) -> Viewport {
    Viewport {
        x: 0,
        y: 0,
        w: w as i32,
        h: h as i32,
        draw_size: Size { width: w, height: h },
        window_size: Size { width: w, height: h },
    }
}

fn root() -> PistonWindow<Rc<u32>, Rc<String>, String> {
    PistonWindow::new(Rc::new(7), Rc::new("state".to_string()))
}

/// An event as an event loop yields it: the event with what it delivered.
fn pulled(e: Event) -> Option<(Event, String)> {
    Some((e, format!("{:?}", e)))
}

/// Feeds `events` through the session the way an event loop does, drawing in
/// 2D after each one, and returns every command in order.
fn run(events: Vec<Event>) -> Vec<Command> {
    let mut log: Vec<Command> = Vec::new();
    let mut s = root();
    let mut source = events.into_iter();
    while let Some((next, prepare)) = s.next(source.next().and_then(pulled)) {
        log.extend(prepare);
        log.extend(next.draw_2d());
        s = next;
    }
    log
}

#[test]
fn render_then_present_draws_once_then_cleans_up() {
    let v = viewport(640, 480);
    let log = run(vec![Event::Render(v), Event::AfterRender]);
    assert_eq!(log, vec![Command::Draw2d(v), Command::Flush, Command::Cleanup]);
}

#[test]
fn resize_sets_the_output_and_draws_nothing() {
    let size = Size { width: 800, height: 600 };
    let log = run(vec![Event::Resize(size)]);
    assert_eq!(log, vec![Command::SetOutput(Output { width: 800, height: 600 })]);
}

#[test]
fn update_tick_draws_and_flushes_nothing() {
    let (s, prepare) = root().next(pulled(Event::Update)).unwrap();
    assert!(prepare.is_empty());
    assert!(s.draw_2d().is_empty());
    assert!(s.draw_3d().is_empty());
}

#[test]
fn replacing_the_state_keeps_the_draws() {
    let v = viewport(320, 200);
    let (s, _) = root().next(pulled(Event::Render(v))).unwrap();
    let before = s.draw_2d();
    let resources = Rc::clone(&s.resources);
    let t = s.app(Rc::new(42u64));
    assert_eq!(t.draw_2d(), before);
    assert_eq!(before, vec![Command::Draw2d(v), Command::Flush]);
    assert!(Rc::ptr_eq(&t.resources, &resources));
    assert_eq!(*t.app, 42);
}

#[test]
fn draws_happen_only_on_render_requests() {
    let v = viewport(10, 20);
    let events = vec![
        Event::Render(v),
        Event::AfterRender,
        Event::Resize(Size { width: 1, height: 2 }),
        Event::Update,
        Event::Idle,
        Event::Input,
    ];
    for e in events {
        let (s, _) = root().next(pulled(e)).unwrap();
        let render = matches!(e, Event::Render(_));
        assert_eq!(!s.draw_2d().is_empty(), render);
        assert_eq!(!s.draw_3d().is_empty(), render);
    }
    let s = root();
    assert!(s.draw_2d().is_empty());
    assert!(s.draw_3d().is_empty());
}

#[test]
fn draw_3d_hands_over_the_stream_and_flushes() {
    let (s, _) = root().next(pulled(Event::Render(viewport(5, 5)))).unwrap();
    assert_eq!(s.draw_3d(), vec![Command::Draw3d, Command::Flush]);
}

#[test]
fn each_present_cleans_up_once() {
    let v = viewport(8, 8);
    let log = run(vec![
        Event::AfterRender,
        Event::Render(v),
        Event::AfterRender,
        Event::Update,
        Event::AfterRender,
    ]);
    let cleanups = log.iter().filter(|c| **c == Command::Cleanup).count();
    assert_eq!(cleanups, 3);
    assert_eq!(log[0], Command::Cleanup);
    assert_eq!(log[3], Command::Cleanup);
}

#[test]
fn latest_resize_wins_before_the_next_draw() {
    let v = viewport(1024, 768);
    let log = run(vec![
        Event::Resize(Size { width: 100, height: 50 }),
        Event::Resize(Size { width: 1024, height: 768 }),
        Event::Render(v),
    ]);
    assert_eq!(
        log,
        vec![
            Command::SetOutput(Output { width: 100, height: 50 }),
            Command::SetOutput(Output { width: 1024, height: 768 }),
            Command::Draw2d(v),
            Command::Flush,
        ]
    );
}

#[test]
fn sequence_ends_exactly_when_the_source_is_exhausted() {
    let s = root();
    assert!(s.next(None).is_none());
    let (t, _) = s.next(pulled(Event::Idle)).unwrap();
    assert_eq!(t.event, Some(Event::Idle));
    assert!(t.next(None).is_none());
    assert_eq!(run(vec![]), vec![]);
}

#[test]
fn next_shares_the_resources() {
    let s = root();
    let (t, _) = s.next(pulled(Event::Update)).unwrap();
    assert!(Rc::ptr_eq(&s.resources, &t.resources));
    assert!(Rc::ptr_eq(&s.app, &t.app));
    assert_eq!(s.event, None);
}

#[test]
fn event_ids() {
    assert_eq!(root().event_id(), EventId::Empty);
    let (s, _) = root().next(pulled(Event::Resize(Size { width: 3, height: 4 }))).unwrap();
    assert_eq!(s.event_id(), EventId::Resize);
    assert_eq!(Event::Input.event_id(), EventId::Input);
    assert_eq!(Event::AfterRender.event_id(), EventId::AfterRender);
}

#[test]
fn with_args_sees_the_current_event() {
    let (s, _) = root().next(pulled(Event::Resize(Size { width: 77, height: 5 }))).unwrap();
    let width = s.with_args(|e, _| match e {
        Event::Resize(size) => size.width,
        _ => 0,
    });
    assert_eq!(width, 77);
}

#[test]
fn from_args_needs_a_current_event_and_a_matching_kind() {
    let payload = Event::Input;
    let raw = || "mouse at 3,4".to_string();
    assert!(PistonWindow::from_args(EventId::Input, &payload, raw(), &root()).is_none());
    let (s, _) = root().next(pulled(Event::Update)).unwrap();
    assert!(PistonWindow::from_args(EventId::Render, &payload, raw(), &s).is_none());
    let t = PistonWindow::from_args(EventId::Input, &payload, raw(), &s).unwrap();
    assert_eq!(t.event, Some(payload));
    assert_eq!(t.raw, Some(raw()));
    assert!(Rc::ptr_eq(&t.resources, &s.resources));
}

#[test]
fn event_queries() {
    let v = viewport(2, 3);
    assert_eq!(Event::Render(v).render_args(), Some(v));
    assert_eq!(Event::Update.render_args(), None);
    assert!(Event::AfterRender.after_render_args());
    assert!(!Event::Idle.after_render_args());
    let size = Size { width: 9, height: 11 };
    assert_eq!(Event::Resize(size).resize_args(), Some(size));
    assert_eq!(Event::Input.resize_args(), None);
    assert_eq!(Event::from_args(EventId::Update, &Event::Update), Some(Event::Update));
    assert_eq!(Event::from_args(EventId::Idle, &Event::Update), None);
}

#[test]
fn output_matches_the_drawable_area() {
    let o = output_for_size(Size { width: 1920, height: 1080 });
    assert_eq!(o, Output { width: 1920, height: 1080 });
}

#[test]
fn input_details_reach_the_application() {
    let (s, prepare) = root().next(Some((Event::Input, "key A pressed".to_string()))).unwrap();
    assert!(prepare.is_empty());
    assert_eq!(s.event_id(), EventId::Input);
    let seen = s.with_args(|e, raw: &String| (e, raw.clone()));
    assert_eq!(seen, (Event::Input, "key A pressed".to_string()));
    let t = s.app(Rc::new(1u8));
    assert_eq!(t.raw, Some("key A pressed".to_string()));
}

#[test]
fn update_details_reach_the_application() {
    let (s, _) = root().next(Some((Event::Update, "dt 0.016".to_string()))).unwrap();
    let dt = s.with_args(|_, raw: &String| raw.trim_start_matches("dt ").parse::<f64>().unwrap());
    assert_eq!(dt, 0.016);
}
