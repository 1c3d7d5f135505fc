use triangle_anim::events::{Action, App, Event};
use triangle_anim::fixed::Fx;
use triangle_anim::frame::{sine_offset, FrameState, TIME_STEP_MICROS};

#[test]
fn clock_starts_at_zero() {
    let s = FrameState::new();
    assert_eq!(s.frames, 0);
    assert_eq!(s.t.micros, 0);
}

#[test]
fn clock_advances_linearly() {
    let mut s = FrameState::new();
    for n in 1..=10u32 {
        s.advance();
        assert_eq!(s.frames, n);
        assert_eq!(s.t.micros, n as i64 * TIME_STEP_MICROS);
    }
    assert_eq!(s.t.micros, 20_000);
}

#[test]
fn sine_offset_halves_toward_zero() {
    assert_eq!(sine_offset(Fx::from_micros(841_471)).micros, 420_735);
    assert_eq!(sine_offset(Fx::from_micros(-841_471)).micros, -420_735);
    assert_eq!(sine_offset(Fx::from_micros(0)).micros, 0);
}

#[test]
fn sine_offset_bounded_for_all_sines() {
    let mut m: i64 = -1_000_000;
    while m <= 1_000_000 {
        let r = sine_offset(Fx::from_micros(m)).micros;
        assert!(-500_000 <= r && r <= 500_000);
        let half = (m as f64 / 1_000_000.0) * 0.5;
        assert!((r as f64 / 1_000_000.0 - half).abs() < 1e-6);
        m += 12_345;
    }
    assert_eq!(sine_offset(Fx::from_micros(1_000_000)).micros, 500_000);
    assert_eq!(sine_offset(Fx::from_micros(-1_000_000)).micros, -500_000);
}

#[test]
fn close_request_stops_loop() {
    let mut app = App::new();
    assert!(app.running);
    let action = app.handle_event(Event::CloseRequested);
    assert_eq!(action, Action::Exit);
    assert!(!app.running);
    assert_eq!(app.frame.frames, 0);
}

#[test]
fn idle_cycle_requests_redraw() {
    let mut app = App::new();
    let action = app.handle_event(Event::RedrawEventsCleared);
    assert_eq!(action, Action::RequestRedraw);
    assert!(app.running);
    assert_eq!(app.frame.frames, 0);
}

#[test]
fn unhandled_events_are_ignored() {
    let mut app = App::new();
    assert_eq!(app.handle_event(Event::OtherWindow), Action::Idle);
    assert_eq!(app.handle_event(Event::Other), Action::Idle);
    assert!(app.running);
    assert_eq!(app.frame.frames, 0);
    assert_eq!(app.frame.t.micros, 0);
}

#[test]
fn redraw_advances_clock_and_renders() {
    let mut app = App::new();
    let action = app.handle_event(Event::RedrawRequested);
    assert_eq!(action, Action::Render);
    assert!(app.running);
    assert_eq!(app.frame.frames, 1);
    assert_eq!(app.frame.t.micros, TIME_STEP_MICROS);
}

#[test]
fn five_hundred_frames_end_to_end() {
    let mut app = App::new();
    for _ in 0..500 {
        let action = app.handle_event(Event::RedrawRequested);
        assert_eq!(action, Action::Render);
    }
    // After 500 frames the clock reads 500 * 0.002 = 1.0.
    assert_eq!(app.frame.frames, 500);
    assert_eq!(app.frame.t.micros, 1_000_000);

    // Raw-clock formula: the uniform offset is the clock itself, 1.0.
    let linear = app.frame.x_offset_linear();
    assert_eq!(linear.micros, 1_000_000);

    // Half-sine formula: the uniform offset is sin(1.0) * 0.5, about 0.4207.
    let t = app.frame.t.micros as f64 / 1_000_000.0;
    let sin_t = Fx::from_micros((t.sin() * 1_000_000.0).round() as i64);
    let sine = sine_offset(sin_t);
    assert_eq!(sine.micros, 420_735);
    assert!((sine.micros as f64 / 1_000_000.0 - 0.4207).abs() < 1e-4);

    let action = app.handle_event(Event::CloseRequested);
    assert_eq!(action, Action::Exit);
    assert!(!app.running);
}
