use render_loop::frames::{FrameLoop, LoopAction, LoopEvent, Scene};
use render_loop::{surface_size, HEIGHT, NUM_FRAMES, WIDTH};

const REDRAW: LoopEvent = LoopEvent::RedrawRequested { own_window: true };

fn render_parts(a: LoopAction) -> (usize, bool, Scene) {
    match a {
        LoopAction::Render { slot, wait_previous, scene } => (slot, wait_previous, scene),
        other => panic!("expected a render action, got {:?}", other),
    }
}

fn waited_slots(a: LoopAction) -> Vec<usize> {
    match a {
        LoopAction::WaitAll { slots } => slots,
        other => panic!("expected a wait action, got {:?}", other),
    }
}

#[test]
fn new_loop_is_idle() {
    let l = FrameLoop::new(false);
    assert_eq!(l.frame_count(), 0);
    for slot in 0..NUM_FRAMES {
        assert!(!l.is_in_flight(slot));
    }
}

#[test]
fn close_of_own_window_exits() {
    let mut l = FrameLoop::new(false);
    let a = l.on_event(LoopEvent::Window { own_window: true, close_requested: true });
    assert!(matches!(a, LoopAction::Exit));
}

#[test]
fn close_of_other_window_is_ignored() {
    let mut l = FrameLoop::new(false);
    let a = l.on_event(LoopEvent::Window { own_window: false, close_requested: true });
    assert!(matches!(a, LoopAction::Continue));
    let b = l.on_event(LoopEvent::Window { own_window: true, close_requested: false });
    assert!(matches!(b, LoopAction::Continue));
    let c = l.on_event(LoopEvent::Other);
    assert!(matches!(c, LoopAction::Continue));
    assert_eq!(l.frame_count(), 0);
}

#[test]
fn cleared_events_request_redraw() {
    let mut l = FrameLoop::new(true);
    let a = l.on_event(LoopEvent::MainEventsCleared);
    assert!(matches!(a, LoopAction::RequestRedraw));
    assert_eq!(l.frame_count(), 0);
}

#[test]
fn redraw_of_other_window_is_ignored() {
    let mut l = FrameLoop::new(false);
    let a = l.on_event(LoopEvent::RedrawRequested { own_window: false });
    assert!(matches!(a, LoopAction::Continue));
    assert_eq!(l.frame_count(), 0);
    assert!(!l.is_in_flight(0));
}

#[test]
fn redraws_rotate_through_slots() {
    let mut l = FrameLoop::new(false);
    let (s0, w0, scene0) = render_parts(l.on_event(REDRAW));
    assert_eq!((s0, w0, scene0), (0, false, Scene::Animation { frame: 0 }));
    let (s1, w1, scene1) = render_parts(l.on_event(REDRAW));
    assert_eq!((s1, w1, scene1), (1, false, Scene::Animation { frame: 1 }));
    let (s2, w2, scene2) = render_parts(l.on_event(REDRAW));
    assert_eq!((s2, w2, scene2), (0, true, Scene::Animation { frame: 2 }));
    let (s3, w3, _) = render_parts(l.on_event(REDRAW));
    assert_eq!((s3, w3), (1, true));
    assert_eq!(l.frame_count(), 4);
}

#[test]
fn redraw_marks_slot_in_flight() {
    let mut l = FrameLoop::new(false);
    l.on_event(REDRAW);
    assert!(l.is_in_flight(0));
    assert!(!l.is_in_flight(1));
}

#[test]
fn svg_input_is_drawn_every_frame() {
    let mut l = FrameLoop::new(true);
    for _ in 0..3 {
        let (_, _, scene) = render_parts(l.on_event(REDRAW));
        assert_eq!(scene, Scene::Svg);
    }
}

#[test]
fn teardown_waits_for_everything_in_flight() {
    let mut l = FrameLoop::new(false);
    l.on_event(REDRAW);
    l.on_event(REDRAW);
    let slots = waited_slots(l.on_event(LoopEvent::LoopDestroyed));
    assert_eq!(slots, vec![0, 1]);
    for slot in 0..NUM_FRAMES {
        assert!(!l.is_in_flight(slot));
    }
    assert_eq!(l.frame_count(), 2);
}

#[test]
fn teardown_after_one_frame_waits_for_one_slot() {
    let mut l = FrameLoop::new(false);
    l.on_event(REDRAW);
    let slots = waited_slots(l.on_event(LoopEvent::LoopDestroyed));
    assert_eq!(slots, vec![0]);
}

#[test]
fn teardown_with_nothing_in_flight_waits_for_nothing() {
    let mut l = FrameLoop::new(false);
    let slots = waited_slots(l.on_event(LoopEvent::LoopDestroyed));
    assert!(slots.is_empty());
}

#[test]
fn frame_after_teardown_needs_no_wait() {
    let mut l = FrameLoop::new(false);
    l.on_event(REDRAW);
    l.on_event(REDRAW);
    l.on_event(LoopEvent::LoopDestroyed);
    let (slot, wait, scene) = render_parts(l.on_event(REDRAW));
    assert_eq!((slot, wait, scene), (0, false, Scene::Animation { frame: 2 }));
}

#[test]
fn surface_is_half_the_image() {
    assert_eq!(surface_size(), (1024, 768));
    assert_eq!(surface_size(), (WIDTH / 2, HEIGHT / 2));
}
