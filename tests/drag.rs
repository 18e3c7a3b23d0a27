use altdrag::{
    error_event, event_kind, DragAction, DragEvent, DragSession, DragState, EventKind, Placement, WindowGeometry,
    BUTTON1_MASK, BUTTON3_MASK, WINDOW_NONE,
};

const TARGET: u32 = 0x0040_0007;

fn base() -> WindowGeometry {
    WindowGeometry { x: 100, y: 100, width: 200, height: 150 }
}

fn dragging() -> DragState {
    let mut m = DragState::new();
    assert_eq!(
        m.handle(DragEvent::ButtonPress { child: TARGET, root_x: 500, root_y: 500 }),
        DragAction::QueryGeometry { window: TARGET }
    );
    assert_eq!(
        m.handle(DragEvent::Geometry { window: TARGET, geometry: Some(base()) }),
        DragAction::Nothing
    );
    m
}

fn motion(m: &mut DragState, root_x: i16, root_y: i16, state: u16) -> DragAction {
    m.handle(DragEvent::Motion { root_x, root_y, state })
}

fn reconfigure(x: i32, y: i32, width: u32, height: u32) -> DragAction {
    DragAction::Reconfigure { window: TARGET, placement: Placement { x, y, width, height } }
}

#[test]
fn scenario_move_resize_both_then_release() {
    let mut m = dragging();
    assert_eq!(motion(&mut m, 520, 480, BUTTON1_MASK), reconfigure(120, 80, 200, 150));
    assert_eq!(motion(&mut m, 550, 560, BUTTON3_MASK), reconfigure(100, 100, 250, 210));
    assert_eq!(
        motion(&mut m, 400, 500, BUTTON1_MASK | BUTTON3_MASK),
        reconfigure(0, 100, 100, 150)
    );
    assert_eq!(m.handle(DragEvent::ButtonRelease { child: TARGET }), DragAction::Nothing);
    assert_eq!(m, DragState::Idle);
    assert_eq!(motion(&mut m, 530, 530, BUTTON1_MASK), DragAction::Nothing);
}

#[test]
fn new_machine_is_idle() {
    let mut m = DragState::new();
    assert_eq!(m, DragState::Idle);
    assert_eq!(m.session(), None);
    assert_eq!(motion(&mut m, 10, 10, BUTTON1_MASK), DragAction::Nothing);
}

#[test]
fn press_starts_session_with_baseline() {
    let m = dragging();
    assert_eq!(
        m.session(),
        Some(DragSession { target: TARGET, press_root_x: 500, press_root_y: 500, baseline: base() })
    );
}

#[test]
fn press_on_no_window_creates_nothing() {
    let mut m = DragState::new();
    assert_eq!(
        m.handle(DragEvent::ButtonPress { child: WINDOW_NONE, root_x: 5, root_y: 6 }),
        DragAction::Nothing
    );
    assert_eq!(m, DragState::Idle);
    assert_eq!(motion(&mut m, 50, 60, BUTTON1_MASK), DragAction::Nothing);
}

#[test]
fn press_on_no_window_ends_running_drag() {
    let mut m = dragging();
    assert_eq!(
        m.handle(DragEvent::ButtonPress { child: WINDOW_NONE, root_x: 5, root_y: 6 }),
        DragAction::Nothing
    );
    assert_eq!(m.session(), None);
    assert_eq!(motion(&mut m, 50, 60, BUTTON1_MASK), DragAction::Nothing);
}

#[test]
fn baseline_kept_across_motions() {
    let mut m = dragging();
    let first = motion(&mut m, 530, 470, BUTTON1_MASK);
    motion(&mut m, 900, 100, BUTTON1_MASK | BUTTON3_MASK);
    motion(&mut m, 0, 0, BUTTON3_MASK);
    m.handle(DragEvent::Other);
    m.handle(DragEvent::WindowFailed { window: TARGET + 1 });
    m.handle(DragEvent::Geometry { window: TARGET, geometry: Some(WindowGeometry { x: 1, y: 1, width: 1, height: 1 }) });
    assert_eq!(motion(&mut m, 530, 470, BUTTON1_MASK), first);
    assert_eq!(first, reconfigure(130, 70, 200, 150));
    assert_eq!(m.session().unwrap().baseline, base());
}

#[test]
fn resize_clamps_to_one() {
    let mut m = dragging();
    // dx = -200, dy = -150: both sides would be exactly 0
    assert_eq!(motion(&mut m, 300, 350, BUTTON3_MASK), reconfigure(100, 100, 1, 1));
    // dx = -499, dy = -500: both sides would be negative
    assert_eq!(motion(&mut m, 1, 0, BUTTON3_MASK), reconfigure(100, 100, 1, 1));
    // dx = -199 leaves exactly 1
    assert_eq!(motion(&mut m, 301, 500, BUTTON3_MASK), reconfigure(100, 100, 1, 150));
}

#[test]
fn resize_at_coordinate_extremes() {
    let mut m = DragState::new();
    m.handle(DragEvent::ButtonPress { child: TARGET, root_x: i16::MIN, root_y: i16::MAX });
    m.handle(DragEvent::Geometry {
        window: TARGET,
        geometry: Some(WindowGeometry { x: i16::MAX, y: i16::MIN, width: u16::MAX, height: u16::MAX }),
    });
    assert_eq!(
        motion(&mut m, i16::MAX, i16::MIN, BUTTON1_MASK | BUTTON3_MASK),
        reconfigure(32767 + 65535, -32768 - 65535, 65535 + 65535, 1)
    );
}

#[test]
fn release_clears_session_for_other_window() {
    let mut m = dragging();
    assert_eq!(m.handle(DragEvent::ButtonRelease { child: TARGET + 99 }), DragAction::Nothing);
    assert_eq!(m.session(), None);
    assert_eq!(motion(&mut m, 520, 480, BUTTON1_MASK), DragAction::Nothing);
}

#[test]
fn release_clears_pending_press() {
    let mut m = DragState::new();
    m.handle(DragEvent::ButtonPress { child: TARGET, root_x: 1, root_y: 2 });
    m.handle(DragEvent::ButtonRelease { child: WINDOW_NONE });
    assert_eq!(m, DragState::Idle);
    m.handle(DragEvent::Geometry { window: TARGET, geometry: Some(base()) });
    assert_eq!(m, DragState::Idle);
}

#[test]
fn both_buttons_move_and_resize_together() {
    let mut m = dragging();
    assert_eq!(
        motion(&mut m, 510, 530, BUTTON1_MASK | BUTTON3_MASK),
        reconfigure(110, 130, 210, 180)
    );
}

#[test]
fn no_button_bit_reproduces_baseline() {
    let mut m = dragging();
    assert_eq!(motion(&mut m, 700, 100, 0), reconfigure(100, 100, 200, 150));
    // other modifier and button bits do not count
    assert_eq!(motion(&mut m, 700, 100, 0x0008 | 0x0200), reconfigure(100, 100, 200, 150));
}

#[test]
fn failed_geometry_query_starts_no_session() {
    let mut m = DragState::new();
    m.handle(DragEvent::ButtonPress { child: TARGET, root_x: 1, root_y: 2 });
    assert_eq!(m.handle(DragEvent::Geometry { window: TARGET, geometry: None }), DragAction::Nothing);
    assert_eq!(m, DragState::Idle);
}

#[test]
fn zero_sized_geometry_starts_no_session() {
    let mut m = DragState::new();
    m.handle(DragEvent::ButtonPress { child: TARGET, root_x: 1, root_y: 2 });
    m.handle(DragEvent::Geometry {
        window: TARGET,
        geometry: Some(WindowGeometry { x: 0, y: 0, width: 0, height: 10 }),
    });
    assert_eq!(m, DragState::Idle);
}

#[test]
fn geometry_for_other_window_is_ignored() {
    let mut m = DragState::new();
    m.handle(DragEvent::ButtonPress { child: TARGET, root_x: 1, root_y: 2 });
    m.handle(DragEvent::Geometry { window: TARGET + 1, geometry: Some(base()) });
    assert_eq!(m, DragState::Resolving { target: TARGET, press_root_x: 1, press_root_y: 2 });
}

#[test]
fn failure_on_target_drops_session() {
    let mut m = dragging();
    m.handle(DragEvent::WindowFailed { window: TARGET + 1 });
    assert!(m.session().is_some());
    m.handle(DragEvent::WindowFailed { window: TARGET });
    assert_eq!(m, DragState::Idle);
    assert_eq!(motion(&mut m, 520, 480, BUTTON1_MASK), DragAction::Nothing);
}

#[test]
fn new_press_replaces_session() {
    let mut m = dragging();
    assert_eq!(
        m.handle(DragEvent::ButtonPress { child: 42, root_x: 0, root_y: 0 }),
        DragAction::QueryGeometry { window: 42 }
    );
    assert_eq!(m.session(), None);
    assert_eq!(motion(&mut m, 520, 480, BUTTON1_MASK), DragAction::Nothing);
}

#[test]
fn event_kinds_mask_sent_bit() {
    assert_eq!(event_kind(0), EventKind::Error);
    assert_eq!(event_kind(4), EventKind::ButtonPress);
    assert_eq!(event_kind(5), EventKind::ButtonRelease);
    assert_eq!(event_kind(6), EventKind::Motion);
    assert_eq!(event_kind(0x84), EventKind::ButtonPress);
    assert_eq!(event_kind(0x85), EventKind::ButtonRelease);
    assert_eq!(event_kind(0x86), EventKind::Motion);
    assert_eq!(event_kind(2), EventKind::Other);
    assert_eq!(event_kind(0x87), EventKind::Other);
    assert_eq!(event_kind(0x80), EventKind::Error);
}

#[test]
fn error_reports_on_missing_windows() {
    assert_eq!(error_event(3, 77), DragEvent::WindowFailed { window: 77 });
    assert_eq!(error_event(9, 78), DragEvent::WindowFailed { window: 78 });
    assert_eq!(error_event(2, 77), DragEvent::Other);
    assert_eq!(error_event(8, 77), DragEvent::Other);
}
