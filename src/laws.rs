use vstd::prelude::*;
use crate::event::{DragEvent, WINDOW_NONE};
use crate::geometry::{moving, no_less_than_one, resizing};
use crate::machine::{DragAction, DragSession, DragState};

verus! {

/// The state after each of `events` in turn, starting from `s`.
pub open spec fn run(s: DragState, events: Seq<DragEvent>) -> DragState
    decreases events.len(),
{
    if events.len() == 0 {
        s
    } else {
        run(s.next(events[0]), events.drop_first())
    }
}

/// Whether `e` leaves a drag of `session` as it is: it is no press, no
/// release, and no failure reported on the dragged window.
pub open spec fn keeps_session(session: DragSession, e: DragEvent) -> bool {
    &&& !(e is ButtonPress)
    &&& !(e is ButtonRelease)
    &&& !(e matches DragEvent::WindowFailed { window } && window == session.target)
}

/// A press on no window starts no drag, ends any drag or pending press, and
/// asks for nothing, in particular no reconfigure.
pub proof fn press_on_no_window(s: DragState, root_x: i16, root_y: i16)
    ensures
        s.next(DragEvent::ButtonPress { child: WINDOW_NONE, root_x, root_y }) == DragState::Idle,
        s.action(DragEvent::ButtonPress { child: WINDOW_NONE, root_x, root_y }) == DragAction::Nothing,
{
}

/// Motion and the other events that keep a drag going leave the session,
/// and with it the baseline, untouched: after any number of them, a motion
/// event with given coordinates and mask yields the same reconfigure as it
/// would have at the start.
pub proof fn session_survives(s: DragState, events: Seq<DragEvent>, root_x: i16, root_y: i16, state: u16)
    requires
        s is Dragging,
        forall|i: int| 0 <= i < events.len() ==> keeps_session(s->session, #[trigger] events[i]),
    ensures
        run(s, events) == s,
        run(s, events).action(DragEvent::Motion { root_x, root_y, state }) == s.action(
            DragEvent::Motion { root_x, root_y, state },
        ),
    decreases events.len(),
{
    if events.len() > 0 {
        assert(keeps_session(s->session, events[0]));
        assert(s.next(events[0]) == s);
        let rest = events.drop_first();
        assert forall|i: int| 0 <= i < rest.len() implies keeps_session(s->session, #[trigger] rest[i]) by {
            assert(rest[i] == events[i + 1]);
        }
        session_survives(s, rest, root_x, root_y, state);
    }
}

/// Every reconfigure that a motion event yields has width and height of at
/// least 1; with button 3 held they are the baseline's grown by the delta
/// and raised to 1.
pub proof fn sides_stay_positive(s: DragState, root_x: i16, root_y: i16, state: u16)
    requires
        s.wf(),
    ensures
        s.action(DragEvent::Motion { root_x, root_y, state }) matches DragAction::Reconfigure { placement, .. }
            ==> {
            &&& placement.width >= 1
            &&& placement.height >= 1
            &&& resizing(state) ==> placement.width == no_less_than_one(
                s->session.baseline.width + root_x - s->session.press_root_x,
            )
            &&& resizing(state) ==> placement.height == no_less_than_one(
                s->session.baseline.height + root_y - s->session.press_root_y,
            )
        },
{
}

/// A release ends whatever was going on, whichever window it is reported
/// against, and asks for nothing.
pub proof fn release_ends_drag(s: DragState, child: u32)
    ensures
        s.next(DragEvent::ButtonRelease { child }) == DragState::Idle,
        s.action(DragEvent::ButtonRelease { child }) == DragAction::Nothing,
{
}

/// With buttons 1 and 3 both held, one reconfigure moves and resizes the
/// window together.
pub proof fn both_buttons_move_and_resize(s: DragState, root_x: i16, root_y: i16, state: u16)
    requires
        s is Dragging,
        moving(state),
        resizing(state),
    ensures
        s.action(DragEvent::Motion { root_x, root_y, state }) matches DragAction::Reconfigure { window, placement }
            && window == s->session.target
            && placement.x == s->session.baseline.x + root_x - s->session.press_root_x
            && placement.y == s->session.baseline.y + root_y - s->session.press_root_y
            && placement.width == no_less_than_one(
                s->session.baseline.width + root_x - s->session.press_root_x,
            )
            && placement.height == no_less_than_one(
                s->session.baseline.height + root_y - s->session.press_root_y,
            ),
{
}

/// With neither button 1 nor button 3 held, the reconfigure puts the
/// window back at its baseline, wherever the pointer is.
pub proof fn no_button_keeps_baseline(s: DragState, root_x: i16, root_y: i16, state: u16)
    requires
        s is Dragging,
        !moving(state),
        !resizing(state),
    ensures
        s.action(DragEvent::Motion { root_x, root_y, state }) matches DragAction::Reconfigure { window, placement }
            && window == s->session.target
            && placement.x == s->session.baseline.x
            && placement.y == s->session.baseline.y
            && placement.width == s->session.baseline.width
            && placement.height == s->session.baseline.height,
{
}

} // verus!
