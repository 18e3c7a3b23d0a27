use vstd::prelude::*;
use crate::event::{DragEvent, WINDOW_NONE};
use crate::geometry::{placement_for, placement_spec, Placement, WindowGeometry};

verus! {

/// An active drag: the window being moved or resized, where the pointer was
/// pressed, and the window's geometry at that moment.
#[derive(Clone, Copy, Debug, PartialEq, Eq, Structural)]
pub struct DragSession {
    pub target: u32,
    pub press_root_x: i16,
    pub press_root_y: i16,
    pub baseline: WindowGeometry,
}

/// The placement, as exact integers, for a pointer at (`root_x`, `root_y`)
/// with the buttons of `state` held: always measured from the press point
/// and applied to the baseline, never to an earlier motion.
pub open spec fn session_placement(s: DragSession, root_x: i16, root_y: i16, state: u16) -> (int, int, int, int) {
    placement_spec(s.baseline, root_x - s.press_root_x, root_y - s.press_root_y, state)
}

/// The placement value whose fields are the integers of `t`.
pub open spec fn placement_of(t: (int, int, int, int)) -> Placement {
    Placement { x: t.0 as i32, y: t.1 as i32, width: t.2 as u32, height: t.3 as u32 }
}

impl DragSession {
    /// Where the target goes for a pointer at (`root_x`, `root_y`) with the
    /// buttons of `state` held.
    pub fn placement(&self, root_x: i16, root_y: i16, state: u16) -> (r: Placement)
        ensures
            r.spec_tuple() == session_placement(*self, root_x, root_y, state),
            r == placement_of(session_placement(*self, root_x, root_y, state)),
    {
        let dx: i32 = root_x as i32 - self.press_root_x as i32;
        let dy: i32 = root_y as i32 - self.press_root_y as i32;
        placement_for(self.baseline, dx, dy, state)
    }
}

/// What the caller has to do after an event.
#[derive(Clone, Copy, Debug, PartialEq, Eq, Structural)]
pub enum DragAction {
    /// Nothing.
    Nothing,
    /// Query the geometry of `window` and hand the answer back as a
    /// `DragEvent::Geometry`.
    QueryGeometry { window: u32 },
    /// Set the position and size of `window` to `placement`, then flush.
    Reconfigure { window: u32, placement: Placement },
}

/// The drag state machine: idle, waiting for the geometry of the window
/// that a press landed on, or dragging that window.
#[derive(Clone, Copy, Debug, PartialEq, Eq, Structural)]
pub enum DragState {
    Idle,
    Resolving { target: u32, press_root_x: i16, press_root_y: i16 },
    Dragging { session: DragSession },
}

impl DragState {
    /// A dragged window's baseline has no side of 0, so that every
    /// placement sent for it has none either.
    pub open spec fn wf(self) -> bool {
        self is Dragging ==> self->session.baseline.has_area()
    }

    /// The state after `e`.
    pub open spec fn next(self, e: DragEvent) -> DragState {
        match e {
            DragEvent::ButtonPress { child, root_x, root_y } => {
                if child == WINDOW_NONE {
                    DragState::Idle
                } else {
                    DragState::Resolving { target: child, press_root_x: root_x, press_root_y: root_y }
                }
            },
            DragEvent::ButtonRelease { .. } => DragState::Idle,
            DragEvent::Geometry { window, geometry } => {
                if self is Resolving && self->Resolving_target == window {
                    // a failed query, or a size the server could not have
                    // given a live window, aborts this press only
                    if geometry is Some && geometry->0.has_area() {
                        DragState::Dragging {
                            session: DragSession {
                                target: window,
                                press_root_x: self->Resolving_press_root_x,
                                press_root_y: self->Resolving_press_root_y,
                                baseline: geometry->0,
                            },
                        }
                    } else {
                        DragState::Idle
                    }
                } else {
                    self
                }
            },
            DragEvent::WindowFailed { window } => {
                if (self is Resolving && self->Resolving_target == window) || (self is Dragging
                    && self->session.target == window) {
                    DragState::Idle
                } else {
                    self
                }
            },
            DragEvent::Motion { .. } => self,
            DragEvent::Other => self,
        }
    }

    /// The action that `e` calls for.
    pub open spec fn action(self, e: DragEvent) -> DragAction {
        match e {
            DragEvent::ButtonPress { child, .. } => {
                if child == WINDOW_NONE {
                    DragAction::Nothing
                } else {
                    DragAction::QueryGeometry { window: child }
                }
            },
            DragEvent::Motion { root_x, root_y, state } => {
                if self is Dragging {
                    DragAction::Reconfigure {
                        window: self->session.target,
                        placement: placement_of(session_placement(self->session, root_x, root_y, state)),
                    }
                } else {
                    DragAction::Nothing
                }
            },
            _ => DragAction::Nothing,
        }
    }

    /// The machine at start: no drag.
    pub fn new() -> (r: DragState)
        ensures
            r == DragState::Idle,
            r.wf(),
    {
        DragState::Idle
    }

    /// The active drag, if any.
    pub fn session(&self) -> (r: Option<DragSession>)
        ensures
            r == (if self is Dragging { Some(self->session) } else { None::<DragSession> }),
    {
        match self {
            DragState::Dragging { session } => Some(*session),
            _ => None,
        }
    }

    /// Takes one event: moves to the next state and returns what the caller
    /// must do.
    pub fn handle(&mut self, event: DragEvent) -> (action: DragAction)
        requires
            old(self).wf(),
        ensures
            *final(self) == old(self).next(event),
            action == old(self).action(event),
            final(self).wf(),
    {
        match event {
            DragEvent::ButtonPress { child, root_x, root_y } => {
                if child == WINDOW_NONE {
                    *self = DragState::Idle;
                    DragAction::Nothing
                } else {
                    *self = DragState::Resolving { target: child, press_root_x: root_x, press_root_y: root_y };
                    DragAction::QueryGeometry { window: child }
                }
            },
            DragEvent::Motion { root_x, root_y, state } => {
                match self {
                    DragState::Dragging { session } => DragAction::Reconfigure {
                        window: session.target,
                        placement: session.placement(root_x, root_y, state),
                    },
                    _ => DragAction::Nothing,
                }
            },
            DragEvent::ButtonRelease { .. } => {
                *self = DragState::Idle;
                DragAction::Nothing
            },
            DragEvent::Geometry { window, geometry } => {
                if let DragState::Resolving { target, press_root_x, press_root_y } = *self {
                    if target == window {
                        match geometry {
                            Some(g) if g.width >= 1 && g.height >= 1 => {
                                *self = DragState::Dragging {
                                    session: DragSession { target, press_root_x, press_root_y, baseline: g },
                                };
                            },
                            _ => {
                                *self = DragState::Idle;
                            },
                        }
                    }
                }
                DragAction::Nothing
            },
            DragEvent::WindowFailed { window } => {
                let lost = match *self {
                    DragState::Resolving { target, .. } => target == window,
                    DragState::Dragging { session } => session.target == window,
                    DragState::Idle => false,
                };
                if lost {
                    *self = DragState::Idle;
                }
                DragAction::Nothing
            },
            DragEvent::Other => DragAction::Nothing,
        }
    }
}

} // verus!
