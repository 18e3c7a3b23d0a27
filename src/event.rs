use vstd::prelude::*;
use crate::geometry::WindowGeometry;

verus! {

/// The window identifier that stands for "no window".
pub const WINDOW_NONE: u32 = 0;

/// Response type of an error report.
pub const ERROR_CODE: u8 = 0;

/// Event code of a button press.
pub const BUTTON_PRESS_CODE: u8 = 4;

/// Event code of a button release.
pub const BUTTON_RELEASE_CODE: u8 = 5;

/// Event code of pointer motion.
pub const MOTION_NOTIFY_CODE: u8 = 6;

/// The bit that the server sets in a response type for events sent by
/// another client; it is not part of the event code.
pub const SENT_EVENT_BIT: u8 = 0x80;

/// Error code reported for a request on a window that does not exist.
pub const BAD_WINDOW: u8 = 3;

/// Error code reported for a request on a drawable that does not exist.
pub const BAD_DRAWABLE: u8 = 9;

/// The kinds of server messages that the drag logic tells apart.
#[derive(Clone, Copy, Debug, PartialEq, Eq, Structural)]
pub enum EventKind {
    ButtonPress,
    ButtonRelease,
    Motion,
    Error,
    Other,
}

/// The kind of message that an event code (the response type without the
/// sent-event bit) names.
pub open spec fn kind_of_code(code: u8) -> EventKind {
    if code == ERROR_CODE {
        EventKind::Error
    } else if code == BUTTON_PRESS_CODE {
        EventKind::ButtonPress
    } else if code == BUTTON_RELEASE_CODE {
        EventKind::ButtonRelease
    } else if code == MOTION_NOTIFY_CODE {
        EventKind::Motion
    } else {
        EventKind::Other
    }
}

/// Classifies a message by its response type, ignoring the sent-event bit.
pub fn event_kind(response_type: u8) -> (r: EventKind)
    ensures
        r == kind_of_code(response_type & 0x7f),
{
    let code = response_type & !SENT_EVENT_BIT;
    assert(!SENT_EVENT_BIT == 0x7fu8) by (bit_vector);
    if code == ERROR_CODE {
        EventKind::Error
    } else if code == BUTTON_PRESS_CODE {
        EventKind::ButtonPress
    } else if code == BUTTON_RELEASE_CODE {
        EventKind::ButtonRelease
    } else if code == MOTION_NOTIFY_CODE {
        EventKind::Motion
    } else {
        EventKind::Other
    }
}

/// An input to the drag state machine, decoded from a server message or
/// reporting the outcome of an action the machine asked for.
#[derive(Clone, Copy, Debug, PartialEq, Eq, Structural)]
pub enum DragEvent {
    /// A grabbed button went down; `child` is the window under the pointer,
    /// or `WINDOW_NONE`.
    ButtonPress { child: u32, root_x: i16, root_y: i16 },
    /// The pointer moved; `state` holds the buttons currently down.
    Motion { root_x: i16, root_y: i16, state: u16 },
    /// A grabbed button went up, reported against `child`.
    ButtonRelease { child: u32 },
    /// The answer to a geometry query for `window`: `None` when it failed.
    Geometry { window: u32, geometry: Option<WindowGeometry> },
    /// The server reported a failed request on `window`.
    WindowFailed { window: u32 },
    /// Anything else.
    Other,
}

/// The event for an error report: a missing window or drawable is a
/// failure on `resource_id`; any other error concerns no window.
pub fn error_event(error_code: u8, resource_id: u32) -> (r: DragEvent)
    ensures
        r == (if error_code == BAD_WINDOW || error_code == BAD_DRAWABLE {
            DragEvent::WindowFailed { window: resource_id }
        } else {
            DragEvent::Other
        }),
{
    if error_code == BAD_WINDOW || error_code == BAD_DRAWABLE {
        DragEvent::WindowFailed { window: resource_id }
    } else {
        DragEvent::Other
    }
}

} // verus!
