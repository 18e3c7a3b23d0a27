//! The core of an alt-drag window mover: a state machine that turns the
//! pointer events of passive button grabs into window reconfigure requests.
//!
//! Everything that talks to the display server lives outside this library;
//! the library decides, from plain values, what each event does.
pub mod event;
pub mod geometry;
pub mod laws;
pub mod machine;

pub use geometry::{Placement, WindowGeometry, BUTTON1_MASK, BUTTON3_MASK};
pub use event::{error_event, event_kind, kind_of_code, DragEvent, EventKind, WINDOW_NONE};
pub use machine::{placement_of, session_placement, DragAction, DragSession, DragState};
pub use laws::{
    both_buttons_move_and_resize, keeps_session, no_button_keeps_baseline, press_on_no_window,
    release_ends_drag, run, session_survives, sides_stay_positive,
};
