//! The synthetic input events the driver emits, and the Linux input
//! subsystem codes they carry.

use vstd::prelude::*;

verus! {

/// The kind of a synthetic input event: a synchronization marker, a
/// key/button state change, or an absolute-axis sample. These mirror the
/// three Linux input event types the driver uses.
#[derive(Clone, Copy, Debug, PartialEq, Eq, Structural)]
pub enum EventKind {
    Synchronization,
    Key,
    Absolute,
}

/// One synthetic input event, ready to be injected into a virtual input
/// endpoint: its kind, the key or axis code, and the value (key state or
/// axis position).
#[derive(Clone, Copy, Debug, PartialEq, Eq, Structural)]
pub struct SyntheticEvent {
    pub kind: EventKind,
    pub code: u16,
    pub value: i32,
}

// Key and button codes from the Linux input subsystem
// (input-event-codes.h), the codes the virtual endpoints understand.
pub const KEY_ESC: u16 = 1;
pub const KEY_TAB: u16 = 15;
pub const KEY_LEFTCTRL: u16 = 29;
pub const KEY_LEFTALT: u16 = 56;
pub const KEY_SPACE: u16 = 57;
pub const KEY_KPMINUS: u16 = 74;
pub const KEY_KPPLUS: u16 = 78;
pub const KEY_PAGEUP: u16 = 104;
pub const KEY_PAGEDOWN: u16 = 109;
pub const BTN_LEFT: u16 = 272;
pub const BTN_RIGHT: u16 = 273;
pub const BTN_TOOL_PEN: u16 = 320;
pub const BTN_TOUCH: u16 = 330;
pub const BTN_STYLUS: u16 = 331;
pub const BTN_STYLUS2: u16 = 332;

// Absolute-axis codes for the pen endpoint.
pub const ABS_X: u16 = 0;
pub const ABS_Y: u16 = 1;
pub const ABS_PRESSURE: u16 = 24;

// Code of the report-synchronization marker.
pub const SYN_REPORT: u16 = 0;

/// The synchronization marker event.
pub open spec fn spec_syn_event() -> SyntheticEvent {
    SyntheticEvent { kind: EventKind::Synchronization, code: SYN_REPORT, value: 0 }
}

/// A key event for `code` at key state `value`.
pub open spec fn spec_key_event(code: u16, value: i32) -> SyntheticEvent {
    SyntheticEvent { kind: EventKind::Key, code, value }
}

/// An absolute-axis event for axis `code` at position `value`; the
/// position always fits the event's 32-bit value field.
pub open spec fn spec_abs_event(code: u16, value: int) -> SyntheticEvent {
    SyntheticEvent { kind: EventKind::Absolute, code, value: value as i32 }
}

/// Builds the synchronization marker event.
pub fn syn_event() -> (e: SyntheticEvent)
    ensures
        e == spec_syn_event(),
{
    SyntheticEvent { kind: EventKind::Synchronization, code: SYN_REPORT, value: 0 }
}

} // verus!
