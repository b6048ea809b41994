//! The Key Filter: decides which raw input events count as the trigger.
use vstd::prelude::*;

verus! {

/// Event-class tag of key events, as the kernel input layer numbers them.
pub const KEY_EVENT_TYPE: u16 = 1;

/// Control code most controllers report for the "home"/"guide" button.
pub const HOME_CODE_PRIMARY: u16 = 316;

/// Control code some firmware revisions report for the same button.
pub const HOME_CODE_ALTERNATE: u16 = 139;

/// Value a key event carries on the release transition
/// (key-down is 1 and autorepeat is 2; the trigger fires on release).
pub const RELEASE_VALUE: i32 = 0;

/// One raw input-event record: event-class tag, control code, value.
#[derive(Clone, Copy, PartialEq, Eq, Structural, Debug)]
pub struct RawEvent {
    pub event_type: u16,
    pub code: u16,
    pub value: i32,
}

/// A raw event triggers the action exactly when it is a key event, on the
/// release transition, carrying one of the two home-button control codes.
pub open spec fn is_trigger_spec(e: RawEvent) -> bool {
    &&& e.event_type == KEY_EVENT_TYPE
    &&& e.value == RELEASE_VALUE
    &&& (e.code == HOME_CODE_PRIMARY || e.code == HOME_CODE_ALTERNATE)
}

/// Key Filter: true if and only if the event is a home-button release.
/// Every other combination of class, value and code is a non-match;
/// no event is ever an error.
pub fn is_trigger(e: &RawEvent) -> (r: bool)
    ensures
        r == is_trigger_spec(*e),
{
    e.event_type == KEY_EVENT_TYPE && e.value == RELEASE_VALUE && (e.code == HOME_CODE_PRIMARY
        || e.code == HOME_CODE_ALTERNATE)
}

} // verus!
