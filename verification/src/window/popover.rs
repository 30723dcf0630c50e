//! The tray popover's open guard: a blur that arrives right after the
//! popover was shown (the tray click itself) must not hide it again.
use vstd::prelude::*;

verus! {

/// The window label of the popover.
pub const POPOVER_LABEL: &'static str = "tray_popover";

/// How long after showing a blur is ignored, in milliseconds.
pub const OPEN_GUARD_MS: u64 = 300;

/// When the popover was last shown (monotonic milliseconds).
#[derive(Debug, Clone, Copy, PartialEq, Eq, Structural)]
pub struct PopoverState {
    last_shown_ms: Option<u64>,
}

impl PopoverState {
    /// Never shown.
    pub fn new() -> (r: PopoverState)
        ensures
            r.shown_at() is None,
    {
        PopoverState { last_shown_ms: None }
    }

    /// When the popover was last shown.
    pub closed spec fn shown_at(&self) -> Option<u64> {
        self.last_shown_ms
    }

    /// Record a show at `now_ms`.
    pub fn mark_shown(&mut self, now_ms: u64)
        ensures
            final(self).shown_at() == Some(now_ms),
    {
        self.last_shown_ms = Some(now_ms);
    }

    /// Whether `now_ms` falls within the open guard of the last show.
    pub fn within_open_guard(&self, now_ms: u64) -> (r: bool)
        ensures
            r == (match self.shown_at() {
                Some(t) => now_ms >= t && now_ms - t < OPEN_GUARD_MS || now_ms < t,
                None => false,
            }),
    {
        match self.last_shown_ms {
            Some(t) => now_ms < t || now_ms - t < OPEN_GUARD_MS,
            None => false,
        }
    }
}

impl Default for PopoverState {
    fn default() -> (r: PopoverState)
        ensures
            r.shown_at() is None,
    {
        PopoverState::new()
    }
}

/// A window event the popover reacts to.
#[derive(Debug, Clone, Copy, PartialEq, Eq, Structural)]
pub enum PopoverEvent {
    /// The popover lost focus.
    Blurred,
    /// The user asked to close it.
    CloseRequested,
    /// Anything else.
    Other,
}

/// Whether the popover hides on `event` at `now_ms`: on a blur outside the
/// open guard (a click elsewhere), and on a close request (the window is
/// kept and only hidden); never otherwise.
pub fn hides_on(state: &PopoverState, event: PopoverEvent, now_ms: u64) -> (r: bool)
    ensures
        r == (match event {
            PopoverEvent::Blurred => !(match state.shown_at() {
                Some(t) => now_ms >= t && now_ms - t < OPEN_GUARD_MS || now_ms < t,
                None => false,
            }),
            PopoverEvent::CloseRequested => true,
            PopoverEvent::Other => false,
        }),
{
    match event {
        PopoverEvent::Blurred => !state.within_open_guard(now_ms),
        PopoverEvent::CloseRequested => true,
        PopoverEvent::Other => false,
    }
}

/// A tray click toggles the popover: hide it when visible, show it (and
/// record the show) otherwise.
pub fn toggle_popover(state: &mut PopoverState, visible: bool, now_ms: u64) -> (r: bool)
    ensures
        r == !visible,
        !visible ==> final(state).shown_at() == Some(now_ms),
        visible ==> final(state).shown_at() == old(state).shown_at(),
{
    if visible {
        false
    } else {
        state.mark_shown(now_ms);
        true
    }
}

} // verus!
