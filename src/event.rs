//! The native event hook as a state machine: raw notifications are decoded
//! into events, and each event, against the shared state, yields the reaction
//! that the platform layer carries out.
use vstd::prelude::*;

use crate::menu::{ClickType, TrayEvent};
use crate::state::SharedTrayState;

verus! {

/// The message sent when the hook's window is being destroyed.
pub const WM_DESTROY: u32 = 0x0002;

/// The message that carries a menu command; its identifier is in the low word
/// of the first parameter.
pub const WM_COMMAND: u32 = 0x0111;

/// The message that the tray icon sends on mouse input; the mouse message is
/// in the second parameter.
pub const WM_USER_TRAY_ICON: u32 = 6002;

/// Left button released.
pub const WM_LBUTTONUP: u32 = 0x0202;

/// Left button double-clicked.
pub const WM_LBUTTONDBLCLK: u32 = 0x0203;

/// Right button released.
pub const WM_RBUTTONUP: u32 = 0x0205;

/// The low 16 bits of a 32-bit value.
#[allow(non_snake_case)]
pub fn LOWORD(dword: u32) -> (r: u16)
    ensures
        r == dword % 0x10000,
{
    let low: u32 = dword & 0xFFFF;
    assert(low == dword % 0x10000 && low <= 0xFFFF) by (bit_vector)
        requires
            low == dword & 0xFFFF,
    ;
    low as u16
}

/// The click that a mouse message stands for, if any.
pub open spec fn click_of(code: u32) -> Option<ClickType> {
    if code == WM_LBUTTONUP {
        Some(ClickType::Left)
    } else if code == WM_RBUTTONUP {
        Some(ClickType::Right)
    } else if code == WM_LBUTTONDBLCLK {
        Some(ClickType::Double)
    } else {
        None
    }
}

impl ClickType {
    /// Decodes the mouse message carried by a tray notification; other
    /// messages give `None`.
    pub fn from_lparam(lparam: isize) -> (r: Option<ClickType>)
        ensures
            r == click_of(lparam as u32),
    {
        let code: u32 = #[verifier::truncate] (lparam as u32);
        if code == WM_LBUTTONUP {
            Some(ClickType::Left)
        } else if code == WM_RBUTTONUP {
            Some(ClickType::Right)
        } else if code == WM_LBUTTONDBLCLK {
            Some(ClickType::Double)
        } else {
            None
        }
    }
}

/// A native notification, decoded.
#[derive(Debug, Clone, Copy, PartialEq, Eq, Structural)]
pub enum NativeEvent {
    /// A click on the tray icon.
    Click(ClickType),
    /// A menu command with the given identifier.
    Command(u16),
    /// The native resource is destroyed.
    Destroyed,
    /// Anything else, including unrecognised mouse messages.
    Other,
}

/// The event that a raw message stands for.
pub open spec fn event_of(msg: u32, wparam: usize, lparam: isize) -> NativeEvent {
    if msg == WM_DESTROY {
        NativeEvent::Destroyed
    } else if msg == WM_USER_TRAY_ICON {
        match click_of(lparam as u32) {
            Some(c) => NativeEvent::Click(c),
            None => NativeEvent::Other,
        }
    } else if msg == WM_COMMAND {
        NativeEvent::Command(((wparam as u32) % 0x10000) as u16)
    } else {
        NativeEvent::Other
    }
}

/// Decodes a raw message and its two parameters.
pub fn decode_message(msg: u32, wparam: usize, lparam: isize) -> (r: NativeEvent)
    ensures
        r == event_of(msg, wparam, lparam),
{
    if msg == WM_DESTROY {
        NativeEvent::Destroyed
    } else if msg == WM_USER_TRAY_ICON {
        match ClickType::from_lparam(lparam) {
            Some(c) => NativeEvent::Click(c),
            None => NativeEvent::Other,
        }
    } else if msg == WM_COMMAND {
        NativeEvent::Command(LOWORD(#[verifier::truncate] (wparam as u32)))
    } else {
        NativeEvent::Other
    }
}

/// What the platform layer does in answer to an event.
#[derive(Debug)]
pub enum Reaction<'a, T> {
    /// Nothing at all.
    Nothing,
    /// Call the application callback with `event`; then, if `popup`, show
    /// the current menu at the pointer.
    Invoke { event: TrayEvent<&'a T>, popup: bool },
    /// Free what the hook owns; no event is processed after this.
    Release,
}

/// The hook is finished after `event` exactly when it was, or `event` is the
/// destruction.
pub open spec fn next_finished(finished: bool, event: NativeEvent) -> bool {
    finished || event is Destroyed
}

/// The event makes a live hook release what it owns.
pub open spec fn releases(finished: bool, event: NativeEvent) -> bool {
    !finished && event is Destroyed
}

/// Whether the hook is finished after `events`, starting from `finished`.
pub open spec fn finished_after(finished: bool, events: Seq<NativeEvent>) -> bool
    decreases events.len(),
{
    if events.len() == 0 {
        finished
    } else {
        finished_after(next_finished(finished, events[0]), events.drop_first())
    }
}

/// How many of `events` make the hook release what it owns, starting from
/// `finished`.
pub open spec fn release_count(finished: bool, events: Seq<NativeEvent>) -> nat
    decreases events.len(),
{
    if events.len() == 0 {
        0
    } else {
        (if releases(finished, events[0]) {
            1nat
        } else {
            0nat
        }) + release_count(next_finished(finished, events[0]), events.drop_first())
    }
}

/// The life cycle of the native event hook: live until the native resource
/// reports its destruction, finished after.
pub struct EventHook {
    pub finished: bool,
}

impl EventHook {
    /// A live hook.
    pub fn new() -> (r: Self)
        ensures
            !r.finished,
    {
        EventHook { finished: false }
    }

    /// The reaction to `event` given the current shared `state`.
    ///
    /// A click is passed on to the callback, and a right click also asks for
    /// the current menu to pop up when there is one. A menu command whose
    /// identifier is in the current table passes its signal on; any other
    /// identifier is ignored. The destruction makes a live hook release what it
    /// owns, once; a finished hook does nothing at all.
    pub fn handle<'a, T>(&mut self, state: &'a SharedTrayState<T>, event: NativeEvent) -> (r:
        Reaction<'a, T>)
        ensures
            final(self).finished == next_finished(old(self).finished, event),
            r is Release <==> releases(old(self).finished, event),
            old(self).finished ==> r is Nothing,
            !old(self).finished ==> match event {
                NativeEvent::Click(c) => r == (Reaction::Invoke {
                    event: TrayEvent::<&'a T>::Tray(c),
                    popup: c == ClickType::Right && state.menu is Some,
                }),
                NativeEvent::Command(id) => match state.menu {
                    Some(m) => if m.table().contains_key(id as int) {
                        r matches Reaction::Invoke { event: TrayEvent::Menu(s), popup: false }
                            && *s == m.table()[id as int]
                    } else {
                        r is Nothing
                    },
                    None => r is Nothing,
                },
                NativeEvent::Destroyed => r is Release,
                NativeEvent::Other => r is Nothing,
            },
    {
        if self.finished {
            return Reaction::Nothing;
        }
        match event {
            NativeEvent::Click(c) => {
                let popup = match c {
                    ClickType::Right => state.menu.is_some(),
                    _ => false,
                };
                Reaction::Invoke { event: TrayEvent::Tray(c), popup }
            },
            NativeEvent::Command(id) => match &state.menu {
                Some(m) => match m.lookup(id) {
                    Some(s) => Reaction::Invoke { event: TrayEvent::Menu(s), popup: false },
                    None => Reaction::Nothing,
                },
                None => Reaction::Nothing,
            },
            NativeEvent::Destroyed => {
                self.finished = true;
                Reaction::Release
            },
            NativeEvent::Other => Reaction::Nothing,
        }
    }
}

/// Teardown happens once: over any run of events that starts on a live hook,
/// what the hook owns is released exactly once if the run holds a destruction
/// and never otherwise, and a finished hook never releases again.
pub proof fn lemma_release_exactly_once(events: Seq<NativeEvent>)
    ensures
        release_count(true, events) == 0,
        release_count(false, events) <= 1,
        release_count(false, events) == 1 <==> exists|j: int|
            0 <= j < events.len() && #[trigger] events[j] is Destroyed,
        finished_after(false, events) <==> exists|j: int|
            0 <= j < events.len() && #[trigger] events[j] is Destroyed,
    decreases events.len(),
{
    lemma_finished_stays(events);
    if events.len() > 0 {
        let rest = events.drop_first();
        lemma_release_exactly_once(rest);
        if events[0] is Destroyed {
            assert(exists|j: int| 0 <= j < events.len() && #[trigger] events[j] is Destroyed) by {
                assert(events[0] is Destroyed);
            }
        } else {
            assert((exists|j: int| 0 <= j < events.len() && #[trigger] events[j] is Destroyed) <==> (
            exists|j: int| 0 <= j < rest.len() && #[trigger] rest[j] is Destroyed)) by {
                if exists|j: int| 0 <= j < events.len() && #[trigger] events[j] is Destroyed {
                    let j = choose|j: int| 0 <= j < events.len() && #[trigger] events[j] is Destroyed;
                    assert(rest[j - 1] is Destroyed);
                }
                if exists|j: int| 0 <= j < rest.len() && #[trigger] rest[j] is Destroyed {
                    let j = choose|j: int| 0 <= j < rest.len() && #[trigger] rest[j] is Destroyed;
                    assert(events[j + 1] is Destroyed);
                }
            }
        }
    }
}

proof fn lemma_finished_stays(events: Seq<NativeEvent>)
    ensures
        release_count(true, events) == 0,
        finished_after(true, events),
    decreases events.len(),
{
    if events.len() > 0 {
        lemma_finished_stays(events.drop_first());
    }
}

} // verus!
