//! Focus targets and the event vocabulary they receive. Each target kind is
//! a variant of a closed sum; dispatch is one tag check that forwards the
//! event to the target's root surface.
use vstd::prelude::*;

use crate::seat::{is_keyboard_enter, is_keyboard_leave, keeps_all_but_keyboard_focus, Seat};
use crate::surface::{SurfaceId, SurfaceStore};

verus! {

#[derive(Clone, Copy, Debug, PartialEq, Eq, Structural)]
pub enum KeyState {
    Released,
    Pressed,
}

/// Active keyboard modifiers.
#[derive(Clone, Copy, Debug, PartialEq, Eq, Structural)]
pub struct ModifiersState {
    pub ctrl: bool,
    pub alt: bool,
    pub shift: bool,
    pub logo: bool,
}

#[derive(Clone, Debug)]
pub enum KeyboardEvent {
    Enter { keys: Vec<u32>, serial: u32 },
    Leave { serial: u32 },
    Key { keycode: u32, state: KeyState, serial: u32, time: u32 },
    Modifiers { modifiers: ModifiersState, serial: u32 },
}

/// Pointer events; positions and deltas are in 24.8 fixed point.
#[derive(Clone, Copy, Debug, PartialEq, Eq, Structural)]
pub enum PointerEvent {
    Enter { x: i32, y: i32, serial: u32, time: u32 },
    Motion { x: i32, y: i32, serial: u32, time: u32 },
    RelativeMotion { dx: i32, dy: i32, utime: u64 },
    Button { button: u32, state: KeyState, serial: u32, time: u32 },
    Axis { horizontal: i32, vertical: i32, time: u32 },
    Frame,
    GestureSwipeBegin { fingers: u32, serial: u32, time: u32 },
    GestureSwipeUpdate { dx: i32, dy: i32, time: u32 },
    GestureSwipeEnd { cancelled: bool, serial: u32, time: u32 },
    GesturePinchBegin { fingers: u32, serial: u32, time: u32 },
    GesturePinchUpdate { dx: i32, dy: i32, scale: i32, rotation: i32, time: u32 },
    GesturePinchEnd { cancelled: bool, serial: u32, time: u32 },
    GestureHoldBegin { fingers: u32, serial: u32, time: u32 },
    GestureHoldEnd { cancelled: bool, serial: u32, time: u32 },
    Leave { serial: u32, time: u32 },
}

/// Touch events; positions are in 24.8 fixed point.
#[derive(Clone, Copy, Debug, PartialEq, Eq, Structural)]
pub enum TouchEvent {
    Down { slot: u32, x: i32, y: i32, serial: u32, time: u32 },
    Up { slot: u32, serial: u32, time: u32 },
    Motion { slot: u32, x: i32, y: i32, time: u32 },
    Frame,
    Cancel,
    Shape { slot: u32, major: i32, minor: i32 },
    Orientation { slot: u32, orientation: i32 },
}

#[derive(Clone, Debug)]
pub enum InputEvent {
    Keyboard(KeyboardEvent),
    Pointer(PointerEvent),
    Touch(TouchEvent),
}

/// An event forwarded to a client surface.
#[derive(Clone, Debug)]
pub struct Delivery {
    pub surface: SurfaceId,
    pub event: InputEvent,
}

#[derive(Clone, Copy, Debug, PartialEq, Eq, Structural)]
pub enum KeyboardFocusTarget {
    Window(SurfaceId),
    LayerSurface(SurfaceId),
    Popup(SurfaceId),
}

#[derive(Clone, Copy, Debug, PartialEq, Eq, Structural)]
pub enum PointerFocusTarget {
    WlSurface(SurfaceId),
}

impl KeyboardFocusTarget {
    /// The root surface that receives this target's events.
    pub open spec fn surface(self) -> SurfaceId {
        match self {
            KeyboardFocusTarget::Window(s) => s,
            KeyboardFocusTarget::LayerSurface(s) => s,
            KeyboardFocusTarget::Popup(s) => s,
        }
    }

    pub fn wl_surface(&self) -> (r: SurfaceId)
        ensures
            r == self.surface(),
    {
        match self {
            KeyboardFocusTarget::Window(s) => *s,
            KeyboardFocusTarget::LayerSurface(s) => *s,
            KeyboardFocusTarget::Popup(s) => *s,
        }
    }

    /// Whether the surface backing this target still exists.
    pub fn alive(&self, store: &SurfaceStore) -> (r: bool)
        ensures
            r == store.is_live(self.surface()),
    {
        store.is_alive(self.wl_surface())
    }

    pub fn deliver(&self, event: KeyboardEvent) -> (r: Delivery)
        ensures
            r == (Delivery { surface: self.surface(), event: InputEvent::Keyboard(event) }),
    {
        Delivery { surface: self.wl_surface(), event: InputEvent::Keyboard(event) }
    }

    /// Moves the seat's keyboard focus to this target. The previous target,
    /// if alive and different, gets its leave strictly before this target, if
    /// alive and not focused already, gets its enter.
    pub fn enter(&self, seat: &mut Seat, store: &SurfaceStore, serial: u32) -> (r: Vec<Delivery>)
        ensures
            ({
                let leaving = old(seat).keyboard_focus matches Some(a) && a != *self && store.is_live(a.surface());
                let entering = old(seat).keyboard_focus != Some(*self) && store.is_live(self.surface());
                &&& r@.len() == (if leaving { 1int } else { 0int }) + (if entering { 1int } else { 0int })
                &&& leaving ==> is_keyboard_leave(r@[0], old(seat).keyboard_focus.unwrap(), serial)
                &&& entering ==> is_keyboard_enter(r@[r@.len() - 1], *self, old(seat).pressed_keys@, serial)
            }),
            final(seat).keyboard_focus == if store.is_live(self.surface()) { Some(*self) } else { None },
            keeps_all_but_keyboard_focus(*old(seat), *final(seat)),
    {
        seat.set_keyboard_focus(store, Some(*self), serial)
    }

    /// Takes the seat's keyboard focus away from this target; a live target
    /// gets its leave.
    pub fn leave(&self, seat: &mut Seat, store: &SurfaceStore, serial: u32) -> (r: Option<Delivery>)
        ensures
            old(seat).keyboard_focus == Some(*self) ==> final(seat).keyboard_focus is None
                && (r is Some <==> store.is_live(self.surface()))
                && (r matches Some(d) ==> is_keyboard_leave(d, *self, serial)),
            old(seat).keyboard_focus != Some(*self) ==> r is None && final(seat).keyboard_focus == old(seat).keyboard_focus,
            keeps_all_but_keyboard_focus(*old(seat), *final(seat)),
    {
        if seat.keyboard_focus != Some(*self) {
            return None;
        }
        seat.keyboard_focus = None;
        if self.alive(store) {
            Some(self.deliver(KeyboardEvent::Leave { serial }))
        } else {
            None
        }
    }

    /// Forwards a key to this target if its surface is alive; a dead target
    /// gets nothing and loses the seat's focus.
    pub fn key(&self, seat: &mut Seat, store: &SurfaceStore, keycode: u32, state: KeyState, serial: u32, time: u32) -> (r: Option<Delivery>)
        ensures
            store.is_live(self.surface()) ==> r == Some(Delivery {
                surface: self.surface(),
                event: InputEvent::Keyboard(KeyboardEvent::Key { keycode, state, serial, time }),
            }) && final(seat).keyboard_focus == old(seat).keyboard_focus,
            !store.is_live(self.surface()) ==> r is None && final(seat).keyboard_focus == dead_target_dropped(old(seat).keyboard_focus, *self),
            keeps_all_but_keyboard_focus(*old(seat), *final(seat)),
    {
        if self.alive(store) {
            Some(self.deliver(KeyboardEvent::Key { keycode, state, serial, time }))
        } else {
            if seat.keyboard_focus == Some(*self) {
                seat.keyboard_focus = None;
            }
            None
        }
    }

    /// Forwards the modifier state to this target if its surface is alive; a
    /// dead target gets nothing and loses the seat's focus.
    pub fn modifiers(&self, seat: &mut Seat, store: &SurfaceStore, modifiers: ModifiersState, serial: u32) -> (r: Option<Delivery>)
        ensures
            store.is_live(self.surface()) ==> r == Some(Delivery {
                surface: self.surface(),
                event: InputEvent::Keyboard(KeyboardEvent::Modifiers { modifiers, serial }),
            }) && final(seat).keyboard_focus == old(seat).keyboard_focus,
            !store.is_live(self.surface()) ==> r is None && final(seat).keyboard_focus == dead_target_dropped(old(seat).keyboard_focus, *self),
            keeps_all_but_keyboard_focus(*old(seat), *final(seat)),
    {
        if self.alive(store) {
            Some(self.deliver(KeyboardEvent::Modifiers { modifiers, serial }))
        } else {
            if seat.keyboard_focus == Some(*self) {
                seat.keyboard_focus = None;
            }
            None
        }
    }
}

/// The keyboard focus once the dead target `t` is dropped from it.
pub open spec fn dead_target_dropped(f: Option<KeyboardFocusTarget>, t: KeyboardFocusTarget) -> Option<KeyboardFocusTarget> {
    if f == Some(t) { None } else { f }
}

impl PointerFocusTarget {
    pub open spec fn surface(self) -> SurfaceId {
        match self {
            PointerFocusTarget::WlSurface(s) => s,
        }
    }

    pub fn wl_surface(&self) -> (r: SurfaceId)
        ensures
            r == self.surface(),
    {
        match self {
            PointerFocusTarget::WlSurface(s) => *s,
        }
    }

    pub fn alive(&self, store: &SurfaceStore) -> (r: bool)
        ensures
            r == store.is_live(self.surface()),
    {
        store.is_alive(self.wl_surface())
    }

    pub open spec fn pointer_spec(self, event: PointerEvent) -> Delivery {
        Delivery { surface: self.surface(), event: InputEvent::Pointer(event) }
    }

    /// Moves the seat's pointer focus to this target, entering at the
    /// surface-local position `(x, y)`. The previous target, if alive and
    /// different, gets its leave strictly before this target, if alive and
    /// not focused already, gets its enter.
    pub fn enter(&self, seat: &mut Seat, store: &SurfaceStore, x: i32, y: i32, serial: u32, time: u32) -> (r: Vec<Delivery>)
        ensures
            ({
                let leaving = old(seat).pointer_focus matches Some(a) && a != *self && store.is_live(a.surface());
                let entering = old(seat).pointer_focus != Some(*self) && store.is_live(self.surface());
                &&& r@.len() == (if leaving { 1int } else { 0int }) + (if entering { 1int } else { 0int })
                &&& leaving ==> r@[0] == old(seat).pointer_focus.unwrap().pointer_spec(PointerEvent::Leave { serial, time })
                &&& entering ==> r@[r@.len() - 1] == self.pointer_spec(PointerEvent::Enter { x, y, serial, time })
            }),
            final(seat).pointer_focus == if store.is_live(self.surface()) { Some(*self) } else { None },
            final(seat).keyboard_focus == old(seat).keyboard_focus,
            final(seat).touch_focus == old(seat).touch_focus,
            final(seat).pressed_keys == old(seat).pressed_keys,
            final(seat).suppressed_keys == old(seat).suppressed_keys,
            final(seat).bindings == old(seat).bindings,
            final(seat).name == old(seat).name,
    {
        seat.set_pointer_focus(store, Some(*self), x, y, serial, time)
    }

    pub fn pointer(&self, event: PointerEvent) -> (r: Delivery)
        ensures
            r == (Delivery { surface: self.surface(), event: InputEvent::Pointer(event) }),
    {
        Delivery { surface: self.wl_surface(), event: InputEvent::Pointer(event) }
    }

    pub fn touch(&self, event: TouchEvent) -> (r: Delivery)
        ensures
            r == (Delivery { surface: self.surface(), event: InputEvent::Touch(event) }),
    {
        Delivery { surface: self.wl_surface(), event: InputEvent::Touch(event) }
    }
}

} // verus!
