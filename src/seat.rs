//! The seat: focus per capability, the focus router that forwards events
//! to live targets only, and the key handling that turns raw key presses into
//! forwarded or intercepted keys.
use vstd::prelude::*;

use crate::focus::{
    Delivery, InputEvent, KeyState, KeyboardEvent, KeyboardFocusTarget, ModifiersState,
    PointerEvent, PointerFocusTarget, TouchEvent,
};
use crate::surface::{live_in, SurfaceId, SurfaceRecord, SurfaceStore};

verus! {

pub const KEY_LEFTCTRL: u32 = 29;
pub const KEY_RIGHTCTRL: u32 = 97;
pub const KEY_LEFTSHIFT: u32 = 42;
pub const KEY_RIGHTSHIFT: u32 = 54;
pub const KEY_LEFTALT: u32 = 56;
pub const KEY_RIGHTALT: u32 = 100;
pub const KEY_LEFTMETA: u32 = 125;
pub const KEY_RIGHTMETA: u32 = 126;

/// A reserved key combination: pressing `keycode` while exactly `modifiers`
/// are held is consumed by the compositor and reported as `token`.
#[derive(Clone, Copy, Debug, PartialEq, Eq, Structural)]
pub struct KeyBinding {
    pub modifiers: ModifiersState,
    pub keycode: u32,
    pub token: u32,
}

#[derive(Clone, Copy, Debug, PartialEq, Eq, Structural)]
pub enum KeyAction {
    /// Deliver the key to the focused target.
    Forward,
    /// The compositor consumes the key press for the binding `token`.
    Intercept(u32),
    /// The release of an intercepted key, consumed as well.
    Suppress,
}

/// What the backend can report.
#[derive(Clone, Copy, Debug, PartialEq, Eq, Structural)]
pub struct BackendCaps {
    pub has_relative_motion: bool,
    pub has_gestures: bool,
}

pub struct Seat {
    pub name: String,
    pub keyboard_focus: Option<KeyboardFocusTarget>,
    pub pointer_focus: Option<PointerFocusTarget>,
    pub touch_focus: Option<PointerFocusTarget>,
    pub pressed_keys: Vec<u32>,
    pub suppressed_keys: Vec<u32>,
    pub bindings: Vec<KeyBinding>,
}

pub open spec fn mods_of(p: Seq<u32>) -> ModifiersState {
    ModifiersState {
        ctrl: p.contains(KEY_LEFTCTRL) || p.contains(KEY_RIGHTCTRL),
        alt: p.contains(KEY_LEFTALT) || p.contains(KEY_RIGHTALT),
        shift: p.contains(KEY_LEFTSHIFT) || p.contains(KEY_RIGHTSHIFT),
        logo: p.contains(KEY_LEFTMETA) || p.contains(KEY_RIGHTMETA),
    }
}

pub open spec fn other_key(key: u32) -> spec_fn(u32) -> bool {
    |k: u32| k != key
}

/// The keys held down after `key` changes to `state`.
pub open spec fn pressed_after(p: Seq<u32>, key: u32, state: KeyState) -> Seq<u32> {
    match state {
        KeyState::Pressed => if p.contains(key) { p } else { p.push(key) },
        KeyState::Released => p.filter(other_key(key)),
    }
}

/// The token of the first binding for `key` under modifiers `m`.
pub open spec fn binding_for(b: Seq<KeyBinding>, m: ModifiersState, key: u32) -> Option<u32>
    decreases b.len(),
{
    if b.len() == 0 {
        None
    } else if b[0].modifiers == m && b[0].keycode == key {
        Some(b[0].token)
    } else {
        binding_for(b.drop_first(), m, key)
    }
}

/// How a key transition is handled: presses that match a binding are
/// intercepted, the release of an intercepted key is suppressed, and any
/// other transition is forwarded.
pub open spec fn key_action(b: Seq<KeyBinding>, pressed: Seq<u32>, suppressed: Seq<u32>, key: u32, state: KeyState) -> KeyAction {
    match state {
        KeyState::Pressed => match binding_for(b, mods_of(pressed_after(pressed, key, state)), key) {
            Some(t) => KeyAction::Intercept(t),
            None => KeyAction::Forward,
        },
        KeyState::Released => if suppressed.contains(key) { KeyAction::Suppress } else { KeyAction::Forward },
    }
}

/// The keys whose release is to be suppressed after the transition.
pub open spec fn suppressed_after(b: Seq<KeyBinding>, pressed: Seq<u32>, suppressed: Seq<u32>, key: u32, state: KeyState) -> Seq<u32> {
    match key_action(b, pressed, suppressed, key, state) {
        KeyAction::Intercept(_) => suppressed.push(key),
        KeyAction::Suppress => suppressed.filter(other_key(key)),
        KeyAction::Forward => suppressed,
    }
}

/// `b` is `a` with at most the keyboard focus changed.
pub open spec fn keeps_all_but_keyboard_focus(a: Seat, b: Seat) -> bool {
    &&& b.pointer_focus == a.pointer_focus
    &&& b.touch_focus == a.touch_focus
    &&& b.pressed_keys == a.pressed_keys
    &&& b.suppressed_keys == a.suppressed_keys
    &&& b.bindings == a.bindings
    &&& b.name == a.name
}

/// The surface that keyboard events go to under focus `f`: none when the
/// target's surface is gone.
pub open spec fn keyboard_target(f: Option<KeyboardFocusTarget>, s: Seq<SurfaceRecord>) -> Option<SurfaceId> {
    match f {
        Some(t) => if live_in(s, t.surface()) { Some(t.surface()) } else { None },
        None => None,
    }
}

/// Whether the backend can report `event`; the others are dropped.
pub open spec fn supported(caps: BackendCaps, event: PointerEvent) -> bool {
    match event {
        PointerEvent::RelativeMotion { .. } => caps.has_relative_motion,
        PointerEvent::GestureSwipeBegin { .. } | PointerEvent::GestureSwipeUpdate { .. }
        | PointerEvent::GestureSwipeEnd { .. } | PointerEvent::GesturePinchBegin { .. }
        | PointerEvent::GesturePinchUpdate { .. } | PointerEvent::GesturePinchEnd { .. }
        | PointerEvent::GestureHoldBegin { .. } | PointerEvent::GestureHoldEnd { .. } => caps.has_gestures,
        _ => true,
    }
}

pub open spec fn is_keyboard_leave(d: Delivery, t: KeyboardFocusTarget, serial: u32) -> bool {
    &&& d.surface == t.surface()
    &&& d.event matches InputEvent::Keyboard(KeyboardEvent::Leave { serial: s }) && s == serial
}

pub open spec fn is_keyboard_enter(d: Delivery, t: KeyboardFocusTarget, keys: Seq<u32>, serial: u32) -> bool {
    &&& d.surface == t.surface()
    &&& d.event matches InputEvent::Keyboard(KeyboardEvent::Enter { keys: k, serial: s }) && k@ == keys && s == serial
}

fn contains_key(v: &Vec<u32>, key: u32) -> (r: bool)
    ensures
        r == v@.contains(key),
{
    let mut i: usize = 0;
    while i < v.len()
        invariant
            i <= v@.len(),
            forall|k: int| 0 <= k < i ==> v@[k] != key,
        decreases v@.len() - i,
    {
        if v[i] == key {
            return true;
        }
        i = i + 1;
    }
    false
}

fn without_key(v: &Vec<u32>, key: u32) -> (r: Vec<u32>)
    ensures
        r@ == v@.filter(other_key(key)),
{
    let ghost s = v@;
    let ghost p = other_key(key);
    let mut out: Vec<u32> = Vec::new();
    let mut i: usize = 0;
    while i < v.len()
        invariant
            v@ == s,
            p == other_key(key),
            i <= s.len(),
            out@ == s.take(i as int).filter(p),
        decreases s.len() - i,
    {
        proof {
            assert(s.take(i + 1) =~= s.take(i as int).push(s[i as int]));
            s.take(i as int).lemma_filter_push(s[i as int], p);
        }
        if v[i] != key {
            out.push(v[i]);
        }
        i = i + 1;
    }
    proof {
        assert(s.take(s.len() as int) =~= s);
    }
    out
}

fn modifiers_of(p: &Vec<u32>) -> (r: ModifiersState)
    ensures
        r == mods_of(p@),
{
    ModifiersState {
        ctrl: contains_key(p, KEY_LEFTCTRL) || contains_key(p, KEY_RIGHTCTRL),
        alt: contains_key(p, KEY_LEFTALT) || contains_key(p, KEY_RIGHTALT),
        shift: contains_key(p, KEY_LEFTSHIFT) || contains_key(p, KEY_RIGHTSHIFT),
        logo: contains_key(p, KEY_LEFTMETA) || contains_key(p, KEY_RIGHTMETA),
    }
}

fn find_binding(b: &Vec<KeyBinding>, m: ModifiersState, key: u32) -> (r: Option<u32>)
    ensures
        r == binding_for(b@, m, key),
{
    let mut i: usize = 0;
    assert(b@.subrange(0, b@.len() as int) =~= b@);
    while i < b.len()
        invariant
            i <= b@.len(),
            binding_for(b@, m, key) == binding_for(b@.subrange(i as int, b@.len() as int), m, key),
        decreases b@.len() - i,
    {
        proof {
            let rest = b@.subrange(i as int, b@.len() as int);
            assert(rest.drop_first() =~= b@.subrange(i + 1, b@.len() as int));
        }
        if b[i].modifiers == m && b[i].keycode == key {
            return Some(b[i].token);
        }
        i = i + 1;
    }
    None
}

impl Seat {
    pub fn new(name: String, bindings: Vec<KeyBinding>) -> (r: Seat)
        ensures
            r.name@ == name@,
            r.keyboard_focus is None,
            r.pointer_focus is None,
            r.touch_focus is None,
            r.pressed_keys@.len() == 0,
            r.suppressed_keys@.len() == 0,
            r.bindings@ == bindings@,
    {
        Seat {
            name,
            keyboard_focus: None,
            pointer_focus: None,
            touch_focus: None,
            pressed_keys: Vec::new(),
            suppressed_keys: Vec::new(),
            bindings,
        }
    }

    pub open spec fn modifiers_spec(&self) -> ModifiersState {
        mods_of(self.pressed_keys@)
    }

    pub fn modifiers(&self) -> (r: ModifiersState)
        ensures
            r == self.modifiers_spec(),
    {
        modifiers_of(&self.pressed_keys)
    }

    /// Translates a raw key transition. Bindings are checked on presses only;
    /// the release of a key whose press was intercepted is suppressed too.
    pub fn process_key(&mut self, keycode: u32, state: KeyState) -> (r: KeyAction)
        ensures
            final(self).pressed_keys@ == pressed_after(old(self).pressed_keys@, keycode, state),
            final(self).name == old(self).name,
            final(self).bindings == old(self).bindings,
            final(self).keyboard_focus == old(self).keyboard_focus,
            final(self).pointer_focus == old(self).pointer_focus,
            final(self).touch_focus == old(self).touch_focus,
            r == key_action(old(self).bindings@, old(self).pressed_keys@, old(self).suppressed_keys@, keycode, state),
            final(self).suppressed_keys@ == suppressed_after(old(self).bindings@, old(self).pressed_keys@, old(self).suppressed_keys@, keycode, state),
    {
        match state {
            KeyState::Pressed => {
                if !contains_key(&self.pressed_keys, keycode) {
                    self.pressed_keys.push(keycode);
                }
                let m = modifiers_of(&self.pressed_keys);
                match find_binding(&self.bindings, m, keycode) {
                    Some(t) => {
                        self.suppressed_keys.push(keycode);
                        KeyAction::Intercept(t)
                    },
                    None => KeyAction::Forward,
                }
            },
            KeyState::Released => {
                self.pressed_keys = without_key(&self.pressed_keys, keycode);
                if contains_key(&self.suppressed_keys, keycode) {
                    self.suppressed_keys = without_key(&self.suppressed_keys, keycode);
                    KeyAction::Suppress
                } else {
                    KeyAction::Forward
                }
            },
        }
    }

    /// Moves keyboard focus to `target`. The old target, if alive and
    /// different, gets a leave strictly before the new one, if alive and
    /// different, gets an enter. A dead target is never focused.
    pub fn set_keyboard_focus(&mut self, store: &SurfaceStore, target: Option<KeyboardFocusTarget>, serial: u32) -> (r: Vec<Delivery>)
        ensures
            ({
                let leaving = old(self).keyboard_focus matches Some(a) && old(self).keyboard_focus != target && store.is_live(a.surface());
                let entering = target matches Some(b) && target != old(self).keyboard_focus && store.is_live(b.surface());
                &&& r@.len() == (if leaving { 1int } else { 0int }) + (if entering { 1int } else { 0int })
                &&& leaving ==> is_keyboard_leave(r@[0], old(self).keyboard_focus.unwrap(), serial)
                &&& entering ==> is_keyboard_enter(r@[r@.len() - 1], target.unwrap(), old(self).pressed_keys@, serial)
            }),
            final(self).keyboard_focus == (if target matches Some(b) && store.is_live(b.surface()) { target } else { None }),
            final(self).pointer_focus == old(self).pointer_focus,
            final(self).touch_focus == old(self).touch_focus,
            final(self).pressed_keys == old(self).pressed_keys,
            final(self).suppressed_keys == old(self).suppressed_keys,
            final(self).bindings == old(self).bindings,
            final(self).name == old(self).name,
    {
        let mut out: Vec<Delivery> = Vec::new();
        if let Some(a) = self.keyboard_focus {
            if self.keyboard_focus != target && a.alive(store) {
                out.push(a.deliver(KeyboardEvent::Leave { serial }));
            }
        }
        let mut next: Option<KeyboardFocusTarget> = None;
        if let Some(b) = target {
            if b.alive(store) {
                if target != self.keyboard_focus {
                    let keys = self.pressed_keys.clone();
                    out.push(b.deliver(KeyboardEvent::Enter { keys, serial }));
                }
                next = target;
            }
        }
        self.keyboard_focus = next;
        out
    }

    /// Moves pointer focus to `target`, with the same leave-before-enter
    /// pairing; the enter carries the surface-local position `(x, y)`.
    pub fn set_pointer_focus(&mut self, store: &SurfaceStore, target: Option<PointerFocusTarget>, x: i32, y: i32, serial: u32, time: u32) -> (r: Vec<Delivery>)
        ensures
            ({
                let leaving = old(self).pointer_focus matches Some(a) && old(self).pointer_focus != target && store.is_live(a.surface());
                let entering = target matches Some(b) && target != old(self).pointer_focus && store.is_live(b.surface());
                &&& r@.len() == (if leaving { 1int } else { 0int }) + (if entering { 1int } else { 0int })
                &&& leaving ==> r@[0] == (Delivery {
                    surface: old(self).pointer_focus.unwrap().surface(),
                    event: InputEvent::Pointer(PointerEvent::Leave { serial, time }),
                })
                &&& entering ==> r@[r@.len() - 1] == (Delivery {
                    surface: target.unwrap().surface(),
                    event: InputEvent::Pointer(PointerEvent::Enter { x, y, serial, time }),
                })
            }),
            final(self).pointer_focus == (if target matches Some(b) && store.is_live(b.surface()) { target } else { None }),
            final(self).keyboard_focus == old(self).keyboard_focus,
            final(self).touch_focus == old(self).touch_focus,
            final(self).pressed_keys == old(self).pressed_keys,
            final(self).suppressed_keys == old(self).suppressed_keys,
            final(self).bindings == old(self).bindings,
            final(self).name == old(self).name,
    {
        let mut out: Vec<Delivery> = Vec::new();
        if let Some(a) = self.pointer_focus {
            if self.pointer_focus != target && a.alive(store) {
                out.push(a.pointer(PointerEvent::Leave { serial, time }));
            }
        }
        let mut next: Option<PointerFocusTarget> = None;
        if let Some(b) = target {
            if b.alive(store) {
                if target != self.pointer_focus {
                    out.push(b.pointer(PointerEvent::Enter { x, y, serial, time }));
                }
                next = target;
            }
        }
        self.pointer_focus = next;
        out
    }

    /// Sets the target of touch events; a dead target is not kept.
    pub fn set_touch_focus(&mut self, store: &SurfaceStore, target: Option<PointerFocusTarget>)
        ensures
            final(self).touch_focus == (if target matches Some(b) && store.is_live(b.surface()) { target } else { None }),
            final(self).keyboard_focus == old(self).keyboard_focus,
            final(self).pointer_focus == old(self).pointer_focus,
            final(self).pressed_keys == old(self).pressed_keys,
            final(self).suppressed_keys == old(self).suppressed_keys,
            final(self).bindings == old(self).bindings,
            final(self).name == old(self).name,
    {
        self.touch_focus = match target {
            Some(b) => if b.alive(store) { target } else { None },
            None => None,
        };
    }

    /// Forwards a key to the keyboard focus if it is alive; otherwise drops
    /// the key and clears the focus.
    pub fn dispatch_key(&mut self, store: &SurfaceStore, keycode: u32, state: KeyState, serial: u32, time: u32) -> (r: Option<Delivery>)
        ensures
            match old(self).keyboard_focus {
                Some(t) if store.is_live(t.surface()) => r == Some(Delivery {
                    surface: t.surface(),
                    event: InputEvent::Keyboard(KeyboardEvent::Key { keycode, state, serial, time }),
                }) && final(self).keyboard_focus == old(self).keyboard_focus,
                _ => r is None && final(self).keyboard_focus is None,
            },
            r is Some <==> keyboard_target(old(self).keyboard_focus, store@) is Some,
            r matches Some(d) ==> d.surface == keyboard_target(old(self).keyboard_focus, store@).unwrap(),
            keeps_all_but_keyboard_focus(*old(self), *final(self)),
    {
        match self.keyboard_focus {
            Some(t) => t.key(self, store, keycode, state, serial, time),
            None => None,
        }
    }

    /// Forwards the modifier state to the keyboard focus if it is alive;
    /// otherwise drops it and clears the focus.
    pub fn dispatch_modifiers(&mut self, store: &SurfaceStore, modifiers: ModifiersState, serial: u32) -> (r: Option<Delivery>)
        ensures
            match old(self).keyboard_focus {
                Some(t) if store.is_live(t.surface()) => r == Some(Delivery {
                    surface: t.surface(),
                    event: InputEvent::Keyboard(KeyboardEvent::Modifiers { modifiers, serial }),
                }) && final(self).keyboard_focus == old(self).keyboard_focus,
                _ => r is None && final(self).keyboard_focus is None,
            },
            r is Some <==> keyboard_target(old(self).keyboard_focus, store@) is Some,
            keeps_all_but_keyboard_focus(*old(self), *final(self)),
    {
        match self.keyboard_focus {
            Some(t) => t.modifiers(self, store, modifiers, serial),
            None => None,
        }
    }

    /// Forwards `event` to the pointer focus if the backend supports it and
    /// the focus is alive; a dead focus is cleared.
    pub fn dispatch_pointer(&mut self, store: &SurfaceStore, caps: BackendCaps, event: PointerEvent) -> (r: Option<Delivery>)
        ensures
            !supported(caps, event) ==> r is None && final(self).pointer_focus == old(self).pointer_focus,
            supported(caps, event) ==> match old(self).pointer_focus {
                Some(t) if store.is_live(t.surface()) => r == Some(t.pointer_spec(event))
                    && final(self).pointer_focus == old(self).pointer_focus,
                _ => r is None && final(self).pointer_focus is None,
            },
            final(self).keyboard_focus == old(self).keyboard_focus,
            final(self).touch_focus == old(self).touch_focus,
            final(self).pressed_keys == old(self).pressed_keys,
            final(self).suppressed_keys == old(self).suppressed_keys,
            final(self).bindings == old(self).bindings,
            final(self).name == old(self).name,
    {
        let ok = match event {
            PointerEvent::RelativeMotion { .. } => caps.has_relative_motion,
            PointerEvent::GestureSwipeBegin { .. } | PointerEvent::GestureSwipeUpdate { .. }
            | PointerEvent::GestureSwipeEnd { .. } | PointerEvent::GesturePinchBegin { .. }
            | PointerEvent::GesturePinchUpdate { .. } | PointerEvent::GesturePinchEnd { .. }
            | PointerEvent::GestureHoldBegin { .. } | PointerEvent::GestureHoldEnd { .. } => caps.has_gestures,
            _ => true,
        };
        if !ok {
            return None;
        }
        match self.pointer_focus {
            Some(t) => {
                if t.alive(store) {
                    Some(t.pointer(event))
                } else {
                    self.pointer_focus = None;
                    None
                }
            },
            None => None,
        }
    }

    /// Forwards a touch event to the touch focus if it is alive; a dead focus
    /// is cleared.
    pub fn dispatch_touch(&mut self, store: &SurfaceStore, event: TouchEvent) -> (r: Option<Delivery>)
        ensures
            match old(self).touch_focus {
                Some(t) if store.is_live(t.surface()) => r == Some(Delivery { surface: t.surface(), event: InputEvent::Touch(event) })
                    && final(self).touch_focus == old(self).touch_focus,
                _ => r is None && final(self).touch_focus is None,
            },
            final(self).keyboard_focus == old(self).keyboard_focus,
            final(self).pointer_focus == old(self).pointer_focus,
            final(self).pressed_keys == old(self).pressed_keys,
            final(self).suppressed_keys == old(self).suppressed_keys,
            final(self).bindings == old(self).bindings,
            final(self).name == old(self).name,
    {
        match self.touch_focus {
            Some(t) => {
                if t.alive(store) {
                    Some(t.touch(event))
                } else {
                    self.touch_focus = None;
                    None
                }
            },
            None => None,
        }
    }
}

} // verus!
