//! The compositor state: surfaces, windows, the space and the seat, with the
//! handlers that keep them consistent with each other.
use vstd::prelude::*;

use crate::backend::BackendData;
use crate::focus::{Delivery, InputEvent, KeyState, KeyboardEvent, KeyboardFocusTarget, PointerFocusTarget};
use crate::output::Output;
use crate::seat::{keyboard_target, key_action, mods_of, pressed_after, KeyAction, KeyBinding, Seat};
use crate::shell::{unmapped, Space, WindowElement};
use crate::surface::{
    after_commit, destroyed, live_in, sync_held, tree_root, BufferId, Role, RoleError, SurfaceId, SurfaceRecord,
    SurfaceStore, SyncMode, MAX_TREE_DEPTH,
};

verus! {

#[derive(Clone, Copy, Debug, PartialEq, Eq, Structural)]
pub enum CommitError {
    /// The renderer could not import the client's buffer; the commit is not applied.
    ImportFailed,
}

#[derive(Clone, Copy, Debug, PartialEq, Eq, Structural)]
pub enum ShellError {
    /// The request belongs to a feature this compositor does not provide.
    NotSupported,
}

pub struct AnchorState<B: BackendData> {
    pub backend_data: B,
    pub socket_name: Option<String>,
    pub surfaces: SurfaceStore,
    pub windows: Vec<WindowElement>,
    pub space: Space,
    pub seat: Seat,
    /// Surfaces that were sent their initial configure, in order.
    pub configures: Vec<SurfaceId>,
    pub dnd_icon: Option<SurfaceId>,
}

pub open spec fn has_window(w: Seq<WindowElement>, s: SurfaceId) -> bool {
    exists|i: int| 0 <= i < w.len() && (#[trigger] w[i]).surface == s
}

/// The index of the window whose root surface is `s`.
pub open spec fn window_at(w: Seq<WindowElement>, s: SurfaceId) -> int {
    choose|i: int| 0 <= i < w.len() && (#[trigger] w[i]).surface == s
}

/// Whether `id` names a surface of `s` with the toplevel role.
pub open spec fn toplevel_in(s: Seq<SurfaceRecord>, id: SurfaceId) -> bool {
    id < s.len() && s[id as int].role == Role::Toplevel
}

pub open spec fn other_window(id: SurfaceId) -> spec_fn(WindowElement) -> bool {
    |w: WindowElement| w.surface != id
}

/// `f`, or no focus if the target's surface is gone.
pub open spec fn live_keyboard_focus(f: Option<KeyboardFocusTarget>, s: Seq<SurfaceRecord>) -> Option<KeyboardFocusTarget> {
    if f matches Some(t) && !live_in(s, t.surface()) { None } else { f }
}

pub open spec fn live_pointer_focus(f: Option<PointerFocusTarget>, s: Seq<SurfaceRecord>) -> Option<PointerFocusTarget> {
    if f matches Some(t) && !live_in(s, t.surface()) { None } else { f }
}

/// Every toplevel window was sent its initial configure exactly once if its
/// flag is set, and never otherwise.
pub open spec fn configured_once(w: Seq<WindowElement>, configures: Seq<SurfaceId>) -> bool {
    forall|i: int| 0 <= i < w.len() ==> {
        let s = (#[trigger] w[i]).surface;
        if w[i].initial_configure_sent {
            exists|k: int| 0 <= k < configures.len() && configures[k] == s
                && forall|j: int| 0 <= j < configures.len() && configures[j] == s ==> j == k
        } else {
            forall|j: int| 0 <= j < configures.len() ==> configures[j] != s
        }
    }
}

impl<B: BackendData> AnchorState<B> {
    pub open spec fn wf(&self) -> bool {
        &&& self.surfaces.wf()
        &&& self.space.wf()
        &&& forall|i: int| 0 <= i < self.windows@.len() ==> {
            &&& (#[trigger] self.windows@[i]).surface < self.surfaces@.len()
            &&& self.surfaces@[self.windows@[i].surface as int].role == Role::Toplevel
            &&& (self.windows@[i].initial_configure_sent <==> self.configures@.contains(self.windows@[i].surface))
        }
        &&& forall|i: int, j: int| 0 <= i < j < self.windows@.len() ==> self.windows@[i].surface != self.windows@[j].surface
        &&& self.configures@.no_duplicates()
        &&& forall|k: int| 0 <= k < self.configures@.len() ==> toplevel_in(self.surfaces@, #[trigger] self.configures@[k])
    }

    pub fn new(backend_data: B, bindings: Vec<KeyBinding>) -> (r: AnchorState<B>)
        ensures
            r.wf(),
            r.surfaces@.len() == 0,
            r.windows@.len() == 0,
            r.space.entries@.len() == 0,
            r.configures@.len() == 0,
            r.seat.keyboard_focus is None,
            r.seat.pointer_focus is None,
            r.seat.bindings@ == bindings@,
    {
        let name = backend_data.seat_name();
        AnchorState {
            backend_data,
            socket_name: None,
            surfaces: SurfaceStore::new(),
            windows: Vec::new(),
            space: Space::new(),
            seat: Seat::new(name, bindings),
            configures: Vec::new(),
            dnd_icon: None,
        }
    }

    pub fn create_surface(&mut self) -> (r: SurfaceId)
        requires
            old(self).wf(),
        ensures
            final(self).wf(),
            r == old(self).surfaces@.len(),
            final(self).surfaces@ == old(self).surfaces@.push(SurfaceRecord {
                alive: true,
                parent: None,
                sync: SyncMode::Synchronized,
                role: Role::Unassigned,
                pending: None,
                cached: None,
                committed: None,
            }),
            final(self).windows == old(self).windows,
            final(self).configures == old(self).configures,
            final(self).space == old(self).space,
            final(self).seat == old(self).seat,
    {
        self.surfaces.create_surface()
    }

    pub fn attach(&mut self, surface: SurfaceId, buffer: Option<BufferId>)
        requires
            old(self).wf(),
            old(self).surfaces.is_live(surface),
        ensures
            final(self).wf(),
            final(self).surfaces@ == old(self).surfaces@.update(surface as int, SurfaceRecord {
                pending: Some(buffer),
                ..old(self).surfaces@[surface as int]
            }),
            final(self).windows == old(self).windows,
            final(self).configures == old(self).configures,
            final(self).space == old(self).space,
            final(self).seat == old(self).seat,
    {
        self.surfaces.attach_pending(surface, buffer);
    }

    /// The index of the window whose root surface is `surface`.
    fn window_index(&self, surface: SurfaceId) -> (r: Option<usize>)
        requires
            self.wf(),
        ensures
            r matches Some(i) ==> i < self.windows@.len() && self.windows@[i as int].surface == surface
                && i == window_at(self.windows@, surface),
            r is None <==> !has_window(self.windows@, surface),
    {
        let mut i: usize = 0;
        while i < self.windows.len()
            invariant
                self.wf(),
                i <= self.windows@.len(),
                forall|k: int| 0 <= k < i ==> (#[trigger] self.windows@[k]).surface != surface,
            decreases self.windows@.len() - i,
        {
            if self.windows[i].surface == surface {
                let ghost c = window_at(self.windows@, surface);
                assert(c == i);
                return Some(i);
            }
            i = i + 1;
        }
        None
    }

    /// The window whose root surface is `surface`, if any.
    pub fn window_for_surface(&self, surface: SurfaceId) -> (r: Option<WindowElement>)
        requires
            self.wf(),
        ensures
            has_window(self.windows@, surface) ==> r == Some(self.windows@[window_at(self.windows@, surface)]),
            !has_window(self.windows@, surface) ==> r is None,
    {
        match self.window_index(surface) {
            Some(i) => Some(self.windows[i]),
            None => None,
        }
    }

    /// Gives `surface` the toplevel role and creates its window, which has
    /// not been configured yet.
    pub fn new_toplevel(&mut self, surface: SurfaceId) -> (r: Result<(), RoleError>)
        requires
            old(self).wf(),
            old(self).surfaces.is_live(surface),
        ensures
            final(self).wf(),
            old(self).surfaces@[surface as int].role != Role::Unassigned ==> r == Err::<(), RoleError>(RoleError::AlreadyAssigned)
                && final(self).surfaces@ == old(self).surfaces@ && final(self).windows@ == old(self).windows@,
            old(self).surfaces@[surface as int].role == Role::Unassigned ==> r is Ok
                && final(self).surfaces@ == old(self).surfaces@.update(surface as int, SurfaceRecord {
                    role: Role::Toplevel,
                    ..old(self).surfaces@[surface as int]
                })
                && final(self).windows@ == old(self).windows@.push(WindowElement { surface, initial_configure_sent: false }),
            final(self).configures == old(self).configures,
            final(self).space == old(self).space,
            final(self).seat == old(self).seat,
    {
        match self.surfaces.assign_role(surface, Role::Toplevel) {
            Err(e) => Err(e),
            Ok(()) => {
                self.windows.push(WindowElement { surface, initial_configure_sent: false });
                proof {
                    assert(!self.configures@.contains(surface)) by {
                        if self.configures@.contains(surface) {
                            let k = choose|k: int| 0 <= k < self.configures@.len() && self.configures@[k] == surface;
                            assert(toplevel_in(old(self).surfaces@, self.configures@[k]));
                        }
                    }
                }
                Ok(())
            },
        }
    }

    /// Makes `surface` a synchronised subsurface of `parent`.
    pub fn new_subsurface(&mut self, surface: SurfaceId, parent: SurfaceId) -> (r: Result<(), RoleError>)
        requires
            old(self).wf(),
            old(self).surfaces.is_live(surface),
            old(self).surfaces.is_live(parent),
        ensures
            final(self).wf(),
            r is Ok ==> final(self).surfaces@ == old(self).surfaces@.update(surface as int, SurfaceRecord {
                role: Role::Subsurface,
                parent: Some(parent),
                sync: SyncMode::Synchronized,
                ..old(self).surfaces@[surface as int]
            }),
            r is Err ==> final(self).surfaces@ == old(self).surfaces@,
            r is Ok <==> old(self).surfaces@[surface as int].role == Role::Unassigned
                && !crate::surface::ancestor_or_self(old(self).surfaces@, surface as int, parent as int, MAX_TREE_DEPTH as nat),
            final(self).windows == old(self).windows,
            final(self).configures == old(self).configures,
            final(self).space == old(self).space,
            final(self).seat == old(self).seat,
    {
        self.surfaces.make_subsurface(surface, parent)
    }

    pub fn set_sync(&mut self, surface: SurfaceId, mode: SyncMode)
        requires
            old(self).wf(),
            old(self).surfaces.is_live(surface),
        ensures
            final(self).wf(),
            final(self).surfaces@ == old(self).surfaces@.update(surface as int, SurfaceRecord {
                sync: mode,
                ..old(self).surfaces@[surface as int]
            }),
            final(self).windows == old(self).windows,
            final(self).configures == old(self).configures,
            final(self).space == old(self).space,
            final(self).seat == old(self).seat,
    {
        self.surfaces.set_sync(surface, mode);
    }

    /// Handles a client commit on `surface`: the backend's early import, the
    /// commit synchroniser, and, for a commit that reaches the root of a
    /// toplevel's tree, the initial configure, sent once.
    pub fn commit(&mut self, surface: SurfaceId)
        requires
            old(self).wf(),
            old(self).surfaces.is_live(surface),
        ensures
            final(self).wf(),
            final(self).surfaces@ == after_commit(old(self).surfaces@, surface as int),
            ({
                let root = tree_root(old(self).surfaces@, surface as int, MAX_TREE_DEPTH as nat) as SurfaceId;
                let i = window_at(old(self).windows@, root);
                if !sync_held(old(self).surfaces@, surface as int, MAX_TREE_DEPTH as nat)
                    && has_window(old(self).windows@, root) && !old(self).windows@[i].initial_configure_sent {
                    &&& final(self).configures@ == old(self).configures@.push(root)
                    &&& final(self).windows@ == old(self).windows@.update(i, WindowElement { surface: root, initial_configure_sent: true })
                } else {
                    &&& final(self).configures@ == old(self).configures@
                    &&& final(self).windows@ == old(self).windows@
                }
            }),
            final(self).space == old(self).space,
            final(self).seat == old(self).seat,
    {
        self.backend_data.early_import(surface);
        let held = self.surfaces.is_sync_subsurface(surface);
        let root = self.surfaces.root_of(surface);
        self.surfaces.commit(surface);
        proof {
            assert forall|i: int| 0 <= i < self.surfaces@.len() implies #[trigger] self.surfaces@[i].role == old(self).surfaces@[i].role by {}
        }
        if !held {
            if let Some(i) = self.window_index(root) {
                if !self.windows[i].initial_configure_sent {
                    let ghost w0 = self.windows@;
                    let ghost c0 = self.configures@;
                    proof {
                        assert(!c0.contains(root));
                    }
                    self.windows.set(i, WindowElement { surface: root, initial_configure_sent: true });
                    self.configures.push(root);
                    proof {
                        assert forall|k: int| 0 <= k < self.configures@.len() implies toplevel_in(self.surfaces@, #[trigger] self.configures@[k]) by {
                            if k < c0.len() {
                                assert(toplevel_in(old(self).surfaces@, c0[k]));
                            } else {
                                assert(w0[i as int].surface == root);
                            }
                        }
                        assert forall|j: int| 0 <= j < self.windows@.len() implies
                            (#[trigger] self.windows@[j]).initial_configure_sent <==> self.configures@.contains(self.windows@[j].surface) by {
                            if j != i {
                                assert(self.windows@[j].surface != root);
                                if self.configures@.contains(self.windows@[j].surface) {
                                    let k = choose|k: int| 0 <= k < self.configures@.len() && self.configures@[k] == self.windows@[j].surface;
                                    assert(k < c0.len());
                                    assert(c0.contains(w0[j].surface));
                                }
                                if w0[j].initial_configure_sent {
                                    let k = choose|k: int| 0 <= k < c0.len() && c0[k] == w0[j].surface;
                                    assert(self.configures@[k] == self.windows@[j].surface);
                                }
                            } else {
                                assert(self.configures@[c0.len() as int] == root);
                            }
                        }
                    }
                }
            }
        }
    }

    /// A commit whose buffer went through the renderer's import first: when
    /// the import failed the commit is rejected and nothing changes.
    pub fn commit_imported(&mut self, surface: SurfaceId, imported: bool) -> (r: Result<(), CommitError>)
        requires
            old(self).wf(),
            old(self).surfaces.is_live(surface),
        ensures
            final(self).wf(),
            !imported ==> r == Err::<(), CommitError>(CommitError::ImportFailed) && final(self).surfaces == old(self).surfaces
                && final(self).windows == old(self).windows && final(self).configures == old(self).configures,
            imported ==> r is Ok && final(self).surfaces@ == after_commit(old(self).surfaces@, surface as int),
            final(self).space == old(self).space,
            final(self).seat == old(self).seat,
    {
        if !imported {
            return Err(CommitError::ImportFailed);
        }
        self.commit(surface);
        Ok(())
    }

    /// Layer surfaces are not placed by this compositor: the request is refused.
    pub fn new_layer_surface(&mut self, surface: SurfaceId) -> (r: Result<(), ShellError>)
        ensures
            r == Err::<(), ShellError>(ShellError::NotSupported),
    {
        Err(ShellError::NotSupported)
    }

    /// Selections handed over to other display servers are not provided.
    pub fn new_selection(&mut self) -> (r: Result<(), ShellError>)
        ensures
            r == Err::<(), ShellError>(ShellError::NotSupported),
    {
        Err(ShellError::NotSupported)
    }

    /// A drag started, showing `icon` under the pointer.
    pub fn dnd_started(&mut self, icon: Option<SurfaceId>)
        ensures
            final(self).dnd_icon == icon,
            final(self).backend_data == old(self).backend_data,
            final(self).socket_name == old(self).socket_name,
            final(self).surfaces == old(self).surfaces,
            final(self).windows == old(self).windows,
            final(self).configures == old(self).configures,
            final(self).space == old(self).space,
            final(self).seat == old(self).seat,
    {
        self.dnd_icon = icon;
    }

    /// The drag ended; its icon is no longer shown.
    pub fn dnd_dropped(&mut self)
        ensures
            final(self).dnd_icon is None,
            final(self).backend_data == old(self).backend_data,
            final(self).socket_name == old(self).socket_name,
            final(self).surfaces == old(self).surfaces,
            final(self).windows == old(self).windows,
            final(self).configures == old(self).configures,
            final(self).space == old(self).space,
            final(self).seat == old(self).seat,
    {
        self.dnd_icon = None;
    }

    /// Maps the window rooted at `surface` in front of all others.
    pub fn map_window(&mut self, surface: SurfaceId, output: usize, x: i32, y: i32, activate: bool)
        requires
            old(self).wf(),
        ensures
            final(self).wf(),
            final(self).space.entries@ == crate::shell::mapped_front(old(self).space.entries@, crate::shell::SpaceEntry { element: surface, output, x, y }),
            final(self).space.active == if activate { Some(surface) } else { old(self).space.active },
            final(self).surfaces == old(self).surfaces,
            final(self).windows == old(self).windows,
            final(self).configures == old(self).configures,
            final(self).seat == old(self).seat,
    {
        self.space.map_element(surface, output, x, y, activate);
    }

    /// Unmaps the window rooted at `surface`. Keyboard focus on that window,
    /// and pointer and touch focus on a surface of its tree, are cleared at
    /// once; a live keyboard or pointer target gets its leave.
    pub fn unmap_window(&mut self, surface: SurfaceId, serial: u32, time: u32) -> (r: Vec<Delivery>)
        requires
            old(self).wf(),
        ensures
            final(self).wf(),
            final(self).space.entries@ == unmapped(old(self).space.entries@, surface),
            old(self).seat.keyboard_focus == Some(KeyboardFocusTarget::Window(surface)) ==> final(self).seat.keyboard_focus is None,
            old(self).seat.keyboard_focus != Some(KeyboardFocusTarget::Window(surface)) ==> final(self).seat.keyboard_focus == old(self).seat.keyboard_focus,
            ({
                let kb = old(self).seat.keyboard_focus == Some(KeyboardFocusTarget::Window(surface));
                let ptr = old(self).seat.pointer_focus matches Some(p) && p.surface() < old(self).surfaces@.len()
                    && tree_root(old(self).surfaces@, p.surface() as int, MAX_TREE_DEPTH as nat) == surface;
                let kb_leave = kb && live_in(old(self).surfaces@, surface);
                let ptr_leave = ptr && live_in(old(self).surfaces@, old(self).seat.pointer_focus.unwrap().surface());
                &&& ptr ==> final(self).seat.pointer_focus is None
                &&& !ptr ==> final(self).seat.pointer_focus == old(self).seat.pointer_focus
                &&& r@.len() == (if kb_leave { 1int } else { 0int }) + (if ptr_leave { 1int } else { 0int })
                &&& kb_leave ==> crate::seat::is_keyboard_leave(r@[0], KeyboardFocusTarget::Window(surface), serial)
                &&& ptr_leave ==> r@[r@.len() - 1] == (Delivery {
                    surface: old(self).seat.pointer_focus.unwrap().surface(),
                    event: InputEvent::Pointer(crate::focus::PointerEvent::Leave { serial, time }),
                })
            }),
            ({
                let touch = old(self).seat.touch_focus matches Some(p) && p.surface() < old(self).surfaces@.len()
                    && tree_root(old(self).surfaces@, p.surface() as int, MAX_TREE_DEPTH as nat) == surface;
                &&& touch ==> final(self).seat.touch_focus is None
                &&& !touch ==> final(self).seat.touch_focus == old(self).seat.touch_focus
            }),
            final(self).space.active == if old(self).space.active == Some(surface) { None } else { old(self).space.active },
            final(self).seat.pressed_keys == old(self).seat.pressed_keys,
            final(self).seat.suppressed_keys == old(self).seat.suppressed_keys,
            final(self).seat.bindings == old(self).seat.bindings,
            final(self).seat.name == old(self).seat.name,
            final(self).surfaces == old(self).surfaces,
            final(self).windows == old(self).windows,
            final(self).configures == old(self).configures,
            final(self).backend_data == old(self).backend_data,
            final(self).socket_name == old(self).socket_name,
            final(self).dnd_icon == old(self).dnd_icon,
    {
        self.space.unmap_elem(surface);
        let mut out: Vec<Delivery> = Vec::new();
        if self.seat.keyboard_focus == Some(KeyboardFocusTarget::Window(surface)) {
            out = self.seat.set_keyboard_focus(&self.surfaces, None, serial);
        }
        if let Some(p) = self.seat.pointer_focus {
            let ps = p.wl_surface();
            if ps < self.surfaces.len() && self.surfaces.root_of(ps) == surface {
                let mut leave = self.seat.set_pointer_focus(&self.surfaces, None, 0, 0, serial, time);
                out.append(&mut leave);
            }
        }
        if let Some(t) = self.seat.touch_focus {
            let ts = t.wl_surface();
            if ts < self.surfaces.len() && self.surfaces.root_of(ts) == surface {
                self.seat.touch_focus = None;
            }
        }
        out
    }

    /// Drops every focus whose target's surface is gone.
    fn drop_dead_focus(&mut self)
        ensures
            final(self).seat.keyboard_focus == live_keyboard_focus(old(self).seat.keyboard_focus, old(self).surfaces@),
            final(self).seat.pointer_focus == live_pointer_focus(old(self).seat.pointer_focus, old(self).surfaces@),
            final(self).seat.touch_focus == live_pointer_focus(old(self).seat.touch_focus, old(self).surfaces@),
            final(self).seat.pressed_keys == old(self).seat.pressed_keys,
            final(self).seat.suppressed_keys == old(self).seat.suppressed_keys,
            final(self).seat.bindings == old(self).seat.bindings,
            final(self).surfaces == old(self).surfaces,
            final(self).windows == old(self).windows,
            final(self).configures == old(self).configures,
            final(self).space == old(self).space,
    {
        if let Some(t) = self.seat.keyboard_focus {
            if !t.alive(&self.surfaces) {
                self.seat.keyboard_focus = None;
            }
        }
        if let Some(t) = self.seat.pointer_focus {
            if !t.alive(&self.surfaces) {
                self.seat.pointer_focus = None;
            }
        }
        if let Some(t) = self.seat.touch_focus {
            if !t.alive(&self.surfaces) {
                self.seat.touch_focus = None;
            }
        }
    }

    /// Destroys `surface`: its window, if any, is gone, it leaves the space,
    /// and any focus on it is cleared without events (a dead target receives
    /// nothing).
    pub fn destroy_surface(&mut self, surface: SurfaceId)
        requires
            old(self).wf(),
            old(self).surfaces.is_live(surface),
        ensures
            final(self).wf(),
            final(self).surfaces@ == destroyed(old(self).surfaces@, surface),
            final(self).space.entries@ == unmapped(old(self).space.entries@, surface),
            final(self).seat.keyboard_focus == live_keyboard_focus(old(self).seat.keyboard_focus, final(self).surfaces@),
            final(self).seat.pointer_focus == live_pointer_focus(old(self).seat.pointer_focus, final(self).surfaces@),
            final(self).seat.touch_focus == live_pointer_focus(old(self).seat.touch_focus, final(self).surfaces@),
            final(self).windows@ == old(self).windows@.filter(other_window(surface)),
            final(self).configures == old(self).configures,
    {
        let ghost w0 = self.windows@;
        let kept = without_window(&self.windows, surface);
        self.windows = kept;
        proof {
            lemma_filter_keeps_distinct_windows(w0, other_window(surface));
            let f = w0.filter(other_window(surface));
            assert forall|j: int| 0 <= j < f.len() implies exists|k: int| 0 <= k < w0.len() && w0[k] == #[trigger] f[j] by {
                w0.lemma_filter_contains_rev(other_window(surface), f[j]);
                assert(f.contains(f[j]));
            }
        }
        self.surfaces.destroy(surface);
        self.space.unmap_elem(surface);
        self.drop_dead_focus();
    }

    /// Per-frame reconciliation: unmaps elements whose surface died and
    /// clears focus on dead targets.
    pub fn refresh(&mut self)
        requires
            old(self).wf(),
        ensures
            final(self).wf(),
            final(self).space.entries@ == old(self).space.entries@.filter(|e: crate::shell::SpaceEntry| old(self).surfaces.is_live(e.element)),
            final(self).seat.keyboard_focus == live_keyboard_focus(old(self).seat.keyboard_focus, old(self).surfaces@),
            final(self).seat.pointer_focus == live_pointer_focus(old(self).seat.pointer_focus, old(self).surfaces@),
            final(self).surfaces == old(self).surfaces,
            final(self).windows == old(self).windows,
            final(self).configures == old(self).configures,
    {
        self.space.refresh(&self.surfaces);
        self.drop_dead_focus();
    }

    /// Handles a raw key transition: translation first, then, for a
    /// forwarded key, delivery to the live keyboard focus followed by the new
    /// modifiers if they changed.
    pub fn handle_key(&mut self, keycode: u32, state: KeyState, serial: u32, time: u32) -> (r: (KeyAction, Vec<Delivery>))
        requires
            old(self).wf(),
        ensures
            final(self).wf(),
            r.0 == key_action(old(self).seat.bindings@, old(self).seat.pressed_keys@, old(self).seat.suppressed_keys@, keycode, state),
            final(self).seat.pressed_keys@ == pressed_after(old(self).seat.pressed_keys@, keycode, state),
            r.0 != KeyAction::Forward ==> r.1@.len() == 0 && final(self).seat.keyboard_focus == old(self).seat.keyboard_focus,
            r.0 == KeyAction::Forward ==> match old(self).seat.keyboard_focus {
                Some(t) if old(self).surfaces.is_live(t.surface()) => {
                    let before = mods_of(old(self).seat.pressed_keys@);
                    let after = mods_of(final(self).seat.pressed_keys@);
                    &&& r.1@.len() == if before == after { 1int } else { 2int }
                    &&& r.1@[0] == (Delivery { surface: t.surface(), event: InputEvent::Keyboard(KeyboardEvent::Key { keycode, state, serial, time }) })
                    &&& before != after ==> r.1@[1] == (Delivery {
                        surface: t.surface(),
                        event: InputEvent::Keyboard(KeyboardEvent::Modifiers { modifiers: after, serial }),
                    })
                    &&& final(self).seat.keyboard_focus == old(self).seat.keyboard_focus
                },
                _ => r.1@.len() == 0 && final(self).seat.keyboard_focus is None,
            },
            final(self).surfaces == old(self).surfaces,
            final(self).windows == old(self).windows,
            final(self).configures == old(self).configures,
            final(self).space == old(self).space,
    {
        let before = self.seat.modifiers();
        let action = self.seat.process_key(keycode, state);
        let mut out: Vec<Delivery> = Vec::new();
        if action == KeyAction::Forward {
            if let Some(d) = self.seat.dispatch_key(&self.surfaces, keycode, state, serial, time) {
                out.push(d);
                let after = self.seat.modifiers();
                if after != before {
                    if let Some(m) = self.seat.dispatch_modifiers(&self.surfaces, after, serial) {
                        out.push(m);
                    }
                }
            }
        }
        (action, out)
    }

    /// An output was reset (e.g. hot-plugged): the backend must redraw it in full.
    pub fn reset_output(&mut self, output: &Output)
        requires
            old(self).wf(),
        ensures
            final(self).wf(),
            final(self).backend_data.full_redraws_owed() == crate::backend::FULL_REDRAW_FRAMES as nat,
            final(self).surfaces == old(self).surfaces,
            final(self).windows == old(self).windows,
            final(self).configures == old(self).configures,
            final(self).space == old(self).space,
            final(self).seat == old(self).seat,
    {
        self.backend_data.reset_buffers(output);
    }
}

/// Once the focused surface is destroyed the seat has no keyboard focus, so
/// the next keyboard event is forwarded to no surface.
pub proof fn lemma_destroyed_focus_forwards_nothing(s: Seq<SurfaceRecord>, f: Option<KeyboardFocusTarget>, w: SurfaceId)
    requires
        w < s.len(),
        f matches Some(t) && t.surface() == w,
    ensures
        live_keyboard_focus(f, destroyed(s, w)) is None,
        keyboard_target(live_keyboard_focus(f, destroyed(s, w)), destroyed(s, w)) is None,
{
}

fn without_window(v: &Vec<WindowElement>, id: SurfaceId) -> (r: Vec<WindowElement>)
    ensures
        r@ == v@.filter(other_window(id)),
{
    let ghost s = v@;
    let ghost p = other_window(id);
    let mut out: Vec<WindowElement> = Vec::new();
    let mut i: usize = 0;
    while i < v.len()
        invariant
            v@ == s,
            p == other_window(id),
            i <= s.len(),
            out@ == s.take(i as int).filter(p),
        decreases s.len() - i,
    {
        proof {
            assert(s.take(i + 1) =~= s.take(i as int).push(s[i as int]));
            s.take(i as int).lemma_filter_push(s[i as int], p);
        }
        if v[i].surface != id {
            out.push(v[i]);
        }
        i = i + 1;
    }
    proof {
        assert(s.take(s.len() as int) =~= s);
    }
    out
}

proof fn lemma_filter_keeps_distinct_windows(s: Seq<WindowElement>, p: spec_fn(WindowElement) -> bool)
    requires
        forall|i: int, j: int| 0 <= i < j < s.len() ==> s[i].surface != s[j].surface,
    ensures
        ({
            let f = s.filter(p);
            forall|i: int, j: int| 0 <= i < j < f.len() ==> f[i].surface != f[j].surface
        }),
    decreases s.len(),
{
    reveal(Seq::filter);
    if s.len() > 0 {
        let d = s.drop_last();
        lemma_filter_keeps_distinct_windows(d, p);
        if p(s.last()) {
            let f = d.filter(p);
            assert forall|i: int| 0 <= i < f.len() implies f[i].surface != s.last().surface by {
                d.lemma_filter_contains_rev(p, f[i]);
                assert(f.contains(f[i]));
                let k = choose|k: int| 0 <= k < d.len() && d[k] == f[i];
                assert(s[k] == d[k]);
            }
        }
    }
}

/// The initial configure of every toplevel is sent at most once, and exactly
/// once for every window whose flag is set, however many commits arrive.
pub proof fn lemma_initial_configure_once<B: BackendData>(st: &AnchorState<B>)
    requires
        st.wf(),
    ensures
        configured_once(st.windows@, st.configures@),
{
    assert forall|i: int| 0 <= i < st.windows@.len() implies {
        let s = (#[trigger] st.windows@[i]).surface;
        if st.windows@[i].initial_configure_sent {
            exists|k: int| 0 <= k < st.configures@.len() && st.configures@[k] == s
                && forall|j: int| 0 <= j < st.configures@.len() && st.configures@[j] == s ==> j == k
        } else {
            forall|j: int| 0 <= j < st.configures@.len() ==> st.configures@[j] != s
        }
    } by {
        let s = st.windows@[i].surface;
        if st.windows@[i].initial_configure_sent {
            let k = choose|k: int| 0 <= k < st.configures@.len() && st.configures@[k] == s;
            assert(forall|j: int| 0 <= j < st.configures@.len() && st.configures@[j] == s ==> j == k);
        } else {
            assert forall|j: int| 0 <= j < st.configures@.len() implies st.configures@[j] != s by {
                if st.configures@[j] == s {
                    assert(st.configures@.contains(s));
                }
            }
        }
    }
}

} // verus!
