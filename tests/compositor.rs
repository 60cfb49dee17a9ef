use anchor::backend::{BackendData, RedrawKind, WinitData, FULL_REDRAW_FRAMES};
use anchor::focus::{InputEvent, KeyState, KeyboardEvent, KeyboardFocusTarget, PointerEvent, PointerFocusTarget};
use anchor::seat::{BackendCaps, KeyAction, KeyBinding, KEY_LEFTMETA};
use anchor::focus::ModifiersState;
use anchor::shell::Space;
use anchor::state::{AnchorState, CommitError, ShellError};
use anchor::surface::{RoleError, SurfaceStore, SyncMode};

fn state() -> AnchorState<WinitData> {
    AnchorState::new(WinitData::new(0), Vec::new())
}

fn toplevel(st: &mut AnchorState<WinitData>) -> usize {
    let s = st.create_surface();
    st.new_toplevel(s).unwrap();
    s
}

#[test]
fn synchronized_child_waits_for_parent_commit() {
    let mut st = state();
    let root = toplevel(&mut st);
    let child = st.create_surface();
    st.new_subsurface(child, root).unwrap();
    st.attach(child, Some(7));
    st.commit(child);
    assert_eq!(st.surfaces.committed_buffer(child), None);
    st.attach(child, Some(8));
    assert_eq!(st.surfaces.committed_buffer(child), None);
    st.commit(root);
    assert_eq!(st.surfaces.committed_buffer(child), Some(7));
}

#[test]
fn nested_synchronized_children_wait_for_the_root() {
    let mut store = SurfaceStore::new();
    let root = store.create_surface();
    let mid = store.create_surface();
    let leaf = store.create_surface();
    store.make_subsurface(mid, root).unwrap();
    store.make_subsurface(leaf, mid).unwrap();
    store.set_sync(leaf, SyncMode::Desynchronized);
    store.attach_pending(leaf, Some(3));
    store.commit(leaf);
    assert_eq!(store.committed_buffer(leaf), None);
    store.commit(mid);
    assert_eq!(store.committed_buffer(leaf), None);
    store.commit(root);
    assert_eq!(store.committed_buffer(leaf), Some(3));
}

#[test]
fn desynchronized_child_commits_at_once() {
    let mut store = SurfaceStore::new();
    let root = store.create_surface();
    let child = store.create_surface();
    store.make_subsurface(child, root).unwrap();
    store.set_sync(child, SyncMode::Desynchronized);
    store.attach_pending(child, Some(5));
    store.commit(child);
    assert_eq!(store.committed_buffer(child), Some(5));
    assert!(!store.is_sync_subsurface(child));
    assert_eq!(store.root_of(child), root);
}

#[test]
fn detach_removes_the_buffer_and_empty_commit_keeps_it() {
    let mut store = SurfaceStore::new();
    let s = store.create_surface();
    store.attach_pending(s, Some(1));
    store.commit(s);
    store.commit(s);
    assert_eq!(store.committed_buffer(s), Some(1));
    store.attach_pending(s, None);
    store.commit(s);
    assert_eq!(store.committed_buffer(s), None);
}

#[test]
fn role_errors() {
    let mut store = SurfaceStore::new();
    let a = store.create_surface();
    let b = store.create_surface();
    store.make_subsurface(b, a).unwrap();
    assert_eq!(store.make_subsurface(b, a), Err(RoleError::AlreadyAssigned));
    let c = store.create_surface();
    assert_eq!(store.make_subsurface(c, c), Err(RoleError::BadParent));
    let mut store2 = SurfaceStore::new();
    let x = store2.create_surface();
    let y = store2.create_surface();
    store2.make_subsurface(y, x).unwrap();
    assert_eq!(store2.make_subsurface(x, y), Err(RoleError::BadParent));
}

#[test]
fn five_early_commits_send_one_initial_configure() {
    let mut st = state();
    let w = toplevel(&mut st);
    for _ in 0..5 {
        st.commit(w);
    }
    assert_eq!(st.configures, vec![w]);
    assert!(st.window_for_surface(w).unwrap().initial_configure_sent);
}

#[test]
fn subsurface_commit_configures_its_toplevel_once() {
    let mut st = state();
    let w = toplevel(&mut st);
    let child = st.create_surface();
    st.new_subsurface(child, w).unwrap();
    st.commit(child);
    assert!(st.configures.is_empty());
    st.set_sync(child, SyncMode::Desynchronized);
    st.commit(child);
    st.commit(w);
    assert_eq!(st.configures, vec![w]);
}

#[test]
fn surface_without_role_commit_only_stores_buffer() {
    let mut st = state();
    let s = st.create_surface();
    st.attach(s, Some(9));
    st.commit(s);
    assert!(st.configures.is_empty());
    assert!(st.window_for_surface(s).is_none());
    assert_eq!(st.surfaces.committed_buffer(s), Some(9));
}

#[test]
fn destroyed_focus_receives_no_key() {
    let mut st = state();
    let w = toplevel(&mut st);
    st.map_window(w, 0, 0, 0, true);
    let d = st.seat.set_keyboard_focus(&st.surfaces, Some(KeyboardFocusTarget::Window(w)), 1);
    assert_eq!(d.len(), 1);
    st.destroy_surface(w);
    assert!(st.seat.keyboard_focus.is_none());
    let (action, out) = st.handle_key(30, KeyState::Pressed, 2, 100);
    assert_eq!(action, KeyAction::Forward);
    assert!(out.is_empty());
    assert!(st.seat.keyboard_focus.is_none());
    assert!(st.space.elements_front_to_back(0).is_empty());
}

#[test]
fn dead_focus_is_cleared_on_dispatch() {
    let mut st = state();
    let w = toplevel(&mut st);
    st.seat.set_keyboard_focus(&st.surfaces, Some(KeyboardFocusTarget::Window(w)), 1);
    st.surfaces.destroy(w);
    let r = st.seat.dispatch_key(&st.surfaces, 30, KeyState::Pressed, 3, 4);
    assert!(r.is_none());
    assert!(st.seat.keyboard_focus.is_none());
}

#[test]
fn dead_target_gets_no_key_or_modifiers() {
    let mut st = state();
    let w = toplevel(&mut st);
    let t = KeyboardFocusTarget::Window(w);
    let entered = t.enter(&mut st.seat, &st.surfaces, 1);
    assert_eq!(entered.len(), 1);
    let d = t.key(&mut st.seat, &st.surfaces, 30, KeyState::Pressed, 2, 3).unwrap();
    assert_eq!(d.surface, w);
    assert!(matches!(d.event, InputEvent::Keyboard(KeyboardEvent::Key { keycode: 30, serial: 2, time: 3, .. })));
    st.destroy_surface(w);
    st.seat.keyboard_focus = Some(t);
    let mods = ModifiersState { ctrl: true, alt: false, shift: false, logo: false };
    assert!(t.modifiers(&mut st.seat, &st.surfaces, mods, 4).is_none());
    assert!(st.seat.keyboard_focus.is_none());
    st.seat.keyboard_focus = Some(t);
    assert!(t.key(&mut st.seat, &st.surfaces, 30, KeyState::Pressed, 5, 6).is_none());
    assert!(st.seat.keyboard_focus.is_none());
}

#[test]
fn target_enter_and_leave_pair_up() {
    let mut st = state();
    let a = KeyboardFocusTarget::Window(toplevel(&mut st));
    let b = KeyboardFocusTarget::Popup(st.create_surface());
    let c = KeyboardFocusTarget::LayerSurface(st.create_surface());
    let mut log = Vec::new();
    log.extend(a.enter(&mut st.seat, &st.surfaces, 1));
    log.extend(b.enter(&mut st.seat, &st.surfaces, 2));
    log.extend(c.enter(&mut st.seat, &st.surfaces, 3));
    let kinds: Vec<(usize, bool)> = log
        .iter()
        .map(|d| (d.surface, matches!(d.event, InputEvent::Keyboard(KeyboardEvent::Enter { .. }))))
        .collect();
    assert_eq!(
        kinds,
        vec![(a.wl_surface(), true), (a.wl_surface(), false), (b.wl_surface(), true), (b.wl_surface(), false), (c.wl_surface(), true)]
    );
    assert!(b.leave(&mut st.seat, &st.surfaces, 4).is_none());
    assert_eq!(st.seat.keyboard_focus, Some(c));
    let d = c.leave(&mut st.seat, &st.surfaces, 5).unwrap();
    assert_eq!(d.surface, c.wl_surface());
    assert!(matches!(d.event, InputEvent::Keyboard(KeyboardEvent::Leave { serial: 5 })));
    assert!(st.seat.keyboard_focus.is_none());
}

#[test]
fn pointer_enter_pairs_with_leave() {
    let mut st = state();
    let a = PointerFocusTarget::WlSurface(st.create_surface());
    let b = PointerFocusTarget::WlSurface(st.create_surface());
    assert_eq!(a.enter(&mut st.seat, &st.surfaces, 1, 2, 3, 4).len(), 1);
    let out = b.enter(&mut st.seat, &st.surfaces, 5, 6, 7, 8);
    assert_eq!(out.len(), 2);
    assert_eq!(out[0].surface, a.wl_surface());
    assert!(matches!(out[0].event, InputEvent::Pointer(PointerEvent::Leave { serial: 7, time: 8 })));
    assert_eq!(out[1].surface, b.wl_surface());
    assert!(matches!(out[1].event, InputEvent::Pointer(PointerEvent::Enter { x: 5, y: 6, serial: 7, time: 8 })));
    assert_eq!(st.seat.pointer_focus, Some(b));
}

#[test]
fn unmap_clears_touch_focus_on_the_tree() {
    let mut st = state();
    let w = toplevel(&mut st);
    let child = st.create_surface();
    st.new_subsurface(child, w).unwrap();
    st.map_window(w, 0, 0, 0, false);
    st.seat.set_touch_focus(&st.surfaces, Some(PointerFocusTarget::WlSurface(child)));
    let out = st.unmap_window(w, 1, 2);
    assert!(out.is_empty());
    assert!(st.seat.touch_focus.is_none());
}

#[test]
fn destroying_the_surface_removes_its_window() {
    let mut st = state();
    let a = toplevel(&mut st);
    let b = toplevel(&mut st);
    st.destroy_surface(a);
    assert!(st.window_for_surface(a).is_none());
    assert_eq!(st.window_for_surface(b).unwrap().surface, b);
    assert_eq!(st.windows.len(), 1);
}

#[test]
fn unmap_clears_focus_with_leave() {
    let mut st = state();
    let w = toplevel(&mut st);
    st.map_window(w, 0, 10, 20, true);
    st.seat.set_keyboard_focus(&st.surfaces, Some(KeyboardFocusTarget::Window(w)), 1);
    st.seat.set_pointer_focus(&st.surfaces, Some(PointerFocusTarget::WlSurface(w)), 0, 0, 1, 5);
    let out = st.unmap_window(w, 4, 6);
    assert_eq!(out.len(), 2);
    assert!(matches!(out[0].event, InputEvent::Keyboard(KeyboardEvent::Leave { serial: 4 })));
    assert!(matches!(out[1].event, InputEvent::Pointer(PointerEvent::Leave { serial: 4, time: 6 })));
    assert!(st.seat.keyboard_focus.is_none());
    assert!(st.seat.pointer_focus.is_none());
    assert!(st.space.elements_front_to_back(0).is_empty());
}

#[test]
fn leave_comes_before_enter_across_three_targets() {
    let mut st = state();
    let a = toplevel(&mut st);
    let b = st.create_surface();
    let c = st.create_surface();
    let first = st.seat.set_keyboard_focus(&st.surfaces, Some(KeyboardFocusTarget::Window(a)), 1);
    assert_eq!(first.len(), 1);
    assert_eq!(first[0].surface, a);
    assert!(matches!(first[0].event, InputEvent::Keyboard(KeyboardEvent::Enter { serial: 1, .. })));
    let second = st.seat.set_keyboard_focus(&st.surfaces, Some(KeyboardFocusTarget::Popup(b)), 2);
    assert_eq!(second.len(), 2);
    assert_eq!(second[0].surface, a);
    assert!(matches!(second[0].event, InputEvent::Keyboard(KeyboardEvent::Leave { serial: 2 })));
    assert_eq!(second[1].surface, b);
    assert!(matches!(second[1].event, InputEvent::Keyboard(KeyboardEvent::Enter { serial: 2, .. })));
    let third = st.seat.set_keyboard_focus(&st.surfaces, Some(KeyboardFocusTarget::LayerSurface(c)), 3);
    assert_eq!(third.len(), 2);
    assert_eq!(third[0].surface, b);
    assert!(matches!(third[0].event, InputEvent::Keyboard(KeyboardEvent::Leave { serial: 3 })));
    assert_eq!(third[1].surface, c);
    assert!(matches!(third[1].event, InputEvent::Keyboard(KeyboardEvent::Enter { serial: 3, .. })));
    let same = st.seat.set_keyboard_focus(&st.surfaces, Some(KeyboardFocusTarget::LayerSurface(c)), 4);
    assert!(same.is_empty());
}

#[test]
fn remap_goes_to_the_front() {
    let mut space = Space::new();
    space.map_element(1, 0, 0, 0, false);
    space.map_element(2, 0, 0, 0, false);
    assert_eq!(space.elements_front_to_back(0), vec![2, 1]);
    space.unmap_elem(1);
    assert_eq!(space.elements_front_to_back(0), vec![2]);
    space.map_element(1, 0, 0, 0, true);
    assert_eq!(space.elements_front_to_back(0), vec![1, 2]);
    assert_eq!(space.elements_back_to_front(0), vec![2, 1]);
    assert_eq!(space.active, Some(1));
}

#[test]
fn elements_are_listed_per_output() {
    let mut space = Space::new();
    space.map_element(1, 0, 0, 0, false);
    space.map_element(2, 1, 0, 0, false);
    space.map_element(3, 0, 5, 5, false);
    assert_eq!(space.elements_front_to_back(0), vec![3, 1]);
    assert_eq!(space.elements_front_to_back(1), vec![2]);
    assert!(space.elements_front_to_back(2).is_empty());
    assert!(space.contains(2));
    space.map_element(1, 1, 0, 0, false);
    assert_eq!(space.entries.len(), 3);
    assert_eq!(space.elements_front_to_back(1), vec![1, 2]);
}

#[test]
fn refresh_unmaps_dead_surfaces() {
    let mut st = state();
    let a = toplevel(&mut st);
    let b = toplevel(&mut st);
    st.map_window(a, 0, 0, 0, false);
    st.map_window(b, 0, 0, 0, false);
    st.seat.set_pointer_focus(&st.surfaces, Some(PointerFocusTarget::WlSurface(a)), 0, 0, 1, 1);
    st.surfaces.destroy(a);
    st.refresh();
    assert_eq!(st.space.elements_front_to_back(0), vec![b]);
    assert!(st.seat.pointer_focus.is_none());
}

#[test]
fn reset_forces_four_full_redraws() {
    let mut st = state();
    let output = anchor::output::Output {
        name: String::from("anchor"),
        mode: anchor::output::Mode { width: 800, height: 600, refresh: 60000 },
        transform: anchor::output::Transform::Normal,
        scale: 1,
        x: 0,
        y: 0,
    };
    assert_eq!(st.backend_data.begin_frame(), RedrawKind::Incremental);
    st.reset_output(&output);
    assert_eq!(st.backend_data.full_redraw, FULL_REDRAW_FRAMES);
    assert_eq!(st.backend_data.full_redraw, 4);
    for _ in 0..4 {
        assert_eq!(st.backend_data.begin_frame(), RedrawKind::Full);
    }
    assert_eq!(st.backend_data.begin_frame(), RedrawKind::Incremental);
    assert_eq!(st.backend_data.full_redraw, 0);
}

#[test]
fn counter_runs_down_to_zero() {
    let mut w = WinitData::new(0);
    let output = anchor::output::Output {
        name: String::from("o"),
        mode: anchor::output::Mode { width: 10, height: 10, refresh: 60000 },
        transform: anchor::output::Transform::Normal,
        scale: 1,
        x: 0,
        y: 0,
    };
    w.reset_buffers(&output);
    let mut seen = Vec::new();
    for _ in 0..6 {
        seen.push((w.begin_frame(), w.full_redraw));
    }
    assert_eq!(
        seen,
        vec![
            (RedrawKind::Full, 3),
            (RedrawKind::Full, 2),
            (RedrawKind::Full, 1),
            (RedrawKind::Full, 0),
            (RedrawKind::Incremental, 0),
            (RedrawKind::Incremental, 0),
        ]
    );
}

#[test]
fn winit_backend_contract() {
    let mut w = WinitData::new(0);
    assert_eq!(w.seat_name(), "anchor");
    let caps = w.capabilities();
    assert!(!caps.has_gestures && !caps.has_relative_motion);
    w.early_import(0);
    assert_eq!(w.full_redraw, 0);
    let st = state();
    assert_eq!(st.seat.name, "anchor");
}

#[test]
fn reserved_shortcut_is_intercepted_on_press_only() {
    let binding = KeyBinding {
        modifiers: ModifiersState { ctrl: false, alt: false, shift: false, logo: true },
        keycode: 28,
        token: 11,
    };
    let mut st = AnchorState::new(WinitData::new(0), vec![binding]);
    let w = toplevel(&mut st);
    st.seat.set_keyboard_focus(&st.surfaces, Some(KeyboardFocusTarget::Window(w)), 1);
    let (a, out) = st.handle_key(KEY_LEFTMETA, KeyState::Pressed, 2, 10);
    assert_eq!(a, KeyAction::Forward);
    assert_eq!(out.len(), 2);
    assert!(matches!(out[0].event, InputEvent::Keyboard(KeyboardEvent::Key { keycode: 125, state: KeyState::Pressed, serial: 2, time: 10 })));
    match &out[1].event {
        InputEvent::Keyboard(KeyboardEvent::Modifiers { modifiers, serial: 2 }) => assert!(modifiers.logo),
        other => panic!("unexpected {:?}", other),
    }
    let (a, out) = st.handle_key(28, KeyState::Pressed, 3, 11);
    assert_eq!(a, KeyAction::Intercept(11));
    assert!(out.is_empty());
    let (a, out) = st.handle_key(28, KeyState::Released, 4, 12);
    assert_eq!(a, KeyAction::Suppress);
    assert!(out.is_empty());
    let (a, out) = st.handle_key(28, KeyState::Released, 5, 13);
    assert_eq!(a, KeyAction::Forward);
    assert_eq!(out.len(), 1);
    let (a, _) = st.handle_key(KEY_LEFTMETA, KeyState::Released, 6, 14);
    assert_eq!(a, KeyAction::Forward);
    assert!(st.seat.pressed_keys.is_empty());
    let (a, _) = st.handle_key(28, KeyState::Pressed, 7, 15);
    assert_eq!(a, KeyAction::Forward);
}

#[test]
fn gestures_are_dropped_without_backend_support() {
    let mut st = state();
    let s = st.create_surface();
    st.seat.set_pointer_focus(&st.surfaces, Some(PointerFocusTarget::WlSurface(s)), 0, 0, 1, 1);
    let no = BackendCaps { has_relative_motion: false, has_gestures: false };
    let yes = BackendCaps { has_relative_motion: true, has_gestures: true };
    let g = PointerEvent::GestureSwipeBegin { fingers: 3, serial: 2, time: 3 };
    assert!(st.seat.dispatch_pointer(&st.surfaces, no, g).is_none());
    let r = PointerEvent::RelativeMotion { dx: 1, dy: 2, utime: 3 };
    assert!(st.seat.dispatch_pointer(&st.surfaces, no, r).is_none());
    let d = st.seat.dispatch_pointer(&st.surfaces, yes, g).unwrap();
    assert_eq!(d.surface, s);
    assert!(matches!(d.event, InputEvent::Pointer(PointerEvent::GestureSwipeBegin { fingers: 3, .. })));
    let b = PointerEvent::Button { button: 272, state: KeyState::Pressed, serial: 4, time: 5 };
    let d = st.seat.dispatch_pointer(&st.surfaces, no, b).unwrap();
    assert!(matches!(d.event, InputEvent::Pointer(PointerEvent::Button { button: 272, .. })));
}

#[test]
fn touch_goes_to_live_target_only() {
    let mut st = state();
    let s = st.create_surface();
    st.seat.set_touch_focus(&st.surfaces, Some(PointerFocusTarget::WlSurface(s)));
    let ev = anchor::focus::TouchEvent::Down { slot: 0, x: 256, y: 512, serial: 1, time: 2 };
    let d = st.seat.dispatch_touch(&st.surfaces, ev).unwrap();
    assert_eq!(d.surface, s);
    st.destroy_surface(s);
    assert!(st.seat.dispatch_touch(&st.surfaces, anchor::focus::TouchEvent::Frame).is_none());
    assert!(st.seat.touch_focus.is_none());
}

#[test]
fn import_failure_rejects_commit() {
    let mut st = state();
    let w = toplevel(&mut st);
    st.attach(w, Some(4));
    assert_eq!(st.commit_imported(w, false), Err(CommitError::ImportFailed));
    assert_eq!(st.surfaces.committed_buffer(w), None);
    assert!(st.configures.is_empty());
    assert_eq!(st.commit_imported(w, true), Ok(()));
    assert_eq!(st.surfaces.committed_buffer(w), Some(4));
}

#[test]
fn unimplemented_paths_fail_loudly() {
    let mut st = state();
    let s = st.create_surface();
    assert_eq!(st.new_layer_surface(s), Err(ShellError::NotSupported));
    assert_eq!(st.new_selection(), Err(ShellError::NotSupported));
    assert_eq!(st.new_toplevel(s), Ok(()));
    assert_eq!(st.new_toplevel(s), Err(RoleError::AlreadyAssigned));
}

#[test]
fn drag_icon_follows_the_drag() {
    let mut st = state();
    let s = st.create_surface();
    st.dnd_started(Some(s));
    assert_eq!(st.dnd_icon, Some(s));
    st.dnd_dropped();
    assert_eq!(st.dnd_icon, None);
}
