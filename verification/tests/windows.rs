//! Windows and stacks of windows.

use lunaris_compositor::geometry::{Point, Position, Rectangle, Size};
use lunaris_compositor::shell::element::stack::{
    CosmicStack, Direction, FocusDirection, KeyboardSwitch, MoveResult, TabEvent, TAB_HEIGHT,
};
use lunaris_compositor::shell::element::surface::CosmicSurface;
use lunaris_compositor::shell::element::window::{
    AppearanceConfig, CosmicWindow, CursorIcon, Focus, HitTarget, PointerAction, ResizeEdge,
    SurfaceElement, BTN_LEFT, BTN_RIGHT, SSD_HEIGHT,
};

fn rect(x: i32, y: i32, w: i32, h: i32) -> Rectangle {
    Rectangle { loc: Point { x, y }, size: Size { w, h } }
}

fn point(x: i32, y: i32) -> Point {
    Point { x, y }
}

fn appearance(on: bool) -> AppearanceConfig {
    AppearanceConfig {
        clip_floating_windows: on,
        clip_tiled_windows: on,
        shadow_tiled_windows: on,
    }
}

fn surface(id: u64) -> CosmicSurface {
    CosmicSurface {
        id,
        wl_surface: Some(1000 + id),
        alive: true,
        geometry: rect(0, 0, 400, 300),
        bbox: rect(0, 0, 400, 300),
        min_size: None,
        max_size: None,
        pending_size: None,
        maximized: false,
        decorated: false,
        pending_decorated: false,
        tiled_state: None,
        force_undecorated: false,
        tiled: false,
        activated: false,
        suspended: false,
        requested: None,
        configure: false,
    }
}

fn stack_of(ids: &[u64]) -> CosmicStack {
    CosmicStack::new(ids.iter().map(|id| surface(*id)).collect(), 7, appearance(true)).0
}

fn ids(stack: &CosmicStack) -> Vec<u64> {
    stack.surfaces().iter().map(|s| s.id).collect()
}

#[test]
fn a_new_stack_tells_of_its_tabs() {
    let (stack, tabs) =
        CosmicStack::new(vec![surface(1), surface(2)], 7, appearance(true));
    assert_eq!(stack.len(), 2);
    assert_eq!(stack.stack_id(), 7);
    assert_eq!(stack.active().id, 1);
    assert!(stack.windows.iter().all(|w| w.tiled && w.force_undecorated && w.configure));
    assert_eq!(
        tabs,
        vec![
            TabEvent::Added { stack_id: 7, index: 0, window: 1, active: true },
            TabEvent::Added { stack_id: 7, index: 1, window: 2, active: false },
        ]
    );
}

#[test]
fn the_focus_goes_left_and_right() {
    let mut stack = stack_of(&[1, 2, 3]);
    assert!(stack.handle_focus(Some(5), FocusDirection::Right, false));
    assert!(stack.handle_focus(Some(5), FocusDirection::Right, false));
    assert_eq!(stack.active().id, 3);
    assert!(!stack.handle_focus(Some(5), FocusDirection::Right, false));
    assert_eq!(stack.active().id, 1, "the recorded tab is active again");
    assert!(stack.handle_focus(Some(6), FocusDirection::Right, false));
    assert!(stack.handle_focus(Some(6), FocusDirection::Left, false));
    assert_eq!(stack.active().id, 1);
}

#[test]
fn a_stack_is_focused_as_a_whole() {
    let mut stack = stack_of(&[1, 2]);
    assert!(stack.handle_focus(None, FocusDirection::Out, false));
    assert!(stack.whole_stack_focused());
    assert_eq!(stack.keyboard_event().1, None);
    assert!(!stack.handle_focus(None, FocusDirection::In, false));
    assert!(!stack.whole_stack_focused());
    stack.focus_stack();
    assert!(stack.whole_stack_focused());
    assert_eq!(stack.handle_move(Direction::Right), MoveResult::Default);
}

#[test]
fn opposite_moves_undo_each_other() {
    let mut stack = stack_of(&[1, 2, 3]);
    assert_eq!(stack.handle_move(Direction::Right), MoveResult::Handled);
    assert_eq!(ids(&stack), vec![2, 1, 3]);
    assert_eq!(stack.active().id, 1);
    assert_eq!(stack.handle_move(Direction::Left), MoveResult::Handled);
    assert_eq!(ids(&stack), vec![1, 2, 3]);
    match stack.handle_move(Direction::Left) {
        MoveResult::MoveOut(window) => {
            assert_eq!(window.id, 1);
            assert!(!window.tiled && !window.force_undecorated);
        }
        other => panic!("{other:?}"),
    }
    assert_eq!(ids(&stack), vec![2, 3]);
    let mut single = stack_of(&[1]);
    assert_eq!(single.handle_move(Direction::Up), MoveResult::Default);
}

#[test]
fn windows_come_and_go() {
    let mut stack = stack_of(&[1, 2]);
    let tab = stack.add_window(surface(3), None, None);
    assert_eq!(tab, TabEvent::Added { stack_id: 7, index: 2, window: 3, active: true });
    assert_eq!(stack.active().id, 3);
    assert_eq!(stack.index_of(3), Some(2));
    assert_eq!(stack.remove_window(3), Some(TabEvent::Removed { stack_id: 7, index: 2 }));
    assert_eq!(ids(&stack), vec![1, 2]);
    assert_eq!(stack.active().id, 2);
    assert_eq!(stack.remove_window(9), None);
    let (window, tab) = stack.remove_idx(0);
    assert_eq!(window.unwrap().id, 1);
    assert_eq!(tab, Some(TabEvent::Removed { stack_id: 7, index: 0 }));
    assert_eq!(stack.remove_window(2), None);
    assert_eq!(stack.len(), 1, "the last window stays");
    assert!(!stack.alive());
}

#[test]
fn only_the_active_window_is_activated() {
    let mut stack = stack_of(&[1, 2, 3]);
    assert_eq!(stack.set_active(2), Some(TabEvent::Activated { stack_id: 7, index: 1 }));
    assert_eq!(stack.set_active(2), None);
    assert!(stack.has_active(2));
    stack.set_activate(true);
    let activated: Vec<bool> = stack.surfaces().iter().map(|s| s.activated).collect();
    assert_eq!(activated, vec![false, true, false]);
    stack.set_activate(false);
    assert!(stack.surfaces().iter().all(|s| !s.activated));
}

#[test]
fn refreshing_drops_dead_windows() {
    let mut stack = stack_of(&[1, 2, 3]);
    stack.windows[0].alive = false;
    stack.set_active(3);
    stack.refresh();
    assert_eq!(ids(&stack), vec![2, 3]);
    let once: Vec<u64> = ids(&stack);
    stack.refresh();
    assert_eq!(ids(&stack), once);
    assert!(stack.alive());
}

#[test]
fn the_keyboard_follows_the_tabs() {
    let mut stack = stack_of(&[1, 2]);
    assert_eq!(stack.keyboard_enter(), 1);
    stack.set_active(2);
    let (switch, window) = stack.keyboard_event();
    assert_eq!(switch, KeyboardSwitch { leave: Some(1), enter: Some(2) });
    assert_eq!(window, Some(2));
    let (switch, window) = stack.keyboard_event();
    assert_eq!(switch, KeyboardSwitch { leave: None, enter: None });
    assert_eq!(window, Some(2));
    assert_eq!(stack.keyboard_leave().1, 2);
}

#[test]
fn tabs_are_dragged_out_of_the_bar() {
    let mut stack = stack_of(&[1, 2]);
    stack.potential_drag = Some(1);
    let inside = Position { x_floor: 200, x_ceil: 200, y_floor: 10, y_ceil: 11 };
    assert!(!stack.leaves_tab_bar(inside));
    let (shape, dragged) = stack.motion(point(200, 10), inside);
    assert_eq!((shape, dragged), (Some(CursorIcon::Default), None));
    assert_eq!(stack.current_focus(), Some(Focus::Header));
    assert_eq!(stack.button(true, BTN_LEFT), Some(PointerAction::Move { surface: 1001 }));
    let above = Position { x_floor: 200, x_ceil: 200, y_floor: -1, y_ceil: 0 };
    let (_, dragged) = stack.motion(point(200, 0), above);
    assert_eq!(dragged, Some(1002));
    assert!(!stack.windows[1].force_undecorated);
    assert_eq!(stack.pointer_leave(), None);
}

#[test]
fn a_stack_has_room_for_its_tabs() {
    let mut stack = stack_of(&[1, 2]);
    stack.windows[0].min_size = Some(Size { w: 50, h: 60 });
    stack.windows[1].min_size = Some(Size { w: 70, h: 40 });
    stack.windows[1].max_size = Some(Size { w: 60, h: 90 });
    assert_eq!(stack.min_size(), Some(Size { w: 70, h: 60 + TAB_HEIGHT }));
    assert_eq!(stack.max_size(), Some(Size { w: 70, h: 90 + TAB_HEIGHT }));
    assert_eq!(stack.geometry().size, Size { w: 400, h: 300 + TAB_HEIGHT });
    assert_eq!(stack.drawn_size(None), Size { w: 400, h: 300 + TAB_HEIGHT });
    assert_eq!(stack.drawn_size(Some(Size { w: 500, h: 200 })), Size { w: 400, h: 200 });
    assert_eq!(stack.offset(), point(0, TAB_HEIGHT));
    stack.set_geometry(rect(10, 20, 500, 424));
    let request = stack.windows[0].requested.unwrap();
    assert_eq!(request.geometry, rect(10, 20 + TAB_HEIGHT, 500, 424 - TAB_HEIGHT));
    assert_eq!(request.header, TAB_HEIGHT as u32);
    assert_eq!(stack.focus_under(point(5, 5), true), HitTarget::Frame);
    assert_eq!(
        stack.focus_under(point(5, 100), true),
        HitTarget::Client { inset: TAB_HEIGHT }
    );
    assert_eq!(CosmicStack::menu_position(point(50, 60), point(10, 20)), point(40, 16));
}

#[test]
fn rounded_stacks_have_shadows() {
    let mut stack = stack_of(&[1]);
    assert!(stack.is_rounded());
    assert_eq!(stack.corner_radius([8, 8, 8, 8], Some([12, 12, 4, 4]), 2), [12, 8, 8, 8]);
    assert_eq!(stack.clipping([8, 7, 6, 5]), Some(Some([8, 0, 6, 0])));
    assert_eq!(
        stack.render_elements([8, 7, 6, 5], &vec![true, false]),
        vec![SurfaceElement::Clipped { radii: [8, 0, 6, 0] }, SurfaceElement::Whole]
    );
    assert!(stack.shadow_render_element().unwrap().rounded);
    stack.windows[0].maximized = true;
    assert!(!stack.is_rounded());
    assert_eq!(stack.shadow_render_element(), None);
    stack.set_tiled(true);
    assert!(stack.tiled);
    stack.update_appearance_conf(&appearance(false));
    assert_eq!(stack.appearance_conf, appearance(false));
}

#[test]
fn frames_have_parts() {
    let s = surface(1);
    let under = |x, y| Focus::under(&s, SSD_HEIGHT, point(x, y));
    assert_eq!(under(0, 0), Some(Focus::ResizeTopLeft));
    assert_eq!(under(395, 0), Some(Focus::ResizeTopRight));
    assert_eq!(under(0, 335), Some(Focus::ResizeBottomLeft));
    assert_eq!(under(399, 335), Some(Focus::ResizeBottomRight));
    assert_eq!(under(200, -1), Some(Focus::ResizeTop));
    assert_eq!(under(200, 336), Some(Focus::ResizeBottom));
    assert_eq!(under(-1, 100), Some(Focus::ResizeLeft));
    assert_eq!(under(400, 100), Some(Focus::ResizeRight));
    assert_eq!(under(200, 20), Some(Focus::Header));
    assert_eq!(under(200, 100), None);
    for value in 0..=9 {
        assert_eq!(Focus::from_u8(value).map_or(0, |f| f.as_u8()), value);
    }
    assert_eq!(Focus::ResizeBottomLeft.resize_edge(), Some(ResizeEdge::BottomLeft));
    assert_eq!(Focus::ResizeBottomLeft.cursor_shape(), CursorIcon::SwResize);
    assert_eq!(Focus::Header.resize_edge(), None);
}

#[test]
fn buttons_on_the_frame_move_and_resize() {
    let mut window = CosmicWindow::new(surface(1), appearance(false));
    assert!(!window.window.tiled);
    assert_eq!(window.button(true, BTN_LEFT), None);
    assert_eq!(window.pointer_enter(point(200, 20)), Some(CursorIcon::Default));
    assert_eq!(window.button(true, BTN_LEFT), Some(PointerAction::Move { surface: 1001 }));
    assert_eq!(window.button(true, BTN_RIGHT), Some(PointerAction::Menu { surface: 1001 }));
    assert_eq!(window.button(false, BTN_LEFT), None);
    assert_eq!(window.pointer_motion(point(400, 100)), Some(CursorIcon::EResize));
    assert_eq!(
        window.button(true, BTN_LEFT),
        Some(PointerAction::Resize { surface: 1001, edge: ResizeEdge::Right })
    );
    assert_eq!(window.button(true, BTN_RIGHT), None);
    window.pointer_leave();
    assert_eq!(window.current_focus(), None);
}

#[test]
fn the_header_is_above_the_client() {
    let mut window = CosmicWindow::new(surface(1), appearance(true));
    assert!(window.window.tiled);
    assert!(window.has_ssd(false));
    assert_eq!(window.geometry().size, Size { w: 400, h: 336 });
    assert_eq!(window.bbox(), rect(-10, -10, 420, 356));
    assert_eq!(window.offset(), point(0, 36));
    assert_eq!(window.focus_under(point(200, 20), true), HitTarget::Frame);
    assert_eq!(window.focus_under(point(200, 20), false), HitTarget::Client { inset: 36 });
    assert_eq!(window.focus_under(point(200, 100), true), HitTarget::Client { inset: 36 });
    window.set_geometry(rect(5, 6, 300, 30));
    let request = window.window.requested.unwrap();
    assert_eq!((request.geometry, request.header), (rect(5, 42, 300, 0), 36));
    window.window.pending_size = Some(Size { w: 10, h: 20 });
    assert_eq!(window.pending_size(), Some(Size { w: 10, h: 56 }));
    window.window.min_size = Some(Size { w: 50, h: 60 });
    assert_eq!(window.min_size(), Some(Size { w: 50, h: 96 }));
    assert_eq!(window.max_size(), None);
    window.refresh("Title".into());
    assert_eq!(window.last_title, "Title");
    assert!(window.contains_surface(1));
    assert_eq!(CosmicWindow::menu_position(point(50, 60), point(10, 20)), point(40, 4));

    window.window.decorated = true;
    window.window.pending_decorated = true;
    assert_eq!(window.focus_under(point(200, 20), true), HitTarget::Client { inset: 0 });
    assert_eq!(window.geometry().size, Size { w: 400, h: 300 });
    assert_eq!(window.drawn_size(None), Size { w: 400, h: 300 });
    assert_eq!(window.drawn_size(Some(Size { w: 100, h: 900 })), Size { w: 100, h: 300 });
    window.refresh("Other".into());
    assert_eq!(window.last_title, "Title");
}

#[test]
fn windows_are_rounded_and_cast_shadows() {
    let mut window = CosmicWindow::new(surface(1), appearance(true));
    let radii = [8, 7, 6, 5];
    assert_eq!(window.corner_radius(radii, Some([10, 10, 2, 2]), 3), [10, 7, 6, 5]);
    assert_eq!(window.clipping(radii), Some([8, 0, 6, 0]));
    assert_eq!(
        window.render_elements(radii, &vec![false, true]),
        vec![SurfaceElement::Whole, SurfaceElement::Clipped { radii: [8, 0, 6, 0] }]
    );
    assert_eq!(window.shadow_render_element(radii), Some((radii, true)));
    window.set_activate(true);
    assert_eq!(window.shadow_render_element(radii), Some((radii, false)));
    window.update_appearance_conf(&appearance(false));
    assert_eq!(window.clipping(radii), None);
    assert_eq!(window.render_elements(radii, &vec![true]), vec![SurfaceElement::Whole]);
    assert_eq!(window.shadow_render_element(radii), Some(([0, 7, 0, 5], false)));
    assert_eq!(window.corner_radius(radii, None, 3), [3, 7, 3, 5]);
    window.window.maximized = true;
    assert_eq!(window.shadow_render_element(radii), None);
    window.set_tiled(true);
    assert!(window.is_tiled());
    assert!(window.alive());
    assert_eq!(window.surface().id, 1);
}
