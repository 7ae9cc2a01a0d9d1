//! The shell: the title bar of fullscreen windows, night light, seats, the magnifier and menus.

use lunaris_compositor::config::key_bindings::ResizeDirection;
use lunaris_compositor::geometry::{Point, Rectangle, Size};
use lunaris_compositor::number::Float64;
use lunaris_compositor::shell::element::resize_indicator::{resize_indicator, ResizeShortcut};
use lunaris_compositor::shell::element::stack_hover::stack_hover;
use lunaris_compositor::shell::element::swap_indicator::swap_indicator;
use lunaris_compositor::shell::fullscreen_reveal::{
    FullscreenRevealState, RevealAction, RevealPhase, DEBOUNCE, HIDE_DELAY,
};
use lunaris_compositor::shell::grabs::menu::{
    AxisAlignment, GrabButton, GrabStart, Item, MenuAlignment, MenuGrab, MenuGrabState,
};
use lunaris_compositor::shell::night_light::{
    apply_to_backend, schedule_tick, NightLightSchedule, NightLightState, ScheduleOutcome,
    MAX_TEMPERATURE_K, MIN_TEMPERATURE_K, NEUTRAL_TEMPERATURE_K,
};
use lunaris_compositor::shell::night_light_schedule::{
    evaluate, in_window, minute_or_epoch, minutes_of_day, needs_sun, unix_to_local_minute,
    Location, SunTimes,
};
use lunaris_compositor::shell::seats::{
    cursor_geometry, cursor_image_status, Capabilities, CursorImageStatus, CursorPicture,
    DeviceCapability, Devices, DoubleClickTracker, PointerLocation, Seat, SeatOutputs, Seats,
    DCLK_DISTANCE_PX, DCLK_TIME_MS,
};
use lunaris_compositor::shell::zoom::{
    Animated, FocalPoint, FocalTarget, FocalUpdate, OutputZoomState, ZoomMovement, ZoomState,
};
use lunaris_compositor::wayland::protocols::shell_overlay::WindowAction;
use chrono::{TimeZone, Timelike};

fn number(v: f64) -> Float64 {
    Float64 { bits: v.to_bits() }
}

fn rect(x: i32, y: i32, w: i32, h: i32) -> Rectangle {
    Rectangle { loc: Point { x, y }, size: Size { w, h } }
}

fn point(x: i32, y: i32) -> Point {
    Point { x, y }
}

const START: u64 = 1_000_000_000;

#[test]
fn test_no_fullscreen_stays_hidden() {
    let mut state = FullscreenRevealState::default();
    assert_eq!(state.update(number(0.0), false, 0, START), RevealAction::Nothing);
    assert_eq!(state.phase, RevealPhase::Hidden);
}

#[test]
fn test_edge_triggers_reveal() {
    let mut state = FullscreenRevealState::default();
    assert_eq!(state.update(number(1.0), true, 42, START), RevealAction::Reveal);
    assert_eq!(state.phase, RevealPhase::Visible);
    assert_eq!(state.surface_id, 42);
}

#[test]
fn test_pointer_in_titlebar_stays_visible() {
    let mut state = FullscreenRevealState::default();
    state.update(number(1.0), true, 42, START);
    assert_eq!(state.update(number(20.0), true, 42, START), RevealAction::Nothing);
    assert_eq!(state.phase, RevealPhase::Visible);
}

#[test]
fn test_pointer_leaves_starts_hide_pending() {
    let mut state = FullscreenRevealState::default();
    state.update(number(1.0), true, 42, START);
    assert_eq!(state.update(number(50.0), true, 42, START), RevealAction::Nothing);
    assert_eq!(state.phase, RevealPhase::HidePending);
}

#[test]
fn test_pointer_returns_cancels_hide() {
    let mut state = FullscreenRevealState::default();
    state.update(number(1.0), true, 42, START);
    state.update(number(50.0), true, 42, START);
    assert_eq!(state.update(number(10.0), true, 42, START), RevealAction::Nothing);
    assert_eq!(state.phase, RevealPhase::Visible);
}

#[test]
fn test_hide_after_delay() {
    let mut state = FullscreenRevealState::default();
    state.update(number(1.0), true, 42, START);
    state.update(number(50.0), true, 42, START);
    let past = START - HIDE_DELAY - 100_000_000;
    state.hide_timer = Some(past);
    state.last_enter = Some(past);
    assert_eq!(state.update(number(50.0), true, 42, START), RevealAction::Hide);
    assert_eq!(state.phase, RevealPhase::Hidden);
}

#[test]
fn test_fullscreen_gone_hides() {
    let mut state = FullscreenRevealState::default();
    state.update(number(1.0), true, 42, START);
    assert_eq!(state.phase, RevealPhase::Visible);
    assert_eq!(state.update(number(1.0), false, 0, START), RevealAction::Hide);
    assert_eq!(state.phase, RevealPhase::Hidden);
}

#[test]
fn test_surface_change_resets() {
    let mut state = FullscreenRevealState::default();
    state.update(number(1.0), true, 42, START);
    assert_eq!(state.update(number(1.0), true, 99, START), RevealAction::Hide);
    assert_eq!(state.phase, RevealPhase::Hidden);
}

#[test]
fn test_below_edge_no_reveal() {
    let mut state = FullscreenRevealState::default();
    assert_eq!(state.update(number(10.0), true, 42, START), RevealAction::Nothing);
    assert_eq!(state.phase, RevealPhase::Hidden);
}

#[test]
fn the_title_bar_goes_after_the_delay_and_not_before() {
    let mut state = FullscreenRevealState::default();
    state.update(number(2.0), true, 42, START);
    state.update(number(36.0), true, 42, START);
    assert_eq!(state.phase, RevealPhase::Visible, "the end of the title bar belongs to it");
    state.update(number(36.5), true, 42, START);
    let due = START + HIDE_DELAY;
    assert_eq!(state.update(number(99.0), true, 42, due - 1), RevealAction::Nothing);
    assert_eq!(state.update(number(99.0), true, 42, due), RevealAction::Hide);

    let mut state = FullscreenRevealState::default();
    state.update(number(-1.0), true, 42, START);
    state.update(number(99.0), true, 42, START);
    state.last_enter = Some(due - DEBOUNCE + 1);
    assert_eq!(state.update(number(99.0), true, 42, due), RevealAction::Nothing);
    assert_eq!(state.update(number(99.0), true, 42, due + 1), RevealAction::Hide);
}

#[test]
fn effective_temperature_when_disabled_is_neutral() {
    let mut s = NightLightState::default();
    s.enabled = false;
    s.target_temperature_k = 3000;
    assert_eq!(s.effective_temperature_k(), NEUTRAL_TEMPERATURE_K);
}

#[test]
fn effective_temperature_clamps_to_range() {
    let mut s = NightLightState::default();
    s.enabled = true;
    s.target_temperature_k = 500;
    assert_eq!(s.effective_temperature_k(), MIN_TEMPERATURE_K);
    s.target_temperature_k = 9000;
    assert_eq!(s.effective_temperature_k(), MAX_TEMPERATURE_K);
}

#[test]
fn the_screen_is_tinted_while_night_light_is_on() {
    let mut s = NightLightState::default();
    assert_eq!(apply_to_backend(&mut s, 5), None);
    s.enabled = true;
    assert_eq!(apply_to_backend(&mut s, 6), Some(3400));
    assert_eq!((s.current_temperature_k, s.last_apply), (3400, Some(6)));
    s.target_temperature_k = 7000;
    assert_eq!(apply_to_backend(&mut s, 7), None);
}

#[test]
fn the_schedule_turns_night_light_on_and_off() {
    let mut s = NightLightState::default();
    s.schedule = NightLightSchedule::Custom { start_min: 22 * 60, end_min: 7 * 60 };
    assert_eq!(schedule_tick(&mut s, 12 * 60, None, 1), ScheduleOutcome::Unchanged);
    assert_eq!(schedule_tick(&mut s, 22 * 60, None, 2), ScheduleOutcome::Tint(Some(3400)));
    assert!(s.enabled);
    assert_eq!(schedule_tick(&mut s, 23 * 60, None, 3), ScheduleOutcome::Unchanged);
    assert_eq!(schedule_tick(&mut s, 7 * 60, None, 4), ScheduleOutcome::Tint(None));
    assert_eq!(s.last_apply, Some(4));
}

#[test]
fn in_window_normal_range() {
    assert!(!in_window(22 * 60, 9 * 60, 17 * 60));
    assert!(in_window(12 * 60, 9 * 60, 17 * 60));
    assert!(in_window(9 * 60, 9 * 60, 17 * 60));
    assert!(!in_window(17 * 60, 9 * 60, 17 * 60));
}

#[test]
fn in_window_wraps_overnight() {
    assert!(in_window(22 * 60, 22 * 60, 7 * 60));
    assert!(in_window(2 * 60, 22 * 60, 7 * 60));
    assert!(in_window(0, 22 * 60, 7 * 60));
    assert!(!in_window(12 * 60, 22 * 60, 7 * 60));
    assert!(!in_window(7 * 60, 22 * 60, 7 * 60));
}

#[test]
fn in_window_equal_start_end_is_always_true() {
    assert!(in_window(0, 0, 0));
    assert!(in_window(12 * 60, 12 * 60, 12 * 60));
}

#[test]
fn a_window_and_the_rest_make_a_day() {
    for minute in 0..1440 {
        assert_ne!(in_window(minute, 1300, 400), in_window(minute, 400, 1300));
        assert_eq!(in_window(minute, 1300, 400), in_window(minute + 1440, 1300 + 2880, 400));
    }
}

#[test]
fn manual_mode_returns_manual_state() {
    let now = 600;
    assert!(evaluate(NightLightSchedule::Manual, true, now, Location::default(), None));
    assert!(!evaluate(NightLightSchedule::Manual, false, now, Location::default(), None));
}

#[test]
fn sunset_without_location_falls_back_to_manual() {
    let now = 600;
    let loc = Location::default();
    assert!(!loc.is_set());
    assert!(evaluate(NightLightSchedule::SunsetSunrise, true, now, loc, None));
    assert!(!evaluate(NightLightSchedule::SunsetSunrise, false, now, loc, None));
}

fn minute_at(hour: u32, minute: u32) -> u32 {
    let now = chrono::Local.with_ymd_and_hms(2026, 4, 26, hour, minute, 0).single().unwrap();
    minutes_of_day(now.hour(), now.minute())
}

#[test]
fn custom_window_active_during_window() {
    let active = evaluate(
        NightLightSchedule::Custom { start_min: 22 * 60, end_min: 7 * 60 },
        false,
        minute_at(23, 30),
        Location::default(),
        None,
    );
    assert!(active);
}

#[test]
fn custom_window_inactive_outside_window() {
    let active = evaluate(
        NightLightSchedule::Custom { start_min: 22 * 60, end_min: 7 * 60 },
        true,
        minute_at(12, 0),
        Location::default(),
        None,
    );
    assert!(!active);
}

#[test]
fn location_is_set_treats_zero_as_unset() {
    assert!(!Location { latitude: number(0.0), longitude: number(0.0) }.is_set());
    assert!(!Location { latitude: number(-0.0), longitude: number(0.0) }.is_set());
    assert!(Location { latitude: number(52.52), longitude: number(13.405) }.is_set());
    assert!(!Location { latitude: number(51.48), longitude: number(0.0) }.is_set());
}

#[test]
fn the_sun_decides_where_the_place_is_known() {
    let berlin = Location { latitude: number(52.52), longitude: number(13.405) };
    let sun = Some(SunTimes { sunrise: 350, sunset: 1230 });
    assert!(needs_sun(NightLightSchedule::SunsetSunrise, berlin));
    assert!(!needs_sun(NightLightSchedule::Manual, berlin));
    assert!(!needs_sun(NightLightSchedule::SunsetSunrise, Location::default()));
    assert!(evaluate(NightLightSchedule::SunsetSunrise, false, 1230, berlin, sun));
    assert!(!evaluate(NightLightSchedule::SunsetSunrise, true, 350, berlin, sun));
}

#[test]
fn moments_have_a_minute_of_the_local_day() {
    let local = chrono::Utc.timestamp_opt(1_777_000_000, 0).unwrap().with_timezone(&chrono::Local);
    assert_eq!(unix_to_local_minute(1_777_000_000), local.hour() * 60 + local.minute());
    assert_eq!(unix_to_local_minute(i64::MAX), unix_to_local_minute(0));
    assert_eq!(minute_or_epoch(Some((23, 59)), (1, 0)), 1439);
    assert_eq!(minute_or_epoch(None, (1, 2)), 62);
}

fn loc(x: f64, y: f64) -> PointerLocation {
    PointerLocation { x: number(x), y: number(y) }
}

fn far(from: (f64, f64), to: (f64, f64)) -> bool {
    let (dx, dy) = (to.0 - from.0, to.1 - from.1);
    (dx * dx + dy * dy).sqrt() > DCLK_DISTANCE_PX as f64
}

#[test]
fn first_press_is_not_a_double_click() {
    let mut t = DoubleClickTracker::default();
    assert!(!t.observe_press(1000, 0x110, 1));
}

#[test]
fn second_press_within_threshold_is_a_double_click() {
    let mut t = DoubleClickTracker::default();
    assert!(!t.observe_press(1000, 0x110, 1));
    assert!(t.observe_press(1200, 0x110, 1));
}

#[test]
fn second_press_after_threshold_is_not_a_double_click() {
    let mut t = DoubleClickTracker::default();
    assert!(!t.observe_press(1000, 0x110, 1));
    assert!(!t.observe_press(1000 + DCLK_TIME_MS + 1, 0x110, 1));
}

#[test]
fn different_buttons_are_not_a_double_click() {
    let mut t = DoubleClickTracker::default();
    assert!(!t.observe_press(1000, 0x110, 1));
    assert!(!t.observe_press(1100, 0x111, 1));
}

#[test]
fn different_targets_are_not_a_double_click() {
    let mut t = DoubleClickTracker::default();
    assert!(!t.observe_press(1000, 0x110, 1));
    assert!(!t.observe_press(1100, 0x110, 2));
}

#[test]
fn motion_between_clicks_beyond_distance_disarms_double_click() {
    let mut t = DoubleClickTracker::default();
    assert!(!t.observe_press(1000, 0x110, 1));
    t.invalidate_on_motion(loc(100.0, 50.0), false);
    t.invalidate_on_motion(loc(200.0, 50.0), far((100.0, 50.0), (200.0, 50.0)));
    assert!(!t.observe_press(1100, 0x110, 1));
}

#[test]
fn motion_between_clicks_within_distance_preserves_double_click() {
    let mut t = DoubleClickTracker::default();
    assert!(!t.observe_press(1000, 0x110, 1));
    t.invalidate_on_motion(loc(100.0, 50.0), false);
    t.invalidate_on_motion(loc(103.0, 52.0), far((100.0, 50.0), (103.0, 52.0)));
    assert!(t.observe_press(1100, 0x110, 1));
}

#[test]
fn triple_click_does_not_cascade() {
    let mut t = DoubleClickTracker::default();
    assert!(!t.observe_press(1000, 0x110, 1));
    assert!(t.observe_press(1100, 0x110, 1));
    assert!(!t.observe_press(1200, 0x110, 1));
}

#[test]
fn invalidate_clears_baseline() {
    let mut t = DoubleClickTracker::default();
    assert!(!t.observe_press(1000, 0x110, 1));
    t.invalidate();
    assert!(!t.observe_press(1100, 0x110, 1));
}

#[test]
fn time_wrap_is_tolerated() {
    let mut t = DoubleClickTracker::default();
    let t0 = u32::MAX - 50;
    let t1 = 100u32;
    assert!(!t.observe_press(t0, 0x110, 1));
    assert!(t.observe_press(t1, 0x110, 1));
}

#[test]
fn first_motion_seeds_baseline_without_resetting() {
    let mut t = DoubleClickTracker::default();
    assert!(!t.observe_press(1000, 0x110, 1));
    t.invalidate_on_motion(loc(100.0, 50.0), true);
    assert!(t.observe_press(1100, 0x110, 1));
}

fn can(keyboard: bool, pointer: bool, tablet_tool: bool) -> Capabilities {
    Capabilities { keyboard, pointer, tablet_tool }
}

#[test]
fn devices_bring_and_take_capabilities() {
    let mut devices = Devices::default();
    assert_eq!(
        devices.add_device("a", can(true, true, false), true),
        vec![DeviceCapability::Keyboard, DeviceCapability::Pointer]
    );
    assert_eq!(
        devices.add_device("b", can(false, true, true), true),
        vec![DeviceCapability::TabletTool]
    );
    assert_eq!(devices.keyboards, vec!["a"]);
    assert!(devices.has_device("b"));
    assert_eq!(devices.remove_device("a"), vec![DeviceCapability::Keyboard]);
    assert!(devices.keyboards.is_empty());
    assert!(devices.remove_device("a").is_empty());
    assert!(!devices.has_device("a"));
}

#[test]
fn a_seat_is_active_while_there_is_one() {
    let mut devices = Devices::default();
    devices.add_device("pad", can(false, true, false), false);
    let mut seats = Seats::new();
    seats.add_seat(Seat { id: 1, devices: Devices::default() });
    seats.add_seat(Seat { id: 2, devices });
    assert_eq!(seats.all(), vec![1, 2]);
    assert_eq!(seats.last_active(), 1);
    assert_eq!(seats.for_device("pad"), Some(2));
    assert_eq!(seats.for_device("none"), None);
    seats.remove_seat(1);
    assert_eq!(seats.last_active(), 2);
    seats.update_last_active(2);
    seats.remove_seat(2);
    assert_eq!(seats.last_active, None);
}

#[test]
fn the_focused_output_needs_a_focus() {
    let outputs = SeatOutputs { active: 7, focused: Some(8) };
    assert_eq!(outputs.focused_output(true), Some(8));
    assert_eq!(outputs.focused_output(false), None);
    assert_eq!(outputs.focused_or_active_output(true), 8);
    assert_eq!(outputs.focused_or_active_output(false), 7);
}

#[test]
fn the_cursor_has_a_picture_and_an_area() {
    let mut status = CursorImageStatus::Surface { surface: 3, alive: true };
    assert_eq!(cursor_image_status(&mut status), status);
    status = CursorImageStatus::Surface { surface: 3, alive: false };
    assert_eq!(cursor_image_status(&mut status), CursorImageStatus::Named(0));
    assert_eq!(status, CursorImageStatus::Named(0));
    assert_eq!(cursor_geometry(CursorPicture::Hidden, point(1, 2)), None);
    assert_eq!(
        cursor_geometry(
            CursorPicture::Frame { width: 24, height: 32, xhot: 3, yhot: 4 },
            point(1, 2)
        ),
        Some((rect(1, 2, 24, 32), point(3, 4)))
    );
}

fn magnifier(movement: ZoomMovement) -> ZoomState {
    ZoomState { seat: 9, show_overlay: true, increment: 50, movement }
}

#[test]
fn the_view_follows_the_pointer() {
    let output = rect(100, 0, 1000, 500);
    let mut zoom = magnifier(ZoomMovement::Continuously);
    assert_eq!(zoom.current_seat(), 9);
    let view = rect(100, 0, 500, 250);
    assert_eq!(
        zoom.update_focal_point(
            output,
            view,
            point(300, 40),
            point(290, 40),
            ZoomMovement::Continuously
        ),
        FocalUpdate { animate: false, target: FocalTarget::At(point(200, 40)) }
    );
    let centered = zoom.update_focal_point(
        output,
        view,
        point(600, 250),
        point(600, 250),
        ZoomMovement::Centered,
    );
    assert!(centered.animate, "another movement takes a while");
    assert_eq!(centered.target, FocalTarget::At(point(500, 250)));
    assert_eq!(zoom.movement, ZoomMovement::Centered);
}

#[test]
fn the_view_moves_at_its_edges() {
    let output = rect(0, 0, 1000, 500);
    let view = rect(0, 0, 500, 250);
    let edge = ZoomMovement::OnEdge;
    let mut zoom = magnifier(edge);
    assert_eq!(
        zoom.update_focal_point(output, view, point(10, 10), point(9, 10), edge),
        FocalUpdate { animate: false, target: FocalTarget::Stay }
    );
    assert_eq!(
        zoom.update_focal_point(output, view, point(503, 10), point(499, 9), edge),
        FocalUpdate { animate: false, target: FocalTarget::Shift { by: point(4, 1) } }
    );
    assert_eq!(
        zoom.update_focal_point(output, output, point(10, 10), point(9, 10), edge),
        FocalUpdate { animate: false, target: FocalTarget::Stay },
        "the whole output is in view"
    );
    let nothing = Rectangle { loc: point(5, 5), size: Size { w: 0, h: 0 } };
    let mut follower = zoom;
    let follows = follower.update_focal_point(
        nothing,
        nothing,
        point(10, 20),
        point(9, 10),
        ZoomMovement::Continuously,
    );
    assert_eq!(follows.target, FocalTarget::At(point(5, 15)), "an output without an area");
    let jump = zoom.update_focal_point(output, view, point(900, 400), point(900, 400), edge);
    assert!(jump.animate);
    assert_eq!(jump.target, FocalTarget::At(point(999, 499)));
}

#[test]
fn magnification_changes_over_a_while() {
    let at = FocalPoint { x: number(1.0), y: number(2.0) };
    let mut zoom = OutputZoomState::new(number(1.0), at);
    assert!(!zoom.is_animating());
    assert_eq!(zoom.animating_level(5), Animated::Still(number(1.0)));
    zoom.update(number(2.0), true, number(1.0), 100);
    assert!(zoom.is_animating());
    assert_eq!(
        zoom.animating_level(130),
        Animated::Moving { from: number(1.0), to: number(2.0), elapsed: 30 }
    );
    assert!(!zoom.refresh(150, 50));
    assert!(zoom.is_animating());
    assert!(!zoom.refresh(151, 50));
    assert!(!zoom.is_animating());
    zoom.update(number(1.0), false, number(2.0), 200);
    assert!(zoom.refresh(200, 50), "nothing is magnified any more");
    assert_eq!(zoom.current_level(), number(1.0));
    assert_eq!(zoom.current_focal_point(), at);
    assert_eq!(zoom.animating_focal_point(0, 50), Animated::Still(at));
}

#[test]
fn menus_go_to_either_side_of_the_position() {
    let size = Size { w: 40, h: 30 };
    let at = point(100, 200);
    assert_eq!(
        MenuAlignment::corner().rectangles(at, size),
        vec![
            rect(100, 200, 40, 30),
            rect(60, 200, 40, 30),
            rect(100, 170, 40, 30),
            rect(60, 170, 40, 30),
        ]
    );
    assert_eq!(MenuAlignment::centered().rectangles(at, size), vec![rect(80, 185, 40, 30)]);
    assert_eq!(
        MenuAlignment::horizontally_centered(5, true).rectangles(at, size),
        vec![rect(80, 205, 40, 30), rect(80, 165, 40, 30)]
    );
    assert_eq!(
        MenuAlignment::vertically_centered(5, true).rectangles(at, size),
        vec![rect(105, 185, 40, 30), rect(55, 185, 40, 30)]
    );
    assert_eq!(
        MenuAlignment::centered_horizontally(),
        MenuAlignment::horizontally_centered(0, true)
    );
    assert_eq!(
        MenuAlignment::centered_horizontally().rectangles(at, size)[0],
        rect(80, 200, 40, 30)
    );
    assert_eq!(MenuAlignment::centered_vertically(), MenuAlignment::vertically_centered(0, true));
    assert_eq!(
        MenuAlignment::centered_vertically().rectangles(at, size)[0],
        rect(100, 185, 40, 30)
    );
    let preferred = MenuAlignment::prefer_centered().rectangles(at, size);
    assert_eq!(preferred.len(), 1 + 2 + 2 + 4);
    assert_eq!(preferred[0], rect(80, 185, 40, 30));
    assert_eq!(MenuAlignment::vertically_centered(0, false).y, AxisAlignment::PreferCentered);
}

#[test]
fn menu_entries_are_built_step_by_step() {
    let item = Item::new("Close".into())
        .shortcut(Some("Super+Q".into()))
        .toggled(true)
        .disabled(true)
        .action(WindowAction::Close);
    assert_eq!(
        item,
        Item::Entry {
            title: "Close".into(),
            shortcut: Some("Super+Q".into()),
            toggled: true,
            submenu: false,
            disabled: true,
            action: Some(WindowAction::Close),
        }
    );
    assert_eq!(Item::Separator.toggled(true), Item::Separator);
    assert_eq!(
        Item::new_submenu("More".into(), vec![Item::Separator]),
        Item::Submenu { name: "More".into(), items: vec![Item::Separator] }
    );
}

#[test]
fn a_grab_without_a_shell_ends() {
    let grab = |shell_focus| MenuGrab { start: GrabStart::Touch, shell_focus };
    assert_eq!(grab(None).button(), GrabButton::Release);
    assert_eq!(grab(Some(3)).button(), GrabButton::Forward);
    assert!(grab(None).is_touch_grab());
    assert!(!MenuGrab { start: GrabStart::Pointer, shell_focus: None }.is_touch_grab());
    assert!(MenuGrabState::new(true, 4, Some(2)).is_in_screen_space());
    assert!(!MenuGrabState::new(false, 4, None).is_in_screen_space());
}

#[test]
fn marks_of_windows_are_drawn_by_the_shell() {
    let shortcut = |pattern: &str, resizing| ResizeShortcut { pattern: pattern.into(), resizing };
    let shortcuts = vec![
        shortcut("Super+A", None),
        shortcut("Super+R", Some(ResizeDirection::Outwards)),
        shortcut("Super+X", Some(ResizeDirection::Outwards)),
    ];
    let mark = resize_indicator(ResizeDirection::Inwards, &shortcuts, "unknown");
    assert_eq!(mark.shortcut1, "Super+R: ");
    assert_eq!(mark.shortcut2, "unknown");
    assert!(mark.edges.top && mark.edges.left);
    assert_eq!(mark.current_size(), Size { w: 0, h: 0 });
    assert_eq!(mark.bbox(), rect(0, 0, 0, 0));
    let mut swap = swap_indicator();
    assert_eq!(swap.current_size(), Size { w: 1, h: 1 });
    swap.resize(Size { w: 8, h: 9 });
    assert_eq!(swap.bbox(), rect(0, 0, 8, 9));
    assert_eq!(stack_hover(Size { w: 8, h: 9 }).size, Size { w: 8, h: 9 });
}
