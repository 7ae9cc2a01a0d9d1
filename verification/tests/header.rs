//! Drawn window headers: where their buttons are, how they look, and when they are drawn anew.

use lunaris_compositor::backend::render::window_header::{
    bump_theme_generation, button_visual, icon_parts, icon_point, icon_size, layout_buttons,
    lucide_stroke_width, rgba_to_bgra_inplace, theme_generation, ButtonInteraction, ButtonRect,
    ButtonVisibility, HalfPixels, HeaderButton, HeaderVisualState, IconPart, ThemeGeneration,
    BUTTON_IDLE_OPACITY, BUTTON_IDLE_OPACITY_INACTIVE, HEADER_LOGICAL_HEIGHT, ICON_SIZE_CLOSE,
    ICON_SIZE_MINUS, ICON_SIZE_SQUARE, LUCIDE_VIEWBOX,
};
use lunaris_compositor::number::Float64;
use lunaris_compositor::theme::{LunarisTheme, Rgba};

fn dark() -> LunarisTheme {
    LunarisTheme::lunaris_dark(
        Rgba { r: 0x63, g: 0x66, b: 0xf1, a: 255 },
        Rgba { r: 0xef, g: 0x44, b: 0x44, a: 255 },
        Rgba { r: 0x27, g: 0x27, b: 0x2a, a: 255 },
        2,
    )
}

fn stub_state(width: i32, activated: bool) -> HeaderVisualState {
    HeaderVisualState {
        width,
        activated,
        title: "Test Window".to_owned(),
        buttons: ButtonVisibility::default(),
        interaction: ButtonInteraction::Idle,
        scale: Float64 { bits: 1.0f64.to_bits() },
        focused_button: None,
        theme_generation: 0,
    }
}

fn at(x: f64, y: f64) -> HalfPixels {
    HalfPixels {
        x_floor: (2.0 * x).floor() as i32,
        x_ceil: (2.0 * x).ceil() as i32,
        y_floor: (2.0 * y).floor() as i32,
        y_ceil: (2.0 * y).ceil() as i32,
    }
}

#[test]
fn button_layout_right_aligns_from_width() {
    let state = stub_state(1000, true);
    let buttons = layout_buttons(&state);
    assert_eq!(buttons.len(), 3);
    assert_eq!(buttons[0].button, HeaderButton::Minimize);
    assert_eq!(buttons[1].button, HeaderButton::Maximize);
    assert_eq!(buttons[2].button, HeaderButton::Close);
    assert!(buttons[2].center_x > buttons[1].center_x);
    assert!(buttons[1].center_x > buttons[0].center_x);
}

#[test]
fn button_layout_omits_hidden_buttons() {
    let mut state = stub_state(1000, true);
    state.buttons.has_minimize = false;
    state.buttons.has_maximize = true;
    let buttons = layout_buttons(&state);
    assert_eq!(buttons.len(), 2);
    assert_eq!(buttons[0].button, HeaderButton::Maximize);
    assert_eq!(buttons[1].button, HeaderButton::Close);
}

#[test]
fn button_layout_centres_buttons_vertically() {
    let state = stub_state(800, true);
    let buttons = layout_buttons(&state);
    for b in &buttons {
        assert!((b.center_y as f32 - HEADER_LOGICAL_HEIGHT as f32 / 2.0).abs() < 0.5);
    }
}

#[test]
fn button_hit_test_respects_asymmetric_width_height() {
    let b = ButtonRect {
        button: HeaderButton::Close,
        center_x: 100,
        center_y: 18,
        width: 28,
        height: 22,
    };
    assert!(b.hit_test(at(100.0, 18.0)), "centre hit");
    assert!(b.hit_test(at(86.0, 18.0)), "left edge X");
    assert!(!b.hit_test(at(85.0, 18.0)), "outside left");
    assert!(b.hit_test(at(100.0, 7.0)), "top edge Y");
    assert!(!b.hit_test(at(100.0, 6.0)), "outside top");
    assert!(b.hit_test(at(100.0, 29.0)), "bottom edge Y");
    assert!(!b.hit_test(at(100.0, 30.0)), "outside bottom");
}

#[test]
fn a_fraction_outside_a_button_misses_it() {
    let b = ButtonRect {
        button: HeaderButton::Close,
        center_x: 100,
        center_y: 18,
        width: 28,
        height: 22,
    };
    assert!(b.hit_test(at(86.25, 18.5)));
    assert!(!b.hit_test(at(85.75, 18.0)));
    assert!(!b.hit_test(at(114.25, 18.0)));
    assert!(!b.hit_test(at(100.0, 29.25)));
    let odd = ButtonRect { width: 27, height: 21, ..b };
    assert!(odd.hit_test(at(86.75, 18.0)) && odd.hit_test(at(86.5, 28.5)));
    assert!(!odd.hit_test(at(86.25, 18.0)) && !odd.hit_test(at(100.0, 28.75)));
}

#[test]
fn button_visual_close_hover_is_full_destructive() {
    let state = HeaderVisualState {
        interaction: ButtonInteraction::Hover(HeaderButton::Close),
        ..stub_state(800, true)
    };
    let theme = dark();
    let v = button_visual(HeaderButton::Close, &state, &theme);
    assert_eq!(v.background.color, theme.error);
    assert_eq!(v.background.opacity, 100);
    assert_eq!(v.icon.color, Rgba { r: 255, g: 255, b: 255, a: 255 });
    assert_eq!(v.icon.opacity, 100);
    assert_eq!(v.scale, 100, "no hover scale");
}

#[test]
fn button_visual_close_hover_is_full_destructive_even_inactive_dimmed() {
    let state = HeaderVisualState {
        interaction: ButtonInteraction::Hover(HeaderButton::Close),
        ..stub_state(800, false)
    };
    let theme = dark();
    let v = button_visual(HeaderButton::Close, &state, &theme);
    assert_eq!(v.background.color, theme.error);
    assert_eq!(v.background.opacity, BUTTON_IDLE_OPACITY);
    assert_eq!(v.icon.color.r, 255);
    assert_eq!(v.icon.opacity, BUTTON_IDLE_OPACITY);
}

#[test]
fn button_visual_no_scale_animation() {
    let theme = dark();

    let idle = stub_state(800, true);
    assert_eq!(button_visual(HeaderButton::Minimize, &idle, &theme).scale, 100);

    let hover = HeaderVisualState {
        interaction: ButtonInteraction::Hover(HeaderButton::Minimize),
        ..idle.clone()
    };
    assert_eq!(button_visual(HeaderButton::Minimize, &hover, &theme).scale, 100);

    let pressed = HeaderVisualState {
        interaction: ButtonInteraction::Pressed(HeaderButton::Minimize),
        ..idle
    };
    assert_eq!(button_visual(HeaderButton::Minimize, &pressed, &theme).scale, 100);
}

#[test]
fn button_visual_no_hover_bg_for_non_close() {
    let theme = dark();
    let hover = HeaderVisualState {
        interaction: ButtonInteraction::Hover(HeaderButton::Minimize),
        ..stub_state(800, true)
    };
    let v = button_visual(HeaderButton::Minimize, &hover, &theme);
    assert_eq!(v.background.color.a, 0, "non-close hover should not paint bg");
}

#[test]
fn button_visual_idle_is_transparent() {
    let state = stub_state(800, true);
    let theme = dark();
    let v = button_visual(HeaderButton::Minimize, &state, &theme);
    assert_eq!(v.background.color.a, 0);
    assert_eq!(v.scale, 100);
}

#[test]
fn visual_state_eq_requires_exact_match() {
    let a = stub_state(800, true);
    let b = a.clone();
    assert!(a.looks_like(&b, true));

    let mut c = a.clone();
    c.activated = false;
    assert!(!a.looks_like(&c, true));

    let mut d = a.clone();
    d.title = "Other Window".into();
    assert!(a.looks_like(&d, true), "title change must not invalidate the cache");

    let mut e = a.clone();
    e.interaction = ButtonInteraction::Hover(HeaderButton::Close);
    assert!(!a.looks_like(&e, true));

    assert!(!a.looks_like(&b, false));
}

#[test]
fn rgba_to_bgra_swaps_first_and_third_channel() {
    let mut data = vec![1u8, 2, 3, 4, 5, 6, 7, 8];
    rgba_to_bgra_inplace(&mut data);
    assert_eq!(data, vec![3u8, 2, 1, 4, 7, 6, 5, 8]);
}

#[test]
fn exchanging_channels_twice_restores_them() {
    let before: Vec<u8> = (0..22).collect();
    let mut data = before.clone();
    rgba_to_bgra_inplace(&mut data);
    assert_ne!(data, before);
    assert_eq!(data[20..], before[20..], "an unfinished pixel stays");
    rgba_to_bgra_inplace(&mut data);
    assert_eq!(data, before);
}

#[test]
fn lucide_stroke_width_scales_with_icon_size() {
    assert!((lucide_stroke_width(12) as f32 / 24.0 - 1.0).abs() < 1e-5);
    assert!((lucide_stroke_width(24) as f32 / 24.0 - 2.0).abs() < 1e-5);
    assert!((lucide_stroke_width(10) as f32 / 24.0 - 10.0 / 12.0).abs() < 1e-5);
}

#[test]
fn lucide_minus_line_length_matches_svg_path() {
    let vb_span = 19.0 - 5.0;
    let phys = ICON_SIZE_MINUS as f32 * vb_span / LUCIDE_VIEWBOX as f32;
    assert!((phys - 7.0).abs() < 1e-5, "minus line should be 7px at icon_size=12, got {phys}");
    assert_eq!(
        icon_parts(HeaderButton::Minimize),
        vec![IconPart::Line { x1: 5, y1: 12, x2: 19, y2: 12 }]
    );
}

#[test]
fn lucide_square_rect_fills_18_of_24() {
    let rect = ICON_SIZE_SQUARE as f32 * 18.0 / LUCIDE_VIEWBOX as f32;
    let rx = ICON_SIZE_SQUARE as f32 * 2.0 / LUCIDE_VIEWBOX as f32;
    assert!((rect - 7.5).abs() < 1e-5, "square rect size {rect}");
    assert!((rx - 10.0 / 12.0).abs() < 1e-5, "square rx {rx}");
    assert_eq!(
        icon_parts(HeaderButton::Maximize),
        vec![IconPart::RoundedSquare { x: 3, y: 3, side: 18, corner: 2 }]
    );
}

#[test]
fn lucide_x_diagonals_span_12_of_24() {
    let extent_per_axis = ICON_SIZE_CLOSE as f32 * 12.0 / LUCIDE_VIEWBOX as f32;
    assert!((extent_per_axis - 6.0).abs() < 1e-5, "X diagonal axis extent {extent_per_axis}");
    let offset_from_centre = extent_per_axis * 0.5;
    assert!((offset_from_centre - 3.0).abs() < 1e-5);

    let rect = layout_buttons(&stub_state(1000, true))[2];
    let (x1, y1) = icon_point(&rect, 6, 6);
    let (x2, y2) = icon_point(&rect, 18, 18);
    assert_eq!((x2 - x1, y2 - y1), (6 * 24, 6 * 24));
    assert_eq!((x1 + x2) / 2, 24 * rect.center_x as i64);
    assert_eq!((y1 + y2) / 2, 24 * rect.center_y as i64);
}

#[test]
fn rasterize_picks_theme_error_for_close_hover_full_opacity() {
    let state = HeaderVisualState {
        interaction: ButtonInteraction::Hover(HeaderButton::Close),
        ..stub_state(600, true)
    };
    let theme = dark();
    let v = button_visual(HeaderButton::Close, &state, &theme);
    assert_eq!(v.background.color.r, theme.error.r, "close hover R should match theme.error");
    assert_eq!(v.background.color.g, theme.error.g);
    assert_eq!(v.background.color.b, theme.error.b);
}

#[test]
fn button_opacity_matches_windowcontrols_values() {
    let theme = dark();

    let idle = button_visual(HeaderButton::Minimize, &stub_state(600, true), &theme);
    assert_eq!(idle.icon.opacity, BUTTON_IDLE_OPACITY);
    assert_eq!(idle.icon.color.r, theme.fg_primary.r);

    let hover_state = HeaderVisualState {
        interaction: ButtonInteraction::Hover(HeaderButton::Minimize),
        ..stub_state(600, true)
    };
    let hover = button_visual(HeaderButton::Minimize, &hover_state, &theme);
    assert_eq!(hover.icon.opacity, 100, "activated hover should be 1.0 opacity");

    let inactive = button_visual(HeaderButton::Minimize, &stub_state(600, false), &theme);
    assert_eq!(inactive.icon.opacity, BUTTON_IDLE_OPACITY_INACTIVE);

    let inactive_hover = HeaderVisualState {
        interaction: ButtonInteraction::Hover(HeaderButton::Minimize),
        ..stub_state(600, false)
    };
    let v = button_visual(HeaderButton::Minimize, &inactive_hover, &theme);
    assert_eq!(v.icon.opacity, BUTTON_IDLE_OPACITY);
    assert_eq!((BUTTON_IDLE_OPACITY, BUTTON_IDLE_OPACITY_INACTIVE), (70, 40));
}

#[test]
fn rasterize_reads_theme_bg_shell_not_bg_app() {
    let dark = dark();
    assert_ne!(
        dark.bg_shell, dark.bg_app,
        "dark theme should have distinct shell-chrome vs app-content backgrounds"
    );
    assert_eq!(dark.bg_shell, Rgba { r: 0x0a, g: 0x0a, b: 0x0a, a: 255 });
    assert_eq!(dark.bg_app, Rgba { r: 0x0f, g: 0x0f, b: 0x0f, a: 255 });
}

#[test]
fn buttons_stand_side_by_side_at_the_right_end() {
    let buttons = layout_buttons(&stub_state(1000, true));
    let centers: Vec<i32> = buttons.iter().map(|b| b.center_x).collect();
    assert_eq!(centers, vec![920, 950, 980]);
    assert!(buttons.iter().all(|b| (b.center_y, b.width, b.height) == (18, 28, 22)));

    let mut state = stub_state(1000, true);
    state.buttons = ButtonVisibility { has_minimize: true, has_maximize: false };
    let centers: Vec<i32> = layout_buttons(&state).iter().map(|b| b.center_x).collect();
    assert_eq!(centers, vec![950, 980]);
    state.buttons = ButtonVisibility { has_minimize: false, has_maximize: false };
    assert_eq!(layout_buttons(&state).len(), 1);
}

#[test]
fn narrow_headers_are_drawn_with_a_least_width() {
    assert_eq!(stub_state(10, true).raster_width(), 60);
    assert_eq!(stub_state(60, true).raster_width(), 60);
    assert_eq!(stub_state(61, true).raster_width(), 61);
}

#[test]
fn a_new_theme_is_drawn_anew() {
    let mut generation = ThemeGeneration::default();
    let mut a = stub_state(800, true);
    a.theme_generation = theme_generation(&generation);
    bump_theme_generation(&mut generation);
    let mut b = a.clone();
    b.theme_generation = theme_generation(&generation);
    assert!(!a.looks_like(&b, true));
    let mut last = ThemeGeneration { current: u64::MAX };
    bump_theme_generation(&mut last);
    assert_eq!(theme_generation(&last), 0);
}

#[test]
fn icons_have_their_own_sizes() {
    assert_eq!(icon_size(HeaderButton::Minimize), 12);
    assert_eq!(icon_size(HeaderButton::Maximize), 10);
    assert_eq!(icon_size(HeaderButton::Close), 12);
    assert_eq!(icon_parts(HeaderButton::Close).len(), 2);
}
