//! The header that the compositor draws above windows.

use crate::number::Float64;
use crate::theme::{LunarisTheme, Rgba};
use vstd::prelude::*;

verus! {

/// The height of a header.
pub const HEADER_LOGICAL_HEIGHT: i32 = 36;

/// The width of a button.
pub const BUTTON_LOGICAL_WIDTH: i32 = 28;

/// The height of a button.
pub const BUTTON_LOGICAL_HEIGHT: i32 = 22;

/// The gap between buttons.
pub const BUTTON_GAP: i32 = 2;

/// The gap between the buttons and the right end of the header.
pub const BUTTON_STRIP_RIGHT_PAD: i32 = 6;

/// The opacity of a button, in percent.
pub const BUTTON_IDLE_OPACITY: u8 = 70;

/// The opacity of a button of a window without the focus, in percent.
pub const BUTTON_IDLE_OPACITY_INACTIVE: u8 = 40;

/// The width and height of the grid that icons are drawn on.
pub const LUCIDE_VIEWBOX: i32 = 24;

/// The width of the strokes of icons, on their grid.
pub const LUCIDE_STROKE_UNITS: i32 = 2;

/// The size of the icon that minimises.
pub const ICON_SIZE_MINUS: i32 = 12;

/// The size of the icon that maximises.
pub const ICON_SIZE_SQUARE: i32 = 10;

/// The size of the icon that closes.
pub const ICON_SIZE_CLOSE: i32 = 12;

/// The smallest width that a header is drawn with.
pub const MIN_RASTER_WIDTH: i32 = 60;

/// The largest width of a header whose buttons can be laid out without rounding: the largest
/// number up to which single precision holds all integers.
pub const MAX_EXACT_WIDTH: i32 = 0x100_0000;

/// The width of the strokes of an icon of the given size, in twenty-fourths of a pixel.
pub fn lucide_stroke_width(icon_size: i32) -> (r: i32)
    requires
        i32::MIN <= icon_size * LUCIDE_STROKE_UNITS <= i32::MAX,
    ensures
        r == icon_size * LUCIDE_STROKE_UNITS,
{
    icon_size * LUCIDE_STROKE_UNITS
}

/// The buttons of a header, from left to right.
#[derive(Clone, Copy, Debug, PartialEq, Eq, Hash, Structural)]
pub enum HeaderButton {
    Minimize,
    Maximize,
    Close,
}

/// What the pointer does with the buttons of a header.
#[derive(Clone, Copy, Debug, PartialEq, Eq, Hash, Structural)]
pub enum ButtonInteraction {
    /// It is over none of them.
    Idle,
    /// It is over a button.
    Hover(HeaderButton),
    /// It is over a button and presses it.
    Pressed(HeaderButton),
}

impl Default for ButtonInteraction {
    /// Nothing.
    fn default() -> (r: Self)
        ensures
            r == ButtonInteraction::Idle,
    {
        ButtonInteraction::Idle
    }
}

/// Which buttons a header has besides the one that closes.
#[derive(Clone, Copy, Debug, PartialEq, Eq, Hash, Structural)]
pub struct ButtonVisibility {
    pub has_minimize: bool,
    pub has_maximize: bool,
}

impl Default for ButtonVisibility {
    /// All of them.
    fn default() -> (r: Self)
        ensures
            r == (ButtonVisibility { has_minimize: true, has_maximize: true }),
    {
        ButtonVisibility { has_minimize: true, has_maximize: true }
    }
}

/// All that decides how a header looks.
#[derive(Debug)]
pub struct HeaderVisualState {
    /// The width of the window.
    pub width: i32,
    /// Whether the window has the focus.
    pub activated: bool,
    /// The title of the window, which is not drawn.
    pub title: String,
    pub buttons: ButtonVisibility,
    pub interaction: ButtonInteraction,
    /// The scale of the output.
    pub scale: Float64,
    /// The button that has the focus of the keyboard.
    pub focused_button: Option<HeaderButton>,
    /// The generation of the theme that the header is drawn with.
    pub theme_generation: u64,
}

impl Clone for HeaderVisualState {
    fn clone(&self) -> (r: Self)
        ensures
            r == *self,
    {
        HeaderVisualState {
            width: self.width,
            activated: self.activated,
            title: self.title.clone(),
            buttons: self.buttons,
            interaction: self.interaction,
            scale: self.scale,
            focused_button: self.focused_button,
            theme_generation: self.theme_generation,
        }
    }
}

impl HeaderVisualState {
    /// Whether two states look the same on outputs of the same scale: all but the title, which
    /// is not drawn, agrees.
    pub open spec fn alike(self, other: Self) -> bool {
        &&& self.width == other.width
        &&& self.activated == other.activated
        &&& self.buttons == other.buttons
        &&& self.interaction == other.interaction
        &&& self.focused_button == other.focused_button
        &&& self.theme_generation == other.theme_generation
    }

    /// Whether what was drawn for one state can be shown for another; `same_scale` says whether
    /// their scales are equal, up to rounding.
    pub fn looks_like(&self, other: &Self, same_scale: bool) -> (r: bool)
        ensures
            r == (self.alike(*other) && same_scale),
    {
        self.width == other.width && self.activated == other.activated && self.buttons
            == other.buttons && self.interaction == other.interaction && same_scale
            && self.focused_button == other.focused_button && self.theme_generation
            == other.theme_generation
    }

    /// The width that the header is drawn with.
    pub fn raster_width(&self) -> (r: i32)
        ensures
            r == if self.width < MIN_RASTER_WIDTH {
                MIN_RASTER_WIDTH
            } else {
                self.width
            },
    {
        if self.width < MIN_RASTER_WIDTH {
            MIN_RASTER_WIDTH
        } else {
            self.width
        }
    }
}

/// A position, counted in halves of pixels and rounded down and up: the ends of a button with an
/// odd width or height are in the middle of pixels.
#[derive(Clone, Copy, Debug, PartialEq, Eq, Structural)]
pub struct HalfPixels {
    pub x_floor: i32,
    pub x_ceil: i32,
    pub y_floor: i32,
    pub y_ceil: i32,
}

/// Where a button is in a header.
#[derive(Clone, Copy, Debug, PartialEq, Eq, Structural)]
pub struct ButtonRect {
    pub button: HeaderButton,
    pub center_x: i32,
    pub center_y: i32,
    pub width: i32,
    pub height: i32,
}

impl ButtonRect {
    /// The left end.
    pub open spec fn left(self) -> int {
        self.center_x - self.width / 2
    }

    /// The right end.
    pub open spec fn right(self) -> int {
        self.center_x + self.width / 2
    }

    /// The top.
    pub open spec fn top(self) -> int {
        self.center_y - self.height / 2
    }

    /// The bottom.
    pub open spec fn bottom(self) -> int {
        self.center_y + self.height / 2
    }

    /// Whether a position is on the button; its ends belong to it.
    pub fn hit_test(&self, at: HalfPixels) -> (r: bool)
        ensures
            r == (2 * self.center_x - self.width <= at.x_floor && at.x_ceil <= 2 * self.center_x
                + self.width && 2 * self.center_y - self.height <= at.y_floor && at.y_ceil <= 2
                * self.center_y + self.height),
    {
        let w: i64 = self.width as i64;
        let h: i64 = self.height as i64;
        let x: i64 = 2 * self.center_x as i64;
        let y: i64 = 2 * self.center_y as i64;
        at.x_floor as i64 >= x - w && at.x_ceil as i64 <= x + w && at.y_floor as i64 >= y - h
            && at.y_ceil as i64 <= y + h
    }
}

/// The buttons that a header has, from left to right.
pub open spec fn shown_buttons(buttons: ButtonVisibility) -> Seq<HeaderButton> {
    let minimize = if buttons.has_minimize {
        seq![HeaderButton::Minimize]
    } else {
        seq![]
    };
    let maximize = if buttons.has_maximize {
        seq![HeaderButton::Maximize]
    } else {
        seq![]
    };
    minimize + maximize + seq![HeaderButton::Close]
}

/// Where the buttons of a header of the given width are: in the middle of its height, with the
/// last one at the right end.
pub open spec fn button_layout(width: int, buttons: ButtonVisibility) -> Seq<ButtonRect> {
    let shown = shown_buttons(buttons);
    Seq::new(
        shown.len(),
        |i: int|
            ButtonRect {
                button: shown[i],
                center_x: (width - BUTTON_STRIP_RIGHT_PAD - BUTTON_LOGICAL_WIDTH / 2 - (shown.len()
                    - 1 - i) * (BUTTON_LOGICAL_WIDTH + BUTTON_GAP)) as i32,
                center_y: (HEADER_LOGICAL_HEIGHT / 2) as i32,
                width: BUTTON_LOGICAL_WIDTH,
                height: BUTTON_LOGICAL_HEIGHT,
            },
    )
}

/// A button whose right end is at the given position.
fn button_ending_at(button: HeaderButton, right: i32) -> (r: ButtonRect)
    requires
        right >= i32::MIN + 14,
    ensures
        r == (ButtonRect {
            button,
            center_x: (right - 14) as i32,
            center_y: 18,
            width: BUTTON_LOGICAL_WIDTH,
            height: BUTTON_LOGICAL_HEIGHT,
        }),
{
    ButtonRect {
        button,
        center_x: right - BUTTON_LOGICAL_WIDTH / 2,
        center_y: HEADER_LOGICAL_HEIGHT / 2,
        width: BUTTON_LOGICAL_WIDTH,
        height: BUTTON_LOGICAL_HEIGHT,
    }
}

/// Where the buttons of a header are, from left to right.
pub fn layout_buttons(state: &HeaderVisualState) -> (r: Vec<ButtonRect>)
    requires
        -MAX_EXACT_WIDTH <= state.width <= MAX_EXACT_WIDTH,
    ensures
        r@ == button_layout(state.width as int, state.buttons),
{
    let last: i32 = state.width - BUTTON_STRIP_RIGHT_PAD;
    let step: i32 = BUTTON_LOGICAL_WIDTH + BUTTON_GAP;
    let mut out: Vec<ButtonRect> = Vec::new();
    if state.buttons.has_minimize {
        let right: i32 = if state.buttons.has_maximize {
            last - 2 * step
        } else {
            last - step
        };
        out.push(button_ending_at(HeaderButton::Minimize, right));
    }
    if state.buttons.has_maximize {
        out.push(button_ending_at(HeaderButton::Maximize, last - step));
    }
    out.push(button_ending_at(HeaderButton::Close, last));
    assert(out@ =~= button_layout(state.width as int, state.buttons));
    out
}

/// A colour that is drawn with an opacity, in percent.
#[derive(Clone, Copy, Debug, PartialEq, Eq, Structural)]
pub struct Tint {
    pub color: Rgba,
    pub opacity: u8,
}

/// How a button is drawn.
#[derive(Clone, Copy, Debug, PartialEq, Eq, Structural)]
pub struct ButtonVisual {
    pub background: Tint,
    pub icon: Tint,
    /// Its size, in percent.
    pub scale: u8,
}

/// Whether the pointer is over a button, pressing it or not.
pub open spec fn hovered(button: HeaderButton, interaction: ButtonInteraction) -> bool {
    match interaction {
        ButtonInteraction::Hover(b) => b == button,
        ButtonInteraction::Pressed(b) => b == button,
        ButtonInteraction::Idle => false,
    }
}

/// The opacity of a button: full under the pointer, and lower when the window does not have the
/// focus.
pub open spec fn button_opacity(hovered: bool, activated: bool) -> u8 {
    if hovered && activated {
        100
    } else if hovered || activated {
        BUTTON_IDLE_OPACITY
    } else {
        BUTTON_IDLE_OPACITY_INACTIVE
    }
}

/// How a button is drawn: only the one that closes has a background, the colour of errors with a
/// white icon, and only under the pointer.
pub fn button_visual(button: HeaderButton, state: &HeaderVisualState, theme: &LunarisTheme) -> (r:
    ButtonVisual)
    ensures
        ({
            let over = hovered(button, state.interaction);
            let opacity = button_opacity(over, state.activated);
            let closing = over && button == HeaderButton::Close;
            &&& r.background == (Tint {
                color: if closing {
                    theme.error
                } else {
                    Rgba { r: 0, g: 0, b: 0, a: 0 }
                },
                opacity,
            })
            &&& r.icon == (Tint {
                color: if closing {
                    Rgba { r: 255, g: 255, b: 255, a: 255 }
                } else {
                    theme.fg_primary
                },
                opacity,
            })
            &&& r.scale == 100
        }),
{
    let over: bool = match state.interaction {
        ButtonInteraction::Hover(b) => b == button,
        ButtonInteraction::Pressed(b) => b == button,
        ButtonInteraction::Idle => false,
    };
    let opacity: u8 = if over {
        if state.activated {
            100
        } else {
            BUTTON_IDLE_OPACITY
        }
    } else if state.activated {
        BUTTON_IDLE_OPACITY
    } else {
        BUTTON_IDLE_OPACITY_INACTIVE
    };
    let closing: bool = over && button == HeaderButton::Close;
    let background: Rgba = if closing {
        theme.error
    } else {
        Rgba { r: 0, g: 0, b: 0, a: 0 }
    };
    let icon: Rgba = if closing {
        Rgba { r: 255, g: 255, b: 255, a: 255 }
    } else {
        theme.fg_primary
    };
    ButtonVisual {
        background: Tint { color: background, opacity },
        icon: Tint { color: icon, opacity },
        scale: 100,
    }
}

/// A part of an icon, on the grid of icons.
#[derive(Clone, Copy, Debug, PartialEq, Eq, Structural)]
pub enum IconPart {
    /// A line from one point to another.
    Line { x1: i32, y1: i32, x2: i32, y2: i32 },
    /// The outline of a square with rounded corners.
    RoundedSquare { x: i32, y: i32, side: i32, corner: i32 },
}

/// The size of the icon of a button.
pub open spec fn icon_size_of(button: HeaderButton) -> i32 {
    match button {
        HeaderButton::Minimize => ICON_SIZE_MINUS,
        HeaderButton::Maximize => ICON_SIZE_SQUARE,
        HeaderButton::Close => ICON_SIZE_CLOSE,
    }
}

/// The size of the icon of a button.
pub fn icon_size(button: HeaderButton) -> (r: i32)
    ensures
        r == icon_size_of(button),
{
    match button {
        HeaderButton::Minimize => ICON_SIZE_MINUS,
        HeaderButton::Maximize => ICON_SIZE_SQUARE,
        HeaderButton::Close => ICON_SIZE_CLOSE,
    }
}

/// The parts of the icon of a button: a line, a square, or two lines that cross.
pub open spec fn icon_of(button: HeaderButton) -> Seq<IconPart> {
    match button {
        HeaderButton::Minimize => seq![IconPart::Line { x1: 5, y1: 12, x2: 19, y2: 12 }],
        HeaderButton::Maximize => seq![
            IconPart::RoundedSquare { x: 3, y: 3, side: 18, corner: 2 },
        ],
        HeaderButton::Close => seq![
            IconPart::Line { x1: 18, y1: 6, x2: 6, y2: 18 },
            IconPart::Line { x1: 6, y1: 6, x2: 18, y2: 18 },
        ],
    }
}

/// The parts of the icon of a button.
pub fn icon_parts(button: HeaderButton) -> (r: Vec<IconPart>)
    ensures
        r@ == icon_of(button),
{
    let mut out: Vec<IconPart> = Vec::new();
    match button {
        HeaderButton::Minimize => {
            out.push(IconPart::Line { x1: 5, y1: 12, x2: 19, y2: 12 });
        },
        HeaderButton::Maximize => {
            out.push(IconPart::RoundedSquare { x: 3, y: 3, side: 18, corner: 2 });
        },
        HeaderButton::Close => {
            out.push(IconPart::Line { x1: 18, y1: 6, x2: 6, y2: 18 });
            out.push(IconPart::Line { x1: 6, y1: 6, x2: 18, y2: 18 });
        },
    }
    assert(out@ =~= icon_of(button));
    out
}

/// Where a coordinate of the grid of icons is drawn, in twenty-fourths of a pixel: the middle of
/// the grid is at the middle of the button.
pub open spec fn drawn_at(center: int, size: int, coordinate: int) -> int {
    LUCIDE_VIEWBOX * center + (coordinate - LUCIDE_VIEWBOX / 2) * size
}

/// Where a point of the grid of icons is drawn for a button, in twenty-fourths of a pixel.
pub fn icon_point(rect: &ButtonRect, x: i32, y: i32) -> (r: (i64, i64))
    requires
        0 <= x <= LUCIDE_VIEWBOX,
        0 <= y <= LUCIDE_VIEWBOX,
    ensures
        r.0 == drawn_at(rect.center_x as int, icon_size_of(rect.button) as int, x as int),
        r.1 == drawn_at(rect.center_y as int, icon_size_of(rect.button) as int, y as int),
{
    let size: i64 = icon_size(rect.button) as i64;
    let dx: i64 = x as i64 - 12;
    let dy: i64 = y as i64 - 12;
    assert(-12 * 12 <= dx * size <= 12 * 12) by (nonlinear_arith)
        requires
            -12 <= dx <= 12,
            0 <= size <= 12,
    ;
    assert(-12 * 12 <= dy * size <= 12 * 12) by (nonlinear_arith)
        requires
            -12 <= dy <= 12,
            0 <= size <= 12,
    ;
    (24 * rect.center_x as i64 + dx * size, 24 * rect.center_y as i64 + dy * size)
}

/// The pixels with the first and third of each four bytes exchanged; a rest of fewer than four
/// stays.
pub open spec fn exchanged(data: Seq<u8>) -> Seq<u8> {
    Seq::new(
        data.len(),
        |i: int|
            if i / 4 * 4 + 4 > data.len() {
                data[i]
            } else if i % 4 == 0 {
                data[i + 2]
            } else if i % 4 == 2 {
                data[i - 2]
            } else {
                data[i]
            },
    )
}

/// Turns pixels in the order red, green, blue, alpha into pixels in the order blue, green, red,
/// alpha.
pub fn rgba_to_bgra_inplace(data: &mut Vec<u8>)
    ensures
        final(data)@ == exchanged(old(data)@),
{
    let ghost before = data@;
    let n: usize = data.len() / 4;
    let mut i: usize = 0;
    while i < n
        invariant
            n == before.len() / 4,
            before.len() <= usize::MAX,
            i <= n,
            data@.len() == before.len(),
            forall|j: int|
                0 <= j < data@.len() ==> #[trigger] data@[j] == if j < 4 * i {
                    exchanged(before)[j]
                } else {
                    before[j]
                },
        decreases n - i,
    {
        let red: u8 = data[4 * i];
        let blue: u8 = data[4 * i + 2];
        data.set(4 * i, blue);
        data.set(4 * i + 2, red);
        i += 1;
    }
    assert(data@ =~= exchanged(before));
}

/// The generation of the theme, which changes with every change of the theme.
#[derive(Clone, Copy, Debug, PartialEq, Eq, Structural)]
pub struct ThemeGeneration {
    pub current: u64,
}

impl Default for ThemeGeneration {
    /// The first generation.
    fn default() -> (r: Self)
        ensures
            r.current == 1,
    {
        ThemeGeneration { current: 1 }
    }
}

/// Notes that the theme has changed: what was drawn with earlier generations is drawn again.
pub fn bump_theme_generation(generation: &mut ThemeGeneration)
    ensures
        final(generation).current == if old(generation).current == u64::MAX {
            0
        } else {
            (old(generation).current + 1) as u64
        },
{
    generation.current = generation.current.wrapping_add(1);
}

/// The generation of the theme.
pub fn theme_generation(generation: &ThemeGeneration) -> (r: u64)
    ensures
        r == generation.current,
{
    generation.current
}

/// The buttons do not overlap, and the gap between them is always the same.
pub proof fn buttons_do_not_overlap(width: int, buttons: ButtonVisibility, i: int)
    requires
        -MAX_EXACT_WIDTH <= width <= MAX_EXACT_WIDTH,
        0 <= i,
        i + 1 < button_layout(width, buttons).len(),
    ensures
        button_layout(width, buttons)[i].right() + BUTTON_GAP == button_layout(
            width,
            buttons,
        )[i + 1].left(),
{
}

/// The buttons of a window that is wide enough are within its header, and the last one closes.
pub proof fn buttons_are_within_the_header(width: int, buttons: ButtonVisibility, i: int)
    requires
        100 <= width <= MAX_EXACT_WIDTH,
        0 <= i < button_layout(width, buttons).len(),
    ensures
        0 <= button_layout(width, buttons)[i].left(),
        button_layout(width, buttons)[i].right() <= width - BUTTON_STRIP_RIGHT_PAD,
        0 <= button_layout(width, buttons)[i].top(),
        button_layout(width, buttons)[i].bottom() <= HEADER_LOGICAL_HEIGHT,
        button_layout(width, buttons).last().button == HeaderButton::Close,
        button_layout(width, buttons).last().right() == width - BUTTON_STRIP_RIGHT_PAD,
{
}

/// Exchanging the bytes twice restores the pixels.
pub proof fn exchanging_twice_restores(data: Seq<u8>)
    ensures
        exchanged(exchanged(data)) == data,
{
    let once = exchanged(data);
    assert forall|i: int| 0 <= i < data.len() implies exchanged(once)[i] == data[i] by {
        if i / 4 * 4 + 4 <= data.len() {
            if i % 4 == 0 {
                assert((i + 2) / 4 == i / 4 && (i + 2) % 4 == 2);
                assert(once[i + 2] == data[i]);
            } else if i % 4 == 2 {
                assert((i - 2) / 4 == i / 4 && (i - 2) % 4 == 0);
                assert(once[i - 2] == data[i]);
            }
        }
    }
    assert(exchanged(once) =~= data);
}

/// The icon of a button is drawn within the button.
pub proof fn icons_are_within_their_buttons(
    width: int,
    buttons: ButtonVisibility,
    i: int,
    x: int,
    y: int,
)
    requires
        -MAX_EXACT_WIDTH <= width <= MAX_EXACT_WIDTH,
        0 <= i < button_layout(width, buttons).len(),
        0 <= x <= LUCIDE_VIEWBOX,
        0 <= y <= LUCIDE_VIEWBOX,
    ensures
        ({
            let rect = button_layout(width, buttons)[i];
            let size = icon_size_of(rect.button) as int;
            &&& LUCIDE_VIEWBOX * rect.left() <= drawn_at(rect.center_x as int, size, x)
                <= LUCIDE_VIEWBOX * rect.right()
            &&& LUCIDE_VIEWBOX * rect.top() <= drawn_at(rect.center_y as int, size, y)
                <= LUCIDE_VIEWBOX * rect.bottom()
        }),
{
    let rect = button_layout(width, buttons)[i];
    let size = icon_size_of(rect.button) as int;
    let dx = x - 12;
    let dy = y - 12;
    assert(-144 <= dx * size <= 144) by (nonlinear_arith)
        requires
            -12 <= dx <= 12,
            0 <= size <= 12,
    ;
    assert(-144 <= dy * size <= 144) by (nonlinear_arith)
        requires
            -12 <= dy <= 12,
            0 <= size <= 12,
    ;
}

/// A change of the theme makes headers be drawn again: a state of the new generation does not
/// look like one of the old generation.
pub proof fn a_new_theme_looks_different(a: HeaderVisualState, b: HeaderVisualState)
    requires
        b.theme_generation == if a.theme_generation == u64::MAX {
            0
        } else {
            (a.theme_generation + 1) as u64
        },
    ensures
        !a.alike(b),
{
}

} // verus!
