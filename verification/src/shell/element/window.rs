//! A single window with an optional header drawn by the compositor.

use crate::geometry;
use crate::geometry::{max_i32, Point, Rectangle, Size};
use crate::shell::element::surface::CosmicSurface;
use crate::text::str_eq;
use vstd::prelude::*;

verus! {

/// Height of the header of a window, in logical pixels.
pub const SSD_HEIGHT: i32 = 36;

/// Width of the border around a window in which it can be resized.
pub const RESIZE_BORDER: i32 = 10;

/// Extent of a corner along both axes: within it a resize is diagonal.
pub const CORNER: i32 = 8;

/// The part of a window's frame under the pointer.
#[derive(Clone, Copy, Debug, PartialEq, Eq, Structural, Hash)]
pub enum Focus {
    Header,
    ResizeTop,
    ResizeLeft,
    ResizeRight,
    ResizeBottom,
    ResizeTopRight,
    ResizeTopLeft,
    ResizeBottomRight,
    ResizeBottomLeft,
}

/// The pointer shapes shown over a window's frame.
#[derive(Clone, Copy, Debug, PartialEq, Eq, Structural)]
pub enum CursorIcon {
    Default,
    NResize,
    SResize,
    WResize,
    EResize,
    NwResize,
    NeResize,
    SwResize,
    SeResize,
}

/// The edge or corner from which a window is resized.
#[derive(Clone, Copy, Debug, PartialEq, Eq, Structural)]
pub enum ResizeEdge {
    Top,
    Bottom,
    Left,
    TopLeft,
    BottomLeft,
    Right,
    TopRight,
    BottomRight,
}

/// How windows are clipped and shadowed.
#[derive(Clone, Copy, Debug, PartialEq, Eq, Structural)]
pub struct AppearanceConfig {
    pub clip_floating_windows: bool,
    pub clip_tiled_windows: bool,
    pub shadow_tiled_windows: bool,
}

/// What a button pressed on a window's frame asks for.
#[derive(Clone, Copy, Debug, PartialEq, Eq, Structural)]
pub enum PointerAction {
    /// Move the window of the surface.
    Move { surface: u64 },
    /// Open the menu of the window of the surface.
    Menu { surface: u64 },
    /// Resize the window of the surface from an edge.
    Resize { surface: u64, edge: ResizeEdge },
}

/// The part of the frame at `loc`, a position relative to a window of the given size below a
/// header of the given height: corners first, then the edges outside, then the header.
pub open spec fn focus_at(size: Size, header_height: int, loc: Point) -> Option<Focus> {
    let bottom = header_height + size.h;
    let top_corner = loc.y < CORNER;
    let bottom_corner = loc.y >= bottom - CORNER;
    let left_corner = loc.x < CORNER;
    let right_corner = loc.x >= size.w - CORNER;
    if top_corner && left_corner {
        Some(Focus::ResizeTopLeft)
    } else if top_corner && right_corner {
        Some(Focus::ResizeTopRight)
    } else if bottom_corner && left_corner {
        Some(Focus::ResizeBottomLeft)
    } else if bottom_corner && right_corner {
        Some(Focus::ResizeBottomRight)
    } else if loc.y < 0 {
        Some(Focus::ResizeTop)
    } else if loc.y >= bottom {
        Some(Focus::ResizeBottom)
    } else if loc.x < 0 {
        Some(Focus::ResizeLeft)
    } else if loc.x >= size.w {
        Some(Focus::ResizeRight)
    } else if loc.y < header_height {
        Some(Focus::Header)
    } else {
        None
    }
}

impl Focus {
    /// The number by which a part of the frame is stored.
    pub open spec fn code(self) -> u8 {
        match self {
            Focus::Header => 1,
            Focus::ResizeTop => 2,
            Focus::ResizeLeft => 3,
            Focus::ResizeRight => 4,
            Focus::ResizeBottom => 5,
            Focus::ResizeTopRight => 6,
            Focus::ResizeTopLeft => 7,
            Focus::ResizeBottomRight => 8,
            Focus::ResizeBottomLeft => 9,
        }
    }

    /// The number by which a part of the frame is stored.
    pub fn as_u8(self) -> (r: u8)
        ensures
            r == self.code(),
    {
        match self {
            Focus::Header => 1,
            Focus::ResizeTop => 2,
            Focus::ResizeLeft => 3,
            Focus::ResizeRight => 4,
            Focus::ResizeBottom => 5,
            Focus::ResizeTopRight => 6,
            Focus::ResizeTopLeft => 7,
            Focus::ResizeBottomRight => 8,
            Focus::ResizeBottomLeft => 9,
        }
    }

    /// The part of the frame stored as `value`, where zero stands for none.
    pub fn from_u8(value: u8) -> (r: Option<Focus>)
        requires
            value <= 9,
        ensures
            match r {
                Some(focus) => focus.code() == value,
                None => value == 0,
            },
    {
        match value {
            0 => None,
            1 => Some(Focus::Header),
            2 => Some(Focus::ResizeTop),
            3 => Some(Focus::ResizeLeft),
            4 => Some(Focus::ResizeRight),
            5 => Some(Focus::ResizeBottom),
            6 => Some(Focus::ResizeTopRight),
            7 => Some(Focus::ResizeTopLeft),
            8 => Some(Focus::ResizeBottomRight),
            _ => Some(Focus::ResizeBottomLeft),
        }
    }

    /// The part of the frame of `surface` under `location`, a position rounded to whole pixels.
    pub fn under(surface: &CosmicSurface, header_height: i32, location: Point) -> (r: Option<Focus>)
        ensures
            r == focus_at(
                surface.geometry.size,
                header_height as int,
                location.minus(surface.geometry.loc),
            ),
    {
        let loc: Point = location.relative_to(surface.geometry.loc);
        let x: i64 = loc.x as i64;
        let y: i64 = loc.y as i64;
        let w: i64 = surface.geometry.size.w as i64;
        let bottom: i64 = header_height as i64 + surface.geometry.size.h as i64;
        let corner: i64 = CORNER as i64;
        if y < corner && x < corner {
            Some(Focus::ResizeTopLeft)
        } else if y < corner && x >= w - corner {
            Some(Focus::ResizeTopRight)
        } else if y >= bottom - corner && x < corner {
            Some(Focus::ResizeBottomLeft)
        } else if y >= bottom - corner && x >= w - corner {
            Some(Focus::ResizeBottomRight)
        } else if y < 0 {
            Some(Focus::ResizeTop)
        } else if y >= bottom {
            Some(Focus::ResizeBottom)
        } else if x < 0 {
            Some(Focus::ResizeLeft)
        } else if x >= w {
            Some(Focus::ResizeRight)
        } else if y < header_height as i64 {
            Some(Focus::Header)
        } else {
            None
        }
    }

    /// The pointer shape over this part of the frame.
    pub open spec fn shape(self) -> CursorIcon {
        match self {
            Focus::ResizeTopLeft => CursorIcon::NwResize,
            Focus::ResizeTopRight => CursorIcon::NeResize,
            Focus::ResizeTop => CursorIcon::NResize,
            Focus::ResizeBottomLeft => CursorIcon::SwResize,
            Focus::ResizeBottomRight => CursorIcon::SeResize,
            Focus::ResizeBottom => CursorIcon::SResize,
            Focus::ResizeLeft => CursorIcon::WResize,
            Focus::ResizeRight => CursorIcon::EResize,
            Focus::Header => CursorIcon::Default,
        }
    }

    /// The pointer shape over this part of the frame.
    pub fn cursor_shape(&self) -> (r: CursorIcon)
        ensures
            r == self.shape(),
    {
        match self {
            Focus::ResizeTopLeft => CursorIcon::NwResize,
            Focus::ResizeTopRight => CursorIcon::NeResize,
            Focus::ResizeTop => CursorIcon::NResize,
            Focus::ResizeBottomLeft => CursorIcon::SwResize,
            Focus::ResizeBottomRight => CursorIcon::SeResize,
            Focus::ResizeBottom => CursorIcon::SResize,
            Focus::ResizeLeft => CursorIcon::WResize,
            Focus::ResizeRight => CursorIcon::EResize,
            Focus::Header => CursorIcon::Default,
        }
    }

    /// The edge from which this part of the frame resizes; none for the header.
    pub open spec fn edge(self) -> Option<ResizeEdge> {
        match self {
            Focus::Header => None,
            Focus::ResizeTop => Some(ResizeEdge::Top),
            Focus::ResizeTopLeft => Some(ResizeEdge::TopLeft),
            Focus::ResizeTopRight => Some(ResizeEdge::TopRight),
            Focus::ResizeBottom => Some(ResizeEdge::Bottom),
            Focus::ResizeBottomLeft => Some(ResizeEdge::BottomLeft),
            Focus::ResizeBottomRight => Some(ResizeEdge::BottomRight),
            Focus::ResizeLeft => Some(ResizeEdge::Left),
            Focus::ResizeRight => Some(ResizeEdge::Right),
        }
    }

    /// The edge from which this part of the frame resizes; none for the header.
    pub fn resize_edge(&self) -> (r: Option<ResizeEdge>)
        ensures
            r == self.edge(),
    {
        match self {
            Focus::Header => None,
            Focus::ResizeTop => Some(ResizeEdge::Top),
            Focus::ResizeTopLeft => Some(ResizeEdge::TopLeft),
            Focus::ResizeTopRight => Some(ResizeEdge::TopRight),
            Focus::ResizeBottom => Some(ResizeEdge::Bottom),
            Focus::ResizeBottomLeft => Some(ResizeEdge::BottomLeft),
            Focus::ResizeBottomRight => Some(ResizeEdge::BottomRight),
            Focus::ResizeLeft => Some(ResizeEdge::Left),
            Focus::ResizeRight => Some(ResizeEdge::Right),
        }
    }
}

/// How the shadow of an element is drawn.
#[derive(Clone, Copy, Debug, PartialEq, Eq, Structural)]
pub struct ShadowPlan {
    /// Whether its corners are rounded.
    pub rounded: bool,
    /// Whether it is drawn weaker, as for an element that is not activated.
    pub dimmed: bool,
}

/// How a surface of an element is drawn.
#[derive(Clone, Copy, Debug, PartialEq, Eq)]
pub enum SurfaceElement {
    /// As it is.
    Whole,
    /// With the corners of the element cut off.
    Clipped { radii: [u8; 4] },
}

/// Whether the surfaces of an element are drawn as they should: clipped to the given radii where
/// there are any and a surface reaches into a corner, and else as they are.
pub open spec fn drawn_as(
    elements: Seq<SurfaceElement>,
    clip: Option<Seq<u8>>,
    in_corner: Seq<bool>,
) -> bool {
    &&& elements.len() == in_corner.len()
    &&& forall|i: int|
        0 <= i < elements.len() ==> match #[trigger] elements[i] {
            SurfaceElement::Clipped { radii } => in_corner[i] && clip == Some(radii@),
            SurfaceElement::Whole => !in_corner[i] || clip is None,
        }
}

/// How the surfaces of an element are drawn, where `in_corner` tells of each whether it reaches
/// into a corner that is cut off.
pub fn surface_elements(clip: Option<[u8; 4]>, in_corner: &Vec<bool>) -> (r: Vec<SurfaceElement>)
    ensures
        drawn_as(
            r@,
            match clip {
                Some(radii) => Some(radii@),
                None => None,
            },
            in_corner@,
        ),
{
    let mut out: Vec<SurfaceElement> = Vec::new();
    let mut i: usize = 0;
    while i < in_corner.len()
        invariant
            i <= in_corner@.len(),
            drawn_as(
                out@,
                match clip {
                    Some(radii) => Some(radii@),
                    None => None,
                },
                in_corner@.take(i as int),
            ),
        decreases in_corner@.len() - i,
    {
        let element: SurfaceElement = match clip {
            Some(radii) if in_corner[i] => SurfaceElement::Clipped { radii },
            _ => SurfaceElement::Whole,
        };
        out.push(element);
        i += 1;
    }
    assert(in_corner@.take(i as int) =~= in_corner@);
    out
}

/// A length that is raised to zero and then lowered to a limit.
pub open spec fn limited(length: int, limit: int) -> int {
    geometry::smaller(geometry::larger(length, 0), limit)
}

/// A size that is increased in height and then limited.
pub fn limited_size(size: Size, extra: i32, max_size: Option<Size>) -> (r: Size)
    requires
        max_size is None ==> i32::MIN <= size.h + extra <= i32::MAX,
    ensures
        match max_size {
            Some(max) => {
                &&& r.w == limited(size.w as int, max.w as int)
                &&& r.h == limited(size.h + extra, max.h as int)
            },
            None => r.w == size.w && r.h == size.h + extra,
        },
{
    match max_size {
        Some(max) => {
            let h: i64 = size.h as i64 + extra as i64;
            let w: i32 = if size.w < 0 {
                0
            } else {
                size.w
            };
            let h: i64 = if h < 0 {
                0
            } else {
                h
            };
            Size {
                w: if w < max.w {
                    w
                } else {
                    max.w
                },
                h: if h < max.h as i64 {
                    h as i32
                } else {
                    max.h
                },
            }
        },
        None => Size { w: size.w, h: size.h + extra },
    }
}

/// What is under a position of an element.
#[derive(Clone, Copy, Debug, PartialEq, Eq, Structural)]
pub enum HitTarget {
    /// The frame that the compositor draws.
    Frame,
    /// The client's surfaces, which start `inset` below the top of the element.
    Client { inset: i32 },
}

/// Whether a position is in the resize border around an area below a header, or above the end
/// of the header.
pub open spec fn on_frame(geo: Rectangle, header: int, point: Point) -> bool {
    on_border(geo, header, point) || point.y - geo.loc.y < header
}

/// Whether a position is in the resize border around an area below a header.
pub open spec fn on_border(geo: Rectangle, header: int, point: Point) -> bool {
    let dx = point.x - geo.loc.x;
    let dy = point.y - geo.loc.y;
    ||| -RESIZE_BORDER <= dx < 0
    ||| -RESIZE_BORDER <= dy < 0
    ||| geo.size.w <= dx < geo.size.w + RESIZE_BORDER
    ||| geo.size.h + header <= dy < geo.size.h + header + RESIZE_BORDER
}

/// Whether a position is in the resize border around an area below a header.
pub fn hits_border(geo: &Rectangle, header: i32, point: Point) -> (r: bool)
    ensures
        r == on_border(*geo, header as int, point),
{
    let dx: i64 = point.x as i64 - geo.loc.x as i64;
    let dy: i64 = point.y as i64 - geo.loc.y as i64;
    let border: i64 = RESIZE_BORDER as i64;
    let w: i64 = geo.size.w as i64;
    let bottom: i64 = geo.size.h as i64 + header as i64;
    (-border <= dx && dx < 0) || (-border <= dy && dy < 0) || (w <= dx && dx < w + border) || (
    bottom <= dy && dy < bottom + border)
}

/// Whether a position is in the resize border around an area below a header, or above the end
/// of the header.
pub fn hits_frame(geo: &Rectangle, header: i32, point: Point) -> (r: bool)
    ensures
        r == on_frame(*geo, header as int, point),
{
    hits_border(geo, header, point) || (point.y as i64 - geo.loc.y as i64) < header as i64
}

/// The left button of a pointer.
pub const BTN_LEFT: u32 = 0x110;

/// The right button of a pointer.
pub const BTN_RIGHT: u32 = 0x111;

/// What a press of a button on the header asks for.
pub open spec fn header_press(button: u32, surface: u64) -> Option<PointerAction> {
    if button == BTN_LEFT {
        Some(PointerAction::Move { surface })
    } else if button == BTN_RIGHT {
        Some(PointerAction::Menu { surface })
    } else {
        None
    }
}

/// What a button does on the frame of a window: on the header a press of the left button moves
/// the window and one of the right button opens its menu; elsewhere the window is resized, and
/// `any_button` tells whether every button event does that or only a press of the left button.
/// Nothing happens off the frame or where the window has no surface.
pub open spec fn frame_button(
    focus: Option<Focus>,
    surface: Option<u64>,
    pressed: bool,
    button: u32,
    any_button: bool,
) -> Option<PointerAction> {
    match (focus, surface) {
        (Some(Focus::Header), Some(surface)) => if pressed {
            header_press(button, surface)
        } else {
            None
        },
        (Some(part), Some(surface)) => if any_button || (pressed && button == BTN_LEFT) {
            Some(PointerAction::Resize { surface, edge: part.edge()->0 })
        } else {
            None
        },
        _ => None,
    }
}

/// What a button does on the frame of a window.
pub fn frame_action(
    focus: Option<Focus>,
    surface: Option<u64>,
    pressed: bool,
    button: u32,
    any_button: bool,
) -> (r: Option<PointerAction>)
    ensures
        r == frame_button(focus, surface, pressed, button, any_button),
{
    let part: Focus = match focus {
        Some(part) => part,
        None => return None,
    };
    let surface: u64 = match surface {
        Some(surface) => surface,
        None => return None,
    };
    match part.resize_edge() {
        None => {
            if pressed && button == BTN_LEFT {
                Some(PointerAction::Move { surface })
            } else if pressed && button == BTN_RIGHT {
                Some(PointerAction::Menu { surface })
            } else {
                None
            }
        },
        Some(edge) => {
            if any_button || (pressed && button == BTN_LEFT) {
                Some(PointerAction::Resize { surface, edge })
            } else {
                None
            }
        },
    }
}

/// A window that stands for itself, with a header where the client draws no decorations.
#[derive(Debug, PartialEq, Eq)]
pub struct CosmicWindow {
    pub window: CosmicSurface,
    pub activated: bool,
    /// The part of the frame that the pointer has entered.
    pub pointer_entered: Option<Focus>,
    /// The title last seen while the compositor draws the header.
    pub last_title: String,
    pub tiled: bool,
    pub appearance_conf: AppearanceConfig,
}

/// The larger of two radii.
pub open spec fn larger_radius(a: u8, b: u8) -> u8 {
    if a >= b {
        a
    } else {
        b
    }
}

/// The larger of two radii.
fn max_radius(a: u8, b: u8) -> (r: u8)
    ensures
        r == larger_radius(a, b),
{
    if a >= b {
        a
    } else {
        b
    }
}

/// Whether one of the corners is round.
pub open spec fn some_round(radii: Seq<u8>) -> bool {
    radii[0] != 0 || radii[1] != 0 || radii[2] != 0 || radii[3] != 0
}

/// Radii of the frame of a window: where the compositor draws the header and the window is not
/// clipped, the corners at the bottom stay square, and those at the top too if it is tiled.
pub open spec fn frame_radii(radii: Seq<u8>, ssd: bool, clip: bool, tiled: bool) -> Seq<u8> {
    if ssd && !clip {
        if tiled {
            seq![0, 0, 0, 0]
        } else {
            seq![0, radii[1], 0, radii[3]]
        }
    } else {
        seq![radii[0], radii[1], radii[2], radii[3]]
    }
}

/// Radii of the frame of a window.
fn masked_radii(radii: [u8; 4], ssd: bool, clip: bool, tiled: bool) -> (r: [u8; 4])
    ensures
        r@ == frame_radii(radii@, ssd, clip, tiled),
{
    if ssd && !clip {
        if tiled {
            [0, 0, 0, 0]
        } else {
            [0, radii[1], 0, radii[3]]
        }
    } else {
        [radii[0], radii[1], radii[2], radii[3]]
    }
}

impl CosmicWindow {
    /// Whether the compositor draws the header.
    pub open spec fn ssd(self) -> bool {
        !self.window.decorated
    }

    /// Whether the compositor draws the header once the pending state applies.
    pub open spec fn pending_ssd(self) -> bool {
        !self.window.pending_decorated
    }

    /// The height of the header, zero where there is none.
    pub open spec fn header(self) -> int {
        if self.ssd() {
            SSD_HEIGHT as int
        } else {
            0
        }
    }

    /// Whether the compositor has a frame around the window, at least to resize it.
    pub open spec fn framed(self) -> bool {
        self.ssd() || self.window.tiled_state == Some(true)
    }

    /// Whether windows in the place of this one are clipped to rounded corners.
    pub open spec fn clips(self) -> bool {
        if self.tiled {
            self.appearance_conf.clip_tiled_windows
        } else {
            self.appearance_conf.clip_floating_windows
        }
    }

    /// The part of the frame at a position; none where there is no frame.
    pub open spec fn frame_at(self, location: Point) -> Option<Focus> {
        if self.framed() {
            focus_at(
                self.window.geometry.size,
                self.header(),
                location.minus(self.window.geometry.loc),
            )
        } else {
            None
        }
    }

    /// A window around `window`, which knows itself as tiled where floating windows are clipped.
    pub fn new(window: CosmicSurface, appearance: AppearanceConfig) -> (r: CosmicWindow)
        ensures
            r.window == if appearance.clip_floating_windows {
                (CosmicSurface { tiled: true, ..window })
            } else {
                window
            },
            !r.activated,
            r.pointer_entered is None,
            r.last_title@ == Seq::<char>::empty(),
            !r.tiled,
            r.appearance_conf == appearance,
    {
        let mut window: CosmicSurface = window;
        if appearance.clip_floating_windows {
            window.set_tiled(true);
        }
        CosmicWindow {
            window,
            activated: false,
            pointer_entered: None,
            last_title: String::new(),
            tiled: false,
            appearance_conf: appearance,
        }
    }

    /// Whether the compositor draws the header, now or once the pending state applies.
    pub fn has_ssd(&self, pending: bool) -> (r: bool)
        ensures
            r == if pending {
                self.pending_ssd()
            } else {
                self.ssd()
            },
    {
        if pending {
            !self.window.pending_decorated
        } else {
            !self.window.decorated
        }
    }

    /// Whether the window is tiled.
    pub fn is_tiled(&self) -> (r: bool)
        ensures
            r == self.tiled,
    {
        self.tiled
    }

    /// Whether the client knows itself as tiled.
    fn has_tiled_state(&self) -> (r: bool)
        ensures
            r == (self.window.tiled_state == Some(true)),
    {
        match self.window.tiled_state {
            Some(tiled) => tiled,
            None => false,
        }
    }

    /// The height of the header, zero where there is none.
    fn header_height(&self) -> (r: i32)
        ensures
            r == self.header(),
    {
        if self.has_ssd(false) {
            SSD_HEIGHT
        } else {
            0
        }
    }

    /// The pending size of the window with its header.
    pub fn pending_size(&self) -> (r: Option<Size>)
        requires
            self.pending_ssd() ==> (self.window.pending_size matches Some(size) ==> size.h
                + SSD_HEIGHT <= i32::MAX),
        ensures
            r == match self.window.pending_size {
                Some(size) => Some(
                    Size {
                        w: size.w,
                        h: if self.pending_ssd() {
                            (size.h + SSD_HEIGHT) as i32
                        } else {
                            size.h
                        },
                    },
                ),
                None => None,
            },
    {
        match self.window.pending_size {
            Some(size) => if self.has_ssd(true) {
                Some(Size { w: size.w, h: size.h + SSD_HEIGHT })
            } else {
                Some(size)
            },
            None => None,
        }
    }

    /// Asks the client to take the area below the header.
    pub fn set_geometry(&mut self, geo: Rectangle)
        requires
            old(self).pending_ssd() ==> geo.loc.y + SSD_HEIGHT <= i32::MAX,
            old(self).pending_ssd() ==> geo.size.h - SSD_HEIGHT >= i32::MIN,
        ensures
            *final(self) == (CosmicWindow {
                window: old(self).window.with_geometry(
                    if old(self).pending_ssd() {
                        Rectangle {
                            loc: Point { x: geo.loc.x, y: (geo.loc.y + SSD_HEIGHT) as i32 },
                            size: Size {
                                w: geo.size.w,
                                h: geometry::larger(geo.size.h - SSD_HEIGHT, 0) as i32,
                            },
                        }
                    } else {
                        Rectangle {
                            loc: geo.loc,
                            size: Size {
                                w: geo.size.w,
                                h: geometry::larger(geo.size.h as int, 0) as i32,
                            },
                        }
                    },
                    if old(self).pending_ssd() {
                        SSD_HEIGHT as u32
                    } else {
                        0
                    },
                ),
                ..*old(self)
            }),
    {
        let header: i32 = if self.has_ssd(true) { SSD_HEIGHT } else { 0 };
        let area = Rectangle {
            loc: Point { x: geo.loc.x, y: geo.loc.y + header },
            size: Size { w: geo.size.w, h: max_i32(geo.size.h - header, 0) },
        };
        self.window.set_geometry(area, header as u32);
    }

    /// What is under a position of the window, rounded to whole pixels: the frame, where there
    /// is one and toplevels are looked for, or else the client's surfaces.
    pub fn focus_under(&self, point: Point, toplevel: bool) -> (r: HitTarget)
        ensures
            r == if self.framed() && toplevel && (on_border(
                self.window.geometry,
                self.header(),
                point,
            ) || (self.ssd() && point.y - self.window.geometry.loc.y < SSD_HEIGHT)) {
                HitTarget::Frame
            } else {
                HitTarget::Client { inset: self.header() as i32 }
            },
    {
        let header: i32 = self.header_height();
        let has_ssd: bool = self.has_ssd(false);
        if (has_ssd || self.has_tiled_state()) && toplevel {
            let geo: Rectangle = self.window.geometry;
            if hits_border(&geo, header, point) || (has_ssd && (point.y as i64 - geo.loc.y as i64)
                < SSD_HEIGHT as i64) {
                return HitTarget::Frame;
            }
        }
        HitTarget::Client { inset: header }
    }

    /// Whether this is the window around the given one.
    pub fn contains_surface(&self, window: u64) -> (r: bool)
        ensures
            r == (self.window.id == window),
    {
        self.window.id == window
    }

    /// The client's window.
    pub fn surface(&self) -> (r: CosmicSurface)
        ensures
            r == self.window,
    {
        self.window
    }

    /// The offset of the client's area from the top of the window.
    pub fn offset(&self) -> (r: Point)
        ensures
            r == (Point { x: 0, y: self.header() as i32 }),
    {
        Point { x: 0, y: self.header_height() }
    }

    /// The radii of the window's shadow and whether it is drawn weaker; none where the window
    /// has no shadow. `radii` are those of the theme.
    pub fn shadow_render_element(&self, radii: [u8; 4]) -> (r: Option<([u8; 4], bool)>)
        ensures
            r is Some == (!self.window.maximized && if self.tiled {
                self.appearance_conf.shadow_tiled_windows
            } else {
                self.appearance_conf.clip_floating_windows || self.ssd()
            }),
            r matches Some(shadow) ==> {
                &&& shadow.0@ == frame_radii(radii@, self.ssd(), self.clips(), self.tiled)
                &&& shadow.1 == !self.window.activated
            },
    {
        if self.window.maximized {
            return None;
        }
        let has_ssd: bool = self.has_ssd(false);
        let drawn: bool = if self.tiled {
            self.appearance_conf.shadow_tiled_windows
        } else {
            self.appearance_conf.clip_floating_windows || has_ssd
        };
        if !drawn {
            return None;
        }
        let clip: bool = self.is_clipped();
        Some((masked_radii(radii, has_ssd, clip, self.tiled), !self.window.activated))
    }

    /// Whether windows in the place of this one are clipped to rounded corners.
    fn is_clipped(&self) -> (r: bool)
        ensures
            r == self.clips(),
    {
        (!self.tiled && self.appearance_conf.clip_floating_windows) || (self.tiled
            && self.appearance_conf.clip_tiled_windows)
    }

    /// The radii of the client's surfaces: those of the frame, but square at the top below a
    /// header.
    pub open spec fn inner_radii(self, radii: Seq<u8>) -> Seq<u8> {
        let clip = self.clips() && !self.window.maximized;
        let frame = frame_radii(radii, self.ssd(), clip, self.tiled);
        if self.ssd() {
            seq![frame[0], 0, frame[2], 0]
        } else {
            frame
        }
    }

    /// The radii to which the client's surfaces are clipped when drawn; none where they are not.
    pub open spec fn clip_radii(self, radii: Seq<u8>) -> Option<Seq<u8>> {
        if self.clips() && !self.window.maximized && some_round(self.inner_radii(radii)) {
            Some(self.inner_radii(radii))
        } else {
            None
        }
    }

    /// The radii to which the client's surfaces are clipped when drawn; none where they are not.
    /// Below a header the corners at the top stay square.
    pub fn clipping(&self, radii: [u8; 4]) -> (r: Option<[u8; 4]>)
        ensures
            match r {
                Some(corners) => self.clip_radii(radii@) == Some(corners@),
                None => self.clip_radii(radii@) is None,
            },
    {
        let has_ssd: bool = self.has_ssd(false);
        let clip: bool = self.is_clipped() && !self.window.maximized;
        let frame: [u8; 4] = masked_radii(radii, has_ssd, clip, self.tiled);
        let inner: [u8; 4] = if has_ssd {
            [frame[0], 0, frame[2], 0]
        } else {
            frame
        };
        let rounded: bool = inner[0] != 0 || inner[1] != 0 || inner[2] != 0 || inner[3] != 0;
        if clip && rounded {
            Some(inner)
        } else {
            None
        }
    }

    /// How the client's surfaces are drawn, where `in_corner` tells of each whether it reaches
    /// into a corner that is cut off.
    pub fn render_elements(&self, radii: [u8; 4], in_corner: &Vec<bool>) -> (r: Vec<SurfaceElement>)
        ensures
            drawn_as(r@, self.clip_radii(radii@), in_corner@),
    {
        surface_elements(self.clipping(radii), in_corner)
    }

    /// The size to which the window is clipped when drawn: with its header, and within the size
    /// that it is given.
    pub fn drawn_size(&self, max_size: Option<Size>) -> (r: Size)
        requires
            max_size is None ==> self.window.geometry.size.h + self.header() <= i32::MAX,
        ensures
            match max_size {
                Some(max) => {
                    &&& r.w == limited(self.window.geometry.size.w as int, max.w as int)
                    &&& r.h == limited(
                        self.window.geometry.size.h + self.header(),
                        max.h as int,
                    )
                },
                None => {
                    &&& r.w == self.window.geometry.size.w
                    &&& r.h == self.window.geometry.size.h + self.header()
                },
            },
    {
        limited_size(self.window.geometry.size, self.header_height(), max_size)
    }

    /// Takes over how windows are clipped and shadowed; a change tells the client anew whether
    /// it is tiled.
    pub fn update_appearance_conf(&mut self, appearance: &AppearanceConfig)
        ensures
            *final(self) == if old(self).appearance_conf == *appearance {
                *old(self)
            } else {
                (CosmicWindow {
                    appearance_conf: *appearance,
                    window: (CosmicSurface {
                        tiled: if appearance.clip_floating_windows {
                            true
                        } else if !old(self).tiled {
                            false
                        } else {
                            old(self).window.tiled
                        },
                        configure: true,
                        ..old(self).window
                    }),
                    ..*old(self)
                })
            },
    {
        if self.appearance_conf != *appearance {
            self.appearance_conf = *appearance;
            if appearance.clip_floating_windows {
                self.window.set_tiled(true);
            } else if !self.tiled {
                self.window.set_tiled(false);
            }
            self.window.send_configure();
        }
    }

    /// The smallest size of the window with its header.
    pub fn min_size(&self) -> (r: Option<Size>)
        ensures
            r == with_header(self.window.min_size, self.header()),
    {
        match self.window.min_size {
            Some(size) => Some(size.grow(Size { w: 0, h: self.header_height() })),
            None => None,
        }
    }

    /// The largest size of the window with its header.
    pub fn max_size(&self) -> (r: Option<Size>)
        ensures
            r == with_header(self.window.max_size, self.header()),
    {
        match self.window.max_size {
            Some(size) => Some(size.grow(Size { w: 0, h: self.header_height() })),
            None => None,
        }
    }

    /// Sets whether the window is tiled; the client is told unless it counts as tiled anyway.
    pub fn set_tiled(&mut self, tiled: bool)
        ensures
            *final(self) == (CosmicWindow {
                tiled,
                window: (CosmicSurface {
                    tiled: if old(self).appearance_conf.clip_floating_windows {
                        old(self).window.tiled
                    } else {
                        tiled
                    },
                    ..old(self).window
                }),
                ..*old(self)
            }),
    {
        self.tiled = tiled;
        if !self.appearance_conf.clip_floating_windows {
            self.window.set_tiled(tiled);
        }
    }

    /// The radii of the window's corners; the first and third are at the bottom, the others at
    /// the top.
    ///
    /// `radii` are those of the theme, `own` those that the client has asked for.
    pub fn corner_radius(
        &self,
        radii: [u8; 4],
        own: Option<[u8; 4]>,
        default_radius: u8,
    ) -> (r: [u8; 4])
        ensures
            r@ == self.corners(
                radii@,
                match own {
                    Some(corners) => Some(corners@),
                    None => None,
                },
                default_radius,
            ),
    {
        let has_ssd: bool = self.has_ssd(false);
        let clip: bool = self.is_clipped() && !self.window.maximized;
        let round: bool = (!self.tiled || self.appearance_conf.clip_tiled_windows)
            && !self.window.maximized;
        let radii: [u8; 4] = if round {
            [radii[0], radii[1], radii[2], radii[3]]
        } else {
            [0, 0, 0, 0]
        };
        if clip {
            let base: [u8; 4] = match own {
                Some(corners) => corners,
                None => radii,
            };
            [
                max_radius(radii[0], base[0]),
                if has_ssd {
                    radii[1]
                } else {
                    max_radius(radii[1], base[1])
                },
                max_radius(radii[2], base[2]),
                if has_ssd {
                    radii[3]
                } else {
                    max_radius(radii[3], base[3])
                },
            ]
        } else if has_ssd {
            match own {
                Some(corners) => [corners[0], radii[1], corners[2], radii[3]],
                None => [default_radius, radii[1], default_radius, radii[3]],
            }
        } else {
            match own {
                Some(corners) => [corners[0], corners[1], corners[2], corners[3]],
                None => [default_radius, default_radius, default_radius, default_radius],
            }
        }
    }

    /// The radii of the window's corners. Clipped, a corner is as round as the theme and the
    /// client want it, but below a header the theme alone decides at the top. Not clipped, the
    /// client decides, but at the top of a header the theme does.
    pub open spec fn corners(
        self,
        theme: Seq<u8>,
        own: Option<Seq<u8>>,
        default_radius: u8,
    ) -> Seq<u8> {
        let round = (!self.tiled || self.appearance_conf.clip_tiled_windows)
            && !self.window.maximized;
        let radii = if round {
            theme
        } else {
            seq![0, 0, 0, 0]
        };
        if self.clips() && !self.window.maximized {
            let base = match own {
                Some(corners) => corners,
                None => radii,
            };
            seq![
                larger_radius(radii[0], base[0]),
                if self.ssd() {
                    radii[1]
                } else {
                    larger_radius(radii[1], base[1])
                },
                larger_radius(radii[2], base[2]),
                if self.ssd() {
                    radii[3]
                } else {
                    larger_radius(radii[3], base[3])
                },
            ]
        } else {
            let base = match own {
                Some(corners) => corners,
                None => seq![default_radius, default_radius, default_radius, default_radius],
            };
            if self.ssd() {
                seq![base[0], radii[1], base[2], radii[3]]
            } else {
                seq![base[0], base[1], base[2], base[3]]
            }
        }
    }

    /// Whether the client's window lives.
    pub fn alive(&self) -> (r: bool)
        ensures
            r == self.window.alive,
    {
        self.window.alive
    }

    /// The bounding box of the window with its resize border and its header.
    pub fn bbox(&self) -> (r: Rectangle)
        requires
            self.ssd() ==> geometry::saturated(self.window.bbox.size.h + 2 * RESIZE_BORDER)
                + SSD_HEIGHT <= i32::MAX,
        ensures
            ({
                let bbox = self.window.bbox;
                let border = if self.framed() {
                    RESIZE_BORDER as int
                } else {
                    0
                };
                &&& r.loc == (Point {
                    x: geometry::saturated(bbox.loc.x - border) as i32,
                    y: geometry::saturated(bbox.loc.y - border) as i32,
                })
                &&& r.size.w == geometry::saturated(bbox.size.w + 2 * border)
                &&& r.size.h == geometry::saturated(bbox.size.h + 2 * border) + self.header()
            }),
    {
        let mut bbox: Rectangle = self.window.bbox;
        if self.has_ssd(false) || self.has_tiled_state() {
            bbox.loc = bbox.loc.relative_to(Point { x: RESIZE_BORDER, y: RESIZE_BORDER });
            bbox.size = bbox.size.grow(Size { w: RESIZE_BORDER * 2, h: RESIZE_BORDER * 2 });
        }
        bbox.size.h = bbox.size.h + self.header_height();
        bbox
    }

    /// The geometry of the window with its header.
    pub fn geometry(&self) -> (r: Rectangle)
        requires
            self.window.geometry.size.h + self.header() <= i32::MAX,
        ensures
            r.loc == self.window.geometry.loc,
            r.size.w == self.window.geometry.size.w,
            r.size.h == self.window.geometry.size.h + self.header(),
    {
        let geo: Rectangle = self.window.geometry;
        Rectangle {
            loc: geo.loc,
            size: Size { w: geo.size.w, h: geo.size.h + self.header_height() },
        }
    }

    /// Activates or deactivates the window; the client is told of a change only.
    pub fn set_activate(&mut self, activated: bool)
        ensures
            *final(self) == if old(self).activated == activated {
                *old(self)
            } else {
                (CosmicWindow {
                    activated,
                    window: (CosmicSurface { activated, ..old(self).window }),
                    ..*old(self)
                })
            },
    {
        if self.activated != activated {
            self.activated = activated;
            self.window.set_activated(activated);
        }
    }

    /// Takes note of the client's title while the compositor draws the header.
    pub fn refresh(&mut self, title: String)
        ensures
            final(self).last_title@ == if old(self).pending_ssd() {
                title@
            } else {
                old(self).last_title@
            },
            *final(self) == (CosmicWindow { last_title: final(self).last_title, ..*old(self) }),
    {
        if self.has_ssd(true) {
            if !str_eq(self.last_title.as_str(), title.as_str()) {
                self.last_title = title;
            }
        }
    }

    /// Replaces the part of the frame under the pointer and returns the one before.
    pub fn swap_focus(&mut self, focus: Option<Focus>) -> (before: Option<Focus>)
        ensures
            before == old(self).pointer_entered,
            *final(self) == (CosmicWindow { pointer_entered: focus, ..*old(self) }),
    {
        let before: Option<Focus> = self.pointer_entered;
        self.pointer_entered = focus;
        before
    }

    /// The part of the frame under the pointer.
    pub fn current_focus(&self) -> (r: Option<Focus>)
        ensures
            r == self.pointer_entered,
    {
        self.pointer_entered
    }

    /// The pointer moves to `location`, rounded to whole pixels: the part of the frame there
    /// becomes the current one, and its pointer shape is returned. Off the frame nothing changes.
    pub fn pointer_motion(&mut self, location: Point) -> (shape: Option<CursorIcon>)
        ensures
            match old(self).frame_at(location) {
                Some(part) => {
                    &&& *final(self) == (CosmicWindow {
                        pointer_entered: Some(part),
                        ..*old(self)
                    })
                    &&& shape == Some(part.shape())
                },
                None => *final(self) == *old(self) && shape is None,
            },
    {
        if self.has_ssd(false) || self.has_tiled_state() {
            match Focus::under(&self.window, self.header_height(), location) {
                Some(part) => {
                    let _before: Option<Focus> = self.swap_focus(Some(part));
                    Some(part.cursor_shape())
                },
                None => None,
            }
        } else {
            None
        }
    }

    /// The pointer enters the window at `location`. It must not be over its frame already.
    pub fn pointer_enter(&mut self, location: Point) -> (shape: Option<CursorIcon>)
        requires
            old(self).frame_at(location) is Some ==> old(self).pointer_entered is None,
        ensures
            match old(self).frame_at(location) {
                Some(part) => {
                    &&& *final(self) == (CosmicWindow {
                        pointer_entered: Some(part),
                        ..*old(self)
                    })
                    &&& shape == Some(part.shape())
                },
                None => *final(self) == *old(self) && shape is None,
            },
    {
        self.pointer_motion(location)
    }

    /// The pointer leaves the window.
    pub fn pointer_leave(&mut self)
        ensures
            *final(self) == (CosmicWindow { pointer_entered: None, ..*old(self) }),
    {
        let _before: Option<Focus> = self.swap_focus(None);
    }

    /// A button over the window: on the header the left one moves the window and the right one
    /// opens its menu, on the border the left one resizes, each when pressed.
    pub fn button(&self, pressed: bool, button: u32) -> (r: Option<PointerAction>)
        ensures
            r == frame_button(
                self.pointer_entered,
                self.window.wl_surface,
                pressed,
                button,
                false,
            ),
    {
        frame_action(self.pointer_entered, self.window.wl_surface, pressed, button, false)
    }

    /// Where a menu opened at `cursor` stands relative to the window at `position`.
    pub fn menu_position(cursor: Point, position: Point) -> (r: Point)
        requires
            cursor.y - SSD_HEIGHT >= i32::MIN,
        ensures
            r == (Point { x: cursor.x, y: (cursor.y - SSD_HEIGHT) as i32 }).minus(position),
    {
        Point { x: cursor.x, y: cursor.y - SSD_HEIGHT }.relative_to(position)
    }
}

/// A size with the height of a header added.
pub open spec fn with_header(size: Option<Size>, header: int) -> Option<Size> {
    match size {
        Some(s) => Some(s.plus(Size { w: 0, h: header as i32 })),
        None => None,
    }
}

/// Every part of the frame is stored as a number of its own, and zero as none.
pub proof fn focus_codes_are_distinct(a: Focus, b: Focus)
    ensures
        1 <= a.code() <= 9,
        a.code() == b.code() ==> a == b,
{
}

/// Inside a window that is large enough there is no frame, and right above the client's area
/// there is the header.
pub proof fn the_client_area_has_no_frame(size: Size, header_height: int, loc: Point)
    requires
        CORNER <= loc.x < size.w - CORNER,
        header_height >= CORNER,
    ensures
        header_height <= loc.y < header_height + size.h ==> focus_at(size, header_height, loc)
            is None,
        CORNER <= loc.y < header_height && size.h > 0 ==> focus_at(size, header_height, loc)
            == Some(Focus::Header),
        loc.y < 0 ==> focus_at(size, header_height, loc) == Some(Focus::ResizeTop),
        loc.y >= header_height + size.h && size.h >= 0 ==> focus_at(size, header_height, loc)
            == Some(Focus::ResizeBottom),
{
}

/// Outside the header every part of the frame resizes.
pub proof fn only_the_header_does_not_resize(focus: Focus)
    ensures
        focus.edge() is None <==> focus == Focus::Header,
{
}

} // verus!
