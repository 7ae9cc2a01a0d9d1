//! Where the parts of a window's frame are, what they do, and how round its corners are.

use crate::geometry::{Point, Rectangle, Size};
use crate::shell::element::window;
use crate::shell::element::window::{
    AppearanceConfig, CosmicWindow, CursorIcon, Focus, PointerAction, ResizeEdge,
};
use vstd::prelude::*;

verus! {

/// At each corner of the frame, within 8 pixels of both edges, is the part that resizes from this
/// corner.
pub proof fn corners_are_near_two_edges(size: Size, header: int, loc: Point)
    requires
        size.w >= 16,
        header + size.h >= 16,
        header >= 0,
    ensures
        ({
            let part = window::focus_at(size, header, loc);
            let bottom = header + size.h;
            &&& part == Some(Focus::ResizeTopLeft) <==> loc.x < 8 && loc.y < 8
            &&& part == Some(Focus::ResizeTopRight) <==> loc.x >= size.w - 8 && loc.y < 8
            &&& part == Some(Focus::ResizeBottomLeft) <==> loc.x < 8 && loc.y >= bottom - 8
            &&& part == Some(Focus::ResizeBottomRight) <==> loc.x >= size.w - 8 && loc.y >= bottom
                - 8
        }),
{
}

/// Between the corners, beyond each edge is the part that resizes from this edge.
pub proof fn edges_are_beyond_the_window(size: Size, header: int, loc: Point)
    requires
        size.w >= 16,
        header + size.h >= 16,
        header >= 0,
        size.h >= 0,
    ensures
        ({
            let part = window::focus_at(size, header, loc);
            let bottom = header + size.h;
            &&& part == Some(Focus::ResizeTop) <==> 8 <= loc.x < size.w - 8 && loc.y < 0
            &&& part == Some(Focus::ResizeBottom) <==> 8 <= loc.x < size.w - 8 && loc.y >= bottom
            &&& part == Some(Focus::ResizeLeft) <==> 8 <= loc.y < bottom - 8 && loc.x < 0
            &&& part == Some(Focus::ResizeRight) <==> 8 <= loc.y < bottom - 8 && loc.x >= size.w
            &&& part == Some(Focus::Header) ==> 0 <= loc.x < size.w && 0 <= loc.y < header
            &&& part is None ==> 0 <= loc.x < size.w && header <= loc.y < bottom
        }),
{
}

/// The shape of the pointer and the edge of a part of the frame name the same direction of the
/// compass, and no other part has the edge.
pub proof fn shapes_show_where_to_resize(part: Focus)
    ensures
        part.edge() == Some(ResizeEdge::Top) <==> part.shape() == CursorIcon::NResize,
        part.edge() == Some(ResizeEdge::Bottom) <==> part.shape() == CursorIcon::SResize,
        part.edge() == Some(ResizeEdge::Left) <==> part.shape() == CursorIcon::WResize,
        part.edge() == Some(ResizeEdge::Right) <==> part.shape() == CursorIcon::EResize,
        part.edge() == Some(ResizeEdge::TopLeft) <==> part.shape() == CursorIcon::NwResize,
        part.edge() == Some(ResizeEdge::TopRight) <==> part.shape() == CursorIcon::NeResize,
        part.edge() == Some(ResizeEdge::BottomLeft) <==> part.shape() == CursorIcon::SwResize,
        part.edge() == Some(ResizeEdge::BottomRight) <==> part.shape() == CursorIcon::SeResize,
        part.edge() is None <==> part.shape() == CursorIcon::Default,
        part == Focus::ResizeTop <==> part.edge() == Some(ResizeEdge::Top),
        part == Focus::ResizeBottom <==> part.edge() == Some(ResizeEdge::Bottom),
        part == Focus::ResizeLeft <==> part.edge() == Some(ResizeEdge::Left),
        part == Focus::ResizeRight <==> part.edge() == Some(ResizeEdge::Right),
        part == Focus::ResizeTopLeft <==> part.edge() == Some(ResizeEdge::TopLeft),
        part == Focus::ResizeTopRight <==> part.edge() == Some(ResizeEdge::TopRight),
        part == Focus::ResizeBottomLeft <==> part.edge() == Some(ResizeEdge::BottomLeft),
        part == Focus::ResizeBottomRight <==> part.edge() == Some(ResizeEdge::BottomRight),
{
}

/// A position is on the border where it is at most 10 pixels outside one of the four edges.
pub proof fn the_border_is_around_the_window(
    geo: Rectangle,
    header: int,
    point: Point,
)
    requires
        geo.loc.x == 0 && geo.loc.y == 0,
        header >= 0,
        geo.size.w >= 0 && geo.size.h + header >= 0,
    ensures
        -10 <= point.x < 0 ==> window::on_border(geo, header, point),
        -10 <= point.y < 0 ==> window::on_border(geo, header, point),
        geo.size.w <= point.x < geo.size.w + 10 ==> window::on_border(geo, header, point),
        geo.size.h + header <= point.y < geo.size.h + header + 10 ==> window::on_border(
            geo,
            header,
            point,
        ),
        0 <= point.x < geo.size.w && 0 <= point.y < geo.size.h + header ==> !window::on_border(
            geo,
            header,
            point,
        ),
        (point.x < -10 || point.x >= geo.size.w + 10) && (point.y < -10 || point.y >= geo.size.h
            + header + 10) ==> !window::on_border(geo, header, point),
        point.y < header ==> window::on_frame(geo, header, point),
        0 <= point.x < geo.size.w && header <= point.y < geo.size.h + header ==> !window::on_frame(
            geo,
            header,
            point,
        ),
{
}

/// The border moves with the window.
pub proof fn the_border_moves_with_the_window(
    geo: Rectangle,
    moved: Rectangle,
    header: int,
    point: Point,
    other: Point,
)
    requires
        geo.size == moved.size,
        point.x - geo.loc.x == other.x - moved.loc.x,
        point.y - geo.loc.y == other.y - moved.loc.y,
    ensures
        window::on_border(geo, header, point) == window::on_border(moved, header, other),
        window::on_frame(geo, header, point) == window::on_frame(moved, header, other),
{
}

/// On the header, pressing the left button of the pointer, 0x110, moves the window and pressing
/// the right one, 0x111, opens its menu; other buttons, and letting go, do nothing.
pub proof fn the_header_moves_the_window(
    surface: u64,
    pressed: bool,
    button: u32,
    any_button: bool,
)
    ensures
        ({
            let action = window::frame_button(
                Some(Focus::Header),
                Some(surface),
                pressed,
                button,
                any_button,
            );
            &&& pressed && button == 0x110 ==> action == Some(PointerAction::Move { surface })
            &&& pressed && button == 0x111 ==> action == Some(PointerAction::Menu { surface })
            &&& !pressed || (button != 0x110 && button != 0x111) ==> action is None
        }),
{
}

/// On the rest of the frame, pressing the left button resizes from the edge under the pointer;
/// another button, or letting go, does so only where every button does.
pub proof fn the_rest_of_the_frame_resizes(
    part: Focus,
    edge: ResizeEdge,
    surface: u64,
    pressed: bool,
    button: u32,
    any_button: bool,
)
    requires
        part.edge() == Some(edge),
    ensures
        ({
            let action = window::frame_button(
                Some(part),
                Some(surface),
                pressed,
                button,
                any_button,
            );
            &&& pressed && button == 0x110 ==> action == Some(
                PointerAction::Resize { surface, edge },
            )
            &&& any_button ==> action == Some(PointerAction::Resize { surface, edge })
            &&& !any_button && (!pressed || button != 0x110) ==> action is None
        }),
        window::frame_button(None, Some(surface), pressed, button, any_button) is None,
        window::frame_button(Some(part), None, pressed, button, any_button) is None,
{
}

/// The frame keeps the radii of the theme, except where the compositor draws the header and the
/// window is not clipped: there the corners at the bottom are square, and of a tiled window all.
pub proof fn frames_have_the_radii_of_the_theme(radii: Seq<u8>, ssd: bool, clip: bool, tiled: bool)
    requires
        radii.len() == 4,
    ensures
        ({
            let frame = window::frame_radii(radii, ssd, clip, tiled);
            &&& frame.len() == 4
            &&& !ssd || clip ==> frame == radii
            &&& ssd && !clip ==> frame[0] == 0 && frame[2] == 0
            &&& ssd && !clip && !tiled ==> frame[1] == radii[1] && frame[3] == radii[3]
            &&& ssd && !clip && tiled ==> frame[1] == 0 && frame[3] == 0
        }),
{
}

/// Whether windows are clipped is decided for tiled and for other windows apart.
pub proof fn clipping_is_configured_for_tiled_and_other_windows(w: CosmicWindow)
    ensures
        w.tiled ==> w.clips() == w.appearance_conf.clip_tiled_windows,
        !w.tiled ==> w.clips() == w.appearance_conf.clip_floating_windows,
        w.window.decorated ==> !w.ssd() && w.header() == 0,
        !w.window.decorated ==> w.ssd() && w.header() == 36,
        w.pending_ssd() == !w.window.pending_decorated,
        w.framed() <==> !w.window.decorated || w.window.tiled_state == Some(true),
{
}

/// Surfaces are clipped only where windows are, and not where the window is maximised or all its
/// corners are square; below a header the corners at the top are.
pub proof fn surfaces_are_clipped_with_their_window(w: CosmicWindow, radii: Seq<u8>)
    requires
        radii.len() == 4,
    ensures
        w.window.maximized || !w.clips() ==> w.clip_radii(radii) is None,
        !w.window.maximized && w.clips() && w.window.decorated && radii[0] > 0 ==> w.clip_radii(
            radii,
        ) == Some(radii),
        !w.window.maximized && w.clips() && !w.window.decorated && radii[0] > 0 ==> (w.clip_radii(
            radii,
        ) matches Some(r) && r.len() == 4 && r[0] == radii[0] && r[1] == 0 && r[2] == radii[2]
            && r[3] == 0),
        radii[0] == 0 && radii[1] == 0 && radii[2] == 0 && radii[3] == 0 ==> w.clip_radii(radii)
            is None,
{
    if !w.window.maximized && w.clips() && w.window.decorated {
        assert(w.inner_radii(radii) =~= radii);
    }
}

/// A clipped corner is as round as the rounder of what the theme and the client want; at the top
/// of a header it is as round as the theme wants.
pub proof fn clipped_corners_are_as_round_as_wanted(
    w: CosmicWindow,
    theme: Seq<u8>,
    own: Seq<u8>,
    default_radius: u8,
    i: int,
)
    requires
        theme.len() == 4 && own.len() == 4,
        0 <= i < 4,
        w.clips() && !w.window.maximized,
    ensures
        ({
            let r = w.corners(theme, Some(own), default_radius);
            &&& r.len() == 4
            &&& w.window.decorated || i == 0 || i == 2 ==> r[i] >= theme[i] && r[i] >= own[i] && (
            r[i] == theme[i] || r[i] == own[i])
            &&& !w.window.decorated && (i == 1 || i == 3) ==> r[i] == theme[i]
        }),
        w.corners(theme, None, default_radius) == theme,
{
    assert(w.corners(theme, None, default_radius) =~= theme);
}

/// A corner that is not clipped is as round as the client wants, or else as by default; at the
/// top of a header it is as round as the theme wants, unless the window is maximised or tiled.
pub proof fn other_corners_are_the_clients(
    w: CosmicWindow,
    theme: Seq<u8>,
    own: Seq<u8>,
    default_radius: u8,
    i: int,
)
    requires
        theme.len() == 4 && own.len() == 4,
        0 <= i < 4,
        !w.clips() || w.window.maximized,
    ensures
        ({
            let r = w.corners(theme, Some(own), default_radius);
            let plain = w.corners(theme, None, default_radius);
            &&& r.len() == 4 && plain.len() == 4
            &&& w.window.decorated || i == 0 || i == 2 ==> r[i] == own[i] && plain[i]
                == default_radius
            &&& !w.window.decorated && (i == 1 || i == 3) && (w.tiled || w.window.maximized)
                && !w.appearance_conf.clip_tiled_windows ==> r[i] == 0 && plain[i] == 0
            &&& !w.window.decorated && (i == 1 || i == 3) && w.window.maximized ==> r[i] == 0
                && plain[i] == 0
            &&& !w.window.decorated && (i == 1 || i == 3) && !w.tiled && !w.window.maximized
                ==> r[i] == theme[i] && plain[i] == theme[i]
        }),
{
}

/// A length is limited from both sides.
pub proof fn lengths_are_limited(length: int, limit: int)
    ensures
        0 <= length <= limit ==> window::limited(length, limit) == length,
        length < 0 && limit >= 0 ==> window::limited(length, limit) == 0,
        length > limit && limit >= 0 ==> window::limited(length, limit) == limit,
        limit < 0 ==> window::limited(length, limit) == limit,
{
}

/// A header adds its height to a size.
pub proof fn headers_add_their_height(size: Size, header: int)
    requires
        0 <= header <= i32::MAX,
        size.h + header <= i32::MAX,
    ensures
        window::with_header(Some(size), header) matches Some(s) && s.w == size.w && s.h == size.h
            + header,
        window::with_header(None, header) is None,
{
}

/// A surface is drawn with its corners cut off where it reaches into one and there are radii to
/// clip to, and else as it is.
pub proof fn surfaces_in_corners_are_clipped(
    elements: Seq<window::SurfaceElement>,
    clip: Option<Seq<u8>>,
    in_corner: Seq<bool>,
    i: int,
)
    requires
        window::drawn_as(elements, clip, in_corner),
        0 <= i < in_corner.len(),
    ensures
        elements.len() == in_corner.len(),
        elements[i] is Clipped <==> in_corner[i] && clip is Some,
        elements[i] matches window::SurfaceElement::Clipped { radii } ==> clip == Some(radii@),
{
}

/// The frame of a window is found at the same place wherever the window is.
pub proof fn the_frame_moves_with_the_window(
    a: CosmicWindow,
    b: CosmicWindow,
    p: Point,
    q: Point,
)
    requires
        a.window.geometry.size == b.window.geometry.size,
        a.window.decorated == b.window.decorated,
        a.window.tiled_state == b.window.tiled_state,
        p.x - a.window.geometry.loc.x == q.x - b.window.geometry.loc.x,
        p.y - a.window.geometry.loc.y == q.y - b.window.geometry.loc.y,
    ensures
        a.frame_at(p) == b.frame_at(q),
        a.window.decorated && a.window.tiled_state != Some(true) ==> a.frame_at(p) is None,
{
}

/// Equal configurations clip and shadow alike.
pub proof fn appearances_are_equal_by_their_parts(a: AppearanceConfig, b: AppearanceConfig)
    ensures
        a == b <==> a.clip_floating_windows == b.clip_floating_windows && a.clip_tiled_windows
            == b.clip_tiled_windows && a.shadow_tiled_windows == b.shadow_tiled_windows,
{
}

} // verus!
