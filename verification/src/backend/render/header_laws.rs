//! What the header of a window looks like.

use crate::backend::render::window_header;
use crate::backend::render::window_header::{
    ButtonInteraction, ButtonVisibility, HeaderButton, HeaderVisualState, IconPart,
};
use vstd::prelude::*;

verus! {

/// The button that closes is always there, 14 pixels from the right end of the header beyond a
/// gap of 6; the one that maximises is 30 to the left of it, and the one that minimises 30 to the
/// left of what follows it.
pub proof fn buttons_are_thirty_pixels_apart(width: int, buttons: ButtonVisibility)
    requires
        -0x100_0000 <= width <= 0x100_0000,
    ensures
        ({
            let all = window_header::button_layout(width, buttons);
            let n = all.len() as int;
            &&& n == 1 + (if buttons.has_minimize {
                1int
            } else {
                0
            }) + (if buttons.has_maximize {
                1int
            } else {
                0
            })
            &&& all[n - 1].button == HeaderButton::Close && all[n - 1].center_x == width - 20
            &&& buttons.has_maximize ==> all[n - 2].button == HeaderButton::Maximize && all[n
                - 2].center_x == width - 50
            &&& buttons.has_minimize ==> all[0].button == HeaderButton::Minimize
            &&& buttons.has_minimize && buttons.has_maximize ==> all[0].center_x == width - 80
            &&& buttons.has_minimize && !buttons.has_maximize ==> all[0].center_x == width - 50
            &&& forall|i: int|
                0 <= i < n ==> (#[trigger] all[i]).center_y == 18 && all[i].width == 28
                    && all[i].height == 22
        }),
{
}

/// A button is under the pointer where that is over it, pressed or not, and no other button is.
pub proof fn one_button_is_under_the_pointer(button: HeaderButton, other: HeaderButton)
    ensures
        window_header::hovered(button, ButtonInteraction::Hover(other)) <==> button == other,
        window_header::hovered(button, ButtonInteraction::Pressed(other)) <==> button == other,
        !window_header::hovered(button, ButtonInteraction::Idle),
{
}

/// A button is drawn fully under the pointer in a window with the focus, at 70 percent where only
/// one of the two holds, and at 40 where neither does.
pub proof fn buttons_stand_out_under_the_pointer()
    ensures
        window_header::button_opacity(true, true) == 100,
        window_header::button_opacity(true, false) == 70,
        window_header::button_opacity(false, true) == 70,
        window_header::button_opacity(false, false) == 40,
{
}

/// Two headers look alike where they agree in all but the title and the scale.
pub proof fn titles_do_not_matter(a: HeaderVisualState, b: HeaderVisualState)
    ensures
        a.alike(b) <==> a.width == b.width && a.activated == b.activated && a.buttons.has_minimize
            == b.buttons.has_minimize && a.buttons.has_maximize == b.buttons.has_maximize
            && a.interaction == b.interaction && a.focused_button == b.focused_button
            && a.theme_generation == b.theme_generation,
        a.alike(a),
        a.alike(b) == b.alike(a),
{
}

/// The middle of the grid of icons is drawn at the middle of the button, and its ends half of the
/// size of the icon away from it, in twenty-fourths of a pixel.
pub proof fn icons_are_drawn_around_the_middle(center: int, size: int)
    ensures
        window_header::drawn_at(center, size, 12) == 24 * center,
        window_header::drawn_at(center, size, 0) == 24 * center - 12 * size,
        window_header::drawn_at(center, size, 24) == 24 * center + 12 * size,
{
    assert((12 - 12) * size == 0) by (nonlinear_arith);
    assert((0 - 12) * size == -(12 * size)) by (nonlinear_arith);
    assert((24 - 12) * size == 12 * size) by (nonlinear_arith);
}

/// The icons: a line across the middle, a square around it, and two diagonals through it; each
/// is the same seen from either side.
pub proof fn icons_are_symmetric(button: HeaderButton, i: int)
    requires
        0 <= i < window_header::icon_of(button).len(),
    ensures
        window_header::icon_of(button)[i] matches IconPart::Line { x1, y1, x2, y2 } ==> x1 + x2
            == 24 && y1 + y2 == 24,
        window_header::icon_of(button)[i] matches IconPart::RoundedSquare { x, y, side, corner }
            ==> 2 * x + side == 24 && 2 * y + side == 24 && corner == 2,
        button == HeaderButton::Minimize ==> window_header::icon_of(button).len() == 1
            && window_header::icon_size_of(button) == 12 && (window_header::icon_of(
            button,
        )[0] matches IconPart::Line { x1, y1, x2, y2 } && y1 == y2 && x1 == 5),
        button == HeaderButton::Maximize ==> window_header::icon_of(button).len() == 1
            && window_header::icon_size_of(button) == 10 && (window_header::icon_of(
            button,
        )[0] matches IconPart::RoundedSquare { x, y, side, corner } && side == 18),
        button == HeaderButton::Close ==> window_header::icon_of(button).len() == 2
            && window_header::icon_size_of(button) == 12 && (window_header::icon_of(
            button,
        )[0] matches IconPart::Line { x1, y1, x2, y2 } && x1 == 18 && y1 == 6) && (
        window_header::icon_of(button)[1] matches IconPart::Line { x1, y1, x2, y2 } && x1 == 6 && y1
            == 6),
{
}

/// In each pixel red and blue are exchanged, and green and alpha stay.
pub proof fn red_and_blue_are_exchanged(data: Seq<u8>, k: int)
    requires
        0 <= k,
        4 * k + 4 <= data.len(),
    ensures
        ({
            let after = window_header::exchanged(data);
            &&& after.len() == data.len()
            &&& after[4 * k] == data[4 * k + 2]
            &&& after[4 * k + 1] == data[4 * k + 1]
            &&& after[4 * k + 2] == data[4 * k]
            &&& after[4 * k + 3] == data[4 * k + 3]
        }),
{
}

/// What is left behind the last whole pixel stays.
pub proof fn a_rest_of_a_pixel_stays(data: Seq<u8>, i: int)
    requires
        data.len() - data.len() % 4 <= i < data.len(),
    ensures
        window_header::exchanged(data)[i] == data[i],
{
}

} // verus!
