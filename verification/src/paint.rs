//! What a frame is made of: colours and drawing commands.
//!
//! The library draws nothing. It hands back the commands of a frame, in the
//! order in which they are to be carried out on the surface.

use vstd::prelude::*;
use crate::fixed::UNIT;

verus! {

/// A colour. Channels of `Rgba` are bytes; every other component is in fixed point:
/// the hue in degrees, saturation and lightness in percent, alpha as a ratio.
#[derive(Clone, Copy, Debug, PartialEq, Eq)]
pub enum Color {
    Rgba { red: u8, green: u8, blue: u8, alpha: i64 },
    Hsla { hue: i64, saturation: i64, lightness: i64, alpha: i64 },
}

/// One operation on the drawing surface. Lengths and positions are in fixed-point pixels.
#[derive(Clone, Copy, Debug, PartialEq, Eq)]
pub enum DrawCommand {
    /// Fill the rectangle with corner `(x, y)` and the given size.
    FillRect { x: i64, y: i64, width: i64, height: i64, color: Color },
    /// Fill the full disc around `(x, y)`.
    FillCircle { x: i64, y: i64, radius: i64, color: Color },
    /// Let every later fill cast a blurred shadow of this colour.
    Glow { color: Color, blur: i64 },
    /// Fill `text` in `font`, centred horizontally on `x`, with its baseline at `y`.
    FillText { text: &'static str, font: &'static str, x: i64, y: i64, color: Color },
    /// Let later fills cast no blurred shadow any more.
    ClearGlow,
}

/// A colour as numbers.
pub enum ColorView {
    Rgba { red: int, green: int, blue: int, alpha: int },
    Hsla { hue: int, saturation: int, lightness: int, alpha: int },
}

/// A drawing command as numbers and text.
pub enum CommandView {
    FillRect { x: int, y: int, width: int, height: int, color: ColorView },
    FillCircle { x: int, y: int, radius: int, color: ColorView },
    Glow { color: ColorView, blur: int },
    FillText { text: Seq<char>, font: Seq<char>, x: int, y: int, color: ColorView },
    ClearGlow,
}

impl View for Color {
    type V = ColorView;

    open spec fn view(&self) -> ColorView {
        match *self {
            Color::Rgba { red, green, blue, alpha } => ColorView::Rgba {
                red: red as int,
                green: green as int,
                blue: blue as int,
                alpha: alpha as int,
            },
            Color::Hsla { hue, saturation, lightness, alpha } => ColorView::Hsla {
                hue: hue as int,
                saturation: saturation as int,
                lightness: lightness as int,
                alpha: alpha as int,
            },
        }
    }
}

impl View for DrawCommand {
    type V = CommandView;

    open spec fn view(&self) -> CommandView {
        match *self {
            DrawCommand::FillRect { x, y, width, height, color } => CommandView::FillRect {
                x: x as int,
                y: y as int,
                width: width as int,
                height: height as int,
                color: color@,
            },
            DrawCommand::FillCircle { x, y, radius, color } => CommandView::FillCircle {
                x: x as int,
                y: y as int,
                radius: radius as int,
                color: color@,
            },
            DrawCommand::Glow { color, blur } => CommandView::Glow { color: color@, blur: blur as int },
            DrawCommand::FillText { text, font, x, y, color } => CommandView::FillText {
                text: text@,
                font: font@,
                x: x as int,
                y: y as int,
                color: color@,
            },
            DrawCommand::ClearGlow => CommandView::ClearGlow,
        }
    }
}

/// The commands of a list, each as numbers and text.
pub open spec fn frame_view(frame: Seq<DrawCommand>) -> Seq<CommandView> {
    Seq::new(frame.len(), |i: int| frame[i]@)
}

/// An opaque colour given by its three channels.
pub open spec fn opaque(red: int, green: int, blue: int) -> ColorView {
    ColorView::Rgba { red, green, blue, alpha: UNIT as int }
}

/// A filled disc.
pub open spec fn disc(x: int, y: int, radius: int, color: ColorView) -> CommandView {
    CommandView::FillCircle { x, y, radius, color }
}

/// The view of two lists joined is the two views joined.
pub proof fn lemma_frame_view_add(front: Seq<DrawCommand>, back: Seq<DrawCommand>)
    ensures
        frame_view(front + back) == frame_view(front) + frame_view(back),
{
    assert(frame_view(front + back) =~= frame_view(front) + frame_view(back));
}

} // verus!
