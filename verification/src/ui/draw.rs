//! How each entity is drawn: with which glyph, in which paint, on which
//! cell.

use crate::hud::Hud;
use crate::point::Fixed;
use crate::traits::{Coordinate, Position};
use crate::unit::{Collectible, Enemy, Player, Wall};
use vstd::prelude::*;

verus! {

/// How a piece of text is painted.
#[derive(Clone, Copy, Debug, PartialEq, Eq, Structural)]
pub enum Paint {
    Plain,
    Red,
    Blue,
    Green,
    OnDarkGrey,
}

/// One stroke of a frame: a text to print from a cell on to the right.
#[derive(Debug, PartialEq, Eq)]
pub struct Stroke {
    pub column: u16,
    pub row: u16,
    pub text: String,
    pub paint: Paint,
}

/// A stroke with its text as a sequence of characters.
pub struct StrokeView {
    pub column: u16,
    pub row: u16,
    pub text: Seq<char>,
    pub paint: Paint,
}

impl View for Stroke {
    type V = StrokeView;

    open spec fn view(&self) -> StrokeView {
        StrokeView { column: self.column, row: self.row, text: self.text@, paint: self.paint }
    }
}

/// The strokes of a frame, each by its view.
pub open spec fn pictured(frame: Seq<Stroke>) -> Seq<StrokeView> {
    frame.map_values(|stroke: Stroke| stroke@)
}

/// The stroke that draws `entity`: its glyph in its paint, on the cell
/// that its position rounds to.
pub open spec fn stroke_of<T: Coordinate, D: Draw<T>>(entity: D) -> StrokeView {
    StrokeView {
        column: entity.location().x.nearest(),
        row: entity.location().y.nearest(),
        text: entity.glyph_text(),
        paint: entity.glyph_paint(),
    }
}

/// Something that is drawn with a glyph where it stands.
pub trait Draw<T: Coordinate>: Position<T> {
    /// The text that `glyph` gives.
    spec fn glyph_text(&self) -> Seq<char>;

    /// The paint that `paint` gives.
    spec fn glyph_paint(&self) -> Paint;

    /// The glyph that stands for the entity on the screen.
    fn glyph(&self) -> (text: String)
        ensures
            text@ == self.glyph_text(),
    ;

    /// How the glyph is painted.
    fn paint(&self) -> (paint: Paint)
        ensures
            paint == self.glyph_paint(),
    ;

    /// Adds the stroke that draws the entity to `frame`.
    fn draw(&self, frame: &mut Vec<Stroke>)
        ensures
            pictured(final(frame)@) == pictured(old(frame)@).push(
                StrokeView {
                    column: self.location().x.nearest(),
                    row: self.location().y.nearest(),
                    text: self.glyph_text(),
                    paint: self.glyph_paint(),
                },
            ),
    {
        let position = self.position();
        let stroke = Stroke {
            column: position.x.to_cell(),
            row: position.y.to_cell(),
            text: self.glyph(),
            paint: self.paint(),
        };
        frame.push(stroke);
    }
}

impl Draw<Fixed> for Player {
    open spec fn glyph_text(&self) -> Seq<char> {
        "@"@
    }

    open spec fn glyph_paint(&self) -> Paint {
        Paint::Plain
    }

    fn glyph(&self) -> (text: String) {
        String::from_str("@")
    }

    fn paint(&self) -> (paint: Paint) {
        Paint::Plain
    }
}

impl Draw<u16> for Collectible {
    open spec fn glyph_text(&self) -> Seq<char> {
        "\u{2764}"@
    }

    open spec fn glyph_paint(&self) -> Paint {
        Paint::Red
    }

    fn glyph(&self) -> (text: String) {
        String::from_str("\u{2764}")
    }

    fn paint(&self) -> (paint: Paint) {
        Paint::Red
    }
}

impl Draw<u16> for Wall {
    open spec fn glyph_text(&self) -> Seq<char> {
        "\u{1F9F1}"@
    }

    open spec fn glyph_paint(&self) -> Paint {
        Paint::Plain
    }

    fn glyph(&self) -> (text: String) {
        String::from_str("\u{1F9F1}")
    }

    fn paint(&self) -> (paint: Paint) {
        Paint::Plain
    }
}

impl Draw<Fixed> for Enemy {
    open spec fn glyph_text(&self) -> Seq<char> {
        "\u{1F47E}"@
    }

    open spec fn glyph_paint(&self) -> Paint {
        Paint::Plain
    }

    fn glyph(&self) -> (text: String) {
        String::from_str("\u{1F47E}")
    }

    fn paint(&self) -> (paint: Paint) {
        Paint::Plain
    }
}

impl<'a> Draw<u16> for Hud<'a> {
    open spec fn glyph_text(&self) -> Seq<char> {
        self.line()
    }

    open spec fn glyph_paint(&self) -> Paint {
        Paint::Plain
    }

    fn glyph(&self) -> (text: String) {
        self.text()
    }

    fn paint(&self) -> (paint: Paint) {
        Paint::Plain
    }
}

} // verus!
