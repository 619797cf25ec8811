//! The status line below the arena.

use crate::point::Point2d;
use crate::text::{decimal, one_decimal, push_decimal, push_one_decimal};
use crate::traits::Position;
use crate::ui::draw::{pictured, Paint, Stroke, StrokeView};
use crate::unit::Player;
use vstd::prelude::*;

verus! {

/// Column of the health field.
pub const HEALTH_COLUMN: u16 = 10;

/// Column of the speed field.
pub const SPEED_COLUMN: u16 = 25;

/// Column of the score field.
pub const SCORE_COLUMN: u16 = 40;

/// The status line: the player's health and speed and the score, on one
/// row of the terminal.
pub struct Hud<'a> {
    pub score: u32,
    pub player: &'a Player,
    pub y_position: u16,
}

/// The health field for a player with `health` points left.
pub open spec fn health_text(health: u8) -> Seq<char> {
    "Health: "@ + decimal(health as nat)
}

/// The speed field for a player of speed `speed`.
pub open spec fn speed_text(speed: crate::point::Fixed) -> Seq<char> {
    "Speed: "@ + one_decimal(speed)
}

/// The score field for a score of `score`.
pub open spec fn score_text(score: u32) -> Seq<char> {
    "Score: "@ + decimal(score as nat)
}

/// The four strokes of the status line on row `row`: the tag, then health,
/// speed and score, each at its column.
pub open spec fn hud_strokes(score: u32, player: Player, row: u16) -> Seq<StrokeView> {
    seq![
        StrokeView { column: 0, row, text: " STATUS "@, paint: Paint::OnDarkGrey },
        StrokeView { column: HEALTH_COLUMN, row, text: health_text(player.health), paint: Paint::Red },
        StrokeView { column: SPEED_COLUMN, row, text: speed_text(player.speed), paint: Paint::Blue },
        StrokeView { column: SCORE_COLUMN, row, text: score_text(score), paint: Paint::Green },
    ]
}

impl<'a> Position<u16> for Hud<'a> {
    open spec fn location(&self) -> Point2d<u16> {
        Point2d { x: 0, y: self.y_position }
    }

    open spec fn relocated(&self, position: Point2d<u16>) -> Hud<'a> {
        Hud { score: self.score, player: self.player, y_position: position.y }
    }

    fn position(&self) -> (p: Point2d<u16>) {
        Point2d::new(0, self.y_position)
    }

    fn set_position(&mut self, position: Point2d<u16>) {
        self.y_position = position.y;
    }
}

impl<'a> Hud<'a> {
    /// The status line for `score` and `player`, on row `y_position`.
    pub fn new(score: u32, player: &'a Player, y_position: u16) -> (hud: Hud<'a>)
        ensures
            hud.score == score,
            hud.player == player,
            hud.y_position == y_position,
    {
        Hud { score, player, y_position }
    }

    /// The status line as one text.
    pub open spec fn line(&self) -> Seq<char> {
        health_text(self.player.health) + " | "@ + speed_text(self.player.speed) + " | "@
            + score_text(self.score)
    }

    /// Adds the four strokes of the status line to `frame`.
    pub fn draw(&self, frame: &mut Vec<Stroke>)
        ensures
            pictured(final(frame)@) == pictured(old(frame)@) + hud_strokes(
                self.score,
                *self.player,
                self.y_position,
            ),
    {
        let mut health_text = String::from_str("Health: ");
        push_decimal(&mut health_text, self.player.health() as u64);
        let mut speed_text = String::from_str("Speed: ");
        push_one_decimal(&mut speed_text, self.player.speed());
        let mut score_text = String::from_str("Score: ");
        push_decimal(&mut score_text, self.score as u64);

        frame.push(
            Stroke {
                column: 0,
                row: self.y_position,
                text: String::from_str(" STATUS "),
                paint: Paint::OnDarkGrey,
            },
        );
        frame.push(
            Stroke {
                column: HEALTH_COLUMN,
                row: self.y_position,
                text: health_text,
                paint: Paint::Red,
            },
        );
        frame.push(
            Stroke { column: SPEED_COLUMN, row: self.y_position, text: speed_text, paint: Paint::Blue },
        );
        frame.push(
            Stroke { column: SCORE_COLUMN, row: self.y_position, text: score_text, paint: Paint::Green },
        );
        assert(pictured(frame@) =~= pictured(old(frame)@) + hud_strokes(
            self.score,
            *self.player,
            self.y_position,
        ));
    }

    /// The status line as one text: health, speed with one digit after the
    /// point, and score, set apart by bars.
    pub fn text(&self) -> (text: String)
        ensures
            text@ == self.line(),
    {
        let mut text = String::from_str("Health: ");
        push_decimal(&mut text, self.player.health() as u64);
        text.append(" | ");
        text.append("Speed: ");
        push_one_decimal(&mut text, self.player.speed());
        text.append(" | ");
        text.append("Score: ");
        push_decimal(&mut text, self.score as u64);
        text
    }
}

} // verus!
