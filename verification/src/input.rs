//! Keys, and what each of them does to the player and to the session.

use crate::unit::{Heading, Player};
use vstd::prelude::*;

verus! {

/// A key as the game tells keys apart.
#[derive(Clone, Copy, Debug, PartialEq, Eq, Structural)]
pub enum Key {
    Up,
    Down,
    Left,
    Right,
    Esc,
    Char(char),
    /// Any other key.
    Other,
}

/// What a key asks for once the game is over.
#[derive(Clone, Copy, Debug, PartialEq, Eq, Structural)]
pub enum Choice {
    Restart,
    Quit,
    /// The key means nothing here.
    Wait,
}

impl Key {
    /// The heading that the key turns the player to, if it is one of the
    /// arrows or of `w`, `a`, `s`, `d`.
    pub open spec fn heading(self) -> Option<Heading> {
        match self {
            Key::Up => Some(Heading::Up),
            Key::Down => Some(Heading::Down),
            Key::Left => Some(Heading::Left),
            Key::Right => Some(Heading::Right),
            Key::Char(c) => if c == 'w' {
                Some(Heading::Up)
            } else if c == 's' {
                Some(Heading::Down)
            } else if c == 'a' {
                Some(Heading::Left)
            } else if c == 'd' {
                Some(Heading::Right)
            } else {
                None
            },
            _ => None,
        }
    }

    /// Whether the key asks to quit: `q`, `Q` or escape.
    pub open spec fn quits(self) -> bool {
        self == Key::Esc || self == Key::Char('q') || self == Key::Char('Q')
    }

    /// Whether the key asks to play again: `r` or `R`.
    pub open spec fn restarts(self) -> bool {
        self == Key::Char('r') || self == Key::Char('R')
    }

    /// What the key asks for once the game is over.
    pub open spec fn choice(self) -> Choice {
        if self.restarts() {
            Choice::Restart
        } else if self.quits() {
            Choice::Quit
        } else {
            Choice::Wait
        }
    }
}

/// Applies a key pressed during play: an arrow or one of `w`, `a`, `s`, `d`
/// turns the player, `q`, `Q` or escape sets `quit`, and any other key does
/// nothing.
pub fn handle_key_event(key: Key, player: &mut Player, quit: &mut bool)
    ensures
        *final(player) == match key.heading() {
            Some(heading) => Player { heading, ..*old(player) },
            None => *old(player),
        },
        *final(quit) == (*old(quit) || key.quits()),
{
    match key {
        Key::Up => player.turn(Heading::Up),
        Key::Down => player.turn(Heading::Down),
        Key::Left => player.turn(Heading::Left),
        Key::Right => player.turn(Heading::Right),
        Key::Char(c) => {
            if c == 'w' {
                player.turn(Heading::Up);
            } else if c == 's' {
                player.turn(Heading::Down);
            } else if c == 'a' {
                player.turn(Heading::Left);
            } else if c == 'd' {
                player.turn(Heading::Right);
            } else if c == 'q' || c == 'Q' {
                *quit = true;
            }
        },
        Key::Esc => {
            *quit = true;
        },
        Key::Other => {},
    }
}

/// What a key pressed after the end of the game asks for: `r` or `R` to
/// play again, `q`, `Q` or escape to quit.
pub fn game_over_choice(key: Key) -> (choice: Choice)
    ensures
        choice == key.choice(),
{
    match key {
        Key::Char(c) => {
            if c == 'r' || c == 'R' {
                Choice::Restart
            } else if c == 'q' || c == 'Q' {
                Choice::Quit
            } else {
                Choice::Wait
            }
        },
        Key::Esc => Choice::Quit,
        _ => Choice::Wait,
    }
}

} // verus!
