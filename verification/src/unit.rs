//! The entities of the world: the player, the enemies that chase it, the
//! walls, and the collectible.

use crate::point::{clamp_i32, scaled_product, unit_part, Fixed, Point2d};
use crate::traits::Position;
use vstd::prelude::*;

verus! {

/// The four ways the player can face. Rows grow downwards, so `Up` leads to
/// smaller rows.
#[derive(Clone, Copy, Debug, PartialEq, Eq, Structural)]
pub enum Heading {
    Up,
    Down,
    Left,
    Right,
}

/// A wall: one cell that the player cannot enter.
#[derive(Clone, Copy, Debug, PartialEq, Eq, Structural)]
pub struct Wall {
    pub position: Point2d<u16>,
}

/// The collectible: one cell that raises the score when the player reaches it.
#[derive(Clone, Copy, Debug, PartialEq, Eq, Structural)]
pub struct Collectible {
    pub position: Point2d<u16>,
}

/// An enemy: it moves by `speed` per tick along `direction`, which it turns
/// towards the player at every tick.
#[derive(Clone, Copy, Debug, PartialEq, Eq, Structural)]
pub struct Enemy {
    pub position: Point2d<Fixed>,
    pub speed: Fixed,
    pub direction: Point2d<Fixed>,
}

/// The player.
#[derive(Clone, Copy, Debug, PartialEq, Eq, Structural)]
pub struct Player {
    pub position: Point2d<Fixed>,
    pub speed: Fixed,
    pub health: u8,
    pub heading: Heading,
}

/// What a player starts a session with.
#[derive(Clone, Copy, Debug, PartialEq, Eq, Structural)]
pub struct PlayerBuilder {
    pub health: u8,
    pub speed: Fixed,
    pub position: Point2d<Fixed>,
}

/// Health of a player built without further options.
pub const DEFAULT_HEALTH: u8 = 3;

/// Speed, in thousandths of a cell per tick, of a player built without
/// further options.
pub const DEFAULT_SPEED: i32 = 1000;

/// The point that lies `speed` thousandths from `from` in the direction
/// `heading`.
pub open spec fn step_from(from: Point2d<Fixed>, heading: Heading, speed: Fixed) -> Point2d<Fixed> {
    match heading {
        Heading::Up => Point2d {
            x: from.x,
            y: Fixed { milli: clamp_i32(from.y.milli - speed.milli) as i32 },
        },
        Heading::Down => Point2d {
            x: from.x,
            y: Fixed { milli: clamp_i32(from.y.milli + speed.milli) as i32 },
        },
        Heading::Left => Point2d {
            x: Fixed { milli: clamp_i32(from.x.milli - speed.milli) as i32 },
            y: from.y,
        },
        Heading::Right => Point2d {
            x: Fixed { milli: clamp_i32(from.x.milli + speed.milli) as i32 },
            y: from.y,
        },
    }
}

/// The point an enemy at `from` with speed `speed` reaches in one tick of
/// pursuit of `target`.
pub open spec fn chase_from(from: Point2d<Fixed>, speed: Fixed, target: Point2d<Fixed>) -> Point2d<
    Fixed,
> {
    let ux = unit_part(target.x.milli - from.x.milli, target.y.milli - from.y.milli);
    let uy = unit_part(target.y.milli - from.y.milli, target.x.milli - from.x.milli);
    Point2d {
        x: Fixed { milli: clamp_i32(from.x.milli + scaled_product(speed.milli as int, ux)) as i32 },
        y: Fixed { milli: clamp_i32(from.y.milli + scaled_product(speed.milli as int, uy)) as i32 },
    }
}

impl Wall {
    /// A wall on the cell in column `x` and row `y`.
    pub fn new(x: u16, y: u16) -> (wall: Wall)
        ensures
            wall.position == (Point2d { x, y }),
    {
        Wall { position: Point2d { x, y } }
    }
}

impl Default for Wall {
    fn default() -> (wall: Wall)
        ensures
            wall.position == (Point2d { x: 0u16, y: 0u16 }),
    {
        Wall { position: Point2d { x: 0, y: 0 } }
    }
}

impl Position<u16> for Wall {
    open spec fn location(&self) -> Point2d<u16> {
        self.position
    }

    open spec fn relocated(&self, position: Point2d<u16>) -> Wall {
        Wall { position }
    }

    fn position(&self) -> (p: Point2d<u16>) {
        self.position
    }

    fn set_position(&mut self, position: Point2d<u16>) {
        self.position = position;
    }
}

impl Collectible {
    /// A collectible on the cell in column `x` and row `y`.
    pub fn new(x: u16, y: u16) -> (collectible: Collectible)
        ensures
            collectible.position == (Point2d { x, y }),
    {
        Collectible { position: Point2d { x, y } }
    }
}

impl Default for Collectible {
    fn default() -> (collectible: Collectible)
        ensures
            collectible.position == (Point2d { x: 0u16, y: 0u16 }),
    {
        Collectible { position: Point2d { x: 0, y: 0 } }
    }
}

impl Position<u16> for Collectible {
    open spec fn location(&self) -> Point2d<u16> {
        self.position
    }

    open spec fn relocated(&self, position: Point2d<u16>) -> Collectible {
        Collectible { position }
    }

    fn position(&self) -> (p: Point2d<u16>) {
        self.position
    }

    fn set_position(&mut self, position: Point2d<u16>) {
        self.position = position;
    }
}

impl Enemy {
    /// An enemy of the given speed, at the origin and with no direction yet.
    pub fn with_speed(speed: Fixed) -> (enemy: Enemy)
        ensures
            enemy.speed == speed,
            enemy.position == (Point2d { x: Fixed { milli: 0 }, y: Fixed { milli: 0 } }),
            enemy.direction == (Point2d { x: Fixed { milli: 0 }, y: Fixed { milli: 0 } }),
    {
        Enemy {
            position: Point2d { x: Fixed { milli: 0 }, y: Fixed { milli: 0 } },
            speed,
            direction: Point2d { x: Fixed { milli: 0 }, y: Fixed { milli: 0 } },
        }
    }

    pub fn speed(&self) -> (speed: Fixed)
        ensures
            speed == self.speed,
    {
        self.speed
    }

    pub fn direction(&self) -> (direction: Point2d<Fixed>)
        ensures
            direction == self.direction,
    {
        self.direction
    }

    /// The enemy after one tick of pursuit of a target at `target`.
    pub open spec fn chasing(self, target: Point2d<Fixed>) -> Enemy {
        Enemy {
            position: chase_from(self.position, self.speed, target),
            speed: self.speed,
            direction: Point2d {
                x: Fixed {
                    milli: unit_part(
                        target.x.milli - self.position.x.milli,
                        target.y.milli - self.position.y.milli,
                    ) as i32,
                },
                y: Fixed {
                    milli: unit_part(
                        target.y.milli - self.position.y.milli,
                        target.x.milli - self.position.x.milli,
                    ) as i32,
                },
            },
        }
    }

    /// Turns towards the player and moves by the enemy's speed along the
    /// vector of length one that points at the player. An enemy that stands
    /// where the player stands stays there.
    pub fn move_towards_player(&mut self, player: &Player)
        ensures
            *final(self) == old(self).chasing(player.position),
            old(self).position == player.position ==> final(self).position == old(self).position,
    {
        let unit = self.position.unit_towards(&player.position);
        self.direction = unit;
        let dx = self.speed.scaled(unit.x);
        let dy = self.speed.scaled(unit.y);
        proof {
            if self.position == player.position {
                assert(self.speed.milli * 0 == 0);
            }
        }
        self.position = Point2d { x: self.position.x.plus(dx), y: self.position.y.plus(dy) };
    }
}

impl Position<Fixed> for Enemy {
    open spec fn location(&self) -> Point2d<Fixed> {
        self.position
    }

    open spec fn relocated(&self, position: Point2d<Fixed>) -> Enemy {
        Enemy { position, speed: self.speed, direction: self.direction }
    }

    fn position(&self) -> (p: Point2d<Fixed>) {
        self.position
    }

    fn set_position(&mut self, position: Point2d<Fixed>) {
        self.position = position;
    }
}

impl PlayerBuilder {
    /// The options of a player with three points of health and a speed of
    /// one cell per tick, on the cell in column 1 and row 1.
    pub fn new() -> (builder: PlayerBuilder)
        ensures
            builder.health == DEFAULT_HEALTH,
            builder.speed.milli == DEFAULT_SPEED,
            builder.position == (Point2d { x: Fixed { milli: 1000 }, y: Fixed { milli: 1000 } }),
    {
        PlayerBuilder {
            health: DEFAULT_HEALTH,
            speed: Fixed { milli: DEFAULT_SPEED },
            position: Point2d { x: Fixed { milli: 1000 }, y: Fixed { milli: 1000 } },
        }
    }

    pub fn health(self, health: u8) -> (builder: PlayerBuilder)
        ensures
            builder == (PlayerBuilder { health, ..self }),
    {
        PlayerBuilder { health, ..self }
    }

    pub fn speed(self, speed: Fixed) -> (builder: PlayerBuilder)
        ensures
            builder == (PlayerBuilder { speed, ..self }),
    {
        PlayerBuilder { speed, ..self }
    }

    pub fn position(self, position: Point2d<Fixed>) -> (builder: PlayerBuilder)
        ensures
            builder == (PlayerBuilder { position, ..self }),
    {
        PlayerBuilder { position, ..self }
    }

    /// The player that `build` makes of these options.
    pub open spec fn built(self) -> Player {
        Player {
            position: self.position,
            speed: self.speed,
            health: self.health,
            heading: Heading::Right,
        }
    }

    /// A player with these options, facing right.
    pub fn build(self) -> (player: Player)
        ensures
            player == self.built(),
    {
        Player {
            position: self.position,
            speed: self.speed,
            health: self.health,
            heading: Heading::Right,
        }
    }
}

impl Player {
    /// Where one step forward would bring the player.
    pub open spec fn forward(self) -> Point2d<Fixed> {
        step_from(self.position, self.heading, self.speed)
    }

    pub fn health(&self) -> (health: u8)
        ensures
            health == self.health,
    {
        self.health
    }

    pub fn speed(&self) -> (speed: Fixed)
        ensures
            speed == self.speed,
    {
        self.speed
    }

    pub fn heading(&self) -> (heading: Heading)
        ensures
            heading == self.heading,
    {
        self.heading
    }

    /// Whether any health is left.
    pub fn is_alive(&self) -> (alive: bool)
        ensures
            alive == (self.health > 0),
    {
        self.health > 0
    }

    /// Takes `amount` from the health, which stops at zero.
    pub fn take_damage(&mut self, amount: u8)
        ensures
            final(self).health == if old(self).health >= amount {
                old(self).health - amount
            } else {
                0
            },
            final(self).position == old(self).position,
            final(self).speed == old(self).speed,
            final(self).heading == old(self).heading,
    {
        self.health = if self.health >= amount {
            self.health - amount
        } else {
            0
        };
    }

    /// Faces the player towards `heading`.
    pub fn turn(&mut self, heading: Heading)
        ensures
            *final(self) == (Player { heading, ..*old(self) }),
    {
        self.heading = heading;
    }

    /// Where one step forward would bring the player; the player stays.
    pub fn forward_position(&self) -> (next: Point2d<Fixed>)
        ensures
            next == self.forward(),
    {
        match self.heading {
            Heading::Up => Point2d { x: self.position.x, y: self.position.y.minus(self.speed) },
            Heading::Down => Point2d { x: self.position.x, y: self.position.y.plus(self.speed) },
            Heading::Left => Point2d { x: self.position.x.minus(self.speed), y: self.position.y },
            Heading::Right => Point2d { x: self.position.x.plus(self.speed), y: self.position.y },
        }
    }

    /// Takes one step forward.
    pub fn move_forward(&mut self)
        ensures
            *final(self) == (Player { position: old(self).forward(), ..*old(self) }),
    {
        self.position = self.forward_position();
    }
}

impl Position<Fixed> for Player {
    open spec fn location(&self) -> Point2d<Fixed> {
        self.position
    }

    open spec fn relocated(&self, position: Point2d<Fixed>) -> Player {
        Player { position, ..*self }
    }

    fn position(&self) -> (p: Point2d<Fixed>) {
        self.position
    }

    fn set_position(&mut self, position: Point2d<Fixed>) {
        self.position = position;
    }
}

} // verus!
