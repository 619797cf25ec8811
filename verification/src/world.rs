//! The world as contracts speak of it: the arena and its cells, the state
//! of a session, what setting a session up and one tick do to that state,
//! and what holds of every session.

use crate::hud::hud_strokes;
use crate::point::{Fixed, Point2d};
use crate::text::decimal;
use crate::ui::draw::{stroke_of, Paint, StrokeView};
use crate::unit::{
    Collectible, Enemy, Player, PlayerBuilder, Wall, DEFAULT_HEALTH, DEFAULT_SPEED,
};
use vstd::prelude::*;
use vstd::set_lib::{lemma_int_range, lemma_len_subset, lemma_map_size_bound, set_int_range};

verus! {

/// Number of enemies that `init` puts into the arena.
pub const ROSTER_SIZE: usize = 11;

/// Speed of the slowest enemy of the roster, in thousandths of a cell per
/// tick; the others have two, three, ... times this speed.
pub const ROSTER_STEP: i32 = 50;

/// Why a session cannot be set up.
#[derive(Clone, Copy, Debug, PartialEq, Eq, Structural)]
pub enum InitError {
    /// The arena has fewer than three columns or rows, so that no cell lies
    /// inside its border.
    ArenaTooSmall,
    /// There are at least as many random walls as cells inside the border,
    /// so that no cell might be left for the collectible.
    TooManyWalls,
}

/// Whether `cell` lies in an arena of `width` by `height` cells.
pub open spec fn in_arena(width: u16, height: u16, cell: Point2d<u16>) -> bool {
    cell.x < width && cell.y < height
}

/// Whether `cell` lies on the border of the arena.
pub open spec fn on_border(width: u16, height: u16, cell: Point2d<u16>) -> bool {
    in_arena(width, height, cell) && (cell.x == 0 || cell.x == width - 1 || cell.y == 0 || cell.y
        == height - 1)
}

/// Whether `cell` lies in the arena and off its border.
pub open spec fn interior(width: u16, height: u16, cell: Point2d<u16>) -> bool {
    1 <= cell.x < width - 1 && 1 <= cell.y < height - 1
}

/// Whether one of `walls` stands on `cell`.
pub open spec fn wall_at(walls: Seq<Wall>, cell: Point2d<u16>) -> bool {
    exists|i: int| 0 <= i < walls.len() && (#[trigger] walls[i]).position == cell
}

/// Number of border cells of an arena with at least two columns and rows.
pub open spec fn border_len(width: u16, height: u16) -> int {
    2 * width + 2 * height - 4
}

/// The `i`-th border wall: the top and bottom cell of each column, from
/// left to right, then the left and right cell of each row between them,
/// from the top down.
pub open spec fn border_wall(width: u16, height: u16, i: int) -> Wall {
    if i < 2 * width {
        Wall {
            position: Point2d {
                x: (i / 2) as u16,
                y: if i % 2 == 0 {
                    0u16
                } else {
                    (height - 1) as u16
                },
            },
        }
    } else {
        Wall {
            position: Point2d {
                x: if (i - 2 * width) % 2 == 0 {
                    0u16
                } else {
                    (width - 1) as u16
                },
                y: (1 + (i - 2 * width) / 2) as u16,
            },
        }
    }
}

/// What the configuration of a session lacks, if anything.
pub open spec fn config_error(width: u16, height: u16, n_random_walls: u16) -> Option<InitError> {
    if width < 3 || height < 3 {
        Some(InitError::ArenaTooSmall)
    } else if n_random_walls >= (width - 2) * (height - 2) {
        Some(InitError::TooManyWalls)
    } else {
        None
    }
}

/// The enemies after each has pursued `target` for one tick.
pub open spec fn chased(enemies: Seq<Enemy>, target: Point2d<Fixed>) -> Seq<Enemy> {
    Seq::new(enemies.len(), |i: int| enemies[i].chasing(target))
}

/// Number of enemies that stand in `cell`.
pub open spec fn hits(enemies: Seq<Enemy>, cell: Point2d<u16>) -> nat
    decreases enemies.len(),
{
    if enemies.len() == 0 {
        0
    } else {
        hits(enemies.drop_last(), cell) + if enemies.last().position.cell() == cell {
            1nat
        } else {
            0nat
        }
    }
}

/// A line of `width` horizontal bars.
pub open spec fn separator_text(width: u16) -> Seq<char>
    decreases width,
{
    if width == 0 {
        Seq::<char>::empty()
    } else {
        separator_text((width - 1) as u16) + "\u{2500}"@
    }
}

/// What is printed when the game is over with a score of `score`.
pub open spec fn game_over_text(score: u32) -> Seq<char> {
    "\nGame over! Score: "@ + decimal(score as nat) + "\n"@
        + "Press R(r) to restart or Q(q) to quit\n"@
}

/// The state of a session, without its random source.
pub struct GameView {
    pub width: u16,
    pub height: u16,
    pub n_random_walls: u16,
    pub update_interval: u64,
    pub player_builder: PlayerBuilder,
    pub score: u32,
    pub walls: Seq<Wall>,
    pub enemies: Seq<Enemy>,
    pub collectible: Collectible,
    pub player: Player,
}

impl GameView {
    /// Whether a wall stands on `cell`.
    pub open spec fn is_wall(self, cell: Point2d<u16>) -> bool {
        wall_at(self.walls, cell)
    }

    /// Whether `cell` lies inside the border and holds no wall.
    pub open spec fn is_free(self, cell: Point2d<u16>) -> bool {
        interior(self.width, self.height, cell) && !self.is_wall(cell)
    }

    /// Whether the player stands clear of every wall.
    pub open spec fn player_clear(self) -> bool {
        !self.is_wall(self.player.position.cell())
    }

    /// What holds of a session that has been set up: the arena has an
    /// inside, every wall lies in the arena, every border cell holds a wall,
    /// and the collectible lies inside the border on a cell without a wall.
    pub open spec fn playable(self) -> bool {
        &&& self.width >= 3
        &&& self.height >= 3
        &&& forall|i: int|
            0 <= i < self.walls.len() ==> in_arena(
                self.width,
                self.height,
                (#[trigger] self.walls[i]).position,
            )
        &&& forall|cell: Point2d<u16>| #[trigger]
            on_border(self.width, self.height, cell) ==> self.is_wall(cell)
        &&& self.is_free(self.collectible.position)
    }

    /// The player after the first step of a tick: one step forward, unless
    /// a wall stands where that step leads.
    pub open spec fn stepped_player(self) -> Player {
        if self.is_wall(self.player.forward().cell()) {
            self.player
        } else {
            Player { position: self.player.forward(), ..self.player }
        }
    }

    /// Whether the player, after its step, stands on the collectible.
    pub open spec fn picks_up(self) -> bool {
        self.stepped_player().position.cell() == self.collectible.position
    }

    /// The session one tick later, where `respawn` is the cell that the
    /// collectible moves to if the player picks it up at this tick.
    pub open spec fn tick(self, respawn: Point2d<u16>) -> GameView {
        let stepped = self.stepped_player();
        let enemies = chased(self.enemies, stepped.position);
        let struck = hits(enemies, stepped.position.cell());
        GameView {
            score: if self.picks_up() && self.score < u32::MAX {
                (self.score + 1) as u32
            } else {
                self.score
            },
            collectible: if self.picks_up() {
                Collectible { position: respawn }
            } else {
                self.collectible
            },
            enemies,
            player: Player {
                health: if stepped.health >= struck {
                    (stepped.health - struck) as u8
                } else {
                    0u8
                },
                ..stepped
            },
            ..self
        }
    }

    /// The frame that shows the session: the walls, the player, the
    /// enemies and the collectible, in this order, so that what comes later
    /// covers what came earlier on the same cell; then a line of bars on the
    /// row below the arena, and the status line on the row below that.
    pub open spec fn frame(self) -> Seq<StrokeView> {
        self.walls.map_values(|wall: Wall| stroke_of(wall)) + seq![stroke_of(self.player)]
            + self.enemies.map_values(|enemy: Enemy| stroke_of(enemy)) + seq![
            stroke_of(self.collectible),
        ] + seq![
            StrokeView {
                column: 0,
                row: self.height,
                text: separator_text(self.width),
                paint: Paint::Plain,
            },
        ] + hud_strokes(self.score, self.player, (self.height + 1) as u16)
    }

    /// The session after as many ticks as `respawns` is long, where the
    /// collectible, whenever it is picked up, moves to the cell that
    /// `respawns` holds for that tick.
    pub open spec fn after(self, respawns: Seq<Point2d<u16>>) -> GameView
        decreases respawns.len(),
    {
        if respawns.len() == 0 {
            self
        } else {
            self.after(respawns.drop_last()).tick(respawns.last())
        }
    }

    /// The session as `reset` leaves it before it sets it up again.
    pub open spec fn restarted(self) -> GameView {
        GameView { score: 0, player: self.player_builder.built(), ..self }
    }

    /// What `init` leaves of the session `before`: the border walls and,
    /// after them, as many walls inside the border as were asked for; the
    /// roster of eleven enemies, each inside the border; the collectible on
    /// a free cell; and the rest as it was.
    pub open spec fn set_up_from(self, before: GameView) -> bool {
        let border = border_len(self.width, self.height);
        &&& self.width == before.width
        &&& self.height == before.height
        &&& self.n_random_walls == before.n_random_walls
        &&& self.update_interval == before.update_interval
        &&& self.player_builder == before.player_builder
        &&& self.score == before.score
        &&& self.player == before.player
        &&& self.walls.len() == border + self.n_random_walls
        &&& forall|i: int|
            0 <= i < border ==> #[trigger] self.walls[i] == border_wall(self.width, self.height, i)
        &&& forall|i: int|
            border <= i < self.walls.len() ==> interior(
                self.width,
                self.height,
                (#[trigger] self.walls[i]).position,
            )
        &&& self.enemies.len() == ROSTER_SIZE
        &&& forall|i: int|
            0 <= i < self.enemies.len() ==> {
                let enemy = #[trigger] self.enemies[i];
                &&& enemy.speed.milli == ROSTER_STEP * (i + 1)
                &&& enemy.direction == (Point2d { x: Fixed { milli: 0 }, y: Fixed { milli: 0 } })
                &&& 1000 <= enemy.position.x.milli < (self.width - 1) * 1000
                &&& 1000 <= enemy.position.y.milli < (self.height - 1) * 1000
            }
        &&& self.is_free(self.collectible.position)
    }
}

/// The options of a session, as a [`GameBuilder`] holds them.
pub struct GameBuilderView {
    pub width: u16,
    pub height: u16,
    pub n_random_walls: u16,
    pub update_interval: u64,
    pub player_builder: PlayerBuilder,
    pub enemies: Seq<Enemy>,
    pub walls: Seq<Wall>,
}

impl GameBuilderView {
    /// The session that `build` makes of these options.
    pub open spec fn built(self) -> GameView {
        GameView {
            width: self.width,
            height: self.height,
            n_random_walls: self.n_random_walls,
            update_interval: self.update_interval,
            player_builder: self.player_builder,
            score: 0,
            walls: self.walls,
            enemies: self.enemies,
            collectible: Collectible { position: Point2d { x: 0, y: 0 } },
            player: self.player_builder.built(),
        }
    }

    /// The options that `GameBuilder::new` starts from.
    pub open spec fn initial() -> GameBuilderView {
        GameBuilderView {
            width: 80,
            height: 48,
            n_random_walls: 0,
            update_interval: 50,
            player_builder: PlayerBuilder {
                health: DEFAULT_HEALTH,
                speed: Fixed { milli: DEFAULT_SPEED },
                position: Point2d { x: Fixed { milli: 1000 }, y: Fixed { milli: 1000 } },
            },
            enemies: seq![
                Enemy {
                    position: Point2d { x: Fixed { milli: 0 }, y: Fixed { milli: 0 } },
                    speed: Fixed { milli: 100 },
                    direction: Point2d { x: Fixed { milli: 0 }, y: Fixed { milli: 0 } },
                },
                Enemy {
                    position: Point2d { x: Fixed { milli: 0 }, y: Fixed { milli: 0 } },
                    speed: Fixed { milli: 500 },
                    direction: Point2d { x: Fixed { milli: 0 }, y: Fixed { milli: 0 } },
                },
                Enemy {
                    position: Point2d { x: Fixed { milli: 0 }, y: Fixed { milli: 0 } },
                    speed: Fixed { milli: 800 },
                    direction: Point2d { x: Fixed { milli: 0 }, y: Fixed { milli: 0 } },
                },
            ],
            walls: Seq::empty(),
        }
    }
}

/// One tick leaves the arena and its walls alone, raises the score by one
/// or not at all, and never raises the player's health; a player that
/// stood clear of the walls still does; and a session that was set up
/// still is, if the collectible moves to a free cell.
pub proof fn lemma_tick_laws(before: GameView, respawn: Point2d<u16>)
    ensures
        before.tick(respawn).walls == before.walls,
        before.tick(respawn).width == before.width,
        before.tick(respawn).height == before.height,
        before.tick(respawn).score == before.score || before.tick(respawn).score == before.score + 1,
        before.tick(respawn).player.health <= before.player.health,
        before.player_clear() ==> before.tick(respawn).player_clear(),
        before.playable() && before.is_free(respawn) ==> before.tick(respawn).playable(),
{
}

/// Over any number of ticks the score never falls and rises by at most one
/// per tick, the player's health never rises, and a player that stood clear
/// of the walls at the start never stands on one.
pub proof fn lemma_play_laws(start: GameView, respawns: Seq<Point2d<u16>>)
    ensures
        start.after(respawns).walls == start.walls,
        start.score <= start.after(respawns).score <= start.score + respawns.len(),
        start.after(respawns).player.health <= start.player.health,
        start.player_clear() ==> start.after(respawns).player_clear(),
    decreases respawns.len(),
{
    if respawns.len() > 0 {
        lemma_play_laws(start, respawns.drop_last());
        lemma_tick_laws(start.after(respawns.drop_last()), respawns.last());
    }
}

/// A session that has been set up holds each border cell as a wall exactly
/// once, then as many walls inside the border as were asked for, and the
/// collectible on none of them; and it is ready for play.
pub proof fn lemma_set_up_laws(ready: GameView, before: GameView)
    requires
        ready.set_up_from(before),
        before.width >= 3,
        before.height >= 3,
    ensures
        ready.playable(),
        !ready.is_wall(ready.collectible.position),
        ready.walls.len() == 2 * before.width + 2 * before.height - 4 + before.n_random_walls,
        forall|cell: Point2d<u16>| #[trigger]
            on_border(ready.width, ready.height, cell) ==> ready.is_wall(cell),
        forall|i: int|
            0 <= i < border_len(ready.width, ready.height) ==> on_border(
                ready.width,
                ready.height,
                (#[trigger] ready.walls[i]).position,
            ),
        forall|i: int, j: int|
            0 <= i < j < border_len(ready.width, ready.height) ==> (#[trigger] ready.walls[i]).position
                != (#[trigger] ready.walls[j]).position,
        forall|i: int|
            border_len(ready.width, ready.height) <= i < ready.walls.len() ==> interior(
                ready.width,
                ready.height,
                (#[trigger] ready.walls[i]).position,
            ),
{
    lemma_border_covered(ready.width, ready.height, ready.walls);
    assert forall|i: int, j: int|
        0 <= i < j < border_len(ready.width, ready.height) implies (#[trigger] ready.walls[i]).position
        != (#[trigger] ready.walls[j]).position by {
        lemma_border_distinct(ready.width, ready.height, i, j);
    }
}

/// The border walls cover the border: a wall list that starts with them has
/// a wall on every border cell.
pub proof fn lemma_border_covered(width: u16, height: u16, walls: Seq<Wall>)
    requires
        width >= 2,
        height >= 2,
        walls.len() >= border_len(width, height),
        forall|i: int|
            0 <= i < border_len(width, height) ==> #[trigger] walls[i] == border_wall(
                width,
                height,
                i,
            ),
    ensures
        forall|cell: Point2d<u16>| #[trigger]
            on_border(width, height, cell) ==> wall_at(walls, cell),
        forall|i: int|
            0 <= i < border_len(width, height) ==> on_border(
                width,
                height,
                (#[trigger] walls[i]).position,
            ),
{
    assert forall|cell: Point2d<u16>| #[trigger] on_border(width, height, cell) implies wall_at(
        walls,
        cell,
    ) by {
        let i: int = if cell.y == 0 {
            2 * cell.x
        } else if cell.y == height - 1 {
            2 * cell.x + 1
        } else if cell.x == 0 {
            2 * width + 2 * (cell.y - 1)
        } else {
            2 * width + 2 * (cell.y - 1) + 1
        };
        assert(walls[i].position == cell);
    }
}

/// No two border walls share a cell.
pub proof fn lemma_border_distinct(width: u16, height: u16, i: int, j: int)
    requires
        width >= 2,
        height >= 2,
        0 <= i < j < border_len(width, height),
    ensures
        border_wall(width, height, i) != border_wall(width, height, j),
{
}

/// Where fewer walls stand inside the border than there are cells inside
/// it, one of those cells is free. `first` is the number of walls at the
/// head of the list that stand on the border.
pub proof fn lemma_free_cell_exists(view: GameView, first: int)
    requires
        view.width >= 3,
        view.height >= 3,
        0 <= first <= view.walls.len(),
        forall|i: int|
            0 <= i < first ==> !interior(view.width, view.height, (#[trigger] view.walls[i]).position),
        view.walls.len() - first < (view.width - 2) * (view.height - 2),
    ensures
        exists|cell: Point2d<u16>| #[trigger] view.is_free(cell),
{
    let w = view.width as int - 2;
    let h = view.height as int - 2;
    let walls = view.walls;
    if forall|cell: Point2d<u16>| !#[trigger] view.is_free(cell) {
        let slots = set_int_range(first, walls.len() as int);
        let number = |i: int| (walls[i].position.y - 1) * w + (walls[i].position.x - 1);
        let taken = slots.map(number);
        let cells = set_int_range(0, w * h);
        assert(w * h >= 1) by (nonlinear_arith)
            requires
                w >= 1,
                h >= 1,
        ;
        lemma_int_range(first, walls.len() as int);
        lemma_int_range(0, w * h);
        lemma_map_size_bound(slots, taken, number);
        assert forall|k: int| cells.contains(k) implies taken.contains(k) by {
            assert(0 <= k / w < h && 0 <= k % w < w && (k / w) * w + k % w == k)
                by (nonlinear_arith)
                requires
                    0 <= k < w * h,
                    w >= 1,
            ;
            let cell = Point2d { x: (1 + k % w) as u16, y: (1 + k / w) as u16 };
            assert(!view.is_free(cell));
            let i = choose|i: int| 0 <= i < walls.len() && (#[trigger] walls[i]).position == cell;
            assert(slots.contains(i));
        }
        lemma_len_subset(cells, taken);
    }
}

/// Counting the enemies in a cell one enemy further.
pub proof fn lemma_hits_step(enemies: Seq<Enemy>, n: int, cell: Point2d<u16>)
    requires
        0 <= n < enemies.len(),
    ensures
        hits(enemies.take(n + 1), cell) == hits(enemies.take(n), cell) + if enemies[n].position.cell()
            == cell {
            1nat
        } else {
            0nat
        },
{
    assert(enemies.take(n + 1).drop_last() == enemies.take(n));
}

} // verus!
