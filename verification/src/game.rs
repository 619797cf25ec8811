//! A session of the game: how it is configured, built and set up, what one
//! tick does to it, and how it is shown.

use crate::hud::Hud;
use crate::input::{handle_key_event, Key};
use crate::point::{Fixed, Point2d};
use crate::random::thread_generator;
use crate::text::push_decimal;
use crate::traits::Position;
use crate::ui::draw::{pictured, stroke_of, Draw, Paint, Stroke, StrokeView};
use crate::unit::{Collectible, Enemy, Player, PlayerBuilder, Wall};
use crate::world::{
    border_len, border_wall, chased, config_error, game_over_text, hits, in_arena, interior,
    lemma_border_covered, lemma_free_cell_exists, lemma_hits_step, on_border, separator_text,
    wall_at, GameBuilderView, GameView, InitError, ROSTER_SIZE, ROSTER_STEP,
};
use rand::rngs::ThreadRng;
use vstd::prelude::*;

verus! {

/// How often a random cell is drawn for the collectible before the arena is
/// searched row by row.
pub const RESPAWN_DRAWS: u32 = 65_536;

/// The options of a session, set one by one before the session is built.
pub struct GameBuilder {
    height: u16,
    width: u16,
    n_random_walls: u16,
    update_interval: u64,
    player_builder: PlayerBuilder,
    enemies: Vec<Enemy>,
    walls: Vec<Wall>,
}

impl View for GameBuilder {
    type V = GameBuilderView;

    closed spec fn view(&self) -> GameBuilderView {
        GameBuilderView {
            width: self.width,
            height: self.height,
            n_random_walls: self.n_random_walls,
            update_interval: self.update_interval,
            player_builder: self.player_builder,
            enemies: self.enemies@,
            walls: self.walls@,
        }
    }
}

impl GameBuilder {
    /// The options of an arena of 80 by 48 cells without random walls, a
    /// tick of 50 milliseconds, a player with the default health and speed,
    /// and three enemies of speeds 0.1, 0.5 and 0.8.
    pub fn new() -> (builder: GameBuilder)
        ensures
            builder@ == GameBuilderView::initial(),
    {
        let builder = GameBuilder {
            height: 48,
            width: 80,
            player_builder: PlayerBuilder::new(),
            n_random_walls: 0,
            update_interval: 50,
            enemies: vec![
                Enemy::with_speed(Fixed::from_milli(100)),
                Enemy::with_speed(Fixed::from_milli(500)),
                Enemy::with_speed(Fixed::from_milli(800)),
            ],
            walls: Vec::new(),
        };
        builder
    }

    /// Sets the number of columns of the arena.
    pub fn width(self, width: u16) -> (builder: GameBuilder)
        ensures
            builder@ == (GameBuilderView { width, ..self@ }),
    {
        let mut builder = self;
        builder.width = width;
        builder
    }

    /// Sets the number of rows of the arena.
    pub fn height(self, height: u16) -> (builder: GameBuilder)
        ensures
            builder@ == (GameBuilderView { height, ..self@ }),
    {
        let mut builder = self;
        builder.height = height;
        builder
    }

    /// Sets the health that the player starts with.
    pub fn player_starting_health(self, health: u8) -> (builder: GameBuilder)
        ensures
            builder@ == (GameBuilderView {
                player_builder: PlayerBuilder { health, ..self@.player_builder },
                ..self@
            }),
    {
        let mut builder = self;
        builder.player_builder = builder.player_builder.health(health);
        builder
    }

    /// Sets the speed that the player starts with.
    pub fn player_starting_speed(self, speed: Fixed) -> (builder: GameBuilder)
        ensures
            builder@ == (GameBuilderView {
                player_builder: PlayerBuilder { speed, ..self@.player_builder },
                ..self@
            }),
    {
        let mut builder = self;
        builder.player_builder = builder.player_builder.speed(speed);
        builder
    }

    /// Sets the number of walls that `init` places at random inside the
    /// border.
    pub fn n_random_walls(self, n_random_walls: u16) -> (builder: GameBuilder)
        ensures
            builder@ == (GameBuilderView { n_random_walls, ..self@ }),
    {
        let mut builder = self;
        builder.n_random_walls = n_random_walls;
        builder
    }

    /// Sets the length of a tick, in milliseconds.
    pub fn update_interval(self, update_interval: u64) -> (builder: GameBuilder)
        ensures
            builder@ == (GameBuilderView { update_interval, ..self@ }),
    {
        let mut builder = self;
        builder.update_interval = update_interval;
        builder
    }

    /// Sets the enemies that the session holds until `init` replaces them.
    pub fn enemies(self, enemies: Vec<Enemy>) -> (builder: GameBuilder)
        ensures
            builder@ == (GameBuilderView { enemies: enemies@, ..self@ }),
    {
        let mut builder = self;
        builder.enemies = enemies;
        builder
    }

    /// Sets the walls that the session holds until `init` replaces them.
    pub fn walls(self, walls: Vec<Wall>) -> (builder: GameBuilder)
        ensures
            builder@ == (GameBuilderView { walls: walls@, ..self@ }),
    {
        let mut builder = self;
        builder.walls = walls;
        builder
    }

    /// The session with these options: the score at zero, the player built
    /// from its options, the collectible on the cell in column 0 and row 0,
    /// and a random source of its own.
    pub fn build(self) -> (game: Game)
        ensures
            game@ == self@.built(),
    {
        let player_builder = self.player_builder;
        Game {
            height: self.height,
            width: self.width,
            n_random_walls: self.n_random_walls,
            update_interval_millis: self.update_interval,
            enemies: self.enemies,
            walls: self.walls,
            collectible: Collectible::default(),
            player: self.player_builder.build(),
            player_builder,
            rng: thread_generator(),
            score: 0,
        }
    }
}

/// A session of the game: the arena, what stands in it, the score, and the
/// random source that places things.
pub struct Game {
    height: u16,
    width: u16,
    score: u32,
    enemies: Vec<Enemy>,
    n_random_walls: u16,
    walls: Vec<Wall>,
    collectible: Collectible,
    player: Player,
    player_builder: PlayerBuilder,
    rng: ThreadRng,
    update_interval_millis: u64,
}

impl View for Game {
    type V = GameView;

    closed spec fn view(&self) -> GameView {
        GameView {
            width: self.width,
            height: self.height,
            n_random_walls: self.n_random_walls,
            update_interval: self.update_interval_millis,
            player_builder: self.player_builder,
            score: self.score,
            walls: self.walls@,
            enemies: self.enemies@,
            collectible: self.collectible,
            player: self.player,
        }
    }
}

impl Game {
    /// A session with the options that `GameBuilder::new` starts from.
    pub fn new() -> (game: Game)
        ensures
            game@ == GameBuilderView::initial().built(),
    {
        Self::builder().build()
    }

    /// The options to build a session from.
    pub fn builder() -> (builder: GameBuilder)
        ensures
            builder@ == GameBuilderView::initial(),
    {
        GameBuilder::new()
    }

    /// Sets the session up: replaces the walls by the border walls and as
    /// many walls inside the border as the configuration asks for, each on
    /// a cell drawn at random; replaces the enemies by the roster of eleven,
    /// each at a point drawn at random inside the border; and puts the
    /// collectible on a free cell. The player and the score stay.
    ///
    /// Fails, and changes nothing, where the arena has no inside or where
    /// the random walls could fill it.
    pub fn init(&mut self) -> (result: Result<(), InitError>)
        ensures
            match result {
                Ok(()) => {
                    &&& config_error(
                        old(self)@.width,
                        old(self)@.height,
                        old(self)@.n_random_walls,
                    ) is None
                    &&& final(self)@.set_up_from(old(self)@)
                    &&& final(self)@.playable()
                    &&& final(self)@.walls.len() == 2 * old(self)@.width + 2 * old(self)@.height - 4
                        + old(self)@.n_random_walls
                    &&& !final(self)@.is_wall(final(self)@.collectible.position)
                },
                Err(error) => {
                    &&& config_error(
                        old(self)@.width,
                        old(self)@.height,
                        old(self)@.n_random_walls,
                    ) == Some(error)
                    &&& final(self)@ == old(self)@
                },
            },
    {
        if self.width < 3 || self.height < 3 {
            return Err(InitError::ArenaTooSmall);
        }
        let columns: u64 = (self.width - 2) as u64;
        let rows: u64 = (self.height - 2) as u64;
        assert(columns * rows <= 0xffff * 0xffff) by (nonlinear_arith)
            requires
                columns <= 0xffff,
                rows <= 0xffff,
        ;
        if self.n_random_walls as u64 >= columns * rows {
            return Err(InitError::TooManyWalls);
        }
        let ghost border = border_len(self.width, self.height);

        self.walls.clear();
        let mut x: u16 = 0;
        while x < self.width
            invariant
                self@ == (GameView { walls: self@.walls, ..old(self)@ }),
                self.width >= 3,
                self.height >= 3,
                x <= self.width,
                self.walls@.len() == 2 * x,
                forall|i: int|
                    0 <= i < 2 * x ==> #[trigger] self.walls@[i] == border_wall(
                        self.width,
                        self.height,
                        i,
                    ),
            decreases self.width - x,
        {
            self.walls.push(Wall::new(x, 0));
            self.walls.push(Wall::new(x, self.height - 1));
            x += 1;
        }
        let mut y: u16 = 1;
        while y < self.height - 1
            invariant
                self@ == (GameView { walls: self@.walls, ..old(self)@ }),
                self.width >= 3,
                self.height >= 3,
                1 <= y <= self.height - 1,
                self.walls@.len() == 2 * self.width + 2 * (y - 1),
                forall|i: int|
                    0 <= i < self.walls@.len() ==> #[trigger] self.walls@[i] == border_wall(
                        self.width,
                        self.height,
                        i,
                    ),
            decreases self.height - y,
        {
            self.walls.push(Wall::new(0, y));
            self.walls.push(Wall::new(self.width - 1, y));
            y += 1;
        }

        let mut placed: u16 = 0;
        while placed < self.n_random_walls
            invariant
                self@ == (GameView { walls: self@.walls, ..old(self)@ }),
                self.width >= 3,
                self.height >= 3,
                border == border_len(self.width, self.height),
                placed <= self.n_random_walls,
                self.walls@.len() == border + placed,
                forall|i: int|
                    0 <= i < border ==> #[trigger] self.walls@[i] == border_wall(
                        self.width,
                        self.height,
                        i,
                    ),
                forall|i: int|
                    border <= i < self.walls@.len() ==> interior(
                        self.width,
                        self.height,
                        (#[trigger] self.walls@[i]).position,
                    ),
            decreases self.n_random_walls - placed,
        {
            let mut wall = Wall::default();
            wall.set_rand_position(&mut self.rng, 1..self.width - 1, 1..self.height - 1);
            self.walls.push(wall);
            placed += 1;
        }

        let ghost placed_walls = self.walls@;
        self.enemies.clear();
        let mut rank: usize = 0;
        while rank < ROSTER_SIZE
            invariant
                self@ == (GameView { walls: placed_walls, enemies: self@.enemies, ..old(self)@ }),
                self.width >= 3,
                self.height >= 3,
                rank <= ROSTER_SIZE,
                self.enemies@.len() == rank,
                forall|i: int|
                    0 <= i < rank ==> {
                        let enemy = #[trigger] self.enemies@[i];
                        &&& enemy.speed.milli == ROSTER_STEP * (i + 1)
                        &&& enemy.direction == (Point2d {
                            x: Fixed { milli: 0 },
                            y: Fixed { milli: 0 },
                        })
                        &&& 1000 <= enemy.position.x.milli < (self.width - 1) * 1000
                        &&& 1000 <= enemy.position.y.milli < (self.height - 1) * 1000
                    },
            decreases ROSTER_SIZE - rank,
        {
            let factor: i32 = rank as i32 + 1;
            let mut enemy = Enemy::with_speed(Fixed::from_milli(ROSTER_STEP * factor));
            enemy.set_rand_position(
                &mut self.rng,
                Fixed::from_cell(1)..Fixed::from_cell(self.width - 1),
                Fixed::from_cell(1)..Fixed::from_cell(self.height - 1),
            );
            self.enemies.push(enemy);
            rank += 1;
        }

        self.collectible = Collectible::default();
        proof {
            lemma_border_covered(self.width, self.height, self.walls@);
            lemma_free_cell_exists(self@, border);
        }
        self.respawn_collectible();
        Ok(())
    }

    /// One tick of the world, in four steps. The player takes a step
    /// forward unless a wall stands where the step leads. If the player
    /// then stands on the collectible, the score goes up by one, unless it
    /// has reached the largest value it can hold, and the collectible moves
    /// to a free cell. Every enemy pursues the player.
    /// Every enemy that then shares the player's cell costs the player one
    /// point of health.
    ///
    /// Only the cell that the collectible moves to is left to chance.
    pub fn update(&mut self)
        requires
            old(self)@.playable(),
        ensures
            final(self)@ == old(self)@.tick(final(self)@.collectible.position),
            final(self)@.playable(),
            old(self)@.player_clear() ==> final(self)@.player_clear(),
            final(self)@.score == old(self)@.score || final(self)@.score == old(self)@.score + 1,
            final(self)@.player.health <= old(self)@.player.health,
    {
        let player_next_position = self.player.forward_position();
        if !blocks(&self.walls, player_next_position.round()) {
            self.player.move_forward();
        }
        if self.player.position.round() == self.collectible.position {
            if self.score < u32::MAX {
                self.score += 1;
            }
            assert(self@.is_free(self@.collectible.position));
            self.respawn_collectible();
        }
        let ghost stepped = self.player;

        let mut i: usize = 0;
        while i < self.enemies.len()
            invariant
                self@ == (GameView {
                    enemies: self@.enemies,
                    player: stepped,
                    ..old(self)@.tick(self@.collectible.position)
                }),
                self@.playable(),
                stepped == old(self)@.stepped_player(),
                i <= self.enemies@.len() == old(self)@.enemies.len(),
                forall|j: int|
                    0 <= j < i ==> #[trigger] self.enemies@[j] == old(self)@.enemies[j].chasing(
                        stepped.position,
                    ),
                forall|j: int|
                    i <= j < self.enemies@.len() ==> #[trigger] self.enemies@[j] == old(self)@.enemies[j],
            decreases self.enemies.len() - i,
        {
            let mut enemy = self.enemies[i];
            enemy.move_towards_player(&self.player);
            self.enemies.set(i, enemy);
            i += 1;
        }
        assert(self.enemies@ == chased(old(self)@.enemies, stepped.position));

        let cell = self.player.position.round();
        let mut k: usize = 0;
        while k < self.enemies.len()
            invariant
                self@ == (GameView { player: self@.player, ..old(self)@.tick(self@.collectible.position) }),
                self@.player == (Player { health: self@.player.health, ..stepped }),
                self@.playable(),
                cell == stepped.position.cell(),
                k <= self.enemies@.len(),
                self@.player.health == if stepped.health >= hits(self.enemies@.take(k as int), cell) {
                    stepped.health - hits(self.enemies@.take(k as int), cell)
                } else {
                    0
                },
            decreases self.enemies.len() - k,
        {
            proof {
                lemma_hits_step(self.enemies@, k as int, cell);
            }
            if self.enemies[k].position.round() == cell {
                self.player.take_damage(1);
            }
            k += 1;
        }
        assert(self.enemies@.take(self.enemies@.len() as int) == self.enemies@);
    }

    /// Composes the frame that shows the session.
    pub fn draw(&self) -> (frame: Vec<Stroke>)
        requires
            self@.height < u16::MAX,
        ensures
            pictured(frame@) == self@.frame(),
    {
        let mut frame: Vec<Stroke> = Vec::new();
        let ghost walls = self@.walls.map_values(|wall: Wall| stroke_of(wall));
        let ghost enemies = self@.enemies.map_values(|enemy: Enemy| stroke_of(enemy));

        let mut i: usize = 0;
        while i < self.walls.len()
            invariant
                i <= self.walls@.len(),
                walls == self@.walls.map_values(|wall: Wall| stroke_of(wall)),
                pictured(frame@) == walls.take(i as int),
            decreases self.walls.len() - i,
        {
            self.walls[i].draw(&mut frame);
            i += 1;
        }
        self.player.draw(&mut frame);
        let ghost before = pictured(frame@);

        let mut k: usize = 0;
        while k < self.enemies.len()
            invariant
                k <= self.enemies@.len(),
                enemies == self@.enemies.map_values(|enemy: Enemy| stroke_of(enemy)),
                pictured(frame@) == before + enemies.take(k as int),
            decreases self.enemies.len() - k,
        {
            self.enemies[k].draw(&mut frame);
            assert(before + enemies.take(k + 1) =~= (before + enemies.take(k as int)).push(
                stroke_of(self.enemies@[k as int]),
            ));
            k += 1;
        }
        self.collectible.draw(&mut frame);
        let ghost entities = pictured(frame@);
        assert(entities =~= walls + seq![stroke_of(self@.player)] + enemies + seq![
            stroke_of(self@.collectible),
        ]);

        let separator_y = self.height;
        let mut line = String::new();
        let mut drawn: u16 = 0;
        while drawn < self.width
            invariant
                drawn <= self.width,
                line@ == separator_text(drawn),
            decreases self.width - drawn,
        {
            line.append("\u{2500}");
            drawn += 1;
        }
        frame.push(Stroke { column: 0, row: separator_y, text: line, paint: Paint::Plain });
        assert(pictured(frame@) =~= entities + seq![
            StrokeView {
                column: 0,
                row: self@.height,
                text: separator_text(self@.width),
                paint: Paint::Plain,
            },
        ]);

        let hud_y = separator_y + 1;
        Hud::new(self.score, &self.player, hud_y).draw(&mut frame);
        frame
    }

    /// Starts the session over: the score goes back to zero, the player is
    /// built anew from the options it was first built from, the random
    /// source is taken anew, and the session is set up as by `init`.
    pub fn reset(&mut self) -> (result: Result<(), InitError>)
        ensures
            final(self)@.score == 0,
            final(self)@.player == old(self)@.player_builder.built(),
            final(self)@.player.health == old(self)@.player_builder.health,
            match result {
                Ok(()) => {
                    &&& config_error(
                        old(self)@.width,
                        old(self)@.height,
                        old(self)@.n_random_walls,
                    ) is None
                    &&& final(self)@.set_up_from(old(self)@.restarted())
                    &&& final(self)@.playable()
                },
                Err(error) => {
                    &&& config_error(
                        old(self)@.width,
                        old(self)@.height,
                        old(self)@.n_random_walls,
                    ) == Some(error)
                    &&& final(self)@ == old(self)@.restarted()
                },
            },
    {
        self.score = 0;
        self.player = self.player_builder.build();
        self.rng = thread_generator();
        self.init()
    }

    /// What is to be printed when the game is over: the score, and which
    /// keys start the game again or quit.
    pub fn game_over_message(&self) -> (message: String)
        ensures
            message@ == game_over_text(self@.score),
    {
        let mut message = String::from_str("\nGame over! Score: ");
        push_decimal(&mut message, self.score as u64);
        message.append("\n");
        message.append("Press R(r) to restart or Q(q) to quit\n");
        message
    }

    /// Applies a key pressed during play to the player and to `quit`, as
    /// [`handle_key_event`] does.
    pub fn handle_key(&mut self, key: Key, quit: &mut bool)
        ensures
            final(self)@ == (GameView {
                player: match key.heading() {
                    Some(heading) => Player { heading, ..old(self)@.player },
                    None => old(self)@.player,
                },
                ..old(self)@
            }),
            *final(quit) == (*old(quit) || key.quits()),
    {
        handle_key_event(key, &mut self.player, quit);
    }

    /// Whether the session is set up, so that `update` may be called.
    pub fn is_playable(&self) -> (playable: bool)
        ensures
            playable == self@.playable(),
    {
        if self.width < 3 || self.height < 3 {
            return false;
        }
        let mut i: usize = 0;
        while i < self.walls.len()
            invariant
                i <= self.walls@.len(),
                forall|j: int|
                    0 <= j < i ==> in_arena(self.width, self.height, (#[trigger] self.walls@[j]).position),
            decreases self.walls.len() - i,
        {
            let at = self.walls[i].position;
            if at.x >= self.width || at.y >= self.height {
                return false;
            }
            i += 1;
        }
        let mut x: u16 = 0;
        while x < self.width
            invariant
                self.width >= 3,
                self.height >= 3,
                x <= self.width,
                forall|cell: Point2d<u16>|
                    cell.x < x && (cell.y == 0 || cell.y == self.height - 1) ==> #[trigger] wall_at(
                        self.walls@,
                        cell,
                    ),
            decreases self.width - x,
        {
            let top = Point2d { x, y: 0 };
            let bottom = Point2d { x, y: self.height - 1 };
            if !blocks(&self.walls, top) {
                assert(on_border(self.width, self.height, top));
                return false;
            }
            if !blocks(&self.walls, bottom) {
                assert(on_border(self.width, self.height, bottom));
                return false;
            }
            x += 1;
        }
        let mut y: u16 = 0;
        while y < self.height
            invariant
                self.width >= 3,
                self.height >= 3,
                y <= self.height,
                forall|cell: Point2d<u16>|
                    cell.y < y && (cell.x == 0 || cell.x == self.width - 1) ==> #[trigger] wall_at(
                        self.walls@,
                        cell,
                    ),
            decreases self.height - y,
        {
            let left = Point2d { x: 0, y };
            let right = Point2d { x: self.width - 1, y };
            if !blocks(&self.walls, left) {
                assert(on_border(self.width, self.height, left));
                return false;
            }
            if !blocks(&self.walls, right) {
                assert(on_border(self.width, self.height, right));
                return false;
            }
            y += 1;
        }
        let at = self.collectible.position;
        at.x >= 1 && at.x < self.width - 1 && at.y >= 1 && at.y < self.height - 1 && !blocks(
            &self.walls,
            at,
        )
    }

    pub fn width(&self) -> (width: u16)
        ensures
            width == self@.width,
    {
        self.width
    }

    pub fn height(&self) -> (height: u16)
        ensures
            height == self@.height,
    {
        self.height
    }

    pub fn score(&self) -> (score: u32)
        ensures
            score == self@.score,
    {
        self.score
    }

    pub fn n_random_walls(&self) -> (n: u16)
        ensures
            n == self@.n_random_walls,
    {
        self.n_random_walls
    }

    /// The length of a tick, in milliseconds.
    pub fn update_interval(&self) -> (millis: u64)
        ensures
            millis == self@.update_interval,
    {
        self.update_interval_millis
    }

    pub fn player(&self) -> (player: &Player)
        ensures
            *player == self@.player,
    {
        &self.player
    }

    pub fn collectible(&self) -> (collectible: &Collectible)
        ensures
            *collectible == self@.collectible,
    {
        &self.collectible
    }

    pub fn walls(&self) -> (walls: &Vec<Wall>)
        ensures
            walls@ == self@.walls,
    {
        &self.walls
    }

    pub fn enemies(&self) -> (enemies: &Vec<Enemy>)
        ensures
            enemies@ == self@.enemies,
    {
        &self.enemies
    }

    /// Replaces the player.
    pub fn set_player(&mut self, player: Player)
        ensures
            final(self)@ == (GameView { player, ..old(self)@ }),
    {
        self.player = player;
    }

    /// Replaces the enemies.
    pub fn set_enemies(&mut self, enemies: Vec<Enemy>)
        ensures
            final(self)@ == (GameView { enemies: enemies@, ..old(self)@ }),
    {
        self.enemies = enemies;
    }

    /// Moves the collectible to `cell` if that cell lies inside the border
    /// and holds no wall, and says whether it did.
    pub fn place_collectible(&mut self, cell: Point2d<u16>) -> (placed: bool)
        ensures
            placed == old(self)@.is_free(cell),
            final(self)@ == if placed {
                GameView { collectible: Collectible { position: cell }, ..old(self)@ }
            } else {
                old(self)@
            },
    {
        if self.width < 3 || self.height < 3 {
            return false;
        }
        if cell.x < 1 || cell.x >= self.width - 1 || cell.y < 1 || cell.y >= self.height - 1 {
            return false;
        }
        if blocks(&self.walls, cell) {
            return false;
        }
        self.collectible.set_position(cell);
        true
    }

    /// Moves the collectible to a free cell: to the first free one among
    /// cells drawn at random from inside the border or, after many draws
    /// without one, to the first free cell that a search finds.
    fn respawn_collectible(&mut self)
        requires
            old(self)@.width >= 3,
            old(self)@.height >= 3,
            exists|cell: Point2d<u16>| #[trigger] old(self)@.is_free(cell),
        ensures
            final(self)@ == (GameView { collectible: final(self)@.collectible, ..old(self)@ }),
            final(self)@.is_free(final(self)@.collectible.position),
    {
        let mut draws: u32 = 0;
        while draws < RESPAWN_DRAWS
            invariant
                self@ == (GameView { collectible: self@.collectible, ..old(self)@ }),
                self.width >= 3,
                self.height >= 3,
            decreases RESPAWN_DRAWS - draws,
        {
            self.collectible.set_rand_position(
                &mut self.rng,
                1..self.width - 1,
                1..self.height - 1,
            );
            if !blocks(&self.walls, self.collectible.position) {
                return ;
            }
            draws += 1;
        }
        match self.first_free_cell() {
            Some(cell) => {
                self.collectible.set_position(cell);
            },
            None => {
                proof {
                    let cell = choose|cell: Point2d<u16>| #[trigger] old(self)@.is_free(cell);
                    assert(self@.is_free(cell));
                }
            },
        }
    }

    /// The first cell inside the border that holds no wall, going through
    /// the rows from the top and through each row from the left.
    fn first_free_cell(&self) -> (found: Option<Point2d<u16>>)
        requires
            self@.width >= 3,
            self@.height >= 3,
        ensures
            match found {
                Some(cell) => self@.is_free(cell),
                None => forall|cell: Point2d<u16>| !#[trigger] self@.is_free(cell),
            },
    {
        let mut y: u16 = 1;
        while y < self.height - 1
            invariant
                self.width >= 3,
                self.height >= 3,
                1 <= y <= self.height - 1,
                forall|cell: Point2d<u16>| cell.y < y ==> !#[trigger] self@.is_free(cell),
            decreases self.height - y,
        {
            let mut x: u16 = 1;
            while x < self.width - 1
                invariant
                    self.width >= 3,
                    self.height >= 3,
                    1 <= y < self.height - 1,
                    1 <= x <= self.width - 1,
                    forall|cell: Point2d<u16>|
                        cell.y < y || (cell.y == y && cell.x < x) ==> !#[trigger] self@.is_free(cell),
                decreases self.width - x,
            {
                let cell = Point2d { x, y };
                if !blocks(&self.walls, cell) {
                    return Some(cell);
                }
                x += 1;
            }
            y += 1;
        }
        None
    }
}

impl Default for Game {
    fn default() -> (game: Game)
        ensures
            game@ == GameBuilderView::initial().built(),
    {
        Self::builder().build()
    }
}

/// Whether one of `walls` stands on `cell`.
pub fn blocks(walls: &Vec<Wall>, cell: Point2d<u16>) -> (found: bool)
    ensures
        found == wall_at(walls@, cell),
{
    let mut i: usize = 0;
    while i < walls.len()
        invariant
            i <= walls.len(),
            forall|j: int| 0 <= j < i ==> (#[trigger] walls@[j]).position != cell,
        decreases walls.len() - i,
    {
        if walls[i].position == cell {
            return true;
        }
        i += 1;
    }
    false
}

} // verus!
