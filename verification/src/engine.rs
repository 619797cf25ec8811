//! The tick engine and the life of a session, as a machine that a driver
//! runs: the driver does what the machine asks for (prepares the terminal,
//! waits for a key, draws a frame, announces the end) and reports what came
//! of it together with the time; the machine decides what happens next.

use crate::game::Game;
use crate::world::{config_error, GameView, InitError};
use crate::input::{game_over_choice, Choice, Key};
use vstd::prelude::*;

verus! {

/// How long the driver waits for a key once the game is over, in
/// milliseconds.
pub const PROMPT_WAIT: u64 = 1000;

/// Where the machine stands between two reports of the driver.
#[derive(Clone, Copy, Debug, PartialEq, Eq, Structural)]
pub enum Stage {
    /// Nothing has been asked of the driver yet.
    Boot,
    /// The driver prepares the terminal.
    Preparing,
    /// A frame is open and the driver waits for a key.
    Polling,
    /// The world has been updated and the driver draws it.
    Drawing,
    /// The driver restores the terminal and announces the end of the game.
    Announcing,
    /// The game is over and the driver waits for a key.
    Over,
    /// The session has ended.
    Done,
}

/// What the machine asks of the driver.
#[derive(Clone, Copy, Debug, PartialEq, Eq, Structural)]
pub enum Request {
    /// Prepare the terminal, then report `Ready`.
    Prepare,
    /// Wait for one key for at most so many milliseconds, then report the
    /// key or `Timeout`.
    Poll(u64),
    /// Draw the world as it is now, then report `Rendered`.
    Render,
    /// Restore the terminal and announce the end of the game, then report
    /// `Announced`.
    Announce,
    /// Stop: the session cannot be set up.
    Abort(InitError),
    /// Stop.
    Exit,
}

/// What the driver reports.
#[derive(Clone, Copy, Debug, PartialEq, Eq, Structural)]
pub enum Event {
    Begin,
    Ready,
    Key(Key),
    Timeout,
    Rendered,
    Announced,
}

/// The state of the machine.
pub struct EngineView {
    pub game: GameView,
    pub stage: Stage,
    pub quit: bool,
    pub frame_start: u64,
}

impl EngineView {
    /// While a frame is open or being drawn, the session is set up. Every
    /// machine that this module hands out keeps to this.
    pub open spec fn wf(self) -> bool {
        self.stage == Stage::Polling || self.stage == Stage::Drawing ==> self.game.playable()
    }

    /// How much of the frame's time is left at `now`, in milliseconds.
    pub open spec fn remaining(self, now: u64) -> int {
        if now <= self.frame_start {
            self.game.update_interval as int
        } else {
            self.game.update_interval - (now - self.frame_start)
        }
    }

    /// The machine stops on a report that it did not ask for.
    pub open spec fn halts(self, next: EngineView, request: Request) -> bool {
        next == (EngineView { stage: Stage::Done, ..self }) && request == Request::Exit
    }

    /// The frame closes: the world moves on by one tick and is to be drawn.
    pub open spec fn closes_frame(self, next: EngineView, request: Request) -> bool {
        &&& next == (EngineView { game: next.game, stage: Stage::Drawing, ..self })
        &&& next.game == self.game.tick(next.game.collectible.position)
        &&& next.game.playable()
        &&& request == Request::Render
    }

    /// A frame opens at `now`: the driver is to wait for a key for the
    /// length of a tick; where that length is zero, the frame closes at
    /// once.
    pub open spec fn opens_frame(self, now: u64, next: EngineView, request: Request) -> bool {
        if self.game.update_interval > 0 {
            &&& next == (EngineView { stage: Stage::Polling, frame_start: now, ..self })
            &&& request == Request::Poll(self.game.update_interval)
        } else {
            (EngineView { frame_start: now, ..self }).closes_frame(next, request)
        }
    }

    /// Between two frames: another frame opens while the player is alive
    /// and no key has asked to quit; else the end of the game is to be
    /// announced.
    pub open spec fn proceeds(self, now: u64, next: EngineView, request: Request) -> bool {
        if self.game.player.health > 0 && !self.quit {
            self.opens_frame(now, next, request)
        } else {
            &&& next == (EngineView { stage: Stage::Announcing, ..self })
            &&& request == Request::Announce
        }
    }

    /// The machine goes on after a key, or after none, during a frame: the
    /// driver is to wait again while time is left, and the frame closes
    /// when none is.
    pub open spec fn goes_on(self, now: u64, next: EngineView, request: Request) -> bool {
        if self.remaining(now) > 0 {
            next == self && request == Request::Poll(self.remaining(now) as u64)
        } else {
            self.closes_frame(next, request)
        }
    }

    /// Whether the machine may answer `event`, reported at `now`, by going
    /// over to `next` and asking for `request`.
    pub open spec fn steps_to(self, event: Event, now: u64, next: EngineView, request: Request) -> bool {
        match (self.stage, event) {
            (Stage::Boot, Event::Begin) => {
                &&& next == (EngineView { stage: Stage::Preparing, ..self })
                &&& request == Request::Prepare
            },
            (Stage::Preparing, Event::Ready) => match config_error(
                self.game.width,
                self.game.height,
                self.game.n_random_walls,
            ) {
                Some(error) => {
                    &&& next == (EngineView { stage: Stage::Done, ..self })
                    &&& request == Request::Abort(error)
                },
                None => exists|ready: GameView|
                    {
                        &&& #[trigger] ready.set_up_from(self.game)
                        &&& ready.playable()
                        &&& (EngineView { game: ready, quit: false, ..self }).proceeds(
                            now,
                            next,
                            request,
                        )
                    },
            },
            (Stage::Polling, Event::Key(key)) => (EngineView {
                game: GameView {
                    player: match key.heading() {
                        Some(heading) => crate::unit::Player { heading, ..self.game.player },
                        None => self.game.player,
                    },
                    ..self.game
                },
                quit: self.quit || key.quits(),
                ..self
            }).goes_on(now, next, request),
            (Stage::Polling, Event::Timeout) => self.closes_frame(next, request),
            (Stage::Drawing, Event::Rendered) => self.proceeds(now, next, request),
            (Stage::Announcing, Event::Announced) => {
                &&& next == (EngineView { stage: Stage::Over, ..self })
                &&& request == Request::Poll(PROMPT_WAIT)
            },
            (Stage::Over, Event::Key(key)) => match key.choice() {
                Choice::Restart => match config_error(
                    self.game.width,
                    self.game.height,
                    self.game.n_random_walls,
                ) {
                    Some(error) => {
                        &&& next == (EngineView {
                            game: self.game.restarted(),
                            stage: Stage::Done,
                            ..self
                        })
                        &&& request == Request::Abort(error)
                    },
                    None => {
                        &&& next == (EngineView { game: next.game, stage: Stage::Preparing, ..self })
                        &&& next.game.set_up_from(self.game.restarted())
                        &&& next.game.playable()
                        &&& request == Request::Prepare
                    },
                },
                Choice::Quit => {
                    &&& next == (EngineView { stage: Stage::Done, ..self })
                    &&& request == Request::Exit
                },
                Choice::Wait => next == self && request == Request::Poll(PROMPT_WAIT),
            },
            (Stage::Over, Event::Timeout) => next == self && request == Request::Poll(PROMPT_WAIT),
            _ => self.halts(next, request),
        }
    }
}

/// The machine that runs a session.
pub struct Engine {
    game: Game,
    stage: Stage,
    quit: bool,
    frame_start: u64,
}

impl View for Engine {
    type V = EngineView;

    closed spec fn view(&self) -> EngineView {
        EngineView {
            game: self.game@,
            stage: self.stage,
            quit: self.quit,
            frame_start: self.frame_start,
        }
    }
}

impl Engine {
    /// A machine for `game`, with nothing asked of the driver yet.
    pub fn new(game: Game) -> (engine: Engine)
        ensures
            engine@ == (EngineView { game: game@, stage: Stage::Boot, quit: false, frame_start: 0 }),
            engine@.wf(),
    {
        Engine { game, stage: Stage::Boot, quit: false, frame_start: 0 }
    }

    /// The session.
    pub fn game(&self) -> (game: &Game)
        ensures
            game@ == self@.game,
    {
        &self.game
    }

    pub fn stage(&self) -> (stage: Stage)
        ensures
            stage == self@.stage,
    {
        self.stage
    }

    /// Whether a key has asked to quit during play.
    pub fn quit(&self) -> (quit: bool)
        ensures
            quit == self@.quit,
    {
        self.quit
    }

    /// Whether the machine is as this module hands it out.
    pub fn is_well_formed(&self) -> (ok: bool)
        ensures
            ok == self@.wf(),
    {
        match self.stage {
            Stage::Polling => self.game.is_playable(),
            Stage::Drawing => self.game.is_playable(),
            _ => true,
        }
    }

    /// Stops the machine.
    fn halt(&mut self) -> (request: Request)
        ensures
            old(self)@.halts(final(self)@, request),
    {
        self.stage = Stage::Done;
        Request::Exit
    }

    /// Moves the world on by one tick and asks for it to be drawn.
    fn close_frame(&mut self) -> (request: Request)
        requires
            old(self)@.game.playable(),
        ensures
            old(self)@.closes_frame(final(self)@, request),
    {
        self.stage = Stage::Drawing;
        self.game.update();
        Request::Render
    }

    /// Opens a frame at `now`.
    fn open_frame(&mut self, now: u64) -> (request: Request)
        requires
            old(self)@.game.playable(),
        ensures
            old(self)@.opens_frame(now, final(self)@, request),
    {
        self.frame_start = now;
        let interval: u64 = self.game.update_interval();
        if interval > 0 {
            self.stage = Stage::Polling;
            Request::Poll(interval)
        } else {
            self.close_frame()
        }
    }

    /// Opens another frame at `now`, or ends the game.
    fn proceed(&mut self, now: u64) -> (request: Request)
        requires
            old(self)@.game.playable(),
        ensures
            old(self)@.proceeds(now, final(self)@, request),
    {
        if self.game.player().is_alive() && !self.quit {
            self.open_frame(now)
        } else {
            self.stage = Stage::Announcing;
            Request::Announce
        }
    }

    /// Answers what the driver reports at `now`, in milliseconds on a
    /// clock that does not run backwards, with what the driver is to do
    /// next.
    pub fn step(&mut self, event: Event, now: u64) -> (request: Request)
        requires
            old(self)@.wf(),
        ensures
            old(self)@.steps_to(event, now, final(self)@, request),
            final(self)@.wf(),
    {
        match self.stage {
            Stage::Boot => match event {
                Event::Begin => {
                    self.stage = Stage::Preparing;
                    Request::Prepare
                },
                _ => self.halt(),
            },
            Stage::Preparing => match event {
                Event::Ready => match self.game.init() {
                    Ok(()) => {
                        self.quit = false;
                        self.proceed(now)
                    },
                    Err(error) => {
                        self.stage = Stage::Done;
                        Request::Abort(error)
                    },
                },
                _ => self.halt(),
            },
            Stage::Polling => match event {
                Event::Key(key) => {
                    self.game.handle_key(key, &mut self.quit);
                    let interval: u64 = self.game.update_interval();
                    let elapsed: u64 = if now <= self.frame_start {
                        0
                    } else {
                        now - self.frame_start
                    };
                    if elapsed < interval {
                        Request::Poll(interval - elapsed)
                    } else {
                        self.close_frame()
                    }
                },
                Event::Timeout => self.close_frame(),
                _ => self.halt(),
            },
            Stage::Drawing => match event {
                Event::Rendered => self.proceed(now),
                _ => self.halt(),
            },
            Stage::Announcing => match event {
                Event::Announced => {
                    self.stage = Stage::Over;
                    Request::Poll(PROMPT_WAIT)
                },
                _ => self.halt(),
            },
            Stage::Over => match event {
                Event::Key(key) => match game_over_choice(key) {
                    Choice::Restart => match self.game.reset() {
                        Ok(()) => {
                            self.stage = Stage::Preparing;
                            Request::Prepare
                        },
                        Err(error) => {
                            self.stage = Stage::Done;
                            Request::Abort(error)
                        },
                    },
                    Choice::Quit => {
                        self.stage = Stage::Done;
                        Request::Exit
                    },
                    Choice::Wait => Request::Poll(PROMPT_WAIT),
                },
                Event::Timeout => Request::Poll(PROMPT_WAIT),
                _ => self.halt(),
            },
            Stage::Done => self.halt(),
        }
    }
}

} // verus!
